//! The default-behavior suppression policy.
//!
//! A fixed set of listeners is installed on the surface once, at creation
//! time. Each listener belongs to one event category, each category is
//! governed by one policy, and each policy decides, from the event's own
//! data, whether the browser's default handling is cancelled and whether
//! the surface asks for input focus.

use vstd::prelude::*;

verus! {

/// The modifier keys reported alongside a keyboard event.
#[derive(Clone, Copy, PartialEq, Eq, Structural, Debug)]
pub struct Modifiers {
    pub ctrl: bool,
    pub shift: bool,
    pub alt: bool,
    pub meta: bool,
}

/// What a listener does with one incoming event: cancel the browser's
/// default handling, request input focus on the surface, both, or neither.
#[derive(Clone, Copy, PartialEq, Eq, Structural, Debug)]
pub struct Reaction {
    pub prevent_default: bool,
    pub request_focus: bool,
}

/// The event categories for which a listener is installed on the surface.
#[derive(Clone, Copy, PartialEq, Eq, Structural, Debug)]
pub enum EventCategory {
    TouchStart,
    Wheel,
    ContextMenu,
    PointerDown,
    PointerMove,
    KeyUp,
    KeyDown,
}

/// The suppression policy that governs a category.
#[derive(Clone, Copy, PartialEq, Eq, Structural, Debug)]
pub enum Policy {
    /// Unconditionally cancel the default behavior.
    FullPrevent,
    /// Cancel the default behavior and request input focus on the surface.
    FocusAndPrevent,
    /// Cancel and focus only while a pointer button is concurrently held.
    ChordedFocusAndPrevent,
    /// Cancel unless the event is the print-shortcut passthrough.
    PartialPrevent,
}

/// The static category-to-policy table.
pub open spec fn policy_spec(c: EventCategory) -> Policy {
    match c {
        EventCategory::TouchStart => Policy::FullPrevent,
        EventCategory::Wheel => Policy::FullPrevent,
        EventCategory::ContextMenu => Policy::FullPrevent,
        EventCategory::PointerDown => Policy::FocusAndPrevent,
        EventCategory::PointerMove => Policy::ChordedFocusAndPrevent,
        EventCategory::KeyUp => Policy::PartialPrevent,
        EventCategory::KeyDown => Policy::PartialPrevent,
    }
}

/// Look a category's policy up in the table.
pub fn policy_for(c: EventCategory) -> (p: Policy)
    ensures
        p == policy_spec(c),
{
    match c {
        EventCategory::TouchStart => Policy::FullPrevent,
        EventCategory::Wheel => Policy::FullPrevent,
        EventCategory::ContextMenu => Policy::FullPrevent,
        EventCategory::PointerDown => Policy::FocusAndPrevent,
        EventCategory::PointerMove => Policy::ChordedFocusAndPrevent,
        EventCategory::KeyUp => Policy::PartialPrevent,
        EventCategory::KeyDown => Policy::PartialPrevent,
    }
}

/// The name under which a category's listener is registered on the surface.
pub open spec fn category_name(c: EventCategory) -> Seq<char> {
    match c {
        EventCategory::TouchStart => "touchstart"@,
        EventCategory::Wheel => "wheel"@,
        EventCategory::ContextMenu => "contextmenu"@,
        EventCategory::PointerDown => "pointerdown"@,
        EventCategory::PointerMove => "pointermove"@,
        EventCategory::KeyUp => "keyup"@,
        EventCategory::KeyDown => "keydown"@,
    }
}

/// The registration name of a category, as handed to the embedding document.
pub fn event_type_name(c: EventCategory) -> (r: &'static str)
    ensures
        r@ == category_name(c),
{
    match c {
        EventCategory::TouchStart => "touchstart",
        EventCategory::Wheel => "wheel",
        EventCategory::ContextMenu => "contextmenu",
        EventCategory::PointerDown => "pointerdown",
        EventCategory::PointerMove => "pointermove",
        EventCategory::KeyUp => "keyup",
        EventCategory::KeyDown => "keydown",
    }
}

/// Parse an event-type name back into its category, if any listener is
/// registered under that name.
pub fn category_of(event_type: &str) -> (r: Option<EventCategory>)
    ensures
        match r {
            Some(c) => event_type@ == category_name(c),
            None => forall|c: EventCategory| event_type@ != category_name(c),
        },
{
    if crate::text::str_eq(event_type, "touchstart") {
        Some(EventCategory::TouchStart)
    } else if crate::text::str_eq(event_type, "wheel") {
        Some(EventCategory::Wheel)
    } else if crate::text::str_eq(event_type, "contextmenu") {
        Some(EventCategory::ContextMenu)
    } else if crate::text::str_eq(event_type, "pointerdown") {
        Some(EventCategory::PointerDown)
    } else if crate::text::str_eq(event_type, "pointermove") {
        Some(EventCategory::PointerMove)
    } else if crate::text::str_eq(event_type, "keyup") {
        Some(EventCategory::KeyUp)
    } else if crate::text::str_eq(event_type, "keydown") {
        Some(EventCategory::KeyDown)
    } else {
        proof {
            assert forall|c: EventCategory| event_type@ != category_name(c) by {
                match c {
                    EventCategory::TouchStart => {},
                    EventCategory::Wheel => {},
                    EventCategory::ContextMenu => {},
                    EventCategory::PointerDown => {},
                    EventCategory::PointerMove => {},
                    EventCategory::KeyUp => {},
                    EventCategory::KeyDown => {},
                }
            }
        }
        None
    }
}

/// Distinct categories are registered under distinct names, so an
/// event-type name identifies at most one listener.
pub proof fn lemma_category_names_distinct(c1: EventCategory, c2: EventCategory)
    requires
        c1 != c2,
    ensures
        category_name(c1) != category_name(c2),
{
    reveal_strlit("touchstart");
    reveal_strlit("wheel");
    reveal_strlit("contextmenu");
    reveal_strlit("pointerdown");
    reveal_strlit("pointermove");
    reveal_strlit("keyup");
    reveal_strlit("keydown");
    assert("touchstart"@.len() == 10 && "wheel"@.len() == 5 && "contextmenu"@.len() == 11
        && "pointerdown"@.len() == 11 && "pointermove"@.len() == 11 && "keyup"@.len() == 5
        && "keydown"@.len() == 7);
    assert("wheel"@[0] == 'w' && "keyup"@[0] == 'k');
    assert("contextmenu"@[0] == 'c' && "pointerdown"@[0] == 'p' && "pointermove"@[0] == 'p');
    assert("pointerdown"@[7] == 'd' && "pointermove"@[7] == 'm');
}

/// The key identity whose chord with Ctrl is the OS print shortcut.
pub open spec fn print_shortcut_key() -> Seq<char> {
    "p"@
}

/// Ctrl is held and no other modifier is.
pub open spec fn only_ctrl_held(m: Modifiers) -> bool {
    m.ctrl && !m.meta && !m.shift && !m.alt
}

/// In the partial-prevent category the default behavior passes through
/// exactly when Ctrl is the only modifier held and the key is the print
/// shortcut's letter.
pub open spec fn key_allows_default(m: Modifiers, key: Seq<char>) -> bool {
    only_ctrl_held(m) && key == print_shortcut_key()
}

/// Reaction of the partial-prevent category: cancel the default behavior
/// unless the event is exactly the print-shortcut chord; never focus.
pub open spec fn key_reaction_spec(m: Modifiers, key: Seq<char>) -> Reaction {
    Reaction { prevent_default: !key_allows_default(m, key), request_focus: false }
}

/// Decide the reaction to a key-up or key-down event from its modifiers
/// and key identity.
pub fn key_reaction(m: Modifiers, key: &str) -> (r: Reaction)
    ensures
        r == key_reaction_spec(m, key@),
{
    let only_ctrl = m.ctrl && !m.meta && !m.shift && !m.alt;
    let allow_default = only_ctrl && crate::text::str_eq(key, "p");
    Reaction { prevent_default: !allow_default, request_focus: false }
}

/// Reaction of the chorded-focus category: a pointer move counts as a
/// chorded interaction exactly when a pointer button is concurrently held,
/// which the platform reports as a non-negative button code.
pub open spec fn pointer_move_reaction_spec(button: int) -> Reaction {
    Reaction { prevent_default: button >= 0, request_focus: button >= 0 }
}

/// Decide the reaction to a pointer-move event from its button code.
pub fn pointer_move_reaction(button: i32) -> (r: Reaction)
    ensures
        r == pointer_move_reaction_spec(button as int),
{
    let chorded = button >= 0;
    Reaction { prevent_default: chorded, request_focus: chorded }
}

/// What a listener of category `c` does with an event carrying modifiers
/// `m`, key identity `key` and button code `button`; a category that does
/// not consult a field ignores it.
pub open spec fn reaction_spec(c: EventCategory, m: Modifiers, key: Seq<char>, button: int) -> Reaction {
    match policy_spec(c) {
        Policy::FullPrevent => Reaction { prevent_default: true, request_focus: false },
        Policy::FocusAndPrevent => Reaction { prevent_default: true, request_focus: true },
        Policy::ChordedFocusAndPrevent => pointer_move_reaction_spec(button),
        Policy::PartialPrevent => key_reaction_spec(m, key),
    }
}

/// Decide the reaction of any category's listener to one incoming event.
pub fn reaction(c: EventCategory, m: Modifiers, key: &str, button: i32) -> (r: Reaction)
    ensures
        r == reaction_spec(c, m, key@, button as int),
{
    match policy_for(c) {
        Policy::FullPrevent => Reaction { prevent_default: true, request_focus: false },
        Policy::FocusAndPrevent => Reaction { prevent_default: true, request_focus: true },
        Policy::ChordedFocusAndPrevent => pointer_move_reaction(button),
        Policy::PartialPrevent => key_reaction(m, key),
    }
}

/// The full set of listener registrations, in installation order. It is
/// installed exactly once, at surface creation, and retained for the
/// surface's lifetime.
pub open spec fn listener_plan() -> Seq<EventCategory> {
    seq![
        EventCategory::TouchStart,
        EventCategory::Wheel,
        EventCategory::ContextMenu,
        EventCategory::PointerDown,
        EventCategory::PointerMove,
        EventCategory::KeyUp,
        EventCategory::KeyDown,
    ]
}

/// The categories to register listeners for, in installation order.
pub fn listener_categories() -> (v: Vec<EventCategory>)
    ensures
        v@ == listener_plan(),
{
    let mut v: Vec<EventCategory> = Vec::new();
    v.push(EventCategory::TouchStart);
    v.push(EventCategory::Wheel);
    v.push(EventCategory::ContextMenu);
    v.push(EventCategory::PointerDown);
    v.push(EventCategory::PointerMove);
    v.push(EventCategory::KeyUp);
    v.push(EventCategory::KeyDown);
    proof {
        assert(v@ =~= listener_plan());
    }
    v
}

/// The slot a category occupies in the installation order.
spec fn plan_slot(c: EventCategory) -> int {
    match c {
        EventCategory::TouchStart => 0,
        EventCategory::Wheel => 1,
        EventCategory::ContextMenu => 2,
        EventCategory::PointerDown => 3,
        EventCategory::PointerMove => 4,
        EventCategory::KeyUp => 5,
        EventCategory::KeyDown => 6,
    }
}

proof fn lemma_plan_slot(i: int)
    requires
        0 <= i < listener_plan().len(),
    ensures
        plan_slot(listener_plan()[i]) == i,
{
}

/// Each listener is registered exactly once: the installation plan names
/// every category, and no category twice.
pub proof fn lemma_listener_plan_unique()
    ensures
        forall|i: int, j: int|
            0 <= i < j < listener_plan().len() ==> listener_plan()[i] != listener_plan()[j],
        forall|c: EventCategory| #[trigger] listener_plan().contains(c),
{
    assert forall|i: int, j: int|
        0 <= i < j < listener_plan().len() implies listener_plan()[i] != listener_plan()[j] by {
        lemma_plan_slot(i);
        lemma_plan_slot(j);
    }
    assert forall|c: EventCategory| #[trigger] listener_plan().contains(c) by {
        let i = plan_slot(c);
        lemma_plan_slot(i);
        assert(0 <= i < listener_plan().len() && listener_plan()[i] == c);
    }
}

/// In the partial-prevent category, the default behavior passes through
/// exactly for "Ctrl held, no other modifier, key is the print shortcut's
/// letter"; every other combination in the category is cancelled, and a
/// keyboard event never requests focus.
pub proof fn lemma_print_shortcut_passthrough(m: Modifiers, key: Seq<char>)
    ensures
        !key_reaction_spec(m, key).prevent_default <==> (m.ctrl && !m.shift && !m.alt && !m.meta
            && key == print_shortcut_key()),
        !key_reaction_spec(m, key).request_focus,
{
}

/// In the chorded-focus category, a pointer move with button code -1
/// triggers neither prevention nor a focus request, and one with a
/// non-negative button code always triggers both.
pub proof fn lemma_chorded_pointer_move(button: int)
    ensures
        button == -1 ==> !pointer_move_reaction_spec(button).prevent_default
            && !pointer_move_reaction_spec(button).request_focus,
        button >= 0 ==> pointer_move_reaction_spec(button).prevent_default
            && pointer_move_reaction_spec(button).request_focus,
{
}

} // verus!
