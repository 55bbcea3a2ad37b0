use surface_host::suppress::{
    category_of, event_type_name, key_reaction, listener_categories, pointer_move_reaction,
    policy_for, reaction, EventCategory, Modifiers, Policy,
};

fn mods(ctrl: bool, shift: bool, alt: bool, meta: bool) -> Modifiers {
    Modifiers { ctrl, shift, alt, meta }
}

#[test]
fn policy_table_matches_the_design() {
    assert_eq!(policy_for(EventCategory::TouchStart), Policy::FullPrevent);
    assert_eq!(policy_for(EventCategory::Wheel), Policy::FullPrevent);
    assert_eq!(policy_for(EventCategory::ContextMenu), Policy::FullPrevent);
    assert_eq!(policy_for(EventCategory::PointerDown), Policy::FocusAndPrevent);
    assert_eq!(policy_for(EventCategory::PointerMove), Policy::ChordedFocusAndPrevent);
    assert_eq!(policy_for(EventCategory::KeyUp), Policy::PartialPrevent);
    assert_eq!(policy_for(EventCategory::KeyDown), Policy::PartialPrevent);
}

#[test]
fn registration_names_round_trip() {
    let names = [
        "touchstart",
        "wheel",
        "contextmenu",
        "pointerdown",
        "pointermove",
        "keyup",
        "keydown",
    ];
    for name in names {
        let c = category_of(name).expect("a listener is registered under this name");
        assert_eq!(event_type_name(c), name);
    }
    assert_eq!(category_of("touchstart"), Some(EventCategory::TouchStart));
    assert_eq!(category_of("keydown"), Some(EventCategory::KeyDown));
    assert_eq!(category_of("click"), None);
    assert_eq!(category_of(""), None);
    assert_eq!(category_of("keydow"), None);
    assert_eq!(category_of("keydownn"), None);
}

#[test]
fn listener_plan_is_complete_and_duplicate_free() {
    let plan = listener_categories();
    assert_eq!(
        plan,
        vec![
            EventCategory::TouchStart,
            EventCategory::Wheel,
            EventCategory::ContextMenu,
            EventCategory::PointerDown,
            EventCategory::PointerMove,
            EventCategory::KeyUp,
            EventCategory::KeyDown,
        ]
    );
    for i in 0..plan.len() {
        for j in (i + 1)..plan.len() {
            assert_ne!(plan[i], plan[j]);
        }
    }
}

#[test]
fn print_shortcut_passes_through() {
    let r = key_reaction(mods(true, false, false, false), "p");
    assert!(!r.prevent_default);
    assert!(!r.request_focus);
}

#[test]
fn other_key_combinations_are_cancelled() {
    // Any other modifier combination with "p" is cancelled.
    assert!(key_reaction(mods(false, false, false, false), "p").prevent_default);
    assert!(key_reaction(mods(true, true, false, false), "p").prevent_default);
    assert!(key_reaction(mods(true, false, true, false), "p").prevent_default);
    assert!(key_reaction(mods(true, false, false, true), "p").prevent_default);
    assert!(key_reaction(mods(true, true, true, true), "p").prevent_default);
    // Any other key value with the Ctrl-only chord is cancelled.
    assert!(key_reaction(mods(true, false, false, false), "q").prevent_default);
    assert!(key_reaction(mods(true, false, false, false), "P").prevent_default);
    assert!(key_reaction(mods(true, false, false, false), "pp").prevent_default);
    assert!(key_reaction(mods(true, false, false, false), "").prevent_default);
    assert!(key_reaction(mods(true, false, false, false), "Control").prevent_default);
    // A keyboard event never requests focus.
    assert!(!key_reaction(mods(true, true, false, false), "p").request_focus);
    assert!(!key_reaction(mods(false, false, false, false), "x").request_focus);
}

#[test]
fn pointer_move_reacts_only_to_a_chord() {
    let hover = pointer_move_reaction(-1);
    assert!(!hover.prevent_default);
    assert!(!hover.request_focus);
    for button in [0, 1, 2, 4, i32::MAX] {
        let chord = pointer_move_reaction(button);
        assert!(chord.prevent_default);
        assert!(chord.request_focus);
    }
}

#[test]
fn dispatcher_follows_each_policy() {
    let plain = mods(false, false, false, false);
    let full = reaction(EventCategory::Wheel, plain, "", -1);
    assert!(full.prevent_default && !full.request_focus);
    let touch = reaction(EventCategory::TouchStart, plain, "", -1);
    assert!(touch.prevent_default && !touch.request_focus);
    let menu = reaction(EventCategory::ContextMenu, plain, "", -1);
    assert!(menu.prevent_default && !menu.request_focus);
    let down = reaction(EventCategory::PointerDown, plain, "", -1);
    assert!(down.prevent_default && down.request_focus);
    let hover = reaction(EventCategory::PointerMove, plain, "", -1);
    assert!(!hover.prevent_default && !hover.request_focus);
    let drag = reaction(EventCategory::PointerMove, plain, "", 0);
    assert!(drag.prevent_default && drag.request_focus);
    let shortcut = reaction(EventCategory::KeyDown, mods(true, false, false, false), "p", -1);
    assert!(!shortcut.prevent_default && !shortcut.request_focus);
    let key = reaction(EventCategory::KeyUp, mods(true, true, false, false), "p", -1);
    assert!(key.prevent_default && !key.request_focus);
}
