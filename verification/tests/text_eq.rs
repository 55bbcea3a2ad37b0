use surface_host::text::str_eq;

#[test]
fn equal_strings_compare_equal() {
    assert!(str_eq("", ""));
    assert!(str_eq("p", "p"));
    assert!(str_eq("pointermove", "pointermove"));
}

#[test]
fn different_strings_compare_unequal() {
    assert!(!str_eq("p", "q"));
    assert!(!str_eq("p", ""));
    assert!(!str_eq("", "p"));
    assert!(!str_eq("pointerdown", "pointermove"));
    assert!(!str_eq("keydown", "keydownn"));
}
