use tray_lifecycle::commands::greet;
use tray_lifecycle::text::str_eq;

#[test]
fn greets_world() {
    assert_eq!(greet("World"), "Hello, World! You've been greeted from Rust!");
}

#[test]
fn greets_nobody() {
    assert_eq!(greet(""), "Hello, ! You've been greeted from Rust!");
}

#[test]
fn greeting_keeps_the_name_as_it_is() {
    assert_eq!(greet("Thoát {0}\n"), "Hello, Thoát {0}\n! You've been greeted from Rust!");
    assert_eq!(greet("  a b  "), "Hello,   a b  ! You've been greeted from Rust!");
}

#[test]
fn equal_slices_are_equal() {
    assert!(str_eq("", ""));
    assert!(str_eq("quit", "quit"));
    assert!(str_eq("Hiện DinoMoney", "Hiện DinoMoney"));
    let built = format!("{}{}", "sh", "ow");
    assert!(str_eq(&built, "show"));
}

#[test]
fn slices_of_different_length_differ() {
    assert!(!str_eq("", "a"));
    assert!(!str_eq("show", "shows"));
    assert!(!str_eq("shows", "show"));
}

#[test]
fn slices_of_equal_length_differ_by_content() {
    assert!(!str_eq("show", "quit"));
    assert!(!str_eq("show", "shoW"));
    assert!(!str_eq("é", "ab"));
    assert!(!str_eq("Hiện", "Hiên"));
}
