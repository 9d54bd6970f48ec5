use app_shell::command::greet;

#[test]
fn greets_world() {
    assert_eq!(greet("World"), "Hello, World! You've been greeted from Rust!");
}

#[test]
fn greets_empty_name() {
    assert_eq!(greet(""), "Hello, ! You've been greeted from Rust!");
}

#[test]
fn keeps_whitespace_as_given() {
    assert_eq!(
        greet("  Ada \t Lovelace\n"),
        "Hello,   Ada \t Lovelace\n! You've been greeted from Rust!"
    );
}

#[test]
fn keeps_formatting_characters_as_given() {
    assert_eq!(greet("{}"), "Hello, {}! You've been greeted from Rust!");
    assert_eq!(greet("{name}"), "Hello, {name}! You've been greeted from Rust!");
    assert_eq!(greet("%s\\n"), "Hello, %s\\n! You've been greeted from Rust!");
    assert_eq!(
        greet("<b>\"&\"</b>"),
        "Hello, <b>\"&\"</b>! You've been greeted from Rust!"
    );
}

#[test]
fn keeps_characters_outside_ascii() {
    assert_eq!(greet("สวัสดี"), "Hello, สวัสดี! You've been greeted from Rust!");
}

#[test]
fn greeting_is_name_plus_thirty_nine_characters() {
    let name = "x".repeat(10_000);
    let out = greet(&name);
    assert_eq!(out.chars().count(), 10_039);
    assert!(out.starts_with("Hello, "));
    assert!(out.ends_with("! You've been greeted from Rust!"));
    assert_eq!(&out[7..10_007], name.as_str());
}

#[test]
fn same_name_same_greeting() {
    assert_eq!(greet("Grace"), greet("Grace"));
    assert_ne!(greet("Grace"), greet("grace"));
}
