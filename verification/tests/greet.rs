use greeter::greet;

#[test]
fn greet_empty_name() {
    assert_eq!(greet(""), "Hello, ! You've been greeted from Rust!");
}

#[test]
fn greet_world() {
    assert_eq!(greet("World"), "Hello, World! You've been greeted from Rust!");
}

#[test]
fn greet_splices_name_into_template() {
    assert_eq!(greet("Ada"), "Hello, Ada! You've been greeted from Rust!");
}

#[test]
fn greet_keeps_non_ascii_names() {
    assert_eq!(greet("José"), "Hello, José! You've been greeted from Rust!");
}

#[test]
fn greet_repeated_calls_agree() {
    let first = greet("World");
    let second = greet("World");
    assert_eq!(first, second);
}
