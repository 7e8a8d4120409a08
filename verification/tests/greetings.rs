use greetings::{greet, A, B, C, D};

#[test]
fn test_a() {
    let a = A::new("test".to_string());
    assert!(a.greet().contains("Hello from A"));
}

#[test]
fn test_b() {
    let b = B::new("test".to_string());
    assert!(b.greet().contains("Hello from B"));
}

#[test]
fn test_d() {
    let d = D::new("test".to_string());
    assert_eq!(d.greet(), "Hello from D: test");
}

#[test]
fn leaf_c_exact_greeting() {
    let c = C::new("test".to_string());
    assert_eq!(c.greet(), "Hello from C: test");
}

#[test]
fn leaf_d_exact_greeting_other_name() {
    let d = D::new("somebody".to_string());
    assert_eq!(d.greet(), "Hello from D: somebody");
}

#[test]
fn full_chain_greeting() {
    let a = A::new("test".to_string());
    assert_eq!(
        a.greet(),
        "Hello from A: test, Hello from B: from A, Hello from C: from B"
    );
}

#[test]
fn composite_b_exact_greeting() {
    let b = B::new("test".to_string());
    assert_eq!(b.greet(), "Hello from B: test, Hello from C: from B");
}

#[test]
fn standalone_greeting() {
    assert_eq!(greet("World"), "Hello, World!");
}

#[test]
fn empty_names() {
    assert_eq!(C::new(String::new()).greet(), "Hello from C: ");
    assert_eq!(D::new(String::new()).greet(), "Hello from D: ");
    assert_eq!(greet(""), "Hello, !");
}

#[test]
fn hardcoded_child_names() {
    let a = A::new("x".to_string());
    assert_eq!(a.b.name, "from A");
    assert_eq!(a.b.c.name, "from B");
    let b = B::new("y".to_string());
    assert_eq!(b.c.name, "from B");
}
