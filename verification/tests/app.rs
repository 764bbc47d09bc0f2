use walk_the_dog::sound::LOOPING;

// This runs a unit test in native Rust, so it can only use Rust APIs.
#[test]
fn rust_test() {
    assert_eq!(1, 1);
}

#[test]
fn looping_has_two_values() {
    assert_ne!(LOOPING::NO, LOOPING::YES);
    assert!(matches!(LOOPING::YES, LOOPING::YES));
}
