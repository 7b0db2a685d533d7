use std::mem::size_of;

use smart_string::{SmartString, StringManager};

#[test]
fn test_size_of() {
    assert_eq!(size_of::<SmartString>(), size_of::<String>())
}

#[test]
fn mod_test() {
    let mut manager = StringManager::new();
    let s1 = SmartString::managed("a", &mut manager);
    let s2 = SmartString::managed("a", &mut manager);
    println!("{:?}", s1);
    println!("{:?}", s2);
}
