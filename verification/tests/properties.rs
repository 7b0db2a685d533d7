use std::mem::size_of;

use smart_string::{
    InlineBuffer, Repr, SmartString, SmartStringKind, StringManager, LENGTH_MASK, MAX_SIZE,
};

#[test]
fn footprint_matches_owned_string() {
    assert_eq!(size_of::<SmartString>(), size_of::<String>());
    assert_eq!(MAX_SIZE, size_of::<String>());
    assert_eq!(size_of::<InlineBuffer>(), MAX_SIZE);
}

#[test]
fn inline_round_trip_short() {
    let manager = StringManager::new();
    for text in ["", "a", "hello", "abcdefghijklmnopqrstuvw"] {
        let value = SmartString::try_inline(text).unwrap();
        assert_eq!(value.kind(), SmartStringKind::Inlined);
        assert_eq!(value.len(), text.len());
        assert_eq!(value.as_str(&manager), Some(text.to_string()));
    }
}

#[test]
fn inline_round_trip_at_boundary() {
    let manager = StringManager::new();
    let ascii = "abcdefghijklmnopqrstuvwx";
    assert_eq!(ascii.len(), 24);
    let value = SmartString::try_inline(ascii).unwrap();
    assert_eq!(value.kind(), SmartStringKind::Inlined);
    assert_eq!(value.len(), 24);
    assert_eq!(value.as_str(&manager), Some(ascii.to_string()));

    let multibyte = "abcdefghijklmnopqrstuv\u{e9}";
    assert_eq!(multibyte.len(), 24);
    let value = SmartString::try_inline(multibyte).unwrap();
    assert_eq!(value.kind(), SmartStringKind::Inlined);
    assert_eq!(value.len(), 24);
    assert_eq!(value.as_str(&manager), Some(multibyte.to_string()));
}

#[test]
fn boundary_routing() {
    let mut manager = StringManager::new();
    let at_capacity = "abcdefghijklmnopqrstuvwx";
    let over_capacity = "abcdefghijklmnopqrstuvwxy";
    assert_eq!(at_capacity.len(), 24);
    assert_eq!(over_capacity.len(), 25);
    let inlined = SmartString::new(at_capacity, &mut manager);
    let managed = SmartString::new(over_capacity, &mut manager);
    assert_eq!(inlined.kind(), SmartStringKind::Inlined);
    assert_eq!(managed.kind(), SmartStringKind::Managed);
    assert_eq!(inlined.len(), 24);
    assert_eq!(managed.len(), 25);
    assert_eq!(inlined.as_str(&manager), Some(at_capacity.to_string()));
    assert_eq!(managed.as_str(&manager), Some(over_capacity.to_string()));
}

#[test]
fn try_inline_refuses_long_text() {
    assert!(SmartString::try_inline("abcdefghijklmnopqrstuvwxy").is_none());
    assert!(SmartString::try_inline("abcdefghijklmnopqrstuvwx").is_some());
}

#[test]
fn length_after_every_constructor() {
    let mut manager = StringManager::new();
    let text = "twenty-five bytes long!!!";
    assert_eq!(text.len(), 25);
    assert_eq!(SmartString::heap(text).len(), 25);
    assert_eq!(SmartString::static_str("static body").len(), 11);
    assert_eq!(SmartString::try_managed(text.to_string(), &mut manager).len(), 25);
    assert_eq!(SmartString::managed(text, &mut manager).len(), 25);
    assert_eq!(SmartString::inlined("abc").len(), 3);
    assert_eq!(SmartString::new(text, &mut manager).len(), 25);
    let multibyte = "caf\u{e9}";
    assert_eq!(SmartString::heap(multibyte).len(), 5);
}

#[test]
fn interning_idempotent() {
    let mut manager = StringManager::new();
    let k1 = manager.insert("one stored body".to_string());
    let k2 = manager.insert("one stored body".to_string());
    assert_eq!(k1, k2);
    assert_eq!(manager.get(k1), Some("one stored body".to_string()));
}

#[test]
fn interning_distinct() {
    let mut manager = StringManager::new();
    let ka = manager.insert("first body".to_string());
    let kb = manager.insert("second body".to_string());
    assert_ne!(ka, kb);
    assert_eq!(manager.get(ka), Some("first body".to_string()));
    assert_eq!(manager.get(kb), Some("second body".to_string()));
}

#[test]
fn interning_many_distinct() {
    let mut manager = StringManager::new();
    let mut keys = Vec::new();
    for i in 0..64 {
        let body = format!("body number {}", i);
        keys.push((manager.insert(body.clone()), body));
    }
    for (i, (key, body)) in keys.iter().enumerate() {
        assert_eq!(manager.get(*key), Some(body.clone()));
        for (other, _) in keys.iter().skip(i + 1) {
            assert_ne!(key, other);
        }
    }
}

#[test]
fn managed_from_two_call_sites() {
    let mut manager = StringManager::new();
    let first = SmartString::managed("a", &mut manager);
    let second = SmartString::managed("a", &mut manager);
    assert_eq!(first.kind(), SmartStringKind::Managed);
    assert_eq!(second.kind(), SmartStringKind::Managed);
    assert_eq!(first.as_str(&manager), Some("a".to_string()));
    assert_eq!(second.as_str(&manager), Some("a".to_string()));
    match (&first.repr, &second.repr) {
        (
            Repr::Managed { key: k1, length: l1 },
            Repr::Managed { key: k2, length: l2 },
        ) => {
            assert_eq!(k1, k2);
            assert_eq!(l1, l2);
        }
        _ => panic!("both values must be managed"),
    }
}

#[test]
fn absent_key_reads_as_none() {
    let manager = StringManager::new();
    assert_eq!(manager.get(7), None);
    let dangling = SmartString { repr: Repr::Managed { key: 7, length: 3 } };
    assert_eq!(dangling.as_str(&manager), None);
    assert_eq!(dangling.as_managed(&manager), None);
}

#[test]
fn static_accessors() {
    let value = SmartString::static_str("process lifetime");
    assert_eq!(value.kind(), SmartStringKind::Static);
    assert_eq!(value.as_static(), Some("process lifetime"));
    assert_eq!(value.as_managed(&StringManager::new()), None);
    let other = SmartString::heap("owned");
    assert_eq!(other.as_static(), None);
}

#[test]
fn buffer_encode_decode() {
    let empty = InlineBuffer::empty();
    assert_eq!(empty.get_len(), 0);
    assert_eq!(empty.as_str(), "");

    let near = InlineBuffer::new_const("abcdefghijklmnopqrstuvw");
    assert_eq!(near.get_len(), 23);
    assert_eq!(near.as_str(), "abcdefghijklmnopqrstuvw");

    let full = InlineBuffer::new_const("abcdefghijklmnopqrstuvwx");
    assert_eq!(full.get_len(), 24);
    assert_eq!(full.as_str(), "abcdefghijklmnopqrstuvwx");

    assert_eq!(near.copy(), near);
    let wrapped = full.as_smart_string();
    assert_eq!(wrapped.kind(), SmartStringKind::Inlined);
    assert_eq!(wrapped.len(), 24);
}

#[test]
fn packed_final_byte() {
    assert_eq!(InlineBuffer::empty().last_byte(), LENGTH_MASK);
    assert_eq!(InlineBuffer::new_const("abc").last_byte(), 3 | LENGTH_MASK);
    assert_eq!(
        InlineBuffer::new_const("abcdefghijklmnopqrstuvw").last_byte(),
        23 | LENGTH_MASK
    );
    let full = InlineBuffer::new_const("abcdefghijklmnopqrstuvwx");
    assert_eq!(full.last_byte(), b'x');
    assert!(full.last_byte() & LENGTH_MASK != LENGTH_MASK);
}

#[test]
fn buffer_set_len_shrinks() {
    let mut buffer = InlineBuffer::new_const("hello");
    buffer.set_len(3);
    assert_eq!(buffer.get_len(), 3);
    assert_eq!(buffer.as_str(), "hel");

    let mut full = InlineBuffer::new_const("abcdefghijklmnopqrstuvwx");
    full.set_len(24);
    assert_eq!(full.get_len(), 24);
    full.set_len(1);
    assert_eq!(full.as_str(), "a");
}

#[test]
fn default_is_empty_inline() {
    let manager = StringManager::new();
    let value = SmartString::default();
    assert_eq!(value.kind(), SmartStringKind::Inlined);
    assert_eq!(value.len(), 0);
    assert_eq!(value.as_str(&manager), Some(String::new()));
    let fresh = StringManager::default();
    assert_eq!(fresh.get(0), None);
}

#[test]
fn heap_round_trip() {
    let manager = StringManager::new();
    let text = "an exclusively owned heap body";
    let value = SmartString::heap(text);
    assert_eq!(value.kind(), SmartStringKind::Heap);
    assert_eq!(value.as_str(&manager), Some(text.to_string()));
}
