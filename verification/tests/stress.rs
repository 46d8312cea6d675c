use str_interner::StrInterner;

#[test]
fn repeated_acquire_and_drop_keeps_content_intact() {
    let interner = StrInterner::new();
    let inputs = ["", "alpha", "beta", "gamma", "\u{3b4}\u{3ad}\u{3bb}\u{3c4}\u{3b1}"];
    let mut kept = Vec::new();
    for k in 0..4000usize {
        let text = inputs[k % inputs.len()];
        let handle = interner.get(text);
        assert_eq!(handle.as_str(), text);
        assert!(inputs.contains(&handle.as_str()));
        if k % 3 == 0 {
            kept.push(handle.clone());
        }
        if k % 7 == 0 {
            kept.clear();
        }
        drop(handle);
    }
    for handle in &kept {
        assert!(inputs.contains(&handle.as_str()));
    }
    // After the storm, the pool still serves every input faithfully.
    for text in inputs {
        assert_eq!(interner.get(text).as_str(), text);
    }
}

#[test]
fn overlapping_acquires_of_same_content() {
    let interner = StrInterner::new();
    let a = interner.get("foo");
    let b = interner.get("foo");
    assert_eq!(a.as_str(), "foo");
    assert_eq!(b.as_str(), "foo");
    assert!(a == b);
    // Dropping one handle never invalidates the other.
    drop(a);
    assert_eq!(b.as_str(), "foo");
    // Dropping both leaves the pool ready for the same content again.
    drop(b);
    let again = interner.get("foo");
    assert_eq!(again.as_str(), "foo");
    assert_eq!(again.strong_count(), 2);
}
