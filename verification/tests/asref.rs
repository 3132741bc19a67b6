use try_v2::AsRef;

#[test]
fn some_asref() {
    let some_5 = &Some(5);
    let stdlib = some_5.as_ref();
    let custom = AsRef::as_ref(some_5);
    assert_eq!(stdlib, custom);
}
