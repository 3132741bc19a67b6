use try_v2::Extract;

#[test]
fn ok() {
    let ok_5: Result<_, ()> = Ok(5);
    let stdlib = ok_5.ok();
    let custom = ok_5.output();
    assert_eq!(stdlib, custom);
}
