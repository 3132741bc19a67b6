use std::ops::ControlFlow;
use try_v2::output_transform::Transform as OutputTransform;
use try_v2::Transform;

// `Transform<T>` and the `Transform` over the associated output type are
// exercised side by side where the same scenario applies to both.

#[test]
fn and_some_some() {
    let some_5 = Some(5);
    let some_6 = Some(6);
    let stdlib = some_5.and(some_6);
    let custom = Transform::and(some_5, some_6);
    assert_eq!(stdlib, custom);
}

#[test]
fn and_none_some() {
    let some_5 = None;
    let some_6 = Some(6);
    let stdlib = some_5.and(some_6);
    let custom = Transform::and(some_5, some_6);
    assert_eq!(stdlib, custom);
}

#[test]
fn and_some_none() {
    let some_5 = Some(5);
    let some_6 = None;
    let stdlib = some_5.and(some_6);
    let custom = Transform::and(some_5, some_6);
    assert_eq!(stdlib, custom);
}

#[test]
fn or_ok_ok() {
    let ok_5: Result<_, ()> = Ok(5);
    let ok_6: Result<_, i32> = Ok(6);
    let stdlib = ok_5.or(ok_6);
    let custom = Transform::or(ok_5, ok_6);
    assert_eq!(stdlib, custom);
}

#[test]
fn or_ok_some() {
    let ok_5: Result<_, ()> = Ok(5);
    let some_6 = Some(6);
    let custom = Transform::or(ok_5, some_6);
    assert_eq!(custom, Some(5));
}

#[test]
fn transform_some_some() {
    // flatten
    let some_5 = Some(Some(5));
    let stdlib = some_5.flatten();
    let custom = Transform::flatten(some_5);
    assert_eq!(stdlib, custom);
    let custom = OutputTransform::flatten(some_5);
    assert_eq!(stdlib, custom);

    // zip
    let some_1 = Some(1);
    let some_x = Some("x");
    let stdlib = some_1.zip(some_x);
    let custom = Transform::zip(some_1, some_x);
    assert_eq!(stdlib, custom);
    let custom = OutputTransform::zip(some_1, some_x);
    assert_eq!(stdlib, custom);
}

#[test]
fn transform_some_5() {
    let some_5 = Some(5);
    let mut text = String::new();
    some_5.inspect(|x| text.push_str(&format!("{x}")));
    assert_eq!(text, "5");
    Transform::inspect(some_5, |x| {
        text.push_str(&format!("{x}"))
    });
    assert_eq!(text, "55");
    OutputTransform::inspect(some_5, |x| {
        text.push_str(&format!("{x}"))
    });
    assert_eq!(text, "555");
}

#[test]
fn transform_map() {
    let some_5 = Some(5);
    let stdlib = some_5.map(|x| x + 1);
    let custom = Transform::map(some_5, |x| x + 1);
    assert_eq!(stdlib, custom);
    let custom = OutputTransform::map(some_5, |x| x + 1);
    assert_eq!(stdlib, custom);
}

#[test]
fn transform_map_or_some() {
    let some_5 = Some(5);
    let stdlib = some_5.map_or(0, |x| x + 1);
    let custom = Transform::map_or(some_5, 0, |x| x + 1);
    assert_eq!(stdlib, custom);
    let custom = OutputTransform::map_or(some_5, 0, |x| x + 1);
    assert_eq!(stdlib, custom);
}

#[test]
fn transform_map_or_none() {
    let some_5: Option<u32> = None;
    let stdlib = some_5.map_or(0, |x| x + 1);
    let custom = Transform::map_or(some_5, 0, |x| x + 1);
    assert_eq!(stdlib, custom);
    let custom = OutputTransform::map_or(some_5, 0, |x| x + 1);
    assert_eq!(stdlib, custom);
}

#[test]
fn transform_map_or_else_some() {
    let some_5 = Some(5);
    let stdlib = some_5.map_or_else(|| 1 + 1, |x| x + 1);
    let custom = Transform::map_or_else(some_5, || 1 + 1, |x| x + 1);
    assert_eq!(stdlib, custom);
    let custom = OutputTransform::map_or_else(some_5, || 1 + 1, |x| x + 1);
    assert_eq!(stdlib, custom);
}

#[test]
fn transform_map_or_else_none() {
    let some_5: Option<u32> = None;
    let stdlib = some_5.map_or_else(|| 1 + 1, |x| x + 1);
    let custom = Transform::map_or_else(some_5, || 1 + 1, |x| x + 1);
    assert_eq!(stdlib, custom);
    let custom = OutputTransform::map_or_else(some_5, || 1 + 1, |x| x + 1);
    assert_eq!(stdlib, custom);
}

#[test]
fn map_residual() {
    let err_5: Result<String, i32> = Err(5);
    let stdlib = err_5.clone().map_err(|e| format!("{e}"));
    let custom = err_5.map_residual(|Err(e)| Err(format!("{e}")));
    assert_eq!(stdlib, custom);
}

#[test]
fn map_residual_conversion() {
    let err_5: Result<String, i32> = Err(5);
    let custom = err_5.map_residual(|Err(e)| ControlFlow::Break(e));
    assert_eq!(custom, ControlFlow::Break(5))
}

#[test]
fn transform_ok_some() {
    let ok_some: Result<Option<u32>, String> = Ok(Some(5));
    let stdlib: Option<Result<u32, String>> = ok_some.clone().transpose();
    let custom: Option<Result<u32, String>> = Transform::transpose(ok_some.clone());
    assert_eq!(stdlib, custom);
    let custom: Option<Result<u32, String>> = OutputTransform::transpose(ok_some);
    assert_eq!(stdlib, custom)
}

#[test]
fn transform_ok_none() {
    let ok_none: Result<Option<u32>, String> = Ok(None);
    let stdlib = ok_none.clone().transpose();
    let custom = Transform::transpose(ok_none.clone());
    assert_eq!(stdlib, custom);
    let custom: Option<Result<u32, String>> = OutputTransform::transpose(ok_none);
    assert_eq!(stdlib, custom)
}

#[test]
fn transform_err() {
    let err: Result<Option<i32>, String> = Err("Oops".to_string());
    let stdlib = err.clone().transpose();
    let custom = Transform::transpose(err.clone());
    assert_eq!(stdlib, custom);
    let custom: Option<Result<i32, String>> = OutputTransform::transpose(err);
    assert_eq!(stdlib, custom)
}

#[test]
fn transform_some_ok() {
    let some_ok: Option<Result<u32, String>> = Some(Ok(5));
    let stdlib: Result<Option<u32>, String> = some_ok.clone().transpose();
    let custom: Result<Option<u32>, String> = Transform::transpose(some_ok.clone());
    assert_eq!(stdlib, custom);
    let custom: Result<Option<u32>, String> = OutputTransform::transpose(some_ok);
    assert_eq!(stdlib, custom)
}

#[test]
fn transform_some_err() {
    let some_err: Option<Result<u32, String>> = Some(Err("Oops".to_string()));
    let stdlib = some_err.clone().transpose();
    let custom = Transform::transpose(some_err.clone());
    assert_eq!(stdlib, custom);
    let custom: Result<Option<u32>, String> = OutputTransform::transpose(some_err);
    assert_eq!(stdlib, custom)
}

#[test]
fn transform_none() {
    let none: Option<Result<u32, String>> = None;
    let stdlib = none.clone().transpose();
    let custom = Transform::transpose(none.clone());
    assert_eq!(stdlib, custom);
    let custom: Result<Option<u32>, String> = OutputTransform::transpose(none);
    assert_eq!(stdlib, custom)
}

#[test]
fn some_some_with() {
    let some_1 = Some(-1_i32);
    let some_2 = Some(2_u16);
    let stdlib = some_1.and_then(|x| some_2.map(|y| x + i32::from(y)));
    let custom = Transform::zip_with(some_1, some_2, |x, y| x + i32::from(y));
    assert_eq!(stdlib, custom);
}

#[test]
fn reverse_infer() {
    let some_1 = Some(-1_i32);
    let some_2 = Some(2_u16);
    let custom: Option<()> = Transform::zip_with(some_1, some_2, |_, _| Default::default());
    assert_eq!(custom, Some(()));
}
