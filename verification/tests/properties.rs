use std::ops::ControlFlow;
use try_v2::ops::{FromResidual, Try};
use try_v2::output_transform::Transform as OutputTransform;
use try_v2::{AsRef, Extract, Transform};

#[test]
fn try_branch_undoes_from_output() {
    let o: Option<i32> = Try::from_output(3);
    assert_eq!(o.branch(), ControlFlow::Continue(3));
    let r: Result<i32, String> = Try::from_output(3);
    assert_eq!(r.branch(), ControlFlow::Continue(3));
    let c: ControlFlow<String, i32> = Try::from_output(3);
    assert_eq!(c.branch(), ControlFlow::Continue(3));
}

#[test]
fn try_rebuild_from_branch() {
    let values: Vec<Result<i32, String>> = vec![Ok(1), Err("e".to_string())];
    for v in values {
        let rebuilt: Result<i32, String> = match v.clone().branch() {
            ControlFlow::Continue(x) => Try::from_output(x),
            ControlFlow::Break(r) => FromResidual::from_residual(r),
        };
        assert_eq!(rebuilt, v);
    }
    let none: Option<i32> = None;
    let rebuilt: Option<i32> = match none.branch() {
        ControlFlow::Continue(x) => Try::from_output(x),
        ControlFlow::Break(r) => FromResidual::from_residual(r),
    };
    assert_eq!(rebuilt, None);
    let brk: ControlFlow<&str, i32> = ControlFlow::Break("stop");
    let rebuilt: ControlFlow<&str, i32> = match brk.branch() {
        ControlFlow::Continue(x) => Try::from_output(x),
        ControlFlow::Break(r) => FromResidual::from_residual(r),
    };
    assert_eq!(rebuilt, ControlFlow::Break("stop"));
}

#[test]
fn transpose_roundtrip() {
    let values: Vec<Result<Option<u8>, String>> =
        vec![Ok(Some(1)), Ok(None), Err("oops".to_string())];
    for v in values {
        let there: Option<Result<u8, String>> = Transform::transpose(v.clone());
        let back: Result<Option<u8>, String> = Transform::transpose(there);
        assert_eq!(back, v);
    }
    let values: Vec<Option<Result<u8, String>>> =
        vec![Some(Ok(1)), Some(Err("oops".to_string())), None];
    for v in values {
        let there: Result<Option<u8>, String> = Transform::transpose(v.clone());
        let back: Option<Result<u8, String>> = Transform::transpose(there);
        assert_eq!(back, v);
    }
}

#[test]
fn flatten_of_wrapped_value() {
    let wrapped: Option<Option<u8>> = Try::from_output(Some(4));
    assert_eq!(Transform::flatten(wrapped), Some(4));
    let wrapped: Result<Result<u8, i8>, i8> = Try::from_output(Err(-1));
    assert_eq!(Transform::flatten(wrapped), Err(-1));
    let outer: Result<Result<u8, i8>, i8> = Err(7);
    assert_eq!(Transform::flatten(outer), Err(7));
}

#[test]
fn output_of_wrapped_value() {
    let some: Option<&str> = Try::from_output("x");
    assert_eq!(some.output(), Some("x"));
    let brk: ControlFlow<u8, &str> = ControlFlow::Break(1);
    assert_eq!(brk.output(), None);
}

#[test]
fn and_or_on_output_and_residual() {
    assert_eq!(Transform::and(Some(1), Some(2)), Some(2));
    assert_eq!(Transform::and(None::<i32>, Some(2)), None);
    let ok: Result<i32, String> = Ok(1);
    assert_eq!(Transform::or(ok, None), Some(1));
    let err: Result<i32, String> = Err("e".to_string());
    assert_eq!(Transform::or(err, Some(9)), Some(9));
    assert_eq!(Transform::and_then(Some(2), |x| Some(x * 10)), Some(20));
    assert_eq!(Transform::and_then(None::<i32>, |x| Some(x * 10)), None);
    assert_eq!(Transform::or_else(None::<i32>, |_| Some(3)), Some(3));
    assert_eq!(Transform::or_else(Some(1), |_| Some(3)), Some(1));
}

#[test]
fn zip_short_circuits() {
    let none: Option<i32> = None;
    assert_eq!(Transform::zip(Some(1), Some('a')), Some((1, 'a')));
    assert_eq!(Transform::zip(none, Some('a')), None);
    assert_eq!(Transform::zip(Some(1), None::<char>), None);
    let first: Result<i32, String> = Err("first".to_string());
    let second: Result<i32, String> = Err("second".to_string());
    assert_eq!(Transform::zip(first, second), Err("first".to_string()));
    assert_eq!(OutputTransform::zip(Some(1), None::<char>), None);
}

#[test]
fn map_residual_ok_or_else() {
    let none: Option<i32> = None;
    let stdlib = none.ok_or_else(|| 5);
    let custom = none.map_residual(|_| Err(5));
    assert_eq!(stdlib, custom);
    let some: Option<i32> = Some(1);
    let custom: Result<i32, i32> = some.map_residual(|_| Err(5));
    assert_eq!(custom, Ok(1));
}

#[test]
fn map_on_control_flow_and_result() {
    let c: ControlFlow<&str, i32> = ControlFlow::Continue(2);
    assert_eq!(Transform::map(c, |x| x * 3), ControlFlow::Continue(6));
    let b: ControlFlow<&str, i32> = ControlFlow::Break("b");
    assert_eq!(Transform::map(b, |x| x * 3), ControlFlow::Break("b"));
    let e: Result<i32, u8> = Err(4);
    assert_eq!(Transform::map(e, |x| x + 1), Err(4));
    assert_eq!(OutputTransform::map(e, |x| x + 1), Err(4));
}

#[test]
fn extract_values() {
    let ok: Result<i32, String> = Ok(4);
    let err: Result<i32, String> = Err("e".to_string());
    assert_eq!(Extract::unwrap(ok.clone()), 4);
    assert_eq!(Extract::expect(ok.clone(), "present"), 4);
    assert_eq!(Extract::unwrap_or(err.clone(), 7), 7);
    assert_eq!(Extract::unwrap_or(ok.clone(), 7), 4);
    assert_eq!(Extract::unwrap_or_default(err.clone()), 0);
    assert_eq!(Extract::unwrap_or_else(err.clone(), || 8), 8);
    assert_eq!(Extract::unwrap_or_else(ok, || 8), 4);
    let none: Option<String> = None;
    assert_eq!(Extract::unwrap_or_default(none), String::new());
}

#[test]
fn as_ref_and_as_mut() {
    let none: &Option<i32> = &None;
    let r: Option<&i32> = AsRef::as_ref(none);
    assert_eq!(r, None);
    let mut some = Some(5);
    {
        let m: Option<&mut i32> = AsRef::as_mut(&mut some);
        if let Some(v) = m {
            *v = 6;
        }
    }
    assert_eq!(some, Some(6));
    let mut none: Option<i32> = None;
    let m: Option<&mut i32> = AsRef::as_mut(&mut none);
    assert!(m.is_none());
}

#[test]
fn inspect_keeps_value_and_skips_residual() {
    let mut seen = Vec::new();
    let none: Option<i32> = None;
    assert_eq!(Transform::inspect(none, |x| seen.push(*x)), None);
    assert_eq!(Transform::inspect(Some(3), |x| seen.push(*x)), Some(3));
    assert_eq!(seen, vec![3]);
}

#[test]
fn unwrap_agrees_with_output() {
    let values: Vec<Result<i32, String>> = vec![Ok(3), Err("e".to_string())];
    for v in values {
        match Extract::output(v.clone()) {
            Some(x) => {
                assert_eq!(Extract::unwrap(v.clone()), x);
                assert_eq!(Extract::expect(v, "any message"), x);
            }
            None => assert!(v.is_err()),
        }
    }
}
