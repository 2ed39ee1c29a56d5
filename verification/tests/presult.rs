use utils::presult::PartialResult;
use utils::presult::PResult::{self, PErr, POk, PPartial};

#[test]
fn queries() {
    let ppart = PPartial(123, -123);
    let (pok, perr) = (ppart.partial_into_pok(), ppart.partial_into_perr());

    assert!(pok.is_ok());
    assert!(!pok.is_ok_and(|_| false));
    assert!(!pok.is_partial());
    assert!(!pok.is_partial_and(|_, _| true));
    assert!(!pok.is_err());
    assert!(!pok.is_err_and(|_| true));
    assert!(pok.has_ok());
    assert!(pok.has_ok_and(|_| true));
    assert!(!pok.has_err());
    assert!(!pok.has_err_and(|_| true));

    assert!(!ppart.is_ok());
    assert!(!ppart.is_ok_and(|_| true));
    assert!(ppart.is_partial());
    assert!(!ppart.is_partial_and(|_, _| false));
    assert!(!ppart.is_err());
    assert!(!ppart.is_err_and(|_| true));
    assert!(ppart.has_ok());
    assert!(ppart.has_ok_and(|_| true));
    assert!(ppart.has_err());
    assert!(ppart.has_err_and(|_| true));

    assert!(!perr.is_ok());
    assert!(!perr.is_ok_and(|_| true));
    assert!(!perr.is_partial());
    assert!(!perr.is_partial_and(|_, _| true));
    assert!(perr.is_err());
    assert!(!perr.is_err_and(|_| false));
    assert!(!perr.has_ok());
    assert!(!perr.has_ok_and(|_| true));
    assert!(perr.has_err());
    assert!(perr.has_err_and(|_| true));
}

#[test]
fn variant_adapters() {
    let ppart = PPartial(123, -123);
    let (pok, perr) = (ppart.partial_into_pok(), ppart.partial_into_perr());

    assert_eq!(pok.ok(), Some(123));
    assert_eq!(pok.partial(), None);
    assert_eq!(pok.err(), None);
    assert_eq!(pok.ok_any(), Some(123));
    assert_eq!(pok.err_any(), None);

    assert_eq!(perr.ok(), None);
    assert_eq!(perr.partial(), None);
    assert_eq!(perr.err(), Some(-123));
    assert_eq!(perr.ok_any(), None);
    assert_eq!(perr.err_any(), Some(-123));

    assert_eq!(ppart.ok(), None);
    assert_eq!(ppart.partial(), Some((123, -123)));
    assert_eq!(ppart.err(), None);
    assert_eq!(ppart.ok_any(), Some(123));
    assert_eq!(ppart.err_any(), Some(-123));
}

#[test]
fn map() {
    let ppart = PPartial(123, -123);
    let (pok, perr) = (ppart.partial_into_pok(), ppart.partial_into_perr());

    assert_eq!(pok.map(|_| 456), POk(456));
    assert_eq!(pok.map_or(-456, |_| 456), 456);
    assert_eq!(pok.map_or_any(-456, |_| 456), 456);
    assert_eq!(pok.map_or_else(|_| -456, |_| 456), 456);
    assert_eq!(pok.map_or_else_any(|_| -456, |_| 456), 456);
    assert_eq!(pok.map_err(|_| -456), POk(123));

    assert_eq!(ppart.map(|_| 456), PPartial(456, -123));
    assert_eq!(ppart.map_or(-456, |_| 456), -456);
    assert_eq!(ppart.map_or_any(-456, |_| 456), 456);
    assert_eq!(ppart.map_or_else(|_| -456, |_| 456), -456);
    assert_eq!(ppart.map_or_else_any(|_| -456, |_| 456), 456);
    assert_eq!(ppart.map_err(|_| -456), PPartial(123, -456));

    assert_eq!(perr.map(|_| 456), perr);
    assert_eq!(perr.map_or(-456, |_| 456), -456);
    assert_eq!(perr.map_or_any(-456, |_| 456), -456);
    assert_eq!(perr.map_or_else(|_| -456, |_| 456), -456);
    assert_eq!(perr.map_or_else_any(|_| -456, |_| 456), -456);
    assert_eq!(perr.map_err(|_| -456), PErr(-456));
}

#[test]
fn join() {
    let ppart1 = PPartial(123, -123);
    let (pok1, perr1) = (ppart1.partial_into_pok(), ppart1.partial_into_perr());
    let ppart2 = PPartial(456, -456);
    let (pok2, perr2) = (ppart2.partial_into_pok(), ppart2.partial_into_perr());

    assert_eq!(pok1.try_join_exclusive(pok2), Err((pok1, pok2)));
    assert_eq!(pok1.try_join_exclusive(ppart2), Err((pok1, ppart2)));
    assert_eq!(pok1.try_join_exclusive(perr2), Ok(PPartial(123, -456)));

    assert_eq!(ppart1.try_join_exclusive(pok2), Err((ppart1, pok2)));
    assert_eq!(ppart1.try_join_exclusive(ppart2), Err((ppart1, ppart2)));
    assert_eq!(ppart1.try_join_exclusive(perr2), Err((ppart1, perr2)));

    assert_eq!(perr1.try_join_exclusive(pok2), Ok(PPartial(456, -123)));
    assert_eq!(perr1.try_join_exclusive(ppart2), Err((perr1, ppart2)));
    assert_eq!(perr1.try_join_exclusive(perr2), Err((perr1, perr2)));
}

#[test]
fn inspect() {
    let ppart = PPartial(123, -123);
    let (pok, perr) = (ppart.partial_into_pok(), ppart.partial_into_perr());

    let mut vals = Vec::new();
    pok.inspect(|&t| vals.push(t))
        .inspect_partial(|&t, &e| {
            vals.push(t);
            vals.push(e);
        })
        .inspect_err(|&e| vals.push(e))
        .inspect_any(|&t| vals.push(t))
        .inspect_err_any(|&e| vals.push(e));
    assert_eq!(vals, vec![123, 123]);

    let mut vals = Vec::new();
    ppart
        .inspect(|&t| vals.push(t))
        .inspect_partial(|&t, &e| {
            vals.push(t);
            vals.push(e);
        })
        .inspect_err(|&e| vals.push(e))
        .inspect_any(|&t| vals.push(t))
        .inspect_err_any(|&e| vals.push(e));
    assert_eq!(vals, vec![123, -123, 123, -123]);

    let mut vals = Vec::new();
    perr.inspect(|&t| vals.push(t))
        .inspect_partial(|&t, &e| {
            vals.push(t);
            vals.push(e);
        })
        .inspect_err(|&e| vals.push(e))
        .inspect_any(|&t| vals.push(t))
        .inspect_err_any(|&e| vals.push(e));
    assert_eq!(vals, vec![-123, -123]);
}

#[test]
fn into() {
    let ppart = PPartial(123, -123);
    let (pok, perr) = (ppart.partial_into_pok(), ppart.partial_into_perr());

    assert_eq!(pok.partial_into_pok(), POk(123));
    assert_eq!(pok.partial_into_perr(), POk(123));
    assert_eq!(pok.into_res_err(), Ok(123));
    assert_eq!(pok.into_res_ok(), Ok(123));

    assert_eq!(ppart.partial_into_pok(), POk(123));
    assert_eq!(ppart.partial_into_perr(), PErr(-123));
    assert_eq!(ppart.into_res_err(), Err(-123));
    assert_eq!(ppart.into_res_ok(), Ok(123));

    assert_eq!(perr.partial_into_pok(), PErr(-123));
    assert_eq!(perr.partial_into_perr(), PErr(-123));
    assert_eq!(perr.into_res_err(), Err(-123));
    assert_eq!(perr.into_res_ok(), Err(-123));
}

fn collect_iter<'a, T>(mut it: utils::presult::Iter<'a, T>) -> Vec<&'a T> {
    let mut v = Vec::new();
    while let Some(x) = it.next() {
        v.push(x);
    }
    v
}

fn collect_into_iter<T>(mut it: utils::presult::IntoIter<T>) -> Vec<T> {
    let mut v = Vec::new();
    while let Some(x) = it.next() {
        v.push(x);
    }
    v
}

#[test]
fn pok() {
    let pok: PResult<i32, i32> = POk(123);
    let empty: Vec<i32> = Vec::new();
    let empty_ref: Vec<&i32> = Vec::new();
    let pempty: Vec<(i32, i32)> = Vec::new();
    let pempty_ref: Vec<(&i32, &i32)> = Vec::new();

    assert_eq!(collect_iter(pok.iter()), vec![&123]);
    assert_eq!(collect_into_iter(pok.iter_partial()), pempty_ref);
    assert_eq!(collect_iter(pok.iter_err()), empty_ref);
    assert_eq!(collect_iter(pok.iter_any()), vec![&123]);
    assert_eq!(collect_iter(pok.iter_err_any()), empty_ref);

    assert_eq!(collect_into_iter(pok.into_iter_partial()), pempty);
    assert_eq!(collect_into_iter(pok.into_iter_err()), empty);
    assert_eq!(collect_into_iter(pok.into_iter_any()), vec![123]);
    assert_eq!(collect_into_iter(pok.into_iter_err_any()), empty);
}

#[test]
fn ppartial() {
    let ppart: PResult<i32, i32> = PPartial(123, -123);
    let empty: Vec<i32> = Vec::new();
    let empty_ref: Vec<&i32> = Vec::new();

    assert_eq!(collect_iter(ppart.iter()), empty_ref);
    assert_eq!(collect_into_iter(ppart.iter_partial()), vec![(&123, &-123)]);
    assert_eq!(collect_iter(ppart.iter_err()), empty_ref);
    assert_eq!(collect_iter(ppart.iter_any()), vec![&123]);
    assert_eq!(collect_iter(ppart.iter_err_any()), vec![&-123]);

    assert_eq!(collect_into_iter(ppart.into_iter_partial()), vec![(123, -123)]);
    assert_eq!(collect_into_iter(ppart.into_iter_err()), empty);
    assert_eq!(collect_into_iter(ppart.into_iter_any()), vec![123]);
    assert_eq!(collect_into_iter(ppart.into_iter_err_any()), vec![-123]);
}

#[test]
fn perr() {
    let perr: PResult<i32, i32> = PErr(-123);
    let empty: Vec<i32> = Vec::new();
    let empty_ref: Vec<&i32> = Vec::new();
    let pempty: Vec<(i32, i32)> = Vec::new();
    let pempty_ref: Vec<(&i32, &i32)> = Vec::new();

    assert_eq!(collect_iter(perr.iter()), empty_ref);
    assert_eq!(collect_into_iter(perr.iter_partial()), pempty_ref);
    assert_eq!(collect_iter(perr.iter_err()), vec![&-123]);
    assert_eq!(collect_iter(perr.iter_any()), empty_ref);
    assert_eq!(collect_iter(perr.iter_err_any()), vec![&-123]);

    assert_eq!(collect_into_iter(perr.into_iter_partial()), pempty);
    assert_eq!(collect_into_iter(perr.into_iter_err()), vec![-123]);
    assert_eq!(collect_into_iter(perr.into_iter_any()), empty);
    assert_eq!(collect_into_iter(perr.into_iter_err_any()), vec![-123]);
}

#[test]
fn and_or() {
    let ppart1: PResult<i32, i32> = PPartial(123, -123);
    let (pok1, perr1) = (ppart1.partial_into_pok(), ppart1.partial_into_perr());
    let ppart2 = PPartial(456, -456);
    let (pok2, perr2) = (ppart2.partial_into_pok(), ppart2.partial_into_perr());

    assert_eq!(pok1.and_any(pok2), pok2);
    assert_eq!(pok1.and_any(ppart2), ppart2);
    assert_eq!(pok1.and_any(perr2), perr2);

    assert_eq!(pok1.and_then_any(|_| pok2), pok2);
    assert_eq!(pok1.and_then_any(|_| ppart2), ppart2);
    assert_eq!(pok1.and_then_any(|_| perr2), perr2);

    assert_eq!(pok1.or_any(pok2), pok1);
    assert_eq!(pok1.or_any(ppart2), pok1);
    assert_eq!(pok1.or_any(perr2), pok1);

    assert_eq!(pok1.or_else_any(|_| pok2), pok1);
    assert_eq!(pok1.or_else_any(|_| ppart2), pok1);
    assert_eq!(pok1.or_else_any(|_| perr2), pok1);

    assert_eq!(ppart1.and_any(pok2), pok2);
    assert_eq!(ppart1.and_any(ppart2), ppart2);
    assert_eq!(ppart1.and_any(perr2), perr2);

    assert_eq!(ppart1.and_then_any(|_| pok2), pok2);
    assert_eq!(ppart1.and_then_any(|_| ppart2), ppart2);
    assert_eq!(ppart1.and_then_any(|_| perr2), perr2);

    assert_eq!(ppart1.or_any(pok2), pok2);
    assert_eq!(ppart1.or_any(ppart2), ppart2);
    assert_eq!(ppart1.or_any(perr2), perr2);

    assert_eq!(ppart1.or_else_any(|_| pok2), pok2);
    assert_eq!(ppart1.or_else_any(|_| ppart2), ppart2);
    assert_eq!(ppart1.or_else_any(|_| perr2), perr2);

    assert_eq!(perr1.and_any(pok2), perr1);
    assert_eq!(perr1.and_any(ppart2), perr1);
    assert_eq!(perr1.and_any(perr2), perr1);

    assert_eq!(perr1.and_then_any(|_| pok2), perr1);
    assert_eq!(perr1.and_then_any(|_| ppart2), perr1);
    assert_eq!(perr1.and_then_any(|_| perr2), perr1);

    assert_eq!(perr1.or_any(pok2), pok2);
    assert_eq!(perr1.or_any(ppart2), ppart2);
    assert_eq!(perr1.or_any(perr2), perr2);

    assert_eq!(perr1.or_else_any(|_| pok2), pok2);
    assert_eq!(perr1.or_else_any(|_| ppart2), ppart2);
    assert_eq!(perr1.or_else_any(|_| perr2), perr2);
}

#[test]
fn unwrap() {
    let ppart: PResult<i32, i32> = PPartial(123, -123);
    let (pok, perr) = (ppart.partial_into_pok(), ppart.partial_into_perr());

    assert_eq!(pok.unwrap_or(-123), 123);
    assert_eq!(pok.unwrap_or_else(|e| e), 123);
    assert_eq!(pok.unwrap_any_or(-123), 123);
    assert_eq!(pok.unwrap_any_or_else(|e| e), 123);

    assert_eq!(ppart.unwrap_or(-123), -123);
    assert_eq!(ppart.unwrap_or_else(|e| e), -123);
    assert_eq!(ppart.unwrap_any_or(-123), 123);
    assert_eq!(ppart.unwrap_any_or_else(|e| e), 123);

    assert_eq!(perr.unwrap_or(-123), -123);
    assert_eq!(perr.unwrap_or_else(|e| e), -123);
    assert_eq!(perr.unwrap_any_or(-123), -123);
    assert_eq!(perr.unwrap_any_or_else(|e| e), -123);
}

#[test]
fn extractions() {
    let ppart: PResult<i32, i32> = PPartial(123, -123);
    let (pok, perr) = (ppart.partial_into_pok(), ppart.partial_into_perr());

    assert_eq!(pok.expect("value"), 123);
    assert_eq!(pok.unwrap(), 123);
    assert_eq!(pok.unwrap_unchecked(), 123);
    assert_eq!(pok.expect_any("value"), 123);
    assert_eq!(pok.unwrap_any(), 123);
    assert_eq!(pok.unwrap_any_unchecked(), 123);
    assert_eq!(pok.unwrap_or_default(), 123);
    assert_eq!(pok.unwrap_any_or_default(), 123);

    assert_eq!(ppart.expect_partial("pair"), (123, -123));
    assert_eq!(ppart.unwrap_partial(), (123, -123));
    assert_eq!(ppart.unwrap_partial_unchecked(), (123, -123));
    assert_eq!(ppart.expect_any("value"), 123);
    assert_eq!(ppart.unwrap_any(), 123);
    assert_eq!(ppart.expect_err_any("error"), -123);
    assert_eq!(ppart.unwrap_err_any(), -123);
    assert_eq!(ppart.unwrap_or_default(), 0);

    assert_eq!(perr.expect_err("error"), -123);
    assert_eq!(perr.unwrap_err(), -123);
    assert_eq!(perr.unwrap_err_unchecked(), -123);
    assert_eq!(perr.expect_err_any("error"), -123);
    assert_eq!(perr.unwrap_err_any(), -123);
    assert_eq!(perr.unwrap_err_any_unchecked(), -123);
    assert_eq!(perr.unwrap_or_default(), 0);
    assert_eq!(perr.unwrap_any_or_default(), 0);
}

#[test]
fn reference_adapters() {
    let pok: PResult<i32, i32> = POk(123);
    assert_eq!(pok.as_ref().copied(), POk(123));
    assert_eq!(pok.as_ref().cloned(), POk(123));
    let ppart: PResult<i32, i32> = PPartial(123, -123);
    assert_eq!(ppart.as_ref().copied(), PPartial(123, &-123));
    assert_eq!(ppart.as_ref().cloned(), PPartial(123, &-123));
    let perr: PResult<i32, i32> = PErr(-123);
    assert_eq!(perr.as_ref().copied(), PErr(&-123));
}

#[test]
fn swap_transpose_flatten() {
    let ppart: PResult<i32, i32> = PPartial(123, -123);
    assert_eq!(ppart.swap_val_err(), PPartial(-123, 123));
    assert_eq!(POk::<i32, i32>(123).swap_val_err(), PErr(123));
    assert_eq!(PErr::<i32, i32>(-123).swap_val_err(), POk(-123));

    assert_eq!(POk::<Option<i32>, i32>(Some(1)).transpose(), Some(POk(1)));
    assert_eq!(POk::<Option<i32>, i32>(None).transpose(), None);
    assert_eq!(
        PPartial::<Option<i32>, i32>(Some(1), -1).transpose(),
        Some(PPartial(1, -1))
    );
    assert_eq!(
        PPartial::<Option<i32>, i32>(None, -1).transpose(),
        Some(PErr(-1))
    );
    assert_eq!(PErr::<Option<i32>, i32>(-1).transpose(), Some(PErr(-1)));

    assert_eq!(POk::<Result<i32, i32>, i32>(Ok(1)).flatten(), POk(1));
    assert_eq!(POk::<Result<i32, i32>, i32>(Err(-1)).flatten(), PErr(-1));
    assert_eq!(
        PPartial::<Result<i32, i32>, i32>(Ok(1), -2).flatten(),
        PPartial(1, -2)
    );
    assert_eq!(
        PPartial::<Result<i32, i32>, i32>(Err(-1), -2).flatten(),
        PErr(-2)
    );
    assert_eq!(PErr::<Result<i32, i32>, i32>(-1).flatten(), PErr(-1));

    assert_eq!(POk::<PResult<i32, i32>, i32>(POk(1)).flatten(), POk(1));
    assert_eq!(
        PPartial::<PResult<i32, i32>, i32>(POk(1), -2).flatten(),
        PPartial(1, -2)
    );
    assert_eq!(
        PPartial::<PResult<i32, i32>, i32>(PPartial(1, -1), -2).flatten(),
        PPartial(1, -2)
    );
    assert_eq!(
        PPartial::<PResult<i32, i32>, i32>(PErr(-1), -2).flatten(),
        PErr(-1)
    );
    assert_eq!(PErr::<PResult<i32, i32>, i32>(-1).flatten(), PErr(-1));
}

#[test]
fn size_hints() {
    let pok: PResult<i32, i32> = POk(123);
    let mut it = pok.iter();
    assert_eq!(it.size_hint(), (1, Some(1)));
    assert_eq!(it.next(), Some(&123));
    assert_eq!(it.size_hint(), (0, Some(0)));
    assert_eq!(it.next(), None);
    let mut ii = pok.into_iter_any();
    assert_eq!(ii.size_hint(), (1, Some(1)));
    assert_eq!(ii.next(), Some(123));
    assert_eq!(ii.size_hint(), (0, Some(0)));
}

#[test]
fn conversions() {
    let res: Result<i32, i32> = Ok(123);
    assert_eq!(PResult::<i32, i32>::from(res), POk(123));
    let res: Result<i32, i32> = Err(-123);
    assert_eq!(PResult::<i32, i32>::from(res), PErr(-123));

    let pr: PartialResult<i32, i32> = Ok((123, Some(-123)));
    let got: PResult<i32, i32> = PResult::from(pr);
    assert_eq!(got, PPartial(123, -123));
    let pr: PartialResult<i32, i32> = Ok((123, None));
    let got: PResult<i32, i32> = PResult::from(pr);
    assert_eq!(got, POk(123));
    let pr: PartialResult<i32, i32> = Err(-123);
    let got: PResult<i32, i32> = PResult::from(pr);
    assert_eq!(got, PErr(-123));
}

#[test]
fn deref_adapter() {
    let pok: PResult<String, i32> = POk(String::from("abc"));
    match pok.as_deref() {
        POk(s) => assert_eq!(s, "abc"),
        _ => panic!("expected a full success"),
    }
    let ppart: PResult<String, i32> = PPartial(String::from("abc"), -1);
    match ppart.as_deref() {
        PPartial(s, e) => {
            assert_eq!(s, "abc");
            assert_eq!(*e, -1);
        }
        _ => panic!("expected a partial success"),
    }
    let perr: PResult<String, i32> = PErr(-1);
    match perr.as_deref() {
        PErr(e) => assert_eq!(*e, -1),
        _ => panic!("expected a failure"),
    }
}

#[test]
fn clone_keeps_contents() {
    let p: PResult<String, String> = PPartial(String::from("value"), String::from("error"));
    assert_eq!(p.clone(), p);
    let p: PResult<String, String> = POk(String::from("value"));
    assert_eq!(p.clone(), p);
    let p: PResult<String, String> = PErr(String::from("error"));
    assert_eq!(p.clone(), p);
}
