use utils::die::OrDie;
use utils::map_value::MapValue;

#[test]
fn map_value() {
    let v = 1i32;
    let mv = v.map_value(|i| i + 4);
    assert_eq!(mv, v + 4);

    let v = 1i32;
    let mv = v.map_value(|mut i| {
        i += 4;
        i
    });
    assert_eq!(mv, v + 4);
}

#[test]
fn or_die_on_present_values() {
    let some: Option<i32> = Some(123);
    assert_eq!(some.or_die(), 123);
    let some: Option<i32> = Some(15);
    assert_eq!(some.or_die_code(5), 15);
    let some: Option<i32> = Some(7);
    assert_eq!(some.or_die_msg("missing"), 7);

    let ok: Result<i32, String> = Ok(123);
    assert_eq!(ok.or_die(), 123);
    let ok: Result<i32, String> = Ok(15);
    assert_eq!(ok.or_die_code_msg(5, "failed"), 15);
}
