use utils::pio::{classify_transfer, pread_exact_step, pwrite_all_step, IoStep};
use utils::presult::PResult::{PErr, POk, PPartial};

fn assert_continue(step: IoStep<&str>, n: usize) {
    match step {
        IoStep::Continue(m) => assert_eq!(m, n),
        IoStep::Stop(_) => panic!("expected the loop to continue"),
    }
}

fn assert_stop(step: IoStep<&str>, want: utils::presult::PResult<usize, &str>) {
    match step {
        IoStep::Continue(_) => panic!("expected the loop to stop"),
        IoStep::Stop(r) => assert_eq!(r, want),
    }
}

#[test]
fn classify() {
    assert_eq!(classify_transfer::<&str>(5, None), POk(5));
    assert_eq!(classify_transfer(0, Some("broken")), PErr("broken"));
    assert_eq!(classify_transfer(3, Some("broken")), PPartial(3, "broken"));
}

#[test]
fn write_all_steps() {
    assert_continue(pwrite_all_step(10, POk(4), false, "zero"), 14);
    assert_stop(pwrite_all_step(0, POk(0), false, "zero"), PErr("zero"));
    assert_stop(pwrite_all_step(10, POk(0), false, "zero"), PPartial(10, "zero"));
    assert_stop(
        pwrite_all_step(10, PPartial(4, "broken"), false, "zero"),
        PPartial(14, "broken"),
    );
    assert_continue(pwrite_all_step(10, PErr("interrupted"), true, "zero"), 10);
    assert_stop(pwrite_all_step(0, PErr("broken"), false, "zero"), PErr("broken"));
    assert_stop(
        pwrite_all_step(10, PErr("broken"), false, "zero"),
        PPartial(10, "broken"),
    );
}

#[test]
fn read_exact_steps() {
    assert_continue(pread_exact_step(10, POk(4), false), 14);
    assert_stop(pread_exact_step(10, POk(0), false), POk(10));
    assert_stop(
        pread_exact_step(10, PPartial(4, "broken"), false),
        PPartial(14, "broken"),
    );
    assert_continue(pread_exact_step(10, PErr("interrupted"), true), 10);
    assert_stop(pread_exact_step(0, PErr("broken"), false), PErr("broken"));
    assert_stop(
        pread_exact_step(10, PErr("broken"), false),
        PPartial(10, "broken"),
    );
}
