//! Decisions of partial-I/O loops.
//!
//! Readers and writers that report progress as a [`PResult`] repeat a
//! transfer until the buffer is exhausted or a real failure stops them.
//! The transfers themselves live with the caller; what stands here is the
//! pure part: how one transfer outcome is classified, and how a loop
//! decides, from the count so far and one step's outcome, whether to go
//! on or stop and with what result.

use vstd::prelude::*;
use crate::presult::PResult;

verus! {

/// What a partial-I/O loop does next: transfer again with this many bytes
/// done so far, or stop with this result.
pub enum IoStep<E> {
    Continue(usize),
    Stop(PResult<usize, E>),
}

/// Classifies one transfer from the bytes it moved and the error it ended
/// with, if any: full success, a failure before anything moved, or a
/// partial success.
pub fn classify_transfer<E>(moved: usize, err: Option<E>) -> (r: PResult<usize, E>)
    ensures
        match err {
            None => r == PResult::<usize, E>::POk(moved),
            Some(e) => if moved == 0 {
                r == PResult::<usize, E>::PErr(e)
            } else {
                r == PResult::<usize, E>::PPartial(moved, e)
            },
        },
{
    match err {
        None => PResult::POk(moved),
        Some(e) => {
            if moved == 0 {
                PResult::PErr(e)
            } else {
                PResult::PPartial(moved, e)
            }
        },
    }
}

/// One decision of a write-everything loop: `n` bytes are written so far,
/// `step` is the latest transfer's outcome, `interrupted` says whether its
/// error only means the transfer was interrupted and may be retried, and
/// `zero_progress_err` is the error to report when the writer accepts
/// nothing.  A step that wrote nothing stops the loop with that error — as
/// a failure if nothing was ever written, else as a partial success; an
/// interrupted step is retried; any other error stops the loop the same
/// way, and a partial step stops it with the combined count.
pub fn pwrite_all_step<E>(
    n: usize,
    step: PResult<usize, E>,
    interrupted: bool,
    zero_progress_err: E,
) -> (r: IoStep<E>)
    requires
        step matches PResult::POk(nn) ==> n + nn <= usize::MAX,
        step matches PResult::PPartial(nn, e) ==> n + nn <= usize::MAX,
    ensures
        match step {
            PResult::POk(nn) => if nn == 0 {
                if n == 0 {
                    r == IoStep::Stop(PResult::<usize, E>::PErr(zero_progress_err))
                } else {
                    r == IoStep::Stop(PResult::<usize, E>::PPartial(n, zero_progress_err))
                }
            } else {
                r == IoStep::<E>::Continue((n + nn) as usize)
            },
            PResult::PPartial(nn, e) => r == IoStep::Stop(
                PResult::<usize, E>::PPartial((n + nn) as usize, e),
            ),
            PResult::PErr(e) => if interrupted {
                r == IoStep::<E>::Continue(n)
            } else if n == 0 {
                r == IoStep::Stop(PResult::<usize, E>::PErr(e))
            } else {
                r == IoStep::Stop(PResult::<usize, E>::PPartial(n, e))
            },
        },
{
    match step {
        PResult::POk(nn) => {
            if nn == 0 {
                if n == 0 {
                    IoStep::Stop(PResult::PErr(zero_progress_err))
                } else {
                    IoStep::Stop(PResult::PPartial(n, zero_progress_err))
                }
            } else {
                IoStep::Continue(n + nn)
            }
        },
        PResult::PPartial(nn, e) => IoStep::Stop(PResult::PPartial(n + nn, e)),
        PResult::PErr(e) => {
            if interrupted {
                IoStep::Continue(n)
            } else if n == 0 {
                IoStep::Stop(PResult::PErr(e))
            } else {
                IoStep::Stop(PResult::PPartial(n, e))
            }
        },
    }
}

/// One decision of a read-exactly loop: `n` bytes are read so far, `step`
/// is the latest transfer's outcome, and `interrupted` is as in
/// [`pwrite_all_step`].  A step that read nothing ends the loop
/// successfully with the count so far; an interrupted step is retried; any
/// other error stops the loop as a failure if nothing was ever read, else
/// as a partial success, and a partial step stops it with the combined
/// count.
pub fn pread_exact_step<E>(n: usize, step: PResult<usize, E>, interrupted: bool) -> (r: IoStep<E>)
    requires
        step matches PResult::POk(nn) ==> n + nn <= usize::MAX,
        step matches PResult::PPartial(nn, e) ==> n + nn <= usize::MAX,
    ensures
        match step {
            PResult::POk(nn) => if nn == 0 {
                r == IoStep::Stop(PResult::<usize, E>::POk(n))
            } else {
                r == IoStep::<E>::Continue((n + nn) as usize)
            },
            PResult::PPartial(nn, e) => r == IoStep::Stop(
                PResult::<usize, E>::PPartial((n + nn) as usize, e),
            ),
            PResult::PErr(e) => if interrupted {
                r == IoStep::<E>::Continue(n)
            } else if n == 0 {
                r == IoStep::Stop(PResult::<usize, E>::PErr(e))
            } else {
                r == IoStep::Stop(PResult::<usize, E>::PPartial(n, e))
            },
        },
{
    match step {
        PResult::POk(nn) => {
            if nn == 0 {
                IoStep::Stop(PResult::POk(n))
            } else {
                IoStep::Continue(n + nn)
            }
        },
        PResult::PPartial(nn, e) => IoStep::Stop(PResult::PPartial(n + nn, e)),
        PResult::PErr(e) => {
            if interrupted {
                IoStep::Continue(n)
            } else if n == 0 {
                IoStep::Stop(PResult::PErr(e))
            } else {
                IoStep::Stop(PResult::PPartial(n, e))
            }
        },
    }
}

} // verus!
