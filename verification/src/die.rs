//! Extracting a success that must be there.
//!
//! [`OrDie`] unwraps carriers such as `Option` and `Result` under the
//! precondition that they hold a success, taking the exit code and message
//! an unverified caller would report on the failing path.  The verified
//! library never terminates the process itself: the precondition rules the
//! failing path out, and a caller that cannot rule it out must test first.

use vstd::prelude::*;

verus! {

/// A carrier of a possible success of type `T` that can be unwrapped when
/// the success is known to be present.
pub trait OrDie<T>: Sized {
    /// Whether the carrier holds a success.
    spec fn has_value(&self) -> bool;

    /// The success held, when there is one.
    spec fn extracted(self) -> T;

    /// Returns the success, with the exit code and message that the
    /// failing path would report.
    fn or_die_code_msg(self, code: i32, msg: &str) -> (r: T)
        requires
            self.has_value(),
        ensures
            r == self.extracted(),
    ;

    /// Returns the success, with the default exit code and no message.
    fn or_die(self) -> (r: T)
        requires
            self.has_value(),
        ensures
            r == self.extracted(),
    {
        self.or_die_code_msg(1, "")
    }

    /// Returns the success, with the given exit code.
    fn or_die_code(self, code: i32) -> (r: T)
        requires
            self.has_value(),
        ensures
            r == self.extracted(),
    {
        self.or_die_code_msg(code, "")
    }

    /// Returns the success, with the given message.
    fn or_die_msg(self, msg: &str) -> (r: T)
        requires
            self.has_value(),
        ensures
            r == self.extracted(),
    {
        self.or_die_code_msg(1, msg)
    }
}

impl<T> OrDie<T> for Option<T> {
    open spec fn has_value(&self) -> bool {
        self is Some
    }

    open spec fn extracted(self) -> T {
        self->0
    }

    fn or_die_code_msg(self, code: i32, msg: &str) -> (r: T) {
        match self {
            Some(t) => t,
            None => unreached(),
        }
    }
}

impl<T, E> OrDie<T> for Result<T, E> {
    open spec fn has_value(&self) -> bool {
        self is Ok
    }

    open spec fn extracted(self) -> T {
        self->Ok_0
    }

    fn or_die_code_msg(self, code: i32, msg: &str) -> (r: T) {
        match self {
            Ok(t) => t,
            Err(_) => unreached(),
        }
    }
}

} // verus!
