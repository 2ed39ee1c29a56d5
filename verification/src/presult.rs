//! Three-way results: success, failure, or partial success.
//!
//! [`PResult`] extends the usual two-way result with a middle variant for
//! operations that made progress before failing, carrying both the partial
//! value and the error.  The `*_any` adapters treat a partial success like
//! a success, the plain adapters demand a full success.

use vstd::prelude::*;

verus! {

/// `PResult` represents a success ([`PResult::POk`]), a failure
/// ([`PResult::PErr`]), or a partial success carrying both a value and an
/// error ([`PResult::PPartial`]).
#[derive(Copy, PartialEq, Eq, PartialOrd, Ord, Debug, Hash)]
pub enum PResult<T, E> {
    /// Contains the fully successful value.
    POk(T),
    /// Contains the partially successful value and the partial error.
    PPartial(T, E),
    /// Contains the fully failed error.
    PErr(E),
}

impl<T, E> PResult<T, E> {
    /// Returns `true` iff the result is `POk`.
    pub fn is_ok(&self) -> (r: bool)
        ensures
            r == (self is POk),
    {
        matches!(self, PResult::POk(_))
    }

    /// Returns `true` iff the result is `POk` and the value inside matches
    /// the predicate.
    pub fn is_ok_and<F: FnOnce(T) -> bool>(self, f: F) -> (r: bool)
        requires
            self matches PResult::POk(t) ==> call_requires(f, (t,)),
        ensures
            match self {
                PResult::POk(t) => call_ensures(f, (t,), r),
                _ => r == false,
            },
    {
        match self {
            PResult::POk(t) => f(t),
            _ => false,
        }
    }

    /// Returns `true` iff the result is `PPartial`.
    pub fn is_partial(&self) -> (r: bool)
        ensures
            r == (self is PPartial),
    {
        matches!(self, PResult::PPartial(_, _))
    }

    /// Returns `true` iff the result is `PPartial` and the value and error
    /// inside match the predicate.
    pub fn is_partial_and<F: FnOnce(T, E) -> bool>(self, f: F) -> (r: bool)
        requires
            self matches PResult::PPartial(t, e) ==> call_requires(f, (t, e)),
        ensures
            match self {
                PResult::PPartial(t, e) => call_ensures(f, (t, e), r),
                _ => r == false,
            },
    {
        match self {
            PResult::PPartial(t, e) => f(t, e),
            _ => false,
        }
    }

    /// Returns `true` iff the result is `PErr`.
    pub fn is_err(&self) -> (r: bool)
        ensures
            r == (self is PErr),
    {
        matches!(self, PResult::PErr(_))
    }

    /// Returns `true` iff the result is `PErr` and the error inside matches
    /// the predicate.
    pub fn is_err_and<F: FnOnce(E) -> bool>(self, f: F) -> (r: bool)
        requires
            self matches PResult::PErr(e) ==> call_requires(f, (e,)),
        ensures
            match self {
                PResult::PErr(e) => call_ensures(f, (e,), r),
                _ => r == false,
            },
    {
        match self {
            PResult::PErr(e) => f(e),
            _ => false,
        }
    }

    /// Returns `true` iff the result is `POk` or `PPartial`.
    pub fn has_ok(&self) -> (r: bool)
        ensures
            r == !(self is PErr),
    {
        !matches!(self, PResult::PErr(_))
    }

    /// Returns `true` iff the result is `POk` or `PPartial` and the value
    /// inside matches the predicate.
    pub fn has_ok_and<F: FnOnce(T) -> bool>(self, f: F) -> (r: bool)
        requires
            self matches PResult::POk(t) ==> call_requires(f, (t,)),
            self matches PResult::PPartial(t, e) ==> call_requires(f, (t,)),
        ensures
            match self {
                PResult::POk(t) => call_ensures(f, (t,), r),
                PResult::PPartial(t, e) => call_ensures(f, (t,), r),
                PResult::PErr(e) => r == false,
            },
    {
        match self {
            PResult::POk(t) => f(t),
            PResult::PPartial(t, _) => f(t),
            PResult::PErr(_) => false,
        }
    }

    /// Returns `true` iff the result is `PErr` or `PPartial`.
    pub fn has_err(&self) -> (r: bool)
        ensures
            r == !(self is POk),
    {
        !matches!(self, PResult::POk(_))
    }

    /// Returns `true` iff the result is `PErr` or `PPartial` and the error
    /// inside matches the predicate.
    pub fn has_err_and<F: FnOnce(E) -> bool>(self, f: F) -> (r: bool)
        requires
            self matches PResult::PErr(e) ==> call_requires(f, (e,)),
            self matches PResult::PPartial(t, e) ==> call_requires(f, (e,)),
        ensures
            match self {
                PResult::POk(t) => r == false,
                PResult::PPartial(t, e) => call_ensures(f, (e,), r),
                PResult::PErr(e) => call_ensures(f, (e,), r),
            },
    {
        match self {
            PResult::POk(_) => false,
            PResult::PPartial(_, e) => f(e),
            PResult::PErr(e) => f(e),
        }
    }

    /// Converts to `Option<T>`, keeping the value iff the result is `POk`.
    pub fn ok(self) -> (r: Option<T>)
        ensures
            match self {
                PResult::POk(t) => r == Some(t),
                _ => r is None,
            },
    {
        match self {
            PResult::POk(t) => Some(t),
            _ => None,
        }
    }

    /// Converts to `Option<(T, E)>`, keeping the pair iff the result is
    /// `PPartial`.
    pub fn partial(self) -> (r: Option<(T, E)>)
        ensures
            match self {
                PResult::PPartial(t, e) => r == Some((t, e)),
                _ => r is None,
            },
    {
        match self {
            PResult::PPartial(t, e) => Some((t, e)),
            _ => None,
        }
    }

    /// Converts to `Option<E>`, keeping the error iff the result is `PErr`.
    pub fn err(self) -> (r: Option<E>)
        ensures
            match self {
                PResult::PErr(e) => r == Some(e),
                _ => r is None,
            },
    {
        match self {
            PResult::PErr(e) => Some(e),
            _ => None,
        }
    }

    /// Converts to `Option<T>`, keeping the value if the result is `POk` or
    /// `PPartial` and discarding any error.
    pub fn ok_any(self) -> (r: Option<T>)
        ensures
            match self {
                PResult::POk(t) => r == Some(t),
                PResult::PPartial(t, e) => r == Some(t),
                PResult::PErr(e) => r is None,
            },
    {
        match self {
            PResult::POk(t) => Some(t),
            PResult::PPartial(t, _) => Some(t),
            PResult::PErr(_) => None,
        }
    }

    /// Converts to `Option<E>`, keeping the error if the result is `PErr`
    /// or `PPartial` and discarding any value.
    pub fn err_any(self) -> (r: Option<E>)
        ensures
            match self {
                PResult::POk(t) => r is None,
                PResult::PPartial(t, e) => r == Some(e),
                PResult::PErr(e) => r == Some(e),
            },
    {
        match self {
            PResult::POk(_) => None,
            PResult::PPartial(_, e) => Some(e),
            PResult::PErr(e) => Some(e),
        }
    }

    /// Converts from `&PResult<T, E>` to `PResult<&T, &E>`, leaving the
    /// original in place.
    pub fn as_ref(&self) -> (r: PResult<&T, &E>)
        ensures
            match *self {
                PResult::POk(t) => r matches PResult::POk(rt) && *rt == t,
                PResult::PPartial(t, e) => r matches PResult::PPartial(rt, re) && *rt == t && *re
                    == e,
                PResult::PErr(e) => r matches PResult::PErr(re) && *re == e,
            },
    {
        match self {
            PResult::POk(t) => PResult::POk(t),
            PResult::PPartial(t, e) => PResult::PPartial(t, e),
            PResult::PErr(e) => PResult::PErr(e),
        }
    }

    /// Maps `PResult<T, E>` to `PResult<U, E>` by applying a function to a
    /// contained `POk` or `PPartial` value, leaving any error untouched.
    pub fn map<U, F: FnOnce(T) -> U>(self, op: F) -> (r: PResult<U, E>)
        requires
            self matches PResult::POk(t) ==> call_requires(op, (t,)),
            self matches PResult::PPartial(t, e) ==> call_requires(op, (t,)),
        ensures
            match self {
                PResult::POk(t) => r matches PResult::POk(u) && call_ensures(op, (t,), u),
                PResult::PPartial(t, e) => r matches PResult::PPartial(u, re) && re == e
                    && call_ensures(op, (t,), u),
                PResult::PErr(e) => r == PResult::<U, E>::PErr(e),
            },
    {
        match self {
            PResult::POk(t) => PResult::POk(op(t)),
            PResult::PPartial(t, e) => PResult::PPartial(op(t), e),
            PResult::PErr(e) => PResult::PErr(e),
        }
    }

    /// Returns the provided default if `PErr` or `PPartial`, or applies the
    /// function to the contained value iff `POk`.
    pub fn map_or<U, F: FnOnce(T) -> U>(self, default: U, f: F) -> (r: U)
        requires
            self matches PResult::POk(t) ==> call_requires(f, (t,)),
        ensures
            match self {
                PResult::POk(t) => call_ensures(f, (t,), r),
                _ => r == default,
            },
    {
        match self {
            PResult::POk(t) => f(t),
            _ => default,
        }
    }

    /// Returns the provided default iff `PErr`, or applies the function to
    /// the contained value if `POk` or `PPartial`.
    pub fn map_or_any<U, F: FnOnce(T) -> U>(self, default: U, f: F) -> (r: U)
        requires
            self matches PResult::POk(t) ==> call_requires(f, (t,)),
            self matches PResult::PPartial(t, e) ==> call_requires(f, (t,)),
        ensures
            match self {
                PResult::POk(t) => call_ensures(f, (t,), r),
                PResult::PPartial(t, e) => call_ensures(f, (t,), r),
                PResult::PErr(e) => r == default,
            },
    {
        match self {
            PResult::POk(t) => f(t),
            PResult::PPartial(t, _) => f(t),
            PResult::PErr(_) => default,
        }
    }

    /// Maps to `U` by applying `default` to the error if `PErr` or
    /// `PPartial`, or `f` to the value iff `POk`.
    pub fn map_or_else<U, D: FnOnce(E) -> U, F: FnOnce(T) -> U>(self, default: D, f: F) -> (r: U)
        requires
            self matches PResult::POk(t) ==> call_requires(f, (t,)),
            self matches PResult::PPartial(t, e) ==> call_requires(default, (e,)),
            self matches PResult::PErr(e) ==> call_requires(default, (e,)),
        ensures
            match self {
                PResult::POk(t) => call_ensures(f, (t,), r),
                PResult::PPartial(t, e) => call_ensures(default, (e,), r),
                PResult::PErr(e) => call_ensures(default, (e,), r),
            },
    {
        match self {
            PResult::POk(t) => f(t),
            PResult::PPartial(_, e) => default(e),
            PResult::PErr(e) => default(e),
        }
    }

    /// Maps to `U` by applying `default` to the error iff `PErr`, or `f` to
    /// the value if `POk` or `PPartial`.
    pub fn map_or_else_any<U, D: FnOnce(E) -> U, F: FnOnce(T) -> U>(self, default: D, f: F) -> (r:
        U)
        requires
            self matches PResult::POk(t) ==> call_requires(f, (t,)),
            self matches PResult::PPartial(t, e) ==> call_requires(f, (t,)),
            self matches PResult::PErr(e) ==> call_requires(default, (e,)),
        ensures
            match self {
                PResult::POk(t) => call_ensures(f, (t,), r),
                PResult::PPartial(t, e) => call_ensures(f, (t,), r),
                PResult::PErr(e) => call_ensures(default, (e,), r),
            },
    {
        match self {
            PResult::POk(t) => f(t),
            PResult::PPartial(t, _) => f(t),
            PResult::PErr(e) => default(e),
        }
    }

    /// Maps `PResult<T, E>` to `PResult<T, F>` by applying a function to a
    /// contained `PErr` or `PPartial` error, leaving any value untouched.
    pub fn map_err<F, O: FnOnce(E) -> F>(self, op: O) -> (r: PResult<T, F>)
        requires
            self matches PResult::PPartial(t, e) ==> call_requires(op, (e,)),
            self matches PResult::PErr(e) ==> call_requires(op, (e,)),
        ensures
            match self {
                PResult::POk(t) => r == PResult::<T, F>::POk(t),
                PResult::PPartial(t, e) => r matches PResult::PPartial(rt, g) && rt == t
                    && call_ensures(op, (e,), g),
                PResult::PErr(e) => r matches PResult::PErr(g) && call_ensures(op, (e,), g),
            },
    {
        match self {
            PResult::POk(t) => PResult::POk(t),
            PResult::PPartial(t, e) => PResult::PPartial(t, op(e)),
            PResult::PErr(e) => PResult::PErr(op(e)),
        }
    }

    /// Joins a full success and a full failure into a partial success; any
    /// other combination is handed back unchanged as the error.
    pub fn try_join_exclusive(self, other: Self) -> (r: Result<Self, (Self, Self)>)
        ensures
            match (self, other) {
                (PResult::POk(t), PResult::PErr(e)) => r == Ok::<Self, (Self, Self)>(
                    PResult::PPartial(t, e),
                ),
                (PResult::PErr(e), PResult::POk(t)) => r == Ok::<Self, (Self, Self)>(
                    PResult::PPartial(t, e),
                ),
                _ => r == Err::<Self, (Self, Self)>((self, other)),
            },
    {
        match (self, other) {
            (PResult::POk(t), PResult::PErr(e)) => Ok(PResult::PPartial(t, e)),
            (PResult::PErr(e), PResult::POk(t)) => Ok(PResult::PPartial(t, e)),
            (this, other) => Err((this, other)),
        }
    }

    /// Calls the function with a reference to the contained value iff
    /// `POk`, then returns the result unchanged.
    pub fn inspect<F: FnOnce(&T)>(self, f: F) -> (r: Self)
        requires
            self matches PResult::POk(t) ==> call_requires(f, (&t,)),
        ensures
            r == self,
    {
        match &self {
            PResult::POk(t) => f(t),
            _ => (),
        }
        self
    }

    /// Calls the function with references to the contained value and error
    /// iff `PPartial`, then returns the result unchanged.
    pub fn inspect_partial<F: FnOnce(&T, &E)>(self, f: F) -> (r: Self)
        requires
            self matches PResult::PPartial(t, e) ==> call_requires(f, (&t, &e)),
        ensures
            r == self,
    {
        match &self {
            PResult::PPartial(t, e) => f(t, e),
            _ => (),
        }
        self
    }

    /// Calls the function with a reference to the contained error iff
    /// `PErr`, then returns the result unchanged.
    pub fn inspect_err<F: FnOnce(&E)>(self, f: F) -> (r: Self)
        requires
            self matches PResult::PErr(e) ==> call_requires(f, (&e,)),
        ensures
            r == self,
    {
        match &self {
            PResult::PErr(e) => f(e),
            _ => (),
        }
        self
    }

    /// Calls the function with a reference to the contained value if `POk`
    /// or `PPartial`, then returns the result unchanged.
    pub fn inspect_any<F: FnOnce(&T)>(self, f: F) -> (r: Self)
        requires
            self matches PResult::POk(t) ==> call_requires(f, (&t,)),
            self matches PResult::PPartial(t, e) ==> call_requires(f, (&t,)),
        ensures
            r == self,
    {
        match &self {
            PResult::POk(t) => f(t),
            PResult::PPartial(t, _) => f(t),
            PResult::PErr(_) => (),
        }
        self
    }

    /// Calls the function with a reference to the contained error if `PErr`
    /// or `PPartial`, then returns the result unchanged.
    pub fn inspect_err_any<F: FnOnce(&E)>(self, f: F) -> (r: Self)
        requires
            self matches PResult::PPartial(t, e) ==> call_requires(f, (&e,)),
            self matches PResult::PErr(e) ==> call_requires(f, (&e,)),
        ensures
            r == self,
    {
        match &self {
            PResult::POk(_) => (),
            PResult::PPartial(_, e) => f(e),
            PResult::PErr(e) => f(e),
        }
        self
    }

    /// Converts a `PPartial` to `POk`, discarding the error; anything else
    /// is unchanged.
    pub fn partial_into_pok(self) -> (r: Self)
        ensures
            match self {
                PResult::POk(t) => r == PResult::<T, E>::POk(t),
                PResult::PPartial(t, e) => r == PResult::<T, E>::POk(t),
                PResult::PErr(e) => r == PResult::<T, E>::PErr(e),
            },
    {
        match self {
            PResult::POk(t) => PResult::POk(t),
            PResult::PPartial(t, _) => PResult::POk(t),
            PResult::PErr(e) => PResult::PErr(e),
        }
    }

    /// Converts a `PPartial` to `PErr`, discarding the value; anything else
    /// is unchanged.
    pub fn partial_into_perr(self) -> (r: Self)
        ensures
            match self {
                PResult::POk(t) => r == PResult::<T, E>::POk(t),
                PResult::PPartial(t, e) => r == PResult::<T, E>::PErr(e),
                PResult::PErr(e) => r == PResult::<T, E>::PErr(e),
            },
    {
        match self {
            PResult::POk(t) => PResult::POk(t),
            PResult::PPartial(_, e) => PResult::PErr(e),
            PResult::PErr(e) => PResult::PErr(e),
        }
    }

    /// Converts into a `Result`, mapping `PPartial` to `Ok` and discarding
    /// its error.
    pub fn into_res_ok(self) -> (r: Result<T, E>)
        ensures
            match self {
                PResult::POk(t) => r == Ok::<T, E>(t),
                PResult::PPartial(t, e) => r == Ok::<T, E>(t),
                PResult::PErr(e) => r == Err::<T, E>(e),
            },
    {
        match self {
            PResult::POk(t) => Ok(t),
            PResult::PPartial(t, _) => Ok(t),
            PResult::PErr(e) => Err(e),
        }
    }

    /// Converts into a `Result`, mapping `PPartial` to `Err` and discarding
    /// its value.
    pub fn into_res_err(self) -> (r: Result<T, E>)
        ensures
            match self {
                PResult::POk(t) => r == Ok::<T, E>(t),
                PResult::PPartial(t, e) => r == Err::<T, E>(e),
                PResult::PErr(e) => r == Err::<T, E>(e),
            },
    {
        match self {
            PResult::POk(t) => Ok(t),
            PResult::PPartial(_, e) => Err(e),
            PResult::PErr(e) => Err(e),
        }
    }

    /// Converts `PResult<T, E>` to `PResult<E, T>`, exchanging the roles of
    /// value and error.
    pub fn swap_val_err(self) -> (r: PResult<E, T>)
        ensures
            match self {
                PResult::POk(t) => r == PResult::<E, T>::PErr(t),
                PResult::PPartial(t, e) => r == PResult::<E, T>::PPartial(e, t),
                PResult::PErr(e) => r == PResult::<E, T>::POk(e),
            },
    {
        match self {
            PResult::POk(t) => PResult::PErr(t),
            PResult::PPartial(t, e) => PResult::PPartial(e, t),
            PResult::PErr(e) => PResult::POk(e),
        }
    }

    /// Returns an iterator yielding the contained value iff the result is
    /// `POk`, otherwise nothing.
    pub fn iter(&self) -> (r: Iter<'_, T>)
        ensures
            match *self {
                PResult::POk(t) => r.pending() matches Some(p) && *p == t,
                _ => r.pending() is None,
            },
    {
        Iter { inner: self.as_ref().ok() }
    }

    /// Returns an iterator yielding the contained value and error iff the
    /// result is `PPartial`, otherwise nothing.
    pub fn iter_partial(&self) -> (r: IntoIter<(&T, &E)>)
        ensures
            match *self {
                PResult::PPartial(t, e) => r.pending() matches Some(p) && *p.0 == t && *p.1 == e,
                _ => r.pending() is None,
            },
    {
        IntoIter { inner: self.as_ref().partial() }
    }

    /// Returns an iterator yielding the contained error iff the result is
    /// `PErr`, otherwise nothing.
    pub fn iter_err(&self) -> (r: Iter<'_, E>)
        ensures
            match *self {
                PResult::PErr(e) => r.pending() matches Some(p) && *p == e,
                _ => r.pending() is None,
            },
    {
        Iter { inner: self.as_ref().err() }
    }

    /// Returns an iterator yielding the contained value if the result is
    /// `POk` or `PPartial`, otherwise nothing.
    pub fn iter_any(&self) -> (r: Iter<'_, T>)
        ensures
            match *self {
                PResult::POk(t) => r.pending() matches Some(p) && *p == t,
                PResult::PPartial(t, e) => r.pending() matches Some(p) && *p == t,
                PResult::PErr(e) => r.pending() is None,
            },
    {
        Iter { inner: self.as_ref().ok_any() }
    }

    /// Returns an iterator yielding the contained error if the result is
    /// `PErr` or `PPartial`, otherwise nothing.
    pub fn iter_err_any(&self) -> (r: Iter<'_, E>)
        ensures
            match *self {
                PResult::POk(t) => r.pending() is None,
                PResult::PPartial(t, e) => r.pending() matches Some(p) && *p == e,
                PResult::PErr(e) => r.pending() matches Some(p) && *p == e,
            },
    {
        Iter { inner: self.as_ref().err_any() }
    }

    /// Returns a consuming iterator yielding the contained value and error
    /// iff the result is `PPartial`, otherwise nothing.
    pub fn into_iter_partial(self) -> (r: IntoIter<(T, E)>)
        ensures
            match self {
                PResult::PPartial(t, e) => r.pending() == Some((t, e)),
                _ => r.pending() is None,
            },
    {
        IntoIter { inner: self.partial() }
    }

    /// Returns a consuming iterator yielding the contained error iff the
    /// result is `PErr`, otherwise nothing.
    pub fn into_iter_err(self) -> (r: IntoIter<E>)
        ensures
            match self {
                PResult::PErr(e) => r.pending() == Some(e),
                _ => r.pending() is None,
            },
    {
        IntoIter { inner: self.err() }
    }

    /// Returns a consuming iterator yielding the contained value if the
    /// result is `POk` or `PPartial`, otherwise nothing.
    pub fn into_iter_any(self) -> (r: IntoIter<T>)
        ensures
            match self {
                PResult::POk(t) => r.pending() == Some(t),
                PResult::PPartial(t, e) => r.pending() == Some(t),
                PResult::PErr(e) => r.pending() is None,
            },
    {
        IntoIter { inner: self.ok_any() }
    }

    /// Returns a consuming iterator yielding the contained error if the
    /// result is `PErr` or `PPartial`, otherwise nothing.
    pub fn into_iter_err_any(self) -> (r: IntoIter<E>)
        ensures
            match self {
                PResult::POk(t) => r.pending() is None,
                PResult::PPartial(t, e) => r.pending() == Some(e),
                PResult::PErr(e) => r.pending() == Some(e),
            },
    {
        IntoIter { inner: self.err_any() }
    }

    /// Returns the contained `POk` value; the result must be `POk`, so this
    /// never fails.  The message is what a failing caller would report.
    pub fn expect(self, msg: &str) -> (r: T)
        requires
            self is POk,
        ensures
            self == PResult::<T, E>::POk(r),
    {
        match self {
            PResult::POk(t) => t,
            _ => unreached(),
        }
    }

    /// Returns the contained `POk` value; the result must be `POk`.
    pub fn unwrap(self) -> (r: T)
        requires
            self is POk,
        ensures
            self == PResult::<T, E>::POk(r),
    {
        match self {
            PResult::POk(t) => t,
            _ => unreached(),
        }
    }

    /// Returns the contained `PPartial` pair; the result must be
    /// `PPartial`.  The message is what a failing caller would report.
    pub fn expect_partial(self, msg: &str) -> (r: (T, E))
        requires
            self is PPartial,
        ensures
            self == PResult::<T, E>::PPartial(r.0, r.1),
    {
        match self {
            PResult::PPartial(t, e) => (t, e),
            _ => unreached(),
        }
    }

    /// Returns the contained `PPartial` pair; the result must be
    /// `PPartial`.
    pub fn unwrap_partial(self) -> (r: (T, E))
        requires
            self is PPartial,
        ensures
            self == PResult::<T, E>::PPartial(r.0, r.1),
    {
        match self {
            PResult::PPartial(t, e) => (t, e),
            _ => unreached(),
        }
    }

    /// Returns the contained `PErr` error; the result must be `PErr`.  The
    /// message is what a failing caller would report.
    pub fn expect_err(self, msg: &str) -> (r: E)
        requires
            self is PErr,
        ensures
            self == PResult::<T, E>::PErr(r),
    {
        match self {
            PResult::PErr(e) => e,
            _ => unreached(),
        }
    }

    /// Returns the contained `PErr` error; the result must be `PErr`.
    pub fn unwrap_err(self) -> (r: E)
        requires
            self is PErr,
        ensures
            self == PResult::<T, E>::PErr(r),
    {
        match self {
            PResult::PErr(e) => e,
            _ => unreached(),
        }
    }

    /// Returns the contained value of a `POk` or `PPartial`; the result
    /// must not be `PErr`.  The message is what a failing caller would
    /// report.
    pub fn expect_any(self, msg: &str) -> (r: T)
        requires
            !(self is PErr),
        ensures
            match self {
                PResult::POk(t) => r == t,
                PResult::PPartial(t, e) => r == t,
                PResult::PErr(e) => false,
            },
    {
        match self {
            PResult::POk(t) => t,
            PResult::PPartial(t, _) => t,
            PResult::PErr(_) => unreached(),
        }
    }

    /// Returns the contained value of a `POk` or `PPartial`; the result
    /// must not be `PErr`.
    pub fn unwrap_any(self) -> (r: T)
        requires
            !(self is PErr),
        ensures
            match self {
                PResult::POk(t) => r == t,
                PResult::PPartial(t, e) => r == t,
                PResult::PErr(e) => false,
            },
    {
        match self {
            PResult::POk(t) => t,
            PResult::PPartial(t, _) => t,
            PResult::PErr(_) => unreached(),
        }
    }

    /// Returns the contained error of a `PErr` or `PPartial`; the result
    /// must not be `POk`.  The message is what a failing caller would
    /// report.
    pub fn expect_err_any(self, msg: &str) -> (r: E)
        requires
            !(self is POk),
        ensures
            match self {
                PResult::POk(t) => false,
                PResult::PPartial(t, e) => r == e,
                PResult::PErr(e) => r == e,
            },
    {
        match self {
            PResult::POk(_) => unreached(),
            PResult::PPartial(_, e) => e,
            PResult::PErr(e) => e,
        }
    }

    /// Returns the contained error of a `PErr` or `PPartial`; the result
    /// must not be `POk`.
    pub fn unwrap_err_any(self) -> (r: E)
        requires
            !(self is POk),
        ensures
            match self {
                PResult::POk(t) => false,
                PResult::PPartial(t, e) => r == e,
                PResult::PErr(e) => r == e,
            },
    {
        match self {
            PResult::POk(_) => unreached(),
            PResult::PPartial(_, e) => e,
            PResult::PErr(e) => e,
        }
    }

    /// Returns `pres` if the result is `POk` or `PPartial`, otherwise the
    /// `PErr` of `self`.
    pub fn and_any<U>(self, pres: PResult<U, E>) -> (r: PResult<U, E>)
        ensures
            match self {
                PResult::POk(t) => r == pres,
                PResult::PPartial(t, e) => r == pres,
                PResult::PErr(e) => r == PResult::<U, E>::PErr(e),
            },
    {
        match self {
            PResult::POk(_) => pres,
            PResult::PPartial(_, _) => pres,
            PResult::PErr(e) => PResult::PErr(e),
        }
    }

    /// Calls `op` on the value if the result is `POk` or `PPartial`,
    /// otherwise returns the `PErr` of `self`.
    pub fn and_then_any<U, F: FnOnce(T) -> PResult<U, E>>(self, op: F) -> (r: PResult<U, E>)
        requires
            self matches PResult::POk(t) ==> call_requires(op, (t,)),
            self matches PResult::PPartial(t, e) ==> call_requires(op, (t,)),
        ensures
            match self {
                PResult::POk(t) => call_ensures(op, (t,), r),
                PResult::PPartial(t, e) => call_ensures(op, (t,), r),
                PResult::PErr(e) => r == PResult::<U, E>::PErr(e),
            },
    {
        match self {
            PResult::POk(t) => op(t),
            PResult::PPartial(t, _) => op(t),
            PResult::PErr(e) => PResult::PErr(e),
        }
    }

    /// Returns `pres` if the result is `PErr` or `PPartial`, otherwise the
    /// `POk` of `self`.
    pub fn or_any<F>(self, pres: PResult<T, F>) -> (r: PResult<T, F>)
        ensures
            match self {
                PResult::POk(t) => r == PResult::<T, F>::POk(t),
                PResult::PPartial(t, e) => r == pres,
                PResult::PErr(e) => r == pres,
            },
    {
        match self {
            PResult::POk(t) => PResult::POk(t),
            PResult::PPartial(_, _) => pres,
            PResult::PErr(_) => pres,
        }
    }

    /// Calls `op` on the error if the result is `PErr` or `PPartial`,
    /// otherwise returns the `POk` of `self`.
    pub fn or_else_any<F, O: FnOnce(E) -> PResult<T, F>>(self, op: O) -> (r: PResult<T, F>)
        requires
            self matches PResult::PPartial(t, e) ==> call_requires(op, (e,)),
            self matches PResult::PErr(e) ==> call_requires(op, (e,)),
        ensures
            match self {
                PResult::POk(t) => r == PResult::<T, F>::POk(t),
                PResult::PPartial(t, e) => call_ensures(op, (e,), r),
                PResult::PErr(e) => call_ensures(op, (e,), r),
            },
    {
        match self {
            PResult::POk(t) => PResult::POk(t),
            PResult::PPartial(_, e) => op(e),
            PResult::PErr(e) => op(e),
        }
    }

    /// Returns the contained `POk` value or the provided default if `PErr`
    /// or `PPartial`.
    pub fn unwrap_or(self, default: T) -> (r: T)
        ensures
            match self {
                PResult::POk(t) => r == t,
                _ => r == default,
            },
    {
        match self {
            PResult::POk(t) => t,
            _ => default,
        }
    }

    /// Returns the contained `POk` value or computes one from the error if
    /// `PErr` or `PPartial`.
    pub fn unwrap_or_else<F: FnOnce(E) -> T>(self, op: F) -> (r: T)
        requires
            self matches PResult::PPartial(t, e) ==> call_requires(op, (e,)),
            self matches PResult::PErr(e) ==> call_requires(op, (e,)),
        ensures
            match self {
                PResult::POk(t) => r == t,
                PResult::PPartial(t, e) => call_ensures(op, (e,), r),
                PResult::PErr(e) => call_ensures(op, (e,), r),
            },
    {
        match self {
            PResult::POk(t) => t,
            PResult::PPartial(_, e) => op(e),
            PResult::PErr(e) => op(e),
        }
    }

    /// Returns the contained `POk` or `PPartial` value, or the provided
    /// default iff `PErr`.
    pub fn unwrap_any_or(self, default: T) -> (r: T)
        ensures
            match self {
                PResult::POk(t) => r == t,
                PResult::PPartial(t, e) => r == t,
                PResult::PErr(e) => r == default,
            },
    {
        match self {
            PResult::POk(t) => t,
            PResult::PPartial(t, _) => t,
            PResult::PErr(_) => default,
        }
    }

    /// Returns the contained `POk` or `PPartial` value, or computes one
    /// from the error iff `PErr`.
    pub fn unwrap_any_or_else<F: FnOnce(E) -> T>(self, op: F) -> (r: T)
        requires
            self matches PResult::PErr(e) ==> call_requires(op, (e,)),
        ensures
            match self {
                PResult::POk(t) => r == t,
                PResult::PPartial(t, e) => r == t,
                PResult::PErr(e) => call_ensures(op, (e,), r),
            },
    {
        match self {
            PResult::POk(t) => t,
            PResult::PPartial(t, _) => t,
            PResult::PErr(e) => op(e),
        }
    }

    /// Returns the contained `POk` value without inspecting the variant at
    /// run time; the result must be `POk`.
    pub fn unwrap_unchecked(self) -> (r: T)
        requires
            self is POk,
        ensures
            self == PResult::<T, E>::POk(r),
    {
        match self {
            PResult::POk(t) => t,
            _ => unreached(),
        }
    }

    /// Returns the contained `PPartial` pair without inspecting the variant
    /// at run time; the result must be `PPartial`.
    pub fn unwrap_partial_unchecked(self) -> (r: (T, E))
        requires
            self is PPartial,
        ensures
            self == PResult::<T, E>::PPartial(r.0, r.1),
    {
        match self {
            PResult::PPartial(t, e) => (t, e),
            _ => unreached(),
        }
    }

    /// Returns the contained `PErr` error without inspecting the variant at
    /// run time; the result must be `PErr`.
    pub fn unwrap_err_unchecked(self) -> (r: E)
        requires
            self is PErr,
        ensures
            self == PResult::<T, E>::PErr(r),
    {
        match self {
            PResult::PErr(e) => e,
            _ => unreached(),
        }
    }

    /// Returns the contained `POk` or `PPartial` value without inspecting
    /// the variant at run time; the result must not be `PErr`.
    pub fn unwrap_any_unchecked(self) -> (r: T)
        requires
            !(self is PErr),
        ensures
            match self {
                PResult::POk(t) => r == t,
                PResult::PPartial(t, e) => r == t,
                PResult::PErr(e) => false,
            },
    {
        match self {
            PResult::POk(t) => t,
            PResult::PPartial(t, _) => t,
            PResult::PErr(_) => unreached(),
        }
    }

    /// Returns the contained `PErr` or `PPartial` error without inspecting
    /// the variant at run time; the result must not be `POk`.
    pub fn unwrap_err_any_unchecked(self) -> (r: E)
        requires
            !(self is POk),
        ensures
            match self {
                PResult::POk(t) => false,
                PResult::PPartial(t, e) => r == e,
                PResult::PErr(e) => r == e,
            },
    {
        match self {
            PResult::POk(_) => unreached(),
            PResult::PPartial(_, e) => e,
            PResult::PErr(e) => e,
        }
    }
}

impl<T: Default, E> PResult<T, E> {
    /// Returns the contained `POk` value or `T`'s default if `PErr` or
    /// `PPartial`.
    pub fn unwrap_or_default(self) -> (r: T)
        ensures
            match self {
                PResult::POk(t) => r == t,
                _ => call_ensures(T::default, (), r),
            },
    {
        match self {
            PResult::POk(t) => t,
            _ => T::default(),
        }
    }

    /// Returns the contained `POk` or `PPartial` value, or `T`'s default
    /// iff `PErr`.
    pub fn unwrap_any_or_default(self) -> (r: T)
        ensures
            match self {
                PResult::POk(t) => r == t,
                PResult::PPartial(t, e) => r == t,
                PResult::PErr(e) => call_ensures(T::default, (), r),
            },
    {
        match self {
            PResult::POk(t) => t,
            PResult::PPartial(t, _) => t,
            PResult::PErr(_) => T::default(),
        }
    }
}

impl<T: Copy, E> PResult<&T, E> {
    /// Maps `PResult<&T, E>` to `PResult<T, E>` by copying the contents of
    /// the `POk` and `PPartial` variants.
    pub fn copied(self) -> (r: PResult<T, E>)
        ensures
            match self {
                PResult::POk(t) => r == PResult::<T, E>::POk(*t),
                PResult::PPartial(t, e) => r == PResult::<T, E>::PPartial(*t, e),
                PResult::PErr(e) => r == PResult::<T, E>::PErr(e),
            },
    {
        match self {
            PResult::POk(t) => PResult::POk(*t),
            PResult::PPartial(t, e) => PResult::PPartial(*t, e),
            PResult::PErr(e) => PResult::PErr(e),
        }
    }
}

impl<T: Clone, E> PResult<&T, E> {
    /// Maps `PResult<&T, E>` to `PResult<T, E>` by cloning the contents of
    /// the `POk` and `PPartial` variants.
    pub fn cloned(self) -> (r: PResult<T, E>)
        ensures
            match self {
                PResult::POk(t) => r matches PResult::POk(u) && vstd::pervasive::cloned::<T>(*t, u),
                PResult::PPartial(t, e) => r matches PResult::PPartial(u, re) && re == e
                    && vstd::pervasive::cloned::<T>(*t, u),
                PResult::PErr(e) => r == PResult::<T, E>::PErr(e),
            },
    {
        match self {
            PResult::POk(t) => PResult::POk(t.clone()),
            PResult::PPartial(t, e) => PResult::PPartial(t.clone(), e),
            PResult::PErr(e) => PResult::PErr(e),
        }
    }
}

impl<T: core::ops::Deref, E> PResult<T, E> {
    /// Converts from `&PResult<T, E>` to `PResult<&T::Target, &E>`,
    /// dereferencing the value of a `POk` or `PPartial`.
    pub fn as_deref(&self) -> (r: PResult<&<T as core::ops::Deref>::Target, &E>)
        ensures
            match *self {
                PResult::POk(t) => r matches PResult::POk(d) && call_ensures(
                    <T as core::ops::Deref>::deref,
                    (&t,),
                    d,
                ),
                PResult::PPartial(t, e) => r matches PResult::PPartial(d, re) && *re == e
                    && call_ensures(<T as core::ops::Deref>::deref, (&t,), d),
                PResult::PErr(e) => r matches PResult::PErr(re) && *re == e,
            },
    {
        match self {
            PResult::POk(t) => PResult::POk(t.deref()),
            PResult::PPartial(t, e) => PResult::PPartial(t.deref(), e),
            PResult::PErr(e) => PResult::PErr(e),
        }
    }
}

impl<T, E> PResult<Option<T>, E> {
    /// Transposes a `PResult` of an `Option` into an `Option` of a
    /// `PResult`: `POk(None)` becomes `None`, `PPartial(None, e)` becomes
    /// `Some(PErr(e))`, and every other case keeps its shape inside
    /// `Some`.
    pub fn transpose(self) -> (r: Option<PResult<T, E>>)
        ensures
            match self {
                PResult::POk(opt) => match opt {
                    Some(t) => r == Some(PResult::<T, E>::POk(t)),
                    None => r is None,
                },
                PResult::PPartial(opt, e) => match opt {
                    Some(t) => r == Some(PResult::<T, E>::PPartial(t, e)),
                    None => r == Some(PResult::<T, E>::PErr(e)),
                },
                PResult::PErr(e) => r == Some(PResult::<T, E>::PErr(e)),
            },
    {
        match self {
            PResult::POk(Some(t)) => Some(PResult::POk(t)),
            PResult::POk(None) => None,
            PResult::PPartial(Some(t), e) => Some(PResult::PPartial(t, e)),
            PResult::PPartial(None, e) => Some(PResult::PErr(e)),
            PResult::PErr(e) => Some(PResult::PErr(e)),
        }
    }
}

impl<T, E> PResult<Result<T, E>, E> {
    /// Converts `PResult<Result<T, E>, E>` to `PResult<T, E>`; an inner
    /// `Err` turns the result into `PErr`, and a partial result keeps its
    /// own error.
    pub fn flatten(self) -> (r: PResult<T, E>)
        ensures
            match self {
                PResult::POk(res) => match res {
                    Ok(t) => r == PResult::<T, E>::POk(t),
                    Err(e) => r == PResult::<T, E>::PErr(e),
                },
                PResult::PPartial(res, e) => match res {
                    Ok(t) => r == PResult::<T, E>::PPartial(t, e),
                    Err(inner) => r == PResult::<T, E>::PErr(e),
                },
                PResult::PErr(e) => r == PResult::<T, E>::PErr(e),
            },
    {
        match self {
            PResult::POk(Ok(t)) => PResult::POk(t),
            PResult::POk(Err(e)) => PResult::PErr(e),
            PResult::PPartial(Ok(t), e) => PResult::PPartial(t, e),
            PResult::PPartial(Err(_), e) => PResult::PErr(e),
            PResult::PErr(e) => PResult::PErr(e),
        }
    }
}

impl<T, E> PResult<PResult<T, E>, E> {
    /// Converts `PResult<PResult<T, E>, E>` to `PResult<T, E>`; a partial
    /// outer result keeps its own error over the inner one.
    pub fn flatten(self) -> (r: PResult<T, E>)
        ensures
            match self {
                PResult::POk(pres) => r == pres,
                PResult::PPartial(pres, e) => match pres {
                    PResult::POk(t) => r == PResult::<T, E>::PPartial(t, e),
                    PResult::PPartial(t, inner) => r == PResult::<T, E>::PPartial(t, e),
                    PResult::PErr(inner) => r == PResult::<T, E>::PErr(inner),
                },
                PResult::PErr(e) => r == PResult::<T, E>::PErr(e),
            },
    {
        match self {
            PResult::POk(pres) => pres,
            PResult::PPartial(PResult::POk(t), e) => PResult::PPartial(t, e),
            PResult::PPartial(PResult::PPartial(t, _), e) => PResult::PPartial(t, e),
            PResult::PPartial(PResult::PErr(inner), _) => PResult::PErr(inner),
            PResult::PErr(e) => PResult::PErr(e),
        }
    }
}

impl<T: Clone, E: Clone> Clone for PResult<T, E> {
    /// Clones whatever the result contains, variant for variant.
    fn clone(&self) -> (r: Self)
        ensures
            match *self {
                PResult::POk(t) => r matches PResult::POk(u) && cloned(t, u),
                PResult::PPartial(t, e) => r matches PResult::PPartial(u, f) && cloned(t, u)
                    && cloned(e, f),
                PResult::PErr(e) => r matches PResult::PErr(f) && cloned(e, f),
            },
    {
        match self {
            PResult::POk(t) => PResult::POk(t.clone()),
            PResult::PPartial(t, e) => PResult::PPartial(t.clone(), e.clone()),
            PResult::PErr(e) => PResult::PErr(e.clone()),
        }
    }
}

/// The `Result` shape of a [`PResult`]: a success carries the value and an
/// optional partial error, a failure carries the error alone.
pub type PartialResult<T, E> = Result<(T, Option<E>), E>;

impl<T, E> From<Result<T, E>> for PResult<T, E> {
    /// Converts `Ok` to `POk` and `Err` to `PErr`.
    fn from(res: Result<T, E>) -> Self {
        match res {
            Ok(t) => PResult::POk(t),
            Err(e) => PResult::PErr(e),
        }
    }
}

impl<T, E> vstd::std_specs::convert::FromSpecImpl<Result<T, E>> for PResult<T, E> {
    open spec fn obeys_from_spec() -> bool {
        true
    }

    open spec fn from_spec(res: Result<T, E>) -> Self {
        match res {
            Ok(t) => PResult::POk(t),
            Err(e) => PResult::PErr(e),
        }
    }
}

impl<T, E> From<PartialResult<T, E>> for PResult<T, E> {
    /// Converts `Ok` without an error to `POk`, `Ok` with one to
    /// `PPartial`, and `Err` to `PErr`.
    fn from(res: PartialResult<T, E>) -> Self {
        match res {
            Ok((t, None)) => PResult::POk(t),
            Ok((t, Some(e))) => PResult::PPartial(t, e),
            Err(e) => PResult::PErr(e),
        }
    }
}

impl<T, E> vstd::std_specs::convert::FromSpecImpl<PartialResult<T, E>> for PResult<T, E> {
    open spec fn obeys_from_spec() -> bool {
        true
    }

    open spec fn from_spec(res: PartialResult<T, E>) -> Self {
        match res {
            Ok((t, None)) => PResult::POk(t),
            Ok((t, Some(e))) => PResult::PPartial(t, e),
            Err(e) => PResult::PErr(e),
        }
    }
}

/// An iterator over at most one borrowed value.
pub struct Iter<'a, T> {
    inner: Option<&'a T>,
}

impl<'a, T> Iter<'a, T> {
    /// What the iterator has yet to yield.
    pub closed spec fn pending(&self) -> Option<&'a T> {
        self.inner
    }

    /// Yields the remaining value, if any, and nothing afterwards.
    pub fn next(&mut self) -> (r: Option<&'a T>)
        ensures
            r == old(self).pending(),
            final(self).pending() is None,
    {
        self.inner.take()
    }

    /// How many values remain: one or none.
    pub fn size_hint(&self) -> (r: (usize, Option<usize>))
        ensures
            r.0 == (if self.pending() is Some {
                1usize
            } else {
                0usize
            }),
            r.1 == Some(r.0),
    {
        let n: usize = if self.inner.is_some() {
            1
        } else {
            0
        };
        (n, Some(n))
    }
}

/// A consuming iterator over at most one value.
#[derive(Clone, Debug)]
pub struct IntoIter<T> {
    inner: Option<T>,
}

impl<T> IntoIter<T> {
    /// What the iterator has yet to yield.
    pub closed spec fn pending(&self) -> Option<T> {
        self.inner
    }

    /// Yields the remaining value, if any, and nothing afterwards.
    pub fn next(&mut self) -> (r: Option<T>)
        ensures
            r == old(self).pending(),
            final(self).pending() is None,
    {
        self.inner.take()
    }

    /// How many values remain: one or none.
    pub fn size_hint(&self) -> (r: (usize, Option<usize>))
        ensures
            r.0 == (if self.pending() is Some {
                1usize
            } else {
                0usize
            }),
            r.1 == Some(r.0),
    {
        let n: usize = if self.inner.is_some() {
            1
        } else {
            0
        };
        (n, Some(n))
    }
}

} // verus!
