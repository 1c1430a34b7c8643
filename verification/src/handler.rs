//! The sink that the stages of the front end put their diagnostics in.

use crate::error::{CompileError, CompileWarning, Error, Warning};
use crate::location::{Locatable, Location};
use std::collections::VecDeque;
use vstd::prelude::*;
use vstd::std_specs::convert::{FromSpec, IntoSpec};
use vstd::std_specs::iter::IteratorSpec;

verus! {

/// ErrorHandler is a struct that hold errors generated by the compiler
///
/// An error handler is used because multiple errors may be generated by each
/// part of the compiler, this cannot be represented well with Rust's normal
/// `Result`.
#[derive(Clone, Debug, PartialEq)]
pub struct ErrorHandler<T = Error> {
    errors: VecDeque<Locatable<T>>,
    pub warnings: VecDeque<CompileWarning>,
}

impl<T> Default for ErrorHandler<T> {
    fn default() -> (r: Self)
        ensures
            r.errors() == Seq::<Locatable<T>>::empty(),
            r.warnings() == Seq::<CompileWarning>::empty(),
    {
        Self { errors: VecDeque::new(), warnings: VecDeque::new() }
    }
}

/// `From` of a type into itself, which std implements for every type. Trusted: it returns
/// its argument unchanged, as its documentation says. `push_back`, `warn`, `error`, `extend`
/// and `append` make this call whenever they are handed a value that already has the type
/// they queue; with it their contracts say that the value is queued as it is.
pub assume_specification<X>[ <X as std::convert::From<X>>::from ](x: X) -> (same: X)
    ensures
        same == x,
;

/// The values that the conversion of `T` from `S` may give for each error of a queue,
/// with the locations kept: `to` is `from` converted, item by item.
pub open spec fn converted<S, T: From<S>>(from: Seq<Locatable<S>>, to: Seq<Locatable<T>>) -> bool {
    &&& to.len() == from.len()
    &&& forall|i: int|
        0 <= i < from.len() ==> (#[trigger] to[i]).location == from[i].location && call_ensures(
            T::from,
            (from[i].data,),
            to[i].data,
        )
}

/// `to` holds what `Into` may give for each item of `from`, in the same order.
pub open spec fn each_into<E: Into<U>, U>(from: Seq<E>, to: Seq<U>) -> bool {
    &&& to.len() == from.len()
    &&& forall|i: int|
        0 <= i < from.len() ==> call_ensures(
            <E as Into<U>>::into,
            (from[i],),
            #[trigger] to[i],
        )
}

impl<T> ErrorHandler<T> {
    /// The errors that have been seen and not handled, oldest first.
    pub closed spec fn errors(&self) -> Seq<Locatable<T>> {
        self.errors@
    }

    /// The warnings that have been given, oldest first.
    pub closed spec fn warnings(&self) -> Seq<CompileWarning> {
        self.warnings@
    }

    /// Construct a new error handler.
    pub fn new() -> (r: ErrorHandler<T>)
        ensures
            r.errors() == Seq::<Locatable<T>>::empty(),
            r.warnings() == Seq::<CompileWarning>::empty(),
    {
        Self { errors: VecDeque::new(), warnings: VecDeque::new() }
    }

    /// Whether any errors have been seen and not handled
    pub fn is_empty(&self) -> (r: bool)
        ensures
            r == (self.errors().len() == 0),
    {
        self.errors.len() == 0
    }

    /// The number of errors that have been seen and not handled.
    pub fn len(&self) -> (n: usize)
        ensures
            n == self.errors().len(),
    {
        self.errors.len()
    }

    /// Add an error to the error handler.
    pub fn push_back<E: Into<Locatable<T>>>(&mut self, error: E)
        ensures
            final(self).errors().len() == old(self).errors().len() + 1,
            final(self).errors().drop_last() == old(self).errors(),
            call_ensures(<E as Into<Locatable<T>>>::into, (error,), final(self).errors().last()),
            <E as IntoSpec<Locatable<T>>>::obeys_into_spec() ==> final(self).errors()
                == old(self).errors().push(error.into_spec()),
            final(self).warnings() == old(self).warnings(),
    {
        let pushed: Locatable<T> = error.into();
        self.errors.push_back(pushed);
        assert(self.errors().drop_last() == old(self).errors());
    }

    /// Remove the first error from the queue
    pub fn pop_front(&mut self) -> (r: Option<Locatable<T>>)
        ensures
            r == (if old(self).errors().len() > 0 {
                Some(old(self).errors()[0])
            } else {
                None
            }),
            final(self).errors() == (if old(self).errors().len() > 0 {
                old(self).errors().drop_first()
            } else {
                old(self).errors()
            }),
            final(self).warnings() == old(self).warnings(),
    {
        self.errors.pop_front()
    }

    /// Shortcut for adding a warning
    pub fn warn<W: Into<Warning>>(&mut self, warning: W, location: Location)
        ensures
            final(self).warnings().len() == old(self).warnings().len() + 1,
            final(self).warnings().drop_last() == old(self).warnings(),
            final(self).warnings().last().location == location,
            call_ensures(
                <W as Into<Warning>>::into,
                (warning,),
                final(self).warnings().last().data,
            ),
            <W as IntoSpec<Warning>>::obeys_into_spec() ==> final(self).warnings()
                == old(self).warnings().push(Locatable { data: warning.into_spec(), location }),
            final(self).errors() == old(self).errors(),
    {
        let pushed: Warning = warning.into();
        self.warnings.push_back(location.with(pushed));
        assert(self.warnings().drop_last() == old(self).warnings());
    }

    /// Shortcut for adding an error
    pub fn error<E: Into<T>>(&mut self, error: E, location: Location)
        ensures
            final(self).errors().len() == old(self).errors().len() + 1,
            final(self).errors().drop_last() == old(self).errors(),
            final(self).errors().last().location == location,
            call_ensures(<E as Into<T>>::into, (error,), final(self).errors().last().data),
            <E as IntoSpec<T>>::obeys_into_spec() ==> final(self).errors()
                == old(self).errors().push(Locatable { data: error.into_spec(), location }),
            final(self).warnings() == old(self).warnings(),
    {
        let pushed: T = error.into();
        self.errors.push_back(location.with(pushed));
        assert(self.errors().drop_last() == old(self).errors());
    }

    /// The number of warnings that have been given and not taken.
    pub fn warning_count(&self) -> (n: usize)
        ensures
            n == self.warnings().len(),
    {
        self.warnings.len()
    }

    /// Takes the warnings out of the handler, oldest first, for the caller to report.
    pub fn take_warnings(&mut self) -> (r: Vec<CompileWarning>)
        ensures
            r@ == old(self).warnings(),
            final(self).warnings() == Seq::<CompileWarning>::empty(),
            final(self).errors() == old(self).errors(),
    {
        let mut out: Vec<CompileWarning> = Vec::new();
        let ghost all = self.warnings();
        assert(all.skip(0) == all);
        while self.warnings.len() > 0
            invariant
                out@.len() <= all.len(),
                out@ == all.take(out@.len() as int),
                self.warnings() == all.skip(out@.len() as int),
                self.errors() == old(self).errors(),
            decreases self.warnings().len(),
        {
            let ghost k = out@.len() as int;
            let next = self.warnings.pop_front().unwrap();
            out.push(next);
            proof {
                assert(all.skip(k)[0] == all[k]);
                assert(all.skip(k).subrange(1, all.skip(k).len() as int) == all.skip(k + 1));
                assert(all.take(k + 1) == all.take(k).push(all[k]));
            }
        }
        assert(all.take(all.len() as int) == all);
        out
    }

    /// Add an iterator of errors to the error queue. The iterator must be one that ends and
    /// that gives what it foretells, as the iterators of the standard collections do.
    pub fn extend<E: Into<Locatable<T>>>(&mut self, iter: impl Iterator<Item = E>)
        requires
            iter.obeys_prophetic_iter_laws(),
            iter.decrease() is Some,
        ensures
            old(self).errors().is_prefix_of(final(self).errors()),
            each_into(iter.remaining(), final(self).errors().skip(old(self).errors().len() as int)),
            final(self).warnings() == old(self).warnings(),
    {
        let mut iter = iter;
        let ghost all = iter.remaining();
        let ghost mut pushed: Seq<Locatable<T>> = Seq::empty();
        assert(all.skip(0) == all);
        loop
            invariant
                iter.obeys_prophetic_iter_laws(),
                iter.decrease() is Some,
                pushed.len() <= all.len(),
                iter.remaining() == all.skip(pushed.len() as int),
                each_into(all.take(pushed.len() as int), pushed),
                self.errors() == old(self).errors() + pushed,
                self.warnings() == old(self).warnings(),
            ensures
                each_into(all, pushed),
                self.errors() == old(self).errors() + pushed,
                self.warnings() == old(self).warnings(),
            decreases iter.decrease()->0,
        {
            let ghost k = pushed.len() as int;
            match iter.next() {
                Some(next) => {
                    let converted: Locatable<T> = next.into();
                    self.errors.push_back(converted);
                    proof {
                        assert(all.skip(k)[0] == all[k]);
                        assert(all.skip(k).drop_first() == all.skip(k + 1));
                        pushed = pushed.push(converted);
                        assert(all.take(k + 1) == all.take(k).push(all[k]));
                    }
                },
                None => {
                    assert(all.skip(k).len() == 0);
                    assert(all.take(k) == all);
                    break ;
                },
            }
        }
        assert(self.errors().skip(old(self).errors().len() as int) == pushed);
    }

    /// Move another `ErrorHandler`'s errors and warnings into this one.
    pub fn append<S>(&mut self, other: &mut ErrorHandler<S>) where T: From<S>
        ensures
            old(self).errors().is_prefix_of(final(self).errors()),
            converted(
                old(other).errors(),
                final(self).errors().skip(old(self).errors().len() as int),
            ),
            <T as FromSpec<S>>::obeys_from_spec() ==> final(self).errors() == old(self).errors()
                + old(other).errors().map_values(
                |e: Locatable<S>| Locatable { data: T::from_spec(e.data), location: e.location },
            ),
            final(self).warnings() == old(self).warnings() + old(other).warnings(),
            final(other).errors() == Seq::<Locatable<S>>::empty(),
            final(other).warnings() == Seq::<CompileWarning>::empty(),
    {
        let ghost mut moved: Seq<Locatable<T>> = Seq::empty();
        let ghost all = other.errors();
        assert(all.skip(0) == all);
        while other.errors.len() > 0
            invariant
                other.errors() == all.skip(moved.len() as int),
                moved.len() <= all.len(),
                converted(all.take(moved.len() as int), moved),
                self.errors() == old(self).errors() + moved,
                self.warnings() == old(self).warnings(),
                other.warnings() == old(other).warnings(),
                all == old(other).errors(),
            decreases other.errors().len(),
        {
            let ghost k = moved.len() as int;
            let next = other.errors.pop_front().unwrap();
            let data: T = T::from(next.data);
            let item = Locatable { data, location: next.location };
            self.errors.push_back(item);
            proof {
                assert(all.skip(k)[0] == all[k]);
                assert(all.skip(k).subrange(1, all.skip(k).len() as int) == all.skip(k + 1));
                moved = moved.push(item);
                assert(all.take(k + 1) == all.take(k).push(all[k]));
            }
        }
        assert(all.take(all.len() as int) == all);
        assert(self.errors().skip(old(self).errors().len() as int) == moved);
        self.warnings.append(&mut other.warnings);
        proof {
            if <T as FromSpec<S>>::obeys_from_spec() {
                let mapped = all.map_values(
                    |e: Locatable<S>|
                        Locatable { data: T::from_spec(e.data), location: e.location },
                );
                assert(moved =~= mapped);
            }
        }
    }
}

impl ErrorHandler<Error> {
    /// Remove the first error from the queue: what an iterator over the handler gives next.
    pub fn next(&mut self) -> (r: Option<CompileError>)
        ensures
            r == (if old(self).errors().len() > 0 {
                Some(old(self).errors()[0])
            } else {
                None
            }),
            final(self).errors() == (if old(self).errors().len() > 0 {
                old(self).errors().drop_first()
            } else {
                old(self).errors()
            }),
            final(self).warnings() == old(self).warnings(),
    {
        self.pop_front()
    }

    /// Removes all errors from the queue and gives them in the order in which they came.
    pub fn drain(&mut self) -> (r: Vec<CompileError>)
        ensures
            r@ == old(self).errors(),
            final(self).errors() == Seq::<CompileError>::empty(),
            final(self).warnings() == old(self).warnings(),
    {
        let mut out: Vec<CompileError> = Vec::new();
        let ghost all = self.errors();
        assert(all.skip(0) == all);
        while self.errors.len() > 0
            invariant
                out@.len() <= all.len(),
                out@ == all.take(out@.len() as int),
                self.errors() == all.skip(out@.len() as int),
                self.warnings() == old(self).warnings(),
            decreases self.errors().len(),
        {
            let ghost k = out@.len() as int;
            let next = self.errors.pop_front().unwrap();
            out.push(next);
            proof {
                assert(all.skip(k)[0] == all[k]);
                assert(all.skip(k).subrange(1, all.skip(k).len() as int) == all.skip(k + 1));
                assert(all.take(k + 1) == all.take(k).push(all[k]));
            }
        }
        assert(all.take(all.len() as int) == all);
        out
    }
}

} // verus!
