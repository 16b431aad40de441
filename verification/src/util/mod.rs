//! A value of one of two types.

use crate::response::into::IntoResponse;
use crate::response::{HttpResponse, ResponseView};
use vstd::prelude::*;

verus! {

/// Which of the two a value is, and the value.
pub enum Side<L, R> {
    Left(L),
    Right(R),
}

/// A value that is either a left one or a right one, never both and never
/// neither.
pub struct Either<L, R> {
    side: Side<L, R>,
}

impl<L, R> Either<L, R> {
    pub closed spec fn view(&self) -> Side<L, R> {
        self.side
    }

    pub fn left(left: L) -> (either: Self)
        ensures
            either@ == Side::<L, R>::Left(left),
    {
        Either { side: Side::Left(left) }
    }

    pub fn right(right: R) -> (either: Self)
        ensures
            either@ == Side::<L, R>::Right(right),
    {
        Either { side: Side::Right(right) }
    }

    pub fn is_left(&self) -> (b: bool)
        ensures
            b == (self@ is Left),
    {
        match &self.side {
            Side::Left(_) => true,
            Side::Right(_) => false,
        }
    }

    pub fn is_right(&self) -> (b: bool)
        ensures
            b == (self@ is Right),
    {
        match &self.side {
            Side::Left(_) => false,
            Side::Right(_) => true,
        }
    }

    pub fn get_left(&self) -> (left: Option<&L>)
        ensures
            match self@ {
                Side::Left(l) => left == Some(&l),
                Side::Right(_) => left is None,
            },
    {
        match &self.side {
            Side::Left(l) => Some(l),
            Side::Right(_) => None,
        }
    }

    pub fn get_right(&self) -> (right: Option<&R>)
        ensures
            match self@ {
                Side::Left(_) => right is None,
                Side::Right(r) => right == Some(&r),
            },
    {
        match &self.side {
            Side::Left(_) => None,
            Side::Right(r) => Some(r),
        }
    }

    /// The left value, to be changed in place.
    pub fn left_mut(&mut self) -> (left: Option<&mut L>)
        ensures
            match old(self)@ {
                Side::Left(l) => left matches Some(place) && *place == l && final(self)@
                    == Side::<L, R>::Left(*final(place)),
                Side::Right(_) => left is None && final(self)@ == old(self)@,
            },
    {
        match &mut self.side {
            Side::Left(l) => Some(l),
            Side::Right(_) => None,
        }
    }

    /// The right value, to be changed in place.
    pub fn right_mut(&mut self) -> (right: Option<&mut R>)
        ensures
            match old(self)@ {
                Side::Left(_) => right is None && final(self)@ == old(self)@,
                Side::Right(r) => right matches Some(place) && *place == r && final(self)@
                    == Side::<L, R>::Right(*final(place)),
            },
    {
        match &mut self.side {
            Side::Left(_) => None,
            Side::Right(r) => Some(r),
        }
    }

    /// Applies `f` to a left value and leaves a right one as it is.
    pub fn map_left<U, F: FnOnce(L) -> U>(self, f: F) -> (mapped: Either<U, R>)
        requires
            self@ matches Side::Left(l) ==> call_requires(f, (l,)),
        ensures
            match self@ {
                Side::Left(l) => mapped@ matches Side::Left(u) && call_ensures(f, (l,), u),
                Side::Right(r) => mapped@ == Side::<U, R>::Right(r),
            },
    {
        match self.side {
            Side::Left(left) => Either::left(f(left)),
            Side::Right(right) => Either::right(right),
        }
    }

    /// Applies `f` to a right value and leaves a left one as it is.
    pub fn map_right<U, F: FnOnce(R) -> U>(self, f: F) -> (mapped: Either<L, U>)
        requires
            self@ matches Side::Right(r) ==> call_requires(f, (r,)),
        ensures
            match self@ {
                Side::Left(l) => mapped@ == Side::<L, U>::Left(l),
                Side::Right(r) => mapped@ matches Side::Right(u) && call_ensures(f, (r,), u),
            },
    {
        match self.side {
            Side::Left(left) => Either::left(left),
            Side::Right(right) => Either::right(f(right)),
        }
    }

    /// Replaces a left value by what `f` makes of it and leaves a right one
    /// as it is.
    pub fn flatmap_left<U, F: FnOnce(L) -> Either<U, R>>(self, f: F) -> (mapped: Either<U, R>)
        requires
            self@ matches Side::Left(l) ==> call_requires(f, (l,)),
        ensures
            match self@ {
                Side::Left(l) => call_ensures(f, (l,), mapped),
                Side::Right(r) => mapped@ == Side::<U, R>::Right(r),
            },
    {
        match self.side {
            Side::Left(left) => f(left),
            Side::Right(right) => Either::right(right),
        }
    }

    /// Replaces a right value by what `f` makes of it and leaves a left one
    /// as it is.
    pub fn flatmap_right<U, F: FnOnce(R) -> Either<L, U>>(self, f: F) -> (mapped: Either<L, U>)
        requires
            self@ matches Side::Right(r) ==> call_requires(f, (r,)),
        ensures
            match self@ {
                Side::Left(l) => mapped@ == Side::<L, U>::Left(l),
                Side::Right(r) => call_ensures(f, (r,), mapped),
            },
    {
        match self.side {
            Side::Left(left) => Either::left(left),
            Side::Right(right) => f(right),
        }
    }

    /// Applies `f` to a left value, `g` to a right one.
    pub fn fold<U, V, F: FnOnce(L) -> U, G: FnOnce(R) -> V>(self, f: F, g: G) -> (folded: Either<U, V>)
        requires
            self@ matches Side::Left(l) ==> call_requires(f, (l,)),
            self@ matches Side::Right(r) ==> call_requires(g, (r,)),
        ensures
            match self@ {
                Side::Left(l) => folded@ matches Side::Left(u) && call_ensures(f, (l,), u),
                Side::Right(r) => folded@ matches Side::Right(v) && call_ensures(g, (r,), v),
            },
    {
        match self.side {
            Side::Left(left) => Either::left(f(left)),
            Side::Right(right) => Either::right(g(right)),
        }
    }

    /// What `f` makes of a left value or `g` of a right one.
    pub fn unify<T, F: FnOnce(L) -> T, G: FnOnce(R) -> T>(self, f: F, g: G) -> (unified: T)
        requires
            self@ matches Side::Left(l) ==> call_requires(f, (l,)),
            self@ matches Side::Right(r) ==> call_requires(g, (r,)),
        ensures
            match self@ {
                Side::Left(l) => call_ensures(f, (l,), unified),
                Side::Right(r) => call_ensures(g, (r,), unified),
            },
    {
        match self.side {
            Side::Left(left) => f(left),
            Side::Right(right) => g(right),
        }
    }

    /// A right value as success, a left one as failure.
    pub fn into_result(self) -> (result: Result<R, L>)
        ensures
            result == match self@ {
                Side::Left(l) => Err::<R, L>(l),
                Side::Right(r) => Ok(r),
            },
    {
        match self.side {
            Side::Left(left) => Err(left),
            Side::Right(right) => Ok(right),
        }
    }
}

impl<L: IntoResponse, R: IntoResponse> IntoResponse for Either<L, R> {
    open spec fn response(self) -> ResponseView {
        match self@ {
            Side::Left(l) => l.response(),
            Side::Right(r) => r.response(),
        }
    }

    fn into_response(self) -> (response: HttpResponse) {
        match self.side {
            Side::Left(left) => left.into_response(),
            Side::Right(right) => right.into_response(),
        }
    }
}

} // verus!
