use vstd::prelude::*;

use crate::ghost_cell::{GhostCell, GhostToken};

verus! {

/// Shared borrows of several cells of one pool at once, through one shared
/// borrow of the token.
///
/// Each borrow has the effect of `GhostCell::borrow` on every cell, in order.
pub trait GhostBorrow<'a, T> {
    /// The references handed out: one per cell, in the same shape.
    type Result;

    /// Every cell belongs to `token`'s pool and holds a value.
    spec fn borrowable(&self, token: GhostToken<T>) -> bool;

    /// `r` refers to the values of the cells, in order.
    spec fn borrowed(&self, token: GhostToken<T>, r: Self::Result) -> bool;

    /// Borrows every cell at the same time.
    fn borrow(self, token: &'a GhostToken<T>) -> (r: Self::Result)
        requires
            self.borrowable(*token),
        ensures
            self.borrowed(*token, r),
    ;
}

impl<'a, T> GhostBorrow<'a, T> for &'a [GhostCell<T>] {
    type Result = Vec<&'a T>;

    open spec fn borrowable(&self, token: GhostToken<T>) -> bool {
        forall|k: int| 0 <= k < self@.len() ==> token.holds(#[trigger] self@[k])
    }

    open spec fn borrowed(&self, token: GhostToken<T>, r: Vec<&'a T>) -> bool {
        &&& r@.len() == self@.len()
        &&& forall|k: int| 0 <= k < self@.len() ==> *(#[trigger] r@[k]) == token@[self@[k].id()]
    }

    fn borrow(self, token: &'a GhostToken<T>) -> (r: Vec<&'a T>) {
        let mut r: Vec<&'a T> = Vec::new();
        let mut i: usize = 0;
        while i < self.len()
            invariant
                self.borrowable(*token),
                i <= self@.len(),
                r@.len() == i,
                forall|k: int| 0 <= k < i ==> *(#[trigger] r@[k]) == token@[self@[k].id()],
            decreases self@.len() - i,
        {
            r.push(self[i].borrow(token));
            i = i + 1;
        }
        r
    }
}

impl<'a, T, const N: usize> GhostBorrow<'a, T> for &'a [GhostCell<T>; N] {
    type Result = Vec<&'a T>;

    open spec fn borrowable(&self, token: GhostToken<T>) -> bool {
        forall|k: int| 0 <= k < N ==> token.holds(#[trigger] self@[k])
    }

    open spec fn borrowed(&self, token: GhostToken<T>, r: Vec<&'a T>) -> bool {
        &&& r@.len() == N
        &&& forall|k: int| 0 <= k < N ==> *(#[trigger] r@[k]) == token@[self@[k].id()]
    }

    fn borrow(self, token: &'a GhostToken<T>) -> (r: Vec<&'a T>) {
        let mut r: Vec<&'a T> = Vec::new();
        let mut i: usize = 0;
        while i < N
            invariant
                self.borrowable(*token),
                i <= N,
                r@.len() == i,
                forall|k: int| 0 <= k < i ==> *(#[trigger] r@[k]) == token@[self@[k].id()],
            decreases N - i,
        {
            r.push(self[i].borrow(token));
            i = i + 1;
        }
        r
    }
}

impl<'a, T, const N: usize> GhostBorrow<'a, T> for [&'a GhostCell<T>; N] {
    type Result = Vec<&'a T>;

    open spec fn borrowable(&self, token: GhostToken<T>) -> bool {
        forall|k: int| 0 <= k < N ==> token.holds(*#[trigger] self@[k])
    }

    open spec fn borrowed(&self, token: GhostToken<T>, r: Vec<&'a T>) -> bool {
        &&& r@.len() == N
        &&& forall|k: int| 0 <= k < N ==> *(#[trigger] r@[k]) == token@[self@[k].id()]
    }

    fn borrow(self, token: &'a GhostToken<T>) -> (r: Vec<&'a T>) {
        let mut r: Vec<&'a T> = Vec::new();
        let mut i: usize = 0;
        while i < N
            invariant
                self.borrowable(*token),
                i <= N,
                r@.len() == i,
                forall|k: int| 0 <= k < i ==> *(#[trigger] r@[k]) == token@[self@[k].id()],
            decreases N - i,
        {
            r.push(self[i].borrow(token));
            i = i + 1;
        }
        r
    }
}

impl<'a, T> GhostBorrow<'a, T> for (&'a GhostCell<T>,) {
    type Result = (&'a T,);

    open spec fn borrowable(&self, token: GhostToken<T>) -> bool {
        token.holds(*self.0)
    }

    open spec fn borrowed(&self, token: GhostToken<T>, r: Self::Result) -> bool {
        *r.0 == token@[self.0.id()]
    }

    fn borrow(self, token: &'a GhostToken<T>) -> (r: Self::Result) {
        (self.0.borrow(token),)
    }
}

impl<'a, T> GhostBorrow<'a, T> for (&'a GhostCell<T>, &'a GhostCell<T>) {
    type Result = (&'a T, &'a T);

    open spec fn borrowable(&self, token: GhostToken<T>) -> bool {
        token.holds(*self.0) && token.holds(*self.1)
    }

    open spec fn borrowed(&self, token: GhostToken<T>, r: Self::Result) -> bool {
        *r.0 == token@[self.0.id()] && *r.1 == token@[self.1.id()]
    }

    fn borrow(self, token: &'a GhostToken<T>) -> (r: Self::Result) {
        (self.0.borrow(token), self.1.borrow(token))
    }
}

impl<'a, T> GhostBorrow<'a, T> for (&'a GhostCell<T>, &'a GhostCell<T>, &'a GhostCell<T>) {
    type Result = (&'a T, &'a T, &'a T);

    open spec fn borrowable(&self, token: GhostToken<T>) -> bool {
        &&& token.holds(*self.0)
        &&& token.holds(*self.1)
        &&& token.holds(*self.2)
    }

    open spec fn borrowed(&self, token: GhostToken<T>, r: Self::Result) -> bool {
        &&& *r.0 == token@[self.0.id()]
        &&& *r.1 == token@[self.1.id()]
        &&& *r.2 == token@[self.2.id()]
    }

    fn borrow(self, token: &'a GhostToken<T>) -> (r: Self::Result) {
        (self.0.borrow(token), self.1.borrow(token), self.2.borrow(token))
    }
}

impl<'a, T> GhostBorrow<'a, T> for (
    &'a GhostCell<T>,
    &'a GhostCell<T>,
    &'a GhostCell<T>,
    &'a GhostCell<T>,
) {
    type Result = (&'a T, &'a T, &'a T, &'a T);

    open spec fn borrowable(&self, token: GhostToken<T>) -> bool {
        &&& token.holds(*self.0)
        &&& token.holds(*self.1)
        &&& token.holds(*self.2)
        &&& token.holds(*self.3)
    }

    open spec fn borrowed(&self, token: GhostToken<T>, r: Self::Result) -> bool {
        &&& *r.0 == token@[self.0.id()]
        &&& *r.1 == token@[self.1.id()]
        &&& *r.2 == token@[self.2.id()]
        &&& *r.3 == token@[self.3.id()]
    }

    fn borrow(self, token: &'a GhostToken<T>) -> (r: Self::Result) {
        (
            self.0.borrow(token),
            self.1.borrow(token),
            self.2.borrow(token),
            self.3.borrow(token),
        )
    }
}

impl<'a, T> GhostBorrow<'a, T> for (
    &'a GhostCell<T>,
    &'a GhostCell<T>,
    &'a GhostCell<T>,
    &'a GhostCell<T>,
    &'a GhostCell<T>,
) {
    type Result = (&'a T, &'a T, &'a T, &'a T, &'a T);

    open spec fn borrowable(&self, token: GhostToken<T>) -> bool {
        &&& token.holds(*self.0)
        &&& token.holds(*self.1)
        &&& token.holds(*self.2)
        &&& token.holds(*self.3)
        &&& token.holds(*self.4)
    }

    open spec fn borrowed(&self, token: GhostToken<T>, r: Self::Result) -> bool {
        &&& *r.0 == token@[self.0.id()]
        &&& *r.1 == token@[self.1.id()]
        &&& *r.2 == token@[self.2.id()]
        &&& *r.3 == token@[self.3.id()]
        &&& *r.4 == token@[self.4.id()]
    }

    fn borrow(self, token: &'a GhostToken<T>) -> (r: Self::Result) {
        (
            self.0.borrow(token),
            self.1.borrow(token),
            self.2.borrow(token),
            self.3.borrow(token),
            self.4.borrow(token),
        )
    }
}

impl<'a, T> GhostBorrow<'a, T> for (
    &'a GhostCell<T>,
    &'a GhostCell<T>,
    &'a GhostCell<T>,
    &'a GhostCell<T>,
    &'a GhostCell<T>,
    &'a GhostCell<T>,
) {
    type Result = (&'a T, &'a T, &'a T, &'a T, &'a T, &'a T);

    open spec fn borrowable(&self, token: GhostToken<T>) -> bool {
        &&& token.holds(*self.0)
        &&& token.holds(*self.1)
        &&& token.holds(*self.2)
        &&& token.holds(*self.3)
        &&& token.holds(*self.4)
        &&& token.holds(*self.5)
    }

    open spec fn borrowed(&self, token: GhostToken<T>, r: Self::Result) -> bool {
        &&& *r.0 == token@[self.0.id()]
        &&& *r.1 == token@[self.1.id()]
        &&& *r.2 == token@[self.2.id()]
        &&& *r.3 == token@[self.3.id()]
        &&& *r.4 == token@[self.4.id()]
        &&& *r.5 == token@[self.5.id()]
    }

    fn borrow(self, token: &'a GhostToken<T>) -> (r: Self::Result) {
        (
            self.0.borrow(token),
            self.1.borrow(token),
            self.2.borrow(token),
            self.3.borrow(token),
            self.4.borrow(token),
            self.5.borrow(token),
        )
    }
}

impl<'a, T> GhostBorrow<'a, T> for (
    &'a GhostCell<T>,
    &'a GhostCell<T>,
    &'a GhostCell<T>,
    &'a GhostCell<T>,
    &'a GhostCell<T>,
    &'a GhostCell<T>,
    &'a GhostCell<T>,
) {
    type Result = (&'a T, &'a T, &'a T, &'a T, &'a T, &'a T, &'a T);

    open spec fn borrowable(&self, token: GhostToken<T>) -> bool {
        &&& token.holds(*self.0)
        &&& token.holds(*self.1)
        &&& token.holds(*self.2)
        &&& token.holds(*self.3)
        &&& token.holds(*self.4)
        &&& token.holds(*self.5)
        &&& token.holds(*self.6)
    }

    open spec fn borrowed(&self, token: GhostToken<T>, r: Self::Result) -> bool {
        &&& *r.0 == token@[self.0.id()]
        &&& *r.1 == token@[self.1.id()]
        &&& *r.2 == token@[self.2.id()]
        &&& *r.3 == token@[self.3.id()]
        &&& *r.4 == token@[self.4.id()]
        &&& *r.5 == token@[self.5.id()]
        &&& *r.6 == token@[self.6.id()]
    }

    fn borrow(self, token: &'a GhostToken<T>) -> (r: Self::Result) {
        (
            self.0.borrow(token),
            self.1.borrow(token),
            self.2.borrow(token),
            self.3.borrow(token),
            self.4.borrow(token),
            self.5.borrow(token),
            self.6.borrow(token),
        )
    }
}

impl<'a, T> GhostBorrow<'a, T> for (
    &'a GhostCell<T>,
    &'a GhostCell<T>,
    &'a GhostCell<T>,
    &'a GhostCell<T>,
    &'a GhostCell<T>,
    &'a GhostCell<T>,
    &'a GhostCell<T>,
    &'a GhostCell<T>,
) {
    type Result = (&'a T, &'a T, &'a T, &'a T, &'a T, &'a T, &'a T, &'a T);

    open spec fn borrowable(&self, token: GhostToken<T>) -> bool {
        &&& token.holds(*self.0)
        &&& token.holds(*self.1)
        &&& token.holds(*self.2)
        &&& token.holds(*self.3)
        &&& token.holds(*self.4)
        &&& token.holds(*self.5)
        &&& token.holds(*self.6)
        &&& token.holds(*self.7)
    }

    open spec fn borrowed(&self, token: GhostToken<T>, r: Self::Result) -> bool {
        &&& *r.0 == token@[self.0.id()]
        &&& *r.1 == token@[self.1.id()]
        &&& *r.2 == token@[self.2.id()]
        &&& *r.3 == token@[self.3.id()]
        &&& *r.4 == token@[self.4.id()]
        &&& *r.5 == token@[self.5.id()]
        &&& *r.6 == token@[self.6.id()]
        &&& *r.7 == token@[self.7.id()]
    }

    fn borrow(self, token: &'a GhostToken<T>) -> (r: Self::Result) {
        (
            self.0.borrow(token),
            self.1.borrow(token),
            self.2.borrow(token),
            self.3.borrow(token),
            self.4.borrow(token),
            self.5.borrow(token),
            self.6.borrow(token),
            self.7.borrow(token),
        )
    }
}

impl<'a, T> GhostBorrow<'a, T> for (
    &'a GhostCell<T>,
    &'a GhostCell<T>,
    &'a GhostCell<T>,
    &'a GhostCell<T>,
    &'a GhostCell<T>,
    &'a GhostCell<T>,
    &'a GhostCell<T>,
    &'a GhostCell<T>,
    &'a GhostCell<T>,
) {
    type Result = (&'a T, &'a T, &'a T, &'a T, &'a T, &'a T, &'a T, &'a T, &'a T);

    open spec fn borrowable(&self, token: GhostToken<T>) -> bool {
        &&& token.holds(*self.0)
        &&& token.holds(*self.1)
        &&& token.holds(*self.2)
        &&& token.holds(*self.3)
        &&& token.holds(*self.4)
        &&& token.holds(*self.5)
        &&& token.holds(*self.6)
        &&& token.holds(*self.7)
        &&& token.holds(*self.8)
    }

    open spec fn borrowed(&self, token: GhostToken<T>, r: Self::Result) -> bool {
        &&& *r.0 == token@[self.0.id()]
        &&& *r.1 == token@[self.1.id()]
        &&& *r.2 == token@[self.2.id()]
        &&& *r.3 == token@[self.3.id()]
        &&& *r.4 == token@[self.4.id()]
        &&& *r.5 == token@[self.5.id()]
        &&& *r.6 == token@[self.6.id()]
        &&& *r.7 == token@[self.7.id()]
        &&& *r.8 == token@[self.8.id()]
    }

    fn borrow(self, token: &'a GhostToken<T>) -> (r: Self::Result) {
        (
            self.0.borrow(token),
            self.1.borrow(token),
            self.2.borrow(token),
            self.3.borrow(token),
            self.4.borrow(token),
            self.5.borrow(token),
            self.6.borrow(token),
            self.7.borrow(token),
            self.8.borrow(token),
        )
    }
}

impl<'a, T> GhostBorrow<'a, T> for (
    &'a GhostCell<T>,
    &'a GhostCell<T>,
    &'a GhostCell<T>,
    &'a GhostCell<T>,
    &'a GhostCell<T>,
    &'a GhostCell<T>,
    &'a GhostCell<T>,
    &'a GhostCell<T>,
    &'a GhostCell<T>,
    &'a GhostCell<T>,
) {
    type Result = (&'a T, &'a T, &'a T, &'a T, &'a T, &'a T, &'a T, &'a T, &'a T, &'a T);

    open spec fn borrowable(&self, token: GhostToken<T>) -> bool {
        &&& token.holds(*self.0)
        &&& token.holds(*self.1)
        &&& token.holds(*self.2)
        &&& token.holds(*self.3)
        &&& token.holds(*self.4)
        &&& token.holds(*self.5)
        &&& token.holds(*self.6)
        &&& token.holds(*self.7)
        &&& token.holds(*self.8)
        &&& token.holds(*self.9)
    }

    open spec fn borrowed(&self, token: GhostToken<T>, r: Self::Result) -> bool {
        &&& *r.0 == token@[self.0.id()]
        &&& *r.1 == token@[self.1.id()]
        &&& *r.2 == token@[self.2.id()]
        &&& *r.3 == token@[self.3.id()]
        &&& *r.4 == token@[self.4.id()]
        &&& *r.5 == token@[self.5.id()]
        &&& *r.6 == token@[self.6.id()]
        &&& *r.7 == token@[self.7.id()]
        &&& *r.8 == token@[self.8.id()]
        &&& *r.9 == token@[self.9.id()]
    }

    fn borrow(self, token: &'a GhostToken<T>) -> (r: Self::Result) {
        (
            self.0.borrow(token),
            self.1.borrow(token),
            self.2.borrow(token),
            self.3.borrow(token),
            self.4.borrow(token),
            self.5.borrow(token),
            self.6.borrow(token),
            self.7.borrow(token),
            self.8.borrow(token),
            self.9.borrow(token),
        )
    }
}

impl<'a, T> GhostBorrow<'a, T> for (
    &'a GhostCell<T>,
    &'a GhostCell<T>,
    &'a GhostCell<T>,
    &'a GhostCell<T>,
    &'a GhostCell<T>,
    &'a GhostCell<T>,
    &'a GhostCell<T>,
    &'a GhostCell<T>,
    &'a GhostCell<T>,
    &'a GhostCell<T>,
    &'a GhostCell<T>,
) {
    type Result = (
        &'a T,
        &'a T,
        &'a T,
        &'a T,
        &'a T,
        &'a T,
        &'a T,
        &'a T,
        &'a T,
        &'a T,
        &'a T,
    );

    open spec fn borrowable(&self, token: GhostToken<T>) -> bool {
        &&& token.holds(*self.0)
        &&& token.holds(*self.1)
        &&& token.holds(*self.2)
        &&& token.holds(*self.3)
        &&& token.holds(*self.4)
        &&& token.holds(*self.5)
        &&& token.holds(*self.6)
        &&& token.holds(*self.7)
        &&& token.holds(*self.8)
        &&& token.holds(*self.9)
        &&& token.holds(*self.10)
    }

    open spec fn borrowed(&self, token: GhostToken<T>, r: Self::Result) -> bool {
        &&& *r.0 == token@[self.0.id()]
        &&& *r.1 == token@[self.1.id()]
        &&& *r.2 == token@[self.2.id()]
        &&& *r.3 == token@[self.3.id()]
        &&& *r.4 == token@[self.4.id()]
        &&& *r.5 == token@[self.5.id()]
        &&& *r.6 == token@[self.6.id()]
        &&& *r.7 == token@[self.7.id()]
        &&& *r.8 == token@[self.8.id()]
        &&& *r.9 == token@[self.9.id()]
        &&& *r.10 == token@[self.10.id()]
    }

    fn borrow(self, token: &'a GhostToken<T>) -> (r: Self::Result) {
        (
            self.0.borrow(token),
            self.1.borrow(token),
            self.2.borrow(token),
            self.3.borrow(token),
            self.4.borrow(token),
            self.5.borrow(token),
            self.6.borrow(token),
            self.7.borrow(token),
            self.8.borrow(token),
            self.9.borrow(token),
            self.10.borrow(token),
        )
    }
}

impl<'a, T> GhostBorrow<'a, T> for (
    &'a GhostCell<T>,
    &'a GhostCell<T>,
    &'a GhostCell<T>,
    &'a GhostCell<T>,
    &'a GhostCell<T>,
    &'a GhostCell<T>,
    &'a GhostCell<T>,
    &'a GhostCell<T>,
    &'a GhostCell<T>,
    &'a GhostCell<T>,
    &'a GhostCell<T>,
    &'a GhostCell<T>,
) {
    type Result = (
        &'a T,
        &'a T,
        &'a T,
        &'a T,
        &'a T,
        &'a T,
        &'a T,
        &'a T,
        &'a T,
        &'a T,
        &'a T,
        &'a T,
    );

    open spec fn borrowable(&self, token: GhostToken<T>) -> bool {
        &&& token.holds(*self.0)
        &&& token.holds(*self.1)
        &&& token.holds(*self.2)
        &&& token.holds(*self.3)
        &&& token.holds(*self.4)
        &&& token.holds(*self.5)
        &&& token.holds(*self.6)
        &&& token.holds(*self.7)
        &&& token.holds(*self.8)
        &&& token.holds(*self.9)
        &&& token.holds(*self.10)
        &&& token.holds(*self.11)
    }

    open spec fn borrowed(&self, token: GhostToken<T>, r: Self::Result) -> bool {
        &&& *r.0 == token@[self.0.id()]
        &&& *r.1 == token@[self.1.id()]
        &&& *r.2 == token@[self.2.id()]
        &&& *r.3 == token@[self.3.id()]
        &&& *r.4 == token@[self.4.id()]
        &&& *r.5 == token@[self.5.id()]
        &&& *r.6 == token@[self.6.id()]
        &&& *r.7 == token@[self.7.id()]
        &&& *r.8 == token@[self.8.id()]
        &&& *r.9 == token@[self.9.id()]
        &&& *r.10 == token@[self.10.id()]
        &&& *r.11 == token@[self.11.id()]
    }

    fn borrow(self, token: &'a GhostToken<T>) -> (r: Self::Result) {
        (
            self.0.borrow(token),
            self.1.borrow(token),
            self.2.borrow(token),
            self.3.borrow(token),
            self.4.borrow(token),
            self.5.borrow(token),
            self.6.borrow(token),
            self.7.borrow(token),
            self.8.borrow(token),
            self.9.borrow(token),
            self.10.borrow(token),
            self.11.borrow(token),
        )
    }
}

impl<'a, T> GhostBorrow<'a, T> for &'a (GhostCell<T>,) {
    type Result = (&'a T,);

    open spec fn borrowable(&self, token: GhostToken<T>) -> bool {
        token.holds(self.0)
    }

    open spec fn borrowed(&self, token: GhostToken<T>, r: Self::Result) -> bool {
        *r.0 == token@[self.0.id()]
    }

    fn borrow(self, token: &'a GhostToken<T>) -> (r: Self::Result) {
        (self.0.borrow(token),)
    }
}

impl<'a, T> GhostBorrow<'a, T> for &'a (GhostCell<T>, GhostCell<T>) {
    type Result = (&'a T, &'a T);

    open spec fn borrowable(&self, token: GhostToken<T>) -> bool {
        token.holds(self.0) && token.holds(self.1)
    }

    open spec fn borrowed(&self, token: GhostToken<T>, r: Self::Result) -> bool {
        *r.0 == token@[self.0.id()] && *r.1 == token@[self.1.id()]
    }

    fn borrow(self, token: &'a GhostToken<T>) -> (r: Self::Result) {
        (self.0.borrow(token), self.1.borrow(token))
    }
}

impl<'a, T> GhostBorrow<'a, T> for &'a (GhostCell<T>, GhostCell<T>, GhostCell<T>) {
    type Result = (&'a T, &'a T, &'a T);

    open spec fn borrowable(&self, token: GhostToken<T>) -> bool {
        &&& token.holds(self.0)
        &&& token.holds(self.1)
        &&& token.holds(self.2)
    }

    open spec fn borrowed(&self, token: GhostToken<T>, r: Self::Result) -> bool {
        &&& *r.0 == token@[self.0.id()]
        &&& *r.1 == token@[self.1.id()]
        &&& *r.2 == token@[self.2.id()]
    }

    fn borrow(self, token: &'a GhostToken<T>) -> (r: Self::Result) {
        (self.0.borrow(token), self.1.borrow(token), self.2.borrow(token))
    }
}

impl<'a, T> GhostBorrow<'a, T> for &'a (GhostCell<T>, GhostCell<T>, GhostCell<T>, GhostCell<T>) {
    type Result = (&'a T, &'a T, &'a T, &'a T);

    open spec fn borrowable(&self, token: GhostToken<T>) -> bool {
        &&& token.holds(self.0)
        &&& token.holds(self.1)
        &&& token.holds(self.2)
        &&& token.holds(self.3)
    }

    open spec fn borrowed(&self, token: GhostToken<T>, r: Self::Result) -> bool {
        &&& *r.0 == token@[self.0.id()]
        &&& *r.1 == token@[self.1.id()]
        &&& *r.2 == token@[self.2.id()]
        &&& *r.3 == token@[self.3.id()]
    }

    fn borrow(self, token: &'a GhostToken<T>) -> (r: Self::Result) {
        (
            self.0.borrow(token),
            self.1.borrow(token),
            self.2.borrow(token),
            self.3.borrow(token),
        )
    }
}

impl<'a, T> GhostBorrow<'a, T> for &'a (GhostCell<T>, GhostCell<T>, GhostCell<T>, GhostCell<T>, GhostCell<T>) {
    type Result = (&'a T, &'a T, &'a T, &'a T, &'a T);

    open spec fn borrowable(&self, token: GhostToken<T>) -> bool {
        &&& token.holds(self.0)
        &&& token.holds(self.1)
        &&& token.holds(self.2)
        &&& token.holds(self.3)
        &&& token.holds(self.4)
    }

    open spec fn borrowed(&self, token: GhostToken<T>, r: Self::Result) -> bool {
        &&& *r.0 == token@[self.0.id()]
        &&& *r.1 == token@[self.1.id()]
        &&& *r.2 == token@[self.2.id()]
        &&& *r.3 == token@[self.3.id()]
        &&& *r.4 == token@[self.4.id()]
    }

    fn borrow(self, token: &'a GhostToken<T>) -> (r: Self::Result) {
        (
            self.0.borrow(token),
            self.1.borrow(token),
            self.2.borrow(token),
            self.3.borrow(token),
            self.4.borrow(token),
        )
    }
}

impl<'a, T> GhostBorrow<'a, T> for &'a (
    GhostCell<T>,
    GhostCell<T>,
    GhostCell<T>,
    GhostCell<T>,
    GhostCell<T>,
    GhostCell<T>,
) {
    type Result = (&'a T, &'a T, &'a T, &'a T, &'a T, &'a T);

    open spec fn borrowable(&self, token: GhostToken<T>) -> bool {
        &&& token.holds(self.0)
        &&& token.holds(self.1)
        &&& token.holds(self.2)
        &&& token.holds(self.3)
        &&& token.holds(self.4)
        &&& token.holds(self.5)
    }

    open spec fn borrowed(&self, token: GhostToken<T>, r: Self::Result) -> bool {
        &&& *r.0 == token@[self.0.id()]
        &&& *r.1 == token@[self.1.id()]
        &&& *r.2 == token@[self.2.id()]
        &&& *r.3 == token@[self.3.id()]
        &&& *r.4 == token@[self.4.id()]
        &&& *r.5 == token@[self.5.id()]
    }

    fn borrow(self, token: &'a GhostToken<T>) -> (r: Self::Result) {
        (
            self.0.borrow(token),
            self.1.borrow(token),
            self.2.borrow(token),
            self.3.borrow(token),
            self.4.borrow(token),
            self.5.borrow(token),
        )
    }
}

impl<'a, T> GhostBorrow<'a, T> for &'a (
    GhostCell<T>,
    GhostCell<T>,
    GhostCell<T>,
    GhostCell<T>,
    GhostCell<T>,
    GhostCell<T>,
    GhostCell<T>,
) {
    type Result = (&'a T, &'a T, &'a T, &'a T, &'a T, &'a T, &'a T);

    open spec fn borrowable(&self, token: GhostToken<T>) -> bool {
        &&& token.holds(self.0)
        &&& token.holds(self.1)
        &&& token.holds(self.2)
        &&& token.holds(self.3)
        &&& token.holds(self.4)
        &&& token.holds(self.5)
        &&& token.holds(self.6)
    }

    open spec fn borrowed(&self, token: GhostToken<T>, r: Self::Result) -> bool {
        &&& *r.0 == token@[self.0.id()]
        &&& *r.1 == token@[self.1.id()]
        &&& *r.2 == token@[self.2.id()]
        &&& *r.3 == token@[self.3.id()]
        &&& *r.4 == token@[self.4.id()]
        &&& *r.5 == token@[self.5.id()]
        &&& *r.6 == token@[self.6.id()]
    }

    fn borrow(self, token: &'a GhostToken<T>) -> (r: Self::Result) {
        (
            self.0.borrow(token),
            self.1.borrow(token),
            self.2.borrow(token),
            self.3.borrow(token),
            self.4.borrow(token),
            self.5.borrow(token),
            self.6.borrow(token),
        )
    }
}

impl<'a, T> GhostBorrow<'a, T> for &'a (
    GhostCell<T>,
    GhostCell<T>,
    GhostCell<T>,
    GhostCell<T>,
    GhostCell<T>,
    GhostCell<T>,
    GhostCell<T>,
    GhostCell<T>,
) {
    type Result = (&'a T, &'a T, &'a T, &'a T, &'a T, &'a T, &'a T, &'a T);

    open spec fn borrowable(&self, token: GhostToken<T>) -> bool {
        &&& token.holds(self.0)
        &&& token.holds(self.1)
        &&& token.holds(self.2)
        &&& token.holds(self.3)
        &&& token.holds(self.4)
        &&& token.holds(self.5)
        &&& token.holds(self.6)
        &&& token.holds(self.7)
    }

    open spec fn borrowed(&self, token: GhostToken<T>, r: Self::Result) -> bool {
        &&& *r.0 == token@[self.0.id()]
        &&& *r.1 == token@[self.1.id()]
        &&& *r.2 == token@[self.2.id()]
        &&& *r.3 == token@[self.3.id()]
        &&& *r.4 == token@[self.4.id()]
        &&& *r.5 == token@[self.5.id()]
        &&& *r.6 == token@[self.6.id()]
        &&& *r.7 == token@[self.7.id()]
    }

    fn borrow(self, token: &'a GhostToken<T>) -> (r: Self::Result) {
        (
            self.0.borrow(token),
            self.1.borrow(token),
            self.2.borrow(token),
            self.3.borrow(token),
            self.4.borrow(token),
            self.5.borrow(token),
            self.6.borrow(token),
            self.7.borrow(token),
        )
    }
}

impl<'a, T> GhostBorrow<'a, T> for &'a (
    GhostCell<T>,
    GhostCell<T>,
    GhostCell<T>,
    GhostCell<T>,
    GhostCell<T>,
    GhostCell<T>,
    GhostCell<T>,
    GhostCell<T>,
    GhostCell<T>,
) {
    type Result = (&'a T, &'a T, &'a T, &'a T, &'a T, &'a T, &'a T, &'a T, &'a T);

    open spec fn borrowable(&self, token: GhostToken<T>) -> bool {
        &&& token.holds(self.0)
        &&& token.holds(self.1)
        &&& token.holds(self.2)
        &&& token.holds(self.3)
        &&& token.holds(self.4)
        &&& token.holds(self.5)
        &&& token.holds(self.6)
        &&& token.holds(self.7)
        &&& token.holds(self.8)
    }

    open spec fn borrowed(&self, token: GhostToken<T>, r: Self::Result) -> bool {
        &&& *r.0 == token@[self.0.id()]
        &&& *r.1 == token@[self.1.id()]
        &&& *r.2 == token@[self.2.id()]
        &&& *r.3 == token@[self.3.id()]
        &&& *r.4 == token@[self.4.id()]
        &&& *r.5 == token@[self.5.id()]
        &&& *r.6 == token@[self.6.id()]
        &&& *r.7 == token@[self.7.id()]
        &&& *r.8 == token@[self.8.id()]
    }

    fn borrow(self, token: &'a GhostToken<T>) -> (r: Self::Result) {
        (
            self.0.borrow(token),
            self.1.borrow(token),
            self.2.borrow(token),
            self.3.borrow(token),
            self.4.borrow(token),
            self.5.borrow(token),
            self.6.borrow(token),
            self.7.borrow(token),
            self.8.borrow(token),
        )
    }
}

impl<'a, T> GhostBorrow<'a, T> for &'a (
    GhostCell<T>,
    GhostCell<T>,
    GhostCell<T>,
    GhostCell<T>,
    GhostCell<T>,
    GhostCell<T>,
    GhostCell<T>,
    GhostCell<T>,
    GhostCell<T>,
    GhostCell<T>,
) {
    type Result = (&'a T, &'a T, &'a T, &'a T, &'a T, &'a T, &'a T, &'a T, &'a T, &'a T);

    open spec fn borrowable(&self, token: GhostToken<T>) -> bool {
        &&& token.holds(self.0)
        &&& token.holds(self.1)
        &&& token.holds(self.2)
        &&& token.holds(self.3)
        &&& token.holds(self.4)
        &&& token.holds(self.5)
        &&& token.holds(self.6)
        &&& token.holds(self.7)
        &&& token.holds(self.8)
        &&& token.holds(self.9)
    }

    open spec fn borrowed(&self, token: GhostToken<T>, r: Self::Result) -> bool {
        &&& *r.0 == token@[self.0.id()]
        &&& *r.1 == token@[self.1.id()]
        &&& *r.2 == token@[self.2.id()]
        &&& *r.3 == token@[self.3.id()]
        &&& *r.4 == token@[self.4.id()]
        &&& *r.5 == token@[self.5.id()]
        &&& *r.6 == token@[self.6.id()]
        &&& *r.7 == token@[self.7.id()]
        &&& *r.8 == token@[self.8.id()]
        &&& *r.9 == token@[self.9.id()]
    }

    fn borrow(self, token: &'a GhostToken<T>) -> (r: Self::Result) {
        (
            self.0.borrow(token),
            self.1.borrow(token),
            self.2.borrow(token),
            self.3.borrow(token),
            self.4.borrow(token),
            self.5.borrow(token),
            self.6.borrow(token),
            self.7.borrow(token),
            self.8.borrow(token),
            self.9.borrow(token),
        )
    }
}

impl<'a, T> GhostBorrow<'a, T> for &'a (
    GhostCell<T>,
    GhostCell<T>,
    GhostCell<T>,
    GhostCell<T>,
    GhostCell<T>,
    GhostCell<T>,
    GhostCell<T>,
    GhostCell<T>,
    GhostCell<T>,
    GhostCell<T>,
    GhostCell<T>,
) {
    type Result = (
        &'a T,
        &'a T,
        &'a T,
        &'a T,
        &'a T,
        &'a T,
        &'a T,
        &'a T,
        &'a T,
        &'a T,
        &'a T,
    );

    open spec fn borrowable(&self, token: GhostToken<T>) -> bool {
        &&& token.holds(self.0)
        &&& token.holds(self.1)
        &&& token.holds(self.2)
        &&& token.holds(self.3)
        &&& token.holds(self.4)
        &&& token.holds(self.5)
        &&& token.holds(self.6)
        &&& token.holds(self.7)
        &&& token.holds(self.8)
        &&& token.holds(self.9)
        &&& token.holds(self.10)
    }

    open spec fn borrowed(&self, token: GhostToken<T>, r: Self::Result) -> bool {
        &&& *r.0 == token@[self.0.id()]
        &&& *r.1 == token@[self.1.id()]
        &&& *r.2 == token@[self.2.id()]
        &&& *r.3 == token@[self.3.id()]
        &&& *r.4 == token@[self.4.id()]
        &&& *r.5 == token@[self.5.id()]
        &&& *r.6 == token@[self.6.id()]
        &&& *r.7 == token@[self.7.id()]
        &&& *r.8 == token@[self.8.id()]
        &&& *r.9 == token@[self.9.id()]
        &&& *r.10 == token@[self.10.id()]
    }

    fn borrow(self, token: &'a GhostToken<T>) -> (r: Self::Result) {
        (
            self.0.borrow(token),
            self.1.borrow(token),
            self.2.borrow(token),
            self.3.borrow(token),
            self.4.borrow(token),
            self.5.borrow(token),
            self.6.borrow(token),
            self.7.borrow(token),
            self.8.borrow(token),
            self.9.borrow(token),
            self.10.borrow(token),
        )
    }
}

impl<'a, T> GhostBorrow<'a, T> for &'a (
    GhostCell<T>,
    GhostCell<T>,
    GhostCell<T>,
    GhostCell<T>,
    GhostCell<T>,
    GhostCell<T>,
    GhostCell<T>,
    GhostCell<T>,
    GhostCell<T>,
    GhostCell<T>,
    GhostCell<T>,
    GhostCell<T>,
) {
    type Result = (
        &'a T,
        &'a T,
        &'a T,
        &'a T,
        &'a T,
        &'a T,
        &'a T,
        &'a T,
        &'a T,
        &'a T,
        &'a T,
        &'a T,
    );

    open spec fn borrowable(&self, token: GhostToken<T>) -> bool {
        &&& token.holds(self.0)
        &&& token.holds(self.1)
        &&& token.holds(self.2)
        &&& token.holds(self.3)
        &&& token.holds(self.4)
        &&& token.holds(self.5)
        &&& token.holds(self.6)
        &&& token.holds(self.7)
        &&& token.holds(self.8)
        &&& token.holds(self.9)
        &&& token.holds(self.10)
        &&& token.holds(self.11)
    }

    open spec fn borrowed(&self, token: GhostToken<T>, r: Self::Result) -> bool {
        &&& *r.0 == token@[self.0.id()]
        &&& *r.1 == token@[self.1.id()]
        &&& *r.2 == token@[self.2.id()]
        &&& *r.3 == token@[self.3.id()]
        &&& *r.4 == token@[self.4.id()]
        &&& *r.5 == token@[self.5.id()]
        &&& *r.6 == token@[self.6.id()]
        &&& *r.7 == token@[self.7.id()]
        &&& *r.8 == token@[self.8.id()]
        &&& *r.9 == token@[self.9.id()]
        &&& *r.10 == token@[self.10.id()]
        &&& *r.11 == token@[self.11.id()]
    }

    fn borrow(self, token: &'a GhostToken<T>) -> (r: Self::Result) {
        (
            self.0.borrow(token),
            self.1.borrow(token),
            self.2.borrow(token),
            self.3.borrow(token),
            self.4.borrow(token),
            self.5.borrow(token),
            self.6.borrow(token),
            self.7.borrow(token),
            self.8.borrow(token),
            self.9.borrow(token),
            self.10.borrow(token),
            self.11.borrow(token),
        )
    }
}

} // verus!
