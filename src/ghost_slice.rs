use core::marker::PhantomData;
use vstd::prelude::*;

use crate::ghost_cell::{GhostAliasingError, GhostCell, GhostToken};

verus! {

/// A handle to a run of consecutive cells of one pool.
///
/// Two runs may overlap; each cell of a run is distinct from the others by
/// construction.
pub struct GhostSlice<T> {
    brand: Ghost<int>,
    start: usize,
    len: usize,
    marker: PhantomData<T>,
}

impl<T> Clone for GhostSlice<T> {
    fn clone(&self) -> (r: Self)
        ensures
            r == *self,
    {
        *self
    }
}

impl<T> Copy for GhostSlice<T> {
}

/// `m` with the first `upto` values of the run from identity `a` on exchanged
/// with the first `upto` values of the run from identity `b` on.
pub open spec fn exchanged<T>(m: Map<int, T>, a: int, b: int, upto: int) -> Map<int, T> {
    Map::new(
        |k: int| m.contains_key(k),
        |k: int|
            if a <= k < a + upto {
                m[k - a + b]
            } else if b <= k < b + upto {
                m[k - b + a]
            } else {
                m[k]
            },
    )
}

impl<T> GhostSlice<T> {
    /// The identities of the run fit in `usize`.
    #[verifier::type_invariant]
    spec fn fits(self) -> bool {
        self.start + self.len <= usize::MAX
    }

    /// The brand the run is tagged with.
    pub closed spec fn brand(self) -> int {
        self.brand@
    }

    /// The identity of the first cell of the run.
    pub closed spec fn start(self) -> int {
        self.start as int
    }

    /// The number of cells in the run.
    pub closed spec fn size(self) -> int {
        self.len as int
    }

    /// Every cell of the run belongs to `token`'s pool and holds a value.
    pub open spec fn held_by(self, token: GhostToken<T>) -> bool {
        &&& self.brand() == token.brand()
        &&& forall|k: int|
            self.start() <= k < self.start() + self.size() ==> #[trigger] token@.contains_key(k)
    }

    /// The values of the run, in order.
    pub open spec fn values(self, token: GhostToken<T>) -> Seq<T> {
        Seq::new(self.size() as nat, |k: int| token@[self.start() + k])
    }

    /// The runs share at least one cell without being the same run.
    pub open spec fn overlaps(self, other: Self) -> bool {
        &&& self.start() != other.start()
        &&& self.start() < other.start() + other.size()
        &&& other.start() < self.start() + self.size()
    }

    /// Wraps each of `values`, in order, into consecutive new cells of `token`'s pool.
    pub fn new(values: Vec<T>, token: &mut GhostToken<T>) -> (s: Self)
        ensures
            s.brand() == old(token).brand(),
            s.start() == old(token).next_id(),
            s.size() == values@.len(),
            final(token).brand() == old(token).brand(),
            final(token).next_id() == old(token).next_id() + values@.len(),
            s.held_by(*final(token)),
            s.values(*final(token)) == values@,
            old(token)@.submap_of(final(token)@),
    {
        let n = values.len();
        let mut rest = values;
        let mut reversed: Vec<T> = Vec::new();
        while rest.len() > 0
            invariant
                n == values@.len(),
                rest@.len() + reversed@.len() == n,
                forall|j: int| 0 <= j < rest@.len() ==> rest@[j] == values@[j],
                forall|j: int| 0 <= j < reversed@.len() ==> reversed@[j] == values@[n - 1 - j],
            decreases rest@.len(),
        {
            let v = rest.pop().unwrap();
            reversed.push(v);
        }
        let ghost before = *token;
        let first = token.next_index();
        let mut i: usize = 0;
        while reversed.len() > 0
            invariant
                n == values@.len(),
                i + reversed@.len() == n,
                first == before.next_id(),
                token.brand() == before.brand(),
                token.next_id() == first + i,
                forall|j: int| 0 <= j < reversed@.len() ==> reversed@[j] == values@[n - 1 - j],
                forall|k: int|
                    first <= k < first + i ==> #[trigger] token@.contains_key(k) && token@[k]
                        == values@[k - first],
                forall|k: int|
                    before@.contains_key(k) ==> #[trigger] token@.contains_key(k) && token@[k]
                        == before@[k],
            decreases reversed@.len(),
        {
            let v = reversed.pop().unwrap();
            GhostCell::new(v, token);
            i = i + 1;
        }
        assert forall|k: int| old(token)@.contains_key(k) implies #[trigger] token@.contains_key(k)
            && token@[k] == old(token)@[k] by {
            assert(before@.contains_key(k));
        }
        assert(old(token)@.submap_of(token@));
        let end = token.next_index();
        assert(end == first + n);
        let s = GhostSlice {
            brand: Ghost(token.brand()),
            start: first,
            len: n,
            marker: PhantomData,
        };
        assert forall|k: int| 0 <= k < n implies s.values(*token)[k] == values@[k] by {
            assert(token@.contains_key(first + k));
        }
        assert(s.values(*token) =~= values@);
        s
    }

    /// The number of cells in the run.
    pub fn len(&self) -> (r: usize)
        ensures
            r == self.size(),
    {
        self.len
    }

    /// The handle of the `i`-th cell of the run.
    pub fn cell(&self, i: usize) -> (c: GhostCell<T>)
        requires
            i < self.size(),
        ensures
            c.brand() == self.brand(),
            c.id() == self.start() + i,
    {
        proof {
            use_type_invariant(self);
        }
        GhostCell::from_parts(self.brand, self.start + i)
    }

    /// The handles of the cells of the run, in order.
    pub fn as_slice_of_cells(&self) -> (cells: Vec<GhostCell<T>>)
        ensures
            cells@.len() == self.size(),
            forall|k: int| 0 <= k < self.size() ==> (#[trigger] cells@[k]).brand() == self.brand()
                && cells@[k].id() == self.start() + k,
    {
        let mut cells: Vec<GhostCell<T>> = Vec::new();
        let mut i: usize = 0;
        while i < self.len
            invariant
                i <= self.size(),
                cells@.len() == i,
                forall|k: int| 0 <= k < i ==> (#[trigger] cells@[k]).brand() == self.brand()
                    && cells@[k].id() == self.start() + k,
            decreases self.size() - i,
        {
            cells.push(self.cell(i));
            i = i + 1;
        }
        cells
    }

    /// The run of the cells `lo` to `hi` (excluded) of this run.
    pub fn subslice(&self, lo: usize, hi: usize) -> (s: Self)
        requires
            lo <= hi <= self.size(),
        ensures
            s.brand() == self.brand(),
            s.start() == self.start() + lo,
            s.size() == hi - lo,
    {
        proof {
            use_type_invariant(self);
        }
        GhostSlice { brand: self.brand, start: self.start + lo, len: hi - lo, marker: PhantomData }
    }

    /// Shared access to every value of the run, in order, through one shared
    /// borrow of the token.
    pub fn borrow<'a>(&self, token: &'a GhostToken<T>) -> (r: Vec<&'a T>)
        requires
            self.held_by(*token),
        ensures
            r@.len() == self.size(),
            forall|k: int| 0 <= k < self.size() ==> *(#[trigger] r@[k]) == self.values(*token)[k],
    {
        let mut r: Vec<&'a T> = Vec::new();
        let mut i: usize = 0;
        while i < self.len
            invariant
                self.held_by(*token),
                i <= self.size(),
                r@.len() == i,
                forall|k: int| 0 <= k < i ==> *(#[trigger] r@[k]) == self.values(*token)[k],
            decreases self.size() - i,
        {
            let c = self.cell(i);
            assert(token@.contains_key(c.id()));
            r.push(c.borrow(token));
            i = i + 1;
        }
        r
    }

    /// Exclusive access to every value of the run at once, in order.
    ///
    /// The cells of a run are distinct by construction, so this never fails.
    pub fn borrow_mut<'a>(&self, token: &'a mut GhostToken<T>) -> (r: Vec<&'a mut T>)
        requires
            self.held_by(*old(token)),
        ensures
            r@.len() == self.size(),
            forall|k: int|
                0 <= k < self.size() ==> *(#[trigger] r@[k]) == self.values(*old(token))[k],
            final(token).brand() == old(token).brand(),
            final(token)@ == Map::new(
                |k: int| old(token)@.contains_key(k),
                |k: int|
                    if self.start() <= k < self.start() + self.size() {
                        *final(r@[k - self.start()])
                    } else {
                        old(token)@[k]
                    },
            ),
    {
        token.run_mut(self.start, self.len)
    }

    /// Exchanges the values of two runs of the same length.
    ///
    /// A run swapped with itself is left as it is. Runs that share cells without
    /// being the same run cannot be exchanged: the call fails with
    /// `GhostAliasingError` and changes nothing.
    pub fn swap(&self, other: &Self, token: &mut GhostToken<T>) -> (r: Result<
        (),
        GhostAliasingError,
    >)
        requires
            self.held_by(*old(token)),
            other.held_by(*old(token)),
            self.size() == other.size(),
        ensures
            r is Err <==> self.overlaps(*other),
            r is Err ==> *final(token) == *old(token),
            final(token).brand() == old(token).brand(),
            r is Ok ==> final(token)@ == exchanged(
                old(token)@,
                self.start(),
                other.start(),
                self.size(),
            ),
    {
        proof {
            use_type_invariant(self);
            use_type_invariant(other);
        }
        let ghost m = old(token)@;
        if self.start == other.start {
            assert(exchanged(m, self.start(), other.start(), self.size()) =~= m);
            return Ok(());
        }
        if self.start < other.start + other.len && other.start < self.start + self.len {
            return Err(GhostAliasingError);
        }
        let mut i: usize = 0;
        while i < self.len
            invariant
                !self.overlaps(*other),
                self.start() != other.start(),
                self.size() == other.size(),
                self.brand() == old(token).brand(),
                other.brand() == self.brand(),
                token.brand() == self.brand(),
                i <= self.size(),
                m == old(token)@,
                forall|k: int|
                    self.start() <= k < self.start() + self.size() ==> #[trigger] m.contains_key(k),
                forall|k: int|
                    other.start() <= k < other.start() + other.size()
                        ==> #[trigger] m.contains_key(k),
                token@ == exchanged(m, self.start(), other.start(), i as int),
            decreases self.size() - i,
        {
            let a = self.cell(i);
            let b = other.cell(i);
            assert(m.contains_key(a.id()) && m.contains_key(b.id()));
            let _ = a.swap(&b, token);
            assert(token@ =~= exchanged(m, self.start(), other.start(), i + 1));
            i = i + 1;
        }
        Ok(())
    }
}

/// Swapping a run with itself leaves the pool as it was.
pub proof fn lemma_exchange_self<T>(pool: Map<int, T>, start: int, n: int)
    ensures
        exchanged(pool, start, start, n) == pool,
{
    assert(exchanged(pool, start, start, n) =~= pool);
}

} // verus!
