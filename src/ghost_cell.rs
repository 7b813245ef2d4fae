use core::marker::PhantomData;
use vstd::prelude::*;

verus! {

/// Two cells that had to denote distinct storage denote overlapping storage.
#[derive(Clone, Copy, Debug, PartialEq, Eq, Structural)]
pub struct GhostAliasingError;

/// The key to every cell of one pool.
///
/// The token owns the storage of its pool; the brand ties cells to it and exists
/// only in specifications.
pub struct GhostToken<T> {
    brand: Ghost<int>,
    slots: Vec<Option<T>>,
}

/// A handle to one value of a pool, inert without the pool's token.
pub struct GhostCell<T> {
    brand: Ghost<int>,
    index: usize,
    marker: PhantomData<T>,
}

impl<T> Clone for GhostCell<T> {
    fn clone(&self) -> (r: Self)
        ensures
            r == *self,
    {
        *self
    }
}

impl<T> Copy for GhostCell<T> {
}

/// Exclusive references to two distinct slots, the lower one first.
fn slot_pair_mut<T>(slots: &mut Vec<Option<T>>, i: usize, j: usize) -> (r: (
    &mut Option<T>,
    &mut Option<T>,
))
    requires
        i < j < old(slots)@.len(),
    ensures
        *r.0 == old(slots)@[i as int],
        *r.1 == old(slots)@[j as int],
        final(slots)@ == old(slots)@.update(i as int, *final(r.0)).update(j as int, *final(r.1)),
{
    let all = slots.as_mut_slice();
    let (low, high) = all.split_at_mut(j);
    let (_, from_i) = low.split_at_mut(i);
    let a = from_i.first_mut().unwrap();
    let b = high.first_mut().unwrap();
    (a, b)
}

impl<T> GhostToken<T> {
    /// The brand of the pool.
    pub closed spec fn brand(&self) -> int {
        self.brand@
    }

    /// The live cells of the pool, by identity.
    pub closed spec fn view(&self) -> Map<int, T> {
        Map::new(
            |i: int| 0 <= i < self.slots@.len() && self.slots@[i] is Some,
            |i: int| self.slots@[i]->Some_0,
        )
    }

    /// The identity the next cell of the pool will get.
    pub closed spec fn next_id(&self) -> int {
        self.slots@.len() as int
    }

    /// The identity the next cell of the pool will get.
    pub(crate) fn next_index(&self) -> (r: usize)
        ensures
            r == self.next_id(),
    {
        self.slots.len()
    }

    /// `cell` belongs to this pool and still holds a value.
    pub open spec fn holds(&self, cell: GhostCell<T>) -> bool {
        &&& cell.brand() == self.brand()
        &&& self@.contains_key(cell.id())
    }

    /// Creates a token for a fresh brand and hands it to `fun`.
    ///
    /// Nothing outside `fun` can name the brand, so cells of this pool cannot be
    /// used with any other token.
    pub fn new<R, F: FnOnce(GhostToken<T>) -> R>(fun: F) -> (r: R)
        requires
            forall|t: GhostToken<T>|
                t@ == Map::<int, T>::empty() ==> #[trigger] fun.requires((t,)),
        ensures
            exists|t: GhostToken<T>|
                t@ == Map::<int, T>::empty() && #[trigger] fun.ensures((t,), r),
    {
        let token = GhostToken { brand: Ghost(arbitrary()), slots: Vec::new() };
        assert(token@ =~= Map::<int, T>::empty());
        fun(token)
    }
}

impl<T> GhostCell<T> {
    /// The brand the cell is tagged with.
    pub closed spec fn brand(self) -> int {
        self.brand@
    }

    /// The identity of the cell within its pool.
    pub closed spec fn id(self) -> int {
        self.index as int
    }

    /// The handle of cell `index` of the pool branded `brand`.
    pub(crate) fn from_parts(brand: Ghost<int>, index: usize) -> (cell: Self)
        ensures
            cell.brand() == brand@,
            cell.id() == index,
    {
        GhostCell { brand, index, marker: PhantomData }
    }

    /// Wraps `value` into a new cell of `token`'s pool.
    pub fn new(value: T, token: &mut GhostToken<T>) -> (cell: Self)
        ensures
            cell.brand() == old(token).brand(),
            cell.id() == old(token).next_id(),
            final(token).next_id() == old(token).next_id() + 1,
            final(token).brand() == old(token).brand(),
            !old(token)@.contains_key(cell.id()),
            final(token)@ == old(token)@.insert(cell.id(), value),
    {
        let index = token.slots.len();
        token.slots.push(Some(value));
        assert(final(token)@ =~= old(token)@.insert(index as int, value));
        GhostCell { brand: Ghost(token.brand@), index, marker: PhantomData }
    }

    /// Shared access to the value, through a shared borrow of the token.
    pub fn borrow<'a>(&self, token: &'a GhostToken<T>) -> (r: &'a T)
        requires
            token.holds(*self),
        ensures
            *r == token@[self.id()],
    {
        token.slots[self.index].as_ref().unwrap()
    }

    /// Exclusive access to the value, through an exclusive borrow of the token.
    pub fn borrow_mut<'a>(&self, token: &'a mut GhostToken<T>) -> (r: &'a mut T)
        requires
            old(token).holds(*self),
        ensures
            *r == old(token)@[self.id()],
            final(token).brand() == old(token).brand(),
            final(token)@ == old(token)@.insert(self.id(), *final(r)),
    {
        token.slots[self.index].as_mut().unwrap()
    }

    /// Puts `value` in the cell and returns the value it held.
    pub fn replace(&self, value: T, token: &mut GhostToken<T>) -> (r: T)
        requires
            old(token).holds(*self),
        ensures
            r == old(token)@[self.id()],
            final(token).brand() == old(token).brand(),
            final(token)@ == old(token)@.insert(self.id(), value),
    {
        let mut value = value;
        core::mem::swap(self.borrow_mut(token), &mut value);
        value
    }

    /// Puts the default value in the cell and returns the value it held.
    pub fn take(&self, token: &mut GhostToken<T>) -> (r: T) where T: Default
        requires
            old(token).holds(*self),
        ensures
            r == old(token)@[self.id()],
            final(token).brand() == old(token).brand(),
            final(token)@ == old(token)@.insert(self.id(), final(token)@[self.id()]),
            call_ensures(T::default, (), final(token)@[self.id()]),
    {
        self.replace(T::default(), token)
    }

    /// Takes the value out of the cell, which leaves the pool.
    pub fn into_inner(self, token: &mut GhostToken<T>) -> (r: T)
        requires
            old(token).holds(self),
        ensures
            r == old(token)@[self.id()],
            final(token).brand() == old(token).brand(),
            final(token)@ == old(token)@.remove(self.id()),
    {
        let r = token.slots[self.index].take().unwrap();
        assert(final(token)@ =~= old(token)@.remove(self.id()));
        r
    }

    /// Exchanges the values of two cells.
    ///
    /// Two handles of one cell are swapped as a no-op. Two cells of this kind
    /// never overlap partially, so the exchange always takes place.
    pub fn swap(&self, other: &Self, token: &mut GhostToken<T>) -> (r: Result<
        (),
        GhostAliasingError,
    >)
        requires
            old(token).holds(*self),
            old(token).holds(*other),
        ensures
            r is Ok,
            final(token).brand() == old(token).brand(),
            final(token)@ == old(token)@.insert(self.id(), old(token)@[other.id()]).insert(
                other.id(),
                old(token)@[self.id()],
            ),
    {
        if self.index == other.index {
            assert(old(token)@.insert(self.id(), old(token)@[other.id()]).insert(
                other.id(),
                old(token)@[self.id()],
            ) =~= old(token)@);
            return Ok(());
        }
        let a = token.slots[self.index].take();
        let b = token.slots[other.index].take();
        token.slots.set(self.index, b);
        token.slots.set(other.index, a);
        assert(final(token)@ =~= old(token)@.insert(self.id(), old(token)@[other.id()]).insert(
            other.id(),
            old(token)@[self.id()],
        ));
        Ok(())
    }

    /// Exclusive access to the values of two cells at once.
    ///
    /// Fails with `GhostAliasingError`, handing out nothing, when both handles
    /// denote the same cell.
    pub fn borrow_mut_pair<'a>(first: &Self, second: &Self, token: &'a mut GhostToken<T>) -> (r:
        Result<(&'a mut T, &'a mut T), GhostAliasingError>)
        requires
            old(token).holds(*first),
            old(token).holds(*second),
        ensures
            r is Err <==> first.id() == second.id(),
            r is Err ==> *final(token) == *old(token),
            r matches Ok((a, b)) ==> {
                &&& *a == old(token)@[first.id()]
                &&& *b == old(token)@[second.id()]
                &&& final(token).brand() == old(token).brand()
                &&& final(token)@ == old(token)@.insert(first.id(), *final(a)).insert(
                    second.id(),
                    *final(b),
                )
            },
    {
        if first.index == second.index {
            return Err(GhostAliasingError);
        }
        let (x, y) = if first.index < second.index {
            slot_pair_mut(&mut token.slots, first.index, second.index)
        } else {
            let (y, x) = slot_pair_mut(&mut token.slots, second.index, first.index);
            (x, y)
        };
        let a = x.as_mut().unwrap();
        let b = y.as_mut().unwrap();
        proof {
            assert(after_borrow(*token)@ =~= old(token)@.insert(first.id(), *final(a)).insert(
                second.id(),
                *final(b),
            ));
        }
        Ok((a, b))
    }
}

impl<T> GhostToken<T> {
    /// Exclusive references to the values of the `len` cells from identity
    /// `start` on, in order.
    pub(crate) fn run_mut<'a>(&'a mut self, start: usize, len: usize) -> (r: Vec<&'a mut T>)
        requires
            forall|k: int| start <= k < start + len ==> #[trigger] old(self)@.contains_key(k),
        ensures
            r@.len() == len,
            forall|j: int| 0 <= j < len ==> *(#[trigger] r@[j]) == old(self)@[start + j],
            final(self).brand() == old(self).brand(),
            final(self)@ == Map::new(
                |k: int| old(self)@.contains_key(k),
                |k: int|
                    if start <= k < start + len {
                        *final(r@[k - start])
                    } else {
                        old(self)@[k]
                    },
            ),
    {
        let ghost slots0 = old(self).slots@;
        let ghost n = slots0.len();
        if len == 0 {
            let r: Vec<&'a mut T> = Vec::new();
            assert(final(self)@ =~= Map::new(
                |k: int| old(self)@.contains_key(k),
                |k: int| old(self)@[k],
            ));
            return r;
        }
        assert(old(self)@.contains_key(start + len - 1));
        let all = self.slots.as_mut_slice();
        let (_, from_start) = all.split_at_mut(start);
        let (run, _) = from_start.split_at_mut(len);
        let mut rest = run;
        let mut r: Vec<&'a mut T> = Vec::new();
        let mut i: usize = 0;
        while i < len
            invariant
                i <= len,
                start + len <= n,
                n == slots0.len(),
                slots0 == old(self).slots@,
                forall|k: int| start <= k < start + len ==> #[trigger] old(self)@.contains_key(k),
                rest@.len() == len - i,
                forall|j: int| 0 <= j < rest@.len() ==> rest@[j] == slots0[start + i + j],
                r@.len() == i,
                forall|j: int| 0 <= j < i ==> *(#[trigger] r@[j]) == old(self)@[start + j],
                after_borrow(self.slots)@ == slots0.subrange(0, start as int) + Seq::new(
                    i as nat,
                    |j: int| Some(*final(r@[j])),
                ) + final(rest)@ + slots0.subrange(start + len, n as int),
            decreases len - i,
        {
            assert(old(self)@.contains_key(start + i));
            let (head, tail) = rest.split_at_mut(1);
            let slot = head.first_mut().unwrap();
            let v = slot.as_mut().unwrap();
            r.push(v);
            rest = tail;
            i = i + 1;
        }
        r
    }
}

impl<T> GhostCell<T> {
    /// Whether two of `cells` are the same cell.
    pub open spec fn has_duplicate(cells: Seq<GhostCell<T>>) -> bool {
        exists|j: int, k: int| 0 <= j < k < cells.len() && cells[j].id() == cells[k].id()
    }

    /// Whether one of `cells` is the cell of identity `id`.
    pub open spec fn mentions(cells: Seq<GhostCell<T>>, id: int) -> bool {
        exists|k: int| 0 <= k < cells.len() && cells[k].id() == id
    }

    /// Exclusive access to the values of any number of cells at once, in order.
    ///
    /// Fails with `GhostAliasingError`, handing out nothing, when two of the
    /// handles denote the same cell.
    pub fn borrow_mut_many<'a>(cells: &[GhostCell<T>], token: &'a mut GhostToken<T>) -> (r:
        Result<Vec<&'a mut T>, GhostAliasingError>)
        requires
            forall|k: int| 0 <= k < cells@.len() ==> old(token).holds(#[trigger] cells@[k]),
        ensures
            r is Err <==> Self::has_duplicate(cells@),
            r is Err ==> *final(token) == *old(token),
            r matches Ok(v) ==> {
                &&& v@.len() == cells@.len()
                &&& forall|k: int|
                    0 <= k < cells@.len() ==> *(#[trigger] v@[k]) == old(token)@[cells@[k].id()]
                &&& final(token).brand() == old(token).brand()
                &&& final(token)@.dom() == old(token)@.dom()
                &&& forall|k: int|
                    0 <= k < cells@.len() ==> final(token)@[(#[trigger] cells@[k]).id()]
                        == *final(v@[k])
                &&& forall|q: int|
                    #[trigger] old(token)@.contains_key(q) && !Self::mentions(cells@, q)
                        ==> final(token)@[q] == old(token)@[q]
            },
    {
        let n = cells.len();
        // Refuse any cell that is asked for twice.
        let mut j: usize = 0;
        while j < n
            invariant
                n == cells@.len(),
                j <= n,
                forall|a: int, b: int| 0 <= a < b < n && a < j ==> cells@[a].id() != cells@[b].id(),
            decreases n - j,
        {
            let mut k: usize = j + 1;
            while k < n
                invariant
                    n == cells@.len(),
                    j < n,
                    j + 1 <= k <= n,
                    forall|a: int, b: int|
                        0 <= a < b < n && a < j ==> cells@[a].id() != cells@[b].id(),
                    forall|b: int| j < b < k ==> cells@[j as int].id() != cells@[b].id(),
                decreases n - k,
            {
                if cells[j].index == cells[k].index {
                    return Err(GhostAliasingError);
                }
                k = k + 1;
            }
            j = j + 1;
        }
        // Walk the slots of the pool once, keeping the reference to each slot
        // asked for at the position where it was asked for.
        let mut found: Vec<Option<&'a mut T>> = Vec::new();
        let mut k: usize = 0;
        while k < n
            invariant
                k <= n,
                found@.len() == k,
                forall|a: int| 0 <= a < k ==> found@[a] is None,
            decreases n - k,
        {
            found.push(None);
            k = k + 1;
        }
        let ghost slots0 = token.slots@;
        assert(slots0.len() == token.slots.len());
        let mut rest = token.slots.as_mut_slice();
        let mut p: usize = 0;
        while rest.len() > 0
            invariant
                n == cells@.len(),
                forall|a: int, b: int| 0 <= a < b < n ==> cells@[a].id() != cells@[b].id(),
                forall|a: int| 0 <= a < n ==> old(token).holds(#[trigger] cells@[a]),
                slots0 == old(token).slots@,
                slots0.len() <= usize::MAX,
                p + rest@.len() == slots0.len(),
                forall|q: int| 0 <= q < rest@.len() ==> rest@[q] == slots0[p + q],
                after_borrow(token.slots)@.len() >= p,
                after_borrow(token.slots)@ == after_borrow(token.slots)@.subrange(0, p as int)
                    + final(rest)@,
                found@.len() == n,
                forall|a: int|
                    0 <= a < n ==> (#[trigger] found@[a] is Some <==> cells@[a].id() < p),
                forall|a: int|
                    0 <= a < n && cells@[a].id() < p ==> {
                        &&& *(#[trigger] found@[a])->Some_0 == old(token)@[cells@[a].id()]
                        &&& after_borrow(token.slots)@[cells@[a].id()] == Some(
                            *final(found@[a]->Some_0),
                        )
                    },
                forall|q: int|
                    0 <= q < p && (forall|a: int| 0 <= a < n ==> #[trigger] cells@[a].id() != q)
                        ==> after_borrow(token.slots)@[q] == slots0[q],
            decreases rest@.len(),
        {
            let (head, tail) = rest.split_at_mut(1);
            let slot = head.first_mut().unwrap();
            let mut k: usize = 0;
            let mut at: usize = n;
            while k < n
                invariant
                    n == cells@.len(),
                    k <= n,
                    at == n || (at < k && cells@[at as int].id() == p),
                    at == n ==> forall|a: int| 0 <= a < k ==> #[trigger] cells@[a].id() != p,
                decreases n - k,
            {
                if cells[k].index == p {
                    at = k;
                }
                k = k + 1;
            }
            if at < n {
                let v = slot.as_mut().unwrap();
                found.set(at, Some(v));
            }
            proof {
                let ghost all = after_borrow(token.slots)@;
                assert(all.subrange(0, p + 1) =~= all.subrange(0, p as int).push(*final(slot)));
                assert(all =~= all.subrange(0, p + 1) + final(tail)@);
            }
            rest = tail;
            p = p + 1;
        }
        // Hand the references out in the order asked for.
        let ghost found0 = found@;
        assert forall|a: int| 0 <= a < n implies #[trigger] found0[a] is Some by {
            assert(old(token)@.contains_key(cells@[a].id()));
        }
        let mut reversed: Vec<&'a mut T> = Vec::new();
        while found.len() > 0
            invariant
                found0.len() == n,
                found@.len() + reversed@.len() == n,
                forall|a: int| 0 <= a < found@.len() ==> found@[a] == found0[a],
                forall|a: int| 0 <= a < n ==> #[trigger] found0[a] is Some,
                forall|j: int| 0 <= j < reversed@.len() ==> reversed@[j] == found0[n - 1 - j]->Some_0,
            decreases found@.len(),
        {
            assert(found0[found@.len() - 1] is Some);
            reversed.push(found.pop().unwrap().unwrap());
        }
        let mut v: Vec<&'a mut T> = Vec::new();
        while reversed.len() > 0
            invariant
                found0.len() == n,
                v@.len() + reversed@.len() == n,
                forall|j: int| 0 <= j < reversed@.len() ==> reversed@[j] == found0[n - 1 - j]->Some_0,
                forall|a: int| 0 <= a < v@.len() ==> v@[a] == found0[a]->Some_0,
            decreases reversed@.len(),
        {
            v.push(reversed.pop().unwrap());
        }
        proof {
            let ghost all = after_borrow(token.slots)@;
            assert(all =~= all.subrange(0, slots0.len() as int));
            assert forall|q: int| 0 <= q < slots0.len() && old(token)@.contains_key(q) implies (
            all[q] is Some) by {
                if exists|a: int| 0 <= a < n && cells@[a].id() == q {
                    let a = choose|a: int| 0 <= a < n && cells@[a].id() == q;
                    assert(found0[a] is Some);
                }
            }
            assert(after_borrow(*token)@.dom() =~= old(token)@.dom());
        }
        Ok(v)
    }
}

/// A value wrapped into a cell is what a read of that cell through the same
/// pool then gives.
pub proof fn lemma_read_after_wrap<T>(
    before: GhostToken<T>,
    after: GhostToken<T>,
    cell: GhostCell<T>,
    value: T,
)
    requires
        cell.brand() == before.brand(),
        after.brand() == before.brand(),
        after@ == before@.insert(cell.id(), value),
    ensures
        after.holds(cell),
        after@[cell.id()] == value,
{
}

/// A value written into a cell is what a read of that cell then gives, and
/// every other cell of the pool keeps its value.
pub proof fn lemma_read_after_write<T>(
    before: GhostToken<T>,
    after: GhostToken<T>,
    cell: GhostCell<T>,
    value: T,
)
    requires
        before.holds(cell),
        after.brand() == before.brand(),
        after@ == before@.insert(cell.id(), value),
    ensures
        after.holds(cell),
        after@[cell.id()] == value,
        forall|k: int|
            k != cell.id() && before@.contains_key(k) ==> #[trigger] after@[k] == before@[k],
        after@.dom() == before@.dom(),
{
    assert(after@.dom() =~= before@.dom());
}

/// Taking the value out of a freshly wrapped cell gives back the wrapped value
/// and leaves the pool as it was before the wrap.
pub proof fn lemma_extract_after_wrap<T>(
    before: GhostToken<T>,
    wrapped: GhostToken<T>,
    after: GhostToken<T>,
    cell: GhostCell<T>,
    value: T,
    extracted: T,
)
    requires
        !before@.contains_key(cell.id()),
        wrapped@ == before@.insert(cell.id(), value),
        extracted == wrapped@[cell.id()],
        after@ == wrapped@.remove(cell.id()),
    ensures
        extracted == value,
        after@ == before@,
{
    assert(after@ =~= before@);
}

/// Swapping a cell with itself leaves the pool as it was.
pub proof fn lemma_swap_self<T>(pool: Map<int, T>, cell: GhostCell<T>)
    requires
        pool.contains_key(cell.id()),
    ensures
        pool.insert(cell.id(), pool[cell.id()]).insert(cell.id(), pool[cell.id()]) == pool,
{
    assert(pool.insert(cell.id(), pool[cell.id()]).insert(cell.id(), pool[cell.id()]) =~= pool);
}

} // verus!
