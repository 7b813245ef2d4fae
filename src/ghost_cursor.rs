use vstd::prelude::*;

use crate::ghost_cell::{GhostCell, GhostToken};

verus! {

/// A cursor over a web of cells of one pool.
///
/// It holds the pool's token exclusively and a current position. A mutable
/// reference to the current value is made afresh on each request and lives no
/// longer than the borrow of the cursor it came from, so at most one mutable
/// view into the pool exists at a time.
pub struct GhostCursor<'a, T> {
    /// The token of the pool, held for the cursor's whole life.
    pub token: &'a mut GhostToken<T>,
    /// The current position; `None` when the cursor is unanchored.
    pub cell: Option<GhostCell<T>>,
}

impl<'a, T> GhostCursor<'a, T> {
    /// The pool as the cursor sees it now.
    pub open spec fn pool(&self) -> GhostToken<T> {
        *self.token
    }

    /// The cursor is unanchored, or anchored at a cell that holds a value.
    pub open spec fn wf(&self) -> bool {
        self.cell matches Some(c) ==> self.pool().holds(c)
    }

    /// A cursor over `token`'s pool, anchored at `cell` or unanchored.
    pub fn new(token: &'a mut GhostToken<T>, cell: Option<GhostCell<T>>) -> (c: Self)
        ensures
            *c.token == *old(token),
            *final(c.token) == *final(token),
            c.cell == cell,
    {
        GhostCursor { token, cell }
    }

    /// Shared access to the current value; `None` when unanchored.
    pub fn current(&self) -> (r: Option<&T>)
        requires
            self.wf(),
        ensures
            r is None <==> self.cell is None,
            r matches Some(v) ==> *v == self.pool()@[self.cell->Some_0.id()],
    {
        match self.cell {
            Some(c) => Some(c.borrow(self.token)),
            None => None,
        }
    }

    /// Exclusive access to the current value, for as long as the cursor is
    /// borrowed; `None`, and no change, when unanchored.
    pub fn current_mut(&mut self) -> (r: Option<&mut T>)
        requires
            old(self).wf(),
        ensures
            final(self).cell == old(self).cell,
            *final(final(self).token) == *final(old(self).token),
            final(self).pool().brand() == old(self).pool().brand(),
            r is None <==> old(self).cell is None,
            r is None ==> final(self).pool() == old(self).pool(),
            r matches Some(v) ==> {
                &&& *v == old(self).pool()@[old(self).cell->Some_0.id()]
                &&& final(self).pool()@ == old(self).pool()@.insert(
                    old(self).cell->Some_0.id(),
                    *final(v),
                )
            },
    {
        match self.cell {
            Some(c) => Some(c.borrow_mut(self.token)),
            None => None,
        }
    }

    /// Moves to the cell that `select` picks from the current value; an
    /// unanchored cursor stays where it is and `select` is not called.
    ///
    /// The pick is made while the current value is borrowed and before the
    /// cursor lets go of it, so the new position is one reached from the old.
    pub fn move_to<F: FnOnce(&T) -> Option<GhostCell<T>>>(&mut self, select: F)
        requires
            old(self).wf(),
            old(self).cell matches Some(c) ==> select.requires((&old(self).pool()@[c.id()],)),
        ensures
            final(self).pool() == old(self).pool(),
            *final(final(self).token) == *final(old(self).token),
            old(self).cell is None ==> final(self).cell is None,
            old(self).cell matches Some(c) ==> select.ensures(
                (&old(self).pool()@[c.id()],),
                final(self).cell,
            ),
    {
        if let Some(c) = self.cell {
            let next = select(c.borrow(self.token));
            self.cell = next;
        }
    }

    /// Exclusive access to the current value for the rest of the cursor's
    /// borrow of the token; `None`, and no change, when unanchored.
    pub fn into_inner(self) -> (r: Option<&'a mut T>)
        requires
            self.wf(),
        ensures
            r is None <==> self.cell is None,
            r is None ==> *final(self.token) == self.pool(),
            r matches Some(v) ==> {
                &&& *v == self.pool()@[self.cell->Some_0.id()]
                &&& final(self.token).brand() == self.pool().brand()
                &&& final(self.token)@ == self.pool()@.insert(self.cell->Some_0.id(), *final(v))
            },
    {
        let GhostCursor { token, cell } = self;
        match cell {
            Some(c) => Some(c.borrow_mut(token)),
            None => None,
        }
    }

    /// The token, now shared, and the current position.
    pub fn into_parts(self) -> (r: (&'a GhostToken<T>, Option<GhostCell<T>>))
        ensures
            *r.0 == self.pool(),
            *final(self.token) == self.pool(),
            r.1 == self.cell,
    {
        let GhostCursor { token, cell } = self;
        (&*token, cell)
    }
}

} // verus!
