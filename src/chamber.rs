use vstd::prelude::*;

verus! {

/// The fewest cells a chamber can have: two fixed boundary cells and at
/// least one interior cell for the stencil to update.
pub const MIN_CELLS: usize = 3;

/// Error raised when a chamber is configured with too few cells.
#[derive(Debug, Clone, Copy, PartialEq, Eq)]
pub enum ChamberError {
    /// The requested cell count leaves no interior cell.
    TooFewCells,
}

/// The values the stencil reads to compute one interior cell of the next
/// generation.
#[derive(Debug, Clone, Copy)]
pub struct Neighbourhood<T> {
    /// The cell's value one generation back.
    pub prev: T,
    /// The left neighbour's value in the current generation.
    pub left: T,
    /// The cell's value in the current generation.
    pub centre: T,
    /// The right neighbour's value in the current generation.
    pub right: T,
}

/// The neighbourhood of interior cell `i`, read from the generations `prev`
/// and `cur`.
pub open spec fn neighbourhood_at<T>(prev: Seq<T>, cur: Seq<T>, i: int) -> Neighbourhood<T> {
    Neighbourhood { prev: prev[i], left: cur[i - 1], centre: cur[i], right: cur[i + 1] }
}

/// `next` is a generation that the stencil `rule` may produce from `prev` and
/// `cur`: both boundary cells hold `rest`, and every interior cell holds a
/// result of `rule` on that cell's neighbourhood.
pub open spec fn is_next_generation<T, F: Fn(Neighbourhood<T>) -> T>(
    prev: Seq<T>,
    cur: Seq<T>,
    rest: T,
    rule: F,
    next: Seq<T>,
) -> bool {
    &&& next.len() == cur.len()
    &&& next[0] == rest
    &&& next[cur.len() - 1] == rest
    &&& forall|i: int|
        1 <= i < cur.len() - 1 ==> rule.ensures((neighbourhood_at(prev, cur, i),), #[trigger] next[i])
}

/// A sequence of `n` copies of `v`.
pub open spec fn uniform<T>(n: nat, v: T) -> Seq<T> {
    Seq::new(n, |_i: int| v)
}

/// A fixed-length chamber of pressure cells with two generations of history.
pub struct Chamber<T> {
    prev: Vec<T>,
    cur: Vec<T>,
    rest: T,
}

impl<T> Chamber<T> {
    /// The pressure field one generation back.
    pub closed spec fn previous(&self) -> Seq<T> {
        self.prev@
    }

    /// The pressure field of the current generation.
    pub closed spec fn current(&self) -> Seq<T> {
        self.cur@
    }

    /// The resting pressure: the value of every cell after construction or
    /// reset, and of both boundary cells after every step.
    pub closed spec fn rest_value(&self) -> T {
        self.rest
    }

    /// Both generations have the same length, which leaves at least one
    /// interior cell.
    pub open spec fn wf(&self) -> bool {
        &&& self.previous().len() == self.current().len()
        &&& self.current().len() >= MIN_CELLS
    }

    /// Every cell of both generations holds the resting pressure.
    pub open spec fn at_rest(&self) -> bool {
        &&& self.previous() == uniform(self.current().len(), self.rest_value())
        &&& self.current() == uniform(self.current().len(), self.rest_value())
    }

    /// `self` holds exactly the same fields as `other`.
    pub open spec fn same_state(&self, other: Self) -> bool {
        &&& self.previous() == other.previous()
        &&& self.current() == other.current()
        &&& self.rest_value() == other.rest_value()
    }

    /// `after` is what one step with `rule` may make of `before`: the old
    /// current generation becomes the previous one, and the new current
    /// generation is computed from the two old ones alone.
    pub open spec fn stepped<F: Fn(Neighbourhood<T>) -> T>(before: Self, after: Self, rule: F) -> bool {
        &&& after.wf()
        &&& after.rest_value() == before.rest_value()
        &&& after.previous() == before.current()
        &&& is_next_generation(
            before.previous(),
            before.current(),
            before.rest_value(),
            rule,
            after.current(),
        )
    }

    /// `after` is what injecting `amount` with `sum` may make of `before`:
    /// only the source cell (index 0) of the current generation changes, to a
    /// result of `sum` on its old value and `amount`.
    pub open spec fn injected<F: Fn(T, T) -> T>(before: Self, after: Self, amount: T, sum: F) -> bool {
        &&& after.wf()
        &&& after.rest_value() == before.rest_value()
        &&& after.previous() == before.previous()
        &&& after.current() == before.current().update(0, after.current()[0])
        &&& sum.ensures((before.current()[0], amount), after.current()[0])
    }
}

impl<T: Copy> Chamber<T> {
    /// A chamber of `cells` cells, every one of both generations at the
    /// resting pressure `rest`. Fails with `TooFewCells` when `cells` leaves
    /// no interior cell.
    pub fn new(cells: usize, rest: T) -> (r: Result<Self, ChamberError>)
        ensures
            r is Err <==> cells < MIN_CELLS,
            r is Err ==> r->Err_0 == ChamberError::TooFewCells,
            r matches Ok(c) ==> {
                &&& c.wf()
                &&& c.current().len() == cells
                &&& c.rest_value() == rest
                &&& c.at_rest()
            },
    {
        if cells < MIN_CELLS {
            return Err(ChamberError::TooFewCells);
        }
        Ok(Chamber { prev: filled(cells, rest), cur: filled(cells, rest), rest })
    }

    /// Adds `amount` to the source cell (index 0) of the current generation,
    /// the sum being whatever `sum` returns. Nothing else changes.
    pub fn add_pressure<F: Fn(T, T) -> T>(&mut self, amount: T, sum: F)
        requires
            old(self).wf(),
            sum.requires((old(self).current()[0], amount)),
        ensures
            Self::injected(*old(self), *final(self), amount, sum),
    {
        let v = sum(self.cur[0], amount);
        self.cur[0] = v;
    }

    /// Returns every cell of both generations to the resting pressure,
    /// whatever the chamber held before. The length is kept.
    pub fn reset(&mut self)
        requires
            old(self).wf(),
        ensures
            final(self).wf(),
            final(self).current().len() == old(self).current().len(),
            final(self).rest_value() == old(self).rest_value(),
            final(self).at_rest(),
    {
        let n = self.cur.len();
        self.prev = filled(n, self.rest);
        self.cur = filled(n, self.rest);
    }

    /// Advances the chamber by one generation. Every interior cell of the new
    /// generation is `rule` applied to its neighbourhood in the two old
    /// generations; both boundary cells are clamped to the resting pressure.
    /// The whole new generation is built before the buffers rotate, so no cell
    /// reads a value of the generation being computed.
    pub fn update_pressures<F: Fn(Neighbourhood<T>) -> T>(&mut self, rule: F)
        requires
            old(self).wf(),
            forall|nb: Neighbourhood<T>| rule.requires((nb,)),
        ensures
            Self::stepped(*old(self), *final(self), rule),
            final(self).previous() == old(self).current(),
            final(self).current()[0] == old(self).rest_value(),
            final(self).current()[final(self).current().len() - 1] == old(self).rest_value(),
    {
        let n = self.cur.len();
        let mut next: Vec<T> = Vec::with_capacity(n);
        next.push(self.rest);
        let mut i: usize = 1;
        while i < n - 1
            invariant
                n == self.cur@.len(),
                n == self.prev@.len(),
                n >= MIN_CELLS,
                1 <= i <= n - 1,
                next@.len() == i,
                next@[0] == self.rest,
                forall|nb: Neighbourhood<T>| rule.requires((nb,)),
                forall|j: int|
                    1 <= j < i ==> rule.ensures(
                        (neighbourhood_at(self.prev@, self.cur@, j),),
                        #[trigger] next@[j],
                    ),
            decreases n - 1 - i,
        {
            let nb = Neighbourhood {
                prev: self.prev[i],
                left: self.cur[i - 1],
                centre: self.cur[i],
                right: self.cur[i + 1],
            };
            let v = rule(nb);
            next.push(v);
            i += 1;
        }
        next.push(self.rest);
        std::mem::swap(&mut self.prev, &mut self.cur);
        self.cur = next;
    }
    /// The number of cells.
    pub fn len(&self) -> (r: usize)
        ensures
            r == self.current().len(),
    {
        self.cur.len()
    }

    /// The current generation, for a reader such as a renderer.
    pub fn pressures(&self) -> (r: &[T])
        ensures
            r@ == self.current(),
    {
        self.cur.as_slice()
    }

    /// The previous generation.
    pub fn previous_pressures(&self) -> (r: &[T])
        ensures
            r@ == self.previous(),
    {
        self.prev.as_slice()
    }

    /// The resting pressure.
    pub fn rest(&self) -> (r: T)
        ensures
            r == self.rest_value(),
    {
        self.rest
    }
}

/// A vector of `n` copies of `v`.
fn filled<T: Copy>(n: usize, v: T) -> (r: Vec<T>)
    ensures
        r@ == uniform(n as nat, v),
{
    let mut r: Vec<T> = Vec::with_capacity(n);
    let mut i: usize = 0;
    while i < n
        invariant
            i <= n,
            r@ == uniform(i as nat, v),
        decreases n - i,
    {
        r.push(v);
        i += 1;
        assert(r@ =~= uniform(i as nat, v));
    }
    r
}

} // verus!
