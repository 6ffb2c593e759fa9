use vstd::prelude::*;

verus! {

/// The first marker stands at position 0 and each one stands strictly past
/// the one before it.
pub open spec fn markers_ordered(p: Seq<int>) -> bool {
    &&& p.len() == 5
    &&& p[0] == 0
    &&& forall|i: int| 0 <= i < 4 ==> #[trigger] p[i] < p[i + 1]
}

/// The positions after a value fell into cell `cell`, between markers `cell`
/// and `cell + 1`: every marker above the cell moves up by one.
pub open spec fn positions_after_record(p: Seq<int>, cell: int) -> Seq<int> {
    Seq::new(5, |i: int| if i > cell { p[i] + 1 } else { p[i] })
}

/// Positions of the five markers of the P² quantile estimator: marker `i`
/// stands at the rank, counted from 0, of the value that its height
/// estimates among the values seen so far.
#[derive(Debug, Clone, Copy)]
pub struct MarkerPositions {
    n: [usize; 5],
}

impl MarkerPositions {
    /// The positions, marker by marker.
    pub closed spec fn view(&self) -> Seq<int> {
        Seq::new(5, |i: int| self.n[i] as int)
    }

    /// Where the markers stand before any value past the first five.
    pub fn new() -> (r: MarkerPositions)
        ensures
            r@ == seq![0int, 1, 2, 3, 4],
            markers_ordered(r@),
    {
        let r = MarkerPositions { n: [0, 1, 2, 3, 4] };
        assert(r@ =~= seq![0int, 1, 2, 3, 4]);
        r
    }

    /// The position of marker `i`.
    pub fn position(&self, i: usize) -> (r: usize)
        requires
            i < 5,
        ensures
            r == self@[i as int],
    {
        self.n[i]
    }

    /// Accounts for a new value that fell into cell `cell`, between markers
    /// `cell` and `cell + 1`.
    pub fn record(&mut self, cell: usize)
        requires
            markers_ordered(old(self)@),
            cell < 4,
            old(self)@[4] < usize::MAX,
        ensures
            markers_ordered(final(self)@),
            final(self)@ == positions_after_record(old(self)@, cell as int),
    {
        let ghost p = old(self)@;
        assert(p[0] < p[1] && p[1] < p[2] && p[2] < p[3] && p[3] < p[4]);
        let mut i: usize = cell + 1;
        while i < 5
            invariant
                cell < i <= 5,
                p == old(self)@,
                p[4] < usize::MAX,
                markers_ordered(p),
                forall|j: int| 0 <= j < 5 ==> #[trigger] p[j] <= p[4],
                forall|j: int|
                    0 <= j < 5 ==> #[trigger] self.n[j] as int == if cell < j < i {
                        p[j] + 1
                    } else {
                        p[j]
                    },
            decreases 5 - i,
        {
            self.n[i] = self.n[i] + 1;
            i = i + 1;
        }
        assert(self@ =~= positions_after_record(old(self)@, cell as int));
    }

    /// Whether marker `i`, one of the three inner ones, can move one step up
    /// (`up`) or down without meeting its neighbour.
    pub fn can_move(&self, i: usize, up: bool) -> (r: bool)
        requires
            markers_ordered(self@),
            1 <= i <= 3,
        ensures
            r == if up {
                self@[i + 1] - self@[i as int] > 1
            } else {
                self@[i as int] - self@[i - 1] > 1
            },
    {
        if up {
            self.n[i + 1] - self.n[i] > 1
        } else {
            self.n[i] - self.n[i - 1] > 1
        }
    }

    /// Moves marker `i`, one of the three inner ones, one step up (`up`) or
    /// down; the markers stay in order.
    pub fn shift(&mut self, i: usize, up: bool)
        requires
            markers_ordered(old(self)@),
            1 <= i <= 3,
            if up {
                old(self)@[i + 1] - old(self)@[i as int] > 1
            } else {
                old(self)@[i as int] - old(self)@[i - 1] > 1
            },
        ensures
            markers_ordered(final(self)@),
            final(self)@ == old(self)@.update(
                i as int,
                if up {
                    old(self)@[i as int] + 1
                } else {
                    old(self)@[i as int] - 1
                },
            ),
    {
        if up {
            self.n[i] = self.n[i] + 1;
        } else {
            self.n[i] = self.n[i] - 1;
        }
        assert(self@ =~= old(self)@.update(
            i as int,
            if up {
                old(self)@[i as int] + 1
            } else {
                old(self)@[i as int] - 1
            },
        ));
    }
}

} // verus!
