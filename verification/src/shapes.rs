use vstd::prelude::*;

verus! {

/// The corners of a rectangle, in the order a rounded rectangle's outline
/// passes them.
#[derive(Clone, Copy, Debug, PartialEq, Eq, Structural)]
pub enum Corner {
    TopRight,
    TopLeft,
    BottomLeft,
    BottomRight,
}

/// One point on the outline of a rounded rectangle: the corner whose arc
/// it lies on, and which sample of the full circle it is. The circle is
/// sampled at `4 * prec` equal steps, sample 0 first; the point lies at
/// the centre of the corner's arc plus that sample.
#[derive(Clone, Copy, Debug, PartialEq, Eq, Structural)]
pub struct ArcPoint {
    pub corner: Corner,
    pub sample: usize,
}

/// The number of points on the outline of a rounded rectangle with `prec`
/// segments to a corner: `prec + 1` points on each of the four arcs, and
/// the first point once more to close the outline.
pub open spec fn rounded_rect_ring_len(prec: nat) -> nat {
    4 * (prec + 1) + 1
}

/// Point `k` on the outline of a rounded rectangle with `prec` segments to
/// a corner. Every arc is a quarter of the circle, end points included, so
/// that neighbouring arcs share the sample at which they meet; the last
/// arc ends where the circle is back at sample 0.
pub open spec fn rounded_rect_ring_point(prec: nat, k: int) -> ArcPoint {
    if k < prec + 1 {
        ArcPoint { corner: Corner::TopRight, sample: k as usize }
    } else if k < 2 * (prec + 1) {
        ArcPoint { corner: Corner::TopLeft, sample: (k - 1) as usize }
    } else if k < 3 * (prec + 1) {
        ArcPoint { corner: Corner::BottomLeft, sample: (k - 2) as usize }
    } else if k < 4 * (prec + 1) - 1 {
        ArcPoint { corner: Corner::BottomRight, sample: (k - 3) as usize }
    } else if k < 4 * (prec + 1) {
        ArcPoint { corner: Corner::BottomRight, sample: 0 }
    } else {
        ArcPoint { corner: Corner::TopRight, sample: 0 }
    }
}

/// The outline of a rounded rectangle with `prec` segments to a corner.
pub open spec fn rounded_rect_ring_spec(prec: nat) -> Seq<ArcPoint> {
    Seq::new(rounded_rect_ring_len(prec), |k: int| rounded_rect_ring_point(prec, k))
}

/// The outline of a rounded rectangle with `prec` segments to a corner, as
/// the ring of one fan around the rectangle's centre: the arcs top right,
/// top left, bottom left, bottom right, each of `prec` segments, then the
/// first point again.
pub fn rounded_rect_ring(prec: usize) -> (ring: Vec<ArcPoint>)
    requires
        1 <= prec,
        4 * (prec + 1) + 1 <= usize::MAX,
    ensures
        ring@ == rounded_rect_ring_spec(prec as nat),
{
    let mut fan: Vec<ArcPoint> = Vec::new();

    let mut i: usize = 0;
    while i < prec + 1
        invariant
            4 * (prec + 1) + 1 <= usize::MAX,
            i <= prec + 1,
            fan@.len() == i,
            forall|k: int| 0 <= k < fan@.len() ==> fan@[k] == rounded_rect_ring_point(prec as nat, k),
        decreases prec + 1 - i,
    {
        fan.push(ArcPoint { corner: Corner::TopRight, sample: i });
        i = i + 1;
    }

    let mut i: usize = prec;
    while i < 2 * prec + 1
        invariant
            4 * (prec + 1) + 1 <= usize::MAX,
            prec <= i <= 2 * prec + 1,
            fan@.len() == i + 1,
            forall|k: int| 0 <= k < fan@.len() ==> fan@[k] == rounded_rect_ring_point(prec as nat, k),
        decreases 2 * prec + 1 - i,
    {
        fan.push(ArcPoint { corner: Corner::TopLeft, sample: i });
        i = i + 1;
    }

    let mut i: usize = 2 * prec;
    while i < 3 * prec + 1
        invariant
            4 * (prec + 1) + 1 <= usize::MAX,
            2 * prec <= i <= 3 * prec + 1,
            fan@.len() == i + 2,
            forall|k: int| 0 <= k < fan@.len() ==> fan@[k] == rounded_rect_ring_point(prec as nat, k),
        decreases 3 * prec + 1 - i,
    {
        fan.push(ArcPoint { corner: Corner::BottomLeft, sample: i });
        i = i + 1;
    }

    let mut i: usize = 3 * prec;
    while i < 4 * prec
        invariant
            4 * (prec + 1) + 1 <= usize::MAX,
            1 <= prec,
            3 * prec <= i <= 4 * prec,
            fan@.len() == i + 3,
            forall|k: int| 0 <= k < fan@.len() ==> fan@[k] == rounded_rect_ring_point(prec as nat, k),
        decreases 4 * prec - i,
    {
        fan.push(ArcPoint { corner: Corner::BottomRight, sample: i });
        i = i + 1;
    }
    fan.push(ArcPoint { corner: Corner::BottomRight, sample: 0 });

    fan.push(ArcPoint { corner: Corner::TopRight, sample: 0 });
    proof {
        assert(fan@ =~= rounded_rect_ring_spec(prec as nat));
    }
    fan
}

/// [`rounded_rect_ring`] where the outline can be had, `None` where `prec`
/// is 0 or too large for the outline's length to fit the machine's word.
pub fn checked_rounded_rect_ring(prec: usize) -> (ring: Option<Vec<ArcPoint>>)
    ensures
        match ring {
            Some(ring) => 1 <= prec && 4 * (prec + 1) + 1 <= usize::MAX && ring@
                == rounded_rect_ring_spec(prec as nat),
            None => prec == 0 || 4 * (prec + 1) + 1 > usize::MAX,
        },
{
    if prec == 0 || prec > (usize::MAX - 1) / 4 - 1 {
        None
    } else {
        Some(rounded_rect_ring(prec))
    }
}

/// The outline of a rounded rectangle is closed, has four arcs of
/// `prec + 1` points and one closing point, stays within the `4 * prec`
/// samples of the circle, passes the corners in order, and lets
/// neighbouring arcs meet in one sample: arc `a` runs through the samples
/// `a * prec ..= (a + 1) * prec` of the circle, the last of which, on the
/// last arc, is sample 0 again.
pub proof fn lemma_rounded_rect_ring(prec: nat)
    requires
        1 <= prec,
        4 * (prec + 1) + 1 <= usize::MAX,
    ensures
        rounded_rect_ring_spec(prec).len() == 4 * (prec + 1) + 1,
        rounded_rect_ring_spec(prec).first() == rounded_rect_ring_spec(prec).last(),
        rounded_rect_ring_spec(prec).first() == (ArcPoint { corner: Corner::TopRight, sample: 0 }),
        forall|k: int|
            0 <= k < 4 * (prec + 1) + 1 ==> (#[trigger] rounded_rect_ring_spec(prec)[k]).sample
                < 4 * prec,
        forall|k: int|
            0 <= k <= prec ==> {
                &&& (#[trigger] rounded_rect_ring_spec(prec)[k]) == (ArcPoint {
                    corner: Corner::TopRight,
                    sample: k as usize,
                })
                &&& rounded_rect_ring_spec(prec)[k + prec + 1] == (ArcPoint {
                    corner: Corner::TopLeft,
                    sample: (k + prec) as usize,
                })
                &&& rounded_rect_ring_spec(prec)[k + 2 * prec + 2] == (ArcPoint {
                    corner: Corner::BottomLeft,
                    sample: (k + 2 * prec) as usize,
                })
                &&& rounded_rect_ring_spec(prec)[k + 3 * prec + 3] == (ArcPoint {
                    corner: Corner::BottomRight,
                    sample: if k < prec {
                        (k + 3 * prec) as usize
                    } else {
                        0
                    },
                })
            },
{
}

} // verus!
