//! The input layer's event queue: mouse-motion deltas and scroll events
//! accumulate between frames and are drained, summed, exactly once per
//! frame, so the controller never retains events across frames.
//!
//! Scroll events carry their reporting unit: a "line" event counts as is,
//! a "pixel" event is rescaled by a fixed factor of 50 so both modes feel
//! equivalent.

use vstd::prelude::*;

verus! {

/// Largest admitted magnitude of one mouse-motion component or one scroll
/// amount.
pub const EVENT_ABS_MAX: i64 = 1_000_000;

/// Largest admitted number of queued events of one kind.
pub const EVENT_COUNT_MAX: usize = 1_000;

/// One mouse-motion event: a relative delta in counts.
#[derive(Clone, Copy, Debug, PartialEq, Eq, Structural)]
pub struct MouseDelta {
    pub dx: i64,
    pub dy: i64,
}

/// The unit a scroll event was reported in.
#[derive(Clone, Copy, Debug, PartialEq, Eq, Structural)]
pub enum ScrollUnit {
    Line,
    Pixel,
}

/// One scroll event: a signed magnitude in milli-lines or milli-pixels,
/// tagged with its unit.
#[derive(Clone, Copy, Debug, PartialEq, Eq, Structural)]
pub struct ScrollEvent {
    pub unit: ScrollUnit,
    pub amount_milli: i64,
}

/// The worth of one scroll event in milli-lines: line events count as is,
/// pixel events are rescaled by the fixed factor of 50, rounded toward
/// zero.
pub open spec fn scroll_value(ev: ScrollEvent) -> int {
    match ev.unit {
        ScrollUnit::Line => ev.amount_milli as int,
        ScrollUnit::Pixel => if ev.amount_milli >= 0 {
            ev.amount_milli / 50
        } else {
            -((-ev.amount_milli) / 50)
        },
    }
}

/// The summed horizontal motion of a queue of mouse events.
pub open spec fn motion_sum_dx(s: Seq<MouseDelta>) -> int
    decreases s.len(),
{
    if s.len() == 0 {
        0
    } else {
        motion_sum_dx(s.drop_last()) + s.last().dx
    }
}

/// The summed vertical motion of a queue of mouse events.
pub open spec fn motion_sum_dy(s: Seq<MouseDelta>) -> int
    decreases s.len(),
{
    if s.len() == 0 {
        0
    } else {
        motion_sum_dy(s.drop_last()) + s.last().dy
    }
}

/// The summed worth, in milli-lines, of a queue of scroll events.
pub open spec fn scroll_sum(s: Seq<ScrollEvent>) -> int
    decreases s.len(),
{
    if s.len() == 0 {
        0
    } else {
        scroll_sum(s.drop_last()) + scroll_value(s.last())
    }
}

/// The event queue one frame drains: motions and scrolls gathered since
/// the previous frame.
pub struct InputQueue {
    pub motions: Vec<MouseDelta>,
    pub scrolls: Vec<ScrollEvent>,
}

impl InputQueue {
    /// Every queued event is bounded and the queues are short enough that
    /// their sums fit comfortably in machine integers.
    pub open spec fn wf(self) -> bool {
        &&& self.motions@.len() <= EVENT_COUNT_MAX
        &&& self.scrolls@.len() <= EVENT_COUNT_MAX
        &&& forall|i: int|
            0 <= i < self.motions@.len() ==> -EVENT_ABS_MAX <= #[trigger] self.motions@[i].dx
                <= EVENT_ABS_MAX && -EVENT_ABS_MAX <= self.motions@[i].dy <= EVENT_ABS_MAX
        &&& forall|i: int|
            0 <= i < self.scrolls@.len() ==> -EVENT_ABS_MAX
                <= #[trigger] self.scrolls@[i].amount_milli <= EVENT_ABS_MAX
    }

    /// The empty queue.
    pub fn new() -> (q: InputQueue)
        ensures
            q.wf(),
            q.motions@.len() == 0,
            q.scrolls@.len() == 0,
    {
        InputQueue { motions: Vec::new(), scrolls: Vec::new() }
    }

    /// Queues one mouse-motion event.
    pub fn push_motion(&mut self, dx: i64, dy: i64)
        requires
            old(self).wf(),
            old(self).motions@.len() < EVENT_COUNT_MAX,
            -EVENT_ABS_MAX <= dx <= EVENT_ABS_MAX,
            -EVENT_ABS_MAX <= dy <= EVENT_ABS_MAX,
        ensures
            final (self).wf(),
            final (self).motions@ == old(self).motions@.push(MouseDelta { dx, dy }),
            final (self).scrolls@ == old(self).scrolls@,
    {
        self.motions.push(MouseDelta { dx, dy });
    }

    /// Queues one scroll event.
    pub fn push_scroll(&mut self, unit: ScrollUnit, amount_milli: i64)
        requires
            old(self).wf(),
            old(self).scrolls@.len() < EVENT_COUNT_MAX,
            -EVENT_ABS_MAX <= amount_milli <= EVENT_ABS_MAX,
        ensures
            final (self).wf(),
            final (self).scrolls@ == old(self).scrolls@.push(
                ScrollEvent { unit, amount_milli },
            ),
            final (self).motions@ == old(self).motions@,
    {
        self.scrolls.push(ScrollEvent { unit, amount_milli });
    }

    /// Drains the motion queue: returns the summed delta of everything
    /// gathered since the previous frame and leaves the queue empty.
    pub fn drain_motion(&mut self) -> (d: (i64, i64))
        requires
            old(self).wf(),
        ensures
            final (self).wf(),
            d.0 == motion_sum_dx(old(self).motions@),
            d.1 == motion_sum_dy(old(self).motions@),
            -1_000_000_000 <= d.0 <= 1_000_000_000,
            -1_000_000_000 <= d.1 <= 1_000_000_000,
            final (self).motions@.len() == 0,
            final (self).scrolls@ == old(self).scrolls@,
    {
        let mut dx: i64 = 0;
        let mut dy: i64 = 0;
        let n = self.motions.len();
        let mut i: usize = 0;
        while i < n
            invariant
                self.wf(),
                n == self.motions@.len(),
                0 <= i <= n,
                dx == motion_sum_dx(self.motions@.take(i as int)),
                dy == motion_sum_dy(self.motions@.take(i as int)),
                -(i as int) * EVENT_ABS_MAX <= dx <= (i as int) * EVENT_ABS_MAX,
                -(i as int) * EVENT_ABS_MAX <= dy <= (i as int) * EVENT_ABS_MAX,
            decreases n - i,
        {
            let ev = self.motions[i];
            proof {
                assert(self.motions@.take(i + 1).drop_last() =~= self.motions@.take(i as int));
                assert(self.motions@.take(i + 1).last() == self.motions@[i as int]);
            }
            dx = dx + ev.dx;
            dy = dy + ev.dy;
            i = i + 1;
        }
        proof {
            assert(self.motions@.take(n as int) =~= self.motions@);
        }
        self.motions.clear();
        (dx, dy)
    }

    /// Drains the scroll queue: returns the summed worth, in milli-lines,
    /// of everything gathered since the previous frame — pixel events
    /// already rescaled — and leaves the queue empty.
    pub fn drain_scroll(&mut self) -> (s: i64)
        requires
            old(self).wf(),
        ensures
            final (self).wf(),
            s == scroll_sum(old(self).scrolls@),
            -1_000_000_000 <= s <= 1_000_000_000,
            final (self).scrolls@.len() == 0,
            final (self).motions@ == old(self).motions@,
    {
        let mut acc: i64 = 0;
        let n = self.scrolls.len();
        let mut i: usize = 0;
        while i < n
            invariant
                self.wf(),
                n == self.scrolls@.len(),
                0 <= i <= n,
                acc == scroll_sum(self.scrolls@.take(i as int)),
                -(i as int) * EVENT_ABS_MAX <= acc <= (i as int) * EVENT_ABS_MAX,
            decreases n - i,
        {
            let ev = self.scrolls[i];
            proof {
                assert(self.scrolls@.take(i + 1).drop_last() =~= self.scrolls@.take(i as int));
                assert(self.scrolls@.take(i + 1).last() == self.scrolls@[i as int]);
            }
            let v: i64 = match ev.unit {
                ScrollUnit::Line => ev.amount_milli,
                ScrollUnit::Pixel => {
                    if ev.amount_milli >= 0 {
                        ev.amount_milli / 50
                    } else {
                        -((-ev.amount_milli) / 50)
                    }
                },
            };
            assert(v == scroll_value(ev));
            assert(-EVENT_ABS_MAX <= v <= EVENT_ABS_MAX);
            acc = acc + v;
            i = i + 1;
        }
        proof {
            assert(self.scrolls@.take(n as int) =~= self.scrolls@);
        }
        self.scrolls.clear();
        acc
    }
}

} // verus!
