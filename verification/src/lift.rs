//! A single elevator car: its position, its queue of requested floors, and
//! the per-tick movement rule.

use vstd::prelude::*;
use vstd::string::StringExecFns;

verus! {

/// Direction code for an upward move.
pub const UP: i32 = 0;

/// Direction code for a downward move.
pub const DOWN: i32 = 1;

/// A pending hall call: a floor and the direction the caller wants to go.
/// Calls are advisory display state only; no lift operation consumes them.
pub struct Call {
    pub floor: i32,
    pub direction: i32,
}

/// One elevator car: a display label, its current floor, its FIFO queue of
/// requested floors (duplicates permitted, never reordered), and a door
/// flag that no operation here transitions.
pub struct Lift {
    pub id: String,
    pub floor: i32,
    pub requests: Vec<i32>,
    pub doors_open: bool,
}

/// True when some pending request of `l` names floor `f`.
pub open spec fn has_request_at(l: Lift, f: int) -> bool {
    exists|i: int| 0 <= i < l.requests@.len() && l.requests@[i] == f
}

/// The marker drawn inside a lift's cell: `*` when a pending request names
/// the lift's own floor, nothing otherwise.
pub open spec fn marker_text(l: Lift) -> Seq<char> {
    if has_request_at(l, l.floor as int) {
        "*"@
    } else {
        Seq::<char>::empty()
    }
}

/// The bracketed cell for a lift drawn on its own floor: `[<marker><id>]`
/// with the doors closed, `]<marker><id>[` with them open.
pub open spec fn lift_cell_text(l: Lift) -> Seq<char> {
    if l.doors_open {
        "]"@ + marker_text(l) + l.id@ + "["@
    } else {
        "["@ + marker_text(l) + l.id@ + "]"@
    }
}

/// The direction a lift with a pending request moves: `UP` when its floor
/// is at or below the oldest request, `DOWN` otherwise.
pub open spec fn direction_of(l: Lift) -> i32 {
    if l.floor <= l.requests@[0] {
        UP
    } else {
        DOWN
    }
}

/// The lift one tick later: unchanged when no request is pending, else one
/// floor toward the oldest pending request. Requests are not consumed on
/// arrival; the queue is left exactly as it was.
pub open spec fn moved(l: Lift) -> Lift {
    if l.requests@.len() == 0 {
        l
    } else if l.floor <= l.requests@[0] {
        Lift { floor: (l.floor + 1) as i32, ..l }
    } else {
        Lift { floor: (l.floor - 1) as i32, ..l }
    }
}

/// A lift's one-floor step stays inside the machine range of a floor
/// number; trivially true whenever no request is pending.
pub open spec fn can_step(l: Lift) -> bool {
    l.requests@.len() > 0 ==> i32::MIN < l.floor < i32::MAX
}

impl Lift {
    /// True when some pending request of this lift names floor `f`.
    pub fn contains_request(&self, f: i32) -> (r: bool)
        ensures
            r == has_request_at(*self, f as int),
    {
        let mut i: usize = 0;
        while i < self.requests.len()
            invariant
                i <= self.requests@.len(),
                forall|j: int| 0 <= j < i ==> self.requests@[j] != f,
            decreases self.requests@.len() - i,
        {
            if self.requests[i] == f {
                return true;
            }
            i += 1;
        }
        false
    }

    /// The marker for this lift's own cell: `"*"` when a pending request
    /// names the lift's current floor, the empty string otherwise.
    pub fn has_request_on_floor(&self) -> (r: String)
        ensures
            r@ == marker_text(*self),
    {
        if self.contains_request(self.floor) {
            String::from_str("*")
        } else {
            String::new()
        }
    }

    /// The cell drawn for this lift on its own floor: the id and request
    /// marker between `[` `]` when the doors are closed, between `]` `[`
    /// when they are open.
    pub fn print_lift(&self) -> (r: String)
        ensures
            r@ == lift_cell_text(*self),
    {
        let m = self.has_request_on_floor();
        let mut r = String::new();
        if self.doors_open {
            r.append("]");
            r.append(m.as_str());
            r.append(self.id.as_str());
            r.append("[");
        } else {
            r.append("[");
            r.append(m.as_str());
            r.append(self.id.as_str());
            r.append("]");
        }
        proof {
            assert(r@ =~= lift_cell_text(*self));
        }
        r
    }

    /// The direction of the next move, inferred from the oldest pending
    /// request: `UP` when the current floor is at or below it (a tie counts
    /// as `UP`), `DOWN` otherwise. Asking a lift with an empty queue for a
    /// direction is a caller error, so a pending request is required.
    pub fn direction(&self) -> (d: i32)
        requires
            self.requests@.len() > 0,
        ensures
            d == direction_of(*self),
            d == UP <==> self.floor <= self.requests@[0],
            d == DOWN <==> self.floor > self.requests@[0],
    {
        let mut d = UP;
        if self.floor > self.requests[0] {
            d = DOWN;
        }
        d
    }

    /// Appends `req` to the tail of the request queue. Append-only: the
    /// queue grows by exactly one, the existing entries keep their order,
    /// and the new value is the last element. No other field changes.
    pub fn push_request(&mut self, req: i32)
        ensures
            final(self).requests@ == old(self).requests@.push(req),
            final(self).requests@.len() == old(self).requests@.len() + 1,
            forall|j: int|
                0 <= j < old(self).requests@.len() ==> final(self).requests@[j] == old(
                    self,
                ).requests@[j],
            final(self).requests@[final(self).requests@.len() - 1] == req,
            final(self).id == old(self).id,
            final(self).floor == old(self).floor,
            final(self).doors_open == old(self).doors_open,
    {
        self.requests.push(req);
    }

    /// One tick of movement: with an empty queue the lift stays put; with a
    /// pending request it moves exactly one floor toward the oldest one
    /// (`+1` for `UP`, `-1` for `DOWN`). The queue itself is untouched:
    /// requests are not consumed on arrival.
    pub fn make_move(&mut self)
        requires
            can_step(*old(self)),
        ensures
            *final(self) == moved(*old(self)),
            old(self).requests@.len() == 0 ==> *final(self) == *old(self),
            old(self).requests@.len() > 0 ==> (final(self).floor == old(self).floor + 1
                || final(self).floor == old(self).floor - 1),
            final(self).requests@ == old(self).requests@,
            final(self).id == old(self).id,
            final(self).doors_open == old(self).doors_open,
    {
        if self.requests.len() == 0 {
            return ;
        }
        if self.direction() == UP {
            self.floor = self.floor + 1;
        } else {
            self.floor = self.floor - 1;
        }
    }
}

} // verus!
