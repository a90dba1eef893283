//! The simulation container: the floor range, the fleet of lifts, the
//! pending hall calls, and the per-tick orchestration and snapshot.

use vstd::prelude::*;
use vstd::string::StringExecFns;
use crate::lift::Call;
use crate::lift::Lift;
use crate::lift::DOWN;
use crate::lift::UP;
use crate::lift::can_step;
use crate::lift::has_request_at;
use crate::lift::lift_cell_text;
use crate::lift::moved;
use crate::text::dec_int;
use crate::text::push_dec_i32;

verus! {

/// The whole building: the ordered floor labels (rendered highest first),
/// the lifts in display order, and the pending hall calls.
pub struct System {
    pub floors: Vec<i32>,
    pub lifts: Vec<Lift>,
    pub calls: Vec<Call>,
}

/// The three-character cell drawn for one lift on floor `f`: the bracketed
/// car when the lift stands there, a `*` marker when it merely has a
/// pending request for `f`, blank otherwise.
pub open spec fn cell_text(l: Lift, f: int) -> Seq<char> {
    if l.floor == f {
        lift_cell_text(l)
    } else if has_request_at(l, f) {
        " * "@
    } else {
        "   "@
    }
}

/// The three-character arrow for a call direction code; direction codes
/// other than `UP` and `DOWN` draw as blank.
pub open spec fn arrow_text(d: i32) -> Seq<char> {
    if d == UP {
        " ^ "@
    } else if d == DOWN {
        " v "@
    } else {
        "   "@
    }
}

/// The hall-call indicator for floor `f`: the arrow of the first call
/// pending at that floor, blank when none is.
pub open spec fn indicator_text(calls: Seq<Call>, f: int) -> Seq<char>
    decreases calls.len(),
{
    if calls.len() == 0 {
        "   "@
    } else if calls[0].floor == f {
        arrow_text(calls[0].direction)
    } else {
        indicator_text(calls.drop_first(), f)
    }
}

/// The cells of the first `n` lifts on floor `f`, in fleet order, each
/// followed by a space and the floor number.
pub open spec fn cells_text(lifts: Seq<Lift>, f: int, n: int) -> Seq<char>
    decreases n,
{
    if n <= 0 {
        Seq::<char>::empty()
    } else {
        cells_text(lifts, f, n - 1) + cell_text(lifts[n - 1], f) + " "@ + dec_int(f)
    }
}

/// One rendered line, for the floor at index `i`: its label, the hall-call
/// indicator, then one cell per lift.
pub open spec fn line_text(s: System, i: int) -> Seq<char> {
    dec_int(s.floors@[i] as int) + indicator_text(s.calls@, i) + cells_text(
        s.lifts@,
        i,
        s.lifts@.len() as int,
    )
}

/// The first `k` rendered lines, floors taken from the top down, each
/// ended by a newline.
pub open spec fn lines_text(s: System, k: int) -> Seq<char>
    decreases k,
{
    if k <= 0 {
        Seq::<char>::empty()
    } else {
        lines_text(s, k - 1) + line_text(s, s.floors@.len() - k) + "\n"@
    }
}

/// The full snapshot: one line per floor, highest floor first.
pub open spec fn render_text(s: System) -> Seq<char> {
    lines_text(s, s.floors@.len() as int)
}

/// Rendering is a pure function of the current state: equal states render
/// to identical text, so rendering twice without an intervening mutation
/// gives the same snapshot.
pub proof fn lemma_render_pure(s1: System, s2: System)
    requires
        s1 == s2,
    ensures
        render_text(s1) == render_text(s2),
{
}

impl System {
    /// The hall-call indicator for floor `f`: the arrow of the first call
    /// pending there (`" ^ "` up, `" v "` down, blank for any other
    /// direction code), or three blanks when no call names `f`.
    pub fn print_calls(&self, f: i32) -> (r: String)
        ensures
            r@ == indicator_text(self.calls@, f as int),
    {
        proof {
            assert(self.calls@.skip(0) =~= self.calls@);
        }
        let mut i: usize = 0;
        while i < self.calls.len()
            invariant
                i <= self.calls@.len(),
                indicator_text(self.calls@, f as int) == indicator_text(
                    self.calls@.skip(i as int),
                    f as int,
                ),
            decreases self.calls@.len() - i,
        {
            if self.calls[i].floor == f {
                let d = self.calls[i].direction;
                proof {
                    assert(self.calls@.skip(i as int)[0] == self.calls@[i as int]);
                }
                if d == UP {
                    return String::from_str(" ^ ");
                } else if d == DOWN {
                    return String::from_str(" v ");
                } else {
                    return String::from_str("   ");
                }
            }
            proof {
                assert(self.calls@.skip(i as int)[0] == self.calls@[i as int]);
                assert(self.calls@.skip(i as int).drop_first() =~= self.calls@.skip(i as int + 1));
            }
            i += 1;
        }
        String::from_str("   ")
    }

    /// The row of lift cells for floor `f`: for each lift in fleet order,
    /// its cell on that floor followed by a space and the floor number.
    pub fn print_lifts_for_floor(&self, f: i32) -> (r: String)
        ensures
            r@ == cells_text(self.lifts@, f as int, self.lifts@.len() as int),
    {
        let mut line = String::new();
        let mut i: usize = 0;
        while i < self.lifts.len()
            invariant
                i <= self.lifts@.len(),
                line@ == cells_text(self.lifts@, f as int, i as int),
            decreases self.lifts@.len() - i,
        {
            let l = &self.lifts[i];
            if l.floor == f {
                let cell = l.print_lift();
                line.append(cell.as_str());
            } else if l.contains_request(f) {
                line.append(" * ");
            } else {
                line.append("   ");
            }
            line.append(" ");
            push_dec_i32(&mut line, f);
            proof {
                assert(line@ =~= cells_text(self.lifts@, f as int, i as int + 1));
            }
            i += 1;
        }
        line
    }

    /// Moves every lift one step, in fleet order: each lift ends exactly
    /// as its own `make_move` leaves it, and the floors and calls are
    /// untouched.
    pub fn move_lifts(&mut self)
        requires
            forall|i: int|
                0 <= i < old(self).lifts@.len() ==> can_step(#[trigger] old(self).lifts@[i]),
        ensures
            final(self).lifts@.len() == old(self).lifts@.len(),
            forall|i: int|
                0 <= i < old(self).lifts@.len() ==> final(self).lifts@[i] == moved(
                    #[trigger] old(self).lifts@[i],
                ),
            final(self).floors == old(self).floors,
            final(self).calls == old(self).calls,
    {
        let n = self.lifts.len();
        let mut i: usize = 0;
        while i < n
            invariant
                n == self.lifts@.len(),
                n == old(self).lifts@.len(),
                i <= n,
                forall|j: int| 0 <= j < i ==> self.lifts@[j] == moved(#[trigger] old(self).lifts@[j]),
                forall|j: int| i <= j < n ==> self.lifts@[j] == #[trigger] old(self).lifts@[j],
                forall|j: int|
                    0 <= j < old(self).lifts@.len() ==> can_step(#[trigger] old(self).lifts@[j]),
                self.floors == old(self).floors,
                self.calls == old(self).calls,
            decreases n - i,
        {
            proof {
                assert(self.lifts@[i as int] == old(self).lifts@[i as int]);
                assert(can_step(self.lifts@[i as int]));
            }
            self.lifts[i].make_move();
            i += 1;
        }
    }

    /// Renders the whole building: one line per floor, highest floor
    /// first, each line holding the floor label, the hall-call indicator,
    /// and one cell per lift. A pure read of the current state.
    pub fn render(&self) -> (r: String)
        requires
            self.floors@.len() <= i32::MAX as int,
        ensures
            r@ == render_text(*self),
    {
        let mut out = String::new();
        let n = self.floors.len();
        let mut k: usize = 0;
        while k < n
            invariant
                n == self.floors@.len(),
                n <= i32::MAX as int,
                k <= n,
                out@ == lines_text(*self, k as int),
            decreases n - k,
        {
            let idx = n - 1 - k;
            push_dec_i32(&mut out, self.floors[idx]);
            let ind = self.print_calls(idx as i32);
            out.append(ind.as_str());
            let cells = self.print_lifts_for_floor(idx as i32);
            out.append(cells.as_str());
            out.append("\n");
            proof {
                assert(out@ =~= lines_text(*self, k as int + 1));
            }
            k += 1;
        }
        out
    }

    /// One simulation step: every lift moves one step, then the updated
    /// building is rendered and the snapshot returned for display.
    pub fn tick(&mut self) -> (out: String)
        requires
            forall|i: int|
                0 <= i < old(self).lifts@.len() ==> can_step(#[trigger] old(self).lifts@[i]),
            old(self).floors@.len() <= i32::MAX as int,
        ensures
            final(self).lifts@.len() == old(self).lifts@.len(),
            forall|i: int|
                0 <= i < old(self).lifts@.len() ==> final(self).lifts@[i] == moved(
                    #[trigger] old(self).lifts@[i],
                ),
            final(self).floors == old(self).floors,
            final(self).calls == old(self).calls,
            out@ == render_text(*final(self)),
    {
        self.move_lifts();
        self.render()
    }
}

} // verus!
