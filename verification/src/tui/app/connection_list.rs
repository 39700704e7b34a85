//! The registry of connections and the one that is selected for display.

use vstd::arithmetic::div_mod::lemma_fundamental_div_mod;
use vstd::arithmetic::div_mod::lemma_fundamental_div_mod_converse;
use vstd::prelude::*;

verus! {

/// The selection once the list is known to hold `count` entries: a position
/// beyond the last entry becomes the last entry.
pub open spec fn clamped_selection(selected: Option<usize>, count: nat) -> Option<usize>
    recommends
        selected is Some ==> count > 0,
{
    match selected {
        Some(index) => if index >= count {
            Some((count - 1) as usize)
        } else {
            Some(index)
        },
        None => None,
    }
}

/// Whether a selection can be moved by `step` among `count` entries: with
/// nothing selected always; else there is an entry, and the count, the
/// position and the position moved by `step` are all within `i32`.
pub open spec fn can_step(selected: Option<usize>, count: nat, step: i32) -> bool {
    match selected {
        Some(index) => {
            &&& 0 < count <= i32::MAX
            &&& index <= i32::MAX
            &&& i32::MIN <= index + step <= i32::MAX
        },
        None => true,
    }
}

/// The selection moved by `step` among `count` entries, going round at both
/// ends. With nothing selected, a step forward selects the first entry and
/// any other step the last one, which is written as the largest position
/// until the list is next brought up to date.
pub open spec fn stepped_selection(selected: Option<usize>, count: nat, step: i32) -> Option<
    usize,
>
    recommends
        can_step(selected, count, step),
{
    match selected {
        Some(index) => Some(((index + step) % (count as int)) as usize),
        None => if step > 0 {
            Some(0)
        } else {
            Some(usize::MAX)
        },
    }
}

/// The connections in the order in which they were added, and the position
/// of the selected one. Entries are only ever added at the end, so a position
/// keeps naming the same connection.
pub struct ConnectionList<C> {
    pub connections: Vec<C>,
    pub selected: Option<usize>,
}

impl<C> ConnectionList<C> {
    /// An empty registry with nothing selected.
    pub fn new() -> (list: ConnectionList<C>)
        ensures
            list.connections@ == Seq::<C>::empty(),
            list.selected is None,
    {
        ConnectionList { connections: Vec::new(), selected: None }
    }

    /// Adds a connection at the end. The entries before it, and the
    /// selection, stay as they are.
    pub fn push(&mut self, connection: C)
        ensures
            final(self).connections@ == old(self).connections@.push(connection),
            final(self).selected == old(self).selected,
    {
        self.connections.push(connection);
    }

    /// Whether `update` can be called: a selection needs an entry to fall
    /// back on.
    pub fn can_update(&self) -> (ok: bool)
        ensures
            ok == (self.selected is Some ==> self.connections@.len() > 0),
    {
        self.selected.is_none() || self.connections.len() > 0
    }

    /// Brings the selection up to date with the number of connections.
    pub fn update(&mut self)
        requires
            old(self).selected is Some ==> old(self).connections@.len() > 0,
        ensures
            final(self).connections == old(self).connections,
            final(self).selected == clamped_selection(
                old(self).selected,
                old(self).connections@.len(),
            ),
    {
        let conn_len: usize = self.connections.len();
        if let Some(index) = self.selected {
            if index >= conn_len {
                self.selected = Some(conn_len - 1);
            }
        }
    }

    /// Whether the selection can be moved by `step`.
    pub fn can_iterate(&self, step: i32) -> (ok: bool)
        ensures
            ok == can_step(self.selected, self.connections@.len(), step),
    {
        match self.selected {
            None => true,
            Some(index) => {
                let count: usize = self.connections.len();
                if count == 0 || count > i32::MAX as usize || index > i32::MAX as usize {
                    false
                } else {
                    let moved: i64 = index as i64 + step as i64;
                    i32::MIN as i64 <= moved && moved <= i32::MAX as i64
                }
            },
        }
    }

    /// Moves the selection by `step`, going round at both ends.
    pub fn iterate_selected(&mut self, step: i32)
        requires
            can_step(old(self).selected, old(self).connections@.len(), step),
        ensures
            final(self).connections == old(self).connections,
            final(self).selected == stepped_selection(
                old(self).selected,
                old(self).connections@.len(),
                step,
            ),
    {
        match self.selected {
            None => {
                if step > 0 {
                    self.selected = Some(0);
                } else {
                    self.selected = Some(usize::MAX);
                }
            },
            Some(current_index) => {
                let conn_len: i32 = self.connections.len() as i32;
                let moved: i32 = current_index as i32 + step;
                let mut index: i32 = moved % conn_len;
                let ghost mut turns: int = 0;
                proof {
                    turns = lemma_truncated_remainder(moved as int, conn_len as int);
                }
                while index < 0
                    invariant
                        0 < conn_len,
                        -conn_len < index < conn_len,
                        moved == turns * conn_len + index,
                    decreases conn_len - index,
                {
                    proof {
                        assert((turns - 1) * conn_len == turns * conn_len - conn_len)
                            by (nonlinear_arith);
                        turns = turns - 1;
                    }
                    index = index + conn_len;
                }
                proof {
                    lemma_fundamental_div_mod_converse(
                        moved as int,
                        conn_len as int,
                        turns,
                        index as int,
                    );
                }
                self.selected = Some(index as usize);
            },
        }
    }
}

/// The remainder as `%` computes it on machine integers: it has the sign of
/// the number.
spec fn truncated_remainder(number: int, divisor: int) -> int {
    if number >= 0 {
        number % divisor
    } else {
        -((-number) % divisor)
    }
}

/// The remainder of `%` lies within one divisor of zero and differs from the
/// number by a multiple of the divisor; the result is that multiple's factor.
proof fn lemma_truncated_remainder(number: int, divisor: int) -> (turns: int)
    requires
        divisor > 0,
    ensures
        -divisor < truncated_remainder(number, divisor) < divisor,
        number == turns * divisor + truncated_remainder(number, divisor),
{
    if number >= 0 {
        lemma_fundamental_div_mod(number, divisor);
        number / divisor
    } else {
        lemma_fundamental_div_mod(-number, divisor);
        let quotient = (-number) / divisor;
        assert(-(divisor * quotient) == (-quotient) * divisor) by (nonlinear_arith);
        -quotient
    }
}

} // verus!
