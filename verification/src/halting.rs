//! Why a run that ends at all ends within 65536 turns of the loop.
//!
//! No instruction writes to memory and none branches, so the path that the
//! program counter takes is fixed by memory and by where it starts. The
//! counter has 65536 values: after that many turns it has been somewhere
//! twice, and from then on the loop only revisits addresses at which it
//! did not end before.

use crate::machine::{lemma_after_keeps_memory, lemma_turns, Machine};
use vstd::prelude::*;
use vstd::relations::injective_on;
use vstd::set_lib::{lemma_int_range, lemma_len_subset, lemma_map_size, set_int_range};

verus! {

/// The number of turns within which a loop that ends at all has met its
/// last instruction: one for each value of the program counter.
pub const TURN_LIMIT: u32 = 0x1_0000;

/// Where the program counter goes next, and whether the loop ends here,
/// depends on memory and the program counter alone.
pub proof fn lemma_control_flow(s: Machine, t: Machine)
    requires
        s.mem == t.mem,
        s.pc == t.pc,
    ensures
        s.step().pc == t.step().pc,
        s.step().mem == t.step().mem,
        s.stops() == t.stops(),
{
}

/// Two machines with the same memory and the same program counter follow
/// the same path, whatever their registers hold.
pub proof fn lemma_control_flow_after(s: Machine, t: Machine, n: nat)
    requires
        s.mem == t.mem,
        s.pc == t.pc,
    ensures
        s.after(n).pc == t.after(n).pc,
        s.after(n).mem == t.after(n).mem,
        s.after(n).stops() == t.after(n).stops(),
    decreases n,
{
    if n > 0 {
        lemma_control_flow_after(s, t, (n - 1) as nat);
        lemma_control_flow(s.after((n - 1) as nat), t.after((n - 1) as nat));
    }
    lemma_control_flow(s.after(n), t.after(n));
}

/// Making `i` turns and then `k` more is making `i + k` turns.
pub proof fn lemma_after_after(s: Machine, i: nat, k: nat)
    ensures
        s.after(i + k) == s.after(i).after(k),
    decreases k,
{
    if k > 0 {
        lemma_after_after(s, i, (k - 1) as nat);
    }
}

/// Once the program counter has had the same value at turns `i` and `j`,
/// every later turn repeats one before `j`.
proof fn lemma_fold_back(s: Machine, i: nat, j: nat, n: nat) -> (m: nat)
    requires
        i < j,
        s.after(i).pc == s.after(j).pc,
    ensures
        m < j,
        s.after(n).pc == s.after(m).pc,
        s.after(n).stops() == s.after(m).stops(),
    decreases n,
{
    if n < j {
        n
    } else {
        let k = (n - j) as nat;
        lemma_after_after(s, j, k);
        lemma_after_after(s, i, k);
        lemma_after_keeps_memory(s, i);
        lemma_after_keeps_memory(s, j);
        lemma_control_flow_after(s.after(j), s.after(i), k);
        lemma_fold_back(s, i, j, i + k)
    }
}

/// Among the first 65537 values of the program counter two are equal.
proof fn lemma_pc_repeats(s: Machine) -> (turns: (nat, nat))
    ensures
        turns.0 < turns.1 <= TURN_LIMIT,
        s.after(turns.0).pc == s.after(turns.1).pc,
{
    let pc_at = |k: int| s.after(k as nat).pc as int;
    let turns = set_int_range(0, TURN_LIMIT + 1);
    let addresses = set_int_range(0, TURN_LIMIT as int);
    lemma_int_range(0, TURN_LIMIT + 1);
    lemma_int_range(0, TURN_LIMIT as int);
    if injective_on(pc_at, turns) {
        lemma_map_size(turns, turns.map(pc_at), pc_at);
        assert(turns.map(pc_at).subset_of(addresses));
        lemma_len_subset(turns.map(pc_at), addresses);
        assert(false);
    }
    let (a, b) = choose|a: int, b: int|
        turns.contains(a) && turns.contains(b) && #[trigger] pc_at(a) == #[trigger] pc_at(b) && a
            != b;
    if a < b {
        (a as nat, b as nat)
    } else {
        (b as nat, a as nat)
    }
}

/// If the loop ends at some turn, it ends at one of the first 65536.
pub proof fn lemma_stops_within_limit(s: Machine, n: nat) -> (m: nat)
    requires
        s.after(n).stops(),
    ensures
        m < TURN_LIMIT,
        s.after(m).stops(),
{
    let (i, j) = lemma_pc_repeats(s);
    lemma_fold_back(s, i, j, n)
}

/// A loop that comes to an end makes fewer than 65536 turns before its
/// last.
pub proof fn lemma_turns_bounded(s: Machine)
    requires
        s.terminates(),
    ensures
        s.turns() < TURN_LIMIT,
{
    lemma_turns(s);
    let m = lemma_stops_within_limit(s, s.turns());
    if m < s.turns() {
        assert(!s.after(m).stops());
    }
}

} // verus!
