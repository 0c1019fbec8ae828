//! The shape of a single-instruction test vector, and the state
//! comparison that anchors the core's observable semantics.
//!
//! Two sparse RAM states count as equal when, sorted, they hold the same
//! `(address, byte)` pairs — that is, when the pair lists are equal as
//! multisets.

use vstd::prelude::*;

use vstd::multiset::Multiset;
use vstd::relations::{sorted_by, total_ordering};
use vstd::seq_lib::lemma_sorted_unique;

use crate::cpu::IC6502;
use crate::ram::{full_address_set, sparse_mem};
use crate::semantics::spec_step;

verus! {

broadcast use
    vstd::seq_lib::group_to_multiset_ensures,
    vstd::multiset::group_multiset_axioms,
;

/// One single-instruction test vector: a name, the machine state to start
/// from, the state expected after exactly one `step`, and the
/// cycle-by-cycle bus activity (of which only the length — the expected
/// cycle count — is meaningful to the core).
pub struct TestCase<T> {
    pub name: String,
    pub initial: State<T>,
    pub target: State<T>,
    pub cycles: Vec<(u16, u8, String)>,
}

/// A machine state: the CPU registers and a sparse RAM given as
/// `(address, byte)` pairs.
pub struct State<T> {
    pub cpu: T,
    pub ram: Vec<(u16, u8)>,
}

/// The order the RAM comparison sorts by: address first, then byte.
pub open spec fn pair_le(p: (u16, u8), q: (u16, u8)) -> bool {
    p.0 < q.0 || (p.0 == q.0 && p.1 <= q.1)
}

/// `pair_le` as a first-class order, so that every mention is one term.
pub open spec fn pair_order() -> spec_fn((u16, u8), (u16, u8)) -> bool {
    |p: (u16, u8), q: (u16, u8)| pair_le(p, q)
}

/// `pair_le` is a total order on pairs.
proof fn lemma_pair_le_total()
    ensures
        total_ordering(pair_order()),
{
    let leq = pair_order();
    assert forall|x: (u16, u8), y: (u16, u8)| #[trigger] leq(x, y) && leq(y, x) implies x == y by {
        assert(x.0 == y.0 && x.1 == y.1);
    }
}

/// A copy of `v` sorted by address then byte: selection of the least
/// remaining pair, one at a time.
fn sorted_copy(v: &Vec<(u16, u8)>) -> (out: Vec<(u16, u8)>)
    ensures
        out@.to_multiset() == v@.to_multiset(),
        sorted_by(out@, pair_order()),
{
    let mut rest: Vec<(u16, u8)> = Vec::new();
    let mut i: usize = 0;
    while i < v.len()
        invariant
            i <= v@.len(),
            rest@ == v@.take(i as int),
        decreases v@.len() - i,
    {
        let (entry_addr, entry_byte) = v[i];
        rest.push((entry_addr, entry_byte));
        proof {
            assert(rest@ =~= v@.take(i as int + 1));
        }
        i += 1;
    }
    proof {
        assert(v@.take(v@.len() as int) =~= v@);
    }
    let mut out: Vec<(u16, u8)> = Vec::new();
    proof {
        assert(out@.to_multiset().add(rest@.to_multiset()) =~= v@.to_multiset());
    }
    while rest.len() > 0
        invariant
            out@.to_multiset().add(rest@.to_multiset()) == v@.to_multiset(),
            sorted_by(out@, pair_order()),
            forall|a: int, b: int|
                0 <= a < out@.len() && 0 <= b < rest@.len() ==> pair_le(
                    #[trigger] out@[a],
                    #[trigger] rest@[b],
                ),
        decreases rest@.len(),
    {
        let mut m: usize = 0;
        let mut k: usize = 1;
        while k < rest.len()
            invariant
                m < k,
                k <= rest@.len(),
                rest@.len() > 0,
                forall|t: int| 0 <= t < k ==> pair_le(rest@[m as int], #[trigger] rest@[t]),
            decreases rest@.len() - k,
        {
            let (min_addr, min_byte) = rest[m];
            let (cur_addr, cur_byte) = rest[k];
            if cur_addr < min_addr || (cur_addr == min_addr && cur_byte < min_byte) {
                m = k;
            }
            k += 1;
        }
        let ghost old_out = out@;
        let ghost old_rest = rest@;
        let x = rest.remove(m);
        out.push(x);
        proof {
            assert(old_rest[m as int] == x);
            assert(old_rest.contains(x));
            assert(old_rest.to_multiset().count(x) > 0);
            assert(out@.to_multiset() =~= old_out.to_multiset().insert(x));
            assert(rest@.to_multiset() =~= old_rest.to_multiset().remove(x));
            assert(out@.to_multiset().add(rest@.to_multiset()) =~= old_out.to_multiset().add(
                old_rest.to_multiset(),
            ));
            assert forall|a: int, b: int|
                0 <= a < out@.len() && 0 <= b < rest@.len() implies pair_le(
                #[trigger] out@[a],
                #[trigger] rest@[b],
            ) by {
                assert(rest@[b] == if b < m { old_rest[b] } else { old_rest[b + 1] });
                if a < out@.len() - 1 {
                    assert(out@[a] == old_out[a]);
                } else {
                    assert(out@[a] == x);
                }
            }
            assert(sorted_by(out@, pair_order())) by {
                assert forall|a: int, b: int| 0 <= a < b < out@.len() implies #[trigger] pair_order()(
                    out@[a],
                    out@[b],
                ) by {
                    if b < out@.len() - 1 {
                        assert(pair_order()(old_out[a], old_out[b]));
                    } else {
                        assert(out@[b] == x);
                        assert(pair_le(old_out[a], x));
                    }
                }
            }
        }
    }
    proof {
        assert(rest@.to_multiset() =~= Multiset::<(u16, u8)>::empty());
        assert(out@.to_multiset() =~= out@.to_multiset().add(rest@.to_multiset()));
    }
    out
}

/// Whether two sparse RAM states are equal: sorted by address and byte,
/// they hold the same pairs — equality of the pair multisets.
pub fn ram_states_equal(a: &Vec<(u16, u8)>, b: &Vec<(u16, u8)>) -> (r: bool)
    ensures
        r == (a@.to_multiset() == b@.to_multiset()),
{
    let sa = sorted_copy(a);
    let sb = sorted_copy(b);
    if sa.len() != sb.len() {
        proof {
            if a@.to_multiset() == b@.to_multiset() {
                assert(sa@.to_multiset().len() == sb@.to_multiset().len());
                assert(false);
            }
        }
        return false;
    }
    let mut i: usize = 0;
    while i < sa.len()
        invariant
            sa@.len() == sb@.len(),
            i <= sa@.len(),
            forall|j: int| 0 <= j < i ==> sa@[j] == sb@[j],
            sa@.to_multiset() == a@.to_multiset(),
            sb@.to_multiset() == b@.to_multiset(),
            sorted_by(sa@, pair_order()),
            sorted_by(sb@, pair_order()),
        decreases sa@.len() - i,
    {
        let (addr_a, byte_a) = sa[i];
        let (addr_b, byte_b) = sb[i];
        if addr_a != addr_b || byte_a != byte_b {
            proof {
                if a@.to_multiset() == b@.to_multiset() {
                    lemma_pair_le_total();
                    lemma_sorted_unique(sa@, sb@, pair_order());
                    assert(false);
                }
            }
            return false;
        }
        i += 1;
    }
    proof {
        assert(sa@ =~= sb@);
    }
    true
}

impl TestCase<IC6502> {
    /// Run the case's one `step` in place against the initial state, and
    /// compare what it left behind with the expected final state: the CPU
    /// registers bit for bit, the RAM as sorted pair lists.  The state
    /// left in `initial` is exactly the one `spec_step` gives, whether or
    /// not the instruction completed.
    pub fn run(&mut self) -> (r: bool)
        ensures
            ({
                let eff = spec_step(
                    old(self).initial.cpu,
                    sparse_mem(old(self).initial.ram@),
                    full_address_set(),
                );
                final(self).initial.cpu == eff.cpu && sparse_mem(final(self).initial.ram@)
                    == eff.mem
            }),
            final(self).name == old(self).name,
            final(self).target == old(self).target,
            final(self).cycles == old(self).cycles,
            r == (final(self).initial.cpu == old(self).target.cpu
                && final(self).initial.ram@.to_multiset()
                == old(self).target.ram@.to_multiset()),
    {
        let _ = self.initial.cpu.step(&mut self.initial.ram);
        let cpu_pass = self.initial.cpu == self.target.cpu;
        let ram_pass = ram_states_equal(&self.initial.ram, &self.target.ram);
        cpu_pass && ram_pass
    }
}

} // verus!
