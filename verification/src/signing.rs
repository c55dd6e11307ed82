//! Assignment of a balanced transaction's inputs to signing groups.
//!
//! Input positions are significant: the assembler puts the operation's own
//! input first and the balancer appends fee inputs strictly after it, so the
//! group a key must authorize is a contiguous position range. Every input
//! position belongs to exactly one group before signing; for a take order the
//! group not listed here is the order cell's own, discharged by the swap
//! contract's unlocking logic rather than by a user signature.

use vstd::prelude::*;

use crate::script::Script;

verus! {

/// Which operation produced the balanced transaction.
#[derive(Clone, Copy, Debug, PartialEq, Eq, Structural)]
pub enum Operation {
    CreateOrder,
    TakeOrder,
}

/// The input positions one key must authorize, with the owning lock.
#[derive(Clone, Debug)]
pub struct ScriptGroup {
    pub lock: Script,
    pub positions: Vec<usize>,
}

/// The input positions the user's key must authorize in a balanced
/// transaction of `n_inputs` inputs: all of `[0, n)` for a create order,
/// whose consumed token cell and fee inputs are all the user's; `[1, n)` for
/// a take order, which excludes position 0, the order cell unlocked by the
/// swap contract itself.
pub open spec fn spec_user_positions(op: Operation, n_inputs: nat) -> Seq<usize> {
    match op {
        Operation::CreateOrder => Seq::new(n_inputs, |j: int| j as usize),
        Operation::TakeOrder => Seq::new((n_inputs - 1) as nat, |j: int| (j + 1) as usize),
    }
}

/// Lists the user's signing positions for the operation, in input order.
#[verifier::loop_isolation(false)]
pub fn user_signing_positions(op: Operation, n_inputs: usize) -> (r: Vec<usize>)
    requires
        op is TakeOrder ==> n_inputs >= 1,
    ensures
        r@ == spec_user_positions(op, n_inputs as nat),
{
    let start: usize = match op {
        Operation::CreateOrder => 0,
        Operation::TakeOrder => 1,
    };
    let mut out: Vec<usize> = Vec::new();
    proof {
        assert(out@ =~= Seq::new(0, |t: int| (t + start) as usize));
    }
    let mut j: usize = start;
    while j < n_inputs
        invariant
            start <= j <= n_inputs || (j == start && n_inputs < start),
            out@ == Seq::new((j - start) as nat, |t: int| (t + start) as usize),
        decreases n_inputs - j,
    {
        proof {
            assert(Seq::new((j + 1 - start) as nat, |t: int| (t + start) as usize) =~= Seq::new(
                (j - start) as nat,
                |t: int| (t + start) as usize,
            ).push(j));
        }
        out.push(j);
        j = j + 1;
    }
    proof {
        assert(out@ =~= spec_user_positions(op, n_inputs as nat));
    }
    out
}

/// Builds the user's script group: the change/user lock and the positions it
/// must authorize.
pub fn user_script_group(op: Operation, user_lock: Script, n_inputs: usize) -> (r: ScriptGroup)
    requires
        op is TakeOrder ==> n_inputs >= 1,
    ensures
        r.lock@ == user_lock@,
        r.positions@ == spec_user_positions(op, n_inputs as nat),
{
    ScriptGroup { lock: user_lock, positions: user_signing_positions(op, n_inputs) }
}

} // verus!
