//! The change/fee balancer: extends an assembled skeleton with exactly
//! enough additional native-coin input, drawn in order from a candidate
//! feed, to cover the declared outputs and the projected fee.
//!
//! Before consuming any candidate the balancer attempts to finalize: if the
//! input value known so far covers the outputs plus the fee projected for
//! the transaction as it would stand with one placeholder change entry, it
//! stops; a change output carries the whole surplus back to the change lock
//! when the surplus reaches the on-chain minimum for a lock-only cell, and
//! is omitted (the surplus overpaying the fee) below it. Otherwise the next
//! candidate becomes an input, appended strictly after the inputs already
//! present, and the check repeats. A feed that runs out first means the
//! change lock cannot fund the transaction.

use vstd::prelude::*;

use crate::SwapError;
use crate::assembler::spec_occupied_capacity;
use crate::bytes::copy_bytes_range;
use crate::cells::Cell;
use crate::cells::CellInput;
use crate::cells::CellInputModel;
use crate::cells::CellModel;
use crate::cells::CellOutput;
use crate::cells::CellOutputModel;
use crate::cells::OutPoint;
use crate::cells::OutPointModel;
use crate::cells::TxModel;
use crate::cells::TxSkeleton;
use crate::cells::lemma_map_values_push;
use crate::script::Script;
use crate::script::ScriptModel;

verus! {

/// Modelled size of the fixed transaction envelope, in bytes.
pub const TX_FIXED_SIZE: u64 = 72;

/// Modelled size of one dependency entry, in bytes.
pub const DEP_SIZE: u64 = 37;

/// Modelled size of one input entry, in bytes.
pub const INPUT_SIZE: u64 = 44;

/// The sum of a sequence of naturals.
pub open spec fn sum(s: Seq<nat>) -> nat
    decreases s.len(),
{
    if s.len() == 0 {
        0
    } else {
        sum(s.drop_last()) + s.last()
    }
}

pub proof fn lemma_sum_take_succ(s: Seq<nat>, i: int)
    requires
        0 <= i < s.len(),
    ensures
        sum(s.take(i + 1)) == sum(s.take(i)) + s[i],
{
    assert(s.take(i + 1).drop_last() =~= s.take(i));
}

pub proof fn lemma_sum_take_le(s: Seq<nat>, i: int)
    requires
        0 <= i <= s.len(),
    ensures
        sum(s.take(i)) <= sum(s),
    decreases s.len() - i,
{
    if i == s.len() {
        assert(s.take(i) =~= s);
    } else {
        lemma_sum_take_succ(s, i);
        lemma_sum_take_le(s, i + 1);
    }
}

/// Modelled serialized size of one script inside an output entry.
pub open spec fn spec_script_size(m: ScriptModel) -> nat {
    53 + m.args.len()
}

/// Modelled serialized size of one output entry.
pub open spec fn spec_output_size(o: CellOutputModel) -> nat {
    12 + spec_script_size(o.lock) + (match o.type_script {
        Some(t) => spec_script_size(t),
        None => 4nat,
    })
}

/// Modelled serialized size of one output-payload entry.
pub open spec fn spec_data_size(d: Seq<u8>) -> nat {
    8 + d.len()
}

/// Modelled serialized size of a whole skeleton.
pub open spec fn spec_tx_size(t: TxModel) -> nat {
    (TX_FIXED_SIZE as nat) + (DEP_SIZE as nat) * t.cell_deps.len() + (INPUT_SIZE as nat)
        * t.inputs.len() + sum(t.outputs.map_values(|o: CellOutputModel| spec_output_size(o)))
        + sum(t.outputs_data.map_values(|d: Seq<u8>| spec_data_size(d)))
}

/// The size one placeholder change entry adds: a lock-only output entry and
/// its empty payload entry.
pub open spec fn spec_change_entry_size(lock: ScriptModel) -> nat {
    12 + spec_script_size(lock) + 4 + 8
}

/// The projected fee for `size` modelled bytes at `rate` smallest units per
/// thousand bytes, rounded up.
pub open spec fn spec_fee(size: nat, rate: u64) -> nat {
    ((size * rate + 999) / 1000) as nat
}

/// The least capacity a lock-only change cell may carry on chain.
pub open spec fn spec_min_change(lock: ScriptModel) -> nat {
    spec_occupied_capacity(lock, None, 0)
}

/// Everything the balancing decision depends on: the skeleton as assembled,
/// the change lock, the committed inputs' known value, the fee rate, and the
/// candidate feed in indexer order.
#[verifier::ext_equal]
pub ghost struct BalanceQuery {
    pub tx: TxModel,
    pub change_lock: ScriptModel,
    pub known_value: nat,
    pub fee_rate: u64,
    pub feed: Seq<CellModel>,
}

/// Packs a balancing question from a call's arguments.
pub open spec fn spec_query(
    tx: TxModel,
    change_lock: ScriptModel,
    known_value: u64,
    fee_rate: u64,
    feed: Seq<CellModel>,
) -> BalanceQuery {
    BalanceQuery {
        tx,
        change_lock,
        known_value: known_value as nat,
        fee_rate,
        feed,
    }
}

/// The values of the cells in a feed.
pub open spec fn cell_models(cells: Seq<Cell>) -> Seq<CellModel> {
    cells.map_values(|c: Cell| c@)
}

/// The capacities the feed offers, in order.
pub open spec fn spec_feed_values(feed: Seq<CellModel>) -> Seq<nat> {
    feed.map_values(|c: CellModel| c.output.capacity as nat)
}

/// Total input value once the first `k` feed cells are consumed.
pub open spec fn spec_input_value_at(q: BalanceQuery, k: int) -> nat {
    q.known_value + sum(spec_feed_values(q.feed).take(k))
}

/// The declared outputs' total capacity.
pub open spec fn spec_outputs_value(t: TxModel) -> nat {
    sum(t.outputs.map_values(|o: CellOutputModel| o.capacity as nat))
}

/// The modelled size of the transaction once `k` feed cells are inputs and
/// the placeholder change entry stands.
pub open spec fn spec_size_at(q: BalanceQuery, k: int) -> nat {
    spec_tx_size(q.tx) + (INPUT_SIZE as nat) * (k as nat) + spec_change_entry_size(q.change_lock)
}

/// Whether the input value known after `k` feed cells covers the outputs
/// plus the fee projected for the transaction as it would then stand.
pub open spec fn spec_balanced_at(q: BalanceQuery, k: int) -> bool {
    spec_input_value_at(q, k) >= spec_outputs_value(q.tx) + spec_fee(
        spec_size_at(q, k),
        q.fee_rate,
    )
}

/// What the finalized transaction would have left over after outputs and fee
/// when stopping at `k`.
pub open spec fn spec_surplus(q: BalanceQuery, k: int) -> int {
    spec_input_value_at(q, k) - spec_outputs_value(q.tx) - spec_fee(
        spec_size_at(q, k),
        q.fee_rate,
    )
}

/// How many feed cells the balancer consumes: the least `k`, scanning from
/// the front, at which the transaction balances; `None` when no prefix of
/// the feed suffices.
pub open spec fn spec_stop(q: BalanceQuery, k: int) -> Option<int>
    decreases q.feed.len() - k,
{
    if k < 0 || k > q.feed.len() {
        None
    } else if spec_balanced_at(q, k) {
        Some(k)
    } else if k == q.feed.len() {
        None
    } else {
        spec_stop(q, k + 1)
    }
}

/// The inputs the consumed feed prefix becomes, in feed order.
pub open spec fn spec_feed_inputs(feed: Seq<CellModel>, k: int) -> Seq<CellInputModel> {
    Seq::new(
        k as nat,
        |j: int| CellInputModel { previous_output: feed[j].out_point, since: 0u64 },
    )
}

/// The change output the balancer emits for a surplus of `sur`.
pub open spec fn spec_change_output(lock: ScriptModel, sur: u64) -> CellOutputModel {
    CellOutputModel { capacity: sur, lock, type_script: None }
}

/// What a successfully balanced transaction looks like: the original
/// dependencies and outputs, the consumed feed prefix appended after the
/// original inputs, and the whole surplus returned as change when it reaches
/// the on-chain minimum, the change output omitted below it.
pub open spec fn spec_balance_ok(q: BalanceQuery, out: TxModel) -> bool {
    let k = spec_stop(q, 0).unwrap();
    let sur = spec_surplus(q, k);
    &&& out.wf()
    &&& out.cell_deps == q.tx.cell_deps
    &&& out.inputs == q.tx.inputs + spec_feed_inputs(q.feed, k)
    &&& sur >= 0
    &&& sur >= spec_min_change(q.change_lock) ==> out.outputs == q.tx.outputs.push(
        spec_change_output(q.change_lock, sur as u64),
    ) && out.outputs_data == q.tx.outputs_data.push(Seq::<u8>::empty())
    &&& sur < spec_min_change(q.change_lock) ==> out.outputs == q.tx.outputs && out.outputs_data
        == q.tx.outputs_data
}

proof fn lemma_stop_reaches(q: BalanceQuery, j: int, k: int)
    requires
        0 <= j <= k <= q.feed.len(),
        spec_balanced_at(q, k),
    ensures
        spec_stop(q, j) matches Some(m) && j <= m <= k && spec_balanced_at(q, m),
    decreases k - j,
{
    if !spec_balanced_at(q, j) {
        lemma_stop_reaches(q, j + 1, k);
    }
}

proof fn lemma_stop_none(q: BalanceQuery, j: int)
    requires
        0 <= j <= q.feed.len(),
        forall|k: int| j <= k <= q.feed.len() ==> !spec_balanced_at(q, k),
    ensures
        spec_stop(q, j) is None,
    decreases q.feed.len() - j,
{
    if j < q.feed.len() {
        lemma_stop_none(q, j + 1);
    }
}

/// Termination law: a feed one of whose prefixes covers the declared outputs
/// plus the projected fee makes the balancer finalize, at the first such
/// prefix.
pub proof fn lemma_balancer_termination(q: BalanceQuery, k: int)
    requires
        0 <= k <= q.feed.len(),
        spec_balanced_at(q, k),
    ensures
        spec_stop(q, 0) matches Some(m) && 0 <= m <= k && spec_balanced_at(q, m),
{
    lemma_stop_reaches(q, 0, k);
}

/// Value law of a finalized transaction: the consumed input value covers its
/// outputs plus the projected fee exactly when change is emitted, and covers
/// them with the sub-minimum surplus left to the fee when it is not.
pub proof fn lemma_balanced_totals(q: BalanceQuery, out: TxModel)
    requires
        spec_stop(q, 0) is Some,
        spec_balance_ok(q, out),
        spec_input_value_at(q, spec_stop(q, 0).unwrap()) <= u64::MAX,
    ensures
        ({
            let k = spec_stop(q, 0).unwrap();
            let sur = spec_surplus(q, k);
            let fee = spec_fee(spec_size_at(q, k), q.fee_rate);
            &&& spec_input_value_at(q, k) >= spec_outputs_value(out) + fee
            &&& sur >= spec_min_change(q.change_lock) ==> spec_input_value_at(q, k)
                == spec_outputs_value(out) + fee
            &&& sur < spec_min_change(q.change_lock) ==> spec_input_value_at(q, k)
                == spec_outputs_value(out) + fee + sur
        }),
{
    let k = spec_stop(q, 0).unwrap();
    let sur = spec_surplus(q, k);
    if sur >= spec_min_change(q.change_lock) {
        let vals = q.tx.outputs.map_values(|o: CellOutputModel| o.capacity as nat);
        let change = spec_change_output(q.change_lock, sur as u64);
        assert(out.outputs.map_values(|o: CellOutputModel| o.capacity as nat) =~= vals.push(
            change.capacity as nat,
        ));
        assert(vals.push(change.capacity as nat).drop_last() =~= vals);
    }
}

/// Exhaustion law: a feed no prefix of which ever covers outputs plus fee
/// leaves the balancer with nothing to finalize.
pub proof fn lemma_balancer_exhaustion(q: BalanceQuery)
    requires
        forall|k: int| 0 <= k <= q.feed.len() ==> !spec_balanced_at(q, k),
    ensures
        spec_stop(q, 0) is None,
{
    lemma_stop_none(q, 0);
}

/// Computes the modelled size of one output entry.
fn output_entry_size(o: &CellOutput) -> (r: u64)
    requires
        spec_output_size(o@) <= u64::MAX,
    ensures
        r as nat == spec_output_size(o@),
{
    let mut s: u64 = 12 + 53;
    s = s + o.lock.args.len() as u64;
    match &o.type_script {
        Some(t) => {
            s = s + 53 + t.args.len() as u64;
        },
        None => {
            s = s + 4;
        },
    }
    s
}

/// Computes the modelled size of a whole skeleton.
#[verifier::loop_isolation(false)]
fn tx_size(tx: &TxSkeleton) -> (r: u64)
    requires
        spec_tx_size(tx@) <= u64::MAX,
    ensures
        r as nat == spec_tx_size(tx@),
{
    let ghost osizes = tx@.outputs.map_values(|o: CellOutputModel| spec_output_size(o));
    let ghost dsizes = tx@.outputs_data.map_values(|d: Seq<u8>| spec_data_size(d));
    let mut size: u64 = TX_FIXED_SIZE;
    size = size + DEP_SIZE * (tx.cell_deps.len() as u64);
    size = size + INPUT_SIZE * (tx.inputs.len() as u64);
    proof {
        assert(osizes.take(0) =~= Seq::<nat>::empty());
    }
    let mut i: usize = 0;
    while i < tx.outputs.len()
        invariant
            i <= tx.outputs@.len(),
            size as nat == (TX_FIXED_SIZE as nat) + (DEP_SIZE as nat) * tx@.cell_deps.len() + (
            INPUT_SIZE as nat) * tx@.inputs.len() + sum(osizes.take(i as int)),
        decreases tx.outputs@.len() - i,
    {
        proof {
            lemma_sum_take_succ(osizes, i as int);
            lemma_sum_take_le(osizes, i as int + 1);
        }
        let entry: u64 = output_entry_size(&tx.outputs[i]);
        size = size + entry;
        i = i + 1;
    }
    proof {
        assert(osizes.take(tx.outputs@.len() as int) =~= osizes);
        assert(dsizes.take(0) =~= Seq::<nat>::empty());
    }
    let mut j: usize = 0;
    while j < tx.outputs_data.len()
        invariant
            j <= tx.outputs_data@.len(),
            size as nat == (TX_FIXED_SIZE as nat) + (DEP_SIZE as nat) * tx@.cell_deps.len() + (
            INPUT_SIZE as nat) * tx@.inputs.len() + sum(osizes) + sum(dsizes.take(j as int)),
        decreases tx.outputs_data@.len() - j,
    {
        proof {
            lemma_sum_take_succ(dsizes, j as int);
            lemma_sum_take_le(dsizes, j as int + 1);
        }
        let d = &tx.outputs_data[j];
        size = size + 8 + d.len() as u64;
        j = j + 1;
    }
    proof {
        assert(dsizes.take(tx.outputs_data@.len() as int) =~= dsizes);
    }
    size
}

/// Computes the declared outputs' total capacity.
#[verifier::loop_isolation(false)]
fn outputs_value(tx: &TxSkeleton) -> (r: u64)
    requires
        spec_outputs_value(tx@) <= u64::MAX,
    ensures
        r as nat == spec_outputs_value(tx@),
{
    let ghost vals = tx@.outputs.map_values(|o: CellOutputModel| o.capacity as nat);
    proof {
        assert(vals.take(0) =~= Seq::<nat>::empty());
    }
    let mut total: u64 = 0;
    let mut i: usize = 0;
    while i < tx.outputs.len()
        invariant
            i <= tx.outputs@.len(),
            total as nat == sum(vals.take(i as int)),
        decreases tx.outputs@.len() - i,
    {
        proof {
            lemma_sum_take_succ(vals, i as int);
            lemma_sum_take_le(vals, i as int + 1);
        }
        total = total + tx.outputs[i].capacity;
        i = i + 1;
    }
    proof {
        assert(vals.take(tx.outputs@.len() as int) =~= vals);
    }
    total
}

/// Balances the skeleton: draws candidates from the front of `feed` until
/// the known input value covers the declared outputs plus the projected fee
/// (with one placeholder change entry counted), then finalizes, emitting a
/// change output for the whole surplus when it reaches the on-chain minimum
/// and omitting it below that. Extra inputs are appended strictly after the
/// inputs already present. A feed that runs out first is insufficient.
#[verifier::loop_isolation(false)]
pub fn balance(
    tx: TxSkeleton,
    change_lock: Script,
    known_value: u64,
    fee_rate: u64,
    feed: &Vec<Cell>,
) -> (r: Result<TxSkeleton, SwapError>)
    requires
        tx@.wf(),
        change_lock@.wf(),
        spec_outputs_value(tx@) <= u64::MAX,
        spec_min_change(change_lock@) <= u64::MAX,
        spec_input_value_at(
            spec_query(tx@, change_lock@, known_value, fee_rate, cell_models(feed@)),
            feed@.len() as int,
        ) <= u64::MAX,
        spec_size_at(
            spec_query(tx@, change_lock@, known_value, fee_rate, cell_models(feed@)),
            feed@.len() as int,
        ) <= u64::MAX,
    ensures
        spec_stop(spec_query(tx@, change_lock@, known_value, fee_rate, cell_models(feed@)), 0)
            is Some ==> (r matches Ok(out) && spec_balance_ok(
            spec_query(tx@, change_lock@, known_value, fee_rate, cell_models(feed@)),
            out@,
        )),
        spec_stop(spec_query(tx@, change_lock@, known_value, fee_rate, cell_models(feed@)), 0)
            is None ==> r == Err::<TxSkeleton, _>(SwapError::InsufficientCapacity),
{
    let ghost q = spec_query(tx@, change_lock@, known_value, fee_rate, cell_models(feed@));
    let outputs_total: u64 = outputs_value(&tx);
    let base_size: u64 = tx_size(&tx);
    let change_entry: u64 = 12 + 53 + change_lock.args.len() as u64 + 4 + 8;
    let none_script: Option<Script> = None;
    let min_change: u64 = crate::assembler::occupied_capacity(&change_lock, &none_script, 0);
    let mut cur: TxSkeleton = tx;
    let mut total: u64 = known_value;
    let mut i: usize = 0;
    proof {
        assert(spec_feed_values(q.feed).take(0) =~= Seq::<nat>::empty());
        assert(spec_feed_inputs(q.feed, 0) =~= Seq::<CellInputModel>::empty());
        assert(cur@.inputs =~= tx@.inputs + spec_feed_inputs(q.feed, 0));
    }
    loop
        invariant
            i <= feed@.len(),
            cur@.cell_deps == tx@.cell_deps,
            cur@.outputs == tx@.outputs,
            cur@.outputs_data == tx@.outputs_data,
            cur@.inputs == tx@.inputs + spec_feed_inputs(q.feed, i as int),
            total as nat == spec_input_value_at(q, i as int),
            spec_stop(q, 0) == spec_stop(q, i as int),
        decreases feed@.len() - i,
    {
        let size_now: u64 = base_size + INPUT_SIZE * (i as u64) + change_entry;
        proof {
            assert((size_now as nat) * (fee_rate as nat) + 999 <= u128::MAX) by (nonlinear_arith)
                requires
                    size_now <= u64::MAX,
                    fee_rate <= u64::MAX,
            ;
        }
        let fee_raw: u128 = (size_now as u128) * (fee_rate as u128);
        let fee: u128 = (fee_raw + 999) / 1000;
        proof {
            assert(fee as nat == spec_fee(spec_size_at(q, i as int), q.fee_rate));
        }
        if (total as u128) >= (outputs_total as u128) + fee {
            proof {
                assert(spec_balanced_at(q, i as int));
                assert(spec_stop(q, i as int) == Some(i as int));
            }
            let surplus_wide: u128 = (total as u128) - (outputs_total as u128) - fee;
            let surplus: u64 = surplus_wide as u64;
            proof {
                assert(surplus as int == spec_surplus(q, i as int));
            }
            if surplus >= min_change {
                let change_out = CellOutput {
                    capacity: surplus,
                    lock: change_lock,
                    type_script: None,
                };
                let ghost change_spec = change_out;
                let empty_data: Vec<u8> = Vec::new();
                let ghost empty_spec = empty_data;
                let ghost outputs_before = cur.outputs@;
                let ghost data_before = cur.outputs_data@;
                cur.outputs.push(change_out);
                cur.outputs_data.push(empty_data);
                proof {
                    lemma_map_values_push(outputs_before, |o: CellOutput| o@, change_spec);
                    lemma_map_values_push(data_before, |d: Vec<u8>| d@, empty_spec);
                    assert(change_spec@ =~= spec_change_output(change_lock@, surplus));
                    assert(empty_spec@ =~= Seq::<u8>::empty());
                }
                return Ok(cur);
            } else {
                return Ok(cur);
            }
        }
        if i >= feed.len() {
            proof {
                assert(spec_stop(q, i as int) is None);
            }
            return Err(SwapError::InsufficientCapacity);
        }
        proof {
            assert(!spec_balanced_at(q, i as int));
            assert(spec_stop(q, i as int) == spec_stop(q, i as int + 1));
            lemma_sum_take_succ(spec_feed_values(q.feed), i as int);
            lemma_sum_take_le(spec_feed_values(q.feed), i as int + 1);
            assert(spec_feed_values(q.feed).take(q.feed.len() as int) =~= spec_feed_values(q.feed));
        }
        let c = &feed[i];
        let hash_len: usize = c.out_point.tx_hash.len();
        let tx_hash = copy_bytes_range(&c.out_point.tx_hash, 0, hash_len);
        proof {
            assert(c.out_point.tx_hash@.subrange(0, hash_len as int) =~= c.out_point.tx_hash@);
        }
        let new_input = CellInput {
            previous_output: OutPoint { tx_hash, index: c.out_point.index },
            since: 0,
        };
        let ghost new_input_spec = new_input;
        let ghost inputs_before = cur.inputs@;
        cur.inputs.push(new_input);
        proof {
            lemma_map_values_push(inputs_before, |x: CellInput| x@, new_input_spec);
            assert(new_input_spec@.previous_output =~= q.feed[i as int].out_point);
            assert(spec_feed_inputs(q.feed, i as int + 1) =~= spec_feed_inputs(
                q.feed,
                i as int,
            ).push(new_input_spec@));
            assert(tx@.inputs + spec_feed_inputs(q.feed, i as int + 1) =~= (tx@.inputs
                + spec_feed_inputs(q.feed, i as int)).push(new_input_spec@));
        }
        total = total + c.output.capacity;
        i = i + 1;
    }
}

} // verus!
