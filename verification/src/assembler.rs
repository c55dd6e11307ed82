//! Assembly of the unsigned create-order and take-order transaction skeletons.
//!
//! Both operations produce a skeleton whose native-coin balance is not yet
//! satisfied; the change balancer supplies whatever the consumed cell's own
//! capacity does not cover. Input order is significant: the operation's own
//! input stands first, and the balancer appends fee inputs strictly after it.

use vstd::prelude::*;

use crate::SwapError;
use crate::cells::Cell;
use crate::cells::CellDep;
use crate::cells::CellInput;
use crate::cells::CellInputModel;
use crate::cells::CellOutput;
use crate::cells::TxSkeleton;
use crate::cells::opt_script_model;
use crate::codec::append_le_bytes;
use crate::codec::decode_amount;
use crate::codec::decode_order;
use crate::codec::encode_order;
use crate::codec::le_bytes;
use crate::codec::spec_encode_order;
use crate::codec::spec_order_price;
use crate::codec::spec_token_amount;
use crate::script::Script;
use crate::script::ScriptModel;
use crate::script::parse_script;
use crate::script::serialize_script;
use crate::script::spec_parse_script;
use crate::script::spec_serialize_script;

verus! {

/// One native coin in the smallest on-chain unit.
pub const COIN_UNITS: u64 = 100_000_000;

/// The occupied on-chain capacity, in smallest units, of an output carrying
/// `data_len` payload bytes: the 8-byte capacity field, each script's 33
/// fixed bytes plus its arguments, and the payload, at the ledger's rate of
/// one coin per occupied byte.
pub open spec fn spec_occupied_capacity(
    lock: ScriptModel,
    type_script: Option<ScriptModel>,
    data_len: nat,
) -> nat {
    (8 + 33 + lock.args.len()
        + (match type_script {
            Some(t) => 33 + t.args.len(),
            None => 0nat,
        }) + data_len) * (COIN_UNITS as nat)
}

/// The order cell's owning lock: the swap contract parameterized with the
/// maker's serialized lock as its argument bytes.
pub open spec fn spec_order_lock(
    maker: ScriptModel,
    swap_code_hash: Seq<u8>,
    swap_hash_type: u8,
) -> ScriptModel {
    ScriptModel {
        code_hash: swap_code_hash,
        hash_type: swap_hash_type,
        args: spec_serialize_script(maker),
    }
}

/// Computes the exact-fit capacity of an output.
pub fn occupied_capacity(lock: &Script, type_script: &Option<Script>, data_len: usize) -> (r: u64)
    requires
        spec_occupied_capacity(lock@, opt_script_model(*type_script), data_len as nat) <= u64::MAX,
    ensures
        r as nat == spec_occupied_capacity(lock@, opt_script_model(*type_script), data_len as nat),
{
    proof {
        let total: nat = 8 + 33 + lock@.args.len()
            + (match opt_script_model(*type_script) {
                Some(t) => 33 + t.args.len(),
                None => 0nat,
            }) + data_len as nat;
        assert(total <= total * (COIN_UNITS as nat)) by (nonlinear_arith);
    }
    let mut total_bytes: u64 = 41 + lock.args.len() as u64;
    match type_script {
        Some(t) => {
            total_bytes = total_bytes + 33 + t.args.len() as u64;
        },
        None => {},
    }
    total_bytes = total_bytes + data_len as u64;
    total_bytes * COIN_UNITS
}

/// Converts a whole-coin amount into the smallest on-chain denomination,
/// refusing amounts whose conversion cannot be represented.
pub fn coins_to_units(coins: u64) -> (r: Option<u64>)
    ensures
        coins as nat * (COIN_UNITS as nat) <= u64::MAX ==> (r matches Some(v) && v as nat
            == coins as nat * (COIN_UNITS as nat)),
        coins as nat * (COIN_UNITS as nat) > u64::MAX ==> r is None,
{
    if coins <= u64::MAX / COIN_UNITS {
        proof {
            assert(coins as nat * (COIN_UNITS as nat) <= u64::MAX) by (nonlinear_arith)
                requires
                    coins <= u64::MAX / COIN_UNITS,
            ;
        }
        Some(coins * COIN_UNITS)
    } else {
        proof {
            assert(coins as nat * (COIN_UNITS as nat) > u64::MAX) by (nonlinear_arith)
                requires
                    coins > u64::MAX / COIN_UNITS,
            ;
        }
        None
    }
}

/// Builds the unsigned create-order skeleton: one input consuming the token
/// cell, one output holding the order under the swap-contract lock
/// parameterized with the maker's serialized lock, keeping the token-type
/// identifier, its payload the encoded `(amount, price)` pair, and its
/// capacity sized to exactly fit the 24-byte payload.
///
/// A token cell whose payload is shorter than the 16-byte amount field does
/// not match the expected contract and is rejected as malformed.
pub fn create_order(
    token_cell: Cell,
    maker_lock: Script,
    swap_code_hash: Vec<u8>,
    swap_hash_type: u8,
    sig_dep: CellDep,
    token_dep: CellDep,
    price: u64,
) -> (r: Result<TxSkeleton, SwapError>)
    requires
        maker_lock@.wf(),
        swap_code_hash@.len() == 32,
        spec_occupied_capacity(
            spec_order_lock(maker_lock@, swap_code_hash@, swap_hash_type),
            token_cell@.output.type_script,
            24,
        ) <= u64::MAX,
    ensures
        token_cell@.data.len() < 16 ==> r == Err::<TxSkeleton, _>(SwapError::MalformedPayload),
        token_cell@.data.len() >= 16 ==> (r matches Ok(out) && ({
            let lock = spec_order_lock(maker_lock@, swap_code_hash@, swap_hash_type);
            &&& out@.cell_deps == seq![sig_dep@, token_dep@]
            &&& out@.inputs == seq![
                (CellInputModel { previous_output: token_cell@.out_point, since: 0u64 }),
            ]
            &&& out@.outputs.len() == 1
            &&& out@.outputs_data.len() == 1
            &&& out@.outputs[0].lock == lock
            &&& out@.outputs[0].type_script == token_cell@.output.type_script
            &&& out@.outputs[0].capacity as nat == spec_occupied_capacity(
                lock,
                token_cell@.output.type_script,
                24,
            )
            &&& out@.outputs_data[0] == spec_encode_order(
                spec_token_amount(token_cell@.data),
                price,
            )
        })),
{
    let ghost cell_m = token_cell@;
    let ghost sig_m = sig_dep@;
    let ghost token_m = token_dep@;
    let ghost maker_m = maker_lock@;
    let ghost swap_hash_m = swap_code_hash@;
    let Cell { out_point, output, data } = token_cell;
    let amount: u128 = match decode_amount(&data) {
        Ok(v) => v,
        Err(e) => {
            return Err(e);
        },
    };
    let args = serialize_script(&maker_lock);
    let order_lock = Script { code_hash: swap_code_hash, hash_type: swap_hash_type, args };
    let CellOutput { capacity: _, lock: _, type_script } = output;
    let capacity = occupied_capacity(&order_lock, &type_script, 24);
    let payload = encode_order(amount, price);
    let out = TxSkeleton {
        cell_deps: vec![sig_dep, token_dep],
        inputs: vec![CellInput { previous_output: out_point, since: 0 }],
        outputs: vec![CellOutput { capacity, lock: order_lock, type_script }],
        outputs_data: vec![payload],
    };
    proof {
        assert(out@.cell_deps =~= seq![sig_m, token_m]);
        assert(out@.inputs =~= seq![
            (CellInputModel { previous_output: cell_m.out_point, since: 0u64 }),
        ]);
        assert(out@.outputs[0].lock =~= spec_order_lock(maker_m, swap_hash_m, swap_hash_type));
    }
    Ok(out)
}

/// Builds the unsigned take-order skeleton: one input consuming the order
/// cell; a first output settling the tokens to the taker under the kept
/// type identifier, sized to exactly fit the 16-byte amount; and a second
/// output paying the maker's recovered lock exactly the quoted price, with
/// no type identifier and an empty payload. The second output's capacity is
/// fixed: the balancer must not alter it.
///
/// An order cell whose payload is not 24 bytes, or whose lock argument bytes
/// cannot embed a maker lock, does not match the swap contract and is
/// rejected as malformed.
pub fn take_order(
    order_cell: Cell,
    taker_lock: Script,
    sig_dep: CellDep,
    token_dep: CellDep,
    swap_dep: CellDep,
) -> (r: Result<TxSkeleton, SwapError>)
    requires
        taker_lock@.wf(),
        spec_occupied_capacity(taker_lock@, order_cell@.output.type_script, 16) <= u64::MAX,
    ensures
        (order_cell@.data.len() != 24 || order_cell@.output.lock.args.len() < 33) ==> r
            == Err::<TxSkeleton, _>(SwapError::MalformedPayload),
        (order_cell@.data.len() == 24 && order_cell@.output.lock.args.len() >= 33) ==> (r matches
            Ok(out) && ({
            let amount = spec_token_amount(order_cell@.data);
            let price = spec_order_price(order_cell@.data);
            let maker = spec_parse_script(order_cell@.output.lock.args).unwrap();
            &&& out@.cell_deps == seq![sig_dep@, token_dep@, swap_dep@]
            &&& out@.inputs == seq![
                (CellInputModel { previous_output: order_cell@.out_point, since: 0u64 }),
            ]
            &&& out@.outputs.len() == 2
            &&& out@.outputs_data.len() == 2
            &&& out@.outputs[0].lock == taker_lock@
            &&& out@.outputs[0].type_script == order_cell@.output.type_script
            &&& out@.outputs[0].capacity as nat == spec_occupied_capacity(
                taker_lock@,
                order_cell@.output.type_script,
                16,
            )
            &&& out@.outputs_data[0] == le_bytes(amount as nat, 16)
            &&& out@.outputs[1].lock == maker
            &&& out@.outputs[1].type_script is None
            &&& out@.outputs[1].capacity == price
            &&& out@.outputs_data[1] == Seq::<u8>::empty()
        })),
{
    let ghost cell_m = order_cell@;
    let ghost sig_m = sig_dep@;
    let ghost token_m = token_dep@;
    let ghost swap_m = swap_dep@;
    let ghost taker_m = taker_lock@;
    let Cell { out_point, output, data } = order_cell;
    let (amount, price) = match decode_order(&data) {
        Ok(v) => v,
        Err(e) => {
            return Err(e);
        },
    };
    let CellOutput { capacity: _, lock: order_lock, type_script } = output;
    let maker_lock = match parse_script(&order_lock.args) {
        Ok(s) => s,
        Err(e) => {
            return Err(e);
        },
    };
    let cap0 = occupied_capacity(&taker_lock, &type_script, 16);
    let mut settled: Vec<u8> = Vec::new();
    append_le_bytes(&mut settled, amount, 16);
    proof {
        assert(Seq::<u8>::empty() + le_bytes(amount as nat, 16) =~= le_bytes(amount as nat, 16));
    }
    let pay = CellOutput { capacity: price, lock: maker_lock, type_script: None };
    let out = TxSkeleton {
        cell_deps: vec![sig_dep, token_dep, swap_dep],
        inputs: vec![CellInput { previous_output: out_point, since: 0 }],
        outputs: vec![CellOutput { capacity: cap0, lock: taker_lock, type_script }, pay],
        outputs_data: vec![settled, Vec::new()],
    };
    proof {
        assert(out@.cell_deps =~= seq![sig_m, token_m, swap_m]);
        assert(out@.inputs =~= seq![
            (CellInputModel { previous_output: cell_m.out_point, since: 0u64 }),
        ]);
    }
    Ok(out)
}

} // verus!
