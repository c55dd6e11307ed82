use lockswap::SwapError;
use lockswap::balancer::balance;
use lockswap::cells::Cell;
use lockswap::cells::CellDep;
use lockswap::cells::CellInput;
use lockswap::cells::CellOutput;
use lockswap::cells::DepKind;
use lockswap::cells::OutPoint;
use lockswap::cells::TxSkeleton;
use lockswap::script::Script;

fn change_lock() -> Script {
    // occupied minimum for this lock-only change cell:
    // (8 + 33 + 20) bytes at one coin each = 6_100_000_000
    Script { code_hash: vec![0x10; 32], hash_type: 1, args: vec![0x01; 20] }
}

fn feed_cell(tag: u8, capacity: u64) -> Cell {
    Cell {
        out_point: OutPoint { tx_hash: vec![tag; 32], index: tag as u32 },
        output: CellOutput { capacity, lock: change_lock(), type_script: None },
        data: Vec::new(),
    }
}

/// One dependency, one committed input, one output of `out_capacity` with a
/// two-byte lock argument and no payload. Under the size model this skeleton
/// is 232 bytes; with the placeholder change entry for `change_lock` (97
/// bytes) and `k` extra inputs the projected size is `329 + 44 k`.
fn skeleton(out_capacity: u64) -> TxSkeleton {
    TxSkeleton {
        cell_deps: vec![CellDep {
            out_point: OutPoint { tx_hash: vec![0x0F; 32], index: 0 },
            kind: DepKind::Group,
        }],
        inputs: vec![CellInput {
            previous_output: OutPoint { tx_hash: vec![0x44; 32], index: 5 },
            since: 0,
        }],
        outputs: vec![CellOutput {
            capacity: out_capacity,
            lock: Script { code_hash: vec![0x22; 32], hash_type: 1, args: vec![0xAA, 0xBB] },
            type_script: None,
        }],
        outputs_data: vec![Vec::new()],
    }
}

#[test]
fn balance_stops_at_first_sufficient_prefix() {
    // fee rate 0: balanced as soon as inputs cover the 7_000_000_000 output
    let feed = vec![
        feed_cell(1, 3_000_000_000),
        feed_cell(2, 5_000_000_000),
        feed_cell(3, 10_000_000_000),
    ];
    let tx = balance(skeleton(7_000_000_000), change_lock(), 0, 0, &feed).unwrap();
    // two candidates drawn, appended after the original input, in feed order
    assert_eq!(tx.inputs.len(), 3);
    assert_eq!(tx.inputs[0].previous_output.tx_hash, vec![0x44; 32]);
    assert_eq!(tx.inputs[1].previous_output.tx_hash, vec![1u8; 32]);
    assert_eq!(tx.inputs[2].previous_output.tx_hash, vec![2u8; 32]);
    // surplus 1_000_000_000 lies under the 6_100_000_000 minimum: no change
    assert_eq!(tx.outputs.len(), 1);
    assert_eq!(tx.outputs_data.len(), 1);
    assert_eq!(tx.cell_deps.len(), 1);
}

#[test]
fn balance_emits_change_above_minimum() {
    // fee rate 0, one 20-coin candidate against a 7-coin output
    let feed = vec![feed_cell(1, 20_000_000_000)];
    let tx = balance(skeleton(7_000_000_000), change_lock(), 0, 0, &feed).unwrap();
    assert_eq!(tx.inputs.len(), 2);
    assert_eq!(tx.outputs.len(), 2);
    let change = &tx.outputs[1];
    assert_eq!(change.capacity, 13_000_000_000);
    assert_eq!(change.lock.code_hash, vec![0x10; 32]);
    assert_eq!(change.lock.args, vec![0x01; 20]);
    assert!(change.type_script.is_none());
    assert!(tx.outputs_data[1].is_empty());
}

#[test]
fn balance_change_accounts_for_projected_fee() {
    // rate 10_000 per thousand bytes: fee is 10 units per modelled byte.
    // One extra input: projected size 329 + 44 = 373, fee 3_730.
    let feed = vec![feed_cell(1, 20_000_000_000)];
    let tx = balance(skeleton(1_000), change_lock(), 0, 10_000, &feed).unwrap();
    assert_eq!(tx.inputs.len(), 2);
    assert_eq!(tx.outputs.len(), 2);
    assert_eq!(tx.outputs[1].capacity, 20_000_000_000 - 1_000 - 3_730);
}

#[test]
fn balance_counts_committed_input_value() {
    // the committed input already covers everything: no candidate is drawn
    let feed = vec![feed_cell(1, 3_000_000_000)];
    let tx = balance(skeleton(7_000_000_000), change_lock(), 20_000_000_000, 0, &feed).unwrap();
    assert_eq!(tx.inputs.len(), 1);
    assert_eq!(tx.outputs.len(), 2);
    assert_eq!(tx.outputs[1].capacity, 13_000_000_000);
}

#[test]
fn balance_exhausts_insufficient_feed() {
    let feed = vec![feed_cell(1, 100), feed_cell(2, 200)];
    let r = balance(skeleton(10_000_000_000), change_lock(), 0, 0, &feed);
    assert_eq!(r.unwrap_err(), SwapError::InsufficientCapacity);
}

#[test]
fn balance_exhausts_empty_feed() {
    let feed: Vec<Cell> = Vec::new();
    let r = balance(skeleton(1_000), change_lock(), 0, 0, &feed);
    assert_eq!(r.unwrap_err(), SwapError::InsufficientCapacity);
}
