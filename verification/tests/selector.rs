use lockswap::SwapError;
use lockswap::cells::Cell;
use lockswap::cells::CellOutput;
use lockswap::cells::OutPoint;
use lockswap::script::Script;
use lockswap::selector::select;

fn plain_cell(tag: u8, capacity: u64) -> Cell {
    Cell {
        out_point: OutPoint { tx_hash: vec![tag; 32], index: tag as u32 },
        output: CellOutput {
            capacity,
            lock: Script { code_hash: vec![0x10; 32], hash_type: 1, args: vec![tag] },
            type_script: None,
        },
        data: Vec::new(),
    }
}

#[test]
fn select_returns_the_exact_cell() {
    let cells = vec![plain_cell(1, 100), plain_cell(2, 200), plain_cell(3, 300)];
    let picked = select(&cells, 1).unwrap();
    assert_eq!(picked.out_point.tx_hash, vec![2u8; 32]);
    assert_eq!(picked.out_point.index, 2);
    assert_eq!(picked.output.capacity, 200);
}

#[test]
fn select_first_and_last() {
    let cells = vec![plain_cell(1, 100), plain_cell(2, 200)];
    assert_eq!(select(&cells, 0).unwrap().output.capacity, 100);
    assert_eq!(select(&cells, 1).unwrap().output.capacity, 200);
}

#[test]
fn select_rejects_offset_at_length() {
    let cells = vec![plain_cell(1, 100), plain_cell(2, 200)];
    assert_eq!(select(&cells, 2).unwrap_err(), SwapError::OffsetOutOfRange);
    assert_eq!(select(&cells, 100).unwrap_err(), SwapError::OffsetOutOfRange);
}

#[test]
fn select_rejects_empty_list() {
    let cells: Vec<Cell> = Vec::new();
    assert_eq!(select(&cells, 0).unwrap_err(), SwapError::OffsetOutOfRange);
}
