use lockswap::script::Script;
use lockswap::signing::Operation;
use lockswap::signing::user_script_group;
use lockswap::signing::user_signing_positions;

fn user_lock() -> Script {
    Script { code_hash: vec![0x10; 32], hash_type: 1, args: vec![0x01; 20] }
}

#[test]
fn create_order_group_spans_all_inputs() {
    assert_eq!(user_signing_positions(Operation::CreateOrder, 3), vec![0, 1, 2]);
    assert_eq!(user_signing_positions(Operation::CreateOrder, 1), vec![0]);
    assert_eq!(user_signing_positions(Operation::CreateOrder, 0), Vec::<usize>::new());
}

#[test]
fn take_order_group_excludes_the_order_input() {
    // one original input and two fee inputs: the user signs exactly {1, 2}
    assert_eq!(user_signing_positions(Operation::TakeOrder, 3), vec![1, 2]);
    assert_eq!(user_signing_positions(Operation::TakeOrder, 1), Vec::<usize>::new());
}

#[test]
fn script_group_carries_the_user_lock() {
    let group = user_script_group(Operation::TakeOrder, user_lock(), 4);
    assert_eq!(group.positions, vec![1, 2, 3]);
    assert_eq!(group.lock.code_hash, vec![0x10; 32]);
    assert_eq!(group.lock.args, vec![0x01; 20]);
}
