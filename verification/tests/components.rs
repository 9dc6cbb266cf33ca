use init_token::gate::GateState;
use init_token::gate::InitGate;
use init_token::storage::StorageCell;

#[test]
fn gate_claim_is_won_exactly_once() {
    let mut gate = InitGate::new();
    assert!(matches!(gate.state(), GateState::Uninitialized));
    assert!(gate.try_claim());
    assert!(matches!(gate.state(), GateState::Initializing));
    // The second claimant loses and the state is unchanged.
    assert!(!gate.try_claim());
    assert!(matches!(gate.state(), GateState::Initializing));
}

#[test]
fn gate_completion_is_terminal() {
    let mut gate = InitGate::new();
    assert!(gate.try_claim());
    gate.complete();
    assert!(gate.is_initialized());
    assert!(!gate.try_claim());
    assert!(matches!(gate.state(), GateState::Initialized));
}

#[test]
fn gate_poisoning_is_terminal() {
    let mut gate = InitGate::new();
    assert!(gate.try_claim());
    gate.poison();
    assert!(matches!(gate.state(), GateState::Poisoned));
    assert!(!gate.is_initialized());
    assert!(!gate.try_claim());
    assert!(matches!(gate.state(), GateState::Poisoned));
}

#[test]
fn storage_cell_holds_and_updates_value() {
    let mut cell = StorageCell::new(5u64);
    assert_eq!(*cell.get(), 5);
    cell.write(9);
    assert_eq!(*cell.get(), 9);
    let inner = cell.get_mut();
    *inner = 11;
    assert_eq!(*cell.get(), 11);
}
