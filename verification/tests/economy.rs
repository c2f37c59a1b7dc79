use cube_harvest::economy::{accrued_credits, consume_tick, earn_tick, sat_add, sat_sub};
use cube_harvest::model::{ClusterSnapshot, Node, UnitKind, Workload};
use cube_harvest::nav::GameState;

fn processor(name: &str, address: &str) -> Workload {
    Workload {
        name: name.to_string(),
        node_name: None,
        address: Some(address.to_string()),
        kind: UnitKind::Processor,
        target_address: None,
    }
}

fn miner(name: &str, target: &str) -> Workload {
    Workload {
        name: name.to_string(),
        node_name: None,
        address: None,
        kind: UnitKind::Miner,
        target_address: Some(target.to_string()),
    }
}

#[test]
fn no_workloads_accrue_nothing() {
    assert_eq!(accrued_credits(&vec![]), 0);
}

#[test]
fn each_matched_miner_contributes_one() {
    let ws = vec![
        processor("p1", "10.0.0.5"),
        miner("m1", "10.0.0.5"),
        miner("m2", "10.0.0.5"),
    ];
    assert_eq!(accrued_credits(&ws), 2);
}

#[test]
fn contribution_is_capped_at_three() {
    let ws = vec![
        processor("p1", "10.0.0.5"),
        miner("m1", "10.0.0.5"),
        miner("m2", "10.0.0.5"),
        miner("m3", "10.0.0.5"),
        miner("m4", "10.0.0.5"),
        miner("m5", "10.0.0.5"),
    ];
    assert_eq!(accrued_credits(&ws), 3);
}

#[test]
fn miners_without_a_matching_processor_earn_nothing() {
    let ws = vec![processor("p1", "10.0.0.5"), miner("m1", "10.0.0.9")];
    assert_eq!(accrued_credits(&ws), 0);
}

#[test]
fn a_processor_without_an_address_earns_nothing() {
    let ws = vec![
        Workload {
            name: "p1".to_string(),
            node_name: None,
            address: None,
            kind: UnitKind::Processor,
            target_address: None,
        },
        miner("m1", "10.0.0.5"),
    ];
    assert_eq!(accrued_credits(&ws), 0);
}

#[test]
fn unlabeled_workloads_do_not_mine() {
    let ws = vec![
        processor("p1", "10.0.0.5"),
        Workload {
            name: "u1".to_string(),
            node_name: None,
            address: None,
            kind: UnitKind::Unlabeled,
            target_address: Some("10.0.0.5".to_string()),
        },
    ];
    assert_eq!(accrued_credits(&ws), 0);
}

#[test]
fn two_processors_accrue_independently() {
    let ws = vec![
        processor("p1", "10.0.0.5"),
        processor("p2", "10.0.0.6"),
        miner("m1", "10.0.0.5"),
        miner("m2", "10.0.0.5"),
        miner("m3", "10.0.0.5"),
        miner("m4", "10.0.0.5"),
        miner("m5", "10.0.0.6"),
    ];
    assert_eq!(accrued_credits(&ws), 4);
}

#[test]
fn duplicate_processor_addresses_count_once() {
    let ws = vec![
        processor("p1", "10.0.0.5"),
        processor("p2", "10.0.0.5"),
        miner("m1", "10.0.0.5"),
        miner("m2", "10.0.0.5"),
    ];
    assert_eq!(accrued_credits(&ws), 2);
}

#[test]
fn accrual_and_consumption_scenario() {
    let workloads = vec![
        processor("p1", "10.0.0.5"),
        miner("m1", "10.0.0.5"),
        miner("m2", "10.0.0.5"),
    ];
    let nodes = vec![Node { name: "node-a".to_string() }, Node { name: "node-b".to_string() }];
    let snapshot = ClusterSnapshot::new(workloads, nodes);

    let mut state = GameState::new();
    state.credits = 10;
    earn_tick(&snapshot, &mut state);
    assert_eq!(state.credits, 12);
    consume_tick(&snapshot, &mut state);
    assert_eq!(state.credits, 9);
}

#[test]
fn consumption_saturates_at_zero() {
    let snapshot = ClusterSnapshot::new(
        vec![processor("p1", "10.0.0.5"), miner("m1", "10.0.0.5")],
        vec![],
    );
    let mut state = GameState::new();
    state.credits = 1;
    consume_tick(&snapshot, &mut state);
    assert_eq!(state.credits, 0);
    consume_tick(&snapshot, &mut state);
    assert_eq!(state.credits, 0);
}

#[test]
fn accrual_saturates_at_the_machine_limit() {
    let snapshot = ClusterSnapshot::new(
        vec![processor("p1", "10.0.0.5"), miner("m1", "10.0.0.5")],
        vec![],
    );
    let mut state = GameState::new();
    state.credits = usize::MAX - 1;
    earn_tick(&snapshot, &mut state);
    assert_eq!(state.credits, usize::MAX);
}

#[test]
fn saturating_helpers() {
    assert_eq!(sat_add(usize::MAX, 1), usize::MAX);
    assert_eq!(sat_add(2, 3), 5);
    assert_eq!(sat_sub(3, 5), 0);
    assert_eq!(sat_sub(5, 3), 2);
}
