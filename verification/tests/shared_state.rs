use cube_harvest::model::{ClusterSnapshot, Node, UnitKind, Workload};
use cube_harvest::nav::{GameStage, Input, NavigationMode, StageEffect};
use cube_harvest::store::SharedState;

fn node(name: &str) -> Node {
    Node { name: name.to_string() }
}

fn unit(name: &str, kind: UnitKind) -> Workload {
    Workload {
        name: name.to_string(),
        node_name: None,
        address: None,
        kind,
        target_address: None,
    }
}

fn snapshot_with_nodes(count: usize) -> ClusterSnapshot {
    let mut nodes = Vec::new();
    for i in 0..count {
        nodes.push(node(&format!("node-{i}")));
    }
    ClusterSnapshot::new(vec![], nodes)
}

#[test]
fn starts_in_the_main_menu_with_a_fresh_state() {
    let ctx = SharedState::new(snapshot_with_nodes(1));
    assert_eq!(ctx.stage, GameStage::MainMenu);
    assert_eq!(ctx.game.selected_node_index, 0);
    assert_eq!(ctx.game.navigation_mode, NavigationMode::Cluster);
    assert_eq!(ctx.game.credits, 0);
    assert_eq!(ctx.game.create_text_buf, "");
}

#[test]
fn store_snapshot_replaces_wholesale() {
    let mut ctx = SharedState::new(snapshot_with_nodes(1));
    ctx.store_snapshot(snapshot_with_nodes(4));
    assert_eq!(ctx.snapshot.nodes.len(), 4);
    assert_eq!(ctx.stage, GameStage::MainMenu);
}

#[test]
fn a_drained_batch_applies_in_receipt_order_and_the_last_wins() {
    let mut ctx = SharedState::new(snapshot_with_nodes(1));
    let batch = vec![snapshot_with_nodes(2), snapshot_with_nodes(5), snapshot_with_nodes(3)];
    ctx.apply_snapshots(batch);
    assert_eq!(ctx.snapshot.nodes.len(), 3);
}

#[test]
fn an_empty_batch_changes_nothing() {
    let mut ctx = SharedState::new(snapshot_with_nodes(2));
    ctx.apply_snapshots(vec![]);
    assert_eq!(ctx.snapshot.nodes.len(), 2);
}

#[test]
fn confirm_in_the_menu_starts_play_and_the_economy() {
    let mut ctx = SharedState::new(snapshot_with_nodes(1));
    let outcome = ctx.frame_with_id(Input::Confirm, 1);
    assert!(outcome.command.is_none());
    assert_eq!(outcome.effect, StageEffect::StartEconomy);
    assert_eq!(ctx.stage, GameStage::Playing);
}

#[test]
fn escape_in_the_menu_requests_exit() {
    let mut ctx = SharedState::new(snapshot_with_nodes(1));
    let outcome = ctx.frame_with_id(Input::Escape, 1);
    assert_eq!(outcome.effect, StageEffect::ExitRequested);
    assert_eq!(ctx.stage, GameStage::MainMenu);
}

#[test]
fn prices_track_the_live_unit_counts_every_frame() {
    let workloads = vec![
        unit("m1", UnitKind::Miner),
        unit("m2", UnitKind::Miner),
        unit("m3", UnitKind::Miner),
        unit("p1", UnitKind::Processor),
        unit("u1", UnitKind::Unlabeled),
    ];
    let mut ctx = SharedState::new(ClusterSnapshot::new(workloads, vec![node("n1")]));
    let outcome = ctx.frame_with_id(Input::Tick, 1);
    assert!(outcome.command.is_none());
    assert_eq!(ctx.game.miner_price, 3);
    assert_eq!(ctx.game.processor_price, 1);
}

#[test]
fn a_full_creation_flow_through_frames() {
    let workloads = vec![unit("p1", UnitKind::Processor)];
    let mut ctx = SharedState::new(ClusterSnapshot::new(workloads, vec![node("n1")]));
    ctx.game.credits = 2;

    assert_eq!(ctx.frame_with_id(Input::Confirm, 5).effect, StageEffect::StartEconomy);
    assert!(ctx.frame_with_id(Input::CreateKey, 5).command.is_none());
    assert!(ctx.frame_with_id(Input::ProcessorKey, 5).command.is_none());
    let outcome = ctx.frame_with_id(Input::Tick, 5);
    let d = outcome.command.expect("the processor creation should auto-confirm");
    assert_eq!(d.name, "processor-5");
    assert_eq!(d.unit_kind_label, "processor");
    assert_eq!(ctx.game.credits, 1);
    assert_eq!(ctx.game.navigation_mode, NavigationMode::Cluster);
}

#[test]
fn frame_draws_a_fresh_suffix_by_itself() {
    let mut ctx = SharedState::new(snapshot_with_nodes(1));
    ctx.game.credits = 1;
    ctx.frame_with_id(Input::Confirm, 0);
    ctx.frame_with_id(Input::CreateKey, 0);
    ctx.frame_with_id(Input::ProcessorKey, 0);
    let outcome = ctx.frame(Input::Tick);
    let d = outcome.command.expect("the processor creation should auto-confirm");
    assert!(d.name.starts_with("processor-"));
    assert_eq!(ctx.game.credits, 1);
}
