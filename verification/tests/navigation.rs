use cube_harvest::nav::{
    clamp_selected, stage_step, GameStage, GameState, Input, NavigationMode, StageEffect,
};

fn playing_state() -> GameState {
    let mut s = GameState::new();
    s.miner_price = 0;
    s.processor_price = 0;
    s
}

fn step(s: &mut GameState, input: Input, node_count: usize) {
    let cmd = cube_harvest::nav::playing_frame(s, input, node_count, 0, 0, 7);
    assert!(cmd.is_none());
}

#[test]
fn selection_stays_in_range() {
    let mut s = playing_state();
    let inputs = [
        Input::Right,
        Input::Right,
        Input::Right,
        Input::Right,
        Input::Left,
        Input::Right,
        Input::Right,
        Input::Left,
        Input::Left,
        Input::Left,
        Input::Left,
        Input::Left,
        Input::Right,
    ];
    for input in inputs {
        step(&mut s, input, 3);
        assert!(s.selected_node_index < 3);
    }
}

#[test]
fn selection_clamps_to_last_node() {
    let mut s = playing_state();
    step(&mut s, Input::Right, 3);
    step(&mut s, Input::Right, 3);
    assert_eq!(s.selected_node_index, 2);
    step(&mut s, Input::Right, 3);
    assert_eq!(s.selected_node_index, 2);
}

#[test]
fn selection_saturates_at_zero() {
    let mut s = playing_state();
    step(&mut s, Input::Left, 3);
    assert_eq!(s.selected_node_index, 0);
}

#[test]
fn empty_cluster_pins_selection_to_zero() {
    let mut s = playing_state();
    step(&mut s, Input::Right, 0);
    assert_eq!(s.selected_node_index, 0);
    step(&mut s, Input::Left, 0);
    assert_eq!(s.selected_node_index, 0);
    step(&mut s, Input::Tick, 0);
    assert_eq!(s.selected_node_index, 0);
}

#[test]
fn shrinking_cluster_reclamps_selection() {
    let mut s = playing_state();
    step(&mut s, Input::Right, 5);
    step(&mut s, Input::Right, 5);
    step(&mut s, Input::Right, 5);
    assert_eq!(s.selected_node_index, 3);
    step(&mut s, Input::Tick, 2);
    assert_eq!(s.selected_node_index, 1);
}

#[test]
fn clamp_selected_policy() {
    assert_eq!(clamp_selected(5, 3), 2);
    assert_eq!(clamp_selected(1, 3), 1);
    assert_eq!(clamp_selected(0, 3), 0);
    assert_eq!(clamp_selected(7, 0), 0);
    assert_eq!(clamp_selected(0, 0), 0);
}

#[test]
fn confirm_enters_node_mode_and_escape_leaves() {
    let mut s = playing_state();
    step(&mut s, Input::Confirm, 1);
    assert_eq!(s.navigation_mode, NavigationMode::Node);
    step(&mut s, Input::Right, 1);
    assert_eq!(s.navigation_mode, NavigationMode::Node);
    step(&mut s, Input::Escape, 1);
    assert_eq!(s.navigation_mode, NavigationMode::Cluster);
}

#[test]
fn create_key_enters_create_mode_with_clean_slate() {
    let mut s = playing_state();
    s.create_text_buf = "stale".to_string();
    step(&mut s, Input::CreateKey, 1);
    assert_eq!(s.navigation_mode, NavigationMode::Create);
    assert!(s.create_target.is_none());
    assert_eq!(s.create_text_buf, "");
}

#[test]
fn escape_leaves_create_mode_before_a_kind_is_chosen() {
    let mut s = playing_state();
    step(&mut s, Input::CreateKey, 1);
    step(&mut s, Input::Escape, 1);
    assert_eq!(s.navigation_mode, NavigationMode::Cluster);
    assert!(s.create_target.is_none());
}

#[test]
fn typing_fills_buffer_and_backspace_edits_it() {
    let mut s = playing_state();
    step(&mut s, Input::CreateKey, 1);
    step(&mut s, Input::MinerKey, 1);
    assert_eq!(s.create_text_buf, "");
    step(&mut s, Input::Character('1'), 1);
    step(&mut s, Input::Character('9'), 1);
    step(&mut s, Input::Character('2'), 1);
    assert_eq!(s.create_text_buf, "192");
    step(&mut s, Input::Backspace, 1);
    assert_eq!(s.create_text_buf, "19");
}

#[test]
fn buffer_accepts_dots_and_rejects_other_characters() {
    let mut s = playing_state();
    step(&mut s, Input::CreateKey, 1);
    step(&mut s, Input::MinerKey, 1);
    step(&mut s, Input::Character('1'), 1);
    step(&mut s, Input::Character('.'), 1);
    step(&mut s, Input::Character('x'), 1);
    step(&mut s, Input::Character('2'), 1);
    assert_eq!(s.create_text_buf, "1.2");
}

#[test]
fn backspace_on_empty_buffer_is_a_no_op() {
    let mut s = playing_state();
    step(&mut s, Input::CreateKey, 1);
    step(&mut s, Input::MinerKey, 1);
    step(&mut s, Input::Backspace, 1);
    assert_eq!(s.create_text_buf, "");
}

#[test]
fn stage_machine_transitions() {
    assert_eq!(
        stage_step(GameStage::MainMenu, Input::Confirm),
        (GameStage::Playing, StageEffect::StartEconomy)
    );
    assert_eq!(
        stage_step(GameStage::MainMenu, Input::Escape),
        (GameStage::MainMenu, StageEffect::ExitRequested)
    );
    assert_eq!(
        stage_step(GameStage::MainMenu, Input::Tick),
        (GameStage::MainMenu, StageEffect::Nothing)
    );
    assert_eq!(
        stage_step(GameStage::Paused, Input::Confirm),
        (GameStage::Playing, StageEffect::Nothing)
    );
    assert_eq!(
        stage_step(GameStage::GameOver, Input::Confirm),
        (GameStage::MainMenu, StageEffect::Nothing)
    );
    assert_eq!(
        stage_step(GameStage::Playing, Input::Confirm),
        (GameStage::Playing, StageEffect::Nothing)
    );
}
