use invaders_core::game::Action;
use invaders_core::game::Command;
use invaders_core::game::Game;
use invaders_core::game::GameState;
use invaders_core::input::InputConfig;
use invaders_core::input::Key;
use invaders_core::score::decimal_chars;
use invaders_core::score::parse_high_score;
use invaders_core::score::ScoreBoard;

#[test]
fn menu_starts_only_on_fire_left_right() {
    for (action, starts) in [
        (Action::Fire, true),
        (Action::Left, true),
        (Action::Right, true),
        (Action::Pause, false),
    ] {
        let mut g = Game::new(0);
        g.handle_action(action);
        let expected = if starts { GameState::Playing } else { GameState::Menu };
        assert_eq!(g.state, expected);
    }
    // Quit leaves the state alone and asks the loop to exit
    let mut g = Game::new(0);
    let cmd = g.handle_action(Action::Quit);
    assert_eq!(g.state, GameState::Menu);
    assert_eq!(cmd, Command::Exit);
}

#[test]
fn pause_only_toggles_between_playing_and_paused() {
    let mut g = Game::new(0);
    g.handle_action(Action::Fire);
    assert_eq!(g.state, GameState::Playing);
    g.handle_action(Action::Pause);
    assert_eq!(g.state, GameState::Paused);
    g.handle_action(Action::Pause);
    assert_eq!(g.state, GameState::Playing);

    // a Pause while in the menu or on an end screen is a no-op
    let mut m = Game::new(0);
    m.handle_action(Action::Pause);
    assert_eq!(m.state, GameState::Menu);
    let mut w = Game::new(0);
    w.handle_action(Action::Fire);
    w.resolve_tick(0, true, false);
    assert_eq!(w.state, GameState::Won);
    w.handle_action(Action::Pause);
    assert_eq!(w.state, GameState::Won);
}

#[test]
fn menu_fire_starts_a_fresh_run() {
    let mut g = Game::new(300);
    g.score.score = 0;
    let cmd = g.handle_action(Action::Fire);
    assert_eq!(g.state, GameState::Playing);
    assert_eq!(g.score.score, 0);
    assert_eq!(g.score.high_score, 300);
    // StartGame tells the loop to re-initialize the entities
    assert_eq!(cmd, Command::StartGame);
}

#[test]
fn clearing_the_hostiles_wins_before_the_next_frame() {
    let mut g = Game::new(0);
    g.handle_action(Action::Fire);
    g.resolve_tick(2, true, false);
    // the state is already Won when the tick's frame would be submitted
    assert_eq!(g.state, GameState::Won);
    assert_eq!(g.score.score, 100);
}

#[test]
fn hostiles_reaching_bottom_lose_the_run() {
    let mut g = Game::new(0);
    g.handle_action(Action::Fire);
    g.resolve_tick(0, false, true);
    assert_eq!(g.state, GameState::Lost);
}

#[test]
fn end_screens_restart_only_on_fire() {
    let mut g = Game::new(0);
    g.handle_action(Action::Fire);
    g.resolve_tick(0, false, true);
    assert_eq!(g.state, GameState::Lost);
    g.handle_action(Action::Left);
    assert_eq!(g.state, GameState::Lost);
    let cmd = g.handle_action(Action::Fire);
    assert_eq!(g.state, GameState::Playing);
    assert_eq!(cmd, Command::StartGame);
}

#[test]
fn final_score_120_over_stored_100_persists_120() {
    let mut board = ScoreBoard::new(parse_high_score("100"));
    assert_eq!(board.high_score, 100);
    board.add_points(50);
    board.add_points(50);
    board.add_points(20);
    assert_eq!(board.score, 120);
    assert_eq!(board.high_score, 120);
    assert!(board.should_persist());
    let digits: String = decimal_chars(board.high_score).into_iter().collect();
    assert_eq!(digits, "120");
}

#[test]
fn score_saturates_and_tracks_high_score() {
    let mut board = ScoreBoard::new(500);
    board.add_points(u32::MAX);
    assert_eq!(board.score, u32::MAX);
    board.add_points(1);
    assert_eq!(board.score, u32::MAX);
    assert_eq!(board.high_score, u32::MAX);

    let mut low = ScoreBoard::new(500);
    low.add_points(100);
    assert_eq!(low.high_score, 500);
    assert!(!low.should_persist());
}

#[test]
fn stored_scores_parse_best_effort() {
    assert_eq!(parse_high_score("120"), 120);
    assert_eq!(parse_high_score(" 99\n"), 99);
    assert_eq!(parse_high_score("0"), 0);
    assert_eq!(parse_high_score(""), 0);
    assert_eq!(parse_high_score("  \n"), 0);
    assert_eq!(parse_high_score("12a"), 0);
    assert_eq!(parse_high_score("-5"), 0);
    assert_eq!(parse_high_score("4294967295"), u32::MAX);
    assert_eq!(parse_high_score("4294967296"), 0);
    assert_eq!(parse_high_score("99999999999999999999"), 0);
}

#[test]
fn default_bindings_translate_keys() {
    let cfg = InputConfig::default();
    assert!(cfg.is_left(Key::Left));
    assert!(cfg.is_left(Key::Char('a')));
    assert!(cfg.is_right(Key::Char('l')));
    assert!(cfg.is_fire(Key::Char(' ')));
    assert!(cfg.is_fire(Key::Enter));
    assert!(cfg.is_quit(Key::Esc));
    assert!(cfg.is_quit(Key::Char('q')));
    assert!(cfg.is_pause(Key::Char('p')));

    assert_eq!(cfg.action_for(Key::Char('p')), Some(Action::Pause));
    assert_eq!(cfg.action_for(Key::Char('q')), Some(Action::Quit));
    assert_eq!(cfg.action_for(Key::Enter), Some(Action::Fire));
    assert_eq!(cfg.action_for(Key::Left), Some(Action::Left));
    assert_eq!(cfg.action_for(Key::Char('d')), Some(Action::Right));
    // unmapped raw codes are ignored
    assert_eq!(cfg.action_for(Key::Char('?')), None);
    assert_eq!(cfg.action_for(Key::Other), None);
}

#[test]
fn state_labels() {
    let mut g = Game::new(0);
    assert_eq!(g.state_label(), "Start");
    g.handle_action(Action::Fire);
    assert_eq!(g.state_label(), "Playing");
    g.resolve_tick(0, true, false);
    assert_eq!(g.state_label(), "You Win!");
}
