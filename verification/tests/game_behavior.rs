use flappy::draw::{Backdrop, Cell, Glyph, Msg, TextCmd};
use flappy::game::{GameConfig, GameMode, Key, State};
use flappy::obstacle::Obstacle;
use flappy::player::Player;

#[test]
fn flap_resets_speed_and_lifts_two_rows() {
    let mut p = Player::new(40, 25);
    p.gravity(400);
    assert!(p.speed_milli > 1000);
    let y_before = p.y;
    p.flap();
    assert_eq!(p.y, y_before - 2);
    assert_eq!(p.speed_milli, 1000);
    assert_eq!(p.x, 40);
}

#[test]
fn gravity_never_leaves_row_above_top() {
    let mut p = Player::new(40, 0);
    p.flap();
    assert_eq!(p.y, -2);
    p.gravity(10);
    assert_eq!(p.y, 0);
    p.gravity(1_000_000);
    assert!(p.y >= 0);
    let mut q = Player::new(40, 1);
    q.flap();
    q.flap();
    q.gravity(0);
    assert!(q.y >= 0);
}

#[test]
fn gravity_exact_integration() {
    // 55 ms at the initial speed is under one row: the row holds still while
    // the speed grows by 300 * 55 / 80 = 206 thousandths.
    let mut p = Player::new(40, 25);
    p.gravity(55);
    assert_eq!(p.y, 25);
    assert_eq!(p.speed_milli, 1206);
    // 160 ms is two frame units: the fall is
    // (160 * 1000 * 160 + 300 * 160 * 160) / 12_800_000 = 2 rows.
    let mut q = Player::new(40, 25);
    q.gravity(160);
    assert_eq!(q.y, 27);
    assert_eq!(q.speed_milli, 1600);
}

#[test]
fn spawn_size_shrinks_with_score_and_floors_at_two() {
    for (score, size) in [(0u32, 20i32), (5, 15), (17, 3), (18, 2), (30, 2), (1000, 2)] {
        let o = Obstacle::new(80, score);
        assert_eq!(o.x, 80);
        assert_eq!(o.size, size);
        assert!(10 <= o.gap_y && o.gap_y < 40);
    }
}

#[test]
fn spawned_gap_rows_stay_in_band() {
    // The gap row is random; every draw must stay in [10, 40).
    for _ in 0..200 {
        let o = Obstacle::new(80, 0);
        assert!(10 <= o.gap_y && o.gap_y < 40);
    }
}

#[test]
fn collision_is_column_match_and_row_outside_gap_band() {
    let ob = Obstacle::with_gap(40, 20, 10);
    assert_eq!(ob.size, 10);
    // The gap band is [15, 25]: strictly outside it collides.
    assert!(ob.hit_obstacle(&Player { x: 40, y: 14, speed_milli: 1000 }));
    assert!(!ob.hit_obstacle(&Player { x: 40, y: 15, speed_milli: 1000 }));
    assert!(!ob.hit_obstacle(&Player { x: 40, y: 20, speed_milli: 1000 }));
    assert!(!ob.hit_obstacle(&Player { x: 40, y: 25, speed_milli: 1000 }));
    assert!(ob.hit_obstacle(&Player { x: 40, y: 26, speed_milli: 1000 }));
    // Another column never collides, however far off the row is.
    assert!(!ob.hit_obstacle(&Player { x: 41, y: 0, speed_milli: 1000 }));
    assert!(!ob.hit_obstacle(&Player { x: 39, y: 49, speed_milli: 1000 }));
}

#[test]
fn restart_resets_score_player_and_single_edge_obstacle() {
    let mut st = State::new();
    st.mode = GameMode::End;
    st.score = 9;
    st.frame_time_ms = 33;
    st.player = Player { x: 40, y: 44, speed_milli: 5000 };
    st.obstacles = vec![Obstacle::with_gap(12, 20, 9), Obstacle::with_gap(80, 20, 10)];
    st.restart();
    assert_eq!(st.mode, GameMode::Playing);
    assert_eq!(st.score, 0);
    assert_eq!(st.frame_time_ms, 0);
    assert_eq!(st.player, Player { x: 40, y: 25, speed_milli: 1000 });
    assert_eq!(st.obstacles.len(), 1);
    assert_eq!(st.obstacles[0].x, 80);
    assert_eq!(st.obstacles[0].size, 20);
}

#[test]
fn restart_via_play_key_from_menu_and_end() {
    for mode in [GameMode::Menu, GameMode::End] {
        let mut st = State::new();
        st.mode = mode;
        st.score = 3;
        let f = st.tick(16, Some(Key::Play));
        assert!(!f.quit);
        assert_eq!(st.mode, GameMode::Playing);
        assert_eq!(st.score, 0);
        assert_eq!(st.obstacles.len(), 1);
        assert_eq!(st.obstacles[0].x, 80);
        assert_eq!(st.player, Player { x: 40, y: 25, speed_milli: 1000 });
    }
}

#[test]
fn quit_key_on_menu_requests_exit_and_touches_nothing() {
    let mut st = State::new();
    let player_before = st.player;
    let obstacles_before = st.obstacles.clone();
    let f = st.tick(16, Some(Key::Quit));
    assert!(f.quit);
    assert_eq!(st.mode, GameMode::Menu);
    assert_eq!(st.score, 0);
    assert_eq!(st.frame_time_ms, 0);
    assert_eq!(st.player, player_before);
    assert_eq!(st.obstacles, obstacles_before);
    // No draw cells on the menu, and the three menu lines.
    assert!(f.cells.is_empty());
    assert_eq!(
        f.texts,
        vec![
            TextCmd::Centered { y: 5, msg: Msg::Welcome },
            TextCmd::Centered { y: 8, msg: Msg::PlayHint },
            TextCmd::Centered { y: 9, msg: Msg::QuitHint },
        ]
    );
    assert_eq!(f.backdrop, Backdrop::Plain);
}

#[test]
fn menu_ignores_other_keys() {
    let mut st = State::new();
    let f = st.tick(16, Some(Key::Flap));
    assert!(!f.quit);
    assert_eq!(st.mode, GameMode::Menu);
    let f2 = st.tick(16, None);
    assert!(!f2.quit);
    assert_eq!(st.mode, GameMode::Menu);
}

#[test]
fn end_screen_shows_earned_score_and_reacts_to_keys() {
    let mut st = State::new();
    st.restart();
    st.score = 7;
    st.mode = GameMode::End;
    let f = st.tick(16, None);
    assert_eq!(st.mode, GameMode::End);
    assert!(f.cells.is_empty());
    assert_eq!(
        f.texts,
        vec![
            TextCmd::Centered { y: 5, msg: Msg::Dead },
            TextCmd::Centered { y: 6, msg: Msg::Earned(7) },
            TextCmd::Centered { y: 9, msg: Msg::PlayAgainHint },
            TextCmd::Centered { y: 10, msg: Msg::QuitHint },
        ]
    );
    let fq = st.tick(16, Some(Key::Quit));
    assert!(fq.quit);
    assert_eq!(st.mode, GameMode::End);
    assert_eq!(st.score, 7);
}

#[test]
fn scroll_step_removes_off_screen_head_and_keeps_rest() {
    let mut st = State::new();
    st.obstacles = vec![Obstacle::with_gap(-1, 20, 0), Obstacle::with_gap(80, 25, 1)];
    st.obstacles_move_left();
    assert_eq!(st.obstacles.len(), 1);
    assert_eq!(st.obstacles[0].x, 79);
    // A head still on screen only moves.
    let mut st2 = State::new();
    st2.obstacles = vec![Obstacle::with_gap(0, 20, 0), Obstacle::with_gap(80, 25, 1)];
    st2.obstacles_move_left();
    assert_eq!(st2.obstacles.len(), 1);
    assert_eq!(st2.obstacles[0].x, 79);
    let mut st3 = State::new();
    st3.obstacles = vec![Obstacle::with_gap(1, 20, 0), Obstacle::with_gap(80, 25, 1)];
    st3.obstacles_move_left();
    assert_eq!(st3.obstacles.len(), 2);
    assert_eq!(st3.obstacles[0].x, 0);
    assert_eq!(st3.obstacles[1].x, 79);
}

#[test]
fn play_frame_draws_player_then_walls_outside_gap() {
    let mut st = State::new();
    st.restart();
    st.obstacles = vec![Obstacle::with_gap(60, 20, 0)];
    let f = st.tick(10, None);
    // No scroll at 10 ms; the player holds (40, 25); the wall covers rows
    // 0..10 and 30..50 of column 60.
    assert_eq!(st.frame_time_ms, 10);
    assert_eq!(f.backdrop, Backdrop::Sky);
    assert!(!f.quit);
    assert_eq!(f.cells.len(), 31);
    assert_eq!(f.cells[0], Cell { x: 40, y: 25, glyph: Glyph::Avatar });
    assert_eq!(f.cells[1], Cell { x: 60, y: 0, glyph: Glyph::Wall });
    assert_eq!(f.cells[10], Cell { x: 60, y: 9, glyph: Glyph::Wall });
    assert_eq!(f.cells[11], Cell { x: 60, y: 30, glyph: Glyph::Wall });
    assert_eq!(f.cells[30], Cell { x: 60, y: 49, glyph: Glyph::Wall });
    assert_eq!(
        f.texts,
        vec![
            TextCmd::At { x: 0, y: 0, msg: Msg::FlapHint },
            TextCmd::At { x: 0, y: 1, msg: Msg::Score(0) },
        ]
    );
    assert_eq!(st.mode, GameMode::Playing);
}

#[test]
fn flap_key_acts_before_gravity_in_play() {
    let mut st = State::new();
    st.restart();
    st.player.speed_milli = 9000;
    let f = st.tick(10, Some(Key::Flap));
    // The flap lifts two rows and cancels the fall speed, so this frame's
    // short integration moves nothing further.
    assert_eq!(st.player.y, 23);
    assert_eq!(st.player.speed_milli, 1037);
    assert!(!f.quit);
}

#[test]
fn forty_scroll_steps_bring_obstacle_to_player_column() {
    // The obstacle starts at the right edge, 40 columns from the player;
    // with the player held inside the gap band, play continues and the
    // score increments once the obstacle falls behind the player's column.
    let mut st = State::new();
    st.restart();
    st.obstacles = vec![Obstacle::with_gap(80, 20, 0)];
    for _ in 0..40 {
        st.player.y = 20;
        st.tick(56, None);
        assert_eq!(st.mode, GameMode::Playing);
        assert_eq!(st.score, 0);
    }
    assert_eq!(st.obstacles[0].x, 40);
    // One more step: the obstacle falls behind the column and scores.
    st.player.y = 20;
    st.tick(56, None);
    assert_eq!(st.mode, GameMode::Playing);
    assert_eq!(st.score, 1);
    assert_eq!(st.obstacles.len(), 2);
    assert_eq!(st.obstacles[0].x, 39);
    assert_eq!(st.obstacles[1].x, 80);
    assert_eq!(st.obstacles[1].size, 19);
}

#[test]
fn coincident_column_outside_gap_loses() {
    // Same procession, but the player held above the gap band: the loss
    // check fires on the step where the columns coincide.
    let mut st = State::new();
    st.restart();
    st.obstacles = vec![Obstacle::with_gap(80, 20, 0)];
    for step in 1..=40 {
        st.player.y = 0;
        st.tick(56, None);
        if step < 40 {
            assert_eq!(st.mode, GameMode::Playing);
        }
    }
    assert_eq!(st.obstacles[0].x, 40);
    assert_eq!(st.mode, GameMode::End);
    assert_eq!(st.score, 0);
}

#[test]
fn falling_below_screen_loses() {
    let mut st = State::new();
    st.restart();
    st.player.y = 49;
    st.player.speed_milli = 50_000;
    st.tick(54, None);
    assert_eq!(st.mode, GameMode::End);
}

#[test]
fn score_saturates_at_the_top() {
    let mut st = State::new();
    st.restart();
    st.score = u32::MAX;
    st.obstacles = vec![Obstacle::with_gap(39, 20, 0)];
    st.tick(10, None);
    assert_eq!(st.score, u32::MAX);
    assert_eq!(st.obstacles.len(), 2);
    assert_eq!(st.obstacles[1].x, 80);
}

#[test]
fn well_formedness_check_accepts_reachable_states_and_rejects_broken_ones() {
    let mut st = State::new();
    assert!(st.is_well_formed());
    st.restart();
    assert!(st.is_well_formed());
    for _ in 0..100 {
        st.player.y = 20;
        st.tick(56, None);
        assert!(st.is_well_formed());
    }
    let mut broken = State::new();
    broken.frame_time_ms = 56;
    assert!(!broken.is_well_formed());
    let mut empty = State::new();
    empty.obstacles = vec![];
    assert!(!empty.is_well_formed());
    let mut unsorted = State::new();
    unsorted.obstacles = vec![Obstacle::with_gap(80, 20, 0), Obstacle::with_gap(50, 20, 1)];
    assert!(!unsorted.is_well_formed());
    let mut passed_tail = State::new();
    passed_tail.obstacles = vec![Obstacle::with_gap(39, 20, 0)];
    assert!(!passed_tail.is_well_formed());
    let mut bad_gap = State::new();
    bad_gap.obstacles = vec![Obstacle { x: 80, gap_y: 5, size: 20 }];
    assert!(!bad_gap.is_well_formed());
}

#[test]
fn custom_geometry_spawns_at_its_own_edge() {
    let cfg = GameConfig { screen_width: 60, screen_height: 30 };
    let mut st = State::new_with_config(cfg);
    assert_eq!(st.obstacles[0].x, 60);
    st.restart();
    assert_eq!(st.obstacles[0].x, 60);
    // The lower boundary follows the configured height.
    st.player.y = 29;
    st.player.speed_milli = 50_000;
    st.tick(54, None);
    assert_eq!(st.mode, GameMode::End);
}
