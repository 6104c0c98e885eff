use hex_arena::angle::{advance_theta, sector_base_angle, wall_angle};
use hex_arena::background::{slice_color, SliceColor};
use hex_arena::menu::{refresh_label, Menu};
use hex_arena::player::Player;
use hex_arena::state::{state_after_run_end, GameState, RunEnd};
use hex_arena::text::{contains_sub, replace_all};
use hex_arena::walls::{pattern_sides, pick_pattern, spawn_wave, wave_angles};

#[test]
fn heading_advances_by_one_degree() {
    assert_eq!(advance_theta(0), 1);
    assert_eq!(advance_theta(123), 124);
}

#[test]
fn heading_wraps_at_full_turn() {
    assert_eq!(advance_theta(359), 0);
}

#[test]
fn wall_angles_sit_on_sector_midlines() {
    assert_eq!(wall_angle(0, 0), 30);
    assert_eq!(wall_angle(0, 1), 90);
    assert_eq!(wall_angle(0, 5), 330);
}

#[test]
fn wall_angles_follow_the_heading() {
    assert_eq!(wall_angle(350, 2), 140);
    assert_eq!(wall_angle(330, 0), 0);
    assert_eq!(wall_angle(359, 5), 329);
}

#[test]
fn sector_base_angles() {
    assert_eq!(sector_base_angle(0), 0);
    assert_eq!(sector_base_angle(3), 180);
    assert_eq!(sector_base_angle(6), 360);
}

#[test]
fn background_slices_alternate() {
    assert_eq!(slice_color(0), SliceColor::Olive);
    assert_eq!(slice_color(1), SliceColor::OrangeRed);
    assert_eq!(slice_color(4), SliceColor::Olive);
    assert_eq!(slice_color(5), SliceColor::OrangeRed);
}

#[test]
fn pattern_table_rows() {
    assert_eq!(pattern_sides(0), [0, 2, 4]);
    assert_eq!(pattern_sides(1), [1, 3, 5]);
    assert_eq!(pattern_sides(2), [0, 1, 2]);
    assert_eq!(pattern_sides(3), [3, 4, 5]);
    assert_eq!(pattern_sides(4), [0, 0, 0]);
    assert_eq!(pattern_sides(9), [5, 5, 5]);
}

#[test]
fn pattern_draw_always_names_a_row() {
    for _ in 0..200 {
        assert!(pick_pattern() < 10);
    }
}

#[test]
fn wave_angles_for_alternating_row() {
    assert_eq!(wave_angles(0, 0), vec![30, 150, 270]);
}

#[test]
fn wave_angles_for_adjacent_row_under_turned_heading() {
    assert_eq!(wave_angles(90, 1), vec![180, 300, 60]);
}

#[test]
fn spawned_wave_is_a_row_of_the_table() {
    for _ in 0..50 {
        let wave = spawn_wave(45);
        assert_eq!(wave.len(), 3);
        let mut found = false;
        for idx in 0..10 {
            if wave == wave_angles(45, idx) {
                found = true;
            }
        }
        assert!(found);
    }
}

#[test]
fn steering_steps_by_five_degrees() {
    let mut p = Player::new();
    p.steer(true, false);
    assert_eq!(p.theta, 5);
    p.steer(true, true);
    assert_eq!(p.theta, 10);
    p.steer(false, false);
    assert_eq!(p.theta, 10);
    p.steer(false, true);
    assert_eq!(p.theta, 5);
}

#[test]
fn steering_can_go_negative_and_wraps() {
    let mut p = Player::new();
    p.steer(false, true);
    assert_eq!(p.theta, -5);
    p.theta = -355;
    p.steer(false, true);
    assert_eq!(p.theta, 0);
    p.theta = 355;
    p.steer(true, false);
    assert_eq!(p.theta, 0);
}

#[test]
fn menu_opens_on_the_first_entry() {
    let m = Menu::new();
    assert_eq!(m.hover, 0);
}

#[test]
fn menu_arrows_toggle_the_highlight() {
    let mut m = Menu::new();
    m.hover_up();
    assert_eq!(m.hover, 1);
    m.hover_up();
    assert_eq!(m.hover, 0);
    m.hover_down();
    assert_eq!(m.hover, 1);
    m.hover_down();
    assert_eq!(m.hover, 0);
}

#[test]
fn menu_select_starts_or_leaves() {
    let mut m = Menu::new();
    assert_eq!(m.select(), Some(GameState::Playing));
    m.hover_down();
    assert_eq!(m.select(), Some(GameState::Exit));
}

#[test]
fn menu_input_handles_up_then_down_then_choice() {
    let mut m = Menu::new();
    let r = m.input_step(true, true, true);
    assert_eq!(m.hover, 0);
    assert_eq!(r, Some(GameState::Playing));
    let r = m.input_step(false, true, true);
    assert_eq!(m.hover, 1);
    assert_eq!(r, Some(GameState::Exit));
    let r = m.input_step(true, false, false);
    assert_eq!(m.hover, 0);
    assert_eq!(r, None);
}

#[test]
fn every_run_ending_returns_to_the_menu() {
    assert_eq!(state_after_run_end(RunEnd::SessionTimeout), GameState::Menu);
    assert_eq!(state_after_run_end(RunEnd::ScoreTimeout), GameState::Menu);
    assert_eq!(state_after_run_end(RunEnd::WallHit), GameState::Menu);
}

#[test]
fn start_label_gains_marker_under_highlight() {
    assert_eq!(refresh_label("Start", 0), Some("> Start".to_string()));
    assert_eq!(refresh_label("> Start", 0), Some("> Start".to_string()));
}

#[test]
fn start_label_loses_marker_when_left() {
    assert_eq!(refresh_label("Start", 1), Some("Start".to_string()));
    assert_eq!(refresh_label("> Start", 1), Some("Start".to_string()));
}

#[test]
fn exit_label_follows_the_other_highlight_position() {
    assert_eq!(refresh_label("Exit", 1), Some("> Exit".to_string()));
    assert_eq!(refresh_label("> Exit", 0), Some("Exit".to_string()));
    assert_eq!(refresh_label("Exit", 0), Some("Exit".to_string()));
}

#[test]
fn other_lines_are_left_alone() {
    assert_eq!(refresh_label("Welcome to the menu!", 0), None);
    assert_eq!(refresh_label("", 1), None);
}

#[test]
fn contains_finds_patterns() {
    assert!(contains_sub("hello world", "lo w"));
    assert!(contains_sub("hello", ""));
    assert!(contains_sub("aaa", "aa"));
    assert!(!contains_sub("", "x"));
    assert!(!contains_sub("abc", "abcd"));
    assert!(!contains_sub("hello", "world"));
}

#[test]
fn replace_all_rewrites_every_occurrence() {
    assert_eq!(replace_all("> > Start", "> ", ""), "Start".to_string());
    assert_eq!(replace_all("a> b> ", "> ", "_"), "a_b_".to_string());
    assert_eq!(replace_all("no marker", "> ", ""), "no marker".to_string());
}

#[test]
fn replace_all_scans_left_to_right_without_overlap() {
    assert_eq!(replace_all("ababa", "aba", "x"), "xba".to_string());
    assert_eq!(replace_all("aaaa", "aa", "b"), "bb".to_string());
}
