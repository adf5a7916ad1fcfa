use rustris::settings::MAX_GAME_LEVEL;
use rustris::stats::GameStats;

#[test]
fn test_score_completed_lines() {
    let mut stats = GameStats::new();
    stats.score_completed_lines(1);
    assert_eq!(stats.get_score(), 100);
    assert_eq!(stats.get_level(), 1);
    assert_eq!(stats.get_lines(), 1);

    stats.score_completed_lines(2);
    assert_eq!(stats.get_score(), 400);
    assert_eq!(stats.get_level(), 1);
    assert_eq!(stats.get_lines(), 3);

    stats.score_completed_lines(3);
    assert_eq!(stats.get_score(), 900);
    assert_eq!(stats.get_level(), 1);
    assert_eq!(stats.get_lines(), 6);

    stats.score_completed_lines(4);
    assert_eq!(stats.get_score(), 1700);
    assert_eq!(stats.get_level(), 2);
    assert_eq!(stats.get_lines(), 10);
}

#[test]
fn test_score_soft_drop() {
    let mut stats = GameStats::new();
    stats.score_soft_drop();
    assert_eq!(stats.get_score(), 1);
    for _ in 0..20 {
        stats.score_soft_drop();
    }
    assert_eq!(stats.get_score(), 21);
}

#[test]
fn test_score_hard_drop() {
    let mut stats = GameStats::new();
    stats.score_hard_drop(10);
    assert_eq!(stats.get_score(), 20);
}

#[test]
fn test_get_level() {
    let mut stats = GameStats::new();
    assert_eq!(stats.get_level(), 1);
    stats.lines = 89;
    assert_eq!(stats.get_level(), 9);
    stats.lines = 150;
    assert_eq!(stats.get_level(), MAX_GAME_LEVEL);
}

#[test]
fn tetris_scores_800_at_level_one_and_1600_at_level_two() {
    let mut stats = GameStats::new();
    stats.score_completed_lines(4);
    assert_eq!(stats.get_score(), 800);

    let mut stats = GameStats::new();
    stats.lines = 10;
    assert_eq!(stats.get_level(), 2);
    stats.score_completed_lines(4);
    assert_eq!(stats.get_score(), 1600);
    assert_eq!(stats.get_lines(), 14);
}

#[test]
fn level_uses_lines_before_the_clear() {
    let mut stats = GameStats::new();
    stats.lines = 9;
    stats.score_completed_lines(1);
    assert_eq!(stats.get_score(), 100);
    assert_eq!(stats.get_level(), 2);
}

#[test]
fn other_line_counts_score_nothing() {
    let mut stats = GameStats::new();
    stats.score_completed_lines(0);
    stats.score_completed_lines(5);
    assert_eq!(stats.get_score(), 0);
    assert_eq!(stats.get_lines(), 5);
}

#[test]
fn level_is_capped_for_huge_line_counts() {
    let mut stats = GameStats::new();
    stats.lines = MAX_GAME_LEVEL * 10;
    assert_eq!(stats.get_level(), MAX_GAME_LEVEL);
    stats.lines = u32::MAX;
    assert_eq!(stats.get_level(), MAX_GAME_LEVEL);
    stats.lines = 99;
    assert_eq!(stats.get_level(), 10);
}

#[test]
fn score_stops_at_the_largest_value() {
    let mut stats = GameStats::new();
    stats.score = u32::MAX - 1;
    stats.score_hard_drop(5);
    assert_eq!(stats.get_score(), u32::MAX);
    stats.score_soft_drop();
    assert_eq!(stats.get_score(), u32::MAX);
    stats.lines = u32::MAX;
    stats.score_completed_lines(2);
    assert_eq!(stats.get_lines(), u32::MAX);
}
