use cs415_project::geometry::{dist_sq, isqrt, step_toward, unit_toward, Point};
use cs415_project::config::SpriteConfig;
use cs415_project::util::{get_sprite_index, next_enemy_frame, next_player_frame, AnimationTimer};

fn pt(x: i64, y: i64) -> Point {
    Point { x, y }
}

#[test]
fn isqrt_exact_values() {
    assert_eq!(isqrt(0), 0);
    assert_eq!(isqrt(1), 1);
    assert_eq!(isqrt(24), 4);
    assert_eq!(isqrt(25), 5);
    assert_eq!(isqrt(2_000_000), 1414);
    assert_eq!(isqrt(u64::MAX), 4_294_967_295);
}

#[test]
fn dist_sq_exact_value() {
    assert_eq!(dist_sq(pt(0, 0), pt(3000, -4000)), 25_000_000);
    assert_eq!(dist_sq(pt(-5, 7), pt(-5, 7)), 0);
}

#[test]
fn step_toward_moves_along_the_line() {
    assert_eq!(step_toward(pt(0, 0), pt(3000, 4000), 1000), pt(600, 800));
    assert_eq!(step_toward(pt(0, 0), pt(-3000, -4000), 1000), pt(-600, -800));
}

#[test]
fn step_toward_passes_close_target() {
    assert_eq!(step_toward(pt(0, 0), pt(300, 400), 1000), pt(600, 800));
}

#[test]
fn step_toward_keeps_coordinate_range() {
    assert_eq!(step_toward(pt(999_999_000, 0), pt(1_000_000_000, 0), 4_000_000_000), pt(1_000_000_000, 0));
}

#[test]
fn step_toward_coincident_points_stay() {
    assert_eq!(step_toward(pt(12, 34), pt(12, 34), 1000), pt(12, 34));
}

#[test]
fn unit_toward_values() {
    assert_eq!(unit_toward(pt(0, 0), pt(0, 5000)), pt(0, 1000));
    assert_eq!(unit_toward(pt(0, 0), pt(3000, -4000)), pt(600, -800));
    assert_eq!(unit_toward(pt(10, 10), pt(10, 10)), pt(-1000, 0));
}

#[test]
fn sprite_index_in_default_sheet() {
    let sprite = SpriteConfig::default();
    assert_eq!(get_sprite_index(3, 0, &sprite), 48);
    assert_eq!(get_sprite_index(5, 2, &sprite), 82);
    assert_eq!(get_sprite_index(0, 0, &sprite), 0);
}

#[test]
fn animation_frames_cycle() {
    assert_eq!(next_player_frame(0), 1);
    assert_eq!(next_player_frame(5), 0);
    let sprite = SpriteConfig::default();
    assert_eq!(next_enemy_frame(48, &sprite), 48 + (49 % 16) % 6);
    assert_eq!(next_enemy_frame(52, &sprite), 48 + 5);
}

#[test]
fn animation_timer_repeats() {
    let mut t = AnimationTimer::new(100);
    assert!(!t.tick(60));
    assert_eq!(t.elapsed, 60);
    assert!(t.tick(60));
    assert_eq!(t.elapsed, 20);
    assert!(t.tick(u64::MAX));
    assert_eq!(t.elapsed, ((20u128 + u64::MAX as u128) % 100) as u64);
}
