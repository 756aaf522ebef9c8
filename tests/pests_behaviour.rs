use pests::lifecycle::{
    flood_spawn, screen_bounds, spawn_at, spawn_random, Event, Flood, Outcome, SpawnRequest, FLOOD_SPEED,
    PEST_SIZE, REPLACEMENT_SPEED,
};
use pests::physics::{Bounds, Physics, Transform};
use pests::registry::{Immunity, Pest, Registry};
use pests::vector2::{screen_coord, Vector2};

const SECOND: u64 = 1_000_000;

fn screen() -> Bounds {
    Bounds::new(10, 10, 1900, 1000)
}

fn body(x: i64, y: i64, vx: i64, vy: i64) -> Physics {
    Physics::new(
        Transform::new(x, y, 200, 200),
        Vector2::new(vx, vy),
        Vector2::new(0, 3810),
    )
}

fn registry_of(ids: &[u32], immunity: Immunity) -> Registry<u32> {
    let mut reg = Registry::new();
    for &id in ids {
        let req = spawn_at(100, 100, immunity, Vector2::new(0, 0));
        assert!(reg.spawn(id, id, &req).is_ok());
    }
    reg
}

fn ids(reg: &Registry<u32>) -> Vec<u32> {
    (0..reg.len()).map(|i| reg.get(i).window_id).collect()
}

#[test]
fn one_update_without_bounce() {
    let req = spawn_at(200, 400, Immunity::OnFirstFocus, Vector2::new(5000, 0));
    let mut p = req.physics();
    assert!(p.update(SECOND, &screen()));
    assert_eq!(p.velocity, Vector2::new(5000, 3810));
    assert_eq!(p.transform.position, Vector2::new(205_000, 403_810));
    assert_eq!((p.transform.width, p.transform.height), (200, 200));
}

#[test]
fn focus_twice_downgrades_then_replaces() {
    let mut reg = registry_of(&[7], Immunity::OnFirstFocus);
    let b = screen();
    let first = reg.handle_event(Event::TakeFocus { window_id: 7 }, false, &b);
    assert!(matches!(first, Outcome::Continue));
    assert_eq!(reg.len(), 1);
    assert_eq!(reg.get(0).immunity, Immunity::Vulnerable);
    let second = reg.handle_event(Event::TakeFocus { window_id: 7 }, false, &b);
    match second {
        Outcome::Replace { killed, spawn } => {
            assert_eq!(killed.map(|p| p.window_id), Some(7));
            assert_eq!(spawn.immunity, Immunity::OnFirstFocus);
            assert!(reg.is_empty());
            assert!(reg.spawn(8, 8, &spawn).is_ok());
            assert_eq!(reg.get(0).immunity, Immunity::OnFirstFocus);
        }
        _ => panic!("expected a replacement"),
    }
}

#[test]
fn focus_with_alt_held_is_ignored() {
    let mut reg = registry_of(&[7], Immunity::Vulnerable);
    let r = reg.handle_event(Event::TakeFocus { window_id: 7 }, true, &screen());
    assert!(matches!(r, Outcome::Continue));
    assert_eq!(ids(&reg), vec![7]);
}

#[test]
fn focus_on_always_immune_is_ignored() {
    let mut reg = registry_of(&[7], Immunity::Always);
    let r = reg.handle_event(Event::TakeFocus { window_id: 7 }, false, &screen());
    assert!(matches!(r, Outcome::Continue));
    assert_eq!(reg.get(0).immunity, Immunity::Always);
}

#[test]
fn focus_on_unknown_window_changes_nothing() {
    let mut reg = registry_of(&[7], Immunity::Vulnerable);
    let r = reg.handle_event(Event::TakeFocus { window_id: 99 }, false, &screen());
    assert!(matches!(r, Outcome::Continue));
    assert_eq!(ids(&reg), vec![7]);
}

#[test]
fn left_click_kills_even_always_immune() {
    let mut reg = registry_of(&[1, 2, 3], Immunity::Always);
    let b = screen();
    match reg.handle_event(Event::LeftClick { window_id: 2 }, false, &b) {
        Outcome::Replace { killed, spawn } => {
            assert_eq!(killed.map(|p| p.window_id), Some(2));
            assert_eq!(spawn.immunity, Immunity::Vulnerable);
            assert!(0 <= spawn.velocity.x && spawn.velocity.x < REPLACEMENT_SPEED);
            assert!(0 <= spawn.velocity.y && spawn.velocity.y < REPLACEMENT_SPEED);
        }
        _ => panic!("expected a replacement"),
    }
    assert_eq!(ids(&reg), vec![1, 3]);
}

#[test]
fn left_click_on_unknown_window_still_replaces() {
    let mut reg = registry_of(&[1], Immunity::Vulnerable);
    match reg.handle_event(Event::LeftClick { window_id: 5 }, false, &screen()) {
        Outcome::Replace { killed, .. } => assert!(killed.is_none()),
        _ => panic!("expected a replacement"),
    }
    assert_eq!(ids(&reg), vec![1]);
}

#[test]
fn right_click_quit_and_other_events() {
    let mut reg = registry_of(&[1], Immunity::Vulnerable);
    let b = screen();
    assert!(matches!(reg.handle_event(Event::RightClick, false, &b), Outcome::Abort));
    assert!(matches!(reg.handle_event(Event::Quit, false, &b), Outcome::Quit));
    assert!(matches!(reg.handle_event(Event::Other, false, &b), Outcome::Continue));
    assert_eq!(ids(&reg), vec![1]);
}

#[test]
fn kill_known_removes_exactly_one() {
    let mut reg = registry_of(&[4, 5, 6, 7], Immunity::Vulnerable);
    let killed = reg.kill(6);
    assert_eq!(killed.map(|p| p.window), Some(6));
    assert_eq!(ids(&reg), vec![4, 5, 7]);
}

#[test]
fn kill_unknown_changes_nothing() {
    let mut reg = registry_of(&[4, 5], Immunity::Vulnerable);
    assert!(reg.kill(9).is_none());
    assert_eq!(ids(&reg), vec![4, 5]);
    let mut empty: Registry<u32> = Registry::new();
    assert!(empty.kill(1).is_none());
    assert!(empty.is_empty());
}

#[test]
fn duplicate_window_id_is_refused() {
    let mut reg = registry_of(&[4], Immunity::Vulnerable);
    let req = spawn_at(0, 0, Immunity::Always, Vector2::new(0, 0));
    assert_eq!(reg.spawn(40, 4, &req), Err(40));
    let pest = Pest::new(41, 4, Immunity::Always, req.physics());
    assert!(reg.insert(pest).is_err());
    assert_eq!(reg.len(), 1);
    assert_eq!(reg.find(4), Some(0));
    assert_eq!(reg.find(5), None);
}

#[test]
fn flood_starts_after_five_seconds_and_stays_on() {
    let mut flood = Flood::new();
    assert!(!flood.tick(Some(5 * SECOND), 10 * SECOND));
    assert!(!flood.active);
    assert!(flood.tick(Some(5 * SECOND + 1), 150_001));
    assert!(flood.active);
    // the first pest was killed: the registry is empty
    assert!(!flood.tick(None, 150_000));
    assert!(flood.active);
    assert!(flood.tick(Some(0), 200_000));
    assert!(flood.active);
}

#[test]
fn flood_pests_spawn_at_the_centre() {
    let r = flood_spawn(1920, 1081);
    assert_eq!((r.x, r.y), (960_000, 540_000));
    assert_eq!(r.immunity, Immunity::Vulnerable);
    assert!(-FLOOD_SPEED <= r.velocity.x && r.velocity.x < FLOOD_SPEED);
    assert!(-FLOOD_SPEED <= r.velocity.y && r.velocity.y < FLOOD_SPEED);
}

#[test]
fn random_spawns_stay_in_the_spawn_area() {
    let b = Bounds::new(10, 20, 30, 240);
    for _ in 0..2000 {
        let r = spawn_random(&b, Immunity::Always, Vector2::new(1, 2));
        assert_eq!(r.x % 1000, 0);
        assert_eq!(r.y % 1000, 0);
        assert!(10_000 <= r.x && r.x < 40_000);
        assert!(20_000 <= r.y && r.y < (20 + 240 - PEST_SIZE as i64) * 1000);
        assert_eq!(r.velocity, Vector2::new(1, 2));
    }
}

#[test]
fn random_vectors_stay_in_range_and_vary() {
    let mut seen_x = std::collections::BTreeSet::new();
    for _ in 0..500 {
        let v = Vector2::new_rand(-3..4);
        assert!(-3 <= v.x && v.x < 4);
        assert!(-3 <= v.y && v.y < 4);
        seen_x.insert(v.x);
    }
    assert!(seen_x.len() > 1);
}

#[test]
fn bounce_off_the_bottom_keeps_seven_tenths() {
    let b = Bounds::new(0, 0, 1000, 1000);
    let mut p = body(100_000, 850_000, 0, 10_000);
    assert!(p.update(0, &b));
    assert_eq!(p.velocity.y, -7_000);
    assert_eq!(p.transform.position.y, 750_000);
    let mut q = body(100_000, 850_000, 0, 12_345);
    assert!(q.update(0, &b));
    assert_eq!(q.velocity.y, -(12_345 - 3_703));
}

#[test]
fn slow_bounce_comes_to_rest() {
    let b = Bounds::new(0, 0, 1000, 1000);
    let mut p = body(100_000, 801_000, 0, 150);
    assert!(p.update(SECOND, &b));
    assert_eq!(p.velocity.y, 0);
    assert_eq!(p.transform.position.y, 799_000);
}

#[test]
fn bounce_off_the_top_and_the_sides() {
    let b = Bounds::new(10, 10, 1000, 1000);
    let mut p = body(5_000, 4_000, -2_000, -1_000);
    assert!(p.update(0, &b));
    assert_eq!(p.transform.position, Vector2::new(15_000, 16_000));
    assert_eq!(p.velocity, Vector2::new(1_400, 700));
    let mut q = body(850_000, 500_000, 3_000, 0);
    assert!(q.update(0, &b));
    assert_eq!(q.transform.position.x, 2 * 1_010_000 - 2 * 200_000 - 850_000);
    assert_eq!(q.velocity.x, -2_100);
}

#[test]
fn a_step_of_two_hours_is_taken() {
    let mut p = body(200_000, 400_000, 5_000, 0);
    assert!(p.update(7_200 * SECOND, &Bounds::new(0, 0, 1000, 100_000)));
    assert_eq!(p.velocity, Vector2::new(5_000, 27_432_000));
    assert_eq!(p.transform.position, Vector2::new(205_000, 27_832_000));
}

#[test]
fn an_overflowing_step_leaves_the_body_alone() {
    let mut far = body(200_000, 400_000, 0, i64::MAX);
    let far_before = far;
    assert!(!far.update(SECOND, &screen()));
    assert_eq!(far, far_before);
}

#[test]
fn batch_update_adds_elapsed_time() {
    let mut reg = registry_of(&[1, 2], Immunity::Vulnerable);
    let b = screen();
    assert!(reg.update_pest(0, 1_000, 0, &b));
    assert!(reg.update_pest(1, 1_000, 500, &b));
    assert_eq!(reg.get(0).time_alive, 1_000);
    assert_eq!(reg.get(1).time_alive, 1_500);
    assert_eq!(reg.first_time_alive(), Some(1_000));
    assert_eq!(reg.get(1).physics.velocity.y, 5);
    assert!(reg.update_pest(0, u64::MAX, 1, &b));
    assert_eq!(reg.get(0).time_alive, u64::MAX);
}

#[test]
fn screen_coordinates_round_toward_zero_and_saturate() {
    assert_eq!(screen_coord(1_999), 1);
    assert_eq!(screen_coord(-1_999), -1);
    assert_eq!(screen_coord(403_810), 403);
    assert_eq!(screen_coord(i64::MAX), i32::MAX);
    assert_eq!(screen_coord(i64::MIN), i32::MIN);
}

#[test]
fn spawn_request_builds_the_body() {
    let r = SpawnRequest { x: 1, y: 2, immunity: Immunity::Always, velocity: Vector2::new(3, 4) };
    let p = r.physics();
    assert_eq!(p.transform, Transform::new(1, 2, 200, 200));
    assert_eq!(p.velocity, Vector2::new(3, 4));
    assert_eq!(p.acceleration, Vector2::new(0, 3810));
}

#[test]
fn screen_bounds_keep_a_margin() {
    assert_eq!(screen_bounds(1920, 1080), Some(Bounds::new(10, 10, 1900, 1000)));
    assert_eq!(screen_bounds(20, 1080), None);
    assert_eq!(screen_bounds(1920, 280), None);
    assert_eq!(screen_bounds(21, 281), Some(Bounds::new(10, 10, 1, 201)));
}

#[test]
fn slow_after_bounce_comes_to_rest_on_every_edge() {
    let b = Bounds::new(10, 10, 1000, 1000);
    // bottom: 250 units per frame keeps 175, below the rest speed
    let mut bottom = body(100_000, 850_000, 0, 250);
    assert!(bottom.update(0, &b));
    assert_eq!(bottom.velocity.y, 0);
    // top
    let mut top = body(100_000, 4_000, 0, -250);
    assert!(top.update(0, &b));
    assert_eq!(top.velocity.y, 0);
    assert_eq!(top.transform.position.y, 16_000);
    // right wall
    let mut right = body(850_000, 500_000, 250, 0);
    assert!(right.update(0, &b));
    assert_eq!(right.velocity.x, 0);
    // left wall
    let mut left = body(5_000, 500_000, -250, 0);
    assert!(left.update(0, &b));
    assert_eq!(left.velocity.x, 0);
}

#[test]
fn bounce_at_the_rest_speed_threshold() {
    let b = Bounds::new(0, 0, 1000, 1000);
    // seven tenths of 286 is 200.2: the body bounces on
    let mut p = body(100_000, 850_000, 0, 286);
    assert!(p.update(0, &b));
    assert_eq!(p.velocity.y, -201);
    // seven tenths of 285 is 199.5: the body stops, at either edge
    let mut q = body(100_000, 850_000, 0, 285);
    assert!(q.update(0, &b));
    assert_eq!(q.velocity.y, 0);
    let mut top = body(100_000, -5_000, 0, -285);
    assert!(top.update(0, &b));
    assert_eq!(top.velocity.y, 0);
    let mut up = body(100_000, -5_000, 0, -286);
    assert!(up.update(0, &b));
    assert_eq!(up.velocity.y, 201);
}

#[test]
fn events_that_spawn_nothing_need_no_room() {
    let none = Bounds::new(0, 0, 0, 0);
    let mut reg = registry_of(&[3], Immunity::OnFirstFocus);
    assert!(matches!(reg.handle_event(Event::TakeFocus { window_id: 3 }, false, &none), Outcome::Continue));
    assert!(matches!(reg.handle_event(Event::TakeFocus { window_id: 3 }, true, &none), Outcome::Continue));
    assert!(matches!(reg.handle_event(Event::Quit, false, &none), Outcome::Quit));
    assert_eq!(reg.get(0).immunity, Immunity::Vulnerable);
}
