use stomper::entity::{Direction, Entity, EntityType, Frame, GROUND, RUN_SPEED, WALK_SPEED};
use stomper::game::{Key, MainState};
use stomper::gui::{Button, Screen};

fn zombie_at(x: i16, y: i16) -> Entity {
    Entity {
        tag: EntityType::Zombie,
        pos: (x, y),
        facing: Direction::Left,
        frame: Frame::Stand,
        falling: false,
        jump: 0,
        jump_from: y,
        health: 1,
        ticks: 0,
    }
}

fn playing(seed: u64) -> MainState {
    let mut s = MainState::new(1, seed);
    s.start_round();
    s
}

#[test]
fn new_session_starts_on_title() {
    let s = MainState::new(2, 99);
    assert_eq!(s.screen, Screen::Title);
    assert_eq!(s.player.pos, (304, 432));
    assert_eq!(s.player.jump_from, 432);
    assert_eq!(s.player.health, 4);
    assert!(s.monsters.is_empty());
    assert_eq!(s.score, 0);
    assert_eq!(s.difficulty, 0);
    assert!(s.spawn_cycle >= 4 && s.spawn_cycle <= 8);
    assert_eq!(s.gui.play, Button { pos: (288, 208), width: 32, scale: 2, hover: false });
}

#[test]
fn stomp_on_one_zombie() {
    let mut s = playing(3);
    assert_eq!(s.player.health, 4);
    s.player.falling = true;
    s.player.jump = 5;
    s.player.pos = (100, 180);
    s.monsters.push(zombie_at(110, 190));
    s.resolve_collisions();
    assert!(s.monsters.is_empty());
    assert!(s.score >= 1 && s.score <= 3);
    assert_eq!(s.player.health, 4);
    assert_eq!(s.player.jump, 0);
    assert_eq!(s.player.jump_from, 180);
    assert_eq!(s.screen, Screen::Game);
}

#[test]
fn stomp_keeps_far_monsters_in_order() {
    let mut s = playing(4);
    s.player.falling = true;
    s.player.pos = (100, 180);
    let far1 = zombie_at(10, GROUND);
    let far2 = zombie_at(250, GROUND);
    s.monsters.push(far1);
    s.monsters.push(zombie_at(100, 190));
    s.monsters.push(far2);
    s.monsters.push(zombie_at(90, 170));
    s.resolve_collisions();
    assert_eq!(s.monsters, vec![far1, far2]);
    assert!(s.score >= 2 && s.score <= 6);
}

#[test]
fn lateral_collision_costs_one_health() {
    let mut s = playing(5);
    s.monsters.push(zombie_at(s.player.pos.0 + 5, GROUND));
    let before = s.monsters.clone();
    s.resolve_collisions();
    assert_eq!(s.player.health, 3);
    assert_eq!(s.monsters, before);
    assert_eq!(s.score, 0);
    assert_eq!(s.screen, Screen::Game);
}

#[test]
fn four_lateral_collisions_end_the_session() {
    let mut s = playing(6);
    s.monsters.push(zombie_at(s.player.pos.0 - 3, GROUND));
    for expected in [3, 2, 1].iter() {
        s.resolve_collisions();
        assert_eq!(s.player.health, *expected);
        assert_eq!(s.screen, Screen::Game);
    }
    s.resolve_collisions();
    assert_eq!(s.player.health, 0);
    assert_eq!(s.screen, Screen::Death);
    s.resolve_collisions();
    assert_eq!(s.player.health, 0);
    assert_eq!(s.screen, Screen::Death);
}

#[test]
fn no_contact_changes_nothing() {
    let mut s = playing(7);
    s.monsters.push(zombie_at(0, GROUND));
    s.resolve_collisions();
    assert_eq!(s.player.health, 4);
    assert_eq!(s.monsters.len(), 1);
}

#[test]
fn passing_a_multiple_of_five_raises_difficulty() {
    let mut s = playing(8);
    s.score = 4;
    s.player.falling = true;
    s.monsters.push(zombie_at(s.player.pos.0, s.player.pos.1));
    s.resolve_collisions();
    assert!(s.score >= 5 && s.score <= 7);
    assert_eq!(s.difficulty, 1);
}

#[test]
fn stomp_below_a_multiple_keeps_difficulty() {
    let mut s = playing(9);
    s.score = 5;
    s.player.falling = true;
    s.monsters.push(zombie_at(s.player.pos.0, s.player.pos.1));
    s.resolve_collisions();
    assert!(s.score >= 6 && s.score <= 8);
    assert_eq!(s.difficulty, 0);
}

#[test]
fn countdown_spawns_a_batch() {
    let mut s = playing(10);
    s.ticks = 60 * s.spawn_cycle - 1;
    s.spawn_tick();
    assert_eq!(s.ticks, 0);
    assert!(s.monsters.len() >= 2 && s.monsters.len() <= 4);
    assert!(s.spawn_cycle >= 4 && s.spawn_cycle <= 8);
}

#[test]
fn higher_difficulty_spawns_bigger_batches() {
    let mut s = playing(11);
    s.difficulty = 10;
    s.ticks = 60 * s.spawn_cycle - 1;
    s.spawn_tick();
    assert!(s.monsters.len() >= 12 && s.monsters.len() <= 14);
}

#[test]
fn title_screen_does_not_spawn() {
    let mut s = MainState::new(1, 12);
    s.ticks = 60 * s.spawn_cycle - 1;
    let cycle = s.spawn_cycle;
    s.spawn_tick();
    assert_eq!(s.ticks, 60 * cycle);
    assert!(s.monsters.is_empty());
}

#[test]
fn death_screen_spawns_unless_paused() {
    let mut s = playing(13);
    s.screen = Screen::Death;
    s.ticks = 60 * s.spawn_cycle - 1;
    s.update();
    assert!(s.monsters.len() >= 2);

    let mut p = playing(13);
    p.screen = Screen::Death;
    p.pause_on_death = true;
    p.monsters.push(zombie_at(40, GROUND));
    p.ticks = 60 * p.spawn_cycle - 1;
    p.update();
    assert_eq!(p.monsters, vec![zombie_at(40, GROUND)]);
}

#[test]
fn update_moves_monsters_and_resolves_hits() {
    let mut s = playing(14);
    let mut m = zombie_at(s.player.pos.0 + 4, GROUND);
    m.ticks = 1;
    m.facing = Direction::Right;
    s.monsters.push(m);
    s.update();
    assert_eq!(s.monsters.len(), 1);
    assert_eq!(s.monsters[0].pos.0, s.player.pos.0 + 5);
    assert_eq!(s.player.health, 3);
    assert_eq!(s.ticks, 1);
}

#[test]
fn fixed_step_moves_player_and_jump_clock() {
    let mut s = playing(15);
    s.key_down(Key::Right, false);
    s.fixed_step();
    assert_eq!(s.player.pos.0, 154);
    assert_eq!(s.player.facing, Direction::Right);
    s.key_down(Key::Jump, false);
    s.fixed_step();
    assert!(s.player.falling);
    assert_eq!(s.player.pos.1, GROUND - 1);
    s.fixed_step();
    assert_eq!(s.player.jump, 1);
    assert_eq!(s.player.pos.1, 209);
}

#[test]
fn dead_player_ignores_input() {
    let mut s = playing(16);
    s.player.health = 0;
    s.key_down(Key::Left, false);
    s.fixed_step();
    assert_eq!(s.player.pos.0, 152);
}

#[test]
fn arrow_keys_set_walk_and_run() {
    let mut s = playing(17);
    s.key_down(Key::Left, false);
    assert_eq!(s.input.x, -WALK_SPEED);
    assert_eq!(s.player.facing, Direction::Left);
    s.key_down(Key::Shift, false);
    assert_eq!(s.input.x, -RUN_SPEED);
    s.key_down(Key::Right, true);
    assert_eq!(s.input.x, RUN_SPEED);
    assert_eq!(s.player.facing, Direction::Right);
    s.key_up(Key::Right);
    assert_eq!(s.input.x, 0);
    s.key_down(Key::Shift, false);
    assert_eq!(s.input.x, 0);
}

#[test]
fn jump_and_attack_keys_set_flags() {
    let mut s = playing(18);
    s.key_down(Key::Jump, false);
    assert!(s.input.jump);
    assert_eq!(s.player.jump_from, s.player.pos.1);
    s.key_up(Key::Jump);
    assert!(!s.input.jump);
    s.player.falling = true;
    s.key_down(Key::Jump, false);
    assert!(!s.input.jump);
    s.key_down(Key::Attack, false);
    assert!(s.input.attack);
    s.key_up(Key::Attack);
    assert!(!s.input.attack);
    s.key_down(Key::Other, true);
    assert!(!s.input.attack);
}

#[test]
fn play_button_starts_a_round_from_title_and_death() {
    let mut s = MainState::new(2, 19);
    s.mouse_button_down((10, 10), (10, 10));
    assert_eq!(s.screen, Screen::Title);
    s.mouse_button_down((300, 300), (230, 230));
    assert_eq!(s.screen, Screen::Game);
    s.score = 12;
    s.difficulty = 2;
    s.player.health = 0;
    s.monsters.push(zombie_at(5, 432));
    s.mouse_button_down((300, 300), (230, 230));
    assert_eq!(s.score, 12);
    s.screen = Screen::Death;
    s.mouse_button_down((352, 352), (272, 272));
    assert_eq!(s.screen, Screen::Game);
    assert_eq!(s.score, 0);
    assert_eq!(s.difficulty, 0);
    assert_eq!(s.player.health, 4);
    assert!(s.monsters.is_empty());
    assert_eq!(s.ticks, 0);
}

#[test]
fn play_button_rises_under_mouse() {
    let mut s = MainState::new(1, 20);
    s.mouse_motion((150, 150), (110, 110));
    assert_eq!(s.gui.play.pos, (144, 100));
    s.mouse_motion((0, 0), (0, 0));
    assert_eq!(s.gui.play.pos, (144, 104));
}

#[test]
fn button_hover_raises_and_lowers() {
    let mut b = Button { pos: (10, 20), width: 8, scale: 2, hover: false };
    Button::hover(&mut b, (25, 25), (45, 45), 2);
    assert_eq!(b.pos, (10, 12));
    assert!(b.hover);
    Button::hover(&mut b, (25, 25), (30, 30), 2);
    assert_eq!(b.pos, (10, 12));
    Button::hover(&mut b, (0, 0), (0, 0), 2);
    assert_eq!(b.pos, (10, 20));
    assert!(!b.hover);
}

#[test]
fn pointer_just_past_button_edge_misses() {
    let mut s = MainState::new(1, 21);
    // a pointer at 176.5 lies between whole pixels 176 and 177
    s.mouse_button_down((176, 177), (110, 110));
    assert_eq!(s.screen, Screen::Title);
    s.mouse_button_down((176, 176), (136, 136));
    assert_eq!(s.screen, Screen::Game);
}

#[test]
fn pointer_just_before_button_edge_misses() {
    let mut s = MainState::new(1, 22);
    // a pointer at 143.5 lies between whole pixels 143 and 144
    s.mouse_motion((143, 144), (110, 110));
    assert_eq!(s.gui.play.pos, (144, 104));
    s.mouse_motion((144, 145), (110, 111));
    assert_eq!(s.gui.play.pos, (144, 100));
}
