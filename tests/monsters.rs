use oorandom::Rand32;
use stomper::entity::{
    advance_animation, new_monster, is_touching, monster_height, spawn_monsters, update_monsters, Direction, Entity, EntityType, Frame, GROUND,
};

fn monster_at(x: i16, y: i16, facing: Direction) -> Entity {
    Entity {
        tag: EntityType::Zombie,
        pos: (x, y),
        facing,
        frame: Frame::Stand,
        falling: false,
        jump: 0,
        jump_from: y,
        health: 1,
        ticks: 0,
    }
}

#[test]
fn monster_arc_exact_values() {
    assert_eq!(monster_height(0, 1), -8);
    // 1.09 - 8 = -6.91, cut toward zero
    assert_eq!(monster_height(1, 1), -6);
    assert_eq!(monster_height(1, 2), -13);
    // 1.09 * 225 - 8 = 237.25
    assert_eq!(monster_height(15, 1), 237);
    assert_eq!(monster_height(10, 3), 303);
}

#[test]
fn grounded_monster_steps_every_second_tick() {
    let mut list = vec![monster_at(100, GROUND, Direction::Right)];
    update_monsters(&mut list, 1);
    assert_eq!(list[0].pos.0, 100);
    assert_eq!(list[0].ticks, 1);
    update_monsters(&mut list, 1);
    assert_eq!(list[0].pos.0, 101);
    assert_eq!(list[0].ticks, 0);
    assert_eq!(list[0].frame, Frame::Walk1);
    update_monsters(&mut list, 1);
    update_monsters(&mut list, 1);
    assert_eq!(list[0].pos.0, 102);
    assert_eq!(list[0].frame, Frame::Walk2);
}

#[test]
fn monster_turns_at_left_edge() {
    let mut m = monster_at(1, 2 * GROUND, Direction::Left);
    m.ticks = 1;
    let mut list = vec![m];
    update_monsters(&mut list, 2);
    assert_eq!(list[0].pos.0, 0);
    assert_eq!(list[0].facing, Direction::Right);
}

#[test]
fn monster_turns_at_right_edge() {
    let mut m = monster_at(304, GROUND, Direction::Right);
    m.ticks = 1;
    let mut list = vec![m];
    update_monsters(&mut list, 1);
    assert_eq!(list[0].pos.0, 304);
    assert_eq!(list[0].facing, Direction::Left);
}

#[test]
fn falling_monster_follows_arrival_arc_and_lands() {
    let mut m = monster_at(50, 8, Direction::Left);
    m.falling = true;
    m.frame = Frame::Walk2;
    let mut list = vec![m];
    update_monsters(&mut list, 1);
    assert_eq!(list[0].pos.1, -8);
    assert_eq!(list[0].jump, 1);
    assert!(list[0].falling);
    assert_eq!(list[0].pos.0, 50);
    for _ in 0..14 {
        update_monsters(&mut list, 1);
    }
    assert_eq!(list[0].jump, 15);
    assert!(list[0].falling);
    update_monsters(&mut list, 1);
    assert_eq!(list[0].pos.1, GROUND);
    assert!(!list[0].falling);
}

#[test]
fn touching_is_within_one_sprite() {
    let a = monster_at(100, 100, Direction::Left);
    let b = monster_at(116, 84, Direction::Left);
    let c = monster_at(117, 100, Direction::Left);
    assert!(is_touching(&a, &b, 1));
    assert!(!is_touching(&a, &c, 1));
    assert!(is_touching(&a, &c, 2));
}

#[test]
fn spawned_monsters_are_fresh() {
    let mut rng = Rand32::new(12345);
    let mut list = vec![monster_at(10, GROUND, Direction::Left)];
    spawn_monsters(&mut rng, &mut list, 40, 2);
    assert_eq!(list.len(), 41);
    assert_eq!(list[0], monster_at(10, GROUND, Direction::Left));
    let mut columns = std::collections::HashSet::new();
    for m in &list[1..] {
        assert!(m.tag == EntityType::Zombie || m.tag == EntityType::Skeleton);
        assert!(m.pos.0 >= 32 && m.pos.0 < 576);
        assert_eq!(m.pos.0 % 2, 0);
        assert_eq!(m.pos.1, 16);
        assert_eq!(m.jump_from, 16);
        assert!(m.falling);
        assert_eq!(m.frame, Frame::Walk2);
        assert_eq!(m.health, 1);
        assert_eq!(m.ticks, 0);
        columns.insert(m.pos.0);
    }
    assert!(columns.len() > 1);
}

#[test]
fn spawning_zero_adds_nothing() {
    let mut rng = Rand32::new(1);
    let mut list = Vec::new();
    spawn_monsters(&mut rng, &mut list, 0, 1);
    assert!(list.is_empty());
}

#[test]
fn draws_decide_kind_column_and_facing() {
    let m = new_monster(0, 16, 0, 2);
    assert_eq!(m.tag, EntityType::Zombie);
    assert_eq!(m.pos, (32, 16));
    assert_eq!(m.facing, Direction::Left);
    assert_eq!(m.jump_from, 16);
    assert!(m.falling);
    assert_eq!(m.frame, Frame::Walk2);
    let n = new_monster(1, 287, 1, 1);
    assert_eq!(n.tag, EntityType::Skeleton);
    assert_eq!(n.pos, (287, 8));
    assert_eq!(n.facing, Direction::Right);
    assert_eq!(n.health, 1);
    assert_eq!(n.ticks, 0);
}

#[test]
fn advance_animation_has_period_five() {
    let mut m = monster_at(0, GROUND, Direction::Left);
    let expected = [Frame::Walk1, Frame::Walk2, Frame::Walk3, Frame::Walk4, Frame::Stand];
    for f in expected.iter() {
        advance_animation(&mut m);
        assert_eq!(m.frame, *f);
    }
    assert_eq!(m, monster_at(0, GROUND, Direction::Left));
}
