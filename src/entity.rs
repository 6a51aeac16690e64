use oorandom::Rand32;
use vstd::prelude::*;

verus! {

/// Width of the screen in logical pixels.
pub const SCREEN_WIDTH: i16 = 320;

/// Height of the screen in logical pixels.
pub const SCREEN_HEIGHT: i16 = 240;

/// The ground line, in logical pixels from the top.
pub const GROUND: i16 = SCREEN_HEIGHT - 24;

/// Width and height of every sprite, in logical pixels.
pub const SPRITE_SIZE: i16 = 16;

/// Largest display scale at which the window's width in pixels fits an `i16`.
pub const MAX_SCALE: i16 = 102;

/// The kinds of actor.
#[derive(Clone, Copy, Debug, PartialEq, Eq, Structural)]
pub enum EntityType {
    Player,
    Zombie,
    Skeleton,
}

/// The way an actor faces.
#[derive(Clone, Copy, Debug, PartialEq, Eq, Structural)]
pub enum Direction {
    Left,
    Right,
}

/// Animation frames: standing, then four steps of the walk cycle.
#[derive(Clone, Copy, Debug, PartialEq, Eq, Structural)]
pub enum Frame {
    Stand,
    Walk1,
    Walk2,
    Walk3,
    Walk4,
}

/// The frame that follows `f` in the cycle Stand, Walk1, .., Walk4, Stand.
pub open spec fn next_frame(f: Frame) -> Frame {
    match f {
        Frame::Stand => Frame::Walk1,
        Frame::Walk1 => Frame::Walk2,
        Frame::Walk2 => Frame::Walk3,
        Frame::Walk3 => Frame::Walk4,
        Frame::Walk4 => Frame::Stand,
    }
}

/// Scales at which the simulation runs.
pub open spec fn valid_scale(scale: i16) -> bool {
    1 <= scale <= MAX_SCALE
}

/// The ground line in window coordinates.
pub open spec fn ground(scale: i16) -> int {
    GROUND * scale
}

/// The rightmost position of a sprite that stays on screen.
pub open spec fn right_edge(scale: i16) -> int {
    (SCREEN_WIDTH - SPRITE_SIZE) * scale
}

pub open spec fn clamp(v: int, lo: int, hi: int) -> int {
    if v < lo {
        lo
    } else if v > hi {
        hi
    } else {
        v
    }
}

/// Integer division rounded toward zero, as casting a quotient to an integer rounds.
pub open spec fn div_toward_zero(n: int, d: int) -> int {
    if n >= 0 {
        n / d
    } else {
        -((-n) / d)
    }
}

/// `v` brought into the range of `i16`, as a cast from a float saturates.
pub open spec fn saturate_i16(v: int) -> int {
    clamp(v, i16::MIN as int, i16::MAX as int)
}

/// Height of the player `jump` quarter steps into an arc that leaves from `from`:
/// the parabola `4.9 t^2 - 23.7 t` logical pixels at `t = jump / 4`, scaled and
/// added to the origin.
pub open spec fn player_arc(from: i16, jump: u16, scale: i16) -> int {
    let t = jump as int;
    saturate_i16(div_toward_zero(160 * from + scale * (49 * (t * t) - 948 * t), 160))
}

/// Height of a monster `jump` ticks into its arrival: `1.09 t^2 - 8` logical
/// pixels, scaled.
pub open spec fn monster_arc(jump: u16, scale: i16) -> int {
    let t = jump as int;
    saturate_i16(div_toward_zero(scale * (109 * (t * t) - 800), 100))
}

fn div_toward_zero_exec(n: i64, d: i64) -> (r: i64)
    requires
        d > 0,
        n > i64::MIN,
    ensures
        r == div_toward_zero(n as int, d as int),
{
    if n >= 0 {
        n / d
    } else {
        -((-n) / d)
    }
}

fn saturate_to_i16(v: i64) -> (r: i16)
    ensures
        r == saturate_i16(v as int),
{
    if v < i16::MIN as i64 {
        i16::MIN
    } else if v > i16::MAX as i64 {
        i16::MAX
    } else {
        v as i16
    }
}

/// The square of a step count, with the bound that keeps the arcs' arithmetic
/// inside `i64`.
fn square(jump: u16) -> (r: i64)
    ensures
        r == (jump as int) * (jump as int),
        0 <= r <= 65535 * 65535,
{
    let t = jump as i64;
    assert(0 <= t * t <= 65535 * 65535) by (nonlinear_arith)
        requires
            0 <= t <= 65535,
    ;
    t * t
}

/// The player's height on its jump arc.
pub fn player_height(from: i16, jump: u16, scale: i16) -> (r: i16)
    requires
        valid_scale(scale),
    ensures
        r == player_arc(from, jump, scale),
{
    let t = jump as i64;
    let sq = square(jump);
    let q = 49 * sq - 948 * t;
    let s = scale as i64;
    assert(-102 * 948 * 65535 <= s * q <= 102 * 49 * 65535 * 65535) by (nonlinear_arith)
        requires
            1 <= s <= 102,
            -948 * 65535 <= q <= 49 * 65535 * 65535,
    ;
    let n = 160 * (from as i64) + s * q;
    saturate_to_i16(div_toward_zero_exec(n, 160))
}

/// A monster's height on its arrival arc.
pub fn monster_height(jump: u16, scale: i16) -> (r: i16)
    requires
        valid_scale(scale),
    ensures
        r == monster_arc(jump, scale),
{
    let sq = square(jump);
    let q = 109 * sq - 800;
    let s = scale as i64;
    assert(-102 * 800 <= s * q <= 102 * 109 * 65535 * 65535) by (nonlinear_arith)
        requires
            1 <= s <= 102,
            -800 <= q <= 109 * 65535 * 65535,
    ;
    saturate_to_i16(div_toward_zero_exec(s * q, 100))
}

/// An actor: the player or a monster.
///
/// `pos` is the sprite's top-left corner in window coordinates. `jump` counts
/// the steps spent on the current arc (quarter steps of time for the player,
/// ticks for a monster) and `jump_from` is the height the arc leaves from.
/// `ticks` counts a monster's ticks since its last patrol step.
#[derive(Clone, Copy, Debug, PartialEq, Eq)]
pub struct Entity {
    pub tag: EntityType,
    pub pos: (i16, i16),
    pub facing: Direction,
    pub frame: Frame,
    pub falling: bool,
    pub jump: u16,
    pub jump_from: i16,
    pub health: i8,
    pub ticks: i8,
}

/// Horizontal speed of a walk, in logical pixels per step.
pub const WALK_SPEED: i16 = 2;

/// Horizontal speed of a run, in logical pixels per step.
pub const RUN_SPEED: i16 = 5;

/// What the player is asking for.
///
/// `x` is the signed horizontal displacement per step in logical pixels (0,
/// a walk or a run). `jump_spam` latches once a held jump has landed, so that
/// holding the key does not chain jumps.
#[derive(Clone, Copy, Debug, PartialEq, Eq)]
pub struct InputState {
    pub x: i16,
    pub jump: bool,
    pub attack: bool,
    pub jump_spam: bool,
}

impl Default for InputState {
    fn default() -> (r: Self)
        ensures
            r == (InputState { x: 0, jump: false, attack: false, jump_spam: false }),
    {
        InputState { x: 0, jump: false, attack: false, jump_spam: false }
    }
}

/// Moves an actor to the next frame of the walk cycle.
pub fn advance_animation(entity: &mut Entity)
    ensures
        *final(entity) == (Entity { frame: next_frame(old(entity).frame), ..*old(entity) }),
{
    match entity.frame {
        Frame::Stand => entity.frame = Frame::Walk1,
        Frame::Walk1 => entity.frame = Frame::Walk2,
        Frame::Walk2 => entity.frame = Frame::Walk3,
        Frame::Walk3 => entity.frame = Frame::Walk4,
        Frame::Walk4 => entity.frame = Frame::Stand,
    }
}

/// Where a jump leaves from: an origin on the ground is lifted by one pixel so
/// that the arc does not land on its first step.
pub open spec fn launch_origin(from: i16, scale: i16) -> i16 {
    if from == ground(scale) {
        (from - 1) as i16
    } else {
        from
    }
}

/// The horizontal position after one step of input.
pub open spec fn stepped_x(x: i16, dx: i16, scale: i16) -> i16 {
    clamp(x + dx * scale, 0, right_edge(scale)) as i16
}

/// The player after one step of input, before the animation frame is chosen.
pub open spec fn player_motion(e: Entity, i: InputState, scale: i16) -> Entity {
    let x = stepped_x(e.pos.0, i.x, scale);
    let g = ground(scale);
    if i.jump && !i.jump_spam {
        let from = launch_origin(e.jump_from, scale);
        let y = player_arc(from, e.jump, scale);
        if y >= g {
            Entity { pos: (x, g as i16), jump: 0, jump_from: from, falling: false, ..e }
        } else {
            Entity { pos: (x, y as i16), jump_from: from, falling: true, ..e }
        }
    } else if !i.jump {
        let y = if e.pos.1 >= g {
            g
        } else {
            player_arc(e.jump_from, e.jump, scale)
        };
        if y >= g {
            Entity { pos: (x, g as i16), jump: 0, falling: false, ..e }
        } else {
            Entity { pos: (x, y as i16), ..e }
        }
    } else {
        Entity { pos: (x, e.pos.1), falling: false, ..e }
    }
}

/// The player after one step of input: airborne it shows the jump pose,
/// moving it walks on through the cycle, otherwise it stands.
pub open spec fn player_after(e: Entity, i: InputState, scale: i16) -> Entity {
    let m = player_motion(e, i, scale);
    let frame = if m.falling {
        Frame::Walk2
    } else if i.x != 0 {
        next_frame(e.frame)
    } else {
        Frame::Stand
    };
    Entity { frame, ..m }
}

/// Whether the jump latch is set after one step of input: a held jump that
/// landed sets it, a released jump clears it.
pub open spec fn latch_after(e: Entity, i: InputState, scale: i16) -> bool {
    if i.jump && !i.jump_spam {
        player_arc(launch_origin(e.jump_from, scale), e.jump, scale) >= ground(scale)
    } else {
        i.jump
    }
}

/// Moves the player one step as the input asks: sideways within the screen,
/// along the jump arc, and on through the animation frames.
pub fn handle_player_input(entity: &mut Entity, input: &mut InputState, scale: i16)
    requires
        valid_scale(scale),
    ensures
        *final(entity) == player_after(*old(entity), *old(input), scale),
        *final(input) == (InputState { jump_spam: latch_after(*old(entity), *old(input), scale), ..*old(input) }),
        0 <= final(entity).pos.0 <= right_edge(scale),
        old(entity).pos.1 <= ground(scale) ==> final(entity).pos.1 <= ground(scale),
{
    let ghost e0 = *entity;
    let g: i16 = GROUND * scale;
    let right: i16 = (SCREEN_WIDTH - SPRITE_SIZE) * scale;
    let dx: i32 = input.x as i32;
    let sc: i32 = scale as i32;
    assert(-32768 * 102 <= dx * sc <= 32767 * 102) by (nonlinear_arith)
        requires
            -32768 <= dx <= 32767,
            1 <= sc <= 102,
    ;
    let x: i32 = entity.pos.0 as i32 + dx * sc;
    if x < 0 {
        entity.pos = (0, entity.pos.1);
    } else if x > right as i32 {
        entity.pos = (right, entity.pos.1);
    } else {
        entity.pos = (x as i16, entity.pos.1);
    }

    if input.x != 0 {
        advance_animation(entity);
    } else {
        entity.frame = Frame::Stand;
    }

    if input.jump && !input.jump_spam {
        entity.falling = true;
        if entity.jump_from == g {
            entity.jump_from = g - 1;
        }
        entity.pos = (entity.pos.0, player_height(entity.jump_from, entity.jump, scale));
        if entity.pos.1 >= g {
            entity.pos = (entity.pos.0, g);
            entity.jump = 0;
            input.jump_spam = true;
        }
    } else if !input.jump {
        if entity.pos.1 >= g {
            entity.falling = false;
            entity.jump = 0;
            entity.pos = (entity.pos.0, g);
        } else {
            entity.pos = (entity.pos.0, player_height(entity.jump_from, entity.jump, scale));
            if entity.pos.1 >= g {
                entity.falling = false;
                entity.jump = 0;
                entity.pos = (entity.pos.0, g);
            }
        }
        input.jump_spam = false;
    }

    if input.jump_spam {
        entity.falling = false;
    }

    if entity.falling {
        entity.frame = Frame::Walk2;
    }
    assert(entity.pos.0 == stepped_x(e0.pos.0, input.x, scale));
}

/// Left margin of the band where monsters enter, in logical pixels.
pub const SPAWN_LEFT: i16 = 16;

/// Right end (excluded) of the band where monsters enter, in logical pixels.
pub const SPAWN_RIGHT: i16 = SCREEN_WIDTH - 32;

/// Height at which monsters enter, in logical pixels.
pub const SPAWN_HEIGHT: i16 = 8;

/// A monster takes one patrol step every this many ticks on the ground.
pub const MONSTER_MOVE_RATE: i8 = 2;

/// A monster as it enters: one of the two monster kinds, at the top of the
/// screen, at a logical pixel within the spawn band, on its arrival arc.
pub open spec fn fresh_monster(m: Entity, scale: i16) -> bool {
    &&& (m.tag == EntityType::Zombie || m.tag == EntityType::Skeleton)
    &&& SPAWN_LEFT * scale <= m.pos.0 < SPAWN_RIGHT * scale
    &&& m.pos.0 % scale == 0
    &&& m.pos.1 == SPAWN_HEIGHT * scale
    &&& m.frame == Frame::Walk2
    &&& m.falling
    &&& m.jump == 0
    &&& m.jump_from == m.pos.1
    &&& m.health == 1
    &&& m.ticks == 0
}

/// A monster whose patrol counter is in range.
pub open spec fn monster_wf(m: Entity) -> bool {
    0 <= m.ticks < MONSTER_MOVE_RATE
}

/// The monster that three draws give: kind draw 0 a Zombie and otherwise a
/// Skeleton, entering at logical column `column`, facing left on facing draw 0
/// and right otherwise.
pub open spec fn monster_from_draws(kind_draw: u32, column: u32, facing_draw: u32, scale: i16) -> Entity {
    let y = (SPAWN_HEIGHT * scale) as i16;
    Entity {
        tag: if kind_draw == 0 {
            EntityType::Zombie
        } else {
            EntityType::Skeleton
        },
        pos: ((column * scale) as i16, y),
        facing: if facing_draw == 0 {
            Direction::Left
        } else {
            Direction::Right
        },
        frame: Frame::Walk2,
        falling: true,
        jump: 0,
        jump_from: y,
        health: 1,
        ticks: 0,
    }
}

/// Builds the monster that three draws give; a column within the spawn band
/// makes a fresh monster.
pub fn new_monster(kind_draw: u32, column: u32, facing_draw: u32, scale: i16) -> (m: Entity)
    requires
        valid_scale(scale),
        SPAWN_LEFT <= column < SPAWN_RIGHT,
    ensures
        m == monster_from_draws(kind_draw, column, facing_draw, scale),
        fresh_monster(m, scale),
{
    let column = column as i16;
    assert(SPAWN_LEFT * scale <= column * scale < SPAWN_RIGHT * scale && (column * scale) % (scale as int)
        == 0) by (nonlinear_arith)
        requires
            SPAWN_LEFT <= column < SPAWN_RIGHT,
            1 <= scale,
    ;
    let y: i16 = SPAWN_HEIGHT * scale;
    Entity {
        tag: if kind_draw == 0 {
            EntityType::Zombie
        } else {
            EntityType::Skeleton
        },
        pos: (column * scale, y),
        facing: if facing_draw == 0 {
            Direction::Left
        } else {
            Direction::Right
        },
        frame: Frame::Walk2,
        falling: true,
        jump: 0,
        jump_from: y,
        health: 1,
        ticks: 0,
    }
}

/// Whether `m` is what some draws of `spawn_monsters`' three ranges give.
pub open spec fn drawn_monster(m: Entity, scale: i16) -> bool {
    exists|k: u32, c: u32, f: u32|
        k < 2 && SPAWN_LEFT <= c < SPAWN_RIGHT && f < 2 && m == #[trigger] monster_from_draws(k, c, f, scale)
}

/// Adds `count` fresh monsters at the end of `monster_list`. Each takes three
/// draws in turn, of 0..2, `SPAWN_LEFT..SPAWN_RIGHT` and 0..2, which
/// `new_monster` turns into its kind, column and facing.
pub fn spawn_monsters(rng: &mut Rand32, monster_list: &mut Vec<Entity>, count: u32, scale: i16)
    requires
        valid_scale(scale),
    ensures
        final(monster_list)@.len() == old(monster_list)@.len() + count,
        final(monster_list)@.subrange(0, old(monster_list)@.len() as int) == old(monster_list)@,
        forall|i: int|
            old(monster_list)@.len() <= i < final(monster_list)@.len() ==> fresh_monster(
                #[trigger] final(monster_list)@[i],
                scale,
            ) && drawn_monster(final(monster_list)@[i], scale),
{
    let ghost start = monster_list@;
    let mut n: u32 = 0;
    while n < count
        invariant
            valid_scale(scale),
            n <= count,
            monster_list@.len() == start.len() + n,
            monster_list@.subrange(0, start.len() as int) == start,
            forall|i: int|
                start.len() <= i < monster_list@.len() ==> fresh_monster(
                    #[trigger] monster_list@[i],
                    scale,
                ) && drawn_monster(monster_list@[i], scale),
        decreases count - n,
    {
        let kind_draw = rng.rand_range(0..2);
        let column = rng.rand_range(SPAWN_LEFT as u32..SPAWN_RIGHT as u32);
        let facing_draw = rng.rand_range(0..2);
        let monster = new_monster(kind_draw, column, facing_draw, scale);
        assert(drawn_monster(monster, scale));
        monster_list.push(monster);
        n = n + 1;
        assert(monster_list@.subrange(0, start.len() as int) =~= start);
    }
}

/// One patrol step: a scale-step in the facing direction, turning round at the
/// screen's edges, and on to the next walk frame.
pub open spec fn patrol_step(m: Entity, scale: i16) -> Entity {
    let x = match m.facing {
        Direction::Left => m.pos.0 - scale,
        Direction::Right => m.pos.0 + scale,
    };
    let r = right_edge(scale);
    let (facing, nx) = if x < 0 {
        (Direction::Right, 0)
    } else if x > r {
        (Direction::Left, r)
    } else {
        (m.facing, x)
    };
    Entity { pos: (nx as i16, m.pos.1), facing, frame: next_frame(m.frame), ticks: 0, ..m }
}

/// A monster after one tick: on the ground it counts ticks and patrols every
/// `MONSTER_MOVE_RATE` of them; in the air it follows its arrival arc; it
/// lands once it reaches the ground.
pub open spec fn monster_step(m: Entity, scale: i16) -> Entity {
    let counted = if m.falling {
        m
    } else {
        Entity { ticks: (m.ticks + 1) as i8, ..m }
    };
    let walked = if !m.falling && counted.ticks == MONSTER_MOVE_RATE {
        patrol_step(counted, scale)
    } else {
        counted
    };
    let fell = if m.falling {
        Entity {
            pos: (walked.pos.0, monster_arc(walked.jump, scale) as i16),
            jump: if walked.jump < u16::MAX {
                (walked.jump + 1) as u16
            } else {
                walked.jump
            },
            ..walked
        }
    } else {
        walked
    };
    if fell.pos.1 >= ground(scale) {
        Entity { falling: false, pos: (fell.pos.0, ground(scale) as i16), ..fell }
    } else {
        fell
    }
}

fn update_monster(monster: &mut Entity, scale: i16)
    requires
        valid_scale(scale),
        monster_wf(*old(monster)),
    ensures
        *final(monster) == monster_step(*old(monster), scale),
        monster_wf(*final(monster)),
{
    let g: i16 = GROUND * scale;
    let right: i16 = (SCREEN_WIDTH - SPRITE_SIZE) * scale;
    if !monster.falling {
        monster.ticks += 1;
    }
    if monster.ticks == MONSTER_MOVE_RATE && !monster.falling {
        let x: i32 = match monster.facing {
            Direction::Left => monster.pos.0 as i32 - scale as i32,
            Direction::Right => monster.pos.0 as i32 + scale as i32,
        };
        if x < 0 {
            monster.facing = Direction::Right;
            monster.pos = (0, monster.pos.1);
        } else if x > right as i32 {
            monster.facing = Direction::Left;
            monster.pos = (right, monster.pos.1);
        } else {
            monster.pos = (x as i16, monster.pos.1);
        }
        advance_animation(monster);
        monster.ticks = 0;
    }
    if monster.falling {
        monster.pos = (monster.pos.0, monster_height(monster.jump, scale));
        if monster.jump < u16::MAX {
            monster.jump += 1;
        }
    }
    if monster.pos.1 >= g {
        monster.falling = false;
        monster.pos = (monster.pos.0, g);
    }
}

/// Advances every monster by one tick, in place and in order.
pub fn update_monsters(monster_list: &mut Vec<Entity>, scale: i16)
    requires
        valid_scale(scale),
        forall|i: int| 0 <= i < old(monster_list)@.len() ==> monster_wf(#[trigger] old(monster_list)@[i]),
    ensures
        final(monster_list)@.len() == old(monster_list)@.len(),
        forall|i: int|
            0 <= i < old(monster_list)@.len() ==> #[trigger] final(monster_list)@[i] == monster_step(
                old(monster_list)@[i],
                scale,
            ),
        forall|i: int| 0 <= i < final(monster_list)@.len() ==> monster_wf(#[trigger] final(monster_list)@[i]),
{
    let ghost start = monster_list@;
    let mut i: usize = 0;
    while i < monster_list.len()
        invariant
            valid_scale(scale),
            i <= monster_list@.len(),
            monster_list@.len() == start.len(),
            forall|j: int| 0 <= j < i ==> #[trigger] monster_list@[j] == monster_step(start[j], scale),
            forall|j: int| i <= j < start.len() ==> #[trigger] monster_list@[j] == start[j],
            forall|j: int| 0 <= j < start.len() ==> monster_wf(#[trigger] start[j]),
            forall|j: int| 0 <= j < i ==> monster_wf(#[trigger] monster_list@[j]),
        decreases start.len() - i,
    {
        update_monster(&mut monster_list[i], scale);
        i = i + 1;
    }
}

/// Whether two actors are close enough to touch: both coordinates within one
/// sprite size of each other.
pub open spec fn touching(a: Entity, b: Entity, scale: i16) -> bool {
    let d = SPRITE_SIZE * scale;
    -d <= a.pos.0 - b.pos.0 <= d && -d <= a.pos.1 - b.pos.1 <= d
}

/// Tests whether two actors touch.
pub fn is_touching(entity1: &Entity, entity2: &Entity, scale: i16) -> (r: bool)
    requires
        valid_scale(scale),
    ensures
        r == touching(*entity1, *entity2, scale),
{
    let d: i32 = SPRITE_SIZE as i32 * scale as i32;
    let dx: i32 = entity1.pos.0 as i32 - entity2.pos.0 as i32;
    let dy: i32 = entity1.pos.1 as i32 - entity2.pos.1 as i32;
    -d <= dx && dx <= d && -d <= dy && dy <= d
}

pub open spec fn kind_index(t: EntityType) -> int {
    match t {
        EntityType::Player => 0,
        EntityType::Zombie => 1,
        EntityType::Skeleton => 2,
    }
}

pub open spec fn frame_index(f: Frame) -> int {
    match f {
        Frame::Stand => 0,
        Frame::Walk1 => 1,
        Frame::Walk2 => 2,
        Frame::Walk3 => 3,
        Frame::Walk4 => 4,
    }
}

pub open spec fn facing_index(d: Direction) -> int {
    match d {
        Direction::Left => 0,
        Direction::Right => 1,
    }
}

/// Number of sprites in the sheet: one per kind, frame and facing.
pub const SPRITE_COUNT: usize = 30;

/// Index of an actor's sprite in a sheet laid out by kind, then frame, then
/// facing (left before right).
pub fn sprite_id(tag: EntityType, facing: Direction, frame: Frame) -> (r: usize)
    ensures
        r == 10 * kind_index(tag) + 2 * frame_index(frame) + facing_index(facing),
        r < SPRITE_COUNT,
{
    let k: usize = match tag {
        EntityType::Player => 0,
        EntityType::Zombie => 1,
        EntityType::Skeleton => 2,
    };
    let f: usize = match frame {
        Frame::Stand => 0,
        Frame::Walk1 => 1,
        Frame::Walk2 => 2,
        Frame::Walk3 => 3,
        Frame::Walk4 => 4,
    };
    let d: usize = match facing {
        Direction::Left => 0,
        Direction::Right => 1,
    };
    10 * k + 2 * f + d
}

} // verus!
