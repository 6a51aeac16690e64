use oorandom::Rand32;
use vstd::prelude::*;

use crate::entity::{
    drawn_monster,    MAX_SCALE,    MONSTER_MOVE_RATE,
    ground, handle_player_input, player_after, latch_after, right_edge, update_monsters,
    spawn_monsters, is_touching, touching, fresh_monster, monster_wf, monster_step, valid_scale,
    Direction, Entity, EntityType, Frame, InputState, GROUND, RUN_SPEED, WALK_SPEED,
};
use crate::gui::{Button, Gui, Screen};

verus! {

/// Health the player starts a round with.
pub const START_HEALTH: i8 = 4;

/// Horizontal start of the player, in logical pixels.
pub const START_X: i16 = 152;

/// Frames per second that the spawn countdown counts.
pub const STEPS_PER_SECOND: u32 = 60;

/// Shortest spawn cycle, in seconds.
pub const CYCLE_LOW: u32 = 4;

/// Longest spawn cycle, in seconds.
pub const CYCLE_HIGH: u32 = 8;

/// Smallest spawn batch at difficulty zero.
pub const BATCH_LOW: u32 = 2;

/// Largest spawn batch at difficulty zero.
pub const BATCH_HIGH: u32 = 4;

/// Least score a stomp gives.
pub const STOMP_LOW: u32 = 1;

/// Most score a stomp gives.
pub const STOMP_HIGH: u32 = 3;

/// Difficulty rises by one each time the score passes a multiple of this.
pub const SCORE_PER_LEVEL: u64 = 5;

/// Highest difficulty: the largest at which a batch size still fits a `u32`.
pub const MAX_DIFFICULTY: u32 = 4294967290;

/// Left edge of the play button, in logical pixels.
pub const PLAY_X: i16 = 144;

/// Top edge of the play button at rest, in logical pixels.
pub const PLAY_Y: i16 = 104;

/// Side of the play button, in logical pixels.
pub const PLAY_SIZE: i16 = 32;

/// Top edge of the play button under the mouse, in logical pixels.
pub const PLAY_RAISED_Y: i16 = 100;

/// The keys the game reacts to.
#[derive(Clone, Copy, Debug, PartialEq, Eq, Structural)]
pub enum Key {
    Left,
    Right,
    Shift,
    Jump,
    Attack,
    Other,
}

/// A session: the player, the monsters, the score and the spawn countdown.
///
/// `ticks` counts frames since the last spawn and `spawn_cycle` is the number
/// of seconds the current countdown runs. With `pause_on_death` the world
/// stands still on the death screen; without it, it runs on.
pub struct MainState {
    pub player: Entity,
    pub rng: Rand32,
    pub monsters: Vec<Entity>,
    pub spawn_cycle: u32,
    pub ticks: u32,
    pub input: InputState,
    pub scale: i16,
    pub score: u64,
    pub difficulty: u32,
    pub screen: Screen,
    pub gui: Gui,
    pub pause_on_death: bool,
}

/// Smallest batch at a difficulty.
pub open spec fn batch_min(difficulty: int) -> int {
    BATCH_LOW + difficulty
}

/// Largest batch at a difficulty.
pub open spec fn batch_max(difficulty: int) -> int {
    BATCH_HIGH + difficulty
}

/// The frame counter one frame on; it stops at its largest value.
pub open spec fn tick_after(t: u32) -> int {
    if t < u32::MAX {
        t + 1
    } else {
        t as int
    }
}

/// Whether monsters spawn on this screen.
pub open spec fn spawning(s: MainState) -> bool {
    s.screen == Screen::Game || (s.screen == Screen::Death && !s.pause_on_death)
}

/// Whether monsters move and collide on this screen.
pub open spec fn world_runs(s: MainState) -> bool {
    !(s.screen == Screen::Death && s.pause_on_death)
}

/// Whether the countdown runs out on this frame, on a screen where monsters
/// spawn.
pub open spec fn spawn_due(s: MainState) -> bool {
    tick_after(s.ticks) == STEPS_PER_SECOND * s.spawn_cycle && spawning(s)
}

/// Whether the pointer lies on the play button at rest. Each coordinate is
/// the pair of whole pixels at or below and at or above the pointer, as
/// `over_button` takes them.
pub open spec fn on_play_button(x: (i32, i32), y: (i32, i32), scale: int) -> bool {
    &&& PLAY_X * scale <= x.0 && x.1 <= (PLAY_X + PLAY_SIZE) * scale
    &&& PLAY_Y * scale <= y.0 && y.1 <= (PLAY_Y + PLAY_SIZE) * scale
}

/// `post` is `pre` after the spawn countdown's frame: when the countdown runs
/// out a batch of fresh monsters whose size the difficulty bounds is added, a
/// new cycle is drawn and the count starts again; otherwise the count moves on.
pub open spec fn spawned(pre: MainState, post: MainState) -> bool {
    let n = pre.monsters@.len();
    &&& if spawn_due(pre) {
        &&& post.ticks == 0
        &&& CYCLE_LOW <= post.spawn_cycle <= CYCLE_HIGH
        &&& batch_min(pre.difficulty as int) <= post.monsters@.len() - n <= batch_max(
            pre.difficulty as int,
        )
        &&& post.monsters@.subrange(0, n as int) == pre.monsters@
        &&& forall|i: int|
            n <= i < post.monsters@.len() ==> fresh_monster(#[trigger] post.monsters@[i], pre.scale)
                && drawn_monster(post.monsters@[i], pre.scale)
    } else {
        &&& post.ticks == tick_after(pre.ticks)
        &&& post.spawn_cycle == pre.spawn_cycle
        &&& post.monsters@ == pre.monsters@
    }
    &&& post.player == pre.player
    &&& post.input == pre.input
    &&& post.scale == pre.scale
    &&& post.score == pre.score
    &&& post.difficulty == pre.difficulty
    &&& post.screen == pre.screen
    &&& post.gui == pre.gui
    &&& post.pause_on_death == pre.pause_on_death
}

/// `post` is `pre` with every monster moved on by one tick.
pub open spec fn advanced(pre: MainState, post: MainState) -> bool {
    &&& post.monsters@.len() == pre.monsters@.len()
    &&& forall|i: int|
        0 <= i < pre.monsters@.len() ==> #[trigger] post.monsters@[i] == monster_step(
            pre.monsters@[i],
            pre.scale,
        )
    &&& post == MainState { monsters: post.monsters, ..pre }
}

/// How many of the monsters touch the player.
pub open spec fn touch_count(p: Entity, ms: Seq<Entity>, scale: i16) -> nat
    decreases ms.len(),
{
    if ms.len() == 0 {
        0
    } else {
        touch_count(p, ms.drop_last(), scale) + if touching(p, ms.last(), scale) {
            1nat
        } else {
            0nat
        }
    }
}

/// The monsters that do not touch the player, in their order.
pub open spec fn untouched(p: Entity, ms: Seq<Entity>, scale: i16) -> Seq<Entity>
    decreases ms.len(),
{
    if ms.len() == 0 {
        seq![]
    } else {
        let r = untouched(p, ms.drop_last(), scale);
        if touching(p, ms.last(), scale) {
            r
        } else {
            r.push(ms.last())
        }
    }
}

pub open spec fn min(a: int, b: int) -> int {
    if a <= b {
        a
    } else {
        b
    }
}

/// Health after `k` hits: one point each, never below zero.
pub open spec fn health_after(h: i8, k: nat) -> int {
    if h > 0 {
        if h - k >= 0 {
            h - k
        } else {
            0
        }
    } else {
        h as int
    }
}

/// `post` is `pre` after the collisions of one frame. Let `k` monsters touch
/// the player. A player in the air stomps them all: they are gone, each adds
/// between `STOMP_LOW` and `STOMP_HIGH` to the score (which stops at its
/// largest value), the difficulty rises by one per multiple of
/// `SCORE_PER_LEVEL` passed, and a stomp restarts the jump arc from the
/// player's height. A player on the ground takes one point of damage from each
/// and they all stay; the session ends when health runs out.
pub open spec fn resolved(pre: MainState, post: MainState) -> bool {
    let p = pre.player;
    let k = touch_count(p, pre.monsters@, pre.scale);
    &&& if p.falling {
        &&& post.monsters@ == untouched(p, pre.monsters@, pre.scale)
        &&& min(pre.score + k, u64::MAX as int) <= post.score <= min(
            pre.score + STOMP_HIGH * k,
            u64::MAX as int,
        )
        &&& post.difficulty == min(
            pre.difficulty + (post.score / SCORE_PER_LEVEL - pre.score / SCORE_PER_LEVEL),
            MAX_DIFFICULTY as int,
        )
        &&& post.screen == pre.screen
        &&& post.player == if k > 0 {
            Entity { jump: 0, jump_from: p.pos.1, ..p }
        } else {
            p
        }
    } else {
        &&& post.monsters@ == pre.monsters@
        &&& post.score == pre.score
        &&& post.difficulty == pre.difficulty
        &&& post.screen == if k > 0 && p.health - k <= 0 {
            Screen::Death
        } else {
            pre.screen
        }
        &&& post.player == Entity { health: health_after(p.health, k) as i8, ..p }
    }
    &&& post.input == pre.input
    &&& post.scale == pre.scale
    &&& post.ticks == pre.ticks
    &&& post.spawn_cycle == pre.spawn_cycle
    &&& post.gui == pre.gui
    &&& post.pause_on_death == pre.pause_on_death
}

/// The session after a key goes down.
pub open spec fn key_pressed(s: MainState, key: Key, shift: bool) -> MainState {
    match key {
        Key::Left => MainState {
            input: InputState {
                x: if shift {
                    -RUN_SPEED
                } else {
                    -WALK_SPEED
                } as i16,
                ..s.input
            },
            player: Entity { facing: Direction::Left, ..s.player },
            ..s
        },
        Key::Right => MainState {
            input: InputState {
                x: if shift {
                    RUN_SPEED
                } else {
                    WALK_SPEED
                },
                ..s.input
            },
            player: Entity { facing: Direction::Right, ..s.player },
            ..s
        },
        Key::Shift => MainState {
            input: InputState {
                x: if s.input.x == WALK_SPEED {
                    RUN_SPEED
                } else if s.input.x == -WALK_SPEED {
                    (-RUN_SPEED) as i16
                } else {
                    s.input.x
                },
                ..s.input
            },
            ..s
        },
        Key::Jump => if s.player.falling {
            s
        } else {
            MainState {
                input: InputState { jump: true, ..s.input },
                player: Entity { jump_from: s.player.pos.1, ..s.player },
                ..s
            }
        },
        Key::Attack => MainState {
            input: InputState { attack: true, ..s.input },
            ..s
        },
        Key::Other => s,
    }
}

/// The session after a key goes up.
pub open spec fn key_released(s: MainState, key: Key) -> MainState {
    match key {
        Key::Left | Key::Right => MainState {
            input: InputState { x: 0, ..s.input },
            ..s
        },
        Key::Jump => MainState {
            input: InputState { jump: false, ..s.input },
            ..s
        },
        Key::Attack => MainState {
            input: InputState { attack: false, ..s.input },
            ..s
        },
        _ => s,
    }
}

/// `post` is `pre` at the start of a round: the game screen, no monsters,
/// full health, and score, difficulty and spawn countdown back at zero.
pub open spec fn round_started(pre: MainState, post: MainState) -> bool {
    &&& post.monsters@.len() == 0
    &&& post == (MainState {
        screen: Screen::Game,
        monsters: post.monsters,
        player: Entity { health: START_HEALTH, ..pre.player },
        score: 0,
        difficulty: 0,
        ticks: 0,
        ..pre
    })
}

/// Top edge of the play button in the window, raised while the mouse is on it.
pub open spec fn play_button_top(x: (i32, i32), y: (i32, i32), scale: int) -> int {
    if on_play_button(x, y, scale) {
        PLAY_RAISED_Y * scale
    } else {
        PLAY_Y * scale
    }
}

fn hits_play_button(x: (i32, i32), y: (i32, i32), scale: i16) -> (r: bool)
    requires
        valid_scale(scale),
    ensures
        r == on_play_button(x, y, scale as int),
{
    assert(MAX_SCALE == 102 && PLAY_X == 144 && PLAY_Y == 104 && PLAY_SIZE == 32);
    let s: i64 = scale as i64;
    144 * s <= x.0 as i64 && x.1 as i64 <= 176 * s && 104 * s <= y.0 as i64 && y.1 as i64 <= 136 * s
}

impl MainState {
    /// The invariant of a session: a valid scale, the player on screen and
    /// not below the ground, well-formed monsters, and counters in range.
    pub open spec fn wf(&self) -> bool {
        &&& valid_scale(self.scale)
        &&& 0 <= self.player.pos.0 <= right_edge(self.scale)
        &&& self.player.pos.1 <= ground(self.scale)
        &&& forall|i: int| 0 <= i < self.monsters@.len() ==> monster_wf(#[trigger] self.monsters@[i])
        &&& CYCLE_LOW <= self.spawn_cycle <= CYCLE_HIGH
        &&& self.difficulty <= MAX_DIFFICULTY
    }

    /// A session on the title screen: the player standing mid-screen on the
    /// ground with full health, no monsters, and a first spawn cycle drawn
    /// from a generator seeded with `seed`.
    pub fn new(scale: i16, seed: u64) -> (r: MainState)
        requires
            valid_scale(scale),
        ensures
            r.wf(),
            r.scale == scale,
            r.player == (Entity {
                tag: EntityType::Player,
                pos: ((START_X * scale) as i16, (GROUND * scale) as i16),
                facing: Direction::Left,
                frame: Frame::Stand,
                falling: false,
                jump: 0,
                jump_from: (GROUND * scale) as i16,
                health: START_HEALTH,
                ticks: 0,
            }),
            r.monsters@.len() == 0,
            r.ticks == 0,
            r.input == (InputState { x: 0, jump: false, attack: false, jump_spam: false }),
            r.score == 0,
            r.difficulty == 0,
            r.screen == Screen::Title,
            r.gui.play == (Button {
                pos: ((PLAY_X * scale) as i16, (PLAY_Y * scale) as i16),
                width: PLAY_SIZE,
                scale,
                hover: false,
            }),
            !r.pause_on_death,
    {
        assert(GROUND == 216);
        let g: i16 = GROUND * scale;
        let player = Entity {
            tag: EntityType::Player,
            pos: (START_X * scale, g),
            facing: Direction::Left,
            frame: Frame::Stand,
            falling: false,
            jump: 0,
            jump_from: g,
            health: START_HEALTH,
            ticks: 0,
        };
        let mut rng = Rand32::new(seed);
        let spawn_cycle = rng.rand_range(CYCLE_LOW..CYCLE_HIGH + 1);
        let play = Button { pos: (PLAY_X * scale, PLAY_Y * scale), width: PLAY_SIZE, scale, hover: false };
        MainState {
            player,
            rng,
            monsters: Vec::new(),
            spawn_cycle,
            ticks: 0,
            input: InputState::default(),
            scale,
            score: 0,
            difficulty: 0,
            screen: Screen::Title,
            gui: Gui { play },
            pause_on_death: false,
        }
    }

    /// One fixed physics step: a player in the air moves a quarter step on
    /// along the jump arc, and a living player follows the input.
    pub fn fixed_step(&mut self)
        requires
            old(self).wf(),
        ensures
            final(self).wf(),
            ({
                let p = old(self).player;
                let q = if p.falling && p.jump < u16::MAX {
                    Entity { jump: (p.jump + 1) as u16, ..p }
                } else {
                    p
                };
                if p.health > 0 {
                    *final(self) == MainState {
                        player: player_after(q, old(self).input, old(self).scale),
                        input: InputState {
                            jump_spam: latch_after(q, old(self).input, old(self).scale),
                            ..old(self).input
                        },
                        ..*old(self)
                    }
                } else {
                    *final(self) == MainState { player: q, ..*old(self) }
                }
            }),
    {
        if self.player.falling && self.player.jump < u16::MAX {
            self.player.jump += 1;
        }
        if self.player.health > 0 {
            handle_player_input(&mut self.player, &mut self.input, self.scale);
        }
    }

    /// Counts a frame towards the next spawn, and when the countdown runs out
    /// adds a batch of monsters and starts a new cycle.
    pub fn spawn_tick(&mut self)
        requires
            old(self).wf(),
        ensures
            final(self).wf(),
            spawned(*old(self), *final(self)),
    {
        if self.ticks < u32::MAX {
            self.ticks += 1;
        }
        let spawn_screen = match self.screen {
            Screen::Title => false,
            Screen::Game => true,
            Screen::Death => !self.pause_on_death,
        };
        if self.ticks == STEPS_PER_SECOND * self.spawn_cycle && spawn_screen {
            let count = self.rng.rand_range(BATCH_LOW + self.difficulty..BATCH_HIGH + 1 + self.difficulty);
            let ghost before = self.monsters@;
            spawn_monsters(&mut self.rng, &mut self.monsters, count, self.scale);
            assert forall|i: int| 0 <= i < self.monsters@.len() implies monster_wf(
                #[trigger] self.monsters@[i],
            ) by {
                if i < before.len() {
                    assert(self.monsters@[i] == self.monsters@.subrange(0, before.len() as int)[i]);
                } else {
                    assert(fresh_monster(self.monsters@[i], self.scale));
                }
            }
            self.spawn_cycle = self.rng.rand_range(CYCLE_LOW..CYCLE_HIGH + 1);
            self.ticks = 0;
        }
    }

    /// Settles every monster that touches the player: stomped when the player
    /// is in the air, a hit on the player otherwise.
    pub fn resolve_collisions(&mut self)
        requires
            old(self).wf(),
        ensures
            final(self).wf(),
            resolved(*old(self), *final(self)),
    {
        let ghost pre = *self;
        let ghost p = self.player;
        let ghost ms = self.monsters@;
        let start_score = self.score;
        let mut alive: Vec<Entity> = Vec::new();
        let mut i: usize = 0;
        let n = self.monsters.len();
        while i < n
            invariant
                pre.wf(),
                n == ms.len(),
                i <= n,
                self.monsters@ == ms,
                ms == pre.monsters@,
                p == pre.player,
                start_score == pre.score,
                self.scale == pre.scale,
                self.input == pre.input,
                self.ticks == pre.ticks,
                self.spawn_cycle == pre.spawn_cycle,
                self.gui == pre.gui,
                self.pause_on_death == pre.pause_on_death,
                self.difficulty == pre.difficulty,
                p.falling ==> {
                    &&& alive@ == untouched(p, ms.subrange(0, i as int), pre.scale)
                    &&& min(pre.score + touch_count(p, ms.subrange(0, i as int), pre.scale), u64::MAX as int)
                        <= self.score <= min(
                        pre.score + STOMP_HIGH * touch_count(p, ms.subrange(0, i as int), pre.scale),
                        u64::MAX as int,
                    )
                    &&& self.screen == pre.screen
                    &&& self.player == if touch_count(p, ms.subrange(0, i as int), pre.scale) > 0 {
                        Entity { jump: 0, jump_from: p.pos.1, ..p }
                    } else {
                        p
                    }
                },
                !p.falling ==> {
                    &&& alive@ == ms.subrange(0, i as int)
                    &&& self.score == pre.score
                    &&& self.screen == if touch_count(p, ms.subrange(0, i as int), pre.scale) > 0
                        && p.health - touch_count(p, ms.subrange(0, i as int), pre.scale) <= 0 {
                        Screen::Death
                    } else {
                        pre.screen
                    }
                    &&& self.player == Entity {
                        health: health_after(p.health, touch_count(p, ms.subrange(0, i as int), pre.scale)) as i8,
                        ..p
                    }
                },
                forall|j: int| 0 <= j < alive@.len() ==> monster_wf(#[trigger] alive@[j]),
            decreases n - i,
        {
            let monster = self.monsters[i];
            assert(ms.subrange(0, i + 1).drop_last() =~= ms.subrange(0, i as int));
            assert(ms.subrange(0, i + 1).last() == monster);
            if is_touching(&self.player, &monster, self.scale) {
                if !self.player.falling {
                    alive.push(monster);
                    if self.player.health > 0 {
                        self.player.health -= 1;
                        if self.player.health == 0 {
                            self.screen = Screen::Death;
                        }
                    } else {
                        self.screen = Screen::Death;
                    }
                } else {
                    let gain = self.rng.rand_range(STOMP_LOW..STOMP_HIGH + 1);
                    self.score = self.score.saturating_add(gain as u64);
                    self.player.jump = 0;
                    self.player.jump_from = self.player.pos.1;
                }
            } else {
                alive.push(monster);
            }
            i = i + 1;
        }
        assert(ms.subrange(0, n as int) =~= ms);
        self.monsters = alive;
        let gained: u64 = self.score / SCORE_PER_LEVEL - start_score / SCORE_PER_LEVEL;
        if gained >= (MAX_DIFFICULTY - self.difficulty) as u64 {
            self.difficulty = MAX_DIFFICULTY;
        } else {
            self.difficulty = self.difficulty + gained as u32;
        }
    }

    /// One frame of the world: the spawn countdown, then, unless the world is
    /// paused on the death screen, the monsters' movement and the collisions.
    pub fn update(&mut self)
        requires
            old(self).wf(),
        ensures
            final(self).wf(),
            exists|a: MainState|
                {
                    &&& #[trigger] spawned(*old(self), a)
                    &&& if world_runs(a) {
                        exists|b: MainState| #[trigger] advanced(a, b) && resolved(b, *final(self))
                    } else {
                        *final(self) == a
                    }
                },
    {
        self.spawn_tick();
        let ghost a = *self;
        let runs = match self.screen {
            Screen::Death => !self.pause_on_death,
            _ => true,
        };
        if runs {
            update_monsters(&mut self.monsters, self.scale);
            let ghost b = *self;
            assert(advanced(a, b));
            self.resolve_collisions();
            assert(resolved(b, *self));
        }
        assert(spawned(*old(self), a));
    }

    /// Reacts to a key going down: arrows set the walk (or, with shift, the
    /// run) and the facing, shift turns a walk into a run, the jump key starts
    /// a jump from the ground, and the attack key raises its flag.
    pub fn key_down(&mut self, key: Key, shift: bool)
        requires
            old(self).wf(),
        ensures
            final(self).wf(),
            *final(self) == key_pressed(*old(self), key, shift),
    {
        match key {
            Key::Left => {
                self.input.x = if shift {
                    -RUN_SPEED
                } else {
                    -WALK_SPEED
                };
                self.player.facing = Direction::Left;
            },
            Key::Right => {
                self.input.x = if shift {
                    RUN_SPEED
                } else {
                    WALK_SPEED
                };
                self.player.facing = Direction::Right;
            },
            Key::Shift => {
                if self.input.x == WALK_SPEED {
                    self.input.x = RUN_SPEED;
                } else if self.input.x == -WALK_SPEED {
                    self.input.x = -RUN_SPEED;
                }
            },
            Key::Jump => {
                if !self.player.falling {
                    self.input.jump = true;
                    self.player.jump_from = self.player.pos.1;
                }
            },
            Key::Attack => self.input.attack = true,
            Key::Other => {},
        }
    }

    /// Reacts to a key going up: an arrow stops the movement, the jump and
    /// attack keys lower their flags.
    pub fn key_up(&mut self, key: Key)
        requires
            old(self).wf(),
        ensures
            final(self).wf(),
            *final(self) == key_released(*old(self), key),
    {
        match key {
            Key::Left | Key::Right => self.input.x = 0,
            Key::Jump => self.input.jump = false,
            Key::Attack => self.input.attack = false,
            _ => {},
        }
    }

    /// Starts a round: the game screen, no monsters, full health, and score,
    /// difficulty and spawn countdown back at zero.
    pub fn start_round(&mut self)
        requires
            old(self).wf(),
        ensures
            final(self).wf(),
            round_started(*old(self), *final(self)),
    {
        self.screen = Screen::Game;
        self.monsters.clear();
        self.player.health = START_HEALTH;
        self.score = 0;
        self.difficulty = 0;
        self.ticks = 0;
    }

    /// A click with the pointer at `(x, y)`, each coordinate as
    /// `on_play_button` takes it: on the play button of the title or death
    /// screen it starts a round.
    pub fn mouse_button_down(&mut self, x: (i32, i32), y: (i32, i32))
        requires
            old(self).wf(),
        ensures
            final(self).wf(),
            if old(self).screen != Screen::Game && on_play_button(x, y, old(self).scale as int) {
                round_started(*old(self), *final(self))
            } else {
                *final(self) == *old(self)
            },
    {
        let on_button = hits_play_button(x, y, self.scale);
        let menu = match self.screen {
            Screen::Game => false,
            _ => true,
        };
        if menu && on_button {
            self.start_round();
        }
    }

    /// The pointer moved to `(x, y)`, each coordinate as `on_play_button`
    /// takes it: the play button rises while the pointer is on it.
    pub fn mouse_motion(&mut self, x: (i32, i32), y: (i32, i32))
        requires
            old(self).wf(),
        ensures
            final(self).wf(),
            final(self).gui.play.pos == (
                old(self).gui.play.pos.0,
                play_button_top(x, y, old(self).scale as int) as i16,
            ),
            *final(self) == (MainState { gui: final(self).gui, ..*old(self) }),
            final(self).gui.play == (Button { pos: final(self).gui.play.pos, ..old(self).gui.play }),
    {
        let on_button = hits_play_button(x, y, self.scale);
        let top: i16 = if on_button {
            PLAY_RAISED_Y * self.scale
        } else {
            PLAY_Y * self.scale
        };
        self.gui.play.pos = (self.gui.play.pos.0, top);
    }
}

} // verus!
