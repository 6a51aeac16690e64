use vstd::prelude::*;

use crate::entity::{
    ground, launch_origin, latch_after, next_frame, player_after, player_arc, right_edge, touching,
    valid_scale, Entity, Frame, InputState,
};
use crate::game::{
    batch_max, resolved, touch_count, untouched, MainState, MAX_DIFFICULTY, SCORE_PER_LEVEL,
    STOMP_HIGH, STOMP_LOW,
};

verus! {

/// Whatever the input, a step leaves the player within the screen's width.
pub proof fn player_stays_on_screen(e: Entity, i: InputState, scale: i16)
    requires
        valid_scale(scale),
    ensures
        0 <= player_after(e, i, scale).pos.0 <= right_edge(scale),
{
}

/// A player that is not below the ground is not below it after a step.
pub proof fn player_stays_above_ground(e: Entity, i: InputState, scale: i16)
    requires
        valid_scale(scale),
        e.pos.1 <= ground(scale),
    ensures
        player_after(e, i, scale).pos.1 <= ground(scale),
{
}

/// The jump arc depends on the elapsed time and the origin alone: while a
/// held jump is in the air, taking the step again with the elapsed time
/// unchanged gives the same height.
pub proof fn jump_height_is_repeatable(e: Entity, i: InputState, scale: i16)
    requires
        valid_scale(scale),
        i.jump,
        !i.jump_spam,
        player_after(e, i, scale).falling,
    ensures
        ({
            let e1 = player_after(e, i, scale);
            let i1 = InputState { jump_spam: latch_after(e, i, scale), ..i };
            &&& player_after(e1, i1, scale).pos.1 == e1.pos.1
            &&& e1.pos.1 == player_arc(launch_origin(e.jump_from, scale), e.jump, scale)
        }),
{
}

/// The frame after `n` steps of the walk cycle.
pub open spec fn walked(f: Frame, n: nat) -> Frame
    decreases n,
{
    if n == 0 {
        f
    } else {
        next_frame(walked(f, (n - 1) as nat))
    }
}

/// The walk cycle has period exactly five.
pub proof fn walk_cycle_has_period_five(f: Frame)
    ensures
        walked(f, 5) == f,
        forall|n: nat| 1 <= n < 5 ==> #[trigger] walked(f, n) != f,
{
    reveal_with_fuel(walked, 6);
    assert forall|n: nat| 1 <= n < 5 implies #[trigger] walked(f, n) != f by {
        reveal_with_fuel(walked, 6);
        if n == 1 {
        } else if n == 2 {
        } else if n == 3 {
        } else {
        }
    }
}

/// The player after `n` steps with the same input.
pub open spec fn steps(e: Entity, i: InputState, scale: i16, n: nat) -> Entity
    decreases n,
{
    if n == 0 {
        e
    } else {
        player_after(steps(e, i, scale, (n - 1) as nat), i, scale)
    }
}

/// On the ground, with the jump key up and a nonzero movement held, every step
/// advances the walk cycle by one frame and the player stays on the ground.
pub proof fn walking_advances_one_frame(e: Entity, i: InputState, scale: i16, n: nat)
    requires
        valid_scale(scale),
        e.pos.1 == ground(scale),
        i.x != 0,
        !i.jump,
    ensures
        steps(e, i, scale, n).frame == walked(e.frame, n),
        n > 0 ==> steps(e, i, scale, n).pos.1 == ground(scale),
        n > 0 ==> !steps(e, i, scale, n).falling,
    decreases n,
{
    if n > 0 {
        walking_advances_one_frame(e, i, scale, (n - 1) as nat);
    }
}

/// With movement held on the ground, the animation frame repeats exactly every
/// five steps.
pub proof fn walking_frames_repeat_every_five(e: Entity, i: InputState, scale: i16)
    requires
        valid_scale(scale),
        e.pos.1 == ground(scale),
        i.x != 0,
        !i.jump,
    ensures
        steps(e, i, scale, 5).frame == e.frame,
        forall|n: nat| 1 <= n < 5 ==> #[trigger] steps(e, i, scale, n).frame != e.frame,
{
    walking_advances_one_frame(e, i, scale, 5);
    walk_cycle_has_period_five(e.frame);
    assert forall|n: nat| 1 <= n < 5 implies #[trigger] steps(e, i, scale, n).frame != e.frame by {
        walking_advances_one_frame(e, i, scale, n);
    }
}

proof fn untouched_touch_nothing(p: Entity, ms: Seq<Entity>, scale: i16)
    ensures
        forall|j: int|
            0 <= j < untouched(p, ms, scale).len() ==> !touching(p, #[trigger] untouched(p, ms, scale)[j], scale),
    decreases ms.len(),
{
    if ms.len() > 0 {
        let r = untouched(p, ms.drop_last(), scale);
        untouched_touch_nothing(p, ms.drop_last(), scale);
        assert forall|j: int| 0 <= j < untouched(p, ms, scale).len() implies !touching(
            p,
            #[trigger] untouched(p, ms, scale)[j],
            scale,
        ) by {
            if j < r.len() {
                assert(untouched(p, ms, scale)[j] == r[j]);
            }
        }
    }
}

proof fn touched_monster_is_counted(p: Entity, ms: Seq<Entity>, scale: i16, i: int)
    requires
        0 <= i < ms.len(),
        touching(p, ms[i], scale),
    ensures
        touch_count(p, ms, scale) >= 1,
    decreases ms.len(),
{
    if i < ms.len() - 1 {
        touched_monster_is_counted(p, ms.drop_last(), scale, i);
    }
}

/// Exactly one monster touching the player makes a touch count of one.
proof fn single_touch_counts_one(p: Entity, ms: Seq<Entity>, scale: i16, i: int)
    requires
        0 <= i < ms.len(),
        touching(p, ms[i], scale),
        forall|j: int| 0 <= j < ms.len() && j != i ==> !touching(p, #[trigger] ms[j], scale),
    ensures
        touch_count(p, ms, scale) == 1,
    decreases ms.len(),
{
    if i < ms.len() - 1 {
        single_touch_counts_one(p, ms.drop_last(), scale, i);
    } else {
        no_touch_counts_zero(p, ms.drop_last(), scale);
    }
}

proof fn no_touch_counts_zero(p: Entity, ms: Seq<Entity>, scale: i16)
    requires
        forall|j: int| 0 <= j < ms.len() ==> !touching(p, #[trigger] ms[j], scale),
    ensures
        touch_count(p, ms, scale) == 0,
    decreases ms.len(),
{
    if ms.len() > 0 {
        no_touch_counts_zero(p, ms.drop_last(), scale);
    }
}

/// A monster that an airborne player touches is stomped: it is gone after the
/// collisions, and the score rises, unless it is already at its largest value.
/// Short of that largest value, each of the `k` monsters touched adds
/// `STOMP_LOW` to `STOMP_HIGH`, so a lone one adds a value in that range.
pub proof fn stomp_removes_monster_and_scores(pre: MainState, post: MainState, i: int)
    requires
        pre.wf(),
        resolved(pre, post),
        pre.player.falling,
        0 <= i < pre.monsters@.len(),
        touching(pre.player, pre.monsters@[i], pre.scale),
    ensures
        !post.monsters@.contains(pre.monsters@[i]),
        pre.score < u64::MAX ==> post.score > pre.score,
        (forall|j: int|
            0 <= j < pre.monsters@.len() && j != i ==> !touching(pre.player, #[trigger] pre.monsters@[j], pre.scale))
            && pre.score + STOMP_HIGH <= u64::MAX ==> STOMP_LOW <= post.score - pre.score <= STOMP_HIGH,
        ({
            let k = touch_count(pre.player, pre.monsters@, pre.scale);
            pre.score + STOMP_HIGH * k <= u64::MAX ==> STOMP_LOW * k <= post.score - pre.score <= STOMP_HIGH
                * k
        }),
{
    let p = pre.player;
    let ms = pre.monsters@;
    untouched_touch_nothing(p, ms, pre.scale);
    touched_monster_is_counted(p, ms, pre.scale, i);
    if (forall|j: int| 0 <= j < ms.len() && j != i ==> !touching(p, #[trigger] ms[j], pre.scale)) {
        single_touch_counts_one(p, ms, pre.scale, i);
    }
}

/// A monster that a player on the ground touches, alone, costs one point of
/// health and stays.
pub proof fn lateral_hit_costs_one_health(pre: MainState, post: MainState, i: int)
    requires
        pre.wf(),
        resolved(pre, post),
        !pre.player.falling,
        pre.player.health > 0,
        0 <= i < pre.monsters@.len(),
        touching(pre.player, pre.monsters@[i], pre.scale),
        forall|j: int|
            0 <= j < pre.monsters@.len() && j != i ==> !touching(pre.player, #[trigger] pre.monsters@[j], pre.scale),
    ensures
        post.player.health == pre.player.health - 1,
        post.monsters@.contains(pre.monsters@[i]),
{
    single_touch_counts_one(pre.player, pre.monsters@, pre.scale, i);
    assert(pre.monsters@[i] == post.monsters@[i]);
}

/// Collisions never lower the difficulty, so the largest spawn batch never
/// shrinks; once the score passes another multiple of `SCORE_PER_LEVEL` it
/// grows, short of the largest difficulty.
pub proof fn spawn_bound_never_shrinks(pre: MainState, post: MainState)
    requires
        pre.wf(),
        resolved(pre, post),
    ensures
        batch_max(post.difficulty as int) >= batch_max(pre.difficulty as int),
        post.score / SCORE_PER_LEVEL > pre.score / SCORE_PER_LEVEL && pre.difficulty < MAX_DIFFICULTY
            ==> batch_max(post.difficulty as int) > batch_max(pre.difficulty as int),
{
    if pre.player.falling {
        assert(post.score >= pre.score);
        assert(post.score / SCORE_PER_LEVEL >= pre.score / SCORE_PER_LEVEL) by (nonlinear_arith)
            requires
                post.score >= pre.score,
                SCORE_PER_LEVEL == 5,
        ;
    }
}

} // verus!
