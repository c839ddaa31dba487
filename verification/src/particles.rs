//! The schedule of the particle greeting guest: a particle is added every
//! tenth frame while fewer than a hundred exist, the heart appears after
//! the hundredth frame and the greeting after the two-hundredth.
use vstd::prelude::*;

verus! {

/// The most particles the guest keeps.
pub const MAX_PARTICLES: usize = 100;

/// A particle is added on frames whose number is a multiple of this.
pub const SPAWN_PERIOD: u32 = 10;

/// The frame after which the heart is drawn.
pub const HEART_AFTER: u32 = 100;

/// The frame after which the greeting is shown.
pub const GREETING_AFTER: u32 = 200;

/// What the guest does in one frame.
#[derive(Clone, Copy, Debug, PartialEq, Eq, Structural)]
pub struct FramePlan {
    /// The number of the frame, counted from one.
    pub tick: u32,
    /// Whether a new particle is added.
    pub spawn_particle: bool,
    /// Whether the heart is drawn.
    pub draw_heart: bool,
    /// Whether the greeting is shown.
    pub show_greeting: bool,
}

/// The plan of the frame that follows frame `tick`, with `particle_count`
/// particles alive.
pub open spec fn frame_plan(tick: u32, particle_count: usize) -> FramePlan {
    let t = (tick + 1) as u32;
    FramePlan {
        tick: t,
        spawn_particle: t % SPAWN_PERIOD == 0 && particle_count < MAX_PARTICLES,
        draw_heart: t > HEART_AFTER,
        show_greeting: t > GREETING_AFTER,
    }
}

/// Plans the frame after frame `tick` (see [`frame_plan`]).
pub fn plan_frame(tick: u32, particle_count: usize) -> (plan: FramePlan)
    requires
        tick < u32::MAX,
    ensures
        plan == frame_plan(tick, particle_count),
        plan.tick == tick + 1,
        plan.spawn_particle == ((tick + 1) % 10 == 0 && particle_count < 100),
        plan.draw_heart == (tick + 1 > 100),
        plan.show_greeting == (tick + 1 > 200),
{
    let t: u32 = tick + 1;
    FramePlan {
        tick: t,
        spawn_particle: t % SPAWN_PERIOD == 0 && particle_count < MAX_PARTICLES,
        draw_heart: t > HEART_AFTER,
        show_greeting: t > GREETING_AFTER,
    }
}

/// The number of particles after a frame with that plan.
pub open spec fn count_after(plan: FramePlan, particle_count: usize) -> int {
    if plan.spawn_particle { particle_count + 1 } else { particle_count as int }
}

/// The particle count never goes past the limit: from at most a hundred
/// particles, a frame leaves at most a hundred.
pub proof fn lemma_population_bounded(tick: u32, particle_count: usize)
    requires
        tick < u32::MAX,
        particle_count <= MAX_PARTICLES,
    ensures
        count_after(frame_plan(tick, particle_count), particle_count) <= MAX_PARTICLES,
{
}

/// Of any ten consecutive frames, at most one adds a particle.
pub proof fn lemma_one_spawn_per_period(tick: u32, later: u32, count: usize, later_count: usize)
    requires
        tick < later,
        later < tick + SPAWN_PERIOD,
        later < u32::MAX,
    ensures
        !(frame_plan(tick, count).spawn_particle && frame_plan(later, later_count).spawn_particle),
{
}

/// Whenever the greeting is shown, the heart is drawn too.
pub proof fn lemma_greeting_comes_with_heart(tick: u32, count: usize)
    requires
        tick < u32::MAX,
    ensures
        frame_plan(tick, count).show_greeting ==> frame_plan(tick, count).draw_heart,
{
}

/// The heart and the greeting depend on the frame number only: whatever the
/// particle counts, two plans of the same frame agree on them, the heart
/// shows after frame 100 and the greeting after frame 200.
pub proof fn lemma_heart_and_greeting_follow_frame_only(tick: u32, count: usize, other_count: usize)
    requires
        tick < u32::MAX,
    ensures
        frame_plan(tick, count).show_greeting == frame_plan(tick, other_count).show_greeting,
        frame_plan(tick, count).draw_heart == frame_plan(tick, other_count).draw_heart,
        frame_plan(tick, count).show_greeting == (tick + 1 > 200),
        frame_plan(tick, count).draw_heart == (tick + 1 > 100),
        frame_plan(tick, count).tick == tick + 1,
{
}

/// A particle is added exactly on every tenth frame while fewer than a
/// hundred exist.
pub proof fn lemma_spawn_rule(tick: u32, count: usize)
    requires
        tick < u32::MAX,
    ensures
        frame_plan(tick, count).spawn_particle == ((tick + 1) % 10 == 0 && count < 100),
{
}

} // verus!
