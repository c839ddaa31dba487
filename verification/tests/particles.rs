use levo::particles::{plan_frame, FramePlan};

#[test]
fn spawns_every_tenth_frame_below_limit() {
    assert_eq!(
        plan_frame(9, 0),
        FramePlan { tick: 10, spawn_particle: true, draw_heart: false, show_greeting: false }
    );
    assert!(!plan_frame(10, 0).spawn_particle);
    assert!(!plan_frame(0, 0).spawn_particle);
    assert!(plan_frame(19, 99).spawn_particle);
    assert!(!plan_frame(19, 100).spawn_particle);
}

#[test]
fn heart_and_greeting_thresholds() {
    assert!(!plan_frame(99, 0).draw_heart);
    assert!(plan_frame(100, 0).draw_heart);
    assert!(!plan_frame(199, 0).show_greeting);
    let p = plan_frame(200, 100);
    assert_eq!(p, FramePlan { tick: 201, spawn_particle: false, draw_heart: true, show_greeting: true });
}

#[test]
fn population_stays_at_most_a_hundred() {
    let mut count: usize = 0;
    let mut tick: u32 = 0;
    for _ in 0..5000 {
        let plan = plan_frame(tick, count);
        tick = plan.tick;
        if plan.spawn_particle {
            count += 1;
        }
        assert!(count <= 100);
    }
    assert_eq!(count, 100);
}
