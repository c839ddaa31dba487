use levo::canvas::{render_events, DrawCommand, HostEvent, PathCommand};
use levo::colors::PortalColor;

fn describe(cmds: &[DrawCommand<u32>]) -> Vec<String> {
    cmds.iter()
        .map(|c| match c {
            DrawCommand::Rect { rect, fill } => format!("rect {} {:?}", rect, fill),
            DrawCommand::Shape { path, fill } => {
                let parts: Vec<String> = path
                    .iter()
                    .map(|p| match p {
                        PathCommand::MoveTo(g) => format!("move{}", g),
                        PathCommand::CubicBezierTo(g) => format!("cubic{}", g),
                        PathCommand::Arc(g) => format!("arc{}", g),
                        PathCommand::Begin => "begin".to_string(),
                        PathCommand::Close => "close".to_string(),
                    })
                    .collect();
                format!("shape [{}] {:?}", parts.join(" "), fill)
            }
            DrawCommand::Text { label, color } => format!("text {} {:?}", label, color),
            DrawCommand::Link(g) => format!("link {}", g),
            DrawCommand::UnstartedPath => "unstarted".to_string(),
        })
        .collect()
}

#[test]
fn rect_without_fill_style_is_red() {
    let out = render_events(vec![HostEvent::FillRect(1u32)]);
    assert_eq!(describe(&out), vec!["rect 1 Red"]);
}

#[test]
fn fill_style_applies_to_next_fill_only() {
    let out = render_events(vec![
        HostEvent::FillStyle("royal_purple".to_string()),
        HostEvent::FillRect(1u32),
        HostEvent::FillRect(2),
    ]);
    assert_eq!(describe(&out), vec!["rect 1 RoyalPurple", "rect 2 Red"]);
}

#[test]
fn heart_path_is_one_red_shape() {
    let out = render_events(vec![
        HostEvent::BeginPath,
        HostEvent::MoveTo(1u32),
        HostEvent::CubicBezierTo(2),
        HostEvent::CubicBezierTo(3),
        HostEvent::ClosePath,
        HostEvent::FillStyle("red".to_string()),
        HostEvent::Fill,
    ]);
    assert_eq!(describe(&out), vec!["shape [move1 cubic2 cubic3 close] Red"]);
}

#[test]
fn particles_frame_draws_background_then_circles() {
    let out = render_events(vec![
        HostEvent::FillStyle("royal_purple".to_string()),
        HostEvent::FillRect(0u32),
        HostEvent::BeginPath,
        HostEvent::Arc(5),
        HostEvent::ClosePath,
        HostEvent::FillStyle("white".to_string()),
        HostEvent::Fill,
        HostEvent::BeginPath,
        HostEvent::Arc(6),
        HostEvent::ClosePath,
        HostEvent::FillStyle("white".to_string()),
        HostEvent::Fill,
    ]);
    assert_eq!(
        describe(&out),
        vec!["rect 0 RoyalPurple", "shape [arc5 close] White", "shape [arc6 close] White"]
    );
}

#[test]
fn fill_without_begin_reports_and_keeps_path() {
    let out = render_events(vec![
        HostEvent::MoveTo(1u32),
        HostEvent::FillStyle("blue".to_string()),
        HostEvent::Fill,
        HostEvent::FillRect(9),
    ]);
    assert_eq!(describe(&out), vec!["unstarted", "rect 9 Blue"]);
}

#[test]
fn second_begin_stays_in_path() {
    let out = render_events(vec![
        HostEvent::BeginPath,
        HostEvent::BeginPath,
        HostEvent::MoveTo(4u32),
        HostEvent::Fill,
    ]);
    assert_eq!(describe(&out), vec!["shape [begin move4] Red"]);
}

#[test]
fn labels_and_links_keep_fill_style() {
    let out = render_events(vec![
        HostEvent::FillStyle("blue".to_string()),
        HostEvent::Label(7u32, "white".to_string()),
        HostEvent::Link(8),
        HostEvent::FillRect(9),
    ]);
    assert_eq!(describe(&out), vec!["text 7 White", "link 8", "rect 9 Blue"]);
}

#[test]
fn unknown_colour_name_is_black() {
    let out = render_events(vec![HostEvent::Label(1u32, "chartreuse".to_string())]);
    assert_eq!(describe(&out), vec!["text 1 Black"]);
}

#[test]
fn empty_queue_draws_nothing() {
    let out: Vec<DrawCommand<u32>> = render_events(Vec::new());
    assert!(out.is_empty());
    let _ = PortalColor::Red;
}

#[test]
fn at_most_one_drawing_per_call() {
    let events = vec![
        HostEvent::BeginPath,
        HostEvent::MoveTo(1u32),
        HostEvent::Fill,
        HostEvent::Fill,
        HostEvent::FillStyle("red".to_string()),
        HostEvent::Link(2),
    ];
    let n = events.len();
    let out = render_events(events);
    assert!(out.len() <= n);
    assert_eq!(describe(&out), vec!["shape [move1] Red", "unstarted", "link 2"]);
}

#[test]
fn rendering_in_parts_matches_whole_from_fresh_state() {
    let whole = render_events(vec![
        HostEvent::FillStyle("blue".to_string()),
        HostEvent::FillRect(1u32),
        HostEvent::FillRect(2),
    ]);
    let mut parts = render_events(vec![HostEvent::FillStyle("blue".to_string()), HostEvent::FillRect(1u32)]);
    parts.extend(render_events(vec![HostEvent::FillRect(2u32)]));
    assert_eq!(describe(&whole), describe(&parts));
}
