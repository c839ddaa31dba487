//! The guest's drawing calls, queued by the host during a frame and turned
//! into things to draw when the frame is shown.
//!
//! The geometry of each call (coordinates, sizes, texts) is carried through
//! untouched as a value of the type parameter `G`; the decisions made here are
//! which fill colour a shape gets and which queued path commands form a
//! shape.
use vstd::prelude::*;
use crate::colors::{PortalColor, color_from_name, portal_color_named};

verus! {

/// One drawing call that a guest made during a frame.
pub enum HostEvent<G> {
    /// An arc, added to the current path.
    Arc(G),
    /// Starts a path.
    BeginPath,
    /// Closes the current path.
    ClosePath,
    /// A cubic Bézier curve, added to the current path.
    CubicBezierTo(G),
    /// Fills the current path.
    Fill,
    /// Fills a rectangle.
    FillRect(G),
    /// Sets the colour of the next fill, by name.
    FillStyle(String),
    /// A text label, with the name of its colour.
    Label(G, String),
    /// A link.
    Link(G),
    /// Moves the pen, within the current path.
    MoveTo(G),
}

/// A command of a path under construction.
pub enum PathCommand<G> {
    MoveTo(G),
    CubicBezierTo(G),
    Arc(G),
    Begin,
    Close,
}

/// Something to draw, as decided from the queued calls.
pub enum DrawCommand<G> {
    /// A rectangle and its fill.
    Rect { rect: G, fill: PortalColor },
    /// A filled path: the commands that followed its opening `Begin`.
    Shape { path: Vec<PathCommand<G>>, fill: PortalColor },
    /// A text label and its colour.
    Text { label: G, color: PortalColor },
    /// A link.
    Link(G),
    /// A fill was asked for while the current path did not start with
    /// `Begin`; nothing is drawn.
    UnstartedPath,
}

/// The mathematical value of a [`DrawCommand`].
pub enum Drawing<G> {
    Rect { rect: G, fill: PortalColor },
    Shape { path: Seq<PathCommand<G>>, fill: PortalColor },
    Text { label: G, color: PortalColor },
    Link(G),
    UnstartedPath,
}

impl<G> View for DrawCommand<G> {
    type V = Drawing<G>;

    open spec fn view(&self) -> Drawing<G> {
        match self {
            DrawCommand::Rect { rect, fill } => Drawing::Rect { rect: *rect, fill: *fill },
            DrawCommand::Shape { path, fill } => Drawing::Shape { path: path@, fill: *fill },
            DrawCommand::Text { label, color } => Drawing::Text { label: *label, color: *color },
            DrawCommand::Link(g) => Drawing::Link(*g),
            DrawCommand::UnstartedPath => Drawing::UnstartedPath,
        }
    }
}

/// The values of a sequence of draw commands.
pub open spec fn drawings<G>(cmds: Seq<DrawCommand<G>>) -> Seq<Drawing<G>> {
    cmds.map_values(|d: DrawCommand<G>| d@)
}

/// What the renderer remembers between calls of one frame: the pending fill
/// colour, if a fill style was set since the last fill, and the path being
/// built.
pub struct PenState<G> {
    pub fill: Option<PortalColor>,
    pub path: Seq<PathCommand<G>>,
}

/// The state at the start of a frame: no fill style, no path.
pub open spec fn fresh_pen<G>() -> PenState<G> {
    PenState { fill: None, path: Seq::empty() }
}

/// The colour a fill uses: the pending fill style, else red.
pub open spec fn fill_or_red(fill: Option<PortalColor>) -> PortalColor {
    match fill {
        Some(c) => c,
        None => PortalColor::Red,
    }
}

/// Whether a path starts with `Begin`.
pub open spec fn path_is_begun<G>(path: Seq<PathCommand<G>>) -> bool {
    path.len() > 0 && path[0] is Begin
}

/// The state after one call.
pub open spec fn pen_after<G>(pen: PenState<G>, ev: HostEvent<G>) -> PenState<G> {
    match ev {
        HostEvent::FillStyle(name) => PenState { fill: Some(portal_color_named(name@)), path: pen.path },
        HostEvent::FillRect(_) => PenState { fill: None, path: pen.path },
        HostEvent::BeginPath => PenState { fill: pen.fill, path: pen.path.push(PathCommand::Begin) },
        HostEvent::Arc(g) => PenState { fill: pen.fill, path: pen.path.push(PathCommand::Arc(g)) },
        HostEvent::ClosePath => PenState { fill: pen.fill, path: pen.path.push(PathCommand::Close) },
        HostEvent::MoveTo(g) => PenState { fill: pen.fill, path: pen.path.push(PathCommand::MoveTo(g)) },
        HostEvent::CubicBezierTo(g) => PenState {
            fill: pen.fill,
            path: pen.path.push(PathCommand::CubicBezierTo(g)),
        },
        HostEvent::Fill => if path_is_begun(pen.path) {
            PenState { fill: None, path: Seq::empty() }
        } else {
            pen
        },
        HostEvent::Label(_, _) => pen,
        HostEvent::Link(_) => pen,
    }
}

/// What one call draws, from the state before it.
pub open spec fn drawn_by<G>(pen: PenState<G>, ev: HostEvent<G>) -> Seq<Drawing<G>> {
    match ev {
        HostEvent::FillRect(g) => seq![Drawing::Rect { rect: g, fill: fill_or_red(pen.fill) }],
        HostEvent::Fill => if path_is_begun(pen.path) {
            seq![Drawing::Shape { path: pen.path.drop_first(), fill: fill_or_red(pen.fill) }]
        } else {
            seq![Drawing::UnstartedPath]
        },
        HostEvent::Label(g, name) => seq![Drawing::Text { label: g, color: portal_color_named(name@) }],
        HostEvent::Link(g) => seq![Drawing::Link(g)],
        _ => Seq::empty(),
    }
}

/// The state after a sequence of calls.
pub open spec fn pen_after_all<G>(pen: PenState<G>, events: Seq<HostEvent<G>>) -> PenState<G>
    decreases events.len(),
{
    if events.len() == 0 {
        pen
    } else {
        pen_after_all(pen_after(pen, events[0]), events.drop_first())
    }
}

/// What a sequence of calls draws, from a given state.
pub open spec fn render_from<G>(pen: PenState<G>, events: Seq<HostEvent<G>>) -> Seq<Drawing<G>>
    decreases events.len(),
{
    if events.len() == 0 {
        Seq::empty()
    } else {
        drawn_by(pen, events[0]) + render_from(pen_after(pen, events[0]), events.drop_first())
    }
}

/// What a frame's queue of calls draws.
pub open spec fn render_frame<G>(events: Seq<HostEvent<G>>) -> Seq<Drawing<G>> {
    render_from(fresh_pen(), events)
}

/// Turns the calls that a guest queued during a frame into the things to
/// draw, in order (see [`render_frame`]): a fill style applies to the next
/// rectangle or path fill, which then falls back to red; path commands
/// accumulate until a fill, which draws them as a shape when the path was
/// begun and otherwise reports an unstarted path and keeps them.
pub fn render_events<G>(events: Vec<HostEvent<G>>) -> (out: Vec<DrawCommand<G>>)
    ensures
        drawings(out@) == render_frame(events@),
{
    let ghost all = events@;
    let mut out: Vec<DrawCommand<G>> = Vec::new();
    let mut fill: Option<PortalColor> = None;
    let mut path: Vec<PathCommand<G>> = Vec::new();
    assert(all.skip(0) =~= all);
    assert(drawings(out@) =~= Seq::<Drawing<G>>::empty());
    assert(path@ =~= Seq::<PathCommand<G>>::empty());
    for ev in it: events
        invariant
            it.seq() == all,
            drawings(out@) + render_from(PenState { fill, path: path@ }, all.skip(it.index()))
                == render_frame(all),
    {
        let ghost pen = PenState { fill, path: path@ };
        let ghost rest = all.skip(it.index());
        assert(rest[0] == ev);
        assert(rest.drop_first() =~= all.skip(it.index() + 1));
        let ghost before = drawings(out@);
        match ev {
            HostEvent::FillStyle(name) => {
                fill = Some(color_from_name(name.as_str()));
            },
            HostEvent::FillRect(g) => {
                out.push(DrawCommand::Rect { rect: g, fill: match fill { Some(c) => c, None => PortalColor::Red } });
                fill = None;
            },
            HostEvent::BeginPath => {
                path.push(PathCommand::Begin);
            },
            HostEvent::Arc(g) => {
                path.push(PathCommand::Arc(g));
            },
            HostEvent::ClosePath => {
                path.push(PathCommand::Close);
            },
            HostEvent::MoveTo(g) => {
                path.push(PathCommand::MoveTo(g));
            },
            HostEvent::CubicBezierTo(g) => {
                path.push(PathCommand::CubicBezierTo(g));
            },
            HostEvent::Fill => {
                let begun = path.len() > 0 && match &path[0] {
                    PathCommand::Begin => true,
                    _ => false,
                };
                if begun {
                    let mut taken: Vec<PathCommand<G>> = Vec::new();
                    std::mem::swap(&mut taken, &mut path);
                    let _ = taken.remove(0);
                    out.push(DrawCommand::Shape { path: taken, fill: match fill { Some(c) => c, None => PortalColor::Red } });
                    fill = None;
                } else {
                    out.push(DrawCommand::UnstartedPath);
                }
            },
            HostEvent::Label(g, name) => {
                let color = color_from_name(name.as_str());
                out.push(DrawCommand::Text { label: g, color });
            },
            HostEvent::Link(g) => {
                out.push(DrawCommand::Link(g));
            },
        }
        assert(drawings(out@) =~= before + drawn_by(pen, ev));
        assert(PenState { fill, path: path@ } == pen_after(pen, ev));
    }
    assert(all.skip(all.len() as int) =~= Seq::<HostEvent<G>>::empty());
    out
}

/// Whether a call only builds the current path (and draws nothing).
pub open spec fn is_path_step<G>(ev: HostEvent<G>) -> bool {
    ev is MoveTo || ev is Arc || ev is CubicBezierTo || ev is ClosePath
}

/// The path command that a path-building call adds.
pub open spec fn path_command_of<G>(ev: HostEvent<G>) -> PathCommand<G> {
    match ev {
        HostEvent::MoveTo(g) => PathCommand::MoveTo(g),
        HostEvent::Arc(g) => PathCommand::Arc(g),
        HostEvent::CubicBezierTo(g) => PathCommand::CubicBezierTo(g),
        _ => PathCommand::Close,
    }
}

/// Rendering a queue in two parts draws what rendering it whole draws, the
/// second part starting from the state that the first left.
pub proof fn lemma_render_split<G>(pen: PenState<G>, a: Seq<HostEvent<G>>, b: Seq<HostEvent<G>>)
    ensures
        render_from(pen, a + b) == render_from(pen, a) + render_from(pen_after_all(pen, a), b),
        pen_after_all(pen, a + b) == pen_after_all(pen_after_all(pen, a), b),
    decreases a.len(),
{
    if a.len() == 0 {
        assert(a + b =~= b);
    } else {
        assert((a + b)[0] == a[0]);
        assert((a + b).drop_first() =~= a.drop_first() + b);
        lemma_render_split(pen_after(pen, a[0]), a.drop_first(), b);
        assert(render_from(pen, a + b) =~= render_from(pen, a) + render_from(pen_after_all(pen, a), b));
    }
}

/// Path-building calls draw nothing, keep the fill style, and append their
/// commands to the current path in order.
pub proof fn lemma_path_steps_accumulate<G>(pen: PenState<G>, steps: Seq<HostEvent<G>>)
    requires
        forall|i: int| 0 <= i < steps.len() ==> is_path_step(#[trigger] steps[i]),
    ensures
        render_from(pen, steps) == Seq::<Drawing<G>>::empty(),
        pen_after_all(pen, steps) == (PenState {
            fill: pen.fill,
            path: pen.path + steps.map_values(|e: HostEvent<G>| path_command_of(e)),
        }),
    decreases steps.len(),
{
    if steps.len() == 0 {
        assert(pen.path + steps.map_values(|e: HostEvent<G>| path_command_of(e)) =~= pen.path);
    } else {
        let ev = steps[0];
        assert(is_path_step(ev));
        let next = pen_after(pen, ev);
        assert(next.path == pen.path.push(path_command_of(ev)));
        assert(next.fill == pen.fill);
        assert(drawn_by(pen, ev) =~= Seq::<Drawing<G>>::empty());
        lemma_path_steps_accumulate(next, steps.drop_first());
        assert(pen.path + steps.map_values(|e: HostEvent<G>| path_command_of(e))
            =~= next.path + steps.drop_first().map_values(|e: HostEvent<G>| path_command_of(e)));
        assert(render_from(pen, steps) =~= Seq::<Drawing<G>>::empty());
    }
}

/// A path that is begun, built and filled is drawn as one shape made of the
/// commands given between `BeginPath` and `Fill`, in the pending fill style
/// (red when none is pending), after which no fill style is pending and no
/// path is open.
pub proof fn lemma_begun_path_is_drawn<G>(fill: Option<PortalColor>, steps: Seq<HostEvent<G>>)
    requires
        forall|i: int| 0 <= i < steps.len() ==> is_path_step(#[trigger] steps[i]),
    ensures
        render_from(
            PenState { fill, path: Seq::empty() },
            seq![HostEvent::BeginPath] + steps + seq![HostEvent::Fill],
        ) == seq![Drawing::Shape {
            path: steps.map_values(|e: HostEvent<G>| path_command_of(e)),
            fill: fill_or_red(fill),
        }],
        pen_after_all(
            PenState { fill, path: Seq::empty() },
            seq![HostEvent::BeginPath] + steps + seq![HostEvent::Fill],
        ) == fresh_pen::<G>(),
{
    let pen0 = PenState { fill, path: Seq::<PathCommand<G>>::empty() };
    let begin = seq![HostEvent::<G>::BeginPath];
    let fillc = seq![HostEvent::<G>::Fill];
    let pen1 = pen_after(pen0, HostEvent::BeginPath);
    assert(pen1.path =~= seq![PathCommand::<G>::Begin]);
    assert(render_from(pen0, begin) =~= Seq::<Drawing<G>>::empty()) by {
        reveal_with_fuel(render_from, 2);
        assert(begin[0] == HostEvent::<G>::BeginPath);
        assert(begin.drop_first() =~= Seq::<HostEvent<G>>::empty());
    }
    assert(pen_after_all(pen0, begin) == pen1) by {
        reveal_with_fuel(pen_after_all, 2);
        assert(begin[0] == HostEvent::<G>::BeginPath);
        assert(begin.drop_first() =~= Seq::<HostEvent<G>>::empty());
    }
    lemma_path_steps_accumulate(pen1, steps);
    let mapped = steps.map_values(|e: HostEvent<G>| path_command_of(e));
    let pen2 = pen_after_all(pen1, steps);
    assert(pen2.path[0] is Begin);
    assert(pen2.path.drop_first() =~= mapped);
    assert(render_from(pen2, fillc) =~= seq![Drawing::Shape { path: mapped, fill: fill_or_red(fill) }]) by {
        reveal_with_fuel(render_from, 2);
        assert(fillc[0] == HostEvent::<G>::Fill);
        assert(path_is_begun(pen2.path));
        assert(fillc.drop_first() =~= Seq::<HostEvent<G>>::empty());
    }
    assert(pen_after_all(pen2, fillc) == fresh_pen::<G>()) by {
        reveal_with_fuel(pen_after_all, 2);
        assert(fillc[0] == HostEvent::<G>::Fill);
        assert(path_is_begun(pen2.path));
        assert(fillc.drop_first() =~= Seq::<HostEvent<G>>::empty());
    }
    lemma_render_split(pen0, begin, steps);
    lemma_render_split(pen0, begin + steps, fillc);
    assert(render_from(pen0, begin + steps + fillc) =~= seq![Drawing::Shape { path: mapped, fill: fill_or_red(fill) }]);
}

/// A fill style applies to the next fill only: the rectangle filled after
/// it has that colour, the one filled after that is red again.
pub proof fn lemma_fill_style_applies_once<G>(pen: PenState<G>, name: String, first: G, second: G)
    ensures
        render_from(pen, seq![HostEvent::FillStyle(name), HostEvent::FillRect(first), HostEvent::FillRect(second)])
            == seq![
                Drawing::Rect { rect: first, fill: portal_color_named(name@) },
                Drawing::Rect { rect: second, fill: PortalColor::Red },
            ],
{
    let evs = seq![HostEvent::FillStyle(name), HostEvent::FillRect(first), HostEvent::FillRect(second)];
    reveal_with_fuel(render_from, 4);
    assert(evs.drop_first() =~= seq![HostEvent::FillRect(first), HostEvent::FillRect(second)]);
    assert(evs.drop_first().drop_first() =~= seq![HostEvent::FillRect(second)]);
    assert(evs.drop_first().drop_first().drop_first() =~= Seq::<HostEvent<G>>::empty());
    assert(render_from(pen, evs) =~= seq![
        Drawing::Rect { rect: first, fill: portal_color_named(name@) },
        Drawing::Rect { rect: second, fill: PortalColor::Red },
    ]);
}

/// Labels and links neither use nor clear a pending fill style: a rectangle
/// filled after them still gets it.
pub proof fn lemma_labels_keep_fill_style<G>(
    pen: PenState<G>,
    name: String,
    label: G,
    label_color: String,
    link: G,
    rect: G,
)
    ensures
        render_from(
            pen,
            seq![
                HostEvent::FillStyle(name),
                HostEvent::Label(label, label_color),
                HostEvent::Link(link),
                HostEvent::FillRect(rect),
            ],
        ) == seq![
            Drawing::Text { label, color: portal_color_named(label_color@) },
            Drawing::Link(link),
            Drawing::Rect { rect, fill: portal_color_named(name@) },
        ],
{
    let evs = seq![
        HostEvent::FillStyle(name),
        HostEvent::Label(label, label_color),
        HostEvent::Link(link),
        HostEvent::FillRect(rect),
    ];
    reveal_with_fuel(render_from, 5);
    assert(evs.drop_first() =~= seq![HostEvent::Label(label, label_color), HostEvent::Link(link), HostEvent::FillRect(rect)]);
    assert(evs.drop_first().drop_first() =~= seq![HostEvent::Link(link), HostEvent::FillRect(rect)]);
    assert(evs.drop_first().drop_first().drop_first() =~= seq![HostEvent::FillRect(rect)]);
    assert(evs.drop_first().drop_first().drop_first().drop_first() =~= Seq::<HostEvent<G>>::empty());
    assert(render_from(pen, evs) =~= seq![
        Drawing::Text { label, color: portal_color_named(label_color@) },
        Drawing::Link(link),
        Drawing::Rect { rect, fill: portal_color_named(name@) },
    ]);
}

/// Filling a rectangle uses and clears the pending fill style but leaves the
/// path under construction as it was.
pub proof fn lemma_fill_rect_keeps_path<G>(pen: PenState<G>, rect: G)
    ensures
        pen_after(pen, HostEvent::FillRect(rect)).path == pen.path,
        pen_after(pen, HostEvent::FillRect(rect)).fill is None,
        drawn_by(pen, HostEvent::FillRect(rect)) == seq![Drawing::Rect { rect, fill: fill_or_red(pen.fill) }],
{
}

/// A rectangle filled while a path is being built is drawn first, and the
/// path is still drawn by the fill that follows, in red since the rectangle
/// used up the pending fill style.
pub proof fn lemma_rect_inside_path<G>(fill: Option<PortalColor>, steps: Seq<HostEvent<G>>, rect: G)
    requires
        forall|i: int| 0 <= i < steps.len() ==> is_path_step(#[trigger] steps[i]),
    ensures
        render_from(
            PenState { fill, path: Seq::empty() },
            seq![HostEvent::BeginPath] + steps + seq![HostEvent::FillRect(rect), HostEvent::Fill],
        ) == seq![
            Drawing::Rect { rect, fill: fill_or_red(fill) },
            Drawing::Shape {
                path: steps.map_values(|e: HostEvent<G>| path_command_of(e)),
                fill: PortalColor::Red,
            },
        ],
{
    let pen0 = PenState { fill, path: Seq::<PathCommand<G>>::empty() };
    let begin = seq![HostEvent::<G>::BeginPath];
    let tail = seq![HostEvent::FillRect(rect), HostEvent::<G>::Fill];
    let pen1 = pen_after(pen0, HostEvent::BeginPath);
    assert(render_from(pen0, begin) =~= Seq::<Drawing<G>>::empty()) by {
        reveal_with_fuel(render_from, 2);
        assert(begin[0] == HostEvent::<G>::BeginPath);
        assert(begin.drop_first() =~= Seq::<HostEvent<G>>::empty());
    }
    assert(pen_after_all(pen0, begin) == pen1) by {
        reveal_with_fuel(pen_after_all, 2);
        assert(begin[0] == HostEvent::<G>::BeginPath);
        assert(begin.drop_first() =~= Seq::<HostEvent<G>>::empty());
    }
    lemma_path_steps_accumulate(pen1, steps);
    let mapped = steps.map_values(|e: HostEvent<G>| path_command_of(e));
    let pen2 = pen_after_all(pen1, steps);
    assert(pen2.path =~= seq![PathCommand::<G>::Begin] + mapped);
    assert(pen2.path[0] is Begin);
    assert(pen2.path.drop_first() =~= mapped);
    let pen3 = pen_after(pen2, HostEvent::FillRect(rect));
    assert(pen3.path == pen2.path);
    assert(path_is_begun(pen3.path));
    assert(render_from(pen2, tail) =~= seq![
        Drawing::Rect { rect, fill: fill_or_red(fill) },
        Drawing::Shape { path: mapped, fill: PortalColor::Red },
    ]) by {
        reveal_with_fuel(render_from, 3);
        assert(tail[0] == HostEvent::FillRect(rect));
        assert(tail.drop_first() =~= seq![HostEvent::<G>::Fill]);
        assert(tail.drop_first()[0] == HostEvent::<G>::Fill);
        assert(tail.drop_first().drop_first() =~= Seq::<HostEvent<G>>::empty());
    }
    lemma_render_split(pen0, begin, steps);
    lemma_render_split(pen0, begin + steps, tail);
    assert(render_from(pen0, begin + steps + tail) =~= seq![
        Drawing::Rect { rect, fill: fill_or_red(fill) },
        Drawing::Shape { path: mapped, fill: PortalColor::Red },
    ]);
}

/// Each queued call draws at most one thing.
pub proof fn lemma_at_most_one_drawing_per_call<G>(pen: PenState<G>, events: Seq<HostEvent<G>>)
    ensures
        render_from(pen, events).len() <= events.len(),
    decreases events.len(),
{
    if events.len() > 0 {
        lemma_at_most_one_drawing_per_call(pen_after(pen, events[0]), events.drop_first());
    }
}

} // verus!
