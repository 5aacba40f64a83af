//! The panel window as a state machine. The windowing toolkit's callbacks are
//! turned into events by the caller; each event yields the next state and the
//! requests to carry out, in order.

use vstd::prelude::*;

use crate::atoms::Atom;
use crate::strut::{panel_position, position_of, strut_of, strut_partial};
use crate::strut::{Edge, MonitorGeometry, StrutPartial};

verus! {

/// The family of display server that places the window.
#[derive(Clone, Copy, Debug, PartialEq, Eq, Structural)]
pub enum Backend {
    /// Raw window-manager properties on an X11 surface.
    X11,
    /// Anchor and exclusive zone of a layer-shell surface.
    LayerShell,
    /// Neither is at hand: the window is sized, and placement is skipped.
    Unavailable,
}

/// Where the window is in its life.
#[derive(Clone, Copy, Debug, PartialEq, Eq, Structural)]
pub enum Phase {
    Created,
    Realized,
    Shown,
    Closed,
}

/// Something that happened to the window or to its monitor.
#[derive(Clone, Copy, Debug, PartialEq, Eq, Structural)]
pub enum Event {
    /// The window got its surface.
    Realize,
    /// The window is being shown on a monitor of this geometry.
    Show { geometry: MonitorGeometry },
    /// The surface was laid out with this size.
    Layout { width: i32, height: i32, geometry: MonitorGeometry },
    /// The monitor reported a new geometry.
    GeometryChanged { geometry: MonitorGeometry },
    /// The monitor went away.
    Invalidate,
}

/// What the caller is asked to do to the window.
#[derive(Clone, Debug, PartialEq, Eq)]
pub enum Request {
    /// Ask for at least this size.
    SizeRequest { width: i32, height: i32 },
    /// Keep the window out of pagers.
    SkipPagerHint { skip: bool },
    /// Keep the window out of task bars.
    SkipTaskbarHint { skip: bool },
    /// Add a state to the window's `_NET_WM_STATE`.
    AddState { state: Atom },
    /// Replace a property by a list of atoms.
    ReplaceAtoms { property: Atom, atoms: Vec<Atom> },
    /// Move the window.
    MoveTo { x: i32, y: i32 },
    /// Replace a property by the twelve cardinals of a strut.
    ReplaceCardinals { property: Atom, strut: StrutPartial },
    /// Anchor the layer surface to an edge.
    Anchor { edge: Edge },
    /// Reserve this many rows for the layer surface.
    ExclusiveZone { zone: i32 },
    /// Report `Event::Invalidate` when the monitor goes away.
    WatchInvalidate,
    /// Report `Event::Layout` whenever the surface is laid out.
    WatchLayout,
    /// Report `Event::GeometryChanged` whenever the monitor's geometry changes.
    WatchGeometry,
    /// Close the window.
    Close,
}

/// A request as a mathematical value.
#[verifier::ext_equal]
pub enum RequestModel {
    SizeRequest { width: i32, height: i32 },
    SkipPagerHint { skip: bool },
    SkipTaskbarHint { skip: bool },
    AddState { state: Atom },
    ReplaceAtoms { property: Atom, atoms: Seq<Atom> },
    MoveTo { x: i32, y: i32 },
    ReplaceCardinals { property: Atom, strut: StrutPartial },
    Anchor { edge: Edge },
    ExclusiveZone { zone: i32 },
    WatchInvalidate,
    WatchLayout,
    WatchGeometry,
    Close,
}

impl View for Request {
    type V = RequestModel;

    open spec fn view(&self) -> RequestModel {
        match *self {
            Request::SizeRequest { width, height } => RequestModel::SizeRequest { width, height },
            Request::SkipPagerHint { skip } => RequestModel::SkipPagerHint { skip },
            Request::SkipTaskbarHint { skip } => RequestModel::SkipTaskbarHint { skip },
            Request::AddState { state } => RequestModel::AddState { state },
            Request::ReplaceAtoms { property, atoms } => RequestModel::ReplaceAtoms {
                property,
                atoms: atoms@,
            },
            Request::MoveTo { x, y } => RequestModel::MoveTo { x, y },
            Request::ReplaceCardinals { property, strut } => RequestModel::ReplaceCardinals {
                property,
                strut,
            },
            Request::Anchor { edge } => RequestModel::Anchor { edge },
            Request::ExclusiveZone { zone } => RequestModel::ExclusiveZone { zone },
            Request::WatchInvalidate => RequestModel::WatchInvalidate,
            Request::WatchLayout => RequestModel::WatchLayout,
            Request::WatchGeometry => RequestModel::WatchGeometry,
            Request::Close => RequestModel::Close,
        }
    }
}

/// A list of requests as a sequence of mathematical values.
pub open spec fn models(requests: Seq<Request>) -> Seq<RequestModel> {
    requests.map_values(|r: Request| r@)
}

/// The state of a panel window as a mathematical value.
pub struct PanelState {
    pub phase: Phase,
    /// The size the surface was last laid out with, if it ever was.
    pub size: Option<(i32, i32)>,
    pub edge: Edge,
    pub backend: Backend,
}

/// The one-time hints that make an X11 window a dock; nothing elsewhere.
pub open spec fn dock_hints(backend: Backend) -> Seq<RequestModel> {
    match backend {
        Backend::X11 => seq![
            RequestModel::SkipPagerHint { skip: true },
            RequestModel::SkipTaskbarHint { skip: true },
            RequestModel::AddState { state: Atom::NetWmStateAbove },
            RequestModel::AddState { state: Atom::NetWmStateSticky },
            RequestModel::ReplaceAtoms {
                property: Atom::NetWmAllowedActions,
                atoms: seq![
                    Atom::NetWmActionChangeDesktop,
                    Atom::NetWmActionAbove,
                    Atom::NetWmActionBelow,
                ],
            },
            RequestModel::ReplaceAtoms {
                property: Atom::NetWmWindowType,
                atoms: seq![Atom::NetWmWindowTypeDock],
            },
        ],
        _ => Seq::empty(),
    }
}

/// How the space of the panel is reserved: nothing while no height has been
/// observed; else, on X11, the move to the edge and the strut; with a layer
/// shell, the exclusive zone; and nothing where no backend is at hand.
pub open spec fn placement(state: PanelState, geometry: MonitorGeometry) -> Seq<RequestModel> {
    match state.size {
        None => Seq::empty(),
        Some((_, height)) => match state.backend {
            Backend::X11 => seq![
                RequestModel::MoveTo {
                    x: position_of(state.edge, geometry, height).0,
                    y: position_of(state.edge, geometry, height).1,
                },
                RequestModel::ReplaceCardinals {
                    property: Atom::NetWmStrutPartial,
                    strut: strut_of(state.edge, geometry, height),
                },
            ],
            Backend::LayerShell => seq![RequestModel::ExclusiveZone { zone: height }],
            Backend::Unavailable => Seq::empty(),
        },
    }
}

/// What is written when the geometry or the observed size has changed: the
/// window is asked to span the monitor's width, then its space is reserved.
pub open spec fn refresh(state: PanelState, geometry: MonitorGeometry) -> Seq<RequestModel> {
    seq![RequestModel::SizeRequest { width: geometry.width, height: 0 }] + placement(
        state,
        geometry,
    )
}

/// A new window: nothing observed yet, asked to span the monitor's width,
/// anchored where a layer shell places it, and watching for its monitor to go.
pub open spec fn created(edge: Edge, backend: Backend, geometry: MonitorGeometry) -> (
    PanelState,
    Seq<RequestModel>,
) {
    (
        PanelState { phase: Phase::Created, size: None, edge, backend },
        seq![
            RequestModel::WatchInvalidate,
            RequestModel::SizeRequest { width: geometry.width, height: 0 },
        ] + (match backend {
            Backend::LayerShell => seq![RequestModel::Anchor { edge }],
            _ => Seq::empty(),
        }),
    )
}

/// Showing a window that has its surface: the dock hints, the subscription to
/// the monitor's geometry, and a first refresh.
pub open spec fn shown(state: PanelState, geometry: MonitorGeometry) -> (
    PanelState,
    Seq<RequestModel>,
) {
    let next = PanelState { phase: Phase::Shown, ..state };
    (next, dock_hints(state.backend) + seq![RequestModel::WatchGeometry] + refresh(next, geometry))
}

/// The transition function: the state after an event, and the requests that
/// the event gives rise to.
pub open spec fn step(state: PanelState, event: Event) -> (PanelState, Seq<RequestModel>) {
    match event {
        Event::Realize => match state.phase {
            Phase::Created => (
                PanelState { phase: Phase::Realized, ..state },
                seq![RequestModel::WatchLayout],
            ),
            _ => (state, Seq::empty()),
        },
        Event::Show { geometry } => match state.phase {
            Phase::Created => (
                shown(state, geometry).0,
                seq![RequestModel::WatchLayout] + shown(state, geometry).1,
            ),
            Phase::Realized => shown(state, geometry),
            _ => (state, Seq::empty()),
        },
        Event::Layout { width, height, geometry } => match state.phase {
            Phase::Realized | Phase::Shown => {
                let next = PanelState { size: Some((width, height)), ..state };
                if state.size == Some((width, height)) {
                    (next, Seq::empty())
                } else {
                    (next, refresh(next, geometry))
                }
            },
            _ => (state, Seq::empty()),
        },
        Event::GeometryChanged { geometry } => match state.phase {
            Phase::Shown => (state, refresh(state, geometry)),
            _ => (state, Seq::empty()),
        },
        Event::Invalidate => match state.phase {
            Phase::Closed => (state, Seq::empty()),
            _ => (PanelState { phase: Phase::Closed, ..state }, seq![RequestModel::Close]),
        },
    }
}

/// The state after a run of events, and all the requests of the run in order.
pub open spec fn run(state: PanelState, events: Seq<Event>) -> (PanelState, Seq<RequestModel>)
    decreases events.len(),
{
    if events.len() == 0 {
        (state, Seq::empty())
    } else {
        let before = run(state, events.drop_last());
        let last = step(before.0, events.last());
        (last.0, before.1 + last.1)
    }
}

/// What a panel window remembers between events: the size its surface was
/// last laid out with.
#[derive(Clone, Copy, Debug)]
pub struct PanelWindowInner {
    size: Option<(i32, i32)>,
}

impl PanelWindowInner {
    /// The remembered size.
    pub closed spec fn cached(&self) -> Option<(i32, i32)> {
        self.size
    }

    /// Nothing observed yet.
    pub fn new() -> (inner: PanelWindowInner)
        ensures
            inner.cached() is None,
    {
        PanelWindowInner { size: None }
    }

    /// The size the surface was last laid out with, if it ever was.
    pub fn size(&self) -> (size: Option<(i32, i32)>)
        ensures
            size == self.cached(),
    {
        self.size
    }

    /// Remembers a size, and tells whether it differs from the one remembered
    /// before.
    pub fn replace(&mut self, width: i32, height: i32) -> (changed: bool)
        ensures
            final(self).cached() == Some((width, height)),
            changed == (old(self).cached() != Some((width, height))),
    {
        let changed = match self.size {
            Some((w, h)) => w != width || h != height,
            None => true,
        };
        self.size = Some((width, height));
        changed
    }
}

impl Default for PanelWindowInner {
    fn default() -> (inner: PanelWindowInner)
        ensures
            inner.cached() is None,
    {
        PanelWindowInner::new()
    }
}

/// A panel window: its phase, what it remembers, and how it is placed.
#[derive(Clone, Copy, Debug)]
pub struct PanelWindow {
    inner: PanelWindowInner,
    edge: Edge,
    backend: Backend,
    phase: Phase,
}

impl View for PanelWindow {
    type V = PanelState;

    closed spec fn view(&self) -> PanelState {
        PanelState {
            phase: self.phase,
            size: self.inner.cached(),
            edge: self.edge,
            backend: self.backend,
        }
    }
}

fn push_request(requests: &mut Vec<Request>, request: Request)
    ensures
        models(final(requests)@) == models(old(requests)@).push(request@),
{
    requests.push(request);
    assert(models(requests@) =~= models(old(requests)@).push(request@));
}

fn append_requests(requests: &mut Vec<Request>, more: Vec<Request>)
    ensures
        models(final(requests)@) == models(old(requests)@) + models(more@),
{
    let mut more = more;
    let ghost tail = more@;
    requests.append(&mut more);
    assert(models(requests@) =~= models(old(requests)@) + models(tail));
}

fn dock_hint_requests(backend: Backend) -> (requests: Vec<Request>)
    ensures
        models(requests@) == dock_hints(backend),
{
    let mut requests: Vec<Request> = Vec::new();
    assert(models(requests@) =~= Seq::empty());
    match backend {
        Backend::X11 => {
            push_request(&mut requests, Request::SkipPagerHint { skip: true });
            push_request(&mut requests, Request::SkipTaskbarHint { skip: true });
            push_request(&mut requests, Request::AddState { state: Atom::NetWmStateAbove });
            push_request(&mut requests, Request::AddState { state: Atom::NetWmStateSticky });
            let actions: Vec<Atom> = vec![
                Atom::NetWmActionChangeDesktop,
                Atom::NetWmActionAbove,
                Atom::NetWmActionBelow,
            ];
            assert(actions@ =~= seq![
                Atom::NetWmActionChangeDesktop,
                Atom::NetWmActionAbove,
                Atom::NetWmActionBelow,
            ]);
            push_request(
                &mut requests,
                Request::ReplaceAtoms { property: Atom::NetWmAllowedActions, atoms: actions },
            );
            let kinds: Vec<Atom> = vec![Atom::NetWmWindowTypeDock];
            assert(kinds@ =~= seq![Atom::NetWmWindowTypeDock]);
            push_request(
                &mut requests,
                Request::ReplaceAtoms { property: Atom::NetWmWindowType, atoms: kinds },
            );
            assert(models(requests@) =~= dock_hints(backend));
        },
        _ => {},
    }
    requests
}

impl PanelWindow {
    /// Makes the window for a monitor of the given geometry.
    pub fn new(edge: Edge, backend: Backend, geometry: &MonitorGeometry) -> (out: (
        PanelWindow,
        Vec<Request>,
    ))
        ensures
            out.0@ == created(edge, backend, *geometry).0,
            models(out.1@) == created(edge, backend, *geometry).1,
    {
        let window = PanelWindow {
            inner: PanelWindowInner::new(),
            edge,
            backend,
            phase: Phase::Created,
        };
        let mut requests: Vec<Request> = Vec::new();
        assert(models(requests@) =~= Seq::empty());
        push_request(&mut requests, Request::WatchInvalidate);
        push_request(&mut requests, Request::SizeRequest { width: geometry.width, height: 0 });
        match backend {
            Backend::LayerShell => {
                push_request(&mut requests, Request::Anchor { edge });
            },
            _ => {},
        }
        assert(models(requests@) =~= created(edge, backend, *geometry).1);
        (window, requests)
    }

    /// What the window remembers.
    pub fn inner(&self) -> (inner: &PanelWindowInner)
        ensures
            inner.cached() == self@.size,
    {
        &self.inner
    }

    /// Where the window is in its life.
    pub fn phase(&self) -> (phase: Phase)
        ensures
            phase == self@.phase,
    {
        self.phase
    }

    /// The edge the window is pinned to.
    pub fn edge(&self) -> (edge: Edge)
        ensures
            edge == self@.edge,
    {
        self.edge
    }

    /// The backend that places the window.
    pub fn backend(&self) -> (backend: Backend)
        ensures
            backend == self@.backend,
    {
        self.backend
    }

    fn placement_requests(&self, geometry: &MonitorGeometry) -> (requests: Vec<Request>)
        ensures
            models(requests@) == placement(self@, *geometry),
    {
        let mut requests: Vec<Request> = Vec::new();
        assert(models(requests@) =~= Seq::empty());
        match self.inner.size() {
            None => {},
            Some((_, height)) => match self.backend {
                Backend::X11 => {
                    let position = panel_position(self.edge, geometry, height);
                    let strut = strut_partial(self.edge, geometry, height);
                    push_request(&mut requests, Request::MoveTo { x: position.0, y: position.1 });
                    push_request(
                        &mut requests,
                        Request::ReplaceCardinals { property: Atom::NetWmStrutPartial, strut },
                    );
                    assert(models(requests@) =~= placement(self@, *geometry));
                },
                Backend::LayerShell => {
                    push_request(&mut requests, Request::ExclusiveZone { zone: height });
                    assert(models(requests@) =~= placement(self@, *geometry));
                },
                Backend::Unavailable => {},
            },
        }
        requests
    }

    fn refresh_requests(&self, geometry: &MonitorGeometry) -> (requests: Vec<Request>)
        ensures
            models(requests@) == refresh(self@, *geometry),
    {
        let mut requests: Vec<Request> = Vec::new();
        assert(models(requests@) =~= Seq::empty());
        push_request(&mut requests, Request::SizeRequest { width: geometry.width, height: 0 });
        append_requests(&mut requests, self.placement_requests(geometry));
        assert(models(requests@) =~= refresh(self@, *geometry));
        requests
    }

    fn shown_requests(&mut self, geometry: &MonitorGeometry) -> (requests: Vec<Request>)
        ensures
            final(self)@ == shown(old(self)@, *geometry).0,
            models(requests@) == shown(old(self)@, *geometry).1,
    {
        self.phase = Phase::Shown;
        let mut requests = dock_hint_requests(self.backend);
        push_request(&mut requests, Request::WatchGeometry);
        append_requests(&mut requests, self.refresh_requests(geometry));
        assert(models(requests@) =~= shown(old(self)@, *geometry).1);
        requests
    }

    /// The window got its surface: from now on its layout is watched.
    pub fn realize(&mut self) -> (requests: Vec<Request>)
        ensures
            final(self)@ == step(old(self)@, Event::Realize).0,
            models(requests@) == step(old(self)@, Event::Realize).1,
    {
        let mut requests: Vec<Request> = Vec::new();
        assert(models(requests@) =~= Seq::empty());
        match self.phase {
            Phase::Created => {
                self.phase = Phase::Realized;
                push_request(&mut requests, Request::WatchLayout);
                assert(models(requests@) =~= seq![RequestModel::WatchLayout]);
            },
            _ => {},
        }
        requests
    }

    /// The window is shown: it is realized first if it was not, gets its
    /// one-time hints, starts to watch its monitor, and is placed.
    pub fn show(&mut self, geometry: &MonitorGeometry) -> (requests: Vec<Request>)
        ensures
            final(self)@ == step(old(self)@, Event::Show { geometry: *geometry }).0,
            models(requests@) == step(old(self)@, Event::Show { geometry: *geometry }).1,
    {
        match self.phase {
            Phase::Created => {
                let mut requests: Vec<Request> = Vec::new();
                assert(models(requests@) =~= Seq::empty());
                push_request(&mut requests, Request::WatchLayout);
                append_requests(&mut requests, self.shown_requests(geometry));
                assert(models(requests@) =~= seq![RequestModel::WatchLayout] + shown(
                    old(self)@,
                    *geometry,
                ).1);
                requests
            },
            Phase::Realized => self.shown_requests(geometry),
            _ => {
                let requests: Vec<Request> = Vec::new();
                assert(models(requests@) =~= Seq::empty());
                requests
            },
        }
    }

    /// The surface was laid out: the size is remembered, and the window is
    /// placed anew if the size is not the one remembered before.
    pub fn layout(&mut self, width: i32, height: i32, geometry: &MonitorGeometry) -> (requests: Vec<
        Request,
    >)
        ensures
            final(self)@ == step(
                old(self)@,
                Event::Layout { width, height, geometry: *geometry },
            ).0,
            models(requests@) == step(
                old(self)@,
                Event::Layout { width, height, geometry: *geometry },
            ).1,
    {
        match self.phase {
            Phase::Realized | Phase::Shown => {
                if self.inner.replace(width, height) {
                    self.refresh_requests(geometry)
                } else {
                    let requests: Vec<Request> = Vec::new();
                    assert(models(requests@) =~= Seq::empty());
                    requests
                }
            },
            _ => {
                let requests: Vec<Request> = Vec::new();
                assert(models(requests@) =~= Seq::empty());
                requests
            },
        }
    }

    /// The monitor's geometry changed: a shown window is sized and placed anew.
    pub fn monitor_geometry_changed(&self, geometry: &MonitorGeometry) -> (requests: Vec<Request>)
        ensures
            self@ == step(self@, Event::GeometryChanged { geometry: *geometry }).0,
            models(requests@) == step(self@, Event::GeometryChanged { geometry: *geometry }).1,
    {
        match self.phase {
            Phase::Shown => self.refresh_requests(geometry),
            _ => {
                let requests: Vec<Request> = Vec::new();
                assert(models(requests@) =~= Seq::empty());
                requests
            },
        }
    }

    /// The monitor went away: the window closes, whatever it was doing.
    pub fn monitor_invalidated(&mut self) -> (requests: Vec<Request>)
        ensures
            final(self)@ == step(old(self)@, Event::Invalidate).0,
            models(requests@) == step(old(self)@, Event::Invalidate).1,
    {
        let mut requests: Vec<Request> = Vec::new();
        assert(models(requests@) =~= Seq::empty());
        match self.phase {
            Phase::Closed => {},
            _ => {
                self.phase = Phase::Closed;
                push_request(&mut requests, Request::Close);
                assert(models(requests@) =~= seq![RequestModel::Close]);
            },
        }
        requests
    }

    /// Takes one event: the window moves to the next state of `step`, and the
    /// requests of `step` come back in order.
    pub fn handle(&mut self, event: Event) -> (requests: Vec<Request>)
        ensures
            final(self)@ == step(old(self)@, event).0,
            models(requests@) == step(old(self)@, event).1,
    {
        match event {
            Event::Realize => self.realize(),
            Event::Show { geometry } => self.show(&geometry),
            Event::Layout { width, height, geometry } => self.layout(width, height, &geometry),
            Event::GeometryChanged { geometry } => self.monitor_geometry_changed(&geometry),
            Event::Invalidate => self.monitor_invalidated(),
        }
    }
}

/// Makes a window for the monitor and shows it at once.
pub fn create(edge: Edge, backend: Backend, geometry: &MonitorGeometry) -> (out: (
    PanelWindow,
    Vec<Request>,
))
    ensures
        out.0@ == step(
            created(edge, backend, *geometry).0,
            Event::Show { geometry: *geometry },
        ).0,
        models(out.1@) == created(edge, backend, *geometry).1 + step(
            created(edge, backend, *geometry).0,
            Event::Show { geometry: *geometry },
        ).1,
{
    let (mut window, mut requests) = PanelWindow::new(edge, backend, geometry);
    append_requests(&mut requests, window.show(geometry));
    (window, requests)
}

/// How far a window has come in its life.
pub open spec fn rank(phase: Phase) -> nat {
    match phase {
        Phase::Created => 0,
        Phase::Realized => 1,
        Phase::Shown => 2,
        Phase::Closed => 3,
    }
}

/// A window moves forward through its life and never back, and no event
/// changes the edge it is pinned to or the backend that places it.
pub proof fn window_moves_forward(state: PanelState, event: Event)
    ensures
        rank(state.phase) <= rank(step(state, event).0.phase),
        step(state, event).0.edge == state.edge,
        step(state, event).0.backend == state.backend,
{
}

/// Only a layout notification changes the size that is remembered, and only
/// while the layout is watched: after the window got its surface and before
/// it is closed.
pub proof fn size_follows_the_layout(state: PanelState, event: Event)
    ensures
        step(state, event).0.size != state.size ==> (event matches Event::Layout {
            width,
            height,
            ..
        } && step(state, event).0.size == Some((width, height)) && (state.phase == Phase::Realized
            || state.phase == Phase::Shown)),
{
}

/// The change-detection guard: a layout notification that repeats the size of
/// the one before it leaves the state as it is and gives rise to no request,
/// whatever the two geometries are.
pub proof fn repeated_layout_writes_nothing(
    state: PanelState,
    width: i32,
    height: i32,
    first: MonitorGeometry,
    second: MonitorGeometry,
)
    ensures
        step(
            step(state, Event::Layout { width, height, geometry: first }).0,
            Event::Layout { width, height, geometry: second },
        ) == (
            step(state, Event::Layout { width, height, geometry: first }).0,
            Seq::<RequestModel>::empty(),
        ),
{
}

/// Nothing is kept of what was written: a change of the monitor's geometry
/// leaves the state as it is, so that a notification that repeats the geometry
/// of the one before it gives rise to the same requests once more.
pub proof fn geometry_notification_keeps_no_history(state: PanelState, geometry: MonitorGeometry)
    ensures
        step(state, Event::GeometryChanged { geometry }).0 == state,
        step(
            step(state, Event::GeometryChanged { geometry }).0,
            Event::GeometryChanged { geometry },
        ) == step(state, Event::GeometryChanged { geometry }),
{
}

/// As long as no height has been observed, a change of the monitor's geometry
/// resizes a shown window and reserves no space.
pub proof fn unknown_height_reserves_nothing(state: PanelState, geometry: MonitorGeometry)
    requires
        state.size is None,
    ensures
        step(state, Event::GeometryChanged { geometry }).0 == state,
        state.phase == Phase::Shown ==> step(state, Event::GeometryChanged { geometry }).1 == seq![
            RequestModel::SizeRequest { width: geometry.width, height: 0 },
        ],
        state.phase != Phase::Shown ==> step(state, Event::GeometryChanged { geometry }).1
            == Seq::<RequestModel>::empty(),
{
    assert(refresh(state, geometry) =~= seq![
        RequestModel::SizeRequest { width: geometry.width, height: 0 },
    ]);
}

/// When its monitor goes away a window is closed, and a closed window stays
/// closed and silent: whatever events follow, none changes the state and none
/// gives rise to a request.
pub proof fn invalidated_window_stays_silent(state: PanelState, events: Seq<Event>)
    ensures
        step(state, Event::Invalidate).0.phase == Phase::Closed,
        run(step(state, Event::Invalidate).0, events) == (
            step(state, Event::Invalidate).0,
            Seq::<RequestModel>::empty(),
        ),
    decreases events.len(),
{
    let closed = step(state, Event::Invalidate).0;
    if events.len() > 0 {
        invalidated_window_stays_silent(state, events.drop_last());
        let before = run(closed, events.drop_last());
        let last = step(before.0, events.last());
        assert(last.1 =~= Seq::<RequestModel>::empty());
        assert(before.1 + last.1 =~= Seq::<RequestModel>::empty());
    }
}

} // verus!
