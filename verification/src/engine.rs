//! The routing of input events between this machine and its peers.
use vstd::prelude::*;

use crate::codec::payload_of;
use crate::peer::{id_of, parse_id, PeerId};
use crate::protocol::{EventModel, InputEvent};
use crate::screen::{
    crossing, crossing_fits, entry_point, law_crossing_leads_to_neighbor, screen_index, Edge,
    EntryPoint, ScreenLayout, ScreenModel, ScreenRect,
};
use crate::stream::{frames, law_stream_gives_back_events, split_stream};

verus! {

/// Whether this instance is the host (sending input) or client (receiving input).
#[derive(Debug, Clone, Copy, PartialEq, Eq, Structural)]
pub enum Role {
    /// This machine has the physical mouse and keyboard: it captures input and
    /// sends it to peers.
    Host,
    /// This machine receives input from a remote host.
    Client,
}

/// Who owns the cursor.
#[derive(Debug, Clone, Copy, PartialEq, Eq, Structural)]
pub enum CursorOwner {
    /// The cursor is on this machine's screen.
    Local,
    /// The cursor is on a remote machine's screen (identified by peer ID).
    Remote(PeerId),
}

/// What the engine wants done, in the given order.
#[derive(Debug)]
pub enum EngineAction {
    /// Start capturing input.
    StartCapture,
    /// Stop capturing input.
    StopCapture,
    /// Tell a peer that the cursor enters its screen.
    SendCursorEnter { to: PeerId, entry: EntryPoint },
    /// Send an event to a peer.
    Send { to: PeerId, event: InputEvent },
    /// Hide the local cursor.
    HideCursor,
    /// Show the local cursor.
    ShowCursor,
    /// Inject an event into the operating system.
    Inject { event: InputEvent },
}

/// An action, with the text and bytes of its event as sequences.
pub enum ActionModel {
    StartCapture,
    StopCapture,
    SendCursorEnter { to: PeerId, entry: EntryPoint },
    Send { to: PeerId, event: EventModel },
    HideCursor,
    ShowCursor,
    Inject { event: EventModel },
}

impl View for EngineAction {
    type V = ActionModel;

    open spec fn view(&self) -> ActionModel {
        match *self {
            EngineAction::StartCapture => ActionModel::StartCapture,
            EngineAction::StopCapture => ActionModel::StopCapture,
            EngineAction::SendCursorEnter { to, entry } => ActionModel::SendCursorEnter {
                to,
                entry,
            },
            EngineAction::Send { to, event } => ActionModel::Send { to, event: event@ },
            EngineAction::HideCursor => ActionModel::HideCursor,
            EngineAction::ShowCursor => ActionModel::ShowCursor,
            EngineAction::Inject { event } => ActionModel::Inject { event: event@ },
        }
    }
}

/// Actions, with the text and bytes of their events as sequences.
pub open spec fn action_models(actions: Seq<EngineAction>) -> Seq<ActionModel> {
    Seq::new(actions.len(), |i: int| actions[i]@)
}

/// The state of the engine.
pub struct EngineModel {
    pub layout: Seq<ScreenModel>,
    pub role: Role,
    pub cursor_owner: CursorOwner,
    pub receiving_from: Option<PeerId>,
    pub local_screen_id: Seq<char>,
}

/// Where a captured event leads out of the local screen: the peer text of the
/// screen that the cursor enters, and the entry point.
pub open spec fn exit(state: EngineModel, event: EventModel, x: i32, y: i32) -> Option<
    (Seq<char>, EntryPoint),
> {
    if event is MouseMoveAbsolute {
        match crossing(state.layout, state.local_screen_id, x, y) {
            Some((edge, i)) => match state.layout[i].peer_id {
                Some(text) => Some((text, entry_point(edge, x, y, state.layout[i].rect))),
                None => None,
            },
            None => None,
        }
    } else {
        None
    }
}

/// Whether every coordinate that is computed for a captured event can be held:
/// only an absolute move on the host's own screen needs any.
pub open spec fn captured_fits(state: EngineModel, event: EventModel, x: i32, y: i32) -> bool {
    state.role is Host && state.cursor_owner is Local && event is MouseMoveAbsolute
        ==> crossing_fits(state.layout, state.local_screen_id, x, y)
}

/// The peer to whose screen a captured event takes the cursor, if any.
pub open spec fn crosses_to(state: EngineModel, event: EventModel, x: i32, y: i32) -> Option<
    PeerId,
> {
    if state.role is Host && state.cursor_owner is Local {
        match exit(state, event, x, y) {
            Some((text, entry)) => match id_of(text) {
                Some(id) => Some(id as PeerId),
                None => None,
            },
            None => None,
        }
    } else {
        None
    }
}

/// The state after a captured event: a crossing gives the cursor to the peer,
/// and lets the peer's input in.
pub open spec fn state_after_captured(
    state: EngineModel,
    event: EventModel,
    x: i32,
    y: i32,
) -> EngineModel {
    match crosses_to(state, event, x, y) {
        Some(peer) => EngineModel {
            cursor_owner: CursorOwner::Remote(peer),
            receiving_from: Some(peer),
            ..state
        },
        None => state,
    }
}

/// What a captured event asks for.
pub open spec fn actions_for_captured(
    state: EngineModel,
    event: EventModel,
    x: i32,
    y: i32,
) -> Seq<ActionModel> {
    if state.role !is Host {
        Seq::empty()
    } else {
        match state.cursor_owner {
            CursorOwner::Local => match exit(state, event, x, y) {
                Some((text, entry)) => match id_of(text) {
                    Some(id) => seq![
                        ActionModel::SendCursorEnter { to: id as PeerId, entry },
                        ActionModel::Send { to: id as PeerId, event },
                        ActionModel::HideCursor,
                    ],
                    None => seq![ActionModel::HideCursor],
                },
                None => Seq::empty(),
            },
            CursorOwner::Remote(peer) => seq![ActionModel::Send { to: peer, event }],
        }
    }
}

/// Who owns the cursor after an event from a peer: a cursor that enters is on
/// this machine's screen, one that leaves is on the peer's.
pub open spec fn owner_after_network(
    owner: CursorOwner,
    from: PeerId,
    event: EventModel,
) -> CursorOwner {
    match event {
        EventModel::CursorEnter { .. } => CursorOwner::Local,
        EventModel::CursorLeave => CursorOwner::Remote(from),
        _ => owner,
    }
}

/// The peer that lets input in, after an event from a peer.
pub open spec fn receiving_after_network(
    receiving: Option<PeerId>,
    from: PeerId,
    event: EventModel,
) -> Option<PeerId> {
    match event {
        EventModel::CursorEnter { .. } => Some(from),
        EventModel::CursorLeave => None,
        _ => receiving,
    }
}

/// The state after an event from a peer.
pub open spec fn after_network(state: EngineModel, from: PeerId, event: EventModel) -> EngineModel {
    EngineModel {
        cursor_owner: owner_after_network(state.cursor_owner, from, event),
        receiving_from: receiving_after_network(state.receiving_from, from, event),
        ..state
    }
}

/// What an event from a peer asks for.
pub open spec fn actions_for_network(receiving: Option<PeerId>, event: EventModel) -> Seq<
    ActionModel,
> {
    match event {
        EventModel::CursorEnter { x, y } => seq![
            ActionModel::ShowCursor,
            ActionModel::Inject { event: EventModel::MouseMoveAbsolute { x, y } },
        ],
        EventModel::CursorLeave => seq![ActionModel::HideCursor],
        _ => if receiving is Some {
            seq![ActionModel::Inject { event }]
        } else {
            Seq::empty()
        },
    }
}

/// The engine that ties everything together.
pub struct Engine {
    layout: ScreenLayout,
    role: Role,
    cursor_owner: CursorOwner,
    /// The peer that the cursor came from or crossed to. While there is one,
    /// events from the network are injected here.
    receiving_from: Option<PeerId>,
    local_screen_id: String,
}

impl View for Engine {
    type V = EngineModel;

    closed spec fn view(&self) -> EngineModel {
        EngineModel {
            layout: self.layout@,
            role: self.role,
            cursor_owner: self.cursor_owner,
            receiving_from: self.receiving_from,
            local_screen_id: self.local_screen_id@,
        }
    }
}

impl Engine {
    /// An engine with an empty layout. It starts as a client, with the cursor
    /// on the local screen and no input from a peer.
    pub fn new(local_screen_id: String) -> (engine: Engine)
        ensures
            engine@ == (EngineModel {
                layout: Seq::empty(),
                role: Role::Client,
                cursor_owner: CursorOwner::Local,
                receiving_from: None,
                local_screen_id: local_screen_id@,
            }),
    {
        Engine {
            layout: ScreenLayout::new(),
            role: Role::Client,
            cursor_owner: CursorOwner::Local,
            receiving_from: None,
            local_screen_id,
        }
    }

    /// Sets the screen layout.
    pub fn set_layout(&mut self, layout: ScreenLayout)
        ensures
            final(self)@ == (EngineModel { layout: layout@, ..old(self)@ }),
    {
        self.layout = layout;
    }

    /// The current layout.
    pub fn get_layout(&self) -> (layout: ScreenLayout)
        ensures
            layout@ == self@.layout,
    {
        self.layout.clone()
    }

    /// Sets the role.
    pub fn set_role(&mut self, role: Role)
        ensures
            final(self)@ == (EngineModel { role, ..old(self)@ }),
    {
        self.role = role;
    }

    /// The current role.
    pub fn get_role(&self) -> (role: Role)
        ensures
            role == self@.role,
    {
        self.role
    }

    /// The current cursor owner.
    pub fn get_cursor_owner(&self) -> (owner: CursorOwner)
        ensures
            owner == self@.cursor_owner,
    {
        self.cursor_owner
    }

    /// The peer that the cursor came from or crossed to, while events from the
    /// network are injected here.
    pub fn get_receiving_from(&self) -> (peer: Option<PeerId>)
        ensures
            peer == self@.receiving_from,
    {
        self.receiving_from
    }

    /// The ID of the local screen.
    pub fn get_local_screen_id(&self) -> (id: String)
        ensures
            id@ == self@.local_screen_id,
    {
        self.local_screen_id.clone()
    }

    /// Starts the engine: a host captures input, a client waits for it. If the
    /// capture fails, so does the start.
    pub fn start(&self) -> (actions: Vec<EngineAction>)
        ensures
            action_models(actions@) == if self@.role is Host {
                seq![ActionModel::StartCapture]
            } else {
                Seq::empty()
            },
    {
        let mut actions: Vec<EngineAction> = Vec::new();
        if let Role::Host = self.role {
            actions.push(EngineAction::StartCapture);
        }
        assert(action_models(actions@) =~= if self@.role is Host {
            seq![ActionModel::StartCapture]
        } else {
            Seq::empty()
        });
        actions
    }

    /// Stops the engine. An action that fails ends the stop.
    pub fn stop(&self) -> (actions: Vec<EngineAction>)
        ensures
            action_models(actions@) == seq![ActionModel::StopCapture, ActionModel::ShowCursor],
    {
        let actions: Vec<EngineAction> = vec![EngineAction::StopCapture, EngineAction::ShowCursor];
        assert(action_models(actions@) =~= seq![ActionModel::StopCapture, ActionModel::ShowCursor]);
        actions
    }

    /// The rectangle of the local screen, if it is in the layout.
    pub fn get_local_rect(&self) -> (rect: Option<ScreenRect>)
        ensures
            rect == match screen_index(self@.layout, self@.local_screen_id) {
                Some(i) => Some(self@.layout[i].rect),
                None => None,
            },
    {
        self.layout.screen_rect(self.local_screen_id.as_str())
    }

    /// Whether `handle_captured_event` can hold every coordinate that it
    /// computes for the given event and pixel position.
    pub fn can_handle_captured_event(&self, event: &InputEvent, cursor_x: i32, cursor_y: i32) -> (
        res: bool)
        ensures
            res == captured_fits(self@, event@, cursor_x, cursor_y),
    {
        match (self.role, self.cursor_owner, event) {
            (Role::Host, CursorOwner::Local, InputEvent::MouseMoveAbsolute { .. }) => {
                self.layout.can_detect_edge(self.local_screen_id.as_str(), cursor_x, cursor_y)
            },
            _ => true,
        }
    }

    /// Processes a captured local input event (host mode).
    /// Checks for screen edge transitions and either forwards to a peer or
    /// lets the event pass through normally.
    ///
    /// `cursor_x` and `cursor_y` are the pixel position that the event stands
    /// for; they matter only for an absolute move on the local screen. Whether
    /// an action succeeds makes no difference to the engine.
    pub fn handle_captured_event(&mut self, event: &InputEvent, cursor_x: i32, cursor_y: i32) -> (
        actions: Vec<EngineAction>)
        requires
            captured_fits(old(self)@, event@, cursor_x, cursor_y),
        ensures
            action_models(actions@) == actions_for_captured(old(self)@, event@, cursor_x, cursor_y),
            final(self)@ == state_after_captured(old(self)@, event@, cursor_x, cursor_y),
    {
        let ghost state = self@;
        let ghost expected = actions_for_captured(state, event@, cursor_x, cursor_y);
        let mut actions: Vec<EngineAction> = Vec::new();
        if let Role::Client = self.role {
            assert(action_models(actions@) =~= expected);
            return actions;
        }
        match self.cursor_owner {
            CursorOwner::Local => {
                let mut target: Option<PeerId> = None;
                if let InputEvent::MouseMoveAbsolute { .. } = event {
                    if let Some((edge, neighbor)) = self.layout.detect_edge(
                        self.local_screen_id.as_str(),
                        cursor_x,
                        cursor_y,
                    ) {
                        proof {
                            law_crossing_leads_to_neighbor(
                                state.layout,
                                state.local_screen_id,
                                cursor_x,
                                cursor_y,
                            );
                        }
                        if let Some(text) = &neighbor.peer_id {
                            let entry: EntryPoint = self.layout.map_cursor_to_neighbor(
                                self.local_screen_id.as_str(),
                                edge,
                                cursor_x,
                                cursor_y,
                                neighbor,
                            );
                            target = parse_id(text.as_str());
                            if let Some(to) = target {
                                actions.push(EngineAction::SendCursorEnter { to, entry });
                                actions.push(EngineAction::Send { to, event: event.clone() });
                            }
                            actions.push(EngineAction::HideCursor);
                        }
                    }
                }
                if let Some(peer) = target {
                    self.cursor_owner = CursorOwner::Remote(peer);
                    self.receiving_from = Some(peer);
                }
            },
            CursorOwner::Remote(to) => {
                actions.push(EngineAction::Send { to, event: event.clone() });
            },
        }
        assert(action_models(actions@) =~= expected);
        actions
    }

    /// Processes a received network event (client mode). Whether an action
    /// succeeds makes no difference to the engine.
    pub fn handle_network_event(&mut self, from: PeerId, event: &InputEvent) -> (actions: Vec<
        EngineAction,
    >)
        ensures
            action_models(actions@) == actions_for_network(old(self)@.receiving_from, event@),
            final(self)@ == after_network(old(self)@, from, event@),
    {
        let ghost expected = actions_for_network(self@.receiving_from, event@);
        let mut actions: Vec<EngineAction> = Vec::new();
        match event {
            InputEvent::CursorEnter { x, y } => {
                self.cursor_owner = CursorOwner::Local;
                self.receiving_from = Some(from);
                actions.push(EngineAction::ShowCursor);
                actions.push(
                    EngineAction::Inject { event: InputEvent::MouseMoveAbsolute { x: *x, y: *y } },
                );
            },
            InputEvent::CursorLeave => {
                self.cursor_owner = CursorOwner::Remote(from);
                self.receiving_from = None;
                actions.push(EngineAction::HideCursor);
            },
            _ => {
                if self.receiving_from.is_some() {
                    actions.push(EngineAction::Inject { event: event.clone() });
                }
            },
        }
        assert(action_models(actions@) =~= expected);
        actions
    }
}

/// A captured event with the pixel position that it stands for.
pub struct Captured {
    pub event: EventModel,
    pub x: i32,
    pub y: i32,
}

/// The state after a captured event.
pub open spec fn after_captured(state: EngineModel, input: Captured) -> EngineModel {
    state_after_captured(state, input.event, input.x, input.y)
}

/// The state after some captured events.
pub open spec fn after_all_captured(state: EngineModel, inputs: Seq<Captured>) -> EngineModel
    decreases inputs.len(),
{
    if inputs.len() == 0 {
        state
    } else {
        after_captured(after_all_captured(state, inputs.drop_last()), inputs.last())
    }
}

/// What some captured events ask for, one after the other.
pub open spec fn actions_for_all_captured(state: EngineModel, inputs: Seq<Captured>) -> Seq<
    ActionModel,
>
    decreases inputs.len(),
{
    if inputs.len() == 0 {
        Seq::empty()
    } else {
        let before = after_all_captured(state, inputs.drop_last());
        let last = inputs.last();
        actions_for_all_captured(state, inputs.drop_last()) + actions_for_captured(
            before,
            last.event,
            last.x,
            last.y,
        )
    }
}

/// A client sends nothing and keeps its state, whatever input it captures.
pub proof fn law_client_ignores_captured_input(state: EngineModel, inputs: Seq<Captured>)
    requires
        state.role is Client,
    ensures
        after_all_captured(state, inputs) == state,
        actions_for_all_captured(state, inputs) == Seq::<ActionModel>::empty(),
    decreases inputs.len(),
{
    if inputs.len() > 0 {
        law_client_ignores_captured_input(state, inputs.drop_last());
        assert(actions_for_all_captured(state, inputs) =~= Seq::<ActionModel>::empty());
    }
}

/// While the cursor is on a peer's screen, the host forwards every captured
/// event to that peer, unchanged and in order, and does nothing else.
pub proof fn law_remote_cursor_forwards_everything(
    state: EngineModel,
    peer: PeerId,
    inputs: Seq<Captured>,
)
    requires
        state.role is Host,
        state.cursor_owner == CursorOwner::Remote(peer),
    ensures
        after_all_captured(state, inputs) == state,
        actions_for_all_captured(state, inputs) == Seq::new(
            inputs.len(),
            |i: int| ActionModel::Send { to: peer, event: inputs[i].event },
        ),
    decreases inputs.len(),
{
    let sends = Seq::new(
        inputs.len(),
        |i: int| ActionModel::Send { to: peer, event: inputs[i].event },
    );
    if inputs.len() > 0 {
        law_remote_cursor_forwards_everything(state, peer, inputs.drop_last());
        assert(actions_for_all_captured(state, inputs) =~= sends);
    } else {
        assert(actions_for_all_captured(state, inputs) =~= sends);
    }
}

/// The cursor crosses to a peer exactly when an absolute move on the host's
/// own screen hits an edge behind which a screen with a readable peer ID lies.
/// The peer is then told, gets the move itself and every event after it, the
/// local cursor is hidden, and the peer's input is let in.
pub proof fn law_crossing_hands_over_to_peer(
    state: EngineModel,
    input: Captured,
    later: Seq<Captured>,
)
    requires
        state.role is Host,
        state.cursor_owner is Local,
    ensures
        after_captured(state, input).cursor_owner is Remote <==> (exit(
            state,
            input.event,
            input.x,
            input.y,
        ) matches Some((text, entry)) && id_of(text) is Some),
        after_captured(state, input).cursor_owner matches CursorOwner::Remote(peer) ==> {
            let there = after_captured(state, input);
            let entry = exit(state, input.event, input.x, input.y)->Some_0.1;
            &&& actions_for_captured(state, input.event, input.x, input.y) == seq![
                ActionModel::SendCursorEnter { to: peer, entry },
                ActionModel::Send { to: peer, event: input.event },
                ActionModel::HideCursor,
            ]
            &&& there.receiving_from == Some(peer)
            &&& after_all_captured(there, later) == there
            &&& actions_for_all_captured(there, later) == Seq::new(
                later.len(),
                |i: int| ActionModel::Send { to: peer, event: later[i].event },
            )
        },
{
    let there = after_captured(state, input);
    if let CursorOwner::Remote(peer) = there.cursor_owner {
        law_remote_cursor_forwards_everything(there, peer, later);
    }
}

/// A move that hits no edge with a neighbor, and any event that is not an
/// absolute move, stays on the local screen.
pub proof fn law_local_input_passes_through(state: EngineModel, input: Captured)
    requires
        state.cursor_owner is Local,
        crossing(state.layout, state.local_screen_id, input.x, input.y) is None
            || input.event !is MouseMoveAbsolute,
    ensures
        after_captured(state, input) == state,
        actions_for_captured(state, input.event, input.x, input.y) == Seq::<ActionModel>::empty(),
{
}

/// A cursor that enters is on this machine's screen, and input comes from the
/// peer that sent it; when it leaves, it is on the peer's screen, and input
/// from no peer is injected.
pub proof fn law_enter_and_leave(state: EngineModel, from: PeerId, by: PeerId, x: u32, y: u32)
    ensures
        after_network(state, from, EventModel::CursorEnter { x, y }) == (EngineModel {
            cursor_owner: CursorOwner::Local,
            receiving_from: Some(from),
            ..state
        }),
        after_network(
            after_network(state, from, EventModel::CursorEnter { x, y }),
            by,
            EventModel::CursorLeave,
        ) == (EngineModel {
            cursor_owner: CursorOwner::Remote(by),
            receiving_from: None,
            ..state
        }),
{
}

/// From the time when a cursor enters or crosses to a peer, and until it is
/// said to leave, every event from the network is injected; otherwise none is.
/// Neither changes the state.
pub proof fn law_injection_needs_a_peer(state: EngineModel, from: PeerId, event: EventModel)
    requires
        event !is CursorEnter,
        event !is CursorLeave,
    ensures
        after_network(state, from, event) == state,
        state.receiving_from is Some ==> actions_for_network(state.receiving_from, event) == seq![
            ActionModel::Inject { event },
        ],
        state.receiving_from is None ==> actions_for_network(state.receiving_from, event)
            == Seq::<ActionModel>::empty(),
{
}

/// The state after some events from a peer.
pub open spec fn after_all_network(
    state: EngineModel,
    from: PeerId,
    events: Seq<EventModel>,
) -> EngineModel
    decreases events.len(),
{
    if events.len() == 0 {
        state
    } else {
        after_network(after_all_network(state, from, events.drop_last()), from, events.last())
    }
}

/// What some events from a peer ask for, one after the other.
pub open spec fn actions_for_all_network(
    state: EngineModel,
    from: PeerId,
    events: Seq<EventModel>,
) -> Seq<ActionModel>
    decreases events.len(),
{
    if events.len() == 0 {
        Seq::empty()
    } else {
        actions_for_all_network(state, from, events.drop_last()) + actions_for_network(
            after_all_network(state, from, events.drop_last()).receiving_from,
            events.last(),
        )
    }
}

/// Ordinary events are injected one after the other while input is let in.
proof fn lemma_all_injected(state: EngineModel, from: PeerId, events: Seq<EventModel>)
    requires
        state.receiving_from is Some,
        forall|i: int|
            0 <= i < events.len() ==> (#[trigger] events[i]) !is CursorEnter && events[i]
                !is CursorLeave,
    ensures
        after_all_network(state, from, events) == state,
        actions_for_all_network(state, from, events) == Seq::new(
            events.len(),
            |i: int| ActionModel::Inject { event: events[i] },
        ),
    decreases events.len(),
{
    let injections = Seq::new(
        events.len(),
        |i: int| ActionModel::Inject { event: events[i] },
    );
    if events.len() > 0 {
        let init = events.drop_last();
        assert forall|i: int| 0 <= i < init.len() implies (#[trigger] init[i]) !is CursorEnter
            && init[i] !is CursorLeave by {
            assert(init[i] == events[i]);
        }
        lemma_all_injected(state, from, init);
        assert(events.last() == events[events.len() - 1]);
        assert(actions_for_all_network(state, from, events) =~= injections);
    } else {
        assert(actions_for_all_network(state, from, events) =~= injections);
    }
}

/// Input is shared: what a host captures while the cursor is on a peer's
/// screen goes over the connection as bytes, and the peer injects exactly
/// these events, in the same order.
pub proof fn law_captured_input_is_injected_at_the_peer(
    host: EngineModel,
    peer: PeerId,
    inputs: Seq<Captured>,
    client: EngineModel,
    from: PeerId,
)
    requires
        host.role is Host,
        host.cursor_owner == CursorOwner::Remote(peer),
        client.receiving_from is Some,
        forall|i: int|
            0 <= i < inputs.len() ==> {
                &&& (#[trigger] inputs[i]).event !is CursorEnter
                &&& inputs[i].event !is CursorLeave
                &&& payload_of(inputs[i].event).len() <= 1048576
            },
    ensures
        ({
            let sent = Seq::new(inputs.len(), |i: int| inputs[i].event);
            let received = split_stream(frames(sent)).events;
            &&& actions_for_all_captured(host, inputs) == Seq::new(
                inputs.len(),
                |i: int| ActionModel::Send { to: peer, event: sent[i] },
            )
            &&& actions_for_all_network(client, from, received) == Seq::new(
                inputs.len(),
                |i: int| ActionModel::Inject { event: sent[i] },
            )
        }),
{
    let sent = Seq::new(inputs.len(), |i: int| inputs[i].event);
    law_remote_cursor_forwards_everything(host, peer, inputs);
    assert(actions_for_all_captured(host, inputs) =~= Seq::new(
        inputs.len(),
        |i: int| ActionModel::Send { to: peer, event: sent[i] },
    ));
    law_stream_gives_back_events(sent, Seq::empty());
    assert(frames(sent) + Seq::<u8>::empty() =~= frames(sent));
    assert(split_stream(Seq::<u8>::empty()).events =~= Seq::<EventModel>::empty());
    assert(sent + Seq::<EventModel>::empty() =~= sent);
    lemma_all_injected(client, from, sent);
    assert(actions_for_all_network(client, from, sent) =~= Seq::new(
        inputs.len(),
        |i: int| ActionModel::Inject { event: sent[i] },
    ));
}

/// A move of the local cursor that crosses any edge of the host's screen goes
/// to the peer of the screen that lies there: the peer is told where the
/// cursor enters, gets the move, and owns the cursor from now on, which is
/// hidden here. A peer whose ID cannot be read only has the cursor hidden, and
/// a screen without a peer has nothing happen.
pub proof fn law_every_edge_leads_to_its_peer(
    state: EngineModel,
    x: i32,
    y: i32,
    nx: u32,
    ny: u32,
    edge: Edge,
    i: int,
)
    requires
        state.role is Host,
        state.cursor_owner is Local,
        crossing(state.layout, state.local_screen_id, x, y) == Some((edge, i)),
    ensures
        ({
            let event = EventModel::MouseMoveAbsolute { x: nx, y: ny };
            let after = state_after_captured(state, event, x, y);
            let actions = actions_for_captured(state, event, x, y);
            let screen = state.layout[i];
            match screen.peer_id {
                Some(text) => match id_of(text) {
                    Some(id) => {
                        let peer = id as PeerId;
                        &&& after.cursor_owner == CursorOwner::Remote(peer)
                        &&& after.receiving_from == Some(peer)
                        &&& actions.len() == 3
                        &&& actions[0] == (ActionModel::SendCursorEnter {
                            to: peer,
                            entry: entry_point(edge, x, y, screen.rect),
                        })
                        &&& actions[1] == (ActionModel::Send { to: peer, event })
                        &&& actions[2] == ActionModel::HideCursor
                    },
                    None => {
                        &&& after == state
                        &&& actions == seq![ActionModel::HideCursor]
                    },
                },
                None => after == state && actions.len() == 0,
            }
        }),
{
}

/// No captured event changes the layout, the role or the ID of the local
/// screen, and only one that crosses to a peer changes anything at all.
pub proof fn law_capture_keeps_the_rest(state: EngineModel, event: EventModel, x: i32, y: i32)
    ensures
        ({
            let after = state_after_captured(state, event, x, y);
            &&& after.layout == state.layout
            &&& after.role == state.role
            &&& after.local_screen_id == state.local_screen_id
            &&& after != state ==> state.role is Host && state.cursor_owner is Local
                && event is MouseMoveAbsolute && crossing(
                state.layout,
                state.local_screen_id,
                x,
                y,
            ) is Some && after.cursor_owner is Remote
        }),
{
}

/// Whatever the state, a cursor that enters is shown and then put where it
/// enters, and one that leaves is hidden.
pub proof fn law_entering_shows_and_leaving_hides(
    state: EngineModel,
    from: PeerId,
    x: u32,
    y: u32,
)
    ensures
        ({
            let actions = actions_for_network(
                state.receiving_from,
                EventModel::CursorEnter { x, y },
            );
            &&& actions.len() == 2
            &&& actions[0] == ActionModel::ShowCursor
            &&& actions[1] == (ActionModel::Inject {
                event: EventModel::MouseMoveAbsolute { x, y },
            })
        }),
        actions_for_network(state.receiving_from, EventModel::CursorLeave) == seq![
            ActionModel::HideCursor,
        ],
{
}

/// A cursor that crossed to a peer and comes back from it is shown again, is
/// local again, and can cross again at once.
pub proof fn law_cursor_comes_back(
    state: EngineModel,
    input: Captured,
    peer: PeerId,
    x: u32,
    y: u32,
)
    requires
        state.cursor_owner is Local,
        after_captured(state, input).cursor_owner == CursorOwner::Remote(peer),
    ensures
        ({
            let away = after_captured(state, input);
            let back = after_network(away, peer, EventModel::CursorEnter { x, y });
            let shown = actions_for_network(
                away.receiving_from,
                EventModel::CursorEnter { x, y },
            );
            &&& actions_for_captured(state, input.event, input.x, input.y).last()
                == ActionModel::HideCursor
            &&& shown.len() == 2 && shown[0] == ActionModel::ShowCursor
            &&& back.cursor_owner is Local
            &&& actions_for_captured(back, input.event, input.x, input.y) == actions_for_captured(
                state,
                input.event,
                input.x,
                input.y,
            )
        }),
{
}

/// An event from a peer changes neither the layout nor the role nor the ID of
/// the local screen, and only one that speaks of the cursor changes anything.
pub proof fn law_network_keeps_the_rest(state: EngineModel, from: PeerId, event: EventModel)
    ensures
        after_network(state, from, event).layout == state.layout,
        after_network(state, from, event).role == state.role,
        after_network(state, from, event).local_screen_id == state.local_screen_id,
        event !is CursorEnter && event !is CursorLeave ==> after_network(state, from, event)
            == state,
{
}

/// The model of a list of actions holds every action in its place, with all it says.
pub proof fn law_actions_are_seen_whole(actions: Seq<EngineAction>, i: int)
    requires
        0 <= i < actions.len(),
    ensures
        action_models(actions).len() == actions.len(),
        action_models(actions)[i] is StartCapture <==> actions[i] is StartCapture,
        action_models(actions)[i] is StopCapture <==> actions[i] is StopCapture,
        action_models(actions)[i] is HideCursor <==> actions[i] is HideCursor,
        action_models(actions)[i] is ShowCursor <==> actions[i] is ShowCursor,
        actions[i] matches EngineAction::SendCursorEnter { to, entry } ==> action_models(
            actions,
        )[i] == (ActionModel::SendCursorEnter { to, entry }),
        actions[i] matches EngineAction::Send { to, event } ==> action_models(actions)[i] == (
        ActionModel::Send { to, event: event@ }),
        actions[i] matches EngineAction::Inject { event } ==> action_models(actions)[i] == (
        ActionModel::Inject { event: event@ }),
{
}

/// Every captured event can be handled that needs no coordinates, and every
/// move for which the layout can be worked with.
pub proof fn law_captured_events_can_be_handled(
    state: EngineModel,
    event: EventModel,
    x: i32,
    y: i32,
)
    ensures
        state.role is Client ==> captured_fits(state, event, x, y),
        state.cursor_owner is Remote ==> captured_fits(state, event, x, y),
        event !is MouseMoveAbsolute ==> captured_fits(state, event, x, y),
        crossing_fits(state.layout, state.local_screen_id, x, y) ==> captured_fits(
            state,
            event,
            x,
            y,
        ),
{
}

} // verus!
