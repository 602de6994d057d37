//! The commands of the user interface.
use vstd::prelude::*;
use vstd::string::StringExecFns;

use crate::engine::{
    action_models, ActionModel, CursorOwner, Engine, EngineAction, EngineModel, Role,
};
use crate::network::{lists_peers, names_peers, NetworkHub, DEFAULT_PORT};
use crate::peer::{
    format_id, id_of, id_text, is_random_id, law_id_text_is_read_back, random_id, PeerId,
};
use crate::screen::ScreenLayout;

verus! {

/// Shared application state.
pub struct AppState {
    pub engine: Engine,
    pub network: NetworkHub,
}

/// The role for the user interface.
#[derive(Debug)]
pub struct RoleInfo {
    pub role: String,
}

/// The cursor state for the user interface.
#[derive(Debug)]
pub struct CursorInfo {
    pub owner: String,
    pub peer_id: Option<String>,
}

/// A peer for the user interface.
#[derive(Debug)]
pub struct PeerInfo {
    pub id: String,
    pub addr: String,
}

/// What a change of the role asks for, in the given order.
#[derive(Debug)]
pub struct RoleChange {
    /// The port on which to start the server in the background, if it is to run.
    pub serve: Option<u16>,
    /// What the engine asks for.
    pub actions: Vec<EngineAction>,
}

/// What stopping the engine asks for.
#[derive(Debug)]
pub struct EngineStop {
    /// What the engine asks for, in the given order.
    pub actions: Vec<EngineAction>,
    /// The peers whose connections are to be closed.
    pub disconnect: Vec<PeerId>,
}

/// The name of a role.
pub open spec fn role_name(role: Role) -> Seq<char> {
    match role {
        Role::Host => "host"@,
        Role::Client => "client"@,
    }
}

/// Whether `infos` names the peers of `list`, in the same order.
pub open spec fn describes(infos: Seq<PeerInfo>, list: Seq<(PeerId, String)>) -> bool {
    &&& infos.len() == list.len()
    &&& forall|i: int|
        0 <= i < infos.len() ==> (#[trigger] infos[i]).id@ == id_text(list[i].0) && infos[i].addr@
            == list[i].1@
}

/// The ID of the screen of the machine that drew the identifier `id`.
pub fn local_screen_id(id: PeerId) -> (text: String)
    ensures
        text@ == "local-"@ + id_text(id),
{
    let mut text: String = "local-".to_owned();
    text.append(format_id(id).as_str());
    text
}

impl AppState {
    /// A state without peers, whose screen has a fresh ID.
    pub fn new() -> (state: AppState)
        ensures
            state.network@ == Map::<PeerId, Seq<char>>::empty(),
            exists|id: PeerId|
                is_random_id(id) && state.engine@ == (EngineModel {
                    layout: Seq::empty(),
                    role: Role::Client,
                    cursor_owner: CursorOwner::Local,
                    receiving_from: None,
                    local_screen_id: "local-"@ + #[trigger] id_text(id),
                }),
    {
        let id: PeerId = random_id();
        AppState { engine: Engine::new(local_screen_id(id)), network: NetworkHub::new() }
    }
}

/// Gets the current role.
pub fn get_role(state: &AppState) -> (info: RoleInfo)
    ensures
        info.role@ == role_name(state.engine@.role),
{
    RoleInfo {
        role: match state.engine.get_role() {
            Role::Host => "host".to_owned(),
            Role::Client => "client".to_owned(),
        },
    }
}

/// Switches to host mode: the server starts, and input is captured.
pub fn set_role_host(state: &mut AppState) -> (change: RoleChange)
    ensures
        final(state).engine@ == (EngineModel { role: Role::Host, ..old(state).engine@ }),
        final(state).network == old(state).network,
        change.serve == Some(DEFAULT_PORT),
        action_models(change.actions@) == seq![ActionModel::StartCapture],
{
    state.engine.set_role(Role::Host);
    RoleChange { serve: Some(DEFAULT_PORT), actions: state.engine.start() }
}

/// Switches to client mode: input is no longer captured, only received and injected.
pub fn set_role_client(state: &mut AppState) -> (change: RoleChange)
    ensures
        final(state).engine@ == (EngineModel { role: Role::Client, ..old(state).engine@ }),
        final(state).network == old(state).network,
        change.serve is None,
        action_models(change.actions@) == seq![ActionModel::StopCapture],
{
    state.engine.set_role(Role::Client);
    let actions: Vec<EngineAction> = vec![EngineAction::StopCapture];
    assert(action_models(actions@) =~= seq![ActionModel::StopCapture]);
    RoleChange { serve: None, actions }
}

/// Gets the current screen layout.
pub fn get_screen_layout(state: &AppState) -> (layout: ScreenLayout)
    ensures
        layout@ == state.engine@.layout,
{
    state.engine.get_layout()
}

/// Updates the screen layout.
pub fn set_screen_layout(state: &mut AppState, layout: ScreenLayout)
    ensures
        final(state).engine@ == (EngineModel { layout: layout@, ..old(state).engine@ }),
        final(state).network == old(state).network,
{
    state.engine.set_layout(layout);
}

/// Gets the cursor ownership state.
pub fn get_cursor_state(state: &AppState) -> (info: CursorInfo)
    ensures
        match state.engine@.cursor_owner {
            CursorOwner::Local => info.owner@ == "local"@ && info.peer_id is None,
            CursorOwner::Remote(id) => info.owner@ == "remote"@ && (info.peer_id matches Some(
                text,
            ) && text@ == id_text(id)),
        },
{
    match state.engine.get_cursor_owner() {
        CursorOwner::Local => CursorInfo { owner: "local".to_owned(), peer_id: None },
        CursorOwner::Remote(id) => CursorInfo {
            owner: "remote".to_owned(),
            peer_id: Some(format_id(id)),
        },
    }
}

/// Gets the list of connected peers, in no particular order.
pub fn get_peers(state: &AppState) -> (infos: Vec<PeerInfo>)
    ensures
        exists|list: Seq<(PeerId, String)>| #[trigger]
            lists_peers(list, state.network@) && describes(infos@, list),
{
    let list: Vec<(PeerId, String)> = state.network.get_peers();
    let mut infos: Vec<PeerInfo> = Vec::new();
    for i in 0..list.len()
        invariant
            infos@.len() == i,
            forall|j: int|
                0 <= j < i ==> (#[trigger] infos@[j]).id@ == id_text(list@[j].0)
                    && infos@[j].addr@ == list@[j].1@,
    {
        infos.push(PeerInfo { id: format_id(list[i].0), addr: list[i].1.clone() });
    }
    assert(lists_peers(list@, state.network@) && describes(infos@, list@));
    infos
}

/// Stops the engine and disconnects.
pub fn stop_engine(state: &mut AppState) -> (stop: EngineStop)
    ensures
        final(state).engine@ == old(state).engine@,
        final(state).network@ == Map::<PeerId, Seq<char>>::empty(),
        action_models(stop.actions@) == seq![ActionModel::StopCapture, ActionModel::ShowCursor],
        names_peers(stop.disconnect@, old(state).network@),
{
    let disconnect: Vec<PeerId> = state.network.disconnect_all();
    EngineStop { actions: state.engine.stop(), disconnect }
}

/// Tells the outcome of connecting to a remote host: the ID of the peer, or why
/// there is none.
pub fn connect_to_host(connected: Result<PeerId, String>) -> (res: Result<String, String>)
    ensures
        match connected {
            Ok(id) => res matches Ok(text) && text@ == id_text(id),
            Err(message) => res == Err::<String, String>(message),
        },
{
    match connected {
        Ok(id) => Ok(format_id(id)),
        Err(message) => Err(message),
    }
}

/// What the user interface is told of a peer leads back to that peer: its text
/// reads as the peer's identifier, and its address is the connection's.
pub proof fn law_described_peers_are_found_again(
    infos: Seq<PeerInfo>,
    list: Seq<(PeerId, String)>,
    i: int,
)
    requires
        describes(infos, list),
        0 <= i < list.len(),
    ensures
        infos.len() == list.len(),
        id_of(infos[i].id@) == Some(list[i].0 as nat),
        infos[i].addr@ == list[i].1@,
{
    law_id_text_is_read_back(list[i].0);
}

/// The two roles have the names that the user interface knows.
pub proof fn law_roles_are_told_apart(role: Role)
    ensures
        role_name(role) == "host"@ <==> role is Host,
        role_name(role) == "client"@ <==> role is Client,
{
    reveal_strlit("host");
    reveal_strlit("client");
    assert("host"@.len() == 4);
    assert("client"@.len() == 6);
}

} // verus!
