//! The peers of this machine and the messages about them.
use std::collections::HashMap;
use vstd::prelude::*;
use vstd::std_specs::iter::IteratorSpec;

use crate::peer::{is_random_id, random_id, PeerId};
use crate::protocol::{EventModel, InputEvent};

verus! {

/// Default port for ShareMouse communication.
pub const DEFAULT_PORT: u16 = 24800;

/// Message from the network layer to the core logic. An address is held in
/// its text form.
#[derive(Debug, Clone)]
pub enum NetworkMessage {
    /// A new peer connected.
    PeerConnected { id: PeerId, addr: String },
    /// A peer disconnected.
    PeerDisconnected { id: PeerId },
    /// Received an input event from a peer.
    Event { from: PeerId, event: InputEvent },
    /// Server started listening.
    Listening { addr: String },
    /// Connection error.
    Error { message: String },
}

/// What happens on the connection to a peer.
#[derive(Debug)]
pub enum PeerEvent {
    /// The connection is there. The address is missing if the socket did not tell it.
    Started { addr: Option<String> },
    /// The writing half has ended, with or without an error.
    WriterStopped,
    /// The reading half has ended, with or without an error.
    ReaderStopped,
}

/// What is to be done for the connection to a peer.
#[derive(Debug)]
pub enum PeerAction {
    /// Open the queue of outgoing events and write them to the socket.
    StartWriter,
    /// Read events from the socket.
    StartReader,
    /// Tell the core logic.
    Announce { message: NetworkMessage },
    /// Stop the writing half.
    StopWriter,
}

/// The connected peers after something happened on the connection to the peer `id`.
pub open spec fn peers_after(
    peers: Map<PeerId, Seq<char>>,
    id: PeerId,
    event: PeerEvent,
) -> Map<PeerId, Seq<char>> {
    match event {
        PeerEvent::Started { addr: Some(addr) } => peers.insert(id, addr@),
        PeerEvent::Started { addr: None } => peers.insert(id, "0.0.0.0:0"@),
        PeerEvent::WriterStopped => peers.remove(id),
        PeerEvent::ReaderStopped => peers.remove(id),
    }
}

/// What is to be done after something happened on the connection to the peer `id`.
pub open spec fn peer_actions(id: PeerId, event: PeerEvent) -> Seq<PeerAction> {
    match event {
        PeerEvent::Started { .. } => seq![PeerAction::StartWriter, PeerAction::StartReader],
        PeerEvent::WriterStopped => seq![
            PeerAction::Announce { message: NetworkMessage::PeerDisconnected { id } },
        ],
        PeerEvent::ReaderStopped => seq![
            PeerAction::Announce { message: NetworkMessage::PeerDisconnected { id } },
            PeerAction::StopWriter,
        ],
    }
}

/// Whether `list` names every peer of `peers` once, with its address, and no other peer.
pub open spec fn lists_peers(list: Seq<(PeerId, String)>, peers: Map<PeerId, Seq<char>>) -> bool {
    &&& forall|i: int|
        0 <= i < list.len() ==> peers.contains_key((#[trigger] list[i]).0) && peers[list[i].0]
            == list[i].1@
    &&& forall|id: PeerId| #[trigger]
        peers.contains_key(id) ==> exists|i: int| 0 <= i < list.len() && (#[trigger] list[i]).0 == id
    &&& forall|i: int, j: int|
        0 <= i < j < list.len() ==> (#[trigger] list[i]).0 != (#[trigger] list[j]).0
}

/// Whether `list` names every peer of `peers` once, and no other peer.
pub open spec fn names_peers(list: Seq<PeerId>, peers: Map<PeerId, Seq<char>>) -> bool {
    &&& forall|i: int| 0 <= i < list.len() ==> peers.contains_key(#[trigger] list[i])
    &&& forall|id: PeerId| #[trigger] peers.contains_key(id) ==> list.contains(id)
    &&& list.no_duplicates()
}

/// Whether `sends` gives `event` to every peer of `peers` once, and to no other peer.
pub open spec fn reaches_peers(
    sends: Seq<(PeerId, InputEvent)>,
    peers: Map<PeerId, Seq<char>>,
    event: EventModel,
) -> bool {
    &&& forall|i: int|
        0 <= i < sends.len() ==> peers.contains_key((#[trigger] sends[i]).0) && sends[i].1@ == event
    &&& forall|id: PeerId| #[trigger]
        peers.contains_key(id) ==> exists|i: int|
            0 <= i < sends.len() && (#[trigger] sends[i]).0 == id
    &&& forall|i: int, j: int|
        0 <= i < j < sends.len() ==> (#[trigger] sends[i]).0 != (#[trigger] sends[j]).0
}

/// The peers that are connected, each with its address. Every one of them has
/// a queue of outgoing events.
pub struct NetworkHub {
    peers: HashMap<PeerId, String>,
}

impl View for NetworkHub {
    type V = Map<PeerId, Seq<char>>;

    closed spec fn view(&self) -> Map<PeerId, Seq<char>> {
        self.peers@.map_values(|addr: String| addr@)
    }
}

impl NetworkHub {
    /// A hub without peers.
    pub fn new() -> (hub: NetworkHub)
        ensures
            hub@ == Map::<PeerId, Seq<char>>::empty(),
    {
        let hub: NetworkHub = NetworkHub { peers: HashMap::new() };
        assert(hub@ =~= Map::<PeerId, Seq<char>>::empty());
        hub
    }

    /// The message that the server listens.
    pub fn listening(addr: String) -> (message: NetworkMessage)
        ensures
            message matches NetworkMessage::Listening { addr: told } && told@ == addr@,
    {
        NetworkMessage::Listening { addr }
    }

    /// Gives a fresh connection an identifier. Returns it with the message that
    /// announces the peer.
    pub fn greet(addr: String) -> (res: (PeerId, NetworkMessage))
        ensures
            is_random_id(res.0),
            res.1 matches NetworkMessage::PeerConnected { id, addr: told } && id == res.0 && told@
                == addr@,
    {
        let id: PeerId = random_id();
        (id, Self::peer_connected(id, addr))
    }

    /// The message that announces the peer `id`.
    pub fn peer_connected(id: PeerId, addr: String) -> (message: NetworkMessage)
        ensures
            message matches NetworkMessage::PeerConnected { id: named, addr: told } && named == id
                && told@ == addr@,
    {
        NetworkMessage::PeerConnected { id, addr }
    }

    /// Follows the connection to the peer `id` and says what is to be done.
    pub fn handle_peer(&mut self, id: PeerId, event: PeerEvent) -> (actions: Vec<PeerAction>)
        ensures
            final(self)@ == peers_after(old(self)@, id, event),
            actions@ == peer_actions(id, event),
    {
        broadcast use vstd::std_specs::hash::group_hash_axioms;

        match event {
            PeerEvent::Started { addr } => {
                let known: String = match addr {
                    Some(addr) => addr,
                    None => "0.0.0.0:0".to_owned(),
                };
                self.peers.insert(id, known);
                assert(self@ =~= old(self)@.insert(id, known@));
                vec![PeerAction::StartWriter, PeerAction::StartReader]
            },
            PeerEvent::WriterStopped => {
                self.peers.remove(&id);
                assert(self@ =~= old(self)@.remove(id));
                vec![PeerAction::Announce { message: NetworkMessage::PeerDisconnected { id } }]
            },
            PeerEvent::ReaderStopped => {
                self.peers.remove(&id);
                assert(self@ =~= old(self)@.remove(id));
                vec![
                    PeerAction::Announce { message: NetworkMessage::PeerDisconnected { id } },
                    PeerAction::StopWriter,
                ]
            },
        }
    }

    /// Sends an event to a specific peer: gives the event back if it is to be
    /// put into the peer's queue, and drops it if there is no such peer.
    pub fn send_to(&self, peer_id: &PeerId, event: InputEvent) -> (res: Option<InputEvent>)
        ensures
            res is Some <==> self@.contains_key(*peer_id),
            res matches Some(queued) ==> queued == event,
    {
        broadcast use vstd::std_specs::hash::group_hash_axioms;

        if self.peers.contains_key(peer_id) {
            Some(event)
        } else {
            None
        }
    }

    /// Broadcasts an event to all connected peers: the copies to be put into
    /// the peers' queues, in no particular order.
    pub fn broadcast(&self, event: &InputEvent) -> (sends: Vec<(PeerId, InputEvent)>)
        ensures
            reaches_peers(sends@, self@, event@),
    {
        broadcast use vstd::std_specs::hash::group_hash_axioms;

        let mut sends: Vec<(PeerId, InputEvent)> = Vec::new();
        let ghost ids = self.peers.keys().remaining().unref();
        for id in it: self.peers.keys()
            invariant
                it.seq().unref() == ids,
                sends@.len() == it.index(),
                forall|i: int|
                    0 <= i < it.index() ==> (#[trigger] sends@[i]).0 == ids[i] && sends@[i].1@
                        == event@,
        {
            sends.push((*id, event.clone()));
        }
        proof {
            lemma_ids(self.peers@, self@, ids);
            assert forall|id: PeerId| #[trigger] self@.contains_key(id) implies exists|i: int|
                0 <= i < sends@.len() && (#[trigger] sends@[i]).0 == id by {
                let i = ids.index_of(id);
                assert(sends@[i].0 == id);
            }
        }
        sends
    }

    /// Forgets all peers. Returns them, in no particular order: their
    /// connections are to be closed.
    pub fn disconnect_all(&mut self) -> (list: Vec<PeerId>)
        ensures
            final(self)@ == Map::<PeerId, Seq<char>>::empty(),
            names_peers(list@, old(self)@),
    {
        broadcast use vstd::std_specs::hash::group_hash_axioms;

        let mut list: Vec<PeerId> = Vec::new();
        let ghost ids = self.peers.keys().remaining().unref();
        proof {
            lemma_ids(self.peers@, self@, ids);
        }
        for id in it: self.peers.keys()
            invariant
                it.seq().unref() == ids,
                list@ == ids.take(it.index() as int),
        {
            assert(*id == ids[it.index() as int]);
            list.push(*id);
            assert(list@ =~= ids.take(it.index() as int + 1));
        }
        assert(list@ =~= ids);
        self.peers.clear();
        assert(self@ =~= Map::<PeerId, Seq<char>>::empty());
        list
    }

    /// The connected peers with their addresses, in no particular order.
    pub fn get_peers(&self) -> (list: Vec<(PeerId, String)>)
        ensures
            lists_peers(list@, self@),
    {
        broadcast use vstd::std_specs::hash::group_hash_axioms;

        let mut list: Vec<(PeerId, String)> = Vec::new();
        let ghost ids = self.peers.keys().remaining().unref();
        proof {
            lemma_ids(self.peers@, self@, ids);
        }
        for id in it: self.peers.keys()
            invariant
                it.seq().unref() == ids,
                forall|i: int| 0 <= i < ids.len() ==> self@.contains_key(#[trigger] ids[i]),
                list@.len() == it.index(),
                forall|i: int|
                    0 <= i < it.index() ==> (#[trigger] list@[i]).0 == ids[i] && list@[i].1@
                        == self@[list@[i].0],
        {
            assert(*id == ids[it.index() as int]);
            if let Some(addr) = self.peers.get(id) {
                list.push((*id, addr.clone()));
            }
        }
        proof {
            assert forall|id: PeerId| #[trigger] self@.contains_key(id) implies exists|i: int|
                0 <= i < list@.len() && (#[trigger] list@[i]).0 == id by {
                let i = ids.index_of(id);
                assert(list@[i].0 == id);
            }
        }
        list
    }
}

/// A peer that connected is there until one half of its connection stops; that
/// the other half stops too changes nothing more.
pub proof fn law_peer_stays_until_it_stops(
    peers: Map<PeerId, Seq<char>>,
    id: PeerId,
    start: PeerEvent,
    stop: PeerEvent,
    second_stop: PeerEvent,
)
    requires
        start is Started,
        stop !is Started,
        second_stop !is Started,
    ensures
        peers_after(peers, id, start).contains_key(id),
        !peers_after(peers_after(peers, id, start), id, stop).contains_key(id),
        peers_after(peers_after(peers_after(peers, id, start), id, stop), id, second_stop)
            == peers_after(peers, id, stop),
{
    assert(peers_after(peers_after(peers_after(peers, id, start), id, stop), id, second_stop)
        =~= peers_after(peers, id, stop));
}

/// What happens on one connection leaves the other peers alone.
pub proof fn law_other_peers_stay(
    peers: Map<PeerId, Seq<char>>,
    id: PeerId,
    event: PeerEvent,
    other: PeerId,
)
    requires
        other != id,
    ensures
        peers_after(peers, id, event).contains_key(other) == peers.contains_key(other),
        peers.contains_key(other) ==> peers_after(peers, id, event)[other] == peers[other],
{
}

/// A sequence that holds every key once reaches every key.
proof fn lemma_ids(map: Map<PeerId, String>, peers: Map<PeerId, Seq<char>>, ids: Seq<PeerId>)
    requires
        peers == map.map_values(|addr: String| addr@),
        ids.to_set() == map.dom(),
        ids.no_duplicates(),
    ensures
        forall|i: int| 0 <= i < ids.len() ==> peers.contains_key(#[trigger] ids[i]),
        forall|id: PeerId| #[trigger] peers.contains_key(id) ==> ids.contains(id),
{
    assert forall|i: int| 0 <= i < ids.len() implies peers.contains_key(#[trigger] ids[i]) by {
        assert(ids.to_set().contains(ids[i]));
    }
    assert forall|id: PeerId| #[trigger] peers.contains_key(id) implies ids.contains(id) by {
        assert(ids.to_set().contains(id));
    }
}

/// A peer that connects is listed with its address, or with the one that means
/// no address if the socket did not tell it. Its writer starts before its reader.
pub proof fn law_connecting_peer_is_listed(
    peers: Map<PeerId, Seq<char>>,
    id: PeerId,
    addr: Option<String>,
)
    ensures
        ({
            let after = peers_after(peers, id, PeerEvent::Started { addr });
            let actions = peer_actions(id, PeerEvent::Started { addr });
            &&& after.dom() == peers.dom().insert(id)
            &&& addr matches Some(text) ==> after[id] == text@
            &&& addr is None ==> after[id] == "0.0.0.0:0"@
            &&& actions.len() == 2
            &&& actions[0] is StartWriter
            &&& actions[1] is StartReader
        }),
{
    assert(peers_after(peers, id, PeerEvent::Started { addr }).dom() =~= peers.dom().insert(id));
}

/// A peer of which one half stops is gone, and that it disconnected is told
/// once; the end of the reader also ends the writer, not the other way round.
pub proof fn law_stopping_peer_is_announced(
    peers: Map<PeerId, Seq<char>>,
    id: PeerId,
    event: PeerEvent,
)
    requires
        event !is Started,
    ensures
        peers_after(peers, id, event).dom() == peers.dom().remove(id),
        ({
            let actions = peer_actions(id, event);
            &&& actions[0] matches PeerAction::Announce { message }
            &&& message matches NetworkMessage::PeerDisconnected { id: gone }
            &&& gone == id
            &&& event is WriterStopped ==> actions.len() == 1
            &&& event is ReaderStopped ==> actions.len() == 2 && actions[1] is StopWriter
        }),
{
    assert(peers_after(peers, id, event).dom() =~= peers.dom().remove(id));
}

/// The peers that a broadcast goes to.
pub open spec fn receivers(sends: Seq<(PeerId, InputEvent)>) -> Seq<PeerId> {
    Seq::new(sends.len(), |i: int| sends[i].0)
}

/// A broadcast goes to the connected peers and to nobody else, to each of them
/// once, and everyone gets the same event.
pub proof fn law_broadcast_goes_to_all_peers_once(
    sends: Seq<(PeerId, InputEvent)>,
    peers: Map<PeerId, Seq<char>>,
    event: EventModel,
)
    requires
        reaches_peers(sends, peers, event),
    ensures
        receivers(sends).to_set() == peers.dom(),
        receivers(sends).no_duplicates(),
        forall|i: int| 0 <= i < sends.len() ==> (#[trigger] sends[i]).1@ == event,
{
    let ids = receivers(sends);
    assert forall|id: PeerId| peers.dom().contains(id) implies #[trigger] ids.to_set().contains(
        id,
    ) by {
        assert(peers.contains_key(id));
        let i = choose|i: int| 0 <= i < sends.len() && (#[trigger] sends[i]).0 == id;
        assert(ids[i] == id);
    }
    assert forall|id: PeerId| #[trigger] ids.to_set().contains(id) implies peers.dom().contains(
        id,
    ) by {
        let i = choose|i: int| 0 <= i < ids.len() && ids[i] == id;
        assert(sends[i].0 == id);
    }
    assert(ids.to_set() =~= peers.dom());
}

/// The peers that a list names.
pub open spec fn listed(list: Seq<(PeerId, String)>) -> Seq<PeerId> {
    Seq::new(list.len(), |i: int| list[i].0)
}

/// A list of the peers names the connected ones and no other, each of them
/// once, and with its own address.
pub proof fn law_list_names_all_peers_once(
    list: Seq<(PeerId, String)>,
    peers: Map<PeerId, Seq<char>>,
)
    requires
        lists_peers(list, peers),
    ensures
        listed(list).to_set() == peers.dom(),
        listed(list).no_duplicates(),
        forall|i: int| 0 <= i < list.len() ==> peers[(#[trigger] list[i]).0] == list[i].1@,
{
    let ids = listed(list);
    assert forall|id: PeerId| peers.dom().contains(id) implies #[trigger] ids.to_set().contains(
        id,
    ) by {
        assert(peers.contains_key(id));
        let i = choose|i: int| 0 <= i < list.len() && (#[trigger] list[i]).0 == id;
        assert(ids[i] == id);
    }
    assert forall|id: PeerId| #[trigger] ids.to_set().contains(id) implies peers.dom().contains(
        id,
    ) by {
        let i = choose|i: int| 0 <= i < ids.len() && ids[i] == id;
        assert(list[i].0 == id);
    }
    assert(ids.to_set() =~= peers.dom());
}

/// The peers to disconnect are all that were connected, each of them once.
pub proof fn law_all_peers_are_disconnected(list: Seq<PeerId>, peers: Map<PeerId, Seq<char>>)
    requires
        names_peers(list, peers),
    ensures
        list.to_set() == peers.dom(),
        list.no_duplicates(),
{
    assert(list.to_set() =~= peers.dom());
}

} // verus!
