//! The pinger: it asks the unidentified peers who they are and sends the
//! known peers a heartbeat, round after round, until it is told to stop.
//!
//! The pinger decides and the caller acts: the caller waits, sends the pings
//! and hands back what happened.

use vstd::prelude::*;
use crate::cluster::{
    address_texts, known_list, lists_addresses, lists_nodes, lists_nodes_by, node_views, unknown_list, Cluster,
    ClusterView, PingView, Pong,
};
use crate::node::{Node, NodeView, UnknownNode};

verus! {

/// What came of a ping that was sent to a peer.
#[derive(Debug, PartialEq)]
pub enum Reply {
    /// The request failed, or its answer could not be read: the reason.
    Failed(String),
    /// The answer was read: its text, and the pong that the text holds or the
    /// reason why it holds none.
    Answered { body: String, pong: Result<Pong, String> },
}

/// What a reply holds.
pub enum ReplyView {
    Failed(Seq<char>),
    Answered { body: Seq<char>, pong: Result<PingView, Seq<char>> },
}

impl View for Reply {
    type V = ReplyView;

    open spec fn view(&self) -> ReplyView {
        match *self {
            Reply::Failed(error) => ReplyView::Failed(error@),
            Reply::Answered { body, pong } => ReplyView::Answered {
                body: body@,
                pong: match pong {
                    Ok(pong) => Ok(pong@),
                    Err(error) => Err(error@),
                },
            },
        }
    }
}

/// Why a ping brought no pong.
#[derive(Debug, PartialEq)]
pub enum Error {
    /// The request failed, or its answer could not be read: the reason.
    HttpError(String),
    /// The answer holds no pong: the reason, and the answer.
    JsonError(String, String),
}

/// What an error holds.
pub enum ErrorView {
    HttpError(Seq<char>),
    JsonError(Seq<char>, Seq<char>),
}

impl View for Error {
    type V = ErrorView;

    open spec fn view(&self) -> ErrorView {
        match *self {
            Error::HttpError(error) => ErrorView::HttpError(error@),
            Error::JsonError(error, body) => ErrorView::JsonError(error@, body@),
        }
    }
}

impl ReplyView {
    /// The pong of a reply, or the reason why there is none.
    pub open spec fn pong(self) -> Result<PingView, ErrorView> {
        match self {
            ReplyView::Failed(error) => Err(ErrorView::HttpError(error)),
            ReplyView::Answered { body, pong: Err(error) } => Err(ErrorView::JsonError(error, body)),
            ReplyView::Answered { body, pong: Ok(pong) } => Ok(pong),
        }
    }
}

/// What the result of a heartbeat holds.
pub open spec fn pong_view(result: Result<Pong, Error>) -> Result<PingView, ErrorView> {
    match result {
        Ok(pong) => Ok(pong@),
        Err(error) => Err(error@),
    }
}

/// What the result of an identification holds.
pub open spec fn node_view(result: Result<Node, Error>) -> Result<NodeView, ErrorView> {
    match result {
        Ok(node) => Ok(node@),
        Err(error) => Err(error@),
    }
}

/// The address to which a ping for the peer at `address` is sent.
pub open spec fn ping_url_text(address: Seq<char>) -> Seq<char> {
    "http://"@ + address + "/ping"@
}

/// The address to which a ping for the peer at `address` is sent.
pub fn ping_url(address: &str) -> (url: String)
    ensures
        url@ == ping_url_text(address@),
{
    let mut url = "http://".to_owned();
    url.append(address);
    url.append("/ping");
    url
}

/// The pong that a heartbeat brought, or the reason why it brought none.
pub fn ping_peer(reply: Reply) -> (result: Result<Pong, Error>)
    ensures
        pong_view(result) == reply@.pong(),
{
    match reply {
        Reply::Failed(error) => Err(Error::HttpError(error)),
        Reply::Answered { body, pong } => match pong {
            Ok(pong) => Ok(pong),
            Err(error) => Err(Error::JsonError(error, body)),
        },
    }
}

impl ClusterView {
    /// What the reply of the unidentified peer at `address` does to the state
    /// of the cluster, and what comes of it: a pong identifies the peer as its
    /// sender; anything else leaves the state as it is, for another try.
    pub open spec fn identification(self, address: Seq<char>, reply: ReplyView) -> (
        ClusterView,
        Result<NodeView, ErrorView>,
    ) {
        match reply.pong() {
            Ok(pong) => (self.identify_peer(address, pong.from), Ok(pong.from)),
            Err(error) => (self, Err(error)),
        }
    }
}

/// Takes in the reply of an unidentified peer: a pong identifies the peer as
/// its sender, anything else leaves the peer unidentified.
pub fn identify_peer(cluster: &mut Cluster, peer: &UnknownNode, reply: Reply) -> (result: Result<Node, Error>)
    ensures
        (final(cluster)@, node_view(result)) == old(cluster)@.identification(peer.address@, reply@),
{
    match ping_peer(reply) {
        Ok(pong) => Ok(cluster.identify_peer(peer, pong.from)),
        Err(error) => Err(error),
    }
}

/// What the pinger is doing.
#[derive(Clone, Copy, Debug, PartialEq, Eq, Structural)]
pub enum Phase {
    /// It waits for the next tick or for a signal.
    Waiting,
    /// It asks the unidentified peers who they are, one after the other.
    Identifying,
    /// It sends the known peers a heartbeat, one after the other.
    Pinging,
    /// It has been told to stop.
    Stopped,
}

/// What happened since the pinger last decided.
#[derive(Debug, PartialEq)]
pub enum Event {
    /// The timer ticked.
    Tick,
    /// The timer is gone.
    TickClosed,
    /// A signal to terminate arrived: its number.
    Signal(i32),
    /// The source of signals is gone.
    SignalClosed,
    /// The ping that the pinger asked for was sent: what came of it.
    Reply(Reply),
}

/// What an event holds.
pub enum EventView {
    Tick,
    TickClosed,
    Signal(i32),
    SignalClosed,
    Reply(ReplyView),
}

impl View for Event {
    type V = EventView;

    open spec fn view(&self) -> EventView {
        match *self {
            Event::Tick => EventView::Tick,
            Event::TickClosed => EventView::TickClosed,
            Event::Signal(signal) => EventView::Signal(signal),
            Event::SignalClosed => EventView::SignalClosed,
            Event::Reply(reply) => EventView::Reply(reply@),
        }
    }
}

/// What the caller is to do next.
#[derive(Debug, PartialEq)]
pub enum Action {
    /// Wait for the timer or for a signal, whichever comes first, and hand
    /// back which it was.
    Wait,
    /// Ping the unidentified peer and hand back the reply.
    Identify(UnknownNode),
    /// Ping the known peer and hand back the reply.
    Heartbeat(Node),
    /// Stop.
    Exit,
}

/// What an action holds.
pub enum ActionView {
    Wait,
    Identify(Seq<char>),
    Heartbeat(NodeView),
    Exit,
}

impl View for Action {
    type V = ActionView;

    open spec fn view(&self) -> ActionView {
        match *self {
            Action::Wait => ActionView::Wait,
            Action::Identify(peer) => ActionView::Identify(peer.address@),
            Action::Heartbeat(peer) => ActionView::Heartbeat(peer@),
            Action::Exit => ActionView::Exit,
        }
    }
}

/// What the pinger made of the event that it was handed.
#[derive(Debug, PartialEq)]
pub enum Report {
    /// Nothing that the cluster would show.
    Nothing,
    /// The reply of an unidentified peer was taken in.
    Identification { peer: UnknownNode, result: Result<Node, Error> },
    /// The reply of a known peer was taken in.
    Heartbeat { target: Node, pong: Result<Pong, Error> },
}

/// What a report holds.
pub enum ReportView {
    Nothing,
    Identification { peer: Seq<char>, result: Result<NodeView, ErrorView> },
    Heartbeat { target: NodeView, pong: Result<PingView, ErrorView> },
}

impl View for Report {
    type V = ReportView;

    open spec fn view(&self) -> ReportView {
        match *self {
            Report::Nothing => ReportView::Nothing,
            Report::Identification { peer, result } => ReportView::Identification {
                peer: peer.address@,
                result: node_view(result),
            },
            Report::Heartbeat { target, pong } => ReportView::Heartbeat { target: target@, pong: pong_view(pong) },
        }
    }
}

/// The decision of the pinger: what the caller is to do next, and what the
/// pinger made of the event.
#[derive(Debug, PartialEq)]
pub struct Step {
    pub action: Action,
    pub report: Report,
}

/// The pinger. In a round it holds the peers that it has yet to reach; the
/// next one is the last of the list.
#[derive(Debug)]
pub struct Pinger {
    phase: Phase,
    unidentified: Vec<UnknownNode>,
    known: Vec<Node>,
    heartbeat_due: bool,
}

/// What a pinger holds: what it is doing; the addresses that it has yet to
/// ask, the next one last; the known peers that it has yet to ping, the next
/// one last; and whether heartbeats follow the identifications.
pub struct PingerView {
    pub phase: Phase,
    pub unidentified: Seq<Seq<char>>,
    pub known: Seq<NodeView>,
    pub heartbeat_due: bool,
}

impl View for Pinger {
    type V = PingerView;

    closed spec fn view(&self) -> PingerView {
        PingerView {
            phase: self.phase,
            unidentified: address_texts(self.unidentified@),
            known: node_views(self.known@),
            heartbeat_due: self.heartbeat_due,
        }
    }
}

impl PingerView {
    /// The pinger that waits, with nothing left to do.
    pub open spec fn idle() -> PingerView {
        PingerView { phase: Phase::Waiting, unidentified: Seq::empty(), known: Seq::empty(), heartbeat_due: false }
    }

    /// The pinger that has stopped.
    pub open spec fn stopped() -> PingerView {
        PingerView { phase: Phase::Stopped, unidentified: Seq::empty(), known: Seq::empty(), heartbeat_due: false }
    }

    /// Whether `next` and `action` begin a round of heartbeats: the pinger
    /// lists the known peers, each once in some order, and pings the last of
    /// the list; with no known peer it waits.
    pub open spec fn ping_peers(cluster: ClusterView, next: PingerView, action: ActionView) -> bool {
        if cluster.peers.dom() == Set::<u128>::empty() {
            next == Self::idle() && action == ActionView::Wait
        } else {
            &&& next.phase == Phase::Pinging
            &&& next.unidentified == Seq::<Seq<char>>::empty()
            &&& lists_nodes(next.known, cluster.peers)
            &&& next.known.len() > 0
            &&& !next.heartbeat_due
            &&& action == ActionView::Heartbeat(next.known.last())
        }
    }

    /// Whether `next` and `action` begin a round of identifications, with
    /// heartbeats to follow or not: the pinger lists the unidentified
    /// addresses, each once in some order, and asks the last of the list; with
    /// no unidentified address it goes on to the heartbeats, or waits if none
    /// are to follow.
    pub open spec fn identify_peers(
        cluster: ClusterView,
        heartbeat_due: bool,
        next: PingerView,
        action: ActionView,
    ) -> bool {
        if cluster.unknown_peers == Set::<Seq<char>>::empty() {
            if heartbeat_due {
                Self::ping_peers(cluster, next, action)
            } else {
                next == Self::idle() && action == ActionView::Wait
            }
        } else {
            &&& next.phase == Phase::Identifying
            &&& lists_addresses(next.unidentified, cluster.unknown_peers)
            &&& next.unidentified.len() > 0
            &&& next.known == Seq::<NodeView>::empty()
            &&& next.heartbeat_due == heartbeat_due
            &&& action == ActionView::Identify(next.unidentified.last())
        }
    }

    /// Whether `next` and `action` are how the pinger goes on with what it is
    /// doing: with the next peer of the round; after the last unidentified
    /// peer with the heartbeats, if they are to follow; and after the round
    /// with waiting.
    pub open spec fn goes_on(self, cluster: ClusterView, next: PingerView, action: ActionView) -> bool {
        match self.phase {
            Phase::Waiting => next == self && action == ActionView::Wait,
            Phase::Stopped => next == self && action == ActionView::Exit,
            Phase::Identifying => if self.unidentified.len() > 0 {
                next == self && action == ActionView::Identify(self.unidentified.last())
            } else if self.heartbeat_due {
                Self::ping_peers(cluster, next, action)
            } else {
                next == Self::idle() && action == ActionView::Wait
            },
            Phase::Pinging => if self.known.len() > 0 {
                next == self && action == ActionView::Heartbeat(self.known.last())
            } else {
                next == Self::idle() && action == ActionView::Wait
            },
        }
    }

    /// The pinger without the peer that was next in its round of identifications.
    pub open spec fn asked(self) -> PingerView {
        PingerView { unidentified: self.unidentified.drop_last(), ..self }
    }

    /// The pinger without the peer that was next in its round of heartbeats.
    pub open spec fn pinged(self) -> PingerView {
        PingerView { known: self.known.drop_last(), ..self }
    }

    /// Whether the pinger, beside a cluster in state `cluster`, answers the
    /// event by becoming `next`, leaving the cluster in state `after`,
    /// and deciding on `action` with `report`.
    ///
    /// A stopped pinger stays stopped. A waiting pinger begins a round on a
    /// tick, identifications first and heartbeats after them; it stops on a
    /// signal; and it goes on waiting on anything else. In a round, the reply
    /// that the pinger asked for is taken in: that of an unidentified peer
    /// may identify it, that of a known peer changes nothing; then the pinger
    /// goes on. Any other event in a round changes nothing, and the pinger
    /// asks again for what it is waiting for.
    pub open spec fn step(
        self,
        cluster: ClusterView,
        event: EventView,
        next: PingerView,
        after: ClusterView,
        action: ActionView,
        report: ReportView,
    ) -> bool {
        if self.phase == Phase::Waiting && event is Tick {
            &&& after == cluster
            &&& report == ReportView::Nothing
            &&& Self::identify_peers(cluster, true, next, action)
        } else if self.phase == Phase::Waiting && event is Signal {
            &&& after == cluster
            &&& report == ReportView::Nothing
            &&& next == Self::stopped()
            &&& action == ActionView::Exit
        } else if self.phase == Phase::Identifying && event is Reply && self.unidentified.len() > 0 {
            let peer = self.unidentified.last();
            let (identified, result) = cluster.identification(peer, event->Reply_0);
            &&& after == identified
            &&& report == ReportView::Identification { peer, result }
            &&& self.asked().goes_on(after, next, action)
        } else if self.phase == Phase::Pinging && event is Reply && self.known.len() > 0 {
            &&& after == cluster
            &&& report == ReportView::Heartbeat { target: self.known.last(), pong: (event->Reply_0).pong() }
            &&& self.pinged().goes_on(after, next, action)
        } else {
            &&& after == cluster
            &&& report == ReportView::Nothing
            &&& self.goes_on(cluster, next, action)
        }
    }
}

impl Pinger {
    /// Starts the pinger: it begins with a round of identifications, without
    /// heartbeats.
    pub fn start(cluster: &Cluster) -> (started: (Pinger, Action))
        ensures
            PingerView::identify_peers(cluster@, false, started.0@, started.1@),
    {
        let mut pinger = Pinger {
            phase: Phase::Waiting,
            unidentified: Vec::new(),
            known: Vec::new(),
            heartbeat_due: false,
        };
        let action = pinger.identify_peers(cluster, false);
        (pinger, action)
    }

    /// Whether the pinger has been told to stop.
    pub fn stopped(&self) -> (stopped: bool)
        ensures
            stopped == (self@.phase == Phase::Stopped),
    {
        match self.phase {
            Phase::Stopped => true,
            _ => false,
        }
    }

    /// Lets the pinger wait, with nothing left to do.
    fn rest(&mut self) -> (action: Action)
        ensures
            final(self)@ == PingerView::idle(),
            action@ == ActionView::Wait,
    {
        self.phase = Phase::Waiting;
        self.unidentified = Vec::new();
        self.known = Vec::new();
        self.heartbeat_due = false;
        assert(self@.unidentified =~= Seq::empty());
        assert(self@.known =~= Seq::empty());
        Action::Wait
    }

    /// Begins a round of identifications.
    fn identify_peers(&mut self, cluster: &Cluster, heartbeat_due: bool) -> (action: Action)
        ensures
            PingerView::identify_peers(cluster@, heartbeat_due, final(self)@, action@),
    {
        let list = unknown_list(&cluster.unknown_peers);
        if list.len() > 0 {
            let peer = list[list.len() - 1].clone();
            assert(cluster@.unknown_peers.contains(address_texts(list@)[0]));
            self.phase = Phase::Identifying;
            self.unidentified = list;
            self.known = Vec::new();
            self.heartbeat_due = heartbeat_due;
            assert(self@.known =~= Seq::empty());
            Action::Identify(peer)
        } else {
            assert(cluster@.unknown_peers =~= Set::empty());
            if heartbeat_due {
                self.ping_peers(cluster)
            } else {
                self.rest()
            }
        }
    }

    /// Begins a round of heartbeats.
    fn ping_peers(&mut self, cluster: &Cluster) -> (action: Action)
        ensures
            PingerView::ping_peers(cluster@, final(self)@, action@),
    {
        let list = known_list(&cluster.peers);
        let ghost ids = choose|ids: Seq<u128>| lists_nodes_by(ids, node_views(list@), cluster@.peers);
        if list.len() > 0 {
            let peer = list[list.len() - 1].clone();
            assert(cluster@.peers.dom().contains(ids[0]));
            self.phase = Phase::Pinging;
            self.unidentified = Vec::new();
            self.known = list;
            self.heartbeat_due = false;
            assert(self@.unidentified =~= Seq::empty());
            Action::Heartbeat(peer)
        } else {
            assert(cluster@.peers.dom() =~= Set::empty());
            self.rest()
        }
    }

    /// Goes on with what the pinger is doing.
    fn go_on(&mut self, cluster: &Cluster) -> (action: Action)
        ensures
            old(self)@.goes_on(cluster@, final(self)@, action@),
    {
        match self.phase {
            Phase::Waiting => Action::Wait,
            Phase::Stopped => Action::Exit,
            Phase::Identifying => {
                if self.unidentified.len() > 0 {
                    Action::Identify(self.unidentified[self.unidentified.len() - 1].clone())
                } else if self.heartbeat_due {
                    self.ping_peers(cluster)
                } else {
                    self.rest()
                }
            },
            Phase::Pinging => {
                if self.known.len() > 0 {
                    Action::Heartbeat(self.known[self.known.len() - 1].clone())
                } else {
                    self.rest()
                }
            },
        }
    }

    /// Hands the pinger what happened, and has it decide what to do next.
    pub fn step(&mut self, cluster: &mut Cluster, event: Event) -> (step: Step)
        ensures
            old(self)@.step(old(cluster)@, event@, final(self)@, final(cluster)@, step.action@, step.report@),
    {
        match self.phase {
            Phase::Waiting => match event {
                Event::Tick => {
                    let action = self.identify_peers(cluster, true);
                    Step { action, report: Report::Nothing }
                },
                Event::Signal(_) => {
                    self.phase = Phase::Stopped;
                    self.unidentified = Vec::new();
                    self.known = Vec::new();
                    self.heartbeat_due = false;
                    assert(self@.unidentified =~= Seq::empty());
                    assert(self@.known =~= Seq::empty());
                    Step { action: Action::Exit, report: Report::Nothing }
                },
                _ => Step { action: Action::Wait, report: Report::Nothing },
            },
            Phase::Identifying => match event {
                Event::Reply(reply) => match self.unidentified.pop() {
                    Some(peer) => {
                        assert(self@.unidentified =~= old(self)@.asked().unidentified);
                        let result = identify_peer(cluster, &peer, reply);
                        let action = self.go_on(cluster);
                        Step { action, report: Report::Identification { peer, result } }
                    },
                    None => {
                        let action = self.go_on(cluster);
                        Step { action, report: Report::Nothing }
                    },
                },
                _ => {
                    let action = self.go_on(cluster);
                    Step { action, report: Report::Nothing }
                },
            },
            Phase::Pinging => match event {
                Event::Reply(reply) => match self.known.pop() {
                    Some(target) => {
                        assert(self@.known =~= old(self)@.pinged().known);
                        let pong = ping_peer(reply);
                        let action = self.go_on(cluster);
                        Step { action, report: Report::Heartbeat { target, pong } }
                    },
                    None => {
                        let action = self.go_on(cluster);
                        Step { action, report: Report::Nothing }
                    },
                },
                _ => {
                    let action = self.go_on(cluster);
                    Step { action, report: Report::Nothing }
                },
            },
            Phase::Stopped => Step { action: Action::Exit, report: Report::Nothing },
        }
    }
}

/// A reply without a pong changes nothing: the peer stays unidentified, to be
/// asked again in the next round.
pub proof fn failed_identification_changes_nothing(cluster: ClusterView, address: Seq<char>, reply: ReplyView)
    requires
        reply.pong() is Err,
    ensures
        cluster.identification(address, reply).0 == cluster,
        cluster.identification(address, reply).1 is Err,
{
}

/// Whatever the pinger is handed, it changes the state of the cluster by at
/// most one identification: every identifier that was known stays known, no
/// address becomes unidentified that was not, and the node itself, the pings
/// that it received and all the rest are as before.
pub proof fn steps_only_identify(
    pinger: PingerView,
    cluster: ClusterView,
    event: EventView,
    next: PingerView,
    after: ClusterView,
    action: ActionView,
    report: ReportView,
)
    requires
        pinger.step(cluster, event, next, after, action, report),
    ensures
        cluster.peers.dom().subset_of(after.peers.dom()),
        after.unknown_peers.subset_of(cluster.unknown_peers),
        after == cluster || (report matches ReportView::Identification { peer, result: Ok(node) } && after
            == cluster.identify_peer(peer, node)),
        after.node == cluster.node && after.pings == cluster.pings && after.leader == cluster.leader,
{
}

/// A round goes through its list: each reply takes the peer that was asked
/// off the list, and as long as peers are left the last of them is asked next.
/// As the list names each peer once when the round begins, a round asks each
/// peer once.
pub proof fn round_goes_through_its_list(
    pinger: PingerView,
    cluster: ClusterView,
    event: EventView,
    next: PingerView,
    after: ClusterView,
    action: ActionView,
    report: ReportView,
)
    requires
        pinger.step(cluster, event, next, after, action, report),
        event is Reply,
    ensures
        pinger.phase == Phase::Identifying && pinger.unidentified.len() > 1 ==> next == pinger.asked() && action
            == ActionView::Identify(next.unidentified.last()),
        pinger.phase == Phase::Pinging && pinger.known.len() > 1 ==> next == pinger.pinged() && action
            == ActionView::Heartbeat(next.known.last()),
        pinger.phase == Phase::Pinging && pinger.known.len() == 1 ==> next == PingerView::idle() && action
            == ActionView::Wait,
{
}

/// The pinger stops on a signal that reaches it while it waits, and on nothing
/// else; once stopped it stays stopped and tells the caller to stop.
pub proof fn stops_on_signal_only(
    pinger: PingerView,
    cluster: ClusterView,
    event: EventView,
    next: PingerView,
    after: ClusterView,
    action: ActionView,
    report: ReportView,
)
    requires
        pinger.step(cluster, event, next, after, action, report),
    ensures
        pinger.phase == Phase::Stopped ==> next == pinger && action == ActionView::Exit,
        pinger.phase != Phase::Stopped ==> (next.phase == Phase::Stopped <==> pinger.phase == Phase::Waiting
            && event is Signal),
        action == ActionView::Exit <==> next.phase == Phase::Stopped,
{
}

} // verus!
