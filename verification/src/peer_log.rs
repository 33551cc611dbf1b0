//! The log of peers: which line, if any, each network event and each look at the network adds.
use std::collections::VecDeque;

use vstd::prelude::*;

use crate::peer_table::PeerTable;
use crate::text::{debug_list, debug_list_text, one_line, unbroken};

verus! {

/// The file that the log is appended to.
pub const PEER_LOG_FILE: &'static str = "peer_info.log";

/// The name of the stream that the network's events come on.
pub const PEER_EVENT_STREAM: &'static str = "peer-logging";

/// How long to wait between two looks at the discovered peers, in seconds.
pub const DISCOVERY_PAUSE_SECS: u64 = 60;

/// The id of a peer in the two ways in which it is written.
pub struct PeerId {
    /// In base 58, by which the network state is searched.
    pub base58: String,
    /// As it is displayed.
    pub text: String,
}

/// A connected peer.
pub struct Peer {
    pub addresses: Vec<String>,
    pub version_string: Option<String>,
}

/// A peer that is known of but not connected.
pub struct DiscoveredPeer {
    pub id: String,
    pub addresses: Vec<String>,
}

/// What the network says about itself.
pub struct NetworkState {
    /// The connected peers by their ids in base 58.
    pub connected_peers: PeerTable<Peer>,
    /// The other known peers, in the order in which they are walked.
    pub not_connected_peers: Vec<DiscoveredPeer>,
}

/// A network event.
pub enum NetworkEvent {
    PeerConnected(PeerId),
    PeerDisconnected(PeerId),
    /// A protocol stream was opened; `info` is the debug text of what came with it.
    NotificationStreamOpened { remote: String, protocol: String, info: String },
    /// An event of the distributed hash table, as its debug text.
    Dht(String),
    /// Any other.
    Other,
}

/// What to do about an event.
pub enum LogAction {
    /// Ask the network for its state, to describe this peer.
    AskNetworkState(PeerId),
    /// Append this line to the log.
    Append(String),
    /// Nothing.
    Ignore,
}

/// The line for a connected peer that the network describes.
pub open spec fn connected_line(
    id: Seq<char>,
    addresses: Seq<String>,
    client: Seq<char>,
) -> Seq<char> {
    "🌐 Peer connected: id="@ + id + " addresses="@ + debug_list_text(addresses) + " client="@
        + client + "\n"@
}

/// The line for a connected peer that the network does not describe.
pub open spec fn bare_connected_line(id: Seq<char>) -> Seq<char> {
    "🌐 Peer connected: id="@ + id + "\n"@
}

/// The line for a peer that is gone.
pub open spec fn disconnected_line(id: Seq<char>) -> Seq<char> {
    "Peer disconnected: id="@ + id + "\n"@
}

/// The line for an opened protocol stream.
pub open spec fn stream_opened_line(
    remote: Seq<char>,
    protocol: Seq<char>,
    info: Seq<char>,
) -> Seq<char> {
    "Protocol stream opened with "@ + remote + " (protocol: "@ + protocol + ") – info: "@ + info
        + "\n"@
}

/// The line for an event of the distributed hash table.
pub open spec fn dht_line(event: Seq<char>) -> Seq<char> {
    "DHT event: "@ + event + "\n"@
}

/// The line for a discovered peer.
pub open spec fn discovered_line(peer: DiscoveredPeer) -> Seq<char> {
    "🔍 Discovered peer (not connected): id="@ + peer.id@ + " addresses="@ + debug_list_text(
        peer.addresses@,
    ) + "\n"@
}

/// The lines for the discovered peers, in their order; a peer without an address has none.
pub open spec fn discovered_lines(peers: Seq<DiscoveredPeer>) -> Seq<Seq<char>>
    decreases peers.len(),
{
    if peers.len() == 0 {
        Seq::empty()
    } else {
        let before = discovered_lines(peers.drop_last());
        if peers.last().addresses@.len() == 0 {
            before
        } else {
            before.push(discovered_line(peers.last()))
        }
    }
}

/// The client that a peer says it runs.
pub open spec fn client_version(peer: Peer) -> Seq<char> {
    match peer.version_string {
        Some(version) => version@,
        None => "unknown"@,
    }
}

/// The line that a connected peer adds, given the network's state.
pub open spec fn described_line(peer_id: PeerId, state: NetworkState) -> Seq<char> {
    if state.connected_peers@.contains_key(peer_id.base58@) {
        let peer = state.connected_peers@[peer_id.base58@];
        connected_line(peer_id.text@, peer.addresses@, client_version(peer))
    } else {
        bare_connected_line(peer_id.text@)
    }
}

/// An event, and what the network answers if it is asked for its state on account of it.
pub struct ObservedEvent<E> {
    pub event: NetworkEvent,
    pub state: Result<NetworkState, E>,
}

/// The line that an event adds, if it adds one. The network's state matters only to a connected
/// peer: where there is none, that peer adds nothing.
pub open spec fn event_line<E>(observed: ObservedEvent<E>) -> Option<Seq<char>> {
    match observed.event {
        NetworkEvent::PeerConnected(peer_id) => match observed.state {
            Ok(state) => Some(described_line(peer_id, state)),
            Err(_) => None,
        },
        NetworkEvent::PeerDisconnected(peer_id) => Some(disconnected_line(peer_id.text@)),
        NetworkEvent::NotificationStreamOpened { remote, protocol, info } => Some(
            stream_opened_line(remote@, protocol@, info@),
        ),
        NetworkEvent::Dht(event) => Some(dht_line(event@)),
        NetworkEvent::Other => None,
    }
}

/// The lines that a stream of events adds, in the order of the events.
pub open spec fn logged<E>(events: Seq<ObservedEvent<E>>) -> Seq<Seq<char>>
    decreases events.len(),
{
    if events.len() == 0 {
        Seq::empty()
    } else {
        let before = logged(events.drop_last());
        match event_line(events.last()) {
            Some(line) => before.push(line),
            None => before,
        }
    }
}

/// No line ends inside the texts that an event comes with.
pub open spec fn unbroken_event(event: NetworkEvent) -> bool {
    match event {
        NetworkEvent::PeerConnected(peer_id) => unbroken(peer_id.text@),
        NetworkEvent::PeerDisconnected(peer_id) => unbroken(peer_id.text@),
        NetworkEvent::NotificationStreamOpened { remote, protocol, info } => unbroken(remote@)
            && unbroken(protocol@) && unbroken(info@),
        NetworkEvent::Dht(event) => unbroken(event@),
        NetworkEvent::Other => true,
    }
}

/// No line ends inside the texts that the line of an event is made of.
pub open spec fn unbroken_observation<E>(observed: ObservedEvent<E>) -> bool {
    &&& unbroken_event(observed.event)
    &&& observed.event matches NetworkEvent::PeerConnected(peer_id) ==> (
    observed.state matches Ok(state) ==> unbroken_description(peer_id, state))
}

/// No line ends inside the version text of a connected peer.
pub open spec fn unbroken_description(peer_id: PeerId, state: NetworkState) -> bool {
    state.connected_peers@.contains_key(peer_id.base58@) ==> unbroken(
        client_version(state.connected_peers@[peer_id.base58@]),
    )
}

/// Decides what an event asks for. A line that is to be appended is a single one unless a text
/// that the event came with holds a line end.
pub fn on_event(event: NetworkEvent) -> (action: LogAction)
    ensures
        match event {
            NetworkEvent::PeerConnected(peer_id) => action == LogAction::AskNetworkState(peer_id),
            NetworkEvent::PeerDisconnected(peer_id) => action matches LogAction::Append(line)
                && line@ == disconnected_line(peer_id.text@) && line@ == "Peer disconnected: id="@
                + peer_id.text@ + "\n"@,
            NetworkEvent::NotificationStreamOpened { remote, protocol, info } =>
                action matches LogAction::Append(line) && line@ == stream_opened_line(
                remote@,
                protocol@,
                info@,
            ) && line@ == "Protocol stream opened with "@ + remote@ + " (protocol: "@ + protocol@
                + ") – info: "@ + info@ + "\n"@,
            NetworkEvent::Dht(event) => action matches LogAction::Append(line) && line@ == dht_line(
                event@,
            ) && line@ == "DHT event: "@ + event@ + "\n"@,
            NetworkEvent::Other => action == LogAction::Ignore,
        },
        unbroken_event(event) ==> (action matches LogAction::Append(line) ==> one_line(line@)),
{
    match event {
        NetworkEvent::PeerConnected(peer_id) => LogAction::AskNetworkState(peer_id),
        NetworkEvent::PeerDisconnected(peer_id) => {
            let mut line = "Peer disconnected: id=".to_string();
            line.append(peer_id.text.as_str());
            line.append("\n");
            proof {
                reveal_strlit("Peer disconnected: id=");
                reveal_strlit("\n");
                assert(line@.drop_last() =~= "Peer disconnected: id="@ + peer_id.text@);
            }
            LogAction::Append(line)
        },
        NetworkEvent::NotificationStreamOpened { remote, protocol, info } => {
            let mut line = "Protocol stream opened with ".to_string();
            line.append(remote.as_str());
            line.append(" (protocol: ");
            line.append(protocol.as_str());
            line.append(") – info: ");
            line.append(info.as_str());
            line.append("\n");
            proof {
                reveal_strlit("Protocol stream opened with ");
                reveal_strlit(" (protocol: ");
                reveal_strlit(") – info: ");
                reveal_strlit("\n");
                assert(line@.drop_last() =~= "Protocol stream opened with "@ + remote@
                    + " (protocol: "@ + protocol@ + ") – info: "@ + info@);
            }
            LogAction::Append(line)
        },
        NetworkEvent::Dht(event) => {
            let mut line = "DHT event: ".to_string();
            line.append(event.as_str());
            line.append("\n");
            proof {
                reveal_strlit("DHT event: ");
                reveal_strlit("\n");
                assert(line@.drop_last() =~= "DHT event: "@ + event@);
            }
            LogAction::Append(line)
        },
        NetworkEvent::Other => LogAction::Ignore,
    }
}

/// Describes a connected peer once the network was asked for its state; where it gave none,
/// nothing is logged. The line is a single one unless the id or the peer's version text holds a
/// line end.
pub fn on_network_state<E>(peer_id: &PeerId, state: Result<NetworkState, E>) -> (line: Option<
    String,
>)
    ensures
        match state {
            Ok(state) => line matches Some(line) && line@ == described_line(*peer_id, state) && (
            unbroken(peer_id.text@) && unbroken_description(*peer_id, state) ==> one_line(line@)),
            Err(_) => line is None,
        },
        state matches Ok(state) ==> (if state.connected_peers@.contains_key(peer_id.base58@) {
            let peer = state.connected_peers@[peer_id.base58@];
            line->0@ == "🌐 Peer connected: id="@ + peer_id.text@ + " addresses="@
                + debug_list_text(peer.addresses@) + " client="@ + (match peer.version_string {
                Some(version) => version@,
                None => "unknown"@,
            }) + "\n"@
        } else {
            line->0@ == "🌐 Peer connected: id="@ + peer_id.text@ + "\n"@
        }),
{
    let state = match state {
        Ok(state) => state,
        Err(_) => {
            return None;
        },
    };
    let mut line = "🌐 Peer connected: id=".to_string();
    line.append(peer_id.text.as_str());
    let described = state.connected_peers.get(&peer_id.base58);
    if let Some(peer) = described {
        let addresses = debug_list(&peer.addresses);
        line.append(" addresses=");
        line.append(addresses.as_str());
        line.append(" client=");
        match &peer.version_string {
            Some(version) => line.append(version.as_str()),
            None => line.append("unknown"),
        }
    }
    let ghost text = line@;
    line.append("\n");
    proof {
        reveal_strlit("🌐 Peer connected: id=");
        reveal_strlit(" addresses=");
        reveal_strlit(" client=");
        reveal_strlit("\n");
        assert(line@.drop_last() =~= text);
    }
    Some(line)
}

/// Writes the line of one event, with the network's answer at hand.
pub fn log_event<E>(observed: ObservedEvent<E>) -> (line: Option<String>)
    ensures
        match event_line(observed) {
            Some(text) => line matches Some(line) && line@ == text && (unbroken_observation(
                observed,
            ) ==> one_line(line@)),
            None => line is None,
        },
{
    match on_event(observed.event) {
        LogAction::AskNetworkState(peer_id) => on_network_state(&peer_id, observed.state),
        LogAction::Append(line) => Some(line),
        LogAction::Ignore => None,
    }
}

/// Writes the lines of a whole stream of events, up to its end. Each is a single line unless a text
/// that it is made of holds a line end.
pub fn log_events<E>(events: VecDeque<ObservedEvent<E>>) -> (lines: Vec<String>)
    ensures
        texts(lines@) == logged(events@),
        lines@.len() == logged(events@).len(),
        forall|j: int| 0 <= j < lines@.len() ==> #[trigger] lines@[j]@ == logged(events@)[j],
        (forall|i: int| 0 <= i < events@.len() ==> unbroken_observation(#[trigger] events@[i]))
            ==> forall|j: int| 0 <= j < lines@.len() ==> one_line(#[trigger] lines@[j]@),
{
    let mut rest = events;
    let mut lines: Vec<String> = Vec::new();
    let ghost mut done: int = 0;
    assert(events@.skip(0) =~= events@);
    assert(texts(lines@) =~= logged(events@.take(0)));
    while rest.len() > 0
        invariant
            0 <= done <= events@.len(),
            rest@ == events@.skip(done),
            texts(lines@) == logged(events@.take(done)),
            (forall|i: int| 0 <= i < events@.len() ==> unbroken_observation(#[trigger] events@[i]))
                ==> forall|j: int| 0 <= j < lines@.len() ==> one_line(#[trigger] lines@[j]@),
        decreases rest@.len(),
    {
        let ghost before = lines@;
        if let Some(observed) = rest.pop_front() {
            assert(observed == events@[done]);
            assert(events@.take(done + 1).drop_last() =~= events@.take(done));
            if let Some(line) = log_event(observed) {
                lines.push(line);
                assert(texts(lines@) =~= texts(before).push(line@));
            }
            proof {
                done = done + 1;
                assert(rest@ =~= events@.skip(done));
            }
        }
    }
    assert(events@.take(done) =~= events@);
    proof {
        law_texts_are_the_lines(lines@);
    }
    lines
}

/// Writes the line for a discovered peer.
fn write_discovered(peer: &DiscoveredPeer) -> (line: String)
    ensures
        line@ == discovered_line(*peer),
        line@ == "🔍 Discovered peer (not connected): id="@ + peer.id@ + " addresses="@
            + debug_list_text(peer.addresses@) + "\n"@,
        unbroken(peer.id@) ==> one_line(line@),
{
    let addresses = debug_list(&peer.addresses);
    let mut line = "🔍 Discovered peer (not connected): id=".to_string();
    line.append(peer.id.as_str());
    line.append(" addresses=");
    line.append(addresses.as_str());
    let ghost text = line@;
    line.append("\n");
    proof {
        reveal_strlit("🔍 Discovered peer (not connected): id=");
        reveal_strlit(" addresses=");
        reveal_strlit("\n");
        assert(line@.drop_last() =~= text);
    }
    line
}

/// The views of some lines.
pub open spec fn texts(lines: Seq<String>) -> Seq<Seq<char>> {
    lines.map_values(|line: String| line@)
}

/// Writes the lines for the peers that are known of but not connected. Each is a single line
/// unless a peer's id holds a line end.
pub fn on_discovered(peers: &Vec<DiscoveredPeer>) -> (lines: Vec<String>)
    ensures
        texts(lines@) == discovered_lines(peers@),
        lines@.len() == discovered_lines(peers@).len(),
        forall|j: int| 0 <= j < lines@.len() ==> #[trigger] lines@[j]@ == discovered_lines(peers@)[j],
        (forall|i: int| 0 <= i < peers@.len() ==> unbroken(#[trigger] peers@[i].id@)) ==> forall|
            j: int,
        |
            0 <= j < lines@.len() ==> one_line(#[trigger] lines@[j]@),
{
    let mut lines: Vec<String> = Vec::new();
    let mut done: usize = 0;
    assert(texts(lines@) =~= discovered_lines(peers@.take(0)));
    while done < peers.len()
        invariant
            done <= peers.len(),
            texts(lines@) == discovered_lines(peers@.take(done as int)),
            (forall|i: int| 0 <= i < peers@.len() ==> unbroken(#[trigger] peers@[i].id@))
                ==> forall|j: int| 0 <= j < lines@.len() ==> one_line(#[trigger] lines@[j]@),
        decreases peers.len() - done,
    {
        let peer = &peers[done];
        let ghost before = lines@;
        assert(peers@.take(done + 1).drop_last() =~= peers@.take(done as int));
        if peer.addresses.len() > 0 {
            lines.push(write_discovered(peer));
            assert(texts(lines@) =~= texts(before).push(discovered_line(*peer)));
        }
        done += 1;
    }
    assert(peers@.take(peers@.len() as int) =~= peers@);
    proof {
        law_texts_are_the_lines(lines@);
    }
    lines
}

/// One round of the discovery log: what to append, and how long to wait before the next.
pub struct DiscoveryRound {
    pub lines: Vec<String>,
    pub pause_secs: u64,
}

/// Plans a round of the discovery log; where the network gave no state, nothing is appended.
pub fn discovery_round<E>(state: Result<NetworkState, E>) -> (round: DiscoveryRound)
    ensures
        texts(round.lines@) == match state {
            Ok(state) => discovered_lines(state.not_connected_peers@),
            Err(_) => Seq::<Seq<char>>::empty(),
        },
        round.pause_secs == DISCOVERY_PAUSE_SECS,
        round.pause_secs == 60,
        state is Err ==> round.lines@.len() == 0,
        state matches Ok(state) ==> round.lines@.len() == discovered_lines(
            state.not_connected_peers@,
        ).len(),
        state matches Ok(state) ==> (forall|i: int|
            0 <= i < state.not_connected_peers@.len() ==> unbroken(
                #[trigger] state.not_connected_peers@[i].id@,
            )) ==> forall|j: int|
            0 <= j < round.lines@.len() ==> one_line(#[trigger] round.lines@[j]@),
{
    let lines = match state {
        Ok(state) => on_discovered(&state.not_connected_peers),
        Err(_) => Vec::new(),
    };
    assert(state is Err ==> texts(lines@) =~= Seq::<Seq<char>>::empty());
    DiscoveryRound { lines, pause_secs: DISCOVERY_PAUSE_SECS }
}

/// The log of one stream after another is the log of the first and then that of the second.
pub proof fn law_streams_log_one_after_the_other<E>(
    first: Seq<ObservedEvent<E>>,
    second: Seq<ObservedEvent<E>>,
)
    ensures
        logged(first + second) == logged(first) + logged(second),
    decreases second.len(),
{
    if second.len() == 0 {
        assert(first + second =~= first);
        assert(logged(first) + logged(second) =~= logged(first));
    } else {
        law_streams_log_one_after_the_other(first, second.drop_last());
        assert((first + second).drop_last() =~= first + second.drop_last());
        assert((first + second).last() == second.last());
        assert(logged(first + second) =~= logged(first) + logged(second));
    }
}

/// An event adds at most one line to the log, whatever was logged before it, and that line is whole:
/// it ends with a line end.
pub proof fn law_an_event_logs_at_most_one_whole_line<E>(
    before: Seq<ObservedEvent<E>>,
    observed: ObservedEvent<E>,
)
    ensures
        match event_line(observed) {
            Some(line) => logged(before.push(observed)) == logged(before).push(line) && line.len()
                > 0 && line.last() == '\n',
            None => logged(before.push(observed)) == logged(before),
        },
{
    reveal_strlit("\n");
    assert(before.push(observed).drop_last() =~= before);
    assert(before.push(observed).last() == observed);
}

/// Every line of a log ends with a line end, and there are no more lines than events.
pub proof fn law_logs_hold_whole_lines<E>(events: Seq<ObservedEvent<E>>)
    ensures
        logged(events).len() <= events.len(),
        forall|i: int|
            0 <= i < logged(events).len() ==> (#[trigger] logged(events)[i]).len() > 0 && logged(
                events,
            )[i].last() == '\n',
    decreases events.len(),
{
    if events.len() > 0 {
        law_logs_hold_whole_lines(events.drop_last());
        law_an_event_logs_at_most_one_whole_line(events.drop_last(), events.last());
        assert(events.drop_last().push(events.last()) =~= events);
    }
}

/// Only connected and lost peers, opened streams and events of the hash table are logged, and each
/// of them is, unless the network gives no state for a connected peer.
pub proof fn law_which_events_are_logged<E>(observed: ObservedEvent<E>)
    ensures
        event_line(observed) is None <==> observed.event is Other || (
        observed.event is PeerConnected && observed.state is Err),
{
}

/// A stream that holds only events of other kinds logs nothing.
pub proof fn law_other_events_log_nothing<E>(events: Seq<ObservedEvent<E>>)
    requires
        forall|i: int| 0 <= i < events.len() ==> (#[trigger] events[i]).event is Other,
    ensures
        logged(events) == Seq::<Seq<char>>::empty(),
    decreases events.len(),
{
    if events.len() > 0 {
        assert forall|i: int| 0 <= i < events.len() - 1 implies (
        #[trigger] events.drop_last()[i]).event is Other by {
            assert(events[i].event is Other);
        }
        law_other_events_log_nothing(events.drop_last());
    }
}

/// The discovery log reports every peer that has an address, and only such peers.
pub proof fn law_discovery_reports_reachable_peers(peers: Seq<DiscoveredPeer>, line: Seq<char>)
    ensures
        discovered_lines(peers).contains(line) <==> exists|i: int|
            #![trigger peers[i]]
            0 <= i < peers.len() && peers[i].addresses@.len() > 0 && line == discovered_line(
                peers[i],
            ),
    decreases peers.len(),
{
    if peers.len() > 0 {
        let rest = peers.drop_last();
        let before = discovered_lines(rest);
        law_discovery_reports_reachable_peers(rest, line);
        assert forall|i: int| 0 <= i < rest.len() implies rest[i] == peers[i] by {}
        let after = discovered_lines(peers);
        if after.contains(line) {
            let k = choose|k: int| 0 <= k < after.len() && after[k] == line;
            if k < before.len() {
                assert(before[k] == line);
                let i = choose|i: int|
                    #![trigger rest[i]]
                    0 <= i < rest.len() && rest[i].addresses@.len() > 0 && line == discovered_line(
                        rest[i],
                    );
                assert(peers[i] == rest[i]);
            } else {
                assert(peers[peers.len() - 1] == peers.last());
            }
        }
        if exists|i: int|
            #![trigger peers[i]]
            0 <= i < peers.len() && peers[i].addresses@.len() > 0 && line == discovered_line(
                peers[i],
            ) {
            let i = choose|i: int|
                #![trigger peers[i]]
                0 <= i < peers.len() && peers[i].addresses@.len() > 0 && line == discovered_line(
                    peers[i],
                );
            if i < rest.len() {
                assert(rest[i] == peers[i]);
                assert(before.contains(line));
                let k = choose|k: int| 0 <= k < before.len() && before[k] == line;
                assert(after[k] == line);
            } else {
                assert(after[after.len() - 1] == line);
            }
        }
    }
}

/// Peers that are walked one after the other are reported one after the other.
pub proof fn law_discovery_keeps_the_order(
    first: Seq<DiscoveredPeer>,
    second: Seq<DiscoveredPeer>,
)
    ensures
        discovered_lines(first + second) == discovered_lines(first) + discovered_lines(second),
    decreases second.len(),
{
    if second.len() == 0 {
        assert(first + second =~= first);
        assert(discovered_lines(first) + discovered_lines(second) =~= discovered_lines(first));
    } else {
        law_discovery_keeps_the_order(first, second.drop_last());
        assert((first + second).drop_last() =~= first + second.drop_last());
        assert((first + second).last() == second.last());
        assert(discovered_lines(first + second) =~= discovered_lines(first) + discovered_lines(
            second,
        ));
    }
}

/// The first characters of a line tell which kind of event it is about.
pub proof fn law_lines_tell_events_apart(
    id: Seq<char>,
    addresses: Seq<String>,
    client: Seq<char>,
    gone: Seq<char>,
    remote: Seq<char>,
    protocol: Seq<char>,
    info: Seq<char>,
    event: Seq<char>,
    peer: DiscoveredPeer,
)
    ensures
        ({
            let connected = connected_line(id, addresses, client);
            let bare = bare_connected_line(id);
            let disconnected = disconnected_line(gone);
            let stream = stream_opened_line(remote, protocol, info);
            let dht = dht_line(event);
            let discovered = discovered_line(peer);
            &&& connected != disconnected && bare != disconnected
            &&& connected != stream && bare != stream
            &&& connected != dht && bare != dht
            &&& connected != discovered && bare != discovered
            &&& disconnected != stream && disconnected != dht && disconnected != discovered
            &&& stream != dht && stream != discovered
            &&& dht != discovered
        }),
{
    reveal_strlit("🌐 Peer connected: id=");
    reveal_strlit("Peer disconnected: id=");
    reveal_strlit("Protocol stream opened with ");
    reveal_strlit("DHT event: ");
    reveal_strlit("🔍 Discovered peer (not connected): id=");
    assert(connected_line(id, addresses, client)[0] == '🌐');
    assert(bare_connected_line(id)[0] == '🌐');
    assert(disconnected_line(gone)[0] == 'P' && disconnected_line(gone)[1] == 'e');
    assert(stream_opened_line(remote, protocol, info)[0] == 'P');
    assert(stream_opened_line(remote, protocol, info)[1] == 'r');
    assert(dht_line(event)[0] == 'D');
    assert(discovered_line(peer)[0] == '🔍');
}

/// A line about a lost peer, or about a connected one that the network does not describe, names
/// its peer.
pub proof fn law_lines_name_the_peer(a: Seq<char>, b: Seq<char>)
    ensures
        disconnected_line(a) == disconnected_line(b) ==> a == b,
        bare_connected_line(a) == bare_connected_line(b) ==> a == b,
{
    let gone = "Peer disconnected: id="@;
    let here = "🌐 Peer connected: id="@;
    reveal_strlit("\n");
    if disconnected_line(a) == disconnected_line(b) {
        assert(disconnected_line(a).len() == gone.len() + a.len() + 1);
        assert(disconnected_line(b).len() == gone.len() + b.len() + 1);
        assert forall|i: int| 0 <= i < a.len() implies a[i] == b[i] by {
            assert(disconnected_line(a)[gone.len() + i] == a[i]);
            assert(disconnected_line(b)[gone.len() + i] == b[i]);
        }
        assert(a =~= b);
    }
    if bare_connected_line(a) == bare_connected_line(b) {
        assert(bare_connected_line(a).len() == here.len() + a.len() + 1);
        assert(bare_connected_line(b).len() == here.len() + b.len() + 1);
        assert forall|i: int| 0 <= i < a.len() implies a[i] == b[i] by {
            assert(bare_connected_line(a)[here.len() + i] == a[i]);
            assert(bare_connected_line(b)[here.len() + i] == b[i]);
        }
        assert(a =~= b);
    }
}

/// A line about a connected peer that the network describes names its peer, as long as ids hold no
/// space.
pub proof fn law_described_lines_name_the_peer(
    a: Seq<char>,
    a_addresses: Seq<String>,
    a_client: Seq<char>,
    b: Seq<char>,
    b_addresses: Seq<String>,
    b_client: Seq<char>,
)
    requires
        !a.contains(' '),
        !b.contains(' '),
        connected_line(a, a_addresses, a_client) == connected_line(b, b_addresses, b_client),
    ensures
        a == b,
{
    let here = "🌐 Peer connected: id="@;
    let a_line = connected_line(a, a_addresses, a_client);
    let b_line = connected_line(b, b_addresses, b_client);
    reveal_strlit(" addresses=");
    assert forall|i: int| 0 <= i < a.len() implies a_line[here.len() + i] == a[i] by {}
    assert forall|i: int| 0 <= i < b.len() implies b_line[here.len() + i] == b[i] by {}
    assert(a_line[(here.len() + a.len()) as int] == ' ');
    assert(b_line[(here.len() + b.len()) as int] == ' ');
    if a.len() < b.len() {
        assert(b[a.len() as int] == ' ');
    }
    if b.len() < a.len() {
        assert(a[b.len() as int] == ' ');
    }
    assert forall|i: int| 0 <= i < a.len() implies a[i] == b[i] by {
        assert(a_line[here.len() + i] == a[i]);
        assert(b_line[here.len() + i] == b[i]);
    }
    assert(a =~= b);
}

/// The texts of some lines are the lines themselves, one by one.
pub proof fn law_texts_are_the_lines(lines: Seq<String>)
    ensures
        texts(lines).len() == lines.len(),
        forall|i: int| 0 <= i < lines.len() ==> #[trigger] texts(lines)[i] == lines[i]@,
{
}

/// A connected peer is logged with all of its addresses, however many they are, and with the client
/// that it says it runs, or "unknown", wherever the network's state holds its id in base 58. Only
/// where the state does not hold that id is it logged by its id alone, and where there is no state
/// it is not logged.
pub proof fn law_connected_peers_are_described<E>(observed: ObservedEvent<E>, peer_id: PeerId)
    requires
        observed.event == NetworkEvent::PeerConnected(peer_id),
    ensures
        observed.state is Err ==> event_line(observed) is None,
        observed.state matches Ok(state) ==> event_line(observed) == Some(
            if state.connected_peers@.contains_key(peer_id.base58@) {
                let peer = state.connected_peers@[peer_id.base58@];
                "🌐 Peer connected: id="@ + peer_id.text@ + " addresses="@ + debug_list_text(
                    peer.addresses@,
                ) + " client="@ + (match peer.version_string {
                    Some(version) => version@,
                    None => "unknown"@,
                }) + "\n"@
            } else {
                "🌐 Peer connected: id="@ + peer_id.text@ + "\n"@
            },
        ),
{
}

/// A lost peer is logged by the id that it is displayed with, an opened stream with the remote, the
/// protocol and the info that came with it, and an event of the hash table with its text. The
/// network's state plays no part, and every other event logs nothing.
pub proof fn law_other_lines_hold_what_the_event_says<E>(observed: ObservedEvent<E>)
    ensures
        match observed.event {
            NetworkEvent::PeerConnected(_) => true,
            NetworkEvent::PeerDisconnected(peer_id) => event_line(observed) == Some(
                "Peer disconnected: id="@ + peer_id.text@ + "\n"@,
            ),
            NetworkEvent::NotificationStreamOpened { remote, protocol, info } => event_line(
                observed,
            ) == Some(
                "Protocol stream opened with "@ + remote@ + " (protocol: "@ + protocol@
                    + ") – info: "@ + info@ + "\n"@,
            ),
            NetworkEvent::Dht(event) => event_line(observed) == Some(
                "DHT event: "@ + event@ + "\n"@,
            ),
            NetworkEvent::Other => event_line(observed) is None,
        },
{
}

/// One more event adds its line behind the log so far, and an event without a line leaves the log as
/// it is; the log of no event is empty.
pub proof fn law_logs_grow_event_by_event<E>(before: Seq<ObservedEvent<E>>, next: ObservedEvent<E>)
    ensures
        logged(Seq::<ObservedEvent<E>>::empty()).len() == 0,
        event_line(next) is None ==> logged(before.push(next)) == logged(before),
        event_line(next) matches Some(line) ==> {
            let log = logged(before.push(next));
            &&& log.len() == logged(before).len() + 1
            &&& log.drop_last() == logged(before)
            &&& log.last() == line
        },
{
    assert(before.push(next).drop_last() =~= before);
    if let Some(line) = event_line(next) {
        assert(logged(before.push(next)).drop_last() =~= logged(before));
    }
}

/// One more discovered peer adds one line behind the lines so far, with its id and all of its
/// addresses, wherever it has an address, and none where it has none; no peer gives no line.
pub proof fn law_discovery_grows_peer_by_peer(before: Seq<DiscoveredPeer>, next: DiscoveredPeer)
    ensures
        discovered_lines(Seq::<DiscoveredPeer>::empty()).len() == 0,
        next.addresses@.len() == 0 ==> discovered_lines(before.push(next)) == discovered_lines(
            before,
        ),
        next.addresses@.len() > 0 ==> {
            let lines = discovered_lines(before.push(next));
            &&& lines.len() == discovered_lines(before).len() + 1
            &&& lines.drop_last() == discovered_lines(before)
            &&& lines.last() == "🔍 Discovered peer (not connected): id="@ + next.id@
                + " addresses="@ + debug_list_text(next.addresses@) + "\n"@
        },
{
    assert(before.push(next).drop_last() =~= before);
    if next.addresses@.len() > 0 {
        assert(discovered_lines(before.push(next)).drop_last() =~= discovered_lines(before));
    }
}

/// The lines for lost peers, opened streams and events of the hash table are single ones where no
/// line end occurs in what the event says.
pub proof fn law_unbroken_events_log_single_lines<E>(observed: ObservedEvent<E>)
    requires
        observed.event matches NetworkEvent::PeerDisconnected(peer_id) ==> !peer_id.text@.contains(
            '\n',
        ),
        observed.event matches NetworkEvent::NotificationStreamOpened { remote, protocol, info }
            ==> !remote@.contains('\n') && !protocol@.contains('\n') && !info@.contains('\n'),
        observed.event matches NetworkEvent::Dht(event) ==> !event@.contains('\n'),
        !(observed.event is PeerConnected),
    ensures
        event_line(observed) matches Some(line) ==> line.len() > 0 && forall|i: int|
            0 <= i < line.len() ==> (#[trigger] line[i] == '\n' <==> i == line.len() - 1),
{
    reveal_strlit("Peer disconnected: id=");
    reveal_strlit("Protocol stream opened with ");
    reveal_strlit(" (protocol: ");
    reveal_strlit(") – info: ");
    reveal_strlit("DHT event: ");
    reveal_strlit("\n");
}

} // verus!
