use std::collections::VecDeque;

use hydradx_service::peer_log::{
    discovery_round, log_event, log_events, on_discovered, on_event, on_network_state,
    DiscoveredPeer, LogAction, NetworkEvent, NetworkState, ObservedEvent, Peer, PeerId,
    DISCOVERY_PAUSE_SECS, PEER_LOG_FILE,
};
use hydradx_service::peer_table::PeerTable;
use hydradx_service::text::debug_list;

fn peer_id(base58: &str, text: &str) -> PeerId {
    PeerId { base58: base58.to_string(), text: text.to_string() }
}

fn strings(items: &[&str]) -> Vec<String> {
    items.iter().map(|item| item.to_string()).collect()
}

fn state(connected: Vec<(&str, Peer)>, discovered: Vec<(&str, &[&str])>) -> NetworkState {
    let mut connected_peers = PeerTable::new();
    for (id, peer) in connected {
        connected_peers.insert(id.to_string(), peer);
    }
    NetworkState {
        connected_peers,
        not_connected_peers: discovered
            .into_iter()
            .map(|(id, addresses)| DiscoveredPeer {
                id: id.to_string(),
                addresses: strings(addresses),
            })
            .collect(),
    }
}

fn appended(action: LogAction) -> String {
    match action {
        LogAction::Append(line) => line,
        _ => panic!("no line"),
    }
}

#[test]
fn a_list_is_shown_as_debug_shows_it() {
    let lists: Vec<Vec<String>> = vec![
        vec![],
        strings(&["/ip4/1.2.3.4/tcp/30333"]),
        strings(&["/ip4/1.2.3.4/tcp/30333", "/dns/a.b/tcp/1/ws"]),
        strings(&["say \"hi\"", "a\nb\tc\\d", "\u{7f}\u{e9}\u{301}", ""]),
    ];
    for list in &lists {
        assert_eq!(debug_list(list), format!("{:?}", list));
    }
    assert_eq!(debug_list(&strings(&["a", "b"])), "[\"a\", \"b\"]");
}

#[test]
fn no_line_ends_inside_a_shown_list() {
    assert!(!debug_list(&strings(&["a\nb", "\n"])).contains('\n'));
}

#[test]
fn a_connected_peer_asks_for_the_network_state() {
    match on_event(NetworkEvent::PeerConnected(peer_id("12D3", "12D3"))) {
        LogAction::AskNetworkState(id) => {
            assert_eq!(id.base58, "12D3");
            assert_eq!(id.text, "12D3");
        }
        _ => panic!("not asked"),
    }
}

#[test]
fn a_described_peer_is_logged_with_addresses_and_client() {
    let peer = Peer {
        addresses: strings(&["/ip4/1.2.3.4/tcp/30333"]),
        version_string: Some("hydradx/1.0".to_string()),
    };
    let line = on_network_state::<()>(
        &peer_id("12D3", "shown"),
        Ok(state(vec![("12D3", peer)], vec![])),
    );
    assert_eq!(
        line.unwrap(),
        "🌐 Peer connected: id=shown addresses=[\"/ip4/1.2.3.4/tcp/30333\"] client=hydradx/1.0\n"
    );
}

#[test]
fn a_peer_without_a_version_runs_an_unknown_client() {
    let peer = Peer { addresses: vec![], version_string: None };
    let line =
        on_network_state::<()>(&peer_id("12D3", "12D3"), Ok(state(vec![("12D3", peer)], vec![])));
    assert_eq!(line.unwrap(), "🌐 Peer connected: id=12D3 addresses=[] client=unknown\n");
}

#[test]
fn a_peer_that_is_not_described_is_logged_by_its_id() {
    let other = Peer { addresses: vec![], version_string: None };
    let line = on_network_state::<()>(
        &peer_id("12D3", "12D3"),
        Ok(state(vec![("12D4", other)], vec![("12D3", &["/ip4/1.1.1.1"])])),
    );
    assert_eq!(line.unwrap(), "🌐 Peer connected: id=12D3\n");
}

#[test]
fn nothing_is_logged_without_a_network_state() {
    assert!(on_network_state(&peer_id("12D3", "12D3"), Err("closed")).is_none());
}

#[test]
fn the_other_events_have_their_lines() {
    assert_eq!(
        appended(on_event(NetworkEvent::PeerDisconnected(peer_id("x", "12D3")))),
        "Peer disconnected: id=12D3\n"
    );
    assert_eq!(
        appended(on_event(NetworkEvent::NotificationStreamOpened {
            remote: "12D3".to_string(),
            protocol: "/sup/block-announces/1".to_string(),
            info: "Some(Full)".to_string(),
        })),
        "Protocol stream opened with 12D3 (protocol: /sup/block-announces/1) – info: Some(Full)\n"
    );
    assert_eq!(
        appended(on_event(NetworkEvent::Dht("ValueFound([])".to_string()))),
        "DHT event: ValueFound([])\n"
    );
    assert!(matches!(on_event(NetworkEvent::Other), LogAction::Ignore));
}

#[test]
fn a_line_is_single_unless_a_text_breaks_it() {
    let whole = appended(on_event(NetworkEvent::PeerDisconnected(peer_id("a", "a"))));
    assert_eq!(whole.matches('\n').count(), 1);
    let broken = appended(on_event(NetworkEvent::PeerDisconnected(peer_id("a", "a\nb"))));
    assert_eq!(broken.matches('\n').count(), 2);
}

fn observed(event: NetworkEvent) -> ObservedEvent<&'static str> {
    ObservedEvent { event, state: Err("closed") }
}

fn joined(id: &str, version: &str) -> ObservedEvent<&'static str> {
    let peer = Peer { addresses: strings(&["/a"]), version_string: Some(version.to_string()) };
    ObservedEvent {
        event: NetworkEvent::PeerConnected(peer_id(id, id)),
        state: Ok(state(vec![(id, peer)], vec![])),
    }
}

fn left(id: &str) -> ObservedEvent<&'static str> {
    observed(NetworkEvent::PeerDisconnected(peer_id(id, id)))
}

fn one_stream() -> VecDeque<ObservedEvent<&'static str>> {
    VecDeque::from(vec![
        joined("a", "v1"),
        observed(NetworkEvent::Other),
        observed(NetworkEvent::PeerConnected(peer_id("b", "b"))),
        left("a"),
    ])
}

fn another_stream() -> VecDeque<ObservedEvent<&'static str>> {
    VecDeque::from(vec![
        observed(NetworkEvent::Dht("ValueFound([])".to_string())),
        joined("c", "v2"),
    ])
}

#[test]
fn a_stream_is_logged_in_order() {
    assert_eq!(
        log_events(one_stream()),
        vec![
            "🌐 Peer connected: id=a addresses=[\"/a\"] client=v1\n",
            "Peer disconnected: id=a\n",
        ]
    );
    assert!(log_events(VecDeque::<ObservedEvent<()>>::new()).is_empty());
}

#[test]
fn two_streams_are_logged_one_after_the_other() {
    let mut whole = one_stream();
    whole.extend(another_stream());
    let mut lines = log_events(one_stream());
    lines.extend(log_events(another_stream()));
    assert_eq!(log_events(whole), lines);
    assert_eq!(lines.len(), 4);
}

#[test]
fn an_event_is_logged_at_most_once_and_whole() {
    for observed in one_stream().into_iter().chain(another_stream()) {
        if let Some(line) = log_event(observed) {
            assert!(line.ends_with('\n'));
            assert_eq!(line.matches('\n').count(), 1);
        }
    }
    assert!(log_event(observed(NetworkEvent::Other)).is_none());
    assert!(log_event(observed(NetworkEvent::PeerConnected(peer_id("b", "b")))).is_none());
    assert_eq!(log_event(left("a")).unwrap(), "Peer disconnected: id=a\n");
}

#[test]
fn other_events_log_nothing() {
    let stream: VecDeque<ObservedEvent<&'static str>> =
        (0..5).map(|_| observed(NetworkEvent::Other)).collect();
    assert!(log_events(stream).is_empty());
}

#[test]
fn discovered_peers_with_an_address_are_logged_in_order() {
    let known = state(
        vec![],
        vec![("b", &["/ip4/1.1.1.1", "/ip4/2.2.2.2"]), ("silent", &[]), ("a", &["/dns/x"])],
    );
    let round = discovery_round::<()>(Ok(known));
    assert_eq!(
        round.lines,
        vec![
            "🔍 Discovered peer (not connected): id=b addresses=[\"/ip4/1.1.1.1\", \"/ip4/2.2.2.2\"]\n",
            "🔍 Discovered peer (not connected): id=a addresses=[\"/dns/x\"]\n",
        ]
    );
    assert_eq!(round.pause_secs, 60);
}

#[test]
fn a_round_without_a_network_state_only_waits() {
    let round = discovery_round(Err::<NetworkState, &str>("closed"));
    assert!(round.lines.is_empty());
    assert_eq!(round.pause_secs, DISCOVERY_PAUSE_SECS);
    assert_eq!(PEER_LOG_FILE, "peer_info.log");
}

#[test]
fn discovered_peers_are_logged_one_after_the_other() {
    let peers = |ids: &[&str]| -> Vec<DiscoveredPeer> {
        ids.iter()
            .map(|id| DiscoveredPeer { id: id.to_string(), addresses: strings(&["/a"]) })
            .collect()
    };
    let mut lines = on_discovered(&peers(&["a", "b"]));
    lines.extend(on_discovered(&peers(&["c"])));
    assert_eq!(lines, on_discovered(&peers(&["a", "b", "c"])));
    assert_eq!(lines.len(), 3);
}

#[test]
fn different_peers_have_different_lines() {
    let line = |id: &str| appended(on_event(NetworkEvent::PeerDisconnected(peer_id(id, id))));
    assert_ne!(line("a"), line("b"));
    let described = |id: &str| {
        let peer = Peer { addresses: vec![], version_string: None };
        on_network_state::<()>(&peer_id(id, id), Ok(state(vec![(id, peer)], vec![]))).unwrap()
    };
    assert_ne!(described("a"), described("b"));
    assert_ne!(described("a"), line("a"));
}

#[test]
fn a_table_keeps_the_latest_value_of_an_id() {
    let mut table = PeerTable::new();
    assert!(table.get(&"a".to_string()).is_none());
    table.insert("a".to_string(), 1u32);
    table.insert("b".to_string(), 2);
    table.insert("a".to_string(), 3);
    assert_eq!(table.get(&"a".to_string()), Some(&3));
    assert_eq!(table.get(&"b".to_string()), Some(&2));
    assert_eq!(table.get(&"c".to_string()), None);
}
