use arcstr::ArcStr;
use tokio::sync::broadcast::error::{RecvError, TryRecvError};
use tokio::sync::broadcast::Receiver;
use zip_zap_zop::game::lobby::{LobbyCreated, LobbyDissolved, LobbyEvent, LobbyUpdated};
use zip_zap_zop::game::player::{PlayerEvent, PlayerJoined, PlayerLeft};
use zip_zap_zop::game::LobbyManager;

fn joined(event: PlayerEvent) -> PlayerJoined {
    match event {
        PlayerEvent::Joined(joined) => joined,
        other => panic!("expected an arrival, got {other:?}"),
    }
}

fn left(event: PlayerEvent) -> PlayerLeft {
    match event {
        PlayerEvent::Left(left) => left,
        other => panic!("expected a departure, got {other:?}"),
    }
}

fn closed(rx: &mut Receiver<PlayerEvent>) -> bool {
    matches!(rx.blocking_recv(), Err(RecvError::Closed))
}

#[test]
fn new_lobby_without_listener_should_have_one_player() {
    let mut manager = LobbyManager::new(1);

    let (lid, pid, mut host_rx) = manager.init_lobby(1, ArcStr::from("Lobby"), ArcStr::from("Player"));
    assert_eq!(lid, 0);
    assert_eq!(pid, 0);

    let player_event = host_rx.blocking_recv().unwrap();
    assert_eq!(joined(player_event), PlayerJoined { id: pid, name: ArcStr::from("Player") });
    assert!(host_rx.is_empty());
}

#[test]
fn new_lobby_with_listener_should_have_one_player() {
    let mut manager = LobbyManager::new(1);
    let mut lobby_rx = manager.subscribe();

    let (lid, pid, mut host_rx) = manager.init_lobby(1, ArcStr::from("Lobby"), ArcStr::from("Player"));
    assert_eq!(lid, 0);
    assert_eq!(pid, 0);

    let player_event = host_rx.blocking_recv().unwrap();
    assert_eq!(joined(player_event), PlayerJoined { id: pid, name: ArcStr::from("Player") });
    assert!(host_rx.is_empty());

    let lobby_event = lobby_rx.blocking_recv().unwrap();
    assert_eq!(lobby_event, LobbyCreated { id: lid, name: ArcStr::from("Lobby"), players: 1 }.into());
    assert!(lobby_rx.is_empty());
}

#[test]
fn join_nonexistent_lobby() {
    let mut manager = LobbyManager::new(1);
    assert!(manager.join_player_into_lobby(0, ArcStr::from("None")).is_none());
}

#[test]
fn one_player_joins_then_leaves_lobby() {
    let mut manager = LobbyManager::new(2);
    let mut lobby_rx = manager.subscribe();

    let (lid, host_pid, mut host_rx) = manager.init_lobby(2, ArcStr::from("Lobby"), ArcStr::from("Host"));

    let host_event = host_rx.blocking_recv().unwrap();
    assert_eq!(joined(host_event), PlayerJoined { id: host_pid, name: ArcStr::from("Host") });
    assert!(host_rx.is_empty());

    let lobby_event = lobby_rx.blocking_recv().unwrap();
    assert_eq!(lobby_event, LobbyCreated { id: lid, name: ArcStr::from("Lobby"), players: 1 }.into());
    assert!(lobby_rx.is_empty());

    assert!(lobby_rx.is_empty());
    let (player_pid, mut player_rx) = manager.join_player_into_lobby(lid, ArcStr::from("Other")).unwrap();
    assert_ne!(host_pid, player_pid);

    let player_event = PlayerJoined { id: player_pid, name: ArcStr::from("Other") };

    assert_eq!(joined(host_rx.blocking_recv().unwrap()), player_event);
    assert!(host_rx.is_empty());

    assert_eq!(joined(player_rx.blocking_recv().unwrap()), player_event);
    assert!(player_rx.is_empty());

    let lobby_event = lobby_rx.blocking_recv().unwrap();
    assert_eq!(lobby_event, LobbyUpdated { id: lid, players: 2 }.into());
    assert!(lobby_rx.is_empty());

    drop(player_rx); // Must be dropped before removing the player.
    assert!(manager.remove_player_from_lobby(lid, player_pid));

    assert_eq!(left(host_rx.blocking_recv().unwrap()), PlayerLeft { id: player_pid });
    assert!(host_rx.is_empty());

    let lobby_event = lobby_rx.blocking_recv().unwrap();
    assert_eq!(lobby_event, LobbyUpdated { id: lid, players: 1 }.into());
    assert!(lobby_rx.is_empty());
}

#[test]
fn dissolve_nonexistent_lobby() {
    let mut manager = LobbyManager::new(1);
    assert!(manager.dissolve_lobby(0).is_none());
}

#[test]
fn host_leaves_lobby() {
    let mut manager = LobbyManager::new(2);
    let mut lobby_rx = manager.subscribe();

    let (lid, pid, mut host_rx) = manager.init_lobby(2, ArcStr::from("Lobby"), ArcStr::from("Host"));

    let host_event = host_rx.blocking_recv().unwrap();
    assert_eq!(joined(host_event), PlayerJoined { id: pid, name: ArcStr::from("Host") });
    assert!(host_rx.is_empty());

    let lobby_event = lobby_rx.blocking_recv().unwrap();
    assert_eq!(lobby_event, LobbyCreated { id: lid, name: ArcStr::from("Lobby"), players: 1 }.into());
    assert!(lobby_rx.is_empty());

    drop(host_rx); // Must be dropped before removing the player.
    assert!(manager.remove_player_from_lobby(lid, pid));
    assert_eq!(manager.player_count_of_lobby(lid), None);
    assert!(!lobby_rx.is_empty());

    let lobby_event = lobby_rx.blocking_recv().unwrap();
    assert_eq!(lobby_event, LobbyDissolved { id: lid }.into());
    assert!(lobby_rx.is_empty());
}

#[test]
fn premature_lobby_dissolution() {
    let mut manager = LobbyManager::new(2);
    let mut lobby_rx = manager.subscribe();

    let (lid, host_pid, mut host_rx) = manager.init_lobby(2, ArcStr::from("Lobby"), ArcStr::from("Host"));

    let host_event = host_rx.blocking_recv().unwrap();
    assert_eq!(joined(host_event), PlayerJoined { id: host_pid, name: ArcStr::from("Host") });
    assert!(host_rx.is_empty());

    let lobby_event = lobby_rx.blocking_recv().unwrap();
    assert_eq!(lobby_event, LobbyCreated { id: lid, name: ArcStr::from("Lobby"), players: 1 }.into());
    assert!(lobby_rx.is_empty());

    assert!(lobby_rx.is_empty());
    let (player_pid, mut player_rx) = manager.join_player_into_lobby(lid, ArcStr::from("Other")).unwrap();
    assert_ne!(host_pid, player_pid);

    let player_event = PlayerJoined { id: player_pid, name: ArcStr::from("Other") };

    assert_eq!(joined(host_rx.blocking_recv().unwrap()), player_event);
    assert!(host_rx.is_empty());

    assert_eq!(joined(player_rx.blocking_recv().unwrap()), player_event);
    assert!(player_rx.is_empty());

    let lobby_event = lobby_rx.blocking_recv().unwrap();
    assert_eq!(lobby_event, LobbyUpdated { id: lid, players: 2 }.into());
    assert!(lobby_rx.is_empty());

    assert!(manager.dissolve_lobby(lid).is_some());

    assert!(closed(&mut host_rx));
    assert!(closed(&mut player_rx));

    let lobby_event = lobby_rx.blocking_recv().unwrap();
    assert_eq!(lobby_event, LobbyDissolved { id: lid }.into());
    assert!(lobby_rx.is_empty());
}

#[test]
fn two_guests_hear_both_arrivals_in_the_same_order() {
    let mut manager = LobbyManager::new(4);
    let (lid, host_pid, mut host_rx) = manager.init_lobby(4, ArcStr::from("Lobby"), ArcStr::from("Host"));
    assert_eq!(joined(host_rx.blocking_recv().unwrap()).id, host_pid);

    let (first_pid, mut first_rx) = manager.join_player_into_lobby(lid, ArcStr::from("First")).unwrap();
    let (second_pid, mut second_rx) = manager.join_player_into_lobby(lid, ArcStr::from("Second")).unwrap();
    assert_eq!(manager.player_count_of_lobby(lid), Some(3));

    let first = PlayerJoined { id: first_pid, name: ArcStr::from("First") };
    let second = PlayerJoined { id: second_pid, name: ArcStr::from("Second") };

    // The host and the first guest hear both, in the order of the joins.
    assert_eq!(joined(host_rx.blocking_recv().unwrap()), first);
    assert_eq!(joined(host_rx.blocking_recv().unwrap()), second);
    assert_eq!(joined(first_rx.blocking_recv().unwrap()), first);
    assert_eq!(joined(first_rx.blocking_recv().unwrap()), second);
    // The second guest subscribed after the first had joined.
    assert_eq!(joined(second_rx.blocking_recv().unwrap()), second);
    assert!(matches!(second_rx.try_recv(), Err(TryRecvError::Empty)));
}

#[test]
fn lobbies_lists_names_under_their_keys() {
    let mut manager = LobbyManager::new(4);
    assert!(manager.lobbies().is_empty());
    let (red, _, _red_rx) = manager.init_lobby(1, ArcStr::from("Red"), ArcStr::from("Ann"));
    let (blue, _, _blue_rx) = manager.init_lobby(1, ArcStr::from("Blue"), ArcStr::from("Bob"));
    let (green, _, _green_rx) = manager.init_lobby(1, ArcStr::from("Green"), ArcStr::from("Cat"));
    assert!(manager.dissolve_lobby(blue).is_some());

    let listed = manager.lobbies();
    assert_eq!(listed.len(), 2);
    assert_eq!(listed.get(red), Some(&ArcStr::from("Red")));
    assert_eq!(listed.get(blue), None);
    assert_eq!(listed.get(green), Some(&ArcStr::from("Green")));
}

#[test]
fn player_count_of_lobby_follows_joins_and_leaves() {
    let mut manager = LobbyManager::new(4);
    assert_eq!(manager.player_count_of_lobby(0), None);
    let (lid, host, _host_rx) = manager.init_lobby(4, ArcStr::from("Lobby"), ArcStr::from("Host"));
    assert_eq!(manager.player_count_of_lobby(lid), Some(1));
    let (guest, _guest_rx) = manager.join_player_into_lobby(lid, ArcStr::from("Guest")).unwrap();
    assert_eq!(manager.player_count_of_lobby(lid), Some(2));
    assert!(!manager.remove_player_from_lobby(lid, 7));
    assert!(!manager.remove_player_from_lobby(lid + 1, guest));
    assert_eq!(manager.player_count_of_lobby(lid), Some(2));
    assert!(manager.remove_player_from_lobby(lid, host));
    assert_eq!(manager.player_count_of_lobby(lid), Some(1));
    assert!(manager.remove_player_from_lobby(lid, guest));
    assert_eq!(manager.player_count_of_lobby(lid), None);
    assert!(manager.dissolve_lobby(lid).is_none());
}

#[test]
fn snapshot_of_lobby_copies_name_and_members() {
    let mut manager = LobbyManager::new(4);
    assert!(manager.snapshot_of_lobby(0).is_none());
    let (lid, host, _host_rx) = manager.init_lobby(4, ArcStr::from("Lobby"), ArcStr::from("Host"));
    let (lobby, members) = manager.snapshot_of_lobby(lid).unwrap();
    assert_eq!(lobby, ArcStr::from("Lobby"));
    assert_eq!(members.len(), 1);
    assert_eq!(members.get(host), Some(&ArcStr::from("Host")));
    let _ = manager.join_player_into_lobby(lid, ArcStr::from("Guest")).unwrap();
    assert_eq!(members.len(), 1);
}

#[test]
fn dissolved_lobby_is_handed_over_whole() {
    let mut manager = LobbyManager::new(4);
    let (lid, host, _host_rx) = manager.init_lobby(4, ArcStr::from("Lobby"), ArcStr::from("Host"));
    let (guest, _guest_rx) = manager.join_player_into_lobby(lid, ArcStr::from("Guest")).unwrap();
    let lobby = manager.dissolve_lobby(lid).unwrap();
    assert_eq!(lobby.name, ArcStr::from("Lobby"));
    assert_eq!(lobby.players.len(), 2);
    assert_eq!(lobby.players.get(host), Some(&ArcStr::from("Host")));
    assert_eq!(lobby.players.get(guest), Some(&ArcStr::from("Guest")));
    assert_eq!(lobby.sender.receiver_count(), 2);
    assert!(manager.lobbies().is_empty());
}

#[test]
fn last_member_to_leave_is_not_announced_to_the_lobby() {
    let mut manager = LobbyManager::new(4);
    let mut lobby_rx = manager.subscribe();
    let (lid, host, mut host_rx) = manager.init_lobby(4, ArcStr::from("Lobby"), ArcStr::from("Host"));
    let (guest, guest_rx) = manager.join_player_into_lobby(lid, ArcStr::from("Guest")).unwrap();
    drop(guest_rx);
    assert!(manager.remove_player_from_lobby(lid, guest));
    assert!(manager.remove_player_from_lobby(lid, host));

    // The lobby heard of both arrivals and of the guest's departure, and then closed.
    assert_eq!(joined(host_rx.blocking_recv().unwrap()).id, host);
    assert_eq!(joined(host_rx.blocking_recv().unwrap()).id, guest);
    assert_eq!(left(host_rx.blocking_recv().unwrap()), PlayerLeft { id: guest });
    assert!(closed(&mut host_rx));

    // The watchers heard of the lobby, its growing, its shrinking and its end.
    assert_eq!(
        lobby_rx.blocking_recv().unwrap(),
        LobbyCreated { id: lid, name: ArcStr::from("Lobby"), players: 1 }.into()
    );
    assert_eq!(lobby_rx.blocking_recv().unwrap(), LobbyUpdated { id: lid, players: 2 }.into());
    assert_eq!(lobby_rx.blocking_recv().unwrap(), LobbyUpdated { id: lid, players: 1 }.into());
    assert_eq!(lobby_rx.blocking_recv().unwrap(), LobbyDissolved { id: lid }.into());
    assert!(lobby_rx.is_empty());
}

#[test]
fn first_lobby_and_first_member_get_key_zero() {
    let mut manager = LobbyManager::new(1);
    let (lid, pid, _rx) = manager.init_lobby(1, ArcStr::from("Lobby"), ArcStr::from("Player"));
    assert_eq!((lid, pid), (0, 0));
    let (second, host, _second_rx) = manager.init_lobby(1, ArcStr::from("Second"), ArcStr::from("Other"));
    assert_eq!((second, host), (1, 0));
}

#[test]
fn keys_are_reused_after_removal() {
    let mut manager = LobbyManager::new(4);
    let (first, _, _first_rx) = manager.init_lobby(1, ArcStr::from("First"), ArcStr::from("Ann"));
    assert!(manager.dissolve_lobby(first).is_some());
    let (second, _, _second_rx) = manager.init_lobby(1, ArcStr::from("Second"), ArcStr::from("Bob"));
    assert_eq!(first, second);
    let (guest, _guest_rx) = manager.join_player_into_lobby(second, ArcStr::from("Guest")).unwrap();
    assert!(manager.remove_player_from_lobby(second, guest));
    let (again, _again_rx) = manager.join_player_into_lobby(second, ArcStr::from("Again")).unwrap();
    assert_eq!(guest, again);
}
