use rts::client_conn::{check_hello, clamp_max_players, handle_disconnect, handle_request, Effect, HelloCheck, Reply, Request};
use rts::lobby::{ClientHandle, LobbyManager};
use rts::lobby_screen::{EscapeAction, FocusField, LobbyEvent, LobbyScreenState, LobbyView};
use rts::msg::{LobbyInfo, LobbyState, PlayerInfo, PROTOCOL_VERSION};

fn client(id: u64, name: &str) -> ClientHandle {
    ClientHandle { id, name: name.to_string() }
}

fn manager() -> LobbyManager {
    LobbyManager::new("scripts".to_string(), "assets".to_string())
}

#[test]
fn create_lobby_hands_out_increasing_ids() {
    let mut m = manager();
    let a = m.create_lobby(&client(10, "Ann"), "first".to_string(), 4, "arena".to_string());
    let b = m.create_lobby(&client(11, "Bob"), "second".to_string(), 2, "arena".to_string());
    assert_eq!(a.id, 1);
    assert_eq!(b.id, 2);
    assert_eq!(a.host_id, 10);
    assert_eq!(a.players.len(), 1);
    assert_eq!(a.players[0].id, 10);
    assert_eq!(a.players[0].team, 0);
    assert!(!a.players[0].ready);
    let list = m.lobby_list();
    assert_eq!(list.len(), 2);
    assert_eq!(list[0].name, "first");
    assert_eq!(list[0].players, 1);
    assert_eq!(list[1].max_players, 2);
    assert!(!list[1].in_game);
}

#[test]
fn join_lobby_errors() {
    let mut m = manager();
    assert_eq!(m.join_lobby(5, &client(1, "x")).unwrap_err(), "Lobby nenalezeno");
    let s = m.create_lobby(&client(1, "host"), "l".to_string(), 2, "arena".to_string());
    m.join_lobby(s.id, &client(2, "guest")).unwrap();
    assert_eq!(m.join_lobby(s.id, &client(3, "late")).unwrap_err(), "Lobby je plné");
    let s2 = m.create_lobby(&client(4, "h2"), "l2".to_string(), 4, "arena".to_string());
    m.start_game(4, "s".to_string(), "a".to_string()).unwrap();
    assert_eq!(m.join_lobby(s2.id, &client(5, "p")).unwrap_err(), "Hra již probíhá");
}

#[test]
fn join_lobby_puts_players_in_id_order_with_team_by_count() {
    let mut m = manager();
    let s = m.create_lobby(&client(20, "host"), "l".to_string(), 4, "arena".to_string());
    let st = m.join_lobby(s.id, &client(5, "early")).unwrap();
    let ids: Vec<u64> = st.players.iter().map(|p| p.id).collect();
    assert_eq!(ids, vec![5, 20]);
    assert_eq!(st.players[0].team, 1);
    assert_eq!(st.players[1].team, 0);
}

#[test]
fn leave_lobby_transfers_host_and_drops_empty_lobbies() {
    let mut m = manager();
    let s = m.create_lobby(&client(7, "host"), "l".to_string(), 4, "arena".to_string());
    m.join_lobby(s.id, &client(9, "b")).unwrap();
    m.join_lobby(s.id, &client(8, "a")).unwrap();
    let notes = m.leave_lobby(7);
    assert_eq!(notes.len(), 1);
    // The note carries the lobby after the new host was chosen.
    assert_eq!(notes[0].host_id, 8);
    assert_eq!(notes[0].players.len(), 2);
    assert!(notes[0].players.iter().all(|p| p.id != 7));
    assert_eq!(m.lobbies[0].host_id, 8);
    m.leave_lobby(8);
    let notes = m.leave_lobby(9);
    assert!(notes.is_empty());
    assert!(m.lobbies.is_empty());
}

#[test]
fn leave_lobby_removes_client_everywhere_it_is_not_alone() {
    let mut m = manager();
    let a = m.create_lobby(&client(1, "h1"), "a".to_string(), 4, "arena".to_string());
    let b = m.create_lobby(&client(2, "h2"), "b".to_string(), 4, "arena".to_string());
    m.join_lobby(a.id, &client(3, "c")).unwrap();
    m.join_lobby(b.id, &client(3, "c")).unwrap();
    let notes = m.leave_lobby(3);
    assert_eq!(notes.len(), 2);
    for l in &m.lobbies {
        assert!(l.players.iter().all(|p| p.info.id != 3));
    }
}

#[test]
fn leave_lobby_goes_on_past_a_lobby_left_empty() {
    let mut m = manager();
    m.create_lobby(&client(3, "alone"), "a".to_string(), 4, "arena".to_string());
    let b = m.create_lobby(&client(2, "h2"), "b".to_string(), 4, "arena".to_string());
    m.join_lobby(b.id, &client(3, "c")).unwrap();
    let c = m.create_lobby(&client(3, "h3"), "c".to_string(), 4, "arena".to_string());
    m.join_lobby(c.id, &client(4, "d")).unwrap();
    let notes = m.leave_lobby(3);
    assert_eq!(m.lobbies.len(), 2);
    for l in &m.lobbies {
        assert!(l.players.iter().all(|p| p.info.id != 3));
    }
    assert_eq!(notes.len(), 2);
    assert_eq!(notes[0].id, b.id);
    assert_eq!(notes[0].host_id, 2);
    assert_eq!(notes[1].id, c.id);
    assert_eq!(notes[1].host_id, 4);
    assert_eq!(m.lobbies[1].host_id, 4);
}

#[test]
fn set_ready_updates_first_lobby_of_client() {
    let mut m = manager();
    let s = m.create_lobby(&client(1, "h"), "l".to_string(), 4, "arena".to_string());
    m.join_lobby(s.id, &client(2, "g")).unwrap();
    let st = m.set_ready(2, true).unwrap();
    assert!(st.players.iter().find(|p| p.id == 2).unwrap().ready);
    assert!(!st.players.iter().find(|p| p.id == 1).unwrap().ready);
    assert!(m.set_ready(99, true).is_none());
}

#[test]
fn start_game_errors_and_launch() {
    let mut m = manager();
    assert_eq!(m.start_game(1, "s".to_string(), "a".to_string()).unwrap_err(), "Nejste host žádného lobby");
    let s = m.create_lobby(&client(1, "h"), "l".to_string(), 4, "map7".to_string());
    m.join_lobby(s.id, &client(2, "g")).unwrap();
    assert!(m.start_game(2, "s".to_string(), "a".to_string()).is_err());
    let launch = m.start_game(1, "s".to_string(), "a".to_string()).unwrap();
    assert_eq!(launch.lobby_id, s.id);
    assert_eq!(launch.map_id, "map7");
    assert_eq!(launch.players.len(), 2);
    assert_eq!(launch.scripts_dir, "s");
    assert!(m.lobby_list()[0].in_game);
    assert_eq!(m.start_game(1, "s".to_string(), "a".to_string()).unwrap_err(), "Hra již probíhá");
}

#[test]
fn broadcast_and_deliver_input() {
    let mut m = manager();
    let a = m.create_lobby(&client(1, "h"), "a".to_string(), 4, "arena".to_string());
    m.join_lobby(a.id, &client(4, "g")).unwrap();
    m.create_lobby(&client(2, "h2"), "b".to_string(), 4, "arena".to_string());
    assert_eq!(m.broadcast_all(), vec![1, 4, 2]);
    assert_eq!(m.deliver_input(4), None);
    m.start_game(1, "s".to_string(), "a".to_string()).unwrap();
    assert_eq!(m.deliver_input(4), Some(a.id));
    assert_eq!(m.deliver_input(2), None);
}

#[test]
fn hello_check() {
    let ok = Request::Hello { protocol: PROTOCOL_VERSION, player_name: "p".to_string() };
    let old = Request::Hello { protocol: PROTOCOL_VERSION + 1, player_name: "p".to_string() };
    assert_eq!(check_hello(&ok), HelloCheck::Accepted);
    assert_eq!(check_hello(&old), HelloCheck::WrongVersion(PROTOCOL_VERSION + 1));
    assert_eq!(check_hello(&Request::StartGame), HelloCheck::NotHello);
}

#[test]
fn max_players_is_clamped() {
    assert_eq!(clamp_max_players(0), 1);
    assert_eq!(clamp_max_players(5), 5);
    assert_eq!(clamp_max_players(200), 8);
}

#[test]
fn requests_produce_replies() {
    let mut m = manager();
    let host = client(1, "host");
    let guest = client(2, "guest");
    let e = handle_request(&mut m, &host, Request::CreateLobby { name: "l".to_string(), max_players: 50, map_id: "arena".to_string() });
    assert_eq!(e.len(), 1);
    match &e[0] {
        Effect::Send { to, reply: Reply::LobbyJoined { lobby } } => {
            assert_eq!(*to, 1);
            assert_eq!(lobby.max_players, 8);
        }
        other => panic!("unexpected {:?}", other),
    }
    let e = handle_request(&mut m, &guest, Request::JoinLobby { id: 1 });
    assert_eq!(e.len(), 2);
    assert!(matches!(&e[0], Effect::Send { to: 2, reply: Reply::LobbyJoined { .. } }));
    assert!(matches!(&e[1], Effect::Send { to: 1, reply: Reply::LobbyUpdated { .. } }));
    let e = handle_request(&mut m, &guest, Request::JoinLobby { id: 9 });
    match &e[0] {
        Effect::Send { to: 2, reply: Reply::Error { msg } } => assert_eq!(msg, "Lobby nenalezeno"),
        other => panic!("unexpected {:?}", other),
    }
    let e = handle_request(&mut m, &guest, Request::SetReady { ready: true });
    assert_eq!(e.len(), 2);
    let e = handle_request(&mut m, &guest, Request::ChatMsg { text: "hi".to_string() });
    assert_eq!(e.len(), 2);
    match &e[1] {
        Effect::Send { to, reply: Reply::ChatMsg { from, text } } => {
            assert_eq!(*to, 2);
            assert_eq!(from, "guest");
            assert_eq!(text, "hi");
        }
        other => panic!("unexpected {:?}", other),
    }
    let e = handle_request(&mut m, &guest, Request::StartGame);
    assert!(matches!(&e[0], Effect::Send { to: 2, reply: Reply::Error { .. } }));
    let e = handle_request(&mut m, &guest, Request::PlayerInput { tick: 3 });
    assert!(e.is_empty());
    let e = handle_request(&mut m, &host, Request::StartGame);
    assert!(matches!(&e[0], Effect::StartSession { .. }));
    let e = handle_request(&mut m, &guest, Request::PlayerInput { tick: 4 });
    assert!(matches!(&e[0], Effect::DeliverInput { lobby_id: 1 }));
    let e = handle_request(&mut m, &guest, Request::Hello { protocol: 1, player_name: "x".to_string() });
    match &e[0] {
        Effect::Send { reply: Reply::Error { msg }, .. } => assert_eq!(msg, "Duplikátní Hello"),
        other => panic!("unexpected {:?}", other),
    }
    let e = handle_request(&mut m, &guest, Request::RequestLobbyList);
    match &e[0] {
        Effect::Send { reply: Reply::LobbyList { lobbies }, .. } => assert_eq!(lobbies.len(), 1),
        other => panic!("unexpected {:?}", other),
    }
    let e = handle_request(&mut m, &guest, Request::LeaveLobby);
    assert_eq!(e.len(), 2);
    assert!(matches!(&e[0], Effect::Send { to: 1, reply: Reply::LobbyUpdated { .. } }));
    assert!(matches!(&e[1], Effect::Send { to: 2, reply: Reply::LobbyLeft }));
    let e = handle_disconnect(&mut m, 1);
    assert!(e.is_empty());
    assert!(m.lobbies.is_empty());
}


#[test]
fn lobby_screen_reacts_to_server() {
    let mut s = LobbyScreenState::new();
    assert!(!s.handle_server_msg(LobbyEvent::Hello { player_id: 42 }));
    assert_eq!(s.my_id, 42);
    let info = LobbyInfo { id: 1, name: "a".to_string(), map_id: "m".to_string(), players: 1, max_players: 4, in_game: false };
    s.handle_server_msg(LobbyEvent::LobbyList { lobbies: vec![info.clone(), info] });
    match &s.view {
        LobbyView::List { lobbies, status_msg, create_name, .. } => {
            assert_eq!(lobbies.len(), 2);
            assert_eq!(status_msg, "Nalezeno 2 lobby");
            assert_eq!(create_name, "Moje lobby");
        }
        _ => panic!("expected the list"),
    }
    s.handle_server_msg(LobbyEvent::Error { msg: "x".to_string() });
    match &s.view {
        LobbyView::List { status_msg, .. } => assert_eq!(status_msg, "Chyba: x"),
        _ => panic!("expected the list"),
    }
    let state = LobbyState {
        id: 1,
        name: "a".to_string(),
        map_id: "m".to_string(),
        max_players: 4,
        players: vec![PlayerInfo { id: 42, name: "me".to_string(), team: 0, ready: false }],
        host_id: 42,
    };
    s.handle_server_msg(LobbyEvent::LobbyJoined { lobby: state });
    for i in 0..40 {
        s.handle_server_msg(LobbyEvent::ChatMsg { from: "bob".to_string(), text: format!("m{i}") });
    }
    match &s.view {
        LobbyView::Waiting { my_id, chat_log, ready, .. } => {
            assert_eq!(*my_id, 42);
            assert!(!ready);
            assert_eq!(chat_log.len(), 30);
            assert_eq!(chat_log[29], "bob: m39");
            assert_eq!(chat_log[0], "bob: m10");
        }
        _ => panic!("expected the waiting room"),
    }
    s.handle_server_msg(LobbyEvent::Error { msg: "oops".to_string() });
    match &s.view {
        LobbyView::Waiting { chat_log, .. } => {
            assert_eq!(chat_log.len(), 31);
            assert_eq!(chat_log[30], "[CHYBA] oops");
        }
        _ => panic!("expected the waiting room"),
    }
    assert!(s.handle_server_msg(LobbyEvent::LobbyLeft));
    match &s.view {
        LobbyView::List { lobbies, status_msg, .. } => {
            assert!(lobbies.is_empty());
            assert_eq!(status_msg, "Opustili jste lobby.");
        }
        _ => panic!("expected the list"),
    }
}

fn waiting_screen(my_id: u64, host_id: u64, ready: &[bool]) -> LobbyScreenState {
    let mut s = LobbyScreenState::new();
    s.handle_server_msg(LobbyEvent::Hello { player_id: my_id });
    let players = ready
        .iter()
        .enumerate()
        .map(|(i, r)| PlayerInfo { id: i as u64 + 1, name: format!("p{i}"), team: i as u8, ready: *r })
        .collect();
    let state = LobbyState { id: 1, name: "l".to_string(), map_id: "m".to_string(), max_players: 4, players, host_id };
    s.handle_server_msg(LobbyEvent::LobbyJoined { lobby: state });
    s
}

#[test]
fn lobby_screen_form_and_buttons() {
    let mut s = LobbyScreenState::new();
    assert_eq!(s.connect_host, "127.0.0.1");
    assert_eq!(s.connect_port, "7777");
    assert_eq!(s.player_name, "Hráč");
    assert_eq!(s.on_escape(), EscapeAction::MainMenu);
    s.type_text("x");
    assert_eq!(s.connect_host, "127.0.0.1");
    s.focus = FocusField::Port;
    s.backspace();
    s.type_text("a1b2");
    assert_eq!(s.connect_port, "77712");
    s.focus = FocusField::CreateName;
    s.type_text("!");
    s.backspace();
    s.backspace();
    match &s.view {
        LobbyView::List { create_name, .. } => assert_eq!(create_name, "Moje lobb"),
        _ => panic!("expected the list"),
    }
    assert_eq!(s.selected_lobby(), None);
    let info = LobbyInfo { id: 9, name: "a".to_string(), map_id: "m".to_string(), players: 1, max_players: 4, in_game: false };
    s.handle_server_msg(LobbyEvent::LobbyList { lobbies: vec![info] });
    if let LobbyView::List { selected, .. } = &mut s.view {
        *selected = Some(0);
    }
    assert_eq!(s.selected_lobby(), Some(9));
    assert_eq!(s.toggle_ready(), None);
    assert!(!s.can_start());
}

#[test]
fn lobby_screen_waiting_room_buttons() {
    let mut host = waiting_screen(1, 1, &[true, false]);
    assert_eq!(host.on_escape(), EscapeAction::LeaveLobby);
    assert!(!host.can_start());
    let mut guest = waiting_screen(2, 1, &[true, true]);
    assert!(!guest.can_start());
    host = waiting_screen(1, 1, &[true, true]);
    assert!(host.can_start());
    assert_eq!(guest.toggle_ready(), Some(true));
    assert_eq!(guest.toggle_ready(), Some(false));
    guest.focus = FocusField::Chat;
    assert_eq!(guest.submit_chat(), None);
    guest.type_text("ahoj");
    guest.backspace();
    assert_eq!(guest.submit_chat(), Some("aho".to_string()));
    match &guest.view {
        LobbyView::Waiting { chat_input, .. } => assert!(chat_input.is_empty()),
        _ => panic!("expected the waiting room"),
    }
    assert!(guest.game_start.is_none());
    guest.handle_server_msg(LobbyEvent::GameStart {
        map_id: "arena".to_string(),
        your_team: 1,
        tick_rate: 20,
        map_tiles: vec![0, 7],
        map_w: 2,
        map_h: 1,
    });
    let g = guest.game_start.as_ref().unwrap();
    assert_eq!((g.map_id.as_str(), g.your_team, g.tick_rate, g.map_w, g.map_h), ("arena", 1, 20, 2, 1));
    assert_eq!(g.map_tiles, vec![0, 7]);
}
