//! What the server does with a message from a connected client: the change
//! to the lobbies and the messages and actions that follow. The network
//! loop reads a message, calls `handle_request`, and carries out the effects
//! it returns in order.
use vstd::prelude::*;

use crate::lobby::{
    after_leave, created_lobby, has_lobby, has_player, hosted_by, is_state_of, joined, leave_lobbies,
    leave_updates, member_ids, with_ready, without, ClientHandle, LobbyManager, LobbyModel,
    LobbyPlayer, SessionLaunch,
};
use crate::msg::{LobbyInfo, LobbyState, PlayerInfo, PROTOCOL_VERSION};
use crate::lobby::{infos, spec_info};

verus! {

/// A message from a client, as far as the lobby logic reads it. The actions
/// of a `PlayerInput` travel beside it, to the game session.
#[derive(Debug)]
pub enum Request {
    Hello { protocol: u32, player_name: String },
    RequestLobbyList,
    CreateLobby { name: String, max_players: u8, map_id: String },
    JoinLobby { id: u64 },
    LeaveLobby,
    SetReady { ready: bool },
    StartGame,
    ChatMsg { text: String },
    PlayerInput { tick: u64 },
}

/// A message to a client.
#[derive(Debug)]
pub enum Reply {
    Error { msg: String },
    LobbyList { lobbies: Vec<LobbyInfo> },
    LobbyJoined { lobby: LobbyState },
    LobbyUpdated { lobby: LobbyState },
    LobbyLeft,
    ChatMsg { from: String, text: String },
}

/// Something the network layer is to do.
#[derive(Debug)]
pub enum Effect {
    /// Send `reply` to client `to`.
    Send { to: u64, reply: Reply },
    /// Start the game session of a lobby.
    StartSession { launch: SessionLaunch },
    /// Hand the client's game input to the session of lobby `lobby_id`.
    DeliverInput { lobby_id: u64 },
}

/// How the server answers the first message of a connection.
#[derive(Clone, Copy, Debug, PartialEq, Eq, Structural)]
pub enum HelloCheck {
    /// A `Hello` with the server's protocol version: the client is in.
    Accepted,
    /// A `Hello` with another version, which it names.
    WrongVersion(u32),
    /// Some other message.
    NotHello,
}

/// The answer to the first message of a connection.
pub fn check_hello(req: &Request) -> (r: HelloCheck)
    ensures
        match *req {
            Request::Hello { protocol, .. } => if protocol == PROTOCOL_VERSION {
                r == HelloCheck::Accepted
            } else {
                r == HelloCheck::WrongVersion(protocol)
            },
            _ => r == HelloCheck::NotHello,
        },
{
    match req {
        Request::Hello { protocol, .. } => {
            if *protocol == PROTOCOL_VERSION {
                HelloCheck::Accepted
            } else {
                HelloCheck::WrongVersion(*protocol)
            }
        },
        _ => HelloCheck::NotHello,
    }
}

/// The player count a new lobby gets: what was asked for, between 1 and 8.
pub fn clamp_max_players(asked: u8) -> (r: u8)
    ensures
        r == (if asked < 1 {
            1
        } else if asked > 8 {
            8
        } else {
            asked
        }),
{
    if asked > 8 {
        8
    } else if asked < 1 {
        1
    } else {
        asked
    }
}

/// `e` sends client `to` an error whose text is `msg`.
pub open spec fn is_error_to(e: Effect, to: u64, msg: Seq<char>) -> bool {
    e matches Effect::Send { to: t, reply: Reply::Error { msg: m } } && t == to && m@ == msg
}

/// `e` tells client `to` that it is in lobby `m`, whose state it carries.
pub open spec fn is_joined_to(e: Effect, to: u64, m: LobbyModel) -> bool {
    e matches Effect::Send { to: t, reply: Reply::LobbyJoined { lobby } } && t == to && is_state_of(lobby, m)
}

/// `e` sends client `to` the new state of lobby `m`.
pub open spec fn is_update_to(e: Effect, to: u64, m: LobbyModel) -> bool {
    e matches Effect::Send { to: t, reply: Reply::LobbyUpdated { lobby } } && t == to && is_state_of(lobby, m)
}

/// `es` sends the state of lobby `m` to each of `ids`, in order.
pub open spec fn updates_to(es: Seq<Effect>, ids: Seq<u64>, m: LobbyModel) -> bool {
    &&& es.len() == ids.len()
    &&& forall|k: int| 0 <= k < es.len() ==> is_update_to(#[trigger] es[k], ids[k], m)
}

/// Ids of the listed players `ps`, in order, leaving out `cid`.
pub open spec fn info_ids_except(ps: Seq<PlayerInfo>, cid: u64) -> Seq<u64>
    decreases ps.len(),
{
    if ps.len() == 0 {
        Seq::empty()
    } else if ps.last().id != cid {
        info_ids_except(ps.drop_last(), cid).push(ps.last().id)
    } else {
        info_ids_except(ps.drop_last(), cid)
    }
}

/// Ids of the listed players `ps`, in order.
pub open spec fn info_ids(ps: Seq<PlayerInfo>) -> Seq<u64> {
    ps.map_values(|p: PlayerInfo| p.id)
}

/// Ids of the players `ps`, in order.
pub open spec fn ids_of(ps: Seq<LobbyPlayer>) -> Seq<u64> {
    ps.map_values(|p: LobbyPlayer| p.info.id)
}

/// `es` sends, lobby after lobby of `ups`, the lobby's state to each of its
/// players.
pub open spec fn updates_each(es: Seq<Effect>, ups: Seq<LobbyModel>) -> bool
    decreases ups.len(),
{
    if ups.len() == 0 {
        es.len() == 0
    } else {
        let n = ups[0].players.len() as int;
        &&& es.len() >= n
        &&& updates_to(es.take(n), ids_of(ups[0].players), ups[0])
        &&& updates_each(es.skip(n), ups.drop_first())
    }
}

proof fn lemma_updates_each_push(es: Seq<Effect>, ups: Seq<LobbyModel>, more: Seq<Effect>, u: LobbyModel)
    requires
        updates_each(es, ups),
        updates_to(more, ids_of(u.players), u),
    ensures
        updates_each(es + more, ups.push(u)),
    decreases ups.len(),
{
    if ups.len() == 0 {
        assert(es + more =~= more);
        assert(ups.push(u)[0] == u);
        assert(more.take(u.players.len() as int) =~= more);
        assert(more.skip(u.players.len() as int) =~= Seq::<Effect>::empty());
        assert(ups.push(u).drop_first() =~= Seq::<LobbyModel>::empty());
        assert(updates_each(more.skip(u.players.len() as int), Seq::<LobbyModel>::empty()));
    } else {
        let n = ups[0].players.len() as int;
        lemma_updates_each_push(es.skip(n), ups.drop_first(), more, u);
        assert((es + more).take(n) =~= es.take(n));
        assert((es + more).skip(n) =~= es.skip(n) + more);
        assert(ups.push(u).drop_first() =~= ups.drop_first().push(u));
        assert(ups.push(u)[0] == ups[0]);
    }
}

/// The manager's lasting fields are those of `old`.
pub open spec fn same_setup(old: &LobbyManager, new: &LobbyManager) -> bool {
    &&& new.wf()
    &&& new.scripts_dir == old.scripts_dir
    &&& new.assets_dir == old.assets_dir
}

/// The outcome of a join of lobby `id` by `client`.
pub open spec fn join_done(
    old: Seq<LobbyModel>,
    new: Seq<LobbyModel>,
    client: ClientHandle,
    id: u64,
    es: Seq<Effect>,
) -> bool {
    &&& !has_lobby(old, id) ==> new == old && es.len() == 1 && is_error_to(es[0], client.id, "Lobby nenalezeno"@)
    &&& forall|i: int|
        0 <= i < old.len() && #[trigger] old[i].id == id ==> {
            if old[i].players.len() >= old[i].max_players {
                new == old && es.len() == 1 && is_error_to(es[0], client.id, "Lobby je plné"@)
            } else if old[i].in_game {
                new == old && es.len() == 1 && is_error_to(es[0], client.id, "Hra již probíhá"@)
            } else {
                &&& new == old.update(i, joined(old[i], client))
                &&& es.len() >= 1
                &&& is_joined_to(es[0], client.id, new[i])
                &&& updates_to(es.drop_first(), info_ids_except(infos(new[i].players), client.id), new[i])
            }
        }
}

/// The outcome of a readiness change of client `cid`.
pub open spec fn ready_done(old: Seq<LobbyModel>, new: Seq<LobbyModel>, cid: u64, ready: bool, es: Seq<Effect>) -> bool {
    &&& forall|i: int|
        0 <= i < old.len() && #[trigger] has_player(old[i].players, cid) && (forall|j: int|
            0 <= j < i ==> !has_player(old[j].players, cid)) ==> {
            &&& new == old.update(i, with_ready(old[i], cid, ready))
            &&& updates_to(es, ids_of(new[i].players), new[i])
        }
    &&& (forall|i: int| 0 <= i < old.len() ==> !#[trigger] has_player(old[i].players, cid)) ==> (new == old
        && es.len() == 0)
}

/// The outcome of a start request by `host_id`.
pub open spec fn start_done(
    old_mgr: &LobbyManager,
    new: Seq<LobbyModel>,
    host_id: u64,
    es: Seq<Effect>,
) -> bool {
    let old = old_mgr@;
    &&& (forall|i: int| 0 <= i < old.len() ==> !#[trigger] hosted_by(old[i], host_id)) ==> new == old && es.len()
        == 1 && is_error_to(es[0], host_id, "Nejste host žádného lobby"@)
    &&& forall|i: int|
        0 <= i < old.len() && #[trigger] hosted_by(old[i], host_id) && (forall|j: int|
            0 <= j < i ==> !hosted_by(old[j], host_id)) ==> {
            if old[i].in_game {
                new == old && es.len() == 1 && is_error_to(es[0], host_id, "Hra již probíhá"@)
            } else {
                &&& new == old.update(i, LobbyModel { in_game: true, ..old[i] })
                &&& es.len() == 1
                &&& es[0] matches Effect::StartSession { launch }
                &&& launch.lobby_id == old[i].id
                &&& launch.players@ == old[i].players
                &&& launch.map_id == old[i].map_id
                &&& launch.scripts_dir == old_mgr.scripts_dir
                &&& launch.assets_dir == old_mgr.assets_dir
            }
        }
}

/// `es` sends chat line `text` from `from` to each of `ids`, in order.
pub open spec fn chat_to(es: Seq<Effect>, ids: Seq<u64>, from: String, text: String) -> bool {
    &&& es.len() == ids.len()
    &&& forall|k: int|
        0 <= k < es.len() ==> (#[trigger] es[k] matches Effect::Send { to, reply: Reply::ChatMsg { from: f, text: t } }
            && to == ids[k] && f == from && t == text)
}

/// Sends `state` to each of `ids` as a lobby update.
fn push_updates(out: &mut Vec<Effect>, ids: &Vec<u64>, state: &LobbyState, Ghost(m): Ghost<LobbyModel>)
    requires
        is_state_of(*state, m),
    ensures
        final(out)@.len() == old(out)@.len() + ids@.len(),
        final(out)@.take(old(out)@.len() as int) == old(out)@,
        updates_to(final(out)@.skip(old(out)@.len() as int), ids@, m),
{
    let ghost start = out@.len();
    let n = ids.len();
    for k in 0..n
        invariant
            n == ids@.len(),
            is_state_of(*state, m),
            out@.len() == start + k,
            start == old(out)@.len(),
            out@.take(start as int) == old(out)@,
            forall|q: int| 0 <= q < k ==> is_update_to(#[trigger] out@[start + q], ids@[q], m),
    {
        let s = state.clone();
        assert(is_state_of(s, m));
        let ghost before = out@;
        out.push(Effect::Send { to: ids[k], reply: Reply::LobbyUpdated { lobby: s } });
        proof {
            assert(out@.take(start as int) =~= before.take(start as int));
            assert forall|q: int| 0 <= q < k + 1 implies is_update_to(#[trigger] out@[start + q], ids@[q], m) by {
                if q < k {
                    assert(out@[start + q] == before[start + q]);
                }
            }
        }
    }
    proof {
        let tail = out@.skip(start as int);
        assert forall|q: int| 0 <= q < tail.len() implies is_update_to(#[trigger] tail[q], ids@[q], m) by {
            assert(tail[q] == out@[start + q]);
        }
    }
}

/// Ids of the players listed in a lobby state, leaving out `cid`.
fn state_ids_except(st: &LobbyState, cid: u64) -> (r: Vec<u64>)
    ensures
        r@ == info_ids_except(st.players@, cid),
{
    let mut out: Vec<u64> = Vec::new();
    let n = st.players.len();
    for i in 0..n
        invariant
            n == st.players@.len(),
            out@ == info_ids_except(st.players@.take(i as int), cid),
    {
        assert(st.players@.take(i + 1).drop_last() =~= st.players@.take(i as int));
        if st.players[i].id != cid {
            out.push(st.players[i].id);
        }
    }
    assert(st.players@.take(n as int) =~= st.players@);
    out
}

/// Ids of the players listed in a lobby state.
fn state_ids(s: &LobbyState) -> (r: Vec<u64>)
    ensures
        r@ == info_ids(s.players@),
{
    let mut out: Vec<u64> = Vec::new();
    let n = s.players.len();
    for i in 0..n
        invariant
            n == s.players@.len(),
            out@ == info_ids(s.players@.take(i as int)),
    {
        out.push(s.players[i].id);
        assert(info_ids(s.players@.take(i + 1)) =~= info_ids(s.players@.take(i as int)).push(
            s.players@[i as int].id,
        ));
    }
    assert(s.players@.take(n as int) =~= s.players@);
    out
}

proof fn lemma_state_ids(s: LobbyState, m: LobbyModel)
    requires
        is_state_of(s, m),
    ensures
        info_ids(s.players@) == ids_of(m.players),
{
    assert(info_ids(s.players@) =~= ids_of(m.players)) by {
        assert forall|k: int| 0 <= k < m.players.len() implies #[trigger] info_ids(s.players@)[k] == ids_of(
            m.players,
        )[k] by {
            assert(s.players@[k] == m.players.map_values(|p: LobbyPlayer| p.info)[k]);
        }
    }
}

/// Some lobby of `ls` holds client `cid`; then a first one does.
proof fn lemma_first_holding(ls: Seq<LobbyModel>, cid: u64, i: int)
    requires
        0 <= i < ls.len(),
        has_player(ls[i].players, cid),
    ensures
        exists|f: int|
            0 <= f < ls.len() && #[trigger] has_player(ls[f].players, cid) && (forall|j: int|
                0 <= j < f ==> !has_player(ls[j].players, cid)),
    decreases i,
{
    if exists|j: int| 0 <= j < i && has_player(ls[j].players, cid) {
        let j = choose|j: int| 0 <= j < i && has_player(ls[j].players, cid);
        lemma_first_holding(ls, cid, j);
    } else {
        assert(has_player(ls[i].players, cid));
    }
}

/// A join of lobby `lobby_id` by `client`.
fn on_join(mgr: &mut LobbyManager, client: &ClientHandle, lobby_id: u64) -> (r: Vec<Effect>)
    requires
        old(mgr).wf(),
    ensures
        same_setup(old(mgr), final(mgr)),
        final(mgr).next_id == old(mgr).next_id,
        join_done(old(mgr)@, final(mgr)@, *client, lobby_id, r@),
{
    let mut out: Vec<Effect> = Vec::new();
    match mgr.join_lobby(lobby_id, client) {
        Ok(state) => {
            let ghost i = choose|i: int| 0 <= i < old(mgr)@.len() && #[trigger] old(mgr)@[i].id == lobby_id;
            let others = state_ids_except(&state, client.id);
            let first = state.clone();
            out.push(Effect::Send { to: client.id, reply: Reply::LobbyJoined { lobby: first } });
            proof {
                if !has_lobby(old(mgr)@, lobby_id) {
                    assert(false);
                }
                assert(is_state_of(state, mgr@[i]));
                assert(is_state_of(first, mgr@[i]));
            }
            let ghost m = mgr@[i];
            push_updates(&mut out, &others, &state, Ghost(m));
            proof {
                assert(out@.take(1)[0] == out@[0]);
                assert(out@.drop_first() =~= out@.skip(1));
                assert(state.players@ == infos(m.players));
                assert forall|i2: int| 0 <= i2 < old(mgr)@.len() && #[trigger] old(mgr)@[i2].id == lobby_id implies i2 == i by {
                    if i2 != i {
                        if i2 < i {
                            assert(old(mgr)@[i2].id < old(mgr)@[i].id);
                        } else {
                            assert(old(mgr)@[i].id < old(mgr)@[i2].id);
                        }
                    }
                }
            }
        },
        Err(e) => {
            out.push(Effect::Send { to: client.id, reply: Reply::Error { msg: e } });
        },
    }
    out
}

/// Client `cid` leaves every lobby it is in; each lobby it leaves (other
/// than one it leaves empty) sends its new state to its remaining players.
fn on_leave(mgr: &mut LobbyManager, cid: u64, out: &mut Vec<Effect>)
    requires
        old(mgr).wf(),
    ensures
        same_setup(old(mgr), final(mgr)),
        final(mgr).next_id == old(mgr).next_id,
        final(mgr)@ == leave_lobbies(old(mgr)@, cid),
        final(out)@.len() >= old(out)@.len(),
        final(out)@.take(old(out)@.len() as int) == old(out)@,
        updates_each(final(out)@.skip(old(out)@.len() as int), leave_updates(old(mgr)@, cid)),
{
    let ghost start = out@.len();
    let states = mgr.leave_lobby(cid);
    let ghost ups = leave_updates(old(mgr)@, cid);
    let n = states.len();
    proof {
        assert(out@.skip(start as int) =~= Seq::<Effect>::empty());
        assert(ups.take(0) =~= Seq::<LobbyModel>::empty());
    }
    for k in 0..n
        invariant
            n == states@.len(),
            n == ups.len(),
            ups == leave_updates(old(mgr)@, cid),
            forall|q: int| 0 <= q < n ==> is_state_of(#[trigger] states@[q], ups[q]),
            start == old(out)@.len(),
            start <= out@.len(),
            out@.take(start as int) == old(out)@,
            updates_each(out@.skip(start as int), ups.take(k as int)),
    {
        let ids = state_ids(&states[k]);
        proof {
            lemma_state_ids(states@[k as int], ups[k as int]);
        }
        let ghost before = out@;
        push_updates(out, &ids, &states[k], Ghost(ups[k as int]));
        proof {
            let more = out@.skip(before.len() as int);
            lemma_updates_each_push(before.skip(start as int), ups.take(k as int), more, ups[k as int]);
            let bl = before.len() as int;
            assert(out@.take(bl) == before);
            assert forall|q: int| 0 <= q < bl implies #[trigger] out@[q] == before[q] by {
                assert(out@.take(bl)[q] == out@[q]);
            }
            assert(before.skip(start as int) + more =~= out@.skip(start as int));
            assert(ups.take(k as int).push(ups[k as int]) =~= ups.take(k + 1));
            assert(out@.take(start as int) =~= before.take(start as int));
        }
    }
    assert(ups.take(n as int) =~= ups);
}

/// A readiness change of client `cid`.
fn on_ready(mgr: &mut LobbyManager, cid: u64, ready: bool) -> (r: Vec<Effect>)
    requires
        old(mgr).wf(),
    ensures
        same_setup(old(mgr), final(mgr)),
        final(mgr).next_id == old(mgr).next_id,
        ready_done(old(mgr)@, final(mgr)@, cid, ready, r@),
{
    let mut out: Vec<Effect> = Vec::new();
    match mgr.set_ready(cid, ready) {
        Some(state) => {
            let ghost old_ls = old(mgr)@;
            proof {
                if forall|i: int| 0 <= i < old_ls.len() ==> !#[trigger] has_player(old_ls[i].players, cid) {
                    assert(false);
                } else {
                    let i = choose|i: int| 0 <= i < old_ls.len() && has_player(#[trigger] old_ls[i].players, cid);
                    lemma_first_holding(old_ls, cid, i);
                }
            }
            let ghost f = choose|f: int|
                0 <= f < old_ls.len() && #[trigger] has_player(old_ls[f].players, cid) && (forall|j: int|
                    0 <= j < f ==> !has_player(old_ls[j].players, cid));
            let ids = state_ids(&state);
            proof {
                lemma_state_ids(state, mgr@[f]);
            }
            push_updates(&mut out, &ids, &state, Ghost(mgr@[f]));
            proof {
                assert(out@.skip(0) =~= out@);
                assert forall|i: int|
                    0 <= i < old_ls.len() && #[trigger] has_player(old_ls[i].players, cid) && (forall|j: int|
                        0 <= j < i ==> !has_player(old_ls[j].players, cid)) implies i == f by {
                    if i < f {
                        assert(!has_player(old_ls[i].players, cid));
                    } else if f < i {
                        assert(!has_player(old_ls[f].players, cid));
                    }
                }
            }
        },
        None => {},
    }
    out
}

/// The recipients and text of a chat line, to everyone in a lobby.
fn on_chat(mgr: &LobbyManager, client: &ClientHandle, text: String) -> (r: Vec<Effect>)
    ensures
        chat_to(r@, member_ids(mgr@), client.name, text),
{
    let ids = mgr.broadcast_all();
    let mut out: Vec<Effect> = Vec::new();
    let n = ids.len();
    for k in 0..n
        invariant
            n == ids@.len(),
            ids@ == member_ids(mgr@),
            out@.len() == k,
            forall|q: int|
                0 <= q < k ==> (#[trigger] out@[q] matches Effect::Send { to, reply: Reply::ChatMsg { from: f, text: t } }
                    && to == ids@[q] && f == client.name && t == text),
    {
        out.push(Effect::Send { to: ids[k], reply: Reply::ChatMsg { from: client.name.clone(), text: text.clone() } });
    }
    out
}

/// What handling request `req` of `client` does to the lobbies and sends.
pub open spec fn request_done(
    old_mgr: &LobbyManager,
    new_mgr: &LobbyManager,
    client: ClientHandle,
    req: Request,
    es: Seq<Effect>,
) -> bool {
    let old = old_mgr@;
    let new = new_mgr@;
    &&& same_setup(old_mgr, new_mgr)
    &&& match req {
        Request::Hello { .. } => new == old && new_mgr.next_id == old_mgr.next_id && es.len() == 1
            && is_error_to(es[0], client.id, "Duplikátní Hello"@),
        Request::RequestLobbyList => {
            &&& new == old
            &&& new_mgr.next_id == old_mgr.next_id
            &&& es.len() == 1
            &&& es[0] matches Effect::Send { to, reply: Reply::LobbyList { lobbies } }
            &&& to == client.id
            &&& lobbies@ == old.map_values(|m: LobbyModel| spec_info(m))
        },
        Request::CreateLobby { name, max_players, map_id } => {
            let id = old_mgr.next_id;
            let cap = if max_players < 1 {
                1u8
            } else if max_players > 8 {
                8u8
            } else {
                max_players
            };
            &&& new_mgr.next_id == id + 1
            &&& new == old.push(created_lobby(id, client, name, cap, map_id))
            &&& es.len() == 1
            &&& is_joined_to(es[0], client.id, new.last())
        },
        Request::JoinLobby { id } => new_mgr.next_id == old_mgr.next_id && join_done(old, new, client, id, es),
        Request::LeaveLobby => {
            &&& new_mgr.next_id == old_mgr.next_id
            &&& new == leave_lobbies(old, client.id)
            &&& es.len() >= 1
            &&& updates_each(es.drop_last(), leave_updates(old, client.id))
            &&& es.last() matches Effect::Send { to, reply: Reply::LobbyLeft }
            &&& to == client.id
        },
        Request::SetReady { ready } => new_mgr.next_id == old_mgr.next_id && ready_done(
            old,
            new,
            client.id,
            ready,
            es,
        ),
        Request::StartGame => new_mgr.next_id == old_mgr.next_id && start_done(old_mgr, new, client.id, es),
        Request::ChatMsg { text } => new == old && new_mgr.next_id == old_mgr.next_id && chat_to(
            es,
            member_ids(old),
            client.name,
            text,
        ),
        Request::PlayerInput { .. } => {
            &&& new == old
            &&& new_mgr.next_id == old_mgr.next_id
            &&& (forall|i: int| 0 <= i < old.len() ==> !(#[trigger] has_player(old[i].players, client.id) && old[i].in_game))
                ==> es.len() == 0
            &&& forall|i: int|
                0 <= i < old.len() && #[trigger] has_player(old[i].players, client.id) && old[i].in_game && (forall|j: int|
                    0 <= j < i ==> !(has_player(old[j].players, client.id) && old[j].in_game)) ==> es
                    == seq![Effect::DeliverInput { lobby_id: old[i].id }]
        },
    }
}

/// Handles request `req` of the connected `client`: changes the lobbies and
/// returns, in order, the messages to send and the actions to take.
pub fn handle_request(mgr: &mut LobbyManager, client: &ClientHandle, req: Request) -> (r: Vec<Effect>)
    requires
        old(mgr).wf(),
        req is CreateLobby ==> old(mgr).next_id < u64::MAX,
    ensures
        request_done(old(mgr), final(mgr), *client, req, r@),
{
    let ghost req0 = req;
    match req {
        Request::Hello { .. } => {
            let mut out: Vec<Effect> = Vec::new();
            out.push(Effect::Send { to: client.id, reply: Reply::Error { msg: "Duplikátní Hello".to_string() } });
            out
        },
        Request::RequestLobbyList => {
            let mut out: Vec<Effect> = Vec::new();
            out.push(Effect::Send { to: client.id, reply: Reply::LobbyList { lobbies: mgr.lobby_list() } });
            out
        },
        Request::CreateLobby { name, max_players, map_id } => {
            let cap = clamp_max_players(max_players);
            let state = mgr.create_lobby(client, name, cap, map_id);
            let mut out: Vec<Effect> = Vec::new();
            out.push(Effect::Send { to: client.id, reply: Reply::LobbyJoined { lobby: state } });
            out
        },
        Request::JoinLobby { id } => on_join(mgr, client, id),
        Request::LeaveLobby => {
            let mut out: Vec<Effect> = Vec::new();
            on_leave(mgr, client.id, &mut out);
            let ghost before = out@;
            out.push(Effect::Send { to: client.id, reply: Reply::LobbyLeft });
            proof {
                assert(out@.drop_last() =~= before);
                assert(before.skip(0) =~= before);
            }
            out
        },
        Request::SetReady { ready } => on_ready(mgr, client.id, ready),
        Request::StartGame => {
            let scripts_dir = mgr.scripts_dir.clone();
            let assets_dir = mgr.assets_dir.clone();
            let mut out: Vec<Effect> = Vec::new();
            match mgr.start_game(client.id, scripts_dir, assets_dir) {
                Ok(launch) => {
                    out.push(Effect::StartSession { launch });
                },
                Err(e) => {
                    out.push(Effect::Send { to: client.id, reply: Reply::Error { msg: e } });
                },
            }
            out
        },
        Request::ChatMsg { text } => on_chat(mgr, client, text),
        Request::PlayerInput { .. } => {
            let mut out: Vec<Effect> = Vec::new();
            match mgr.deliver_input(client.id) {
                Some(lobby_id) => {
                    out.push(Effect::DeliverInput { lobby_id });
                    proof {
                        let old = mgr@;
                        let i = choose|i: int|
                            0 <= i < old.len() && #[trigger] old[i].id == lobby_id && has_player(old[i].players, client.id)
                                && old[i].in_game && (forall|j: int|
                                0 <= j < i ==> !(has_player(old[j].players, client.id) && old[j].in_game));
                        assert forall|i2: int|
                            0 <= i2 < old.len() && #[trigger] has_player(old[i2].players, client.id) && old[i2].in_game
                                && (forall|j: int| 0 <= j < i2 ==> !(has_player(old[j].players, client.id) && old[j].in_game))
                            implies out@ == seq![Effect::DeliverInput { lobby_id: old[i2].id }] by {
                            if i2 < i {
                                assert(!(has_player(old[i2].players, client.id) && old[i2].in_game));
                            } else if i < i2 {
                                assert(!(has_player(old[i].players, client.id) && old[i].in_game));
                            }
                            assert(out@ =~= seq![Effect::DeliverInput { lobby_id: old[i2].id }]);
                        }
                    }
                },
                None => {},
            }
            out
        },
    }
}

/// Handles the end of `client_id`'s connection: it leaves its lobbies, whose
/// remaining players learn their new state.
pub fn handle_disconnect(mgr: &mut LobbyManager, client_id: u64) -> (r: Vec<Effect>)
    requires
        old(mgr).wf(),
    ensures
        same_setup(old(mgr), final(mgr)),
        final(mgr).next_id == old(mgr).next_id,
        final(mgr)@ == leave_lobbies(old(mgr)@, client_id),
        updates_each(r@, leave_updates(old(mgr)@, client_id)),
{
    let mut out: Vec<Effect> = Vec::new();
    on_leave(mgr, client_id, &mut out);
    assert(out@.skip(0) =~= out@);
    out
}

/// The players told of a join are the lobby's other members: every id in
/// the list is a member's, none is the joining client's, and every other
/// member is listed.
pub proof fn law_join_recipients(ps: Seq<LobbyPlayer>, cid: u64)
    ensures
        forall|k: int|
            0 <= k < info_ids_except(infos(ps), cid).len() ==> #[trigger] info_ids_except(infos(ps), cid)[k] != cid
                && has_player(ps, info_ids_except(infos(ps), cid)[k]),
        forall|j: int|
            0 <= j < ps.len() && #[trigger] ps[j].info.id != cid ==> info_ids_except(infos(ps), cid).contains(
                ps[j].info.id,
            ),
    decreases ps.len(),
{
    if ps.len() > 0 {
        let init = ps.drop_last();
        law_join_recipients(init, cid);
        assert(infos(ps).drop_last() =~= infos(init));
        assert(infos(ps).last() == ps.last().info);
        let r = info_ids_except(infos(ps), cid);
        let r0 = info_ids_except(infos(init), cid);
        assert forall|k: int| 0 <= k < r.len() implies #[trigger] r[k] != cid && has_player(ps, r[k]) by {
            if k < r0.len() {
                assert(r[k] == r0[k]);
                let t = choose|t: int| 0 <= t < init.len() && #[trigger] init[t].info.id == r0[k];
                assert(ps[t] == init[t]);
            } else {
                assert(r[k] == ps.last().info.id);
                assert(ps[ps.len() - 1].info.id == r[k]);
            }
        }
        assert forall|j: int| 0 <= j < ps.len() && #[trigger] ps[j].info.id != cid implies r.contains(ps[j].info.id) by {
            if j < init.len() {
                assert(init[j] == ps[j]);
                assert(r0.contains(ps[j].info.id));
                let q = choose|q: int| 0 <= q < r0.len() && r0[q] == ps[j].info.id;
                assert(r[q] == r0[q]);
            } else {
                assert(r[r.len() - 1] == ps[j].info.id);
            }
        }
    }
}

} // verus!
