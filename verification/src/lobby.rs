//! Lobby management of the server: creating, joining and leaving lobbies,
//! readiness, and handing a lobby over to a game session.
//!
//! A lobby keeps its players ordered by id, and the manager keeps its lobbies
//! ordered by id (ids are handed out in increasing order). Where a search over
//! lobbies or players picks "the first" match, it is the one with the smallest id.
use vstd::prelude::*;

use crate::msg::{LobbyInfo, LobbyState, PlayerInfo};

verus! {

/// The library's side of a connected client: who it is. The channel that
/// reaches the client belongs to the network layer.
#[derive(Debug)]
pub struct ClientHandle {
    pub id: u64,
    pub name: String,
}

impl Clone for ClientHandle {
    fn clone(&self) -> (r: Self)
        ensures
            r == *self,
    {
        ClientHandle { id: self.id, name: self.name.clone() }
    }
}

/// A member of a lobby.
#[derive(Debug)]
pub struct LobbyPlayer {
    pub info: PlayerInfo,
    pub handle: ClientHandle,
}

impl Clone for LobbyPlayer {
    fn clone(&self) -> (r: Self)
        ensures
            r == *self,
    {
        LobbyPlayer { info: self.info.clone(), handle: self.handle.clone() }
    }
}

/// A lobby: its players ordered by id, its host, and whether its game runs.
#[derive(Debug)]
pub struct Lobby {
    pub id: u64,
    pub name: String,
    pub map_id: String,
    pub max_players: u8,
    pub players: Vec<LobbyPlayer>,
    pub host_id: u64,
    pub in_game: bool,
}

/// Mathematical model of a lobby.
pub struct LobbyModel {
    pub id: u64,
    pub name: String,
    pub map_id: String,
    pub max_players: u8,
    pub players: Seq<LobbyPlayer>,
    pub host_id: u64,
    pub in_game: bool,
}

impl View for Lobby {
    type V = LobbyModel;

    open spec fn view(&self) -> LobbyModel {
        LobbyModel {
            id: self.id,
            name: self.name,
            map_id: self.map_id,
            max_players: self.max_players,
            players: self.players@,
            host_id: self.host_id,
            in_game: self.in_game,
        }
    }
}

/// Players are strictly ordered by id (so no id occurs twice).
pub open spec fn ids_sorted(ps: Seq<LobbyPlayer>) -> bool {
    forall|i: int, j: int| 0 <= i < j < ps.len() ==> #[trigger] ps[i].info.id < #[trigger] ps[j].info.id
}

/// The player with id `id` is a member.
pub open spec fn has_player(ps: Seq<LobbyPlayer>, id: u64) -> bool {
    exists|i: int| 0 <= i < ps.len() && #[trigger] ps[i].info.id == id
}

/// How many players a lobby may hold: its maximum, but at least its host.
pub open spec fn capacity(m: LobbyModel) -> int {
    if m.max_players == 0 {
        1
    } else {
        m.max_players as int
    }
}

/// What every lobby satisfies: ordered players, never empty, never over
/// capacity, and the host among the players.
pub open spec fn lobby_wf(m: LobbyModel) -> bool {
    &&& ids_sorted(m.players)
    &&& 0 < m.players.len() <= capacity(m)
    &&& has_player(m.players, m.host_id)
}

/// What the manager satisfies: lobbies strictly ordered by id, every id below
/// the next one to hand out, and every lobby well formed.
pub open spec fn lobbies_wf(ls: Seq<LobbyModel>, next_id: u64) -> bool {
    &&& forall|i: int, j: int| 0 <= i < j < ls.len() ==> #[trigger] ls[i].id < #[trigger] ls[j].id
    &&& forall|i: int| 0 <= i < ls.len() ==> #[trigger] ls[i].id < next_id
    &&& forall|i: int| 0 <= i < ls.len() ==> lobby_wf(#[trigger] ls[i])
}

/// The list entry of a lobby.
pub open spec fn spec_info(m: LobbyModel) -> LobbyInfo {
    LobbyInfo {
        id: m.id,
        name: m.name,
        map_id: m.map_id,
        players: m.players.len() as u8,
        max_players: m.max_players,
        in_game: m.in_game,
    }
}

/// The player infos of a lobby, in lobby order.
pub open spec fn infos(ps: Seq<LobbyPlayer>) -> Seq<PlayerInfo> {
    ps.map_values(|p: LobbyPlayer| p.info)
}

/// `s` is the waiting-room state of lobby `m`.
pub open spec fn is_state_of(s: LobbyState, m: LobbyModel) -> bool {
    &&& s.id == m.id
    &&& s.name == m.name
    &&& s.map_id == m.map_id
    &&& s.max_players == m.max_players
    &&& s.players@ == infos(m.players)
    &&& s.host_id == m.host_id
}

impl Lobby {
    /// The entry of this lobby in the lobby list.
    pub fn info(&self) -> (r: LobbyInfo)
        ensures
            r == spec_info(self@),
    {
        LobbyInfo {
            id: self.id,
            name: self.name.clone(),
            map_id: self.map_id.clone(),
            players: self.players.len() as u8,
            max_players: self.max_players,
            in_game: self.in_game,
        }
    }

    /// The waiting-room state of this lobby; its players come in id order.
    pub fn state(&self) -> (r: LobbyState)
        ensures
            is_state_of(r, self@),
    {
        let mut players: Vec<PlayerInfo> = Vec::new();
        let n = self.players.len();
        for i in 0..n
            invariant
                n == self.players@.len(),
                players@ == infos(self.players@.take(i as int)),
        {
            players.push(self.players[i].info.clone());
            assert(infos(self.players@.take(i + 1)) =~= infos(self.players@.take(i as int)).push(
                self.players@[i as int].info,
            ));
        }
        assert(self.players@.take(n as int) =~= self.players@);
        LobbyState {
            id: self.id,
            name: self.name.clone(),
            map_id: self.map_id.clone(),
            max_players: self.max_players,
            players,
            host_id: self.host_id,
        }
    }
}

/// The lobbies of the server.
#[derive(Debug)]
pub struct LobbyManager {
    pub scripts_dir: String,
    pub assets_dir: String,
    pub lobbies: Vec<Lobby>,
    /// Id of the next lobby to be created.
    pub next_id: u64,
}

impl View for LobbyManager {
    type V = Seq<LobbyModel>;

    open spec fn view(&self) -> Seq<LobbyModel> {
        self.lobbies@.map_values(|l: Lobby| l@)
    }
}

/// The lobby a client creates: it alone, as host, on team 0, not ready.
pub open spec fn created_lobby(
    id: u64,
    host: ClientHandle,
    name: String,
    max_players: u8,
    map_id: String,
) -> LobbyModel {
    LobbyModel {
        id,
        name,
        map_id,
        max_players,
        players: seq![
            LobbyPlayer {
                info: PlayerInfo { id: host.id, name: host.name, team: 0, ready: false },
                handle: host,
            },
        ],
        host_id: host.id,
        in_game: false,
    }
}

/// `ps` with `p` put in its place by id: it replaces the player with the
/// same id, or is inserted before the first player with a larger id.
pub open spec fn upsert(ps: Seq<LobbyPlayer>, p: LobbyPlayer) -> Seq<LobbyPlayer>
    decreases ps.len(),
{
    if ps.len() == 0 {
        seq![p]
    } else if ps[0].info.id < p.info.id {
        seq![ps[0]] + upsert(ps.drop_first(), p)
    } else if ps[0].info.id == p.info.id {
        seq![p] + ps.drop_first()
    } else {
        seq![p] + ps
    }
}

/// The member a client becomes when it joins on team `team`.
pub open spec fn joining_player(client: ClientHandle, team: u8) -> LobbyPlayer {
    LobbyPlayer {
        info: PlayerInfo { id: client.id, name: client.name, team, ready: false },
        handle: client,
    }
}

/// Lobby `m` after `client` joined it: it is put among the players on the
/// team numbered by the player count before the join.
pub open spec fn joined(m: LobbyModel, client: ClientHandle) -> LobbyModel {
    LobbyModel {
        players: upsert(m.players, joining_player(client, m.players.len() as u8)),
        ..m
    }
}

/// Some lobby has id `id`.
pub open spec fn has_lobby(ls: Seq<LobbyModel>, id: u64) -> bool {
    exists|i: int| 0 <= i < ls.len() && #[trigger] ls[i].id == id
}

/// Inserting at the position found by id order gives `upsert`.
proof fn lemma_upsert_at(ps: Seq<LobbyPlayer>, p: LobbyPlayer, k: int)
    requires
        ids_sorted(ps),
        0 <= k <= ps.len(),
        forall|j: int| 0 <= j < k ==> #[trigger] ps[j].info.id < p.info.id,
        k < ps.len() ==> p.info.id <= ps[k].info.id,
    ensures
        (k < ps.len() && ps[k].info.id == p.info.id) ==> upsert(ps, p) == ps.update(k, p),
        !(k < ps.len() && ps[k].info.id == p.info.id) ==> upsert(ps, p) == ps.insert(k, p),
    decreases k,
{
    if k == 0 {
        if ps.len() == 0 {
            assert(ps.insert(0, p) =~= seq![p]);
        } else if ps[0].info.id == p.info.id {
            assert(ps.update(0, p) =~= seq![p] + ps.drop_first());
        } else {
            assert(ps.insert(0, p) =~= seq![p] + ps);
        }
    } else {
        let rest = ps.drop_first();
        assert(ids_sorted(rest)) by {
            assert forall|i: int, j: int| 0 <= i < j < rest.len() implies #[trigger] rest[i].info.id
                < #[trigger] rest[j].info.id by {
                assert(rest[i] == ps[i + 1] && rest[j] == ps[j + 1]);
            }
        }
        assert forall|j: int| 0 <= j < k - 1 implies #[trigger] rest[j].info.id < p.info.id by {
            assert(rest[j] == ps[j + 1]);
        }
        lemma_upsert_at(rest, p, k - 1);
        assert(ps[0].info.id < p.info.id);
        if k < ps.len() && ps[k].info.id == p.info.id {
            assert(ps.update(k, p) =~= seq![ps[0]] + rest.update(k - 1, p));
        } else {
            assert(ps.insert(k, p) =~= seq![ps[0]] + rest.insert(k - 1, p));
        }
    }
}

/// Putting a player in by id keeps the players ordered, makes it a member,
/// and keeps every other member.
pub proof fn law_upsert(ps: Seq<LobbyPlayer>, p: LobbyPlayer)
    requires
        ids_sorted(ps),
    ensures
        ids_sorted(upsert(ps, p)),
        upsert(ps, p).contains(p),
        forall|q: LobbyPlayer| ps.contains(q) && q.info.id != p.info.id ==> upsert(ps, p).contains(q),
        forall|q: LobbyPlayer| #[trigger] upsert(ps, p).contains(q) ==> q == p || ps.contains(q),
        has_player(ps, p.info.id) ==> upsert(ps, p).len() == ps.len(),
        !has_player(ps, p.info.id) ==> upsert(ps, p).len() == ps.len() + 1,
    decreases ps.len(),
{
    if ps.len() == 0 {
        assert(upsert(ps, p)[0] == p);
    } else {
        let rest = ps.drop_first();
        assert(ids_sorted(rest)) by {
            assert forall|i: int, j: int| 0 <= i < j < rest.len() implies #[trigger] rest[i].info.id
                < #[trigger] rest[j].info.id by {
                assert(rest[i] == ps[i + 1] && rest[j] == ps[j + 1]);
            }
        }
        let u = upsert(ps, p);
        if ps[0].info.id < p.info.id {
            law_upsert(rest, p);
            let ur = upsert(rest, p);
            assert(u == seq![ps[0]] + ur);
            assert forall|i: int, j: int| 0 <= i < j < u.len() implies #[trigger] u[i].info.id
                < #[trigger] u[j].info.id by {
                if i == 0 {
                    assert(ur.contains(u[j]));
                    if u[j] != p {
                        let t = choose|t: int| 0 <= t < rest.len() && rest[t] == u[j];
                        assert(rest[t] == ps[t + 1]);
                    }
                } else {
                    assert(u[i] == ur[i - 1] && u[j] == ur[j - 1]);
                }
            }
            assert(u[1 + ur.index_of(p)] == p);
            assert forall|q: LobbyPlayer| ps.contains(q) && q.info.id != p.info.id implies u.contains(q) by {
                let t = choose|t: int| 0 <= t < ps.len() && ps[t] == q;
                if t == 0 {
                    assert(u[0] == q);
                } else {
                    assert(rest[t - 1] == q);
                    assert(rest.contains(q));
                    assert(u[1 + ur.index_of(q)] == q);
                }
            }
            assert forall|q: LobbyPlayer| #[trigger] u.contains(q) implies q == p || ps.contains(q) by {
                let t = choose|t: int| 0 <= t < u.len() && u[t] == q;
                if t == 0 {
                    assert(ps[0] == q);
                } else {
                    assert(ur[t - 1] == q);
                    assert(ur.contains(q));
                    if q != p {
                        let t2 = choose|t2: int| 0 <= t2 < rest.len() && rest[t2] == q;
                        assert(ps[t2 + 1] == q);
                    }
                }
            }
            if has_player(ps, p.info.id) {
                let t = choose|t: int| 0 <= t < ps.len() && #[trigger] ps[t].info.id == p.info.id;
                assert(t != 0);
                assert(rest[t - 1].info.id == p.info.id);
            } else {
                assert forall|t: int| 0 <= t < rest.len() implies #[trigger] rest[t].info.id != p.info.id by {
                    assert(rest[t] == ps[t + 1]);
                }
            }
        } else if ps[0].info.id == p.info.id {
            assert(u == seq![p] + rest);
            assert(u[0] == p);
            assert forall|i: int, j: int| 0 <= i < j < u.len() implies #[trigger] u[i].info.id
                < #[trigger] u[j].info.id by {
                assert(u[j] == ps[j]);
                if i > 0 {
                    assert(u[i] == ps[i]);
                } else {
                    assert(ps[0].info.id < ps[j].info.id);
                }
            }
            assert forall|q: LobbyPlayer| ps.contains(q) && q.info.id != p.info.id implies u.contains(q) by {
                let t = choose|t: int| 0 <= t < ps.len() && ps[t] == q;
                assert(t != 0);
                assert(u[t] == q);
            }
            assert forall|q: LobbyPlayer| #[trigger] u.contains(q) implies q == p || ps.contains(q) by {
                let t = choose|t: int| 0 <= t < u.len() && u[t] == q;
                if t > 0 {
                    assert(ps[t] == q);
                }
            }
            assert(ps[0].info.id == p.info.id);
        } else {
            assert(u == seq![p] + ps);
            assert(u[0] == p);
            assert forall|i: int, j: int| 0 <= i < j < u.len() implies #[trigger] u[i].info.id
                < #[trigger] u[j].info.id by {
                assert(u[j] == ps[j - 1]);
                if i > 0 {
                    assert(u[i] == ps[i - 1]);
                } else if j - 1 > 0 {
                    assert(ps[0].info.id < ps[j - 1].info.id);
                }
            }
            assert forall|q: LobbyPlayer| ps.contains(q) && q.info.id != p.info.id implies u.contains(q) by {
                let t = choose|t: int| 0 <= t < ps.len() && ps[t] == q;
                assert(u[t + 1] == q);
            }
            assert forall|q: LobbyPlayer| #[trigger] u.contains(q) implies q == p || ps.contains(q) by {
                let t = choose|t: int| 0 <= t < u.len() && u[t] == q;
                if t > 0 {
                    assert(ps[t - 1] == q);
                }
            }
            assert forall|t: int| 0 <= t < ps.len() implies #[trigger] ps[t].info.id != p.info.id by {
                if t > 0 {
                    assert(ps[0].info.id < ps[t].info.id);
                }
            }
        }
    }
}

/// `ps` without the player whose id is `cid`.
pub open spec fn drop_player(ps: Seq<LobbyPlayer>, cid: u64) -> Seq<LobbyPlayer>
    decreases ps.len(),
{
    if ps.len() == 0 {
        ps
    } else if ps.last().info.id == cid {
        drop_player(ps.drop_last(), cid)
    } else {
        drop_player(ps.drop_last(), cid).push(ps.last())
    }
}

/// Lobby `m` once client `cid` has left it, before a new host is chosen.
pub open spec fn without(m: LobbyModel, cid: u64) -> LobbyModel {
    LobbyModel { players: drop_player(m.players, cid), ..m }
}

/// Lobby `m` once client `cid` has left it: when the host left, the remaining
/// player with the smallest id becomes host.
pub open spec fn after_leave(m: LobbyModel, cid: u64) -> LobbyModel {
    let w = without(m, cid);
    if m.host_id == cid {
        LobbyModel { host_id: w.players[0].info.id, ..w }
    } else {
        w
    }
}

/// The lobbies after client `cid` left them: it is taken out of every lobby
/// that holds it, a lobby it leaves empty is dropped, and a lobby it hosted
/// passes to the remaining player with the smallest id.
pub open spec fn leave_lobbies(ls: Seq<LobbyModel>, cid: u64) -> Seq<LobbyModel>
    decreases ls.len(),
{
    if ls.len() == 0 {
        ls
    } else if !has_player(ls[0].players, cid) {
        seq![ls[0]] + leave_lobbies(ls.drop_first(), cid)
    } else if drop_player(ls[0].players, cid).len() == 0 {
        leave_lobbies(ls.drop_first(), cid)
    } else {
        seq![after_leave(ls[0], cid)] + leave_lobbies(ls.drop_first(), cid)
    }
}

/// The lobbies whose remaining players are told that client `cid` left, in
/// order, each as it is once the client left and a new host was chosen.
pub open spec fn leave_updates(ls: Seq<LobbyModel>, cid: u64) -> Seq<LobbyModel>
    decreases ls.len(),
{
    if ls.len() == 0 {
        ls
    } else if !has_player(ls[0].players, cid) || drop_player(ls[0].players, cid).len() == 0 {
        leave_updates(ls.drop_first(), cid)
    } else {
        seq![after_leave(ls[0], cid)] + leave_updates(ls.drop_first(), cid)
    }
}

proof fn lemma_drop_absent(ps: Seq<LobbyPlayer>, cid: u64)
    requires
        forall|j: int| 0 <= j < ps.len() ==> #[trigger] ps[j].info.id != cid,
    ensures
        drop_player(ps, cid) == ps,
    decreases ps.len(),
{
    if ps.len() > 0 {
        lemma_drop_absent(ps.drop_last(), cid);
        assert(ps.drop_last().push(ps.last()) =~= ps);
    }
}

proof fn lemma_sorted_drop_last(ps: Seq<LobbyPlayer>)
    requires
        ids_sorted(ps),
        ps.len() > 0,
    ensures
        ids_sorted(ps.drop_last()),
{
    let d = ps.drop_last();
    assert forall|i: int, j: int| 0 <= i < j < d.len() implies #[trigger] d[i].info.id < #[trigger] d[j].info.id by {
        assert(d[i] == ps[i] && d[j] == ps[j]);
    }
}

/// In an ordered list, dropping a member by id removes exactly its entry.
proof fn lemma_drop_at(ps: Seq<LobbyPlayer>, k: int, cid: u64)
    requires
        ids_sorted(ps),
        0 <= k < ps.len(),
        ps[k].info.id == cid,
    ensures
        drop_player(ps, cid) == ps.remove(k),
    decreases ps.len(),
{
    let init = ps.drop_last();
    lemma_sorted_drop_last(ps);
    if k == ps.len() - 1 {
        assert forall|j: int| 0 <= j < init.len() implies #[trigger] init[j].info.id != cid by {
            assert(ps[j].info.id < ps[k].info.id);
        }
        lemma_drop_absent(init, cid);
        assert(ps.remove(k) =~= init);
    } else {
        assert(ps[k].info.id < ps.last().info.id);
        lemma_drop_at(init, k, cid);
        assert(init.remove(k).push(ps.last()) =~= ps.remove(k));
    }
}

/// Removing an entry keeps an ordered list ordered.
proof fn lemma_sorted_remove(ps: Seq<LobbyPlayer>, k: int)
    requires
        ids_sorted(ps),
        0 <= k < ps.len(),
    ensures
        ids_sorted(ps.remove(k)),
{
    let r = ps.remove(k);
    assert forall|i: int, j: int| 0 <= i < j < r.len() implies #[trigger] r[i].info.id < #[trigger] r[j].info.id by {
        let i2 = if i < k { i } else { i + 1 };
        let j2 = if j < k { j } else { j + 1 };
        assert(r[i] == ps[i2] && r[j] == ps[j2]);
    }
}

/// No entry of `drop_player(ps, cid)` has id `cid`.
proof fn lemma_drop_removes(ps: Seq<LobbyPlayer>, cid: u64)
    ensures
        !has_player(drop_player(ps, cid), cid),
    decreases ps.len(),
{
    if ps.len() > 0 {
        lemma_drop_removes(ps.drop_last(), cid);
        let d = drop_player(ps.drop_last(), cid);
        if ps.last().info.id != cid {
            assert forall|j: int| 0 <= j < d.push(ps.last()).len() implies #[trigger] d.push(ps.last())[j].info.id
                != cid by {
                if j < d.len() {
                    assert(d.push(ps.last())[j] == d[j]);
                }
            }
        }
    }
}

/// Leaving takes a client out of every lobby.
pub proof fn law_leave_removes_client(ls: Seq<LobbyModel>, cid: u64)
    ensures
        forall|k: int|
            0 <= k < leave_lobbies(ls, cid).len() ==> !#[trigger] has_player(
                leave_lobbies(ls, cid)[k].players,
                cid,
            ),
    decreases ls.len(),
{
    if ls.len() > 0 {
        let rest = ls.drop_first();
        law_leave_removes_client(rest, cid);
        let out = leave_lobbies(ls, cid);
        if !has_player(ls[0].players, cid) {
            assert forall|k: int| 0 <= k < out.len() implies !#[trigger] has_player(out[k].players, cid) by {
                if k > 0 {
                    assert(out[k] == leave_lobbies(rest, cid)[k - 1]);
                }
            }
        } else if drop_player(ls[0].players, cid).len() == 0 {
        } else {
            lemma_drop_removes(ls[0].players, cid);
            assert forall|k: int| 0 <= k < out.len() implies !#[trigger] has_player(out[k].players, cid) by {
                if k > 0 {
                    assert(out[k] == leave_lobbies(rest, cid)[k - 1]);
                } else {
                    assert(out[0].players == drop_player(ls[0].players, cid));
                }
            }
        }
    }
}

/// A lobby that a client leaves without emptying it stays well formed.
proof fn lemma_after_leave_wf(m: LobbyModel, cid: u64)
    requires
        lobby_wf(m),
        has_player(m.players, cid),
        drop_player(m.players, cid).len() > 0,
    ensures
        lobby_wf(after_leave(m, cid)),
{
    let k = choose|k: int| 0 <= k < m.players.len() && #[trigger] m.players[k].info.id == cid;
    lemma_drop_at(m.players, k, cid);
    lemma_sorted_remove(m.players, k);
    let nm = after_leave(m, cid);
    assert(nm.players == m.players.remove(k));
    if m.host_id == cid {
        assert(nm.players[0].info.id == nm.host_id);
    } else {
        let t = choose|t: int| 0 <= t < m.players.len() && #[trigger] m.players[t].info.id == m.host_id;
        assert(t != k);
        let t2 = if t < k { t } else { t - 1 };
        assert(nm.players[t2] == m.players[t]);
    }
}

/// Leaving keeps every lobby that did not hold the client as it was, and
/// every lobby that remains is well formed: a lobby whose host left has a
/// host among its remaining players.
pub proof fn law_leave_keeps_others(ls: Seq<LobbyModel>, cid: u64)
    requires
        forall|i: int| 0 <= i < ls.len() ==> lobby_wf(#[trigger] ls[i]),
    ensures
        forall|k: int| 0 <= k < leave_lobbies(ls, cid).len() ==> lobby_wf(#[trigger] leave_lobbies(ls, cid)[k]),
        forall|i: int|
            0 <= i < ls.len() && !#[trigger] has_player(ls[i].players, cid) ==> leave_lobbies(ls, cid).contains(ls[i]),
    decreases ls.len(),
{
    if ls.len() > 0 {
        let rest = ls.drop_first();
        assert forall|i: int| 0 <= i < rest.len() implies lobby_wf(#[trigger] rest[i]) by {
            assert(rest[i] == ls[i + 1]);
        }
        law_leave_keeps_others(rest, cid);
        let out = leave_lobbies(ls, cid);
        let tail = leave_lobbies(rest, cid);
        assert(lobby_wf(ls[0]));
        if !has_player(ls[0].players, cid) {
            assert(out == seq![ls[0]] + tail);
            assert forall|k: int| 0 <= k < out.len() implies lobby_wf(#[trigger] out[k]) by {
                if k > 0 {
                    assert(out[k] == tail[k - 1]);
                }
            }
            assert forall|i: int| 0 <= i < ls.len() && !#[trigger] has_player(ls[i].players, cid) implies out.contains(
                ls[i],
            ) by {
                if i == 0 {
                    assert(out[0] == ls[0]);
                } else {
                    assert(rest[i - 1] == ls[i]);
                    assert(tail.contains(ls[i]));
                    let t = choose|t: int| 0 <= t < tail.len() && tail[t] == ls[i];
                    assert(out[t + 1] == ls[i]);
                }
            }
        } else if drop_player(ls[0].players, cid).len() == 0 {
            assert(out == tail);
            assert forall|i: int| 0 <= i < ls.len() && !#[trigger] has_player(ls[i].players, cid) implies out.contains(
                ls[i],
            ) by {
                assert(i != 0);
                assert(rest[i - 1] == ls[i]);
            }
        } else {
            lemma_after_leave_wf(ls[0], cid);
            assert(out == seq![after_leave(ls[0], cid)] + tail);
            assert forall|k: int| 0 <= k < out.len() implies lobby_wf(#[trigger] out[k]) by {
                if k > 0 {
                    assert(out[k] == tail[k - 1]);
                }
            }
            assert forall|i: int| 0 <= i < ls.len() && !#[trigger] has_player(ls[i].players, cid) implies out.contains(
                ls[i],
            ) by {
                assert(i != 0);
                assert(rest[i - 1] == ls[i]);
                assert(tail.contains(ls[i]));
                let t = choose|t: int| 0 <= t < tail.len() && tail[t] == ls[i];
                assert(out[t + 1] == ls[i]);
            }
        }
    }
}

/// Joining makes the client a member of the lobby, keeps every other member,
/// and keeps the players ordered.
pub proof fn law_join_makes_member(m: LobbyModel, client: ClientHandle)
    requires
        lobby_wf(m),
    ensures
        has_player(joined(m, client).players, client.id),
        ids_sorted(joined(m, client).players),
        forall|q: LobbyPlayer|
            m.players.contains(q) && q.info.id != client.id ==> joined(m, client).players.contains(q),
{
    let p = joining_player(client, m.players.len() as u8);
    law_upsert(m.players, p);
    let ps = joined(m, client).players;
    assert(ps.contains(p));
    let u = choose|u: int| 0 <= u < ps.len() && ps[u] == p;
    assert(ps[u].info.id == client.id);
}

/// A client that joins a lobby comes in not ready, under its own name, on
/// the team numbered by the player count before the join; whatever the lobby
/// held before, no other entry carries its id. The waiting-room state of the
/// lobby shows it the same way.
pub proof fn law_join_newcomer_not_ready(m: LobbyModel, client: ClientHandle, s: LobbyState)
    requires
        lobby_wf(m),
        is_state_of(s, joined(m, client)),
    ensures
        forall|k: int|
            0 <= k < joined(m, client).players.len() && #[trigger] joined(m, client).players[k].info.id == client.id
                ==> {
                &&& !joined(m, client).players[k].info.ready
                &&& joined(m, client).players[k].info.team == m.players.len()
                &&& joined(m, client).players[k].info.name == client.name
                &&& joined(m, client).players[k].handle == client
            },
        exists|k: int| 0 <= k < s.players@.len() && #[trigger] s.players@[k].id == client.id,
        forall|k: int|
            0 <= k < s.players@.len() && #[trigger] s.players@[k].id == client.id ==> !s.players@[k].ready
                && s.players@[k].team == m.players.len(),
{
    let p = joining_player(client, m.players.len() as u8);
    let ps = joined(m, client).players;
    law_upsert(m.players, p);
    assert(m.players.len() <= 255);
    assert forall|k: int| 0 <= k < ps.len() && #[trigger] ps[k].info.id == client.id implies ps[k] == p by {
        let u = choose|u: int| 0 <= u < ps.len() && ps[u] == p;
        if u != k {
            if u < k {
                assert(ps[u].info.id < ps[k].info.id);
            } else {
                assert(ps[k].info.id < ps[u].info.id);
            }
        }
    }
    let u = choose|u: int| 0 <= u < ps.len() && ps[u] == p;
    assert(s.players@[u] == ps[u].info);
    assert forall|k: int| 0 <= k < s.players@.len() && #[trigger] s.players@[k].id == client.id implies !s.players@[k].ready
        && s.players@[k].team == m.players.len() by {
        assert(s.players@[k] == ps[k].info);
        assert(ps[k] == p);
    }
}

/// The lobby list counts the members of each lobby: the entry of a lobby
/// carries as its player count the number of players in the lobby, which is
/// the number of players its waiting-room state lists.
pub proof fn law_info_counts_members(m: LobbyModel, s: LobbyState)
    requires
        lobby_wf(m),
        is_state_of(s, m),
    ensures
        spec_info(m).players == m.players.len(),
        spec_info(m).players == s.players@.len(),
        spec_info(m).id == s.id,
        spec_info(m).max_players == s.max_players,
{
    assert(m.players.len() <= 255);
}

/// Lobby `m` once client `cid` has set its readiness to `ready`.
pub open spec fn with_ready(m: LobbyModel, cid: u64, ready: bool) -> LobbyModel {
    LobbyModel {
        players: m.players.map_values(
            |p: LobbyPlayer|
                if p.info.id == cid {
                    LobbyPlayer { info: PlayerInfo { ready, ..p.info }, ..p }
                } else {
                    p
                },
        ),
        ..m
    }
}

/// Lobby `m` is hosted by `host_id`, who is among its players.
pub open spec fn hosted_by(m: LobbyModel, host_id: u64) -> bool {
    m.host_id == host_id && has_player(m.players, host_id)
}

/// Ids of the players of all lobbies, lobby after lobby.
pub open spec fn member_ids(ls: Seq<LobbyModel>) -> Seq<u64>
    decreases ls.len(),
{
    if ls.len() == 0 {
        Seq::empty()
    } else {
        member_ids(ls.drop_last()) + ls.last().players.map_values(|p: LobbyPlayer| p.info.id)
    }
}

/// What a game session is started with.
#[derive(Debug)]
pub struct SessionLaunch {
    pub lobby_id: u64,
    /// The players in id order; a player's team in the game is its position.
    pub players: Vec<LobbyPlayer>,
    pub map_id: String,
    pub scripts_dir: String,
    pub assets_dir: String,
}

/// Index of the player with id `cid`, if there is one.
fn player_index(players: &Vec<LobbyPlayer>, cid: u64) -> (r: Option<usize>)
    ensures
        match r {
            Some(k) => k < players@.len() && players@[k as int].info.id == cid,
            None => !has_player(players@, cid),
        },
{
    let n = players.len();
    for k in 0..n
        invariant
            n == players@.len(),
            forall|j: int| 0 <= j < k ==> #[trigger] players@[j].info.id != cid,
    {
        if players[k].info.id == cid {
            return Some(k);
        }
    }
    None
}

impl LobbyManager {
    pub open spec fn wf(&self) -> bool {
        lobbies_wf(self@, self.next_id)
    }

    /// An empty manager; the first lobby gets id 1.
    pub fn new(scripts_dir: String, assets_dir: String) -> (r: LobbyManager)
        ensures
            r.wf(),
            r@ == Seq::<LobbyModel>::empty(),
            r.next_id == 1,
            r.scripts_dir == scripts_dir,
            r.assets_dir == assets_dir,
    {
        let r = LobbyManager { scripts_dir, assets_dir, lobbies: Vec::new(), next_id: 1 };
        assert(r@ =~= Seq::<LobbyModel>::empty());
        r
    }

    /// The entries of all lobbies, in id order.
    pub fn lobby_list(&self) -> (r: Vec<LobbyInfo>)
        ensures
            r@ == self@.map_values(|m: LobbyModel| spec_info(m)),
    {
        let mut out: Vec<LobbyInfo> = Vec::new();
        let n = self.lobbies.len();
        for i in 0..n
            invariant
                n == self.lobbies@.len(),
                out@ == self@.take(i as int).map_values(|m: LobbyModel| spec_info(m)),
        {
            out.push(self.lobbies[i].info());
            assert(self@.take(i + 1).map_values(|m: LobbyModel| spec_info(m)) =~= self@.take(
                i as int,
            ).map_values(|m: LobbyModel| spec_info(m)).push(spec_info(self@[i as int])));
        }
        assert(self@.take(n as int) =~= self@);
        out
    }

    /// Index of the lobby with id `lobby_id`, if there is one.
    fn find_lobby(&self, lobby_id: u64) -> (r: Option<usize>)
        ensures
            match r {
                Some(i) => i < self@.len() && self@[i as int].id == lobby_id,
                None => !has_lobby(self@, lobby_id),
            },
    {
        let n = self.lobbies.len();
        for i in 0..n
            invariant
                n == self@.len(),
                forall|j: int| 0 <= j < i ==> #[trigger] self@[j].id != lobby_id,
        {
            if self.lobbies[i].id == lobby_id {
                return Some(i);
            }
        }
        None
    }

    /// Puts `client` into lobby `lobby_id` and returns the lobby's state.
    /// Fails, leaving everything as it was, when no lobby has that id, when
    /// the lobby already holds `max_players` players, or when its game runs
    /// (checked in that order). A client already in the lobby is put in
    /// again with its new team and readiness cleared.
    pub fn join_lobby(&mut self, lobby_id: u64, client: &ClientHandle) -> (r: Result<LobbyState, String>)
        requires
            old(self).wf(),
        ensures
            final(self).wf(),
            final(self).next_id == old(self).next_id,
            final(self).scripts_dir == old(self).scripts_dir,
            final(self).assets_dir == old(self).assets_dir,
            !has_lobby(old(self)@, lobby_id) ==> (r matches Err(e) && e@ == "Lobby nenalezeno"@
                && final(self)@ == old(self)@),
            forall|i: int|
                0 <= i < old(self)@.len() && #[trigger] old(self)@[i].id == lobby_id ==> {
                    if old(self)@[i].players.len() >= old(self)@[i].max_players {
                        (r matches Err(e) && e@ == "Lobby je plné"@ && final(self)@ == old(self)@)
                    } else if old(self)@[i].in_game {
                        (r matches Err(e) && e@ == "Hra již probíhá"@ && final(self)@ == old(self)@)
                    } else {
                        &&& final(self)@ == old(self)@.update(i, joined(old(self)@[i], *client))
                        &&& (r matches Ok(s) && is_state_of(s, final(self)@[i]))
                    }
                },
    {
        let idx = match self.find_lobby(lobby_id) {
            Some(i) => i,
            None => return Err("Lobby nenalezeno".to_string()),
        };
        let ghost m = self@[idx as int];
        assert(forall|i: int| 0 <= i < self@.len() && #[trigger] self@[i].id == lobby_id ==> i == idx as int);
        if self.lobbies[idx].players.len() as u8 >= self.lobbies[idx].max_players {
            return Err("Lobby je plné".to_string());
        }
        if self.lobbies[idx].in_game {
            return Err("Hra již probíhá".to_string());
        }
        let ghost before = self@;
        let mut lobby = self.lobbies.remove(idx);
        assert(lobby@ == m);
        let team = lobby.players.len() as u8;
        let player = LobbyPlayer {
            info: PlayerInfo { id: client.id, name: client.name.clone(), team, ready: false },
            handle: client.clone(),
        };
        assert(player == joining_player(*client, m.players.len() as u8));
        // Position of the first player whose id is not below the client's.
        let n = lobby.players.len();
        let mut k: usize = 0;
        while k < n && lobby.players[k].info.id < client.id
            invariant
                n == lobby.players@.len(),
                lobby.players@ == m.players,
                k <= n,
                forall|j: int| 0 <= j < k ==> #[trigger] m.players[j].info.id < client.id,
            decreases n - k,
        {
            k = k + 1;
        }
        proof {
            lemma_upsert_at(m.players, player, k as int);
            law_upsert(m.players, player);
        }
        if k < n && lobby.players[k].info.id == client.id {
            lobby.players.remove(k);
            lobby.players.insert(k, player);
            assert(lobby.players@ =~= m.players.update(k as int, player));
        } else {
            lobby.players.insert(k, player);
        }
        assert(lobby@ == joined(m, *client));
        let state = lobby.state();
        self.lobbies.insert(idx, lobby);
        proof {
            assert(self@ =~= before.update(idx as int, joined(m, *client)));
            let nm = joined(m, *client);
            assert(has_player(nm.players, nm.host_id)) by {
                let t = choose|t: int| 0 <= t < m.players.len() && #[trigger] m.players[t].info.id == m.host_id;
                assert(m.players.contains(m.players[t]));
                if m.host_id == client.id {
                    assert(nm.players.contains(player));
                    let u = choose|u: int| 0 <= u < nm.players.len() && nm.players[u] == player;
                    assert(nm.players[u].info.id == m.host_id);
                } else {
                    assert(nm.players.contains(m.players[t]));
                    let u = choose|u: int| 0 <= u < nm.players.len() && nm.players[u] == m.players[t];
                    assert(nm.players[u].info.id == m.host_id);
                }
            }
            assert(lobby_wf(nm));
            assert(lobbies_wf(self@, self.next_id)) by {
                assert forall|i: int| 0 <= i < self@.len() implies lobby_wf(#[trigger] self@[i]) by {
                    if i != idx as int {
                        assert(self@[i] == before[i]);
                    }
                }
            }
        }
        Ok(state)
    }

    /// Removes client `client_id` from every lobby it is in. A lobby the
    /// client leaves empty is dropped. A lobby left by its host gets as host
    /// the remaining player with the smallest id. Returns, in lobby order, the
    /// state of each remaining lobby the client left, after the new host was
    /// chosen; the players listed in it are the ones to tell.
    pub fn leave_lobby(&mut self, client_id: u64) -> (r: Vec<LobbyState>)
        requires
            old(self).wf(),
        ensures
            final(self).wf(),
            final(self).next_id == old(self).next_id,
            final(self).scripts_dir == old(self).scripts_dir,
            final(self).assets_dir == old(self).assets_dir,
            final(self)@ == leave_lobbies(old(self)@, client_id),
            r@.len() == leave_updates(old(self)@, client_id).len(),
            forall|k: int| 0 <= k < r@.len() ==> is_state_of(#[trigger] r@[k], leave_updates(old(self)@, client_id)[k]),
    {
        let ghost old_ls = self@;
        let ghost mut done: Seq<LobbyModel> = Seq::empty();
        let ghost mut j: int = 0;
        let mut out: Vec<LobbyState> = Vec::new();
        let mut i: usize = 0;
        while i < self.lobbies.len()
            invariant
                0 <= j <= old_ls.len(),
                i <= self@.len(),
                self@.len() == i + (old_ls.len() - j),
                old_ls == old(self)@,
                self.next_id == old(self).next_id,
                self.scripts_dir == old(self).scripts_dir,
                self.assets_dir == old(self).assets_dir,
                self@ == self@.take(i as int) + old_ls.skip(j),
                lobbies_wf(self@, self.next_id),
                leave_lobbies(old_ls, client_id) == self@.take(i as int) + leave_lobbies(old_ls.skip(j), client_id),
                leave_updates(old_ls, client_id) == done + leave_updates(old_ls.skip(j), client_id),
                out@.len() == done.len(),
                forall|k: int| 0 <= k < out@.len() ==> is_state_of(#[trigger] out@[k], done[k]),
            decreases self.lobbies@.len() - i,
        {
            let ghost rest = old_ls.skip(j);
            let ghost m = old_ls[j];
            assert(rest[0] == m);
            assert(rest.drop_first() =~= old_ls.skip(j + 1));
            assert(self@[i as int] == m) by {
                assert(self@[i as int] == (self@.take(i as int) + old_ls.skip(j))[i as int]);
            }
            assert(lobby_wf(m));
            // Position of the client in this lobby, if it is there.
            let np = self.lobbies[i].players.len();
            let mut k: usize = 0;
            while k < np && self.lobbies[i].players[k].info.id != client_id
                invariant
                    i < self.lobbies@.len(),
                    np == self.lobbies@[i as int].players@.len(),
                    self.lobbies@[i as int]@ == m,
                    k <= np,
                    forall|t: int| 0 <= t < k ==> #[trigger] m.players[t].info.id != client_id,
                decreases np - k,
            {
                k = k + 1;
            }
            let ghost before = self@;
            let ghost prefix = before.take(i as int);
            if k < np {
                assert(has_player(m.players, client_id));
                proof {
                    lemma_drop_at(m.players, k as int, client_id);
                }
                let mut lobby = self.lobbies.remove(i);
                lobby.players.remove(k);
                assert(lobby@ == without(m, client_id));
                if lobby.players.len() == 0 {
                    proof {
                        assert(self@ =~= prefix + old_ls.skip(j + 1)) by {
                            assert(before.remove(i as int) =~= prefix + old_ls.skip(j + 1));
                        }
                        assert(self@.take(i as int) =~= prefix);
                        assert(leave_lobbies(rest, client_id) == leave_lobbies(old_ls.skip(j + 1), client_id));
                        assert(leave_updates(rest, client_id) == leave_updates(old_ls.skip(j + 1), client_id));
                        assert(lobbies_wf(self@, self.next_id)) by {
                            assert forall|a: int| 0 <= a < self@.len() implies lobby_wf(#[trigger] self@[a]) by {
                                if a < i { assert(self@[a] == before[a]); } else { assert(self@[a] == before[a + 1]); }
                            }
                            assert forall|a: int, b: int| 0 <= a < b < self@.len() implies #[trigger] self@[a].id < #[trigger] self@[b].id by {
                                let a2 = if a < i { a } else { a + 1 };
                                let b2 = if b < i { b } else { b + 1 };
                                assert(self@[a] == before[a2] && self@[b] == before[b2]);
                            }
                            assert forall|a: int| 0 <= a < self@.len() implies #[trigger] self@[a].id < self.next_id by {
                                if a < i { assert(self@[a] == before[a]); } else { assert(self@[a] == before[a + 1]); }
                            }
                        }
                        j = j + 1;
                    }
                } else {
                    if lobby.host_id == client_id {
                        lobby.host_id = lobby.players[0].info.id;
                    }
                    let ghost nm = after_leave(m, client_id);
                    assert(lobby@ == nm);
                    let state = lobby.state();
                    self.lobbies.insert(i, lobby);
                    out.push(state);
                    proof {
                        lemma_after_leave_wf(m, client_id);
                        assert(self@ =~= before.update(i as int, nm));
                        assert(leave_lobbies(rest, client_id) == seq![nm] + leave_lobbies(old_ls.skip(j + 1), client_id));
                        assert(leave_updates(rest, client_id) == seq![nm] + leave_updates(old_ls.skip(j + 1), client_id));
                        assert(self@.take(i as int) =~= prefix);
                        assert(self@.take(i + 1) =~= prefix.push(nm));
                        done = done.push(nm);
                        assert(self@ =~= self@.take(i + 1) + old_ls.skip(j + 1)) by {
                            assert forall|a: int| 0 <= a < self@.len() implies self@[a] == (self@.take(i + 1) + old_ls.skip(j + 1))[a] by {
                                if a > i {
                                    assert(before[a] == (prefix + old_ls.skip(j))[a]);
                                }
                            }
                        }
                        assert(lobbies_wf(self@, self.next_id)) by {
                            assert forall|a: int| 0 <= a < self@.len() implies lobby_wf(#[trigger] self@[a]) by {
                                if a != i { assert(self@[a] == before[a]); }
                            }
                            assert forall|a: int, b: int| 0 <= a < b < self@.len() implies #[trigger] self@[a].id < #[trigger] self@[b].id by {
                                assert(self@[a].id == before[a].id && self@[b].id == before[b].id);
                            }
                            assert forall|a: int| 0 <= a < self@.len() implies #[trigger] self@[a].id < self.next_id by {
                                assert(self@[a].id == before[a].id);
                            }
                        }
                        assert(leave_lobbies(old_ls, client_id) =~= self@.take(i + 1) + leave_lobbies(old_ls.skip(j + 1), client_id));
                        assert(leave_updates(old_ls, client_id) =~= done + leave_updates(old_ls.skip(j + 1), client_id));
                        j = j + 1;
                    }
                    i = i + 1;
                }
            } else {
                proof {
                    assert(!has_player(m.players, client_id));
                    assert(leave_lobbies(rest, client_id) == seq![m] + leave_lobbies(old_ls.skip(j + 1), client_id));
                    assert(leave_updates(rest, client_id) == leave_updates(old_ls.skip(j + 1), client_id));
                    assert(self@.take(i + 1) =~= self@.take(i as int).push(m));
                    assert(self@ =~= self@.take(i + 1) + old_ls.skip(j + 1));
                    assert(leave_lobbies(old_ls, client_id) =~= self@.take(i + 1) + leave_lobbies(old_ls.skip(j + 1), client_id));
                    j = j + 1;
                }
                i = i + 1;
            }
        }
        proof {
            assert(old_ls.skip(j) =~= Seq::<LobbyModel>::empty());
            assert(self@.take(i as int) =~= self@);
            assert(done + Seq::<LobbyModel>::empty() =~= done);
        }
        out
    }

    /// Sets the readiness of client `client_id` in the first lobby it is in,
    /// and returns that lobby's state for its players. `None` when the
    /// client is in no lobby.
    pub fn set_ready(&mut self, client_id: u64, ready: bool) -> (r: Option<LobbyState>)
        requires
            old(self).wf(),
        ensures
            final(self).wf(),
            final(self).next_id == old(self).next_id,
            final(self).scripts_dir == old(self).scripts_dir,
            final(self).assets_dir == old(self).assets_dir,
            forall|i: int|
                0 <= i < old(self)@.len() && #[trigger] has_player(old(self)@[i].players, client_id)
                    && (forall|j: int| 0 <= j < i ==> !has_player(old(self)@[j].players, client_id))
                    ==> {
                    &&& final(self)@ == old(self)@.update(i, with_ready(old(self)@[i], client_id, ready))
                    &&& (r matches Some(s) && is_state_of(s, final(self)@[i]))
                },
            (forall|i: int| 0 <= i < old(self)@.len() ==> !#[trigger] has_player(old(self)@[i].players, client_id))
                ==> (final(self)@ == old(self)@ && r is None),
    {
        let n = self.lobbies.len();
        for i in 0..n
            invariant
                n == self@.len(),
                self@ == old(self)@,
                self.next_id == old(self).next_id,
                self.scripts_dir == old(self).scripts_dir,
                self.assets_dir == old(self).assets_dir,
                lobbies_wf(self@, self.next_id),
                forall|j: int| 0 <= j < i ==> !#[trigger] has_player(self@[j].players, client_id),
        {
            if let Some(k) = player_index(&self.lobbies[i].players, client_id) {
                let ghost before = self@;
                let ghost m = self@[i as int];
                assert(has_player(m.players, client_id)) by {
                    assert(m.players[k as int].info.id == client_id);
                }
                let mut lobby = self.lobbies.remove(i);
                assert(lobby@ == m);
                let mut p = lobby.players.remove(k);
                p.info.ready = ready;
                lobby.players.insert(k, p);
                proof {
                    let nm = with_ready(m, client_id, ready);
                    assert forall|t: int| 0 <= t < m.players.len() && t != k implies #[trigger] m.players[t].info.id
                        != client_id by {
                        if t < k { assert(m.players[t].info.id < m.players[k as int].info.id); }
                        else { assert(m.players[k as int].info.id < m.players[t].info.id); }
                    }
                    assert(lobby@.players =~= nm.players);
                    assert(lobby@ == nm);
                }
                let state = lobby.state();
                self.lobbies.insert(i, lobby);
                proof {
                    let nm = with_ready(m, client_id, ready);
                    assert(self@ =~= before.update(i as int, nm));
                    assert(ids_sorted(nm.players)) by {
                        assert forall|a: int, b: int| 0 <= a < b < nm.players.len() implies #[trigger] nm.players[a].info.id
                            < #[trigger] nm.players[b].info.id by {
                            assert(nm.players[a].info.id == m.players[a].info.id);
                            assert(nm.players[b].info.id == m.players[b].info.id);
                        }
                    }
                    assert(has_player(nm.players, nm.host_id)) by {
                        let t = choose|t: int| 0 <= t < m.players.len() && #[trigger] m.players[t].info.id == m.host_id;
                        assert(nm.players[t].info.id == m.host_id);
                    }
                    assert(lobbies_wf(self@, self.next_id)) by {
                        assert forall|a: int| 0 <= a < self@.len() implies lobby_wf(#[trigger] self@[a]) by {
                            if a != i { assert(self@[a] == before[a]); }
                        }
                        assert forall|a: int, b: int| 0 <= a < b < self@.len() implies #[trigger] self@[a].id < #[trigger] self@[b].id by {
                            assert(self@[a].id == before[a].id && self@[b].id == before[b].id);
                        }
                        assert forall|a: int| 0 <= a < self@.len() implies #[trigger] self@[a].id < self.next_id by {
                            assert(self@[a].id == before[a].id);
                        }
                    }
                    assert forall|i2: int|
                        0 <= i2 < old(self)@.len() && #[trigger] has_player(old(self)@[i2].players, client_id)
                            && (forall|j: int| 0 <= j < i2 ==> !has_player(old(self)@[j].players, client_id))
                        implies i2 == i by {
                        if i2 < i {
                        } else if i2 > i {
                            assert(has_player(old(self)@[i as int].players, client_id));
                        }
                    }
                }
                return Some(state);
            }
        }
        None
    }

    /// Index of the first lobby hosted by `host_id`, if there is one.
    fn find_hosted(&self, host_id: u64) -> (r: Option<usize>)
        ensures
            match r {
                Some(i) => i < self@.len() && hosted_by(self@[i as int], host_id) && forall|j: int|
                    0 <= j < i ==> !#[trigger] hosted_by(self@[j], host_id),
                None => forall|j: int| 0 <= j < self@.len() ==> !#[trigger] hosted_by(self@[j], host_id),
            },
    {
        let n = self.lobbies.len();
        for i in 0..n
            invariant
                n == self@.len(),
                forall|j: int| 0 <= j < i ==> !#[trigger] hosted_by(self@[j], host_id),
        {
            if self.lobbies[i].host_id == host_id {
                if let Some(k) = player_index(&self.lobbies[i].players, host_id) {
                    assert(has_player(self@[i as int].players, host_id)) by {
                        assert(self@[i as int].players[k as int].info.id == host_id);
                    }
                    return Some(i);
                }
            }
        }
        None
    }

    /// Marks the first lobby hosted by `host_id` as playing and returns what
    /// its game session starts with. Fails, changing nothing, when no lobby
    /// is hosted by `host_id`, or when that lobby's game already runs.
    pub fn start_game(&mut self, host_id: u64, scripts_dir: String, assets_dir: String) -> (r: Result<
        SessionLaunch,
        String,
    >)
        requires
            old(self).wf(),
        ensures
            final(self).wf(),
            final(self).next_id == old(self).next_id,
            final(self).scripts_dir == old(self).scripts_dir,
            final(self).assets_dir == old(self).assets_dir,
            (forall|i: int| 0 <= i < old(self)@.len() ==> !#[trigger] hosted_by(old(self)@[i], host_id)) ==> (
            r matches Err(e) && e@ == "Nejste host žádného lobby"@ && final(self)@ == old(self)@),
            forall|i: int|
                0 <= i < old(self)@.len() && #[trigger] hosted_by(old(self)@[i], host_id) && (forall|j: int|
                    0 <= j < i ==> !hosted_by(old(self)@[j], host_id)) ==> {
                    if old(self)@[i].in_game {
                        r matches Err(e) && e@ == "Hra již probíhá"@ && final(self)@ == old(self)@
                    } else {
                        &&& final(self)@ == old(self)@.update(i, LobbyModel { in_game: true, ..old(self)@[i] })
                        &&& r matches Ok(l)
                        &&& l.lobby_id == old(self)@[i].id
                        &&& l.players@ == old(self)@[i].players
                        &&& l.map_id == old(self)@[i].map_id
                        &&& l.scripts_dir == scripts_dir
                        &&& l.assets_dir == assets_dir
                    }
                },
    {
        let i = match self.find_hosted(host_id) {
            Some(i) => i,
            None => {
                return Err("Nejste host žádného lobby".to_string());
            },
        };
        proof {
            assert forall|i2: int|
                0 <= i2 < old(self)@.len() && #[trigger] hosted_by(old(self)@[i2], host_id)
                    && (forall|j: int| 0 <= j < i2 ==> !hosted_by(old(self)@[j], host_id))
                implies i2 == i by {
                if i2 > i {
                    assert(hosted_by(old(self)@[i as int], host_id));
                }
            }
        }
        if self.lobbies[i].in_game {
            return Err("Hra již probíhá".to_string());
        }
        let ghost before = self@;
        let players = self.lobbies[i].players.clone();
        assert(players@ =~= before[i as int].players);
        let map_id = self.lobbies[i].map_id.clone();
        let lobby_id = self.lobbies[i].id;
        let mut lobby = self.lobbies.remove(i);
        lobby.in_game = true;
        self.lobbies.insert(i, lobby);
        proof {
            assert(self@ =~= before.update(i as int, LobbyModel { in_game: true, ..before[i as int] }));
            assert(lobbies_wf(self@, self.next_id)) by {
                assert forall|a: int| 0 <= a < self@.len() implies lobby_wf(#[trigger] self@[a]) by {
                    if a != i { assert(self@[a] == before[a]); }
                }
                assert forall|a: int, b: int| 0 <= a < b < self@.len() implies #[trigger] self@[a].id < #[trigger] self@[b].id by {
                    assert(self@[a].id == before[a].id && self@[b].id == before[b].id);
                }
                assert forall|a: int| 0 <= a < self@.len() implies #[trigger] self@[a].id < self.next_id by {
                    assert(self@[a].id == before[a].id);
                }
            }
        }
        Ok(SessionLaunch { lobby_id, players, map_id, scripts_dir, assets_dir })
    }

    /// Ids of everyone in a lobby, lobby after lobby: the recipients of a
    /// message sent to all lobbies.
    pub fn broadcast_all(&self) -> (r: Vec<u64>)
        ensures
            r@ == member_ids(self@),
    {
        let mut out: Vec<u64> = Vec::new();
        let n = self.lobbies.len();
        for i in 0..n
            invariant
                n == self@.len(),
                out@ == member_ids(self@.take(i as int)),
        {
            let np = self.lobbies[i].players.len();
            let ghost base = out@;
            for k in 0..np
                invariant
                    n == self@.len(),
                    i < n,
                    np == self@[i as int].players.len(),
                    out@ == base + self@[i as int].players.take(k as int).map_values(|p: LobbyPlayer| p.info.id),
            {
                out.push(self.lobbies[i].players[k].info.id);
                let ghost ps = self@[i as int].players;
                assert(ps.take(k + 1).map_values(|p: LobbyPlayer| p.info.id) =~= ps.take(k as int).map_values(
                    |p: LobbyPlayer| p.info.id,
                ).push(ps[k as int].info.id));
            }
            assert(self@[i as int].players.take(np as int) =~= self@[i as int].players);
            assert(self@.take(i + 1).drop_last() =~= self@.take(i as int));
            assert(out@ =~= member_ids(self@.take(i + 1)));
        }
        assert(self@.take(n as int) =~= self@);
        out
    }

    /// The lobby whose running game receives the input of client
    /// `client_id`: the first lobby that holds the client and plays.
    pub fn deliver_input(&self, client_id: u64) -> (r: Option<u64>)
        ensures
            match r {
                Some(id) => exists|i: int|
                    0 <= i < self@.len() && #[trigger] self@[i].id == id && has_player(self@[i].players, client_id)
                        && self@[i].in_game && (forall|j: int|
                        0 <= j < i ==> !(has_player(self@[j].players, client_id) && self@[j].in_game)),
                None => forall|i: int|
                    0 <= i < self@.len() ==> !(#[trigger] has_player(self@[i].players, client_id) && self@[i].in_game),
            },
    {
        let n = self.lobbies.len();
        for i in 0..n
            invariant
                n == self@.len(),
                forall|j: int| 0 <= j < i ==> !(#[trigger] has_player(self@[j].players, client_id) && self@[j].in_game),
        {
            if self.lobbies[i].in_game {
                if let Some(k) = player_index(&self.lobbies[i].players, client_id) {
                    assert(has_player(self@[i as int].players, client_id)) by {
                        assert(self@[i as int].players[k as int].info.id == client_id);
                    }
                    assert(self@[i as int].id == self.lobbies[i as int].id);
                    return Some(self.lobbies[i].id);
                }
            }
        }
        None
    }

    /// Creates a lobby hosted by `host` and returns its state. The new lobby
    /// gets the next id and comes last.
    pub fn create_lobby(
        &mut self,
        host: &ClientHandle,
        name: String,
        max_players: u8,
        map_id: String,
    ) -> (r: LobbyState)
        requires
            old(self).wf(),
            old(self).next_id < u64::MAX,
        ensures
            final(self).wf(),
            final(self).next_id == old(self).next_id + 1,
            final(self)@ == old(self)@.push(
                created_lobby(old(self).next_id, *host, name, max_players, map_id),
            ),
            is_state_of(r, final(self)@.last()),
            !has_lobby(old(self)@, old(self).next_id),
            final(self).scripts_dir == old(self).scripts_dir,
            final(self).assets_dir == old(self).assets_dir,
    {
        let id = self.next_id;
        self.next_id = self.next_id + 1;
        let mut players: Vec<LobbyPlayer> = Vec::new();
        players.push(
            LobbyPlayer {
                info: PlayerInfo { id: host.id, name: host.name.clone(), team: 0, ready: false },
                handle: host.clone(),
            },
        );
        let lobby = Lobby {
            id,
            name,
            map_id,
            max_players,
            players,
            host_id: host.id,
            in_game: false,
        };
        let state = lobby.state();
        let ghost before = self@;
        self.lobbies.push(lobby);
        proof {
            assert(self@ =~= before.push(lobby@));
            assert(lobby@.players =~= created_lobby(id, *host, lobby.name, max_players, lobby.map_id).players);
            assert(lobby_wf(lobby@)) by {
                assert(lobby@.players[0].info.id == host.id);
            }
        }
        state
    }
}

} // verus!
