//! The client's lobby screen as a state machine: what each message from the
//! server does to the list of lobbies or to the waiting room.
use vstd::prelude::*;
use vstd::string::StrSliceExecFns;

use crate::msg::{LobbyInfo, LobbyState};

verus! {

/// Most chat lines a waiting room keeps after a chat message.
pub const CHAT_LOG_MAX: usize = 30;

/// What the lobby screen shows.
pub enum LobbyView {
    /// The lobbies on the server.
    List { lobbies: Vec<LobbyInfo>, selected: Option<usize>, create_name: String, status_msg: String },
    /// The waiting room of the lobby the player is in.
    Waiting { state: LobbyState, my_id: u64, ready: bool, chat_input: String, chat_log: Vec<String> },
}

/// A message from the server, as far as the lobby screen reads it.
pub enum LobbyEvent {
    Hello { player_id: u64 },
    LobbyList { lobbies: Vec<LobbyInfo> },
    LobbyJoined { lobby: LobbyState },
    LobbyUpdated { lobby: LobbyState },
    LobbyLeft,
    ChatMsg { from: String, text: String },
    Error { msg: String },
    /// The game of the lobby starts (the base position that comes with it
    /// is kept by the caller).
    GameStart { map_id: String, your_team: u8, tick_rate: u8, map_tiles: Vec<u8>, map_w: u32, map_h: u32 },
    /// Anything else; the screen ignores it.
    Other,
}

/// The input field that receives typed text.
#[derive(Clone, Copy, PartialEq, Eq, Debug, Structural)]
pub enum FocusField {
    /// No field is focused.
    Unfocused,
    Host,
    Port,
    PlayerName,
    CreateName,
    Chat,
}

/// A game start the server announced, waiting to be taken up by the screen.
pub struct PendingStart {
    pub map_id: String,
    pub your_team: u8,
    pub tick_rate: u8,
    pub map_tiles: Vec<u8>,
    pub map_w: u32,
    pub map_h: u32,
}

/// The lobby screen: the player's id on the server, what it shows, the
/// connection form, the focused field and an announced game start.
pub struct LobbyScreenState {
    pub my_id: u64,
    pub view: LobbyView,
    pub connect_host: String,
    pub connect_port: String,
    pub player_name: String,
    pub focus: FocusField,
    pub game_start: Option<PendingStart>,
}

/// Decimal digits of `n`, most significant first.
pub open spec fn decimal(n: nat) -> Seq<char>
    decreases n,
{
    let d = ((n % 10) + '0' as nat) as char;
    if n < 10 {
        seq![d]
    } else {
        decimal(n / 10).push(d)
    }
}

/// The decimal digit `d`.
fn digit_str(d: usize) -> (r: &'static str)
    requires
        d < 10,
    ensures
        r@ == seq![((d as nat) + '0' as nat) as char],
{
    if d == 0 {
        proof {
            reveal_strlit("0");
        }
        assert("0"@ =~= seq![((d as nat) + '0' as nat) as char]);
        "0"
    } else if d == 1 {
        proof {
            reveal_strlit("1");
        }
        assert("1"@ =~= seq![((d as nat) + '0' as nat) as char]);
        "1"
    } else if d == 2 {
        proof {
            reveal_strlit("2");
        }
        assert("2"@ =~= seq![((d as nat) + '0' as nat) as char]);
        "2"
    } else if d == 3 {
        proof {
            reveal_strlit("3");
        }
        assert("3"@ =~= seq![((d as nat) + '0' as nat) as char]);
        "3"
    } else if d == 4 {
        proof {
            reveal_strlit("4");
        }
        assert("4"@ =~= seq![((d as nat) + '0' as nat) as char]);
        "4"
    } else if d == 5 {
        proof {
            reveal_strlit("5");
        }
        assert("5"@ =~= seq![((d as nat) + '0' as nat) as char]);
        "5"
    } else if d == 6 {
        proof {
            reveal_strlit("6");
        }
        assert("6"@ =~= seq![((d as nat) + '0' as nat) as char]);
        "6"
    } else if d == 7 {
        proof {
            reveal_strlit("7");
        }
        assert("7"@ =~= seq![((d as nat) + '0' as nat) as char]);
        "7"
    } else if d == 8 {
        proof {
            reveal_strlit("8");
        }
        assert("8"@ =~= seq![((d as nat) + '0' as nat) as char]);
        "8"
    } else {
        proof {
            reveal_strlit("9");
        }
        assert("9"@ =~= seq![((d as nat) + '0' as nat) as char]);
        "9"
    }
}

/// `n` in decimal.
fn usize_to_decimal(n: usize) -> (r: String)
    ensures
        r@ == decimal(n as nat),
    decreases n,
{
    if n < 10 {
        digit_str(n).to_string()
    } else {
        let mut s = usize_to_decimal(n / 10);
        s.append(digit_str(n % 10));
        s
    }
}

/// `a` followed by `b`.
fn joined(a: &str, b: &str) -> (r: String)
    ensures
        r@ == a@ + b@,
{
    let mut s = a.to_string();
    s.append(b);
    s
}

/// The ASCII digits of `s`, in order.
pub open spec fn digits_only(s: Seq<char>) -> Seq<char>
    decreases s.len(),
{
    if s.len() == 0 {
        s
    } else if '0' <= s.last() && s.last() <= '9' {
        digits_only(s.drop_last()).push(s.last())
    } else {
        digits_only(s.drop_last())
    }
}

/// `s` without its last character (an empty `s` stays empty).
pub open spec fn without_last(s: Seq<char>) -> Seq<char> {
    if s.len() > 0 {
        s.drop_last()
    } else {
        s
    }
}

/// Appends the ASCII digits of `text` to `s`.
fn push_digits(s: &mut String, text: &str)
    ensures
        final(s)@ == old(s)@ + digits_only(text@),
{
    let n = text.unicode_len();
    for i in 0..n
        invariant
            n == text@.len(),
            s@ == old(s)@ + digits_only(text@.take(i as int)),
    {
        let c = text.get_char(i);
        assert(text@.take(i + 1).drop_last() =~= text@.take(i as int));
        assert(text@.take(i + 1).last() == c);
        if '0' <= c && c <= '9' {
            let one = text.substring_char(i, i + 1);
            assert(one@ =~= seq![c]);
            s.append(one);
            assert(s@ =~= old(s)@ + digits_only(text@.take(i + 1)));
        }
    }
    assert(text@.take(n as int) =~= text@);
}

/// Every listed player is ready.
fn all_ready(players: &Vec<crate::msg::PlayerInfo>) -> (r: bool)
    ensures
        r == forall|k: int| 0 <= k < players@.len() ==> #[trigger] players@[k].ready,
{
    let n = players.len();
    for k in 0..n
        invariant
            n == players@.len(),
            forall|q: int| 0 <= q < k ==> #[trigger] players@[q].ready,
    {
        if !players[k].ready {
            return false;
        }
    }
    true
}

/// Drops the last character of `s`, if it has one.
fn pop_char(s: &mut String)
    ensures
        final(s)@ == without_last(old(s)@),
{
    let n = s.as_str().unicode_len();
    if n > 0 {
        let t = s.as_str().substring_char(0, n - 1).to_string();
        *s = t;
        assert(s@ =~= old(s)@.drop_last());
    }
}

impl LobbyScreenState {
    /// The screen before connecting: an empty list, "Moje lobby" as the name
    /// of a lobby to create, no status, the form filled with the local host,
    /// the default port and "Hráč", no field focused.
    pub fn new() -> (r: LobbyScreenState)
        ensures
            r.my_id == 0,
            r.connect_host@ == "127.0.0.1"@,
            r.connect_port@ == "7777"@,
            r.player_name@ == "Hráč"@,
            r.focus == FocusField::Unfocused,
            r.game_start is None,
            r.view matches LobbyView::List { lobbies, selected, create_name, status_msg } && lobbies@.len() == 0
                && selected is None && create_name@ == "Moje lobby"@ && status_msg@.len() == 0,
    {
        let status_msg = String::new();
        LobbyScreenState {
            my_id: 0,
            view: LobbyView::List {
                lobbies: Vec::new(),
                selected: None,
                create_name: "Moje lobby".to_string(),
                status_msg,
            },
            connect_host: "127.0.0.1".to_string(),
            connect_port: "7777".to_string(),
            player_name: "Hráč".to_string(),
            focus: FocusField::Unfocused,
            game_start: None,
        }
    }

    /// Applies a message from the server. Returns whether the screen asks
    /// the server for the lobby list (after leaving a lobby).
    pub fn handle_server_msg(&mut self, ev: LobbyEvent) -> (r: bool)
        ensures
            r == (ev is LobbyLeft),
            final(self).connect_host == old(self).connect_host,
            final(self).connect_port == old(self).connect_port,
            final(self).player_name == old(self).player_name,
            final(self).focus == old(self).focus,
            !(ev is GameStart) ==> final(self).game_start == old(self).game_start,
            match ev {
                LobbyEvent::Hello { player_id } => final(self).my_id == player_id && final(self).view == old(self).view,
                LobbyEvent::LobbyList { lobbies } => final(self).my_id == old(self).my_id && match old(self).view {
                    LobbyView::List { selected, create_name, .. } => final(self).view matches LobbyView::List {
                        lobbies: l,
                        selected: s,
                        create_name: c,
                        status_msg: m,
                    } && l == lobbies && s == selected && c == create_name && m@ == "Nalezeno "@ + decimal(
                        lobbies@.len(),
                    ) + " lobby"@,
                    _ => final(self).view == old(self).view,
                },
                LobbyEvent::LobbyJoined { lobby } => final(self).my_id == old(self).my_id && (final(self).view matches LobbyView::Waiting { state, my_id, ready, chat_input, chat_log } && state == lobby
                    && my_id == old(self).my_id && !ready && chat_input@.len() == 0 && chat_log@.len() == 1
                    && chat_log@[0]@ == "Připojeno do lobby."@),
                LobbyEvent::LobbyUpdated { lobby } => final(self).my_id == old(self).my_id && match old(self).view {
                    LobbyView::Waiting { my_id, ready, chat_input, chat_log, .. } => final(self).view
                        == LobbyView::Waiting { state: lobby, my_id, ready, chat_input, chat_log },
                    _ => final(self).view == old(self).view,
                },
                LobbyEvent::LobbyLeft => final(self).my_id == old(self).my_id && (final(self).view matches LobbyView::List { lobbies, selected, create_name, status_msg } && lobbies@.len()
                    == 0 && selected is None && create_name@ == "Moje lobby"@ && status_msg@
                    == "Opustili jste lobby."@),
                LobbyEvent::ChatMsg { from, text } => final(self).my_id == old(self).my_id && match old(self).view {
                    LobbyView::Waiting { state, my_id, ready, chat_input, chat_log } => final(self).view matches LobbyView::Waiting {
                        state: s2,
                        my_id: m2,
                        ready: r2,
                        chat_input: i2,
                        chat_log: l2,
                    } && s2 == state && m2 == my_id && r2 == ready && i2 == chat_input && l2@.len() == chat_after_view(
                        chat_log@,
                        from@ + ": "@ + text@,
                    ).len() && (forall|k: int|
                        0 <= k < l2@.len() ==> #[trigger] l2@[k]@ == chat_after_view(chat_log@, from@ + ": "@ + text@)[k]),
                    _ => final(self).view == old(self).view,
                },
                LobbyEvent::Error { msg } => final(self).my_id == old(self).my_id && match old(self).view {
                    LobbyView::List { lobbies, selected, create_name, .. } => final(self).view matches LobbyView::List {
                        lobbies: l,
                        selected: s,
                        create_name: c,
                        status_msg: m,
                    } && l == lobbies && s == selected && c == create_name && m@ == "Chyba: "@ + msg@,
                    LobbyView::Waiting { state, my_id, ready, chat_input, chat_log } => final(self).view matches LobbyView::Waiting {
                        state: s2,
                        my_id: m2,
                        ready: r2,
                        chat_input: i2,
                        chat_log: l2,
                    } && s2 == state && m2 == my_id && r2 == ready && i2 == chat_input && l2@.len() == chat_log@.len()
                        + 1 && (forall|k: int| 0 <= k < chat_log@.len() ==> #[trigger] l2@[k] == chat_log@[k])
                        && l2@.last()@ == "[CHYBA] "@ + msg@,
                },
                LobbyEvent::GameStart { map_id, your_team, tick_rate, map_tiles, map_w, map_h } => {
                    &&& final(self).my_id == old(self).my_id
                    &&& final(self).view == old(self).view
                    &&& final(self).game_start matches Some(g)
                    &&& g.map_id == map_id && g.your_team == your_team && g.tick_rate == tick_rate
                    &&& g.map_tiles == map_tiles && g.map_w == map_w && g.map_h == map_h
                },
                LobbyEvent::Other => final(self).my_id == old(self).my_id && final(self).view == old(self).view,
            },
    {
        let mut view = LobbyView::List {
            lobbies: Vec::new(),
            selected: None,
            create_name: String::new(),
            status_msg: String::new(),
        };
        match ev {
            LobbyEvent::Hello { player_id } => {
                self.my_id = player_id;
                false
            },
            LobbyEvent::LobbyList { lobbies } => {
                std::mem::swap(&mut view, &mut self.view);
                match view {
                    LobbyView::List { selected, create_name, .. } => {
                        let count = usize_to_decimal(lobbies.len());
                        let first = joined("Nalezeno ", count.as_str());
                        let status_msg = joined(first.as_str(), " lobby");
                        self.view = LobbyView::List { lobbies, selected, create_name, status_msg };
                    },
                    other => {
                        self.view = other;
                    },
                }
                false
            },
            LobbyEvent::LobbyJoined { lobby } => {
                let mut chat_log: Vec<String> = Vec::new();
                chat_log.push("Připojeno do lobby.".to_string());
                self.view = LobbyView::Waiting {
                    state: lobby,
                    my_id: self.my_id,
                    ready: false,
                    chat_input: String::new(),
                    chat_log,
                };
                false
            },
            LobbyEvent::LobbyUpdated { lobby } => {
                std::mem::swap(&mut view, &mut self.view);
                match view {
                    LobbyView::Waiting { my_id, ready, chat_input, chat_log, .. } => {
                        self.view = LobbyView::Waiting { state: lobby, my_id, ready, chat_input, chat_log };
                    },
                    other => {
                        self.view = other;
                    },
                }
                false
            },
            LobbyEvent::LobbyLeft => {
                self.view = LobbyView::List {
                    lobbies: Vec::new(),
                    selected: None,
                    create_name: "Moje lobby".to_string(),
                    status_msg: "Opustili jste lobby.".to_string(),
                };
                true
            },
            LobbyEvent::ChatMsg { from, text } => {
                std::mem::swap(&mut view, &mut self.view);
                match view {
                    LobbyView::Waiting { state, my_id, ready, chat_input, mut chat_log } => {
                        let head = joined(from.as_str(), ": ");
                        let line = joined(head.as_str(), text.as_str());
                        let ghost before = chat_log@;
                        chat_log.push(line);
                        if chat_log.len() > CHAT_LOG_MAX {
                            chat_log.remove(0);
                        }
                        proof {
                            let want = chat_after_view(before, from@ + ": "@ + text@);
                            assert(chat_log@.len() == want.len());
                            assert forall|k: int| 0 <= k < chat_log@.len() implies #[trigger] chat_log@[k]@ == want[k] by {
                                let l = before.map_values(|s: String| s@).push(from@ + ": "@ + text@);
                                if before.len() + 1 > CHAT_LOG_MAX {
                                    assert(want[k] == l[k + 1]);
                                    if k + 1 < before.len() {
                                        assert(chat_log@[k] == before[k + 1]);
                                    }
                                } else {
                                    if k < before.len() {
                                        assert(chat_log@[k] == before[k]);
                                    }
                                }
                            }
                        }
                        self.view = LobbyView::Waiting { state, my_id, ready, chat_input, chat_log };
                    },
                    other => {
                        self.view = other;
                    },
                }
                false
            },
            LobbyEvent::Error { msg } => {
                std::mem::swap(&mut view, &mut self.view);
                match view {
                    LobbyView::List { lobbies, selected, create_name, .. } => {
                        let status_msg = joined("Chyba: ", msg.as_str());
                        self.view = LobbyView::List { lobbies, selected, create_name, status_msg };
                    },
                    LobbyView::Waiting { state, my_id, ready, chat_input, mut chat_log } => {
                        chat_log.push(joined("[CHYBA] ", msg.as_str()));
                        self.view = LobbyView::Waiting { state, my_id, ready, chat_input, chat_log };
                    },
                }
                false
            },
            LobbyEvent::GameStart { map_id, your_team, tick_rate, map_tiles, map_w, map_h } => {
                self.game_start = Some(PendingStart { map_id, your_team, tick_rate, map_tiles, map_w, map_h });
                false
            },
            LobbyEvent::Other => false,
        }
    }
}

impl LobbyScreenState {
    /// Typed text goes to the focused field: the port keeps only digits;
    /// the lobby name field exists in the list, the chat field in the waiting
    /// room, and text for the other one is dropped.
    pub fn type_text(&mut self, text: &str)
        ensures
            final(self).my_id == old(self).my_id,
            final(self).focus == old(self).focus,
            final(self).game_start == old(self).game_start,
            final(self).connect_host@ == (if old(self).focus == FocusField::Host {
                old(self).connect_host@ + text@
            } else {
                old(self).connect_host@
            }),
            final(self).connect_port@ == (if old(self).focus == FocusField::Port {
                old(self).connect_port@ + digits_only(text@)
            } else {
                old(self).connect_port@
            }),
            final(self).player_name@ == (if old(self).focus == FocusField::PlayerName {
                old(self).player_name@ + text@
            } else {
                old(self).player_name@
            }),
            match old(self).view {
                LobbyView::List { lobbies, selected, create_name, status_msg } => if old(self).focus
                    == FocusField::CreateName {
                    final(self).view matches LobbyView::List { lobbies: l, selected: s, create_name: c, status_msg: m }
                        && l == lobbies && s == selected && c@ == create_name@ + text@ && m == status_msg
                } else {
                    final(self).view == old(self).view
                },
                LobbyView::Waiting { state, my_id, ready, chat_input, chat_log } => if old(self).focus
                    == FocusField::Chat {
                    final(self).view matches LobbyView::Waiting { state: s, my_id: m, ready: r, chat_input: i, chat_log: l }
                        && s == state && m == my_id && r == ready && i@ == chat_input@ + text@ && l == chat_log
                } else {
                    final(self).view == old(self).view
                },
            },
    {
        match self.focus {
            FocusField::Host => self.connect_host.append(text),
            FocusField::Port => push_digits(&mut self.connect_port, text),
            FocusField::PlayerName => self.player_name.append(text),
            FocusField::CreateName => {
                let mut view = LobbyView::List {
                    lobbies: Vec::new(),
                    selected: None,
                    create_name: String::new(),
                    status_msg: String::new(),
                };
                std::mem::swap(&mut view, &mut self.view);
                match view {
                    LobbyView::List { lobbies, selected, mut create_name, status_msg } => {
                        create_name.append(text);
                        self.view = LobbyView::List { lobbies, selected, create_name, status_msg };
                    },
                    other => {
                        self.view = other;
                    },
                }
            },
            FocusField::Chat => {
                let mut view = LobbyView::List {
                    lobbies: Vec::new(),
                    selected: None,
                    create_name: String::new(),
                    status_msg: String::new(),
                };
                std::mem::swap(&mut view, &mut self.view);
                match view {
                    LobbyView::Waiting { state, my_id, ready, mut chat_input, chat_log } => {
                        chat_input.append(text);
                        self.view = LobbyView::Waiting { state, my_id, ready, chat_input, chat_log };
                    },
                    other => {
                        self.view = other;
                    },
                }
            },
            FocusField::Unfocused => {},
        }
    }

    /// Backspace drops the last character of the focused field.
    pub fn backspace(&mut self)
        ensures
            final(self).my_id == old(self).my_id,
            final(self).focus == old(self).focus,
            final(self).game_start == old(self).game_start,
            final(self).connect_host@ == (if old(self).focus == FocusField::Host {
                without_last(old(self).connect_host@)
            } else {
                old(self).connect_host@
            }),
            final(self).connect_port@ == (if old(self).focus == FocusField::Port {
                without_last(old(self).connect_port@)
            } else {
                old(self).connect_port@
            }),
            final(self).player_name@ == (if old(self).focus == FocusField::PlayerName {
                without_last(old(self).player_name@)
            } else {
                old(self).player_name@
            }),
            match old(self).view {
                LobbyView::List { lobbies, selected, create_name, status_msg } => if old(self).focus
                    == FocusField::CreateName {
                    final(self).view matches LobbyView::List { lobbies: l, selected: s, create_name: c, status_msg: m }
                        && l == lobbies && s == selected && c@ == without_last(create_name@) && m == status_msg
                } else {
                    final(self).view == old(self).view
                },
                LobbyView::Waiting { state, my_id, ready, chat_input, chat_log } => if old(self).focus
                    == FocusField::Chat {
                    final(self).view matches LobbyView::Waiting { state: s, my_id: m, ready: r, chat_input: i, chat_log: l }
                        && s == state && m == my_id && r == ready && i@ == without_last(chat_input@) && l == chat_log
                } else {
                    final(self).view == old(self).view
                },
            },
    {
        match self.focus {
            FocusField::Host => pop_char(&mut self.connect_host),
            FocusField::Port => pop_char(&mut self.connect_port),
            FocusField::PlayerName => pop_char(&mut self.player_name),
            FocusField::CreateName => {
                let mut view = LobbyView::List {
                    lobbies: Vec::new(),
                    selected: None,
                    create_name: String::new(),
                    status_msg: String::new(),
                };
                std::mem::swap(&mut view, &mut self.view);
                match view {
                    LobbyView::List { lobbies, selected, mut create_name, status_msg } => {
                        pop_char(&mut create_name);
                        self.view = LobbyView::List { lobbies, selected, create_name, status_msg };
                    },
                    other => {
                        self.view = other;
                    },
                }
            },
            FocusField::Chat => {
                let mut view = LobbyView::List {
                    lobbies: Vec::new(),
                    selected: None,
                    create_name: String::new(),
                    status_msg: String::new(),
                };
                std::mem::swap(&mut view, &mut self.view);
                match view {
                    LobbyView::Waiting { state, my_id, ready, mut chat_input, chat_log } => {
                        pop_char(&mut chat_input);
                        self.view = LobbyView::Waiting { state, my_id, ready, chat_input, chat_log };
                    },
                    other => {
                        self.view = other;
                    },
                }
            },
            FocusField::Unfocused => {},
        }
    }

    /// Enter in the focused chat field of the waiting room: the typed line,
    /// if any, is taken out to be sent, leaving the field empty.
    pub fn submit_chat(&mut self) -> (r: Option<String>)
        ensures
            final(self).my_id == old(self).my_id,
            final(self).focus == old(self).focus,
            final(self).game_start == old(self).game_start,
            final(self).connect_host == old(self).connect_host,
            final(self).connect_port == old(self).connect_port,
            final(self).player_name == old(self).player_name,
            match old(self).view {
                LobbyView::Waiting { state, my_id, ready, chat_input, chat_log } => if old(self).focus
                    == FocusField::Chat && chat_input@.len() > 0 {
                    (r matches Some(t) && t@ == chat_input@) && (final(self).view matches LobbyView::Waiting {
                        state: s,
                        my_id: m,
                        ready: rd,
                        chat_input: i,
                        chat_log: l,
                    } && s == state && m == my_id && rd == ready && i@.len() == 0 && l == chat_log)
                } else {
                    r is None && final(self).view == old(self).view
                },
                _ => r is None && final(self).view == old(self).view,
            },
    {
        if self.focus != FocusField::Chat {
            return None;
        }
        let mut view = LobbyView::List {
            lobbies: Vec::new(),
            selected: None,
            create_name: String::new(),
            status_msg: String::new(),
        };
        std::mem::swap(&mut view, &mut self.view);
        match view {
            LobbyView::Waiting { state, my_id, ready, chat_input, chat_log } => {
                if chat_input.as_str().unicode_len() == 0 {
                    self.view = LobbyView::Waiting { state, my_id, ready, chat_input, chat_log };
                    None
                } else {
                    self.view = LobbyView::Waiting { state, my_id, ready, chat_input: String::new(), chat_log };
                    Some(chat_input)
                }
            },
            other => {
                self.view = other;
                None
            },
        }
    }

    /// The ready button of the waiting room: flips the player's readiness and
    /// gives the new value to send; `None` outside the waiting room.
    pub fn toggle_ready(&mut self) -> (r: Option<bool>)
        ensures
            final(self).my_id == old(self).my_id,
            final(self).focus == old(self).focus,
            final(self).game_start == old(self).game_start,
            final(self).connect_host == old(self).connect_host,
            final(self).connect_port == old(self).connect_port,
            final(self).player_name == old(self).player_name,
            match old(self).view {
                LobbyView::Waiting { state, my_id, ready, chat_input, chat_log } => r == Some(!ready) && final(self).view
                    == LobbyView::Waiting { state, my_id, ready: !ready, chat_input, chat_log },
                _ => r is None && final(self).view == old(self).view,
            },
    {
        let mut view = LobbyView::List {
            lobbies: Vec::new(),
            selected: None,
            create_name: String::new(),
            status_msg: String::new(),
        };
        std::mem::swap(&mut view, &mut self.view);
        match view {
            LobbyView::Waiting { state, my_id, ready, chat_input, chat_log } => {
                self.view = LobbyView::Waiting { state, my_id, ready: !ready, chat_input, chat_log };
                Some(!ready)
            },
            other => {
                self.view = other;
                None
            },
        }
    }

    /// Whether the start button of the waiting room works: only for the
    /// host, and only when every player of the lobby is ready.
    pub fn can_start(&self) -> (r: bool)
        ensures
            r == match self.view {
                LobbyView::Waiting { state, my_id, .. } => my_id == state.host_id && forall|k: int|
                    0 <= k < state.players@.len() ==> #[trigger] state.players@[k].ready,
                _ => false,
            },
    {
        match &self.view {
            LobbyView::Waiting { state, my_id, .. } => {
                if *my_id != state.host_id {
                    return false;
                }
                all_ready(&state.players)
            },
            _ => false,
        }
    }

    /// The lobby the join button asks for: the selected row of the list, if
    /// a row is selected and still listed.
    pub fn selected_lobby(&self) -> (r: Option<u64>)
        ensures
            r == match self.view {
                LobbyView::List { lobbies, selected, .. } => match selected {
                    Some(i) => if i < lobbies@.len() {
                        Some(lobbies@[i as int].id)
                    } else {
                        None
                    },
                    None => None,
                },
                _ => None,
            },
    {
        match &self.view {
            LobbyView::List { lobbies, selected, .. } => match selected {
                Some(i) => {
                    if *i < lobbies.len() {
                        Some(lobbies[*i].id)
                    } else {
                        None
                    }
                },
                None => None,
            },
            _ => None,
        }
    }
}

/// What Escape does on the lobby screen.
#[derive(Clone, Copy, PartialEq, Eq, Debug, Structural)]
pub enum EscapeAction {
    /// Ask the server to leave the lobby.
    LeaveLobby,
    /// Go back to the main menu.
    MainMenu,
}

impl LobbyScreenState {
    /// Escape leaves the lobby from the waiting room and goes back to the
    /// main menu from the list.
    pub fn on_escape(&self) -> (r: EscapeAction)
        ensures
            r == (if self.view is Waiting {
                EscapeAction::LeaveLobby
            } else {
                EscapeAction::MainMenu
            }),
    {
        match &self.view {
            LobbyView::Waiting { .. } => EscapeAction::LeaveLobby,
            _ => EscapeAction::MainMenu,
        }
    }
}

/// The views of the chat lines after line `line` is added.
pub open spec fn chat_after_view(log: Seq<String>, line: Seq<char>) -> Seq<Seq<char>> {
    let l = log.map_values(|s: String| s@).push(line);
    if l.len() > CHAT_LOG_MAX {
        l.drop_first()
    } else {
        l
    }
}

/// A chat message never makes the waiting room keep more than
/// `CHAT_LOG_MAX` lines, and the newest line is the message. (An error
/// line is added without dropping one, so the bound holds for chat lines.)
pub proof fn law_chat_log_bounded(log: Seq<String>, line: Seq<char>)
    requires
        log.len() <= CHAT_LOG_MAX,
    ensures
        chat_after_view(log, line).len() <= CHAT_LOG_MAX,
        chat_after_view(log, line).last() == line,
{
}

} // verus!
