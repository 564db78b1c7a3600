use vstd::prelude::*;
use crate::game::Game;
use crate::game::spec_act_entries;
use crate::net::Message;
use crate::team::Team;

verus! {

/// An identifier for a lobby, shared by the client and the server.
pub type LobbyID = u16;

/// How long after its last heartbeat a player still counts as connected,
/// in milliseconds.
pub const HEARTBEAT_WINDOW_MILLIS: u64 = 15000;

/// How long the server waits for an explicit turn, in milliseconds, before
/// it synthesizes one from the currently expressed intents.
pub const STALL_WINDOW_MILLIS: u64 = 7000;

/// The reasons a lobby request can fail.
#[derive(PartialEq, Eq, Structural, Debug, Copy, Clone)]
pub enum LobbyErrorKind {
    /// The lobby is already active; nobody can join any more.
    AlreadyActive,
    /// The session already occupies a slot.
    AlreadyJoined,
    /// No slot is left to assign.
    NoAvailableSlot,
    /// The game has not started yet.
    NotStarted,
    /// The session occupies no slot in this lobby.
    NotInLobby,
    /// No lobby exists under the requested identifier.
    LobbyNotFound,
}

/// A tagged error concerning a [`Lobby`], carrying a human-readable reason.
#[derive(PartialEq, Eq, Structural, Debug, Copy, Clone)]
pub struct LobbyError(pub LobbyErrorKind);

impl LobbyError {
    /// The human-readable reason for this error.
    pub fn reason(&self) -> (s: String)
        ensures
            s@ == self.spec_reason(),
    {
        let text: &str = match self.0 {
            LobbyErrorKind::AlreadyActive => "cannot join an active game",
            LobbyErrorKind::AlreadyJoined => "already in lobby",
            LobbyErrorKind::NoAvailableSlot => "no available slots in lobby",
            LobbyErrorKind::NotStarted => "game not yet started",
            LobbyErrorKind::NotInLobby => "player not in lobby",
            LobbyErrorKind::LobbyNotFound => "lobby does not exist",
        };
        text.to_owned()
    }

    /// The reason text, as a mathematical value.
    pub open spec fn spec_reason(self) -> Seq<char> {
        match self.0 {
            LobbyErrorKind::AlreadyActive => "cannot join an active game"@,
            LobbyErrorKind::AlreadyJoined => "already in lobby"@,
            LobbyErrorKind::NoAvailableSlot => "no available slots in lobby"@,
            LobbyErrorKind::NotStarted => "game not yet started"@,
            LobbyErrorKind::NotInLobby => "player not in lobby"@,
            LobbyErrorKind::LobbyNotFound => "lobby does not exist"@,
        }
    }
}

/// A player in a lobby, used in online lobbies only.
#[derive(PartialEq, Eq, Structural, Debug, Copy, Clone)]
pub struct Player {
    /// The player's team.
    pub team: Team,
    /// Whether the player wants to rematch or not.
    pub rematch: bool,
    /// Last heartbeat, in milliseconds.
    pub last_heartbeat: u64,
}

impl Player {
    fn new(team: Team, heartbeat: u64) -> (p: Player)
        ensures
            p == (Player { team, rematch: false, last_heartbeat: heartbeat }),
    {
        Player { team, rematch: false, last_heartbeat: heartbeat }
    }
}

/// Loadout methods.
#[derive(PartialEq, Eq, Structural, Debug, Clone)]
pub enum LobbySort {
    /// A single-device game.
    Local,
    /// Versus AI.
    LocalAI,
    /// Online, under a lobby identifier.
    Online(u16),
}

impl Default for LobbySort {
    /// The default loadout: a local game.
    fn default() -> (s: LobbySort)
        ensures
            s == LobbySort::Local,
    {
        LobbySort::Local
    }
}

/// Settings for a lobby.
#[derive(PartialEq, Eq, Structural, Debug, Clone)]
pub struct LobbySettings {
    /// The lobby's sort.
    pub sort: LobbySort,
}

impl LobbySettings {
    /// Create a new instance of [`LobbySettings`].
    pub fn new(sort: LobbySort) -> (s: LobbySettings)
        ensures
            s == (LobbySettings { sort }),
    {
        LobbySettings { sort }
    }

    /// Returns the [`LobbySort`].
    pub fn sort(&self) -> (s: &LobbySort)
        ensures
            s == self.sort,
    {
        &self.sort
    }

    /// Sets the [`LobbySort`].
    pub fn set_sort(&mut self, sort: LobbySort)
        ensures
            final(self).sort == sort,
    {
        self.sort = sort;
    }
}

/// No session id occupies two slots.
pub open spec fn spec_session_keys_unique(ps: Seq<(String, Player)>) -> bool {
    forall|i: int, j: int| 0 <= i < j < ps.len() ==> ps[i].0@ != ps[j].0@
}

/// Whether some slot is keyed by this session id.
pub open spec fn spec_has_session(ps: Seq<(String, Player)>, sid: Seq<char>) -> bool {
    exists|i: int| 0 <= i < ps.len() && ps[i].0@ == sid
}

/// The index of the first slot keyed by this session id, if any.
pub open spec fn spec_find_session(ps: Seq<(String, Player)>, sid: Seq<char>) -> Option<int>
    decreases ps.len(),
{
    if ps.len() == 0 {
        None
    } else if ps[0].0@ == sid {
        Some(0)
    } else {
        match spec_find_session(ps.drop_first(), sid) {
            Some(i) => Some(i + 1),
            None => None,
        }
    }
}

/// Whether a player's last heartbeat is within the freshness window of the
/// given timestamp.
pub open spec fn spec_connected(p: Player, timestamp: u64) -> bool {
    timestamp - p.last_heartbeat < HEARTBEAT_WINDOW_MILLIS
}

/// Every seated player wants a rematch.
pub open spec fn spec_all_rematch(ps: Seq<(String, Player)>) -> bool {
    forall|i: int| 0 <= i < ps.len() ==> (#[trigger] ps[i]).1.rematch
}

/// A two-seat matchmaking and session container. It owns one [`Game`] and
/// gates whether that game may be advanced authoritatively: the lobby is
/// "waiting" while unfilled slots remain and becomes "active", exactly once,
/// when the second player joins.
pub struct Lobby {
    /// The active [`Game`] of this lobby.
    pub game: Game,
    /// Seated players, keyed by session id (unique keys).
    pub players: Vec<(String, Player)>,
    /// The not-yet-assigned player records, handed out first-come.
    pub player_slots: Vec<Player>,
    /// When the lobby was created, in milliseconds.
    pub first_heartbeat: u64,
    /// The lobby's settings.
    pub settings: LobbySettings,
}

impl Lobby {
    /// Well-formedness: the game is well formed, session ids are unique, and
    /// seats plus unfilled slots always total two.
    pub open spec fn wf(self) -> bool {
        &&& self.game.wf()
        &&& spec_session_keys_unique(self.players@)
        &&& self.players@.len() + self.player_slots@.len() == 2
    }

    /// Instantiates the [`Lobby`] with the given settings: a fresh arena
    /// game, no seated players, and two unfilled slots (Red first).
    pub fn new(settings: LobbySettings, first_heartbeat: u64) -> (l: Lobby)
        ensures
            l.wf(),
            l.players@.len() == 0,
            l.player_slots@.len() == 2,
            l.player_slots@[0] == (Player { team: Team::Red, rematch: false, last_heartbeat: 0 }),
            l.player_slots@[1] == (Player { team: Team::Blue, rematch: false, last_heartbeat: 0 }),
            l.first_heartbeat == first_heartbeat,
            l.settings == settings,
            l.game.history().len() == 0,
            l.game.queued_turns@.len() == 0,
            l.game.ticks == 0,
            l.game.bugs@.len() == 12,
            l.game.capture_progress == 0,
    {
        let mut player_slots: Vec<Player> = Vec::new();
        player_slots.push(Player::new(Team::Red, 0));
        player_slots.push(Player::new(Team::Blue, 0));
        Lobby {
            game: Game::default(),
            players: Vec::new(),
            player_slots,
            first_heartbeat,
            settings,
        }
    }

    /// Determines if all player slots are taken: the lobby is active.
    pub fn all_ready(&self) -> (r: bool)
        ensures
            r == (self.player_slots@.len() == 0),
    {
        self.player_slots.len() == 0
    }

    /// Includes a new session id into the lobby, assigning it the next
    /// unfilled slot stamped with the joining timestamp. Fails with
    /// `AlreadyActive` if both slots are taken, and with `AlreadyJoined` if
    /// the session already holds a slot; a failed join changes nothing.
    pub fn join_player(&mut self, session_id: String, timestamp: u64) -> (r: Result<
        (),
        LobbyError,
    >)
        requires
            old(self).wf(),
        ensures
            final(self).wf(),
            old(self).player_slots@.len() == 0 ==> (r == Err::<(), LobbyError>(
                LobbyError(LobbyErrorKind::AlreadyActive),
            ) && *final(self) == *old(self)),
            old(self).player_slots@.len() > 0 && spec_has_session(
                old(self).players@,
                session_id@,
            ) ==> (r == Err::<(), LobbyError>(LobbyError(LobbyErrorKind::AlreadyJoined)) && *final(self) == *old(self)),
            old(self).player_slots@.len() > 0 && !spec_has_session(
                old(self).players@,
                session_id@,
            ) ==> (r == Ok::<(), LobbyError>(()) && final(self).players@ == old(self).players@.push(
                (
                    session_id,
                    Player {
                        team: old(self).player_slots@[0].team,
                        rematch: old(self).player_slots@[0].rematch,
                        last_heartbeat: timestamp,
                    },
                ),
            ) && final(self).player_slots@ == old(self).player_slots@.drop_first() && final(self).game == old(self).game && final(self).first_heartbeat == old(self).first_heartbeat
                && final(self).settings == old(self).settings),
    {
        if self.player_slots.len() == 0 {
            return Err(LobbyError(LobbyErrorKind::AlreadyActive));
        }
        if self.holds_session(&session_id) {
            return Err(LobbyError(LobbyErrorKind::AlreadyJoined));
        }
        let mut player: Player = self.player_slots.remove(0);
        player.last_heartbeat = timestamp;
        let ghost pre: Seq<(String, Player)> = self.players@;
        self.players.push((session_id, player));
        proof {
            assert(old(self).player_slots@.remove(0) =~= old(self).player_slots@.drop_first());
            assert forall|i: int, j: int|
                0 <= i < j < self.players@.len() implies self.players@[i].0@
                != self.players@[j].0@ by {
                if j < pre.len() {
                    assert(self.players@[i] == pre[i] && self.players@[j] == pre[j]);
                } else {
                    assert(self.players@[i] == pre[i]);
                    assert(!spec_has_session(pre, self.players@[j].0@));
                }
            }
        }
        Ok(())
    }

    /// Whether a slot is keyed by this session id.
    fn holds_session(&self, session_id: &String) -> (r: bool)
        ensures
            r == spec_has_session(self.players@, session_id@),
    {
        let n: usize = self.players.len();
        let mut i: usize = 0;
        while i < n
            invariant
                0 <= i <= n,
                n == self.players@.len(),
                forall|k: int| 0 <= k < i ==> (#[trigger] self.players@[k]).0@ != session_id@,
            decreases n - i,
        {
            if self.players[i].0.eq(session_id) {
                return true;
            }
            i = i + 1;
        }
        false
    }

    /// The index of the slot keyed by this session id, if any.
    fn find_session(&self, session_id: &String) -> (r: Option<usize>)
        ensures
            r matches Some(i) ==> (0 <= i < self.players@.len() && self.players@[i as int].0@
                == session_id@ && spec_find_session(self.players@, session_id@) == Some(i as int)),
            r is None ==> !spec_has_session(self.players@, session_id@),
    {
        let n: usize = self.players.len();
        let mut i: usize = 0;
        proof {
            assert(self.players@.skip(0) =~= self.players@);
        }
        while i < n
            invariant
                0 <= i <= n,
                n == self.players@.len(),
                forall|k: int| 0 <= k < i ==> (#[trigger] self.players@[k]).0@ != session_id@,
                spec_find_session(self.players@, session_id@) == (match spec_find_session(
                    self.players@.skip(i as int),
                    session_id@,
                ) {
                    Some(j) => Some(j + i),
                    None => None::<int>,
                }),
            decreases n - i,
        {
            proof {
                assert(self.players@.skip(i as int)[0] == self.players@[i as int]);
                assert(self.players@.skip(i as int).drop_first() =~= self.players@.skip(
                    i as int + 1,
                ));
            }
            if self.players[i].0.eq(session_id) {
                return Some(i);
            }
            i = i + 1;
        }
        proof {
            assert(self.players@.skip(n as int) =~= Seq::<(String, Player)>::empty());
        }
        None
    }

    /// Executes a [`Message`] for the player holding this session id,
    /// refreshing that player's heartbeat to the call timestamp. Fails with
    /// `NotStarted` before the lobby is active and with `NotInLobby` for an
    /// unknown session; a failed call changes nothing.
    pub fn act_player(&mut self, session_id: String, message: Message, timestamp: u64) -> (r:
        Result<(), LobbyError>)
        requires
            old(self).wf(),
        ensures
            final(self).wf(),
            old(self).player_slots@.len() > 0 ==> (r == Err::<(), LobbyError>(
                LobbyError(LobbyErrorKind::NotStarted),
            ) && *final(self) == *old(self)),
            old(self).player_slots@.len() == 0 && !spec_has_session(
                old(self).players@,
                session_id@,
            ) ==> (r == Err::<(), LobbyError>(LobbyError(LobbyErrorKind::NotInLobby)) && *final(self) == *old(self)),
            old(self).player_slots@.len() == 0 && spec_has_session(
                old(self).players@,
                session_id@,
            ) ==> (r == Ok::<(), LobbyError>(()) && (spec_find_session(
                old(self).players@,
                session_id@,
            ) matches Some(i) && final(self).players@ == old(self).players@.update(
                i,
                (
                    old(self).players@[i].0,
                    Player {
                        team: old(self).players@[i].1.team,
                        rematch: old(self).players@[i].1.rematch,
                        last_heartbeat: timestamp,
                    },
                ),
            ) && final(self).game.bugs@ == (match message {
                Message::Move(t) => spec_act_entries(
                    old(self).game.bugs@,
                    t@.impulse_intents,
                    old(self).players@[i].1.team,
                ),
                _ => old(self).game.bugs@,
            }) && final(self).game.props == old(self).game.props && final(self).game.ticks == old(self).game.ticks && final(self).game.turns == old(self).game.turns && final(self).game.queued_turns == old(self).game.queued_turns && final(self).game.capture_radius
                == old(self).game.capture_radius && final(self).game.capture_progress == old(self).game.capture_progress)) && final(self).player_slots == old(self).player_slots
                && final(self).first_heartbeat == old(self).first_heartbeat && final(self).settings
                == old(self).settings,
    {
        if self.player_slots.len() > 0 {
            return Err(LobbyError(LobbyErrorKind::NotStarted));
        }
        match self.find_session(&session_id) {
            Some(i) => {
                let player: Player = self.players[i].1;
                self.game.act_player(&player, message);
                let key_player: (String, Player) = self.players.remove(i);
                let refreshed: Player = Player {
                    team: key_player.1.team,
                    rematch: key_player.1.rematch,
                    last_heartbeat: timestamp,
                };
                self.players.insert(i, (key_player.0, refreshed));
                proof {
                    assert(self.players@ =~= old(self).players@.update(
                        i as int,
                        (
                            old(self).players@[i as int].0,
                            Player {
                                team: old(self).players@[i as int].1.team,
                                rematch: old(self).players@[i as int].1.rematch,
                                last_heartbeat: timestamp,
                            },
                        ),
                    ));
                    assert forall|a: int, b: int|
                        0 <= a < b < self.players@.len() implies self.players@[a].0@
                        != self.players@[b].0@ by {
                        assert(self.players@[a].0@ == old(self).players@[a].0@);
                        assert(self.players@[b].0@ == old(self).players@[b].0@);
                    }
                }
                Ok(())
            },
            None => Err(LobbyError(LobbyErrorKind::NotInLobby)),
        }
    }

    /// Requests a rematch for the active game; returns whether every seated
    /// player has now asked for one. Fails with `NotStarted` before the
    /// lobby is active and with `NotInLobby` for an unknown session.
    pub fn request_rematch(&mut self, session_id: String) -> (r: Result<bool, LobbyError>)
        requires
            old(self).wf(),
        ensures
            final(self).wf(),
            old(self).player_slots@.len() > 0 ==> (r == Err::<bool, LobbyError>(
                LobbyError(LobbyErrorKind::NotStarted),
            ) && *final(self) == *old(self)),
            old(self).player_slots@.len() == 0 && !spec_has_session(
                old(self).players@,
                session_id@,
            ) ==> (r == Err::<bool, LobbyError>(LobbyError(LobbyErrorKind::NotInLobby)) && *final(self) == *old(self)),
            old(self).player_slots@.len() == 0 && spec_has_session(
                old(self).players@,
                session_id@,
            ) ==> (spec_find_session(old(self).players@, session_id@) matches Some(i) && final(self).players@ == old(self).players@.update(
                i,
                (
                    old(self).players@[i].0,
                    Player {
                        team: old(self).players@[i].1.team,
                        rematch: true,
                        last_heartbeat: old(self).players@[i].1.last_heartbeat,
                    },
                ),
            ) && r == Ok::<bool, LobbyError>(spec_all_rematch(final(self).players@)) && final(self).game == old(self).game && final(self).player_slots == old(self).player_slots && final(self).first_heartbeat == old(self).first_heartbeat && final(self).settings == old(self).settings),
    {
        if self.player_slots.len() > 0 {
            return Err(LobbyError(LobbyErrorKind::NotStarted));
        }
        match self.find_session(&session_id) {
            Some(i) => {
                let key_player: (String, Player) = self.players.remove(i);
                let updated: Player = Player {
                    team: key_player.1.team,
                    rematch: true,
                    last_heartbeat: key_player.1.last_heartbeat,
                };
                self.players.insert(i, (key_player.0, updated));
                proof {
                    assert(self.players@ =~= old(self).players@.update(
                        i as int,
                        (
                            old(self).players@[i as int].0,
                            Player {
                                team: old(self).players@[i as int].1.team,
                                rematch: true,
                                last_heartbeat: old(self).players@[i as int].1.last_heartbeat,
                            },
                        ),
                    ));
                    assert forall|a: int, b: int|
                        0 <= a < b < self.players@.len() implies self.players@[a].0@
                        != self.players@[b].0@ by {
                        assert(self.players@[a].0@ == old(self).players@[a].0@);
                        assert(self.players@[b].0@ == old(self).players@[b].0@);
                    }
                }
                let n: usize = self.players.len();
                let mut all: bool = true;
                let mut k: usize = 0;
                while k < n
                    invariant
                        0 <= k <= n,
                        n == self.players@.len(),
                        all == (forall|t: int|
                            0 <= t < k ==> (#[trigger] self.players@[t]).1.rematch),
                    decreases n - k,
                {
                    if !self.players[k].1.rematch {
                        all = false;
                    }
                    k = k + 1;
                }
                Ok(all)
            },
            None => Err(LobbyError(LobbyErrorKind::NotInLobby)),
        }
    }

    /// Determines if the game is finished.
    pub fn finished(&self) -> (r: bool)
        requires
            self.wf(),
        ensures
            r == (self.game.capture_progress >= self.game.bugs@.len()
                || self.game.capture_progress <= -(self.game.bugs@.len() as int)),
    {
        self.game.result().is_some()
    }

    /// Determines if the game is local (`true`) or online.
    pub fn is_local(&self) -> (r: bool)
        ensures
            r == !(self.settings.sort matches LobbySort::Online(_)),
    {
        match self.settings.sort {
            LobbySort::Online(_) => false,
            _ => true,
        }
    }

    /// Returns `true` for [`LobbySort::LocalAI`].
    pub fn has_ai(&self) -> (r: bool)
        ensures
            r == (self.settings.sort == LobbySort::LocalAI),
    {
        match self.settings.sort {
            LobbySort::LocalAI => true,
            _ => false,
        }
    }

    /// Determines whether or not the given session id is in this lobby.
    pub fn has_session_id(&self, session_id: Option<&String>) -> (r: bool)
        ensures
            r == (match session_id {
                Some(s) => spec_has_session(self.players@, s@),
                None => false,
            }),
    {
        match session_id {
            Some(s) => self.holds_session(s),
            None => false,
        }
    }

    /// Returns the seated players.
    pub fn players(&self) -> (r: &Vec<(String, Player)>)
        ensures
            r == &self.players,
    {
        &self.players
    }

    /// The applied turns of the owned game.
    pub fn turns(&self) -> (r: &Vec<crate::turn::Turn>)
        ensures
            r == &self.game.turns,
    {
        self.game.turns()
    }

    /// Checks if any player has sent a heartbeat within the freshness window
    /// of the given timestamp.
    pub fn any_connected(&self, timestamp: u64) -> (r: bool)
        ensures
            r == exists|i: int|
                0 <= i < self.players@.len() && spec_connected(
                    (#[trigger] self.players@[i]).1,
                    timestamp,
                ),
    {
        let n: usize = self.players.len();
        let mut i: usize = 0;
        while i < n
            invariant
                0 <= i <= n,
                n == self.players@.len(),
                forall|k: int|
                    0 <= k < i ==> !spec_connected((#[trigger] self.players@[k]).1, timestamp),
            decreases n - i,
        {
            let hb: u64 = self.players[i].1.last_heartbeat;
            if timestamp <= hb || timestamp - hb < HEARTBEAT_WINDOW_MILLIS {
                return true;
            }
            i = i + 1;
        }
        false
    }

    /// Whether the game has waited so long for an explicit turn that the
    /// server should synthesize one from the currently expressed intents:
    /// the stall-detection window has passed since the last beat.
    pub fn should_auto_advance(&self, now: u64) -> (r: bool)
        ensures
            r == (now - (if self.game.history().len() == 0 {
                self.first_heartbeat as int
            } else {
                self.game.history().last().timestamp as int
            }) > STALL_WINDOW_MILLIS),
    {
        let beat: u64 = self.last_beat();
        now > beat && now - beat > STALL_WINDOW_MILLIS
    }

    /// The timestamp of the most recent applied turn, or `first_heartbeat`
    /// if no turn has been applied yet; compared against "now" to decide
    /// whether the server should synthesize a turn on stall.
    pub fn last_beat(&self) -> (r: u64)
        ensures
            self.game.history().len() == 0 ==> r == self.first_heartbeat,
            self.game.history().len() > 0 ==> r == self.game.history().last().timestamp,
    {
        match self.game.last_turn() {
            Some(turn) => turn.timestamp,
            None => self.first_heartbeat,
        }
    }
}

} // verus!

