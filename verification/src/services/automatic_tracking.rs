//! Automatic play tracking: which bound games are running, and the per-game
//! state machine that starts a session on fresh input in the foreground,
//! stops it after a long inactivity or when the process exits, and honours a
//! manual stop.
use vstd::prelude::*;
use crate::domain::automatic_tracking::{
    AutomaticTrackingState, AutomaticTrackingStatus, EnabledBinding, ProcessObservation,
};
use crate::domain::play_session::{SessionEndReason, TrackingSource};
use crate::repositories::game_process::normalized_path;
use crate::text::trimmed;
use std::collections::{HashMap, HashSet};

verus! {

broadcast use vstd::std_specs::hash::group_hash_axioms;

/// How long an automatic session may go without input, in milliseconds.
pub const AFK_GRACE_MS: u64 = 600_000;

/// What the tracker remembers about one game between ticks.
#[derive(Debug, Clone, Copy)]
pub struct GameRuntime {
    pub state: Option<AutomaticTrackingState>,
    pub last_input_tick: u32,
    /// When the game was first seen without new input, in milliseconds.
    pub inactive_since: Option<u64>,
    pub was_foreground: bool,
}

/// The record of a game the tracker has not seen yet.
pub open spec fn fresh_runtime() -> GameRuntime {
    GameRuntime { state: None, last_input_tick: 0, inactive_since: None, was_foreground: false }
}

/// A session change the tracker asks for.
#[derive(Debug, Clone, Copy, PartialEq, Eq, Structural)]
pub enum TrackingAction {
    Start(i64),
    Stop(i64, SessionEndReason),
}

/// The tracker's memory: one record per game seen, and the games whose
/// automatic session the user stopped by hand.
pub struct AutomaticTrackingRuntime {
    games: HashMap<i64, GameRuntime>,
    suppressed: HashSet<i64>,
}

impl AutomaticTrackingRuntime {
    /// The record of a game, if the tracker has seen it.
    pub closed spec fn game(&self, id: i64) -> Option<GameRuntime> {
        if self.games@.contains_key(id) {
            Some(self.games@[id])
        } else {
            None
        }
    }

    /// Whether the user stopped this game's automatic session by hand.
    pub closed spec fn is_suppressed(&self, id: i64) -> bool {
        self.suppressed@.contains(id)
    }

    /// A tracker that has seen nothing.
    pub fn new() -> (r: AutomaticTrackingRuntime)
        ensures
            forall|id: i64| #[trigger] r.game(id) is None && !r.is_suppressed(id),
    {
        AutomaticTrackingRuntime { games: HashMap::new(), suppressed: HashSet::new() }
    }

    /// Stop starting this game automatically until its process is gone.
    pub fn suppress(&mut self, game_id: i64)
        ensures
            final(self).is_suppressed(game_id),
            forall|id: i64| id != game_id ==> #[trigger] final(self).is_suppressed(id) == old(self).is_suppressed(id),
            forall|id: i64| #[trigger] final(self).game(id) == old(self).game(id),
    {
        self.suppressed.insert(game_id);
    }

    /// The state the tracker shows for a game.
    pub fn state(&self, game_id: i64) -> (r: Option<AutomaticTrackingState>)
        ensures
            r == match self.game(game_id) {
                Some(g) => g.state,
                None => None,
            },
    {
        match self.games.get(&game_id) {
            Some(g) => g.state,
            None => None,
        }
    }

    /// The record of a game, or a fresh one.
    fn record(&self, game_id: i64) -> (r: GameRuntime)
        ensures
            r == record_or_fresh(self.game(game_id)),
    {
        match self.games.get(&game_id) {
            Some(g) => *g,
            None => GameRuntime { state: None, last_input_tick: 0, inactive_since: None, was_foreground: false },
        }
    }

    /// The ids of the games the tracker has a record of, each once.
    fn game_ids(&self) -> (r: Vec<i64>)
        ensures
            r@.no_duplicates(),
            forall|id: i64| self.game(id) is Some <==> r@.contains(id),
    {
        let mut ids: Vec<i64> = Vec::new();
        for k in it: self.games.keys()
            invariant
                ids@.len() == it.index(),
                forall|j: int| 0 <= j < it.index() ==> ids@[j] == *it.seq()[j],
                it.seq().unref().to_set() == self.games@.dom(),
                it.seq().len() == self.games@.dom().len(),
                ids@.len() == self.games@.dom().len() ==> ids@.to_set() == self.games@.dom(),
        {
            ids.push(*k);
            proof {
                if ids@.len() == self.games@.dom().len() {
                    assert(ids@ =~= it.seq().unref());
                }
            }
        }
        proof {
            assert(ids@.len() == self.games@.dom().len());
            assert forall|id: i64| self.game(id) is Some <==> ids@.contains(id) by {
                assert(ids@.to_set().contains(id) == ids@.contains(id));
            }
        }
        ids
    }

    /// Replace (or add) the record of a game.
    fn put(&mut self, game_id: i64, runtime: GameRuntime)
        ensures
            final(self).game(game_id) == Some(runtime),
            forall|id: i64| id != game_id ==> #[trigger] final(self).game(id) == old(self).game(id),
            forall|id: i64| #[trigger] final(self).is_suppressed(id) == old(self).is_suppressed(id),
    {
        self.games.insert(game_id, runtime);
    }
}

/// Whether the tracker saw new input in the game since the last tick: the
/// game is in the foreground now and was before, and the system's last-input
/// tick moved.
pub open spec fn new_input(g: GameRuntime, foreground: bool, input_tick: u32) -> bool {
    foreground && g.was_foreground && g.last_input_tick != 0 && input_tick != 0 && input_tick
        != g.last_input_tick
}

/// The active session is this game's automatic one.
pub open spec fn owns_automatic(active: Option<(i64, TrackingSource)>, game_id: i64) -> bool {
    active == Some((game_id, TrackingSource::Automatic))
}

/// One tick of one running game: its new record and the change it asks for.
pub open spec fn step(
    g: GameRuntime,
    suppressed: bool,
    game_id: i64,
    foreground: bool,
    input_tick: u32,
    active: Option<(i64, TrackingSource)>,
    now_ms: u64,
) -> (GameRuntime, Option<TrackingAction>) {
    if suppressed {
        (GameRuntime { state: Some(AutomaticTrackingState::Suppressed), ..g }, None)
    } else {
        let fresh = new_input(g, foreground, input_tick);
        let seen = GameRuntime {
            last_input_tick: if foreground {
                input_tick
            } else {
                g.last_input_tick
            },
            was_foreground: foreground,
            ..g
        };
        if owns_automatic(active, game_id) {
            if fresh {
                (
                    GameRuntime {
                        inactive_since: None,
                        state: Some(AutomaticTrackingState::Tracking),
                        ..seen
                    },
                    None,
                )
            } else {
                let since = match g.inactive_since {
                    Some(t) => t,
                    None => now_ms,
                };
                if now_ms >= since && now_ms - since >= AFK_GRACE_MS {
                    (
                        GameRuntime {
                            inactive_since: None,
                            state: Some(AutomaticTrackingState::Afk),
                            ..seen
                        },
                        Some(TrackingAction::Stop(game_id, SessionEndReason::Afk)),
                    )
                } else {
                    (GameRuntime { inactive_since: Some(since), ..seen }, None)
                }
            }
        } else if active is None && fresh {
            (seen, Some(TrackingAction::Start(game_id)))
        } else {
            (
                GameRuntime {
                    state: Some(
                        if seen.state == Some(AutomaticTrackingState::Afk) {
                            AutomaticTrackingState::Afk
                        } else {
                            AutomaticTrackingState::WaitingForActivity
                        },
                    ),
                    ..seen
                },
                None,
            )
        }
    }
}

/// The record of a game, or a fresh one.
pub open spec fn record_or_fresh(r: Option<GameRuntime>) -> GameRuntime {
    match r {
        Some(g) => g,
        None => fresh_runtime(),
    }
}

impl AutomaticTrackingRuntime {
    /// Start of a tick: forget the manual stops of games that are no longer
    /// running.
    pub fn begin_tick(&mut self, running: &Vec<i64>)
        ensures
            forall|id: i64| #[trigger] final(self).is_suppressed(id) == (old(self).is_suppressed(id) && running@.contains(id)),
            forall|id: i64| #[trigger] final(self).game(id) == old(self).game(id),
    {
        let mut kept: HashSet<i64> = HashSet::new();
        let n = running.len();
        let mut i: usize = 0;
        while i < n
            invariant
                i <= n == running@.len(),
                forall|id: i64| #[trigger] kept@.contains(id) == (self.suppressed@.contains(id)
                    && running@.take(i as int).contains(id)),
            decreases n - i,
        {
            let id = running[i];
            let ghost before = kept@;
            if self.suppressed.contains(&id) {
                kept.insert(id);
            }
            proof {
                let ps = running@.take(i as int);
                let t = running@.take(i as int + 1);
                assert(t =~= ps.push(id));
                assert forall|x: i64| #[trigger] t.contains(x) == (ps.contains(x) || x == id) by {
                    if t.contains(x) {
                        let k = choose|k: int| 0 <= k < t.len() && t[k] == x;
                        if k < ps.len() {
                            assert(ps[k] == x);
                        }
                    }
                    if ps.contains(x) {
                        let k = choose|k: int| 0 <= k < ps.len() && ps[k] == x;
                        assert(t[k] == x);
                    }
                    if x == id {
                        assert(t[i as int] == x);
                    }
                }
            }
            i = i + 1;
        }
        assert(running@.take(n as int) =~= running@);
        self.suppressed = kept;
    }

    /// One running game's tick: update its record and return the session
    /// change it asks for. A requested start takes effect only once the
    /// caller reports it with `started`.
    pub fn observe_game(
        &mut self,
        game_id: i64,
        foreground: bool,
        input_tick: u32,
        active: Option<(i64, TrackingSource)>,
        now_ms: u64,
    ) -> (r: Option<TrackingAction>)
        ensures
            ({
                let (g, a) = step(
                    record_or_fresh(old(self).game(game_id)),
                    old(self).is_suppressed(game_id),
                    game_id,
                    foreground,
                    input_tick,
                    active,
                    now_ms,
                );
                final(self).game(game_id) == Some(g) && r == a
            }),
            ({
                let prev = record_or_fresh(old(self).game(game_id));
                let owned = !old(self).is_suppressed(game_id) && active == Some(
                    (game_id, TrackingSource::Automatic),
                );
                let fresh = foreground && prev.was_foreground && prev.last_input_tick != 0
                    && input_tick != 0 && input_tick != prev.last_input_tick;
                &&& owned && fresh ==> r is None && (final(self).game(game_id) matches Some(n)
                    && n.inactive_since is None)
                &&& owned && prev.inactive_since is None ==> r is None
                &&& owned && prev.inactive_since is None && !fresh ==> (final(self).game(game_id)
                    matches Some(n) && n.inactive_since == Some(now_ms))
                &&& r == Some(TrackingAction::Stop(game_id, SessionEndReason::Afk)) ==> (
                prev.inactive_since matches Some(t) && t <= now_ms && now_ms - t >= AFK_GRACE_MS)
            }),
            forall|id: i64| id != game_id ==> #[trigger] final(self).game(id) == old(self).game(id),
            forall|id: i64| #[trigger] final(self).is_suppressed(id) == old(self).is_suppressed(id),
    {
        let mut g = self.record(game_id);
        if self.suppressed.contains(&game_id) {
            g.state = Some(AutomaticTrackingState::Suppressed);
            self.put(game_id, g);
            return None;
        }
        let fresh = foreground && g.was_foreground && g.last_input_tick != 0 && input_tick != 0
            && input_tick != g.last_input_tick;
        if foreground {
            g.last_input_tick = input_tick;
        }
        g.was_foreground = foreground;
        let owns = match active {
            Some((id, source)) => id == game_id && source == TrackingSource::Automatic,
            None => false,
        };
        let mut action: Option<TrackingAction> = None;
        if owns {
            if fresh {
                g.inactive_since = None;
                g.state = Some(AutomaticTrackingState::Tracking);
            } else {
                let since = match g.inactive_since {
                    Some(t) => t,
                    None => now_ms,
                };
                g.inactive_since = Some(since);
                if now_ms >= since && now_ms - since >= AFK_GRACE_MS {
                    action = Some(TrackingAction::Stop(game_id, SessionEndReason::Afk));
                    g.state = Some(AutomaticTrackingState::Afk);
                    g.inactive_since = None;
                }
            }
        } else if active.is_none() && fresh {
            action = Some(TrackingAction::Start(game_id));
        } else {
            let afk = match g.state {
                Some(AutomaticTrackingState::Afk) => true,
                _ => false,
            };
            g.state = Some(if afk { AutomaticTrackingState::Afk } else { AutomaticTrackingState::WaitingForActivity });
        }
        self.put(game_id, g);
        action
    }

    /// Record that the session the tracker asked to start did start.
    pub fn started(&mut self, game_id: i64)
        ensures
            final(self).game(game_id) == Some(GameRuntime {
                state: Some(AutomaticTrackingState::Tracking),
                ..record_or_fresh(old(self).game(game_id))
            }),
            forall|id: i64| id != game_id ==> #[trigger] final(self).game(id) == old(self).game(id),
            forall|id: i64| #[trigger] final(self).is_suppressed(id) == old(self).is_suppressed(id),
    {
        let mut g = self.record(game_id);
        g.state = Some(AutomaticTrackingState::Tracking);
        self.put(game_id, g);
    }
}

/// What automatic tracking shows for a game: disabled when off, otherwise
/// the tracker's state, and not running when the tracker has none.
pub fn tracking_status(
    available: bool,
    enabled: bool,
    state: Option<AutomaticTrackingState>,
) -> (r: AutomaticTrackingStatus)
    ensures
        r.available == available,
        r.enabled == enabled,
        !enabled ==> r.state == AutomaticTrackingState::Disabled,
        enabled ==> r.state == match state {
            Some(s) => s,
            None => AutomaticTrackingState::ProcessNotRunning,
        },
{
    AutomaticTrackingStatus {
        available,
        enabled,
        state: if !enabled {
            AutomaticTrackingState::Disabled
        } else {
            match state {
                Some(s) => s,
                None => AutomaticTrackingState::ProcessNotRunning,
            }
        },
    }
}


/// The record of a game whose process is gone.
pub open spec fn parked(g: GameRuntime) -> GameRuntime {
    GameRuntime {
        state: Some(AutomaticTrackingState::ProcessNotRunning),
        inactive_since: None,
        was_foreground: false,
        ..g
    }
}

/// Whether an id is in a list.
fn list_contains(ids: &Vec<i64>, id: i64) -> (r: bool)
    ensures
        r == ids@.contains(id),
{
    let mut j: usize = 0;
    while j < ids.len()
        invariant
            j <= ids@.len(),
            forall|k: int| 0 <= k < j ==> ids@[k] != id,
        decreases ids.len() - j,
    {
        if ids[j] == id {
            return true;
        }
        j = j + 1;
    }
    false
}

impl AutomaticTrackingRuntime {
    /// End of a tick: an automatic session whose game is no longer running is
    /// stopped as a process exit, and every game that is not running is shown
    /// as not running, inactive and in the background.
    pub fn finish_tick(&mut self, running: &Vec<i64>, active: Option<(i64, TrackingSource)>) -> (r: Option<TrackingAction>)
        ensures
            r == match active {
                Some((g, TrackingSource::Automatic)) => if running@.contains(g) {
                    None
                } else {
                    Some(TrackingAction::Stop(g, SessionEndReason::ProcessExit))
                },
                _ => None,
            },
            forall|id: i64| running@.contains(id) ==> #[trigger] final(self).game(id) == old(self).game(id),
            forall|id: i64| !running@.contains(id) ==> #[trigger] final(self).game(id) == if old(self).game(id) is Some || owns_automatic(active, id) {
                Some(parked(record_or_fresh(old(self).game(id))))
            } else {
                None
            },
            forall|id: i64| #[trigger] final(self).is_suppressed(id) == old(self).is_suppressed(id),
    {
        let mut action: Option<TrackingAction> = None;
        if let Some((g, source)) = active {
            if source == TrackingSource::Automatic && !list_contains(running, g) {
                action = Some(TrackingAction::Stop(g, SessionEndReason::ProcessExit));
                let mut rt = self.record(g);
                rt.state = Some(AutomaticTrackingState::ProcessNotRunning);
                self.put(g, rt);
            }
        }
        let ghost mid = *self;
        proof {
            assert forall|id: i64| #[trigger] mid.game(id) == if !running@.contains(id) && owns_automatic(active, id) {
                Some(GameRuntime {
                    state: Some(AutomaticTrackingState::ProcessNotRunning),
                    ..record_or_fresh(old(self).game(id))
                })
            } else {
                old(self).game(id)
            } by {}
        }
        let ids = self.game_ids();
        let n = ids.len();
        let mut i: usize = 0;
        while i < n
            invariant
                i <= n == ids@.len(),
                ids@.no_duplicates(),
                forall|id: i64| mid.game(id) is Some <==> ids@.contains(id),
                forall|id: i64| #[trigger] self.is_suppressed(id) == mid.is_suppressed(id),
                forall|id: i64| #[trigger] self.game(id) == if ids@.take(i as int).contains(id) {
                    Some(after_tick(running@, (id, mid.game(id)->0)))
                } else {
                    mid.game(id)
                },
            decreases n - i,
        {
            let id = ids[i];
            proof {
                let ps = ids@.take(i as int);
                let t = ids@.take(i as int + 1);
                assert(t =~= ps.push(id));
                assert(!ps.contains(id)) by {
                    if ps.contains(id) {
                        let k = choose|k: int| 0 <= k < ps.len() && ps[k] == id;
                        assert(ids@[k] == ids@[i as int]);
                    }
                }
                assert forall|x: i64| #[trigger] t.contains(x) == (ps.contains(x) || x == id) by {
                    if t.contains(x) {
                        let k = choose|k: int| 0 <= k < t.len() && t[k] == x;
                        if k < ps.len() {
                            assert(ps[k] == x);
                        }
                    }
                    if ps.contains(x) {
                        let k = choose|k: int| 0 <= k < ps.len() && ps[k] == x;
                        assert(t[k] == x);
                    }
                    if x == id {
                        assert(t[i as int] == x);
                    }
                }
                assert(ids@.contains(id)) by {
                    assert(ids@[i as int] == id);
                }
            }
            if !list_contains(running, id) {
                let mut p = self.record(id);
                p.state = Some(AutomaticTrackingState::ProcessNotRunning);
                p.inactive_since = None;
                p.was_foreground = false;
                self.put(id, p);
            }
            i = i + 1;
        }
        assert(ids@.take(n as int) =~= ids@);
        action
    }
}

/// A record at the end of a tick: kept for running games, parked otherwise.
pub open spec fn after_tick(running: Seq<i64>, e: (i64, GameRuntime)) -> GameRuntime {
    if running.contains(e.0) {
        e.1
    } else {
        parked(e.1)
    }
}

/// The rules each tick applies to a running game.
///
/// A game the user stopped by hand is never started automatically. A start is
/// asked for only when no session is active, and only on fresh input. An
/// automatic session with fresh input keeps tracking; without input for the
/// grace period it is stopped as away-from-keyboard.
pub proof fn lemma_tracking_rules(
    g: GameRuntime,
    suppressed: bool,
    game_id: i64,
    foreground: bool,
    input_tick: u32,
    active: Option<(i64, TrackingSource)>,
    now_ms: u64,
)
    ensures
        ({
            let (n, a) = step(g, suppressed, game_id, foreground, input_tick, active, now_ms);
            &&& suppressed ==> a is None && n.state == Some(AutomaticTrackingState::Suppressed)
            &&& a == Some(TrackingAction::Start(game_id)) ==> active is None && new_input(
                g,
                foreground,
                input_tick,
            ) && !suppressed
            &&& (!suppressed && owns_automatic(active, game_id) && new_input(g, foreground, input_tick))
                ==> a is None && n.state == Some(AutomaticTrackingState::Tracking)
            &&& (!suppressed && owns_automatic(active, game_id) && !new_input(g, foreground, input_tick)
                && (g.inactive_since matches Some(t) && now_ms >= t && now_ms - t >= AFK_GRACE_MS))
                ==> a == Some(TrackingAction::Stop(game_id, SessionEndReason::Afk)) && n.state == Some(
                AutomaticTrackingState::Afk,
            )
            &&& a matches Some(TrackingAction::Stop(_, reason)) ==> reason == SessionEndReason::Afk
                && owns_automatic(active, game_id)
        }),
{
}


/// The idle timer of an automatic session.
///
/// Fresh input (the game in front on this tick and the last, and the
/// system's input counter moved) clears the timer and keeps the session. A
/// session with no timer is never stopped on that tick: its timer starts now.
/// An away-from-keyboard stop needs a timer started at least the grace period
/// earlier. So after fresh input, no stop comes before a full grace period
/// without input has passed.
pub proof fn lemma_idle_timer(
    g: GameRuntime,
    game_id: i64,
    foreground: bool,
    input_tick: u32,
    now_ms: u64,
)
    ensures
        ({
            let active = Some((game_id, TrackingSource::Automatic));
            let fresh = foreground && g.was_foreground && g.last_input_tick != 0 && input_tick != 0
                && input_tick != g.last_input_tick;
            let (n, a) = step(g, false, game_id, foreground, input_tick, active, now_ms);
            &&& fresh ==> a is None && n.inactive_since is None
            &&& g.inactive_since is None ==> a is None
            &&& g.inactive_since is None && !fresh ==> n.inactive_since == Some(now_ms)
            &&& a is Some ==> (g.inactive_since matches Some(t) && t <= now_ms && now_ms - t
                >= AFK_GRACE_MS)
            &&& a is None && !fresh ==> n.inactive_since is Some
        }),
{
}

/// Two ticks of an automatic session: after a tick with fresh input, the next
/// tick never stops it, whatever the clock says.
pub proof fn lemma_no_stop_right_after_input(
    g: GameRuntime,
    game_id: i64,
    fg1: bool,
    tick1: u32,
    now1: u64,
    fg2: bool,
    tick2: u32,
    now2: u64,
)
    requires
        fg1 && g.was_foreground && g.last_input_tick != 0 && tick1 != 0 && tick1 != g.last_input_tick,
    ensures
        ({
            let active = Some((game_id, TrackingSource::Automatic));
            let (n1, a1) = step(g, false, game_id, fg1, tick1, active, now1);
            let (n2, a2) = step(n1, false, game_id, fg2, tick2, active, now2);
            a1 is None && a2 is None
        }),
{
    let active = Some((game_id, TrackingSource::Automatic));
    lemma_idle_timer(g, game_id, fg1, tick1, now1);
    let (n1, a1) = step(g, false, game_id, fg1, tick1, active, now1);
    lemma_idle_timer(n1, game_id, fg2, tick2, now2);
}

/// A process runs the executable of a binding.
pub open spec fn runs_binding(b: EnabledBinding, o: ProcessObservation) -> bool {
    normalized_path(o.process.executable_path@) == b.executable_normalized@
}

/// Bindings and observed processes are compared in one form: a process
/// whose path is the path a binding was made from, up to outer white space,
/// runs that binding.
pub proof fn lemma_bound_path_is_recognised(picked: Seq<char>, b: EnabledBinding, o: ProcessObservation)
    requires
        b.executable_normalized@ == normalized_path(picked),
        trimmed(o.process.executable_path@) == trimmed(picked),
    ensures
        runs_binding(b, o),
{
}

/// A process is in the foreground and not minimized.
pub open spec fn in_front(o: ProcessObservation) -> bool {
    o.is_foreground && !o.is_minimized
}

/// One of the first `n` bindings of game `g` has a running process.
pub open spec fn running_upto(bs: Seq<EnabledBinding>, os: Seq<ProcessObservation>, n: int, g: i64) -> bool {
    exists|i: int, j: int| 0 <= i < n && 0 <= j < os.len() && bs[i].game_id == g && #[trigger] runs_binding(bs[i], os[j])
}

/// One of the first `n` bindings of game `g` has a running process in front.
pub open spec fn front_upto(bs: Seq<EnabledBinding>, os: Seq<ProcessObservation>, n: int, g: i64) -> bool {
    exists|i: int, j: int| 0 <= i < n && 0 <= j < os.len() && bs[i].game_id == g && #[trigger] runs_binding(bs[i], os[j]) && in_front(os[j])
}

/// The games with a running bound executable, each once with whether one of
/// its processes is in front.
pub fn running_games(observations: &Vec<ProcessObservation>, bindings: &Vec<EnabledBinding>) -> (r: Vec<(i64, bool)>)
    ensures
        forall|k: int, l: int| 0 <= k < l < r@.len() ==> r@[k].0 != r@[l].0,
        forall|k: int| 0 <= k < r@.len() ==> running_upto(bindings@, observations@, bindings@.len() as int, (#[trigger] r@[k]).0)
            && r@[k].1 == front_upto(bindings@, observations@, bindings@.len() as int, r@[k].0),
        forall|g: i64| running_upto(bindings@, observations@, bindings@.len() as int, g) ==> exists|k: int| 0 <= k < r@.len() && (#[trigger] r@[k]).0 == g,
{
    let ghost bs = bindings@;
    let ghost os = observations@;
    let mut keys: Vec<String> = Vec::new();
    let mut j: usize = 0;
    while j < observations.len()
        invariant
            j <= os.len(),
            os == observations@,
            keys@.len() == j,
            forall|k: int| 0 <= k < j ==> (#[trigger] keys@[k])@ == normalized_path(os[k].process.executable_path@),
        decreases observations.len() - j,
    {
        keys.push(crate::repositories::game_process::normalize_path(observations[j].process.executable_path.as_str()));
        j = j + 1;
    }
    let mut out: Vec<(i64, bool)> = Vec::new();
    let mut i: usize = 0;
    while i < bindings.len()
        invariant
            i <= bs.len(),
            bs == bindings@,
            os == observations@,
            keys@.len() == os.len(),
            forall|k: int| 0 <= k < os.len() ==> (#[trigger] keys@[k])@ == normalized_path(os[k].process.executable_path@),
            forall|k: int, l: int| 0 <= k < l < out@.len() ==> out@[k].0 != out@[l].0,
            forall|k: int| 0 <= k < out@.len() ==> running_upto(bs, os, i as int, (#[trigger] out@[k]).0)
                && out@[k].1 == front_upto(bs, os, i as int, out@[k].0),
            forall|g: i64| running_upto(bs, os, i as int, g) ==> exists|k: int| 0 <= k < out@.len() && (#[trigger] out@[k]).0 == g,
        decreases bindings.len() - i,
    {
        let gid = bindings[i].game_id;
        let mut matched = false;
        let mut front = false;
        let mut jj: usize = 0;
        while jj < keys.len()
            invariant
                jj <= keys@.len() == os.len(),
                os == observations@,
                i < bs.len(),
                bs == bindings@,
                forall|k: int| 0 <= k < os.len() ==> (#[trigger] keys@[k])@ == normalized_path(os[k].process.executable_path@),
                matched == exists|j: int| 0 <= j < jj && #[trigger] runs_binding(bs[i as int], os[j]),
                front == exists|j: int| 0 <= j < jj && #[trigger] runs_binding(bs[i as int], os[j]) && in_front(os[j]),
            decreases keys.len() - jj,
        {
            if keys[jj] == bindings[i].executable_normalized {
                matched = true;
                if observations[jj].is_foreground && !observations[jj].is_minimized {
                    front = true;
                }
            }
            assert(keys@[jj as int]@ == normalized_path(os[jj as int].process.executable_path@));
            proof {
                if runs_binding(bs[i as int], os[jj as int]) {
                    assert(matched);
                }
            }
            jj = jj + 1;
        }
        proof {
            lemma_upto_step(bs, os, i as int, matched, front);
        }
        proof {
            if front {
                let w = choose|w: int| 0 <= w < os.len() && #[trigger] runs_binding(bs[i as int], os[w]) && in_front(os[w]);
                assert(runs_binding(bs[i as int], os[w]));
            }
            assert forall|g: i64| #[trigger] front_upto(bs, os, i as int, g) implies running_upto(bs, os, i as int, g) by {
                let (a, b) = choose|a: int, b: int| 0 <= a < i && 0 <= b < os.len() && bs[a].game_id == g && #[trigger] runs_binding(bs[a], os[b]) && in_front(os[b]);
                assert(runs_binding(bs[a], os[b]));
            }
        }
        let ghost before = out@;
        let ghost mut pos: int = 0;
        if matched {
            let mut k: usize = 0;
            let mut at: Option<usize> = None;
            while k < out.len()
                invariant
                    k <= out@.len(),
                    at matches Some(x) ==> x < out@.len() && out@[x as int].0 == gid,
                    at is None ==> forall|l: int| 0 <= l < k ==> out@[l].0 != gid,
                decreases out.len() - k,
            {
                if at.is_none() && out[k].0 == gid {
                    at = Some(k);
                }
                k = k + 1;
            }
            match at {
                Some(x) => {
                    let prev = out[x].1;
                    out[x] = (gid, prev || front);
                    proof { pos = x as int; }
                },
                None => {
                    proof {
                        assert(!running_upto(bs, os, i as int, gid));
                        pos = out@.len() as int;
                    }
                    out.push((gid, front));
                },
            }
        }
        proof {
            assert forall|k: int| 0 <= k < out@.len() implies running_upto(bs, os, i + 1, (#[trigger] out@[k]).0)
                && out@[k].1 == front_upto(bs, os, i + 1, out@[k].0) by {
                if matched && k == pos {
                } else {
                    assert(out@[k] == before[k]);
                }
            }
            assert forall|k: int, l: int| 0 <= k < l < out@.len() implies out@[k].0 != out@[l].0 by {
                if matched && (k == pos || l == pos) {
                } else {
                    assert(out@[k] == before[k] && out@[l] == before[l]);
                }
            }
            assert forall|g: i64| #[trigger] running_upto(bs, os, i + 1, g) implies exists|k: int| 0 <= k < out@.len() && (#[trigger] out@[k]).0 == g by {
                if g == gid && matched {
                    assert(out@[pos].0 == gid);
                } else {
                    assert(running_upto(bs, os, i as int, g));
                    let w = choose|w: int| 0 <= w < before.len() && (#[trigger] before[w]).0 == g;
                    assert(out@[w].0 == g);
                }
            }
        }
        i = i + 1;
    }
    out
}

/// How the prefix predicates grow by one binding.
proof fn lemma_upto_step(bs: Seq<EnabledBinding>, os: Seq<ProcessObservation>, i: int, matched: bool, front: bool)
    requires
        0 <= i < bs.len(),
        matched == exists|j: int| 0 <= j < os.len() && #[trigger] runs_binding(bs[i], os[j]),
        front == exists|j: int| 0 <= j < os.len() && #[trigger] runs_binding(bs[i], os[j]) && in_front(os[j]),
    ensures
        forall|g: i64| #[trigger] running_upto(bs, os, i + 1, g) == (running_upto(bs, os, i, g) || (bs[i].game_id == g && matched)),
        forall|g: i64| #[trigger] front_upto(bs, os, i + 1, g) == (front_upto(bs, os, i, g) || (bs[i].game_id == g && front)),
{
    assert forall|g: i64| #[trigger] running_upto(bs, os, i + 1, g) == (running_upto(bs, os, i, g) || (bs[i].game_id == g && matched)) by {
        if running_upto(bs, os, i + 1, g) {
            let (a, b) = choose|a: int, b: int| 0 <= a < i + 1 && 0 <= b < os.len() && bs[a].game_id == g && #[trigger] runs_binding(bs[a], os[b]);
            if a == i {
                assert(runs_binding(bs[i], os[b]));
            }
        }
        if bs[i].game_id == g && matched {
            let b = choose|b: int| 0 <= b < os.len() && #[trigger] runs_binding(bs[i], os[b]);
            assert(runs_binding(bs[i], os[b]));
        }
    }
    assert forall|g: i64| #[trigger] front_upto(bs, os, i + 1, g) == (front_upto(bs, os, i, g) || (bs[i].game_id == g && front)) by {
        if front_upto(bs, os, i + 1, g) {
            let (a, b) = choose|a: int, b: int| 0 <= a < i + 1 && 0 <= b < os.len() && bs[a].game_id == g && #[trigger] runs_binding(bs[a], os[b]) && in_front(os[b]);
            if a == i {
                assert(runs_binding(bs[i], os[b]) && in_front(os[b]));
            }
        }
        if bs[i].game_id == g && front {
            let b = choose|b: int| 0 <= b < os.len() && #[trigger] runs_binding(bs[i], os[b]) && in_front(os[b]);
            assert(runs_binding(bs[i], os[b]));
        }
    }
}

} // verus!
