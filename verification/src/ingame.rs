//! The telemetry endpoint: its addresses, its answers, and its events as one ordered stream.
//!
//! The endpoint answers "which events are there from this identifier on". `PollEngine`
//! keeps the cursor, the next identifier that it expects, and decides what the polling task
//! does next. It performs nothing itself: the task hands it what happened as a `PollEvent`,
//! forwards the events of the returned `PollStep` to the consumer, and carries out the
//! step's `PollCommand`. No request is made before the consumer has asked for the first
//! event; `StreamHandle` is the consumer's side of that.

use crate::error::{IngameClientError, IngameClientErrorView};
use crate::json::{from_str, json_document, text_at, text_fits, field, FromJson};
use crate::model::ingame::{ActivePlayer, GameEvent, IngameEvents, TeamId};
use crate::text::{chars_of, decimal, push_decimal, string_of};
use vstd::prelude::*;
use vstd::string::StringExecFns;

verus! {

/// The port of the telemetry endpoint on this machine.
pub const PORT: u16 = 2999;

/// The address of the telemetry endpoint's resource `path`.
pub open spec fn address(path: Seq<char>) -> Seq<char> {
    "https://127.0.0.1:"@ + decimal(PORT as nat) + path
}

/// The address of the resource `path`, asked with the one parameter `key` set to `value`.
/// The value is written as it is.
pub open spec fn address_with(path: Seq<char>, key: Seq<char>, value: Seq<char>) -> Seq<char> {
    address(path) + "?"@ + key + "="@ + value
}

/// The address of the telemetry endpoint's resource `path`.
pub fn url(path: &str) -> (r: String)
    ensures
        r@ == address(path@),
{
    let mut out = String::from_str("https://127.0.0.1:");
    push_decimal(&mut out, PORT as u64);
    out.append(path);
    out
}

/// The address of the resource `path`, asked with the one parameter `key` set to `value`.
pub fn url_with(path: &str, key: &str, value: &str) -> (r: String)
    ensures
        r@ == address_with(path@, key@, value@),
{
    let mut out = url(path);
    out.append("?");
    out.append(key);
    out.append("=");
    out.append(value);
    out
}

/// The identifier from which a query asks for events: the given one, or 0, which asks for
/// all of them.
pub open spec fn since(event_id: Option<u64>) -> u64 {
    match event_id {
        Some(id) => id,
        None => 0,
    }
}

/// The address of the game's statistics.
pub fn game_stats_url() -> (r: String)
    ensures
        r@ == address("/GetLiveclientdataGamestats"@),
{
    url("/GetLiveclientdataGamestats")
}

/// The address that answers as soon as a game is loading.
pub fn help_url() -> (r: String)
    ensures
        r@ == address("/Help"@),
{
    url("/Help")
}

/// The address of everything the endpoint knows, with the events from `event_id` on.
pub fn all_game_data_url(event_id: Option<u64>) -> (r: String)
    ensures
        r@ == address_with(
            "/GetLiveclientdataAllgamedata"@,
            "eventID"@,
            decimal(since(event_id) as nat),
        ),
{
    let mut value = String::new();
    push_decimal(
        &mut value,
        match event_id {
            Some(id) => id,
            None => 0,
        },
    );
    url_with("/GetLiveclientdataAllgamedata", "eventID", value.as_str())
}

/// The address of the events from `event_id` on.
pub fn event_data_url(event_id: Option<u64>) -> (r: String)
    ensures
        r@ == address_with(
            "/GetLiveclientdataEventdata"@,
            "eventID"@,
            decimal(since(event_id) as nat),
        ),
{
    let mut value = String::new();
    push_decimal(
        &mut value,
        match event_id {
            Some(id) => id,
            None => 0,
        },
    );
    url_with("/GetLiveclientdataEventdata", "eventID", value.as_str())
}

/// The address of a player's items.
pub fn player_items_url(summoner_name: &str) -> (r: String)
    ensures
        r@ == address_with("/GetLiveclientdataPlayeritems"@, "summonerName"@, summoner_name@),
{
    url_with("/GetLiveclientdataPlayeritems", "summonerName", summoner_name)
}

/// The team that a player list is asked for: the given one, or all.
pub open spec fn listed_team(team_id: Option<TeamId>) -> TeamId {
    match team_id {
        Some(team) => team,
        None => TeamId::All,
    }
}

/// The address of the list of players of a team, or of all players.
pub fn player_list_url(team_id: Option<TeamId>) -> (r: String)
    ensures
        r@ == address_with(
            "/GetLiveclientdataPlayerlist"@,
            "teamID"@,
            listed_team(team_id).label(),
        ),
{
    let team = match team_id {
        Some(team) => team,
        None => TeamId::All,
    };
    url_with("/GetLiveclientdataPlayerlist", "teamID", team.name())
}

/// The address of a player's main runes.
pub fn player_main_runes_url(summoner_name: &str) -> (r: String)
    ensures
        r@ == address_with(
            "/GetLiveclientdataPlayermainrunes"@,
            "summonerName"@,
            summoner_name@,
        ),
{
    url_with("/GetLiveclientdataPlayermainrunes", "summonerName", summoner_name)
}

/// The address of a player's scores.
pub fn player_scores_url(summoner_name: &str) -> (r: String)
    ensures
        r@ == address_with("/GetLiveclientdataPlayerscores"@, "summonerName"@, summoner_name@),
{
    url_with("/GetLiveclientdataPlayerscores", "summonerName", summoner_name)
}

/// The address of a player's summoner spells.
pub fn player_summoner_spells_url(summoner_name: &str) -> (r: String)
    ensures
        r@ == address_with(
            "/GetLiveclientdataPlayersummonerspells"@,
            "summonerName"@,
            summoner_name@,
        ),
{
    url_with("/GetLiveclientdataPlayersummonerspells", "summonerName", summoner_name)
}

/// The address of the active player.
pub fn active_player_url() -> (r: String)
    ensures
        r@ == address("/GetLiveclientdataActiveplayer"@),
{
    url("/GetLiveclientdataActiveplayer")
}

/// The address of the active player's abilities.
pub fn active_player_abilities_url() -> (r: String)
    ensures
        r@ == address("/GetLiveclientdataActiveplayerabilities"@),
{
    url("/GetLiveclientdataActiveplayerabilities")
}

/// The address of the active player's name.
pub fn active_player_name_url() -> (r: String)
    ensures
        r@ == address("/GetLiveclientdataActiveplayername"@),
{
    url("/GetLiveclientdataActiveplayername")
}

/// The address of the active player's runes.
pub fn active_player_runes_url() -> (r: String)
    ensures
        r@ == address("/GetLiveclientdataActiveplayerrunes"@),
{
    url("/GetLiveclientdataActiveplayerrunes")
}

/// The text of the error for an answer that does not have the expected shape.
pub open spec fn decode_failure() -> Seq<char> {
    "error decoding response body"@
}

/// Reads a `T` from the body of an answer. An answer that is no JSON, or whose document
/// holds no `T`, is a `DeserializationError`.
pub fn decode_answer<T: FromJson>(answer: &str) -> (r: Result<T, IngameClientError>)
    ensures
        r is Ok <==> text_fits::<T>(answer@),
        r matches Ok(value) ==> value.read_from(json_document(answer@)->0),
        r matches Err(error) ==> error@ == IngameClientErrorView::DeserializationError(
            decode_failure(),
        ),
{
    match from_str::<T>(answer) {
        Some(value) => Ok(value),
        None => Err(
            IngameClientError::DeserializationError(
                String::from_str("error decoding response body"),
            ),
        ),
    }
}

/// Reads the events out of the answer to a query for events.
pub fn event_data(answer: &str) -> (r: Result<Vec<GameEvent>, IngameClientError>)
    ensures
        r is Ok <==> text_fits::<IngameEvents>(answer@),
        r matches Ok(events) ==> (IngameEvents { events }).read_from(json_document(answer@)->0),
        r matches Err(error) ==> error@ == IngameClientErrorView::DeserializationError(
            decode_failure(),
        ),
{
    match decode_answer::<IngameEvents>(answer) {
        Ok(list) => Ok(list.events),
        Err(error) => Err(error),
    }
}

/// What the endpoint says in place of the active player: the text under `error`, where the
/// document is not an active player and has such a text.
pub open spec fn refusal(v: serde_json::Value) -> Option<Seq<char>> {
    if ActivePlayer::fits(v) {
        None
    } else {
        text_at(v, "error"@)
    }
}

/// Reads the active player from the document of an answer.
///
/// A spectator has no active player, and the endpoint then answers with an object that
/// holds a text under `error`: that text is handed on in a `DeserializationError`. A document
/// that is neither is a `DeserializationError` as for any other answer.
pub fn active_player(v: &serde_json::Value) -> (r: Result<ActivePlayer, IngameClientError>)
    ensures
        r is Ok <==> ActivePlayer::fits(*v),
        r matches Ok(player) ==> player.read_from(*v),
        r matches Err(error) ==> error@ == IngameClientErrorView::DeserializationError(
            match refusal(*v) {
                Some(text) => text,
                None => decode_failure(),
            },
        ),
{
    match ActivePlayer::decode(v) {
        Some(player) => Ok(player),
        None => match field::<String>(v, "error") {
            Some(text) => Err(IngameClientError::DeserializationError(text)),
            None => Err(
                IngameClientError::DeserializationError(
                    String::from_str("error decoding response body"),
                ),
            ),
        },
    }
}

/// A text without its first and its last character; the empty text where it has fewer than
/// two.
pub open spec fn without_ends(text: Seq<char>) -> Seq<char> {
    if text.len() >= 2 {
        text.subrange(1, text.len() - 1)
    } else {
        Seq::empty()
    }
}

/// The active player's name out of the endpoint's answer, which wraps it in double quotes:
/// the answer without its first and last character.
pub fn active_player_name(answer: &str) -> (r: String)
    ensures
        r@ == without_ends(answer@),
{
    let chars = chars_of(answer);
    if chars.len() >= 2 {
        string_of(&chars, 1, chars.len() - 1)
    } else {
        String::new()
    }
}

/// Whether the game is watched by a spectator, from the two answers that tell.
///
/// `active_game` says whether a game is running; `probe` is what asking for the active
/// player gave. While no game is running the endpoint's answers cannot be trusted, so the
/// verdict is `ApiNotAvailableDuringLoadingScreen` whatever the probe gave. In a running
/// game a probe that succeeds means a player, one that is refused with
/// `ApiNotAvailableInSpectatorMode` means a spectator, and any other error is handed on.
pub open spec fn spectator_verdict(
    active_game: bool,
    probe: Result<(), IngameClientError>,
) -> Result<bool, IngameClientErrorView> {
    if !active_game {
        Err(IngameClientErrorView::ApiNotAvailableDuringLoadingScreen)
    } else {
        match probe {
            Ok(_) => Ok(false),
            Err(IngameClientError::ApiNotAvailableInSpectatorMode) => Ok(true),
            Err(error) => Err(error@),
        }
    }
}

/// Whether the game is watched by a spectator, from the two answers that tell.
pub fn is_spectator_mode(active_game: bool, probe: Result<(), IngameClientError>) -> (r: Result<
    bool,
    IngameClientError,
>)
    ensures
        match spectator_verdict(active_game, probe) {
            Ok(spectator) => r == Ok::<bool, IngameClientError>(spectator),
            Err(error) => r matches Err(e) && e@ == error,
        },
{
    if !active_game {
        return Err(IngameClientError::ApiNotAvailableDuringLoadingScreen);
    }
    match probe {
        Ok(_) => Ok(false),
        Err(IngameClientError::ApiNotAvailableInSpectatorMode) => Ok(true),
        Err(error) => Err(error),
    }
}

/// What the consumer's side of the stream does when it is asked for the next event.
#[derive(Debug, Clone, Copy, PartialEq, Eq, Structural)]
pub enum ConsumerStep {
    /// Send the start signal to the polling task, then report with `on_start_signal`.
    SignalStart,
    /// Wait for the next event from the task.
    Receive,
    /// The stream is over.
    End,
}

/// The consumer's side of the stream: it remembers whether the start signal is still to be
/// sent.
#[derive(Debug, Clone, PartialEq, Eq)]
pub struct StreamHandle {
    start_pending: bool,
}

impl StreamHandle {
    /// Whether the start signal is still to be sent.
    pub closed spec fn start_pending(&self) -> bool {
        self.start_pending
    }

    /// What a request for the next event is answered with: the start signal is due while
    /// it is pending, and after that the handle receives.
    pub open spec fn answer(start_pending: bool) -> ConsumerStep {
        if start_pending {
            ConsumerStep::SignalStart
        } else {
            ConsumerStep::Receive
        }
    }

    /// What `polls` requests in a row are answered with. Every request leaves no start
    /// signal pending.
    pub open spec fn answers(start_pending: bool, polls: nat) -> Seq<ConsumerStep>
        decreases polls,
    {
        if polls == 0 {
            Seq::empty()
        } else {
            seq![Self::answer(start_pending)] + Self::answers(false, (polls - 1) as nat)
        }
    }

    /// The handle of a stream that has not been asked for an event.
    pub fn new() -> (r: StreamHandle)
        ensures
            r.start_pending(),
    {
        StreamHandle { start_pending: true }
    }

    /// The consumer asks for the next event. The first time, the start signal is due; from
    /// then on the handle only receives.
    pub fn on_poll(&mut self) -> (r: ConsumerStep)
        ensures
            !final(self).start_pending(),
            r == Self::answer(old(self).start_pending()),
    {
        if self.start_pending {
            self.start_pending = false;
            ConsumerStep::SignalStart
        } else {
            ConsumerStep::Receive
        }
    }

    /// What follows the start signal: the stream is over where the signal found no task to
    /// reach, else the handle receives.
    pub fn on_start_signal(&self, delivered: bool) -> (r: ConsumerStep)
        ensures
            r == if delivered {
                ConsumerStep::Receive
            } else {
                ConsumerStep::End
            },
    {
        if delivered {
            ConsumerStep::Receive
        } else {
            ConsumerStep::End
        }
    }
}

/// A new handle asks for the start signal with the first request for an event, and with no
/// other: at most one start signal is ever sent.
pub proof fn lemma_start_is_signalled_once(polls: nat)
    ensures
        StreamHandle::answers(true, polls).len() == polls,
        forall|i: int|
            0 <= i < polls ==> #[trigger] StreamHandle::answers(true, polls)[i] == if i == 0 {
                ConsumerStep::SignalStart
            } else {
                ConsumerStep::Receive
            },
{
    if polls > 0 {
        lemma_received_after_start((polls - 1) as nat);
    }
}

/// The step of `lemma_start_is_signalled_once`: once no start signal is pending, the handle
/// only receives.
proof fn lemma_received_after_start(polls: nat)
    ensures
        StreamHandle::answers(false, polls).len() == polls,
        forall|i: int|
            0 <= i < polls ==> #[trigger] StreamHandle::answers(false, polls)[i]
                == ConsumerStep::Receive,
    decreases polls,
{
    if polls > 0 {
        lemma_received_after_start((polls - 1) as nat);
    }
}

/// How long a probe of the endpoint may take before it counts as failed, in milliseconds.
/// An endpoint that does not answer is the usual case while no game runs, so this is short,
/// and apart from the time between two polls.
pub const PROBE_TIMEOUT_MILLIS: u64 = 100;

/// The time between two ticks of the polling task where the caller names none, in
/// milliseconds.
pub const DEFAULT_POLLING_RATE_MILLIS: u64 = 500;

/// Where the polling task stands.
#[derive(Debug, Clone, Copy, PartialEq, Eq, Structural)]
pub enum PollPhase {
    /// The engine exists, its task has not begun.
    Created,
    /// The task waits for the consumer's start signal.
    AwaitingStart,
    /// The task asks on every tick whether a game is running.
    WaitingForGameStart,
    /// The task asks on every tick for new events.
    Polling,
    /// The task is over, for good.
    Stopped,
}

/// What happened to the polling task.
#[derive(Debug, Clone, PartialEq, Eq)]
pub enum PollEvent {
    /// The task has begun to run.
    Spawned,
    /// The consumer has asked for its first event.
    StartSignal,
    /// The consumer went away without ever asking for an event.
    StartDropped,
    /// The endpoint said whether a game is running.
    GameProbe(bool),
    /// The endpoint answered a query with these events, in this order.
    Events(Vec<GameEvent>),
    /// A query failed, or its answer could not be decoded.
    QueryFailed,
    /// The consumer has disposed of the stream.
    Cancelled,
}

/// What the polling task does next.
#[derive(Debug, Clone, Copy, PartialEq, Eq, Structural)]
pub enum PollCommand {
    /// Wait for the consumer's start signal. No request is made.
    AwaitStart,
    /// Wait for the next tick, then ask whether a game is running.
    ProbeGame,
    /// Wait for the next tick, then ask for the events from `since` on.
    Query { since: u64 },
    /// End the task.
    Halt,
}

/// The answer to a `PollEvent`.
#[derive(Debug, Clone, PartialEq, Eq)]
pub struct PollStep {
    /// The events to hand to the consumer, in this order.
    pub forward: Vec<GameEvent>,
    /// What to do after that.
    pub command: PollCommand,
}

/// The events of an answer that are new: an event is new if its identifier is not below the
/// cursor as it stands when the event's turn comes, and a new event moves the cursor to one
/// past its identifier.
pub open spec fn accepted(cursor: u64, events: Seq<GameEvent>) -> Seq<GameEvent>
    decreases events.len(),
{
    if events.len() == 0 {
        Seq::empty()
    } else if events[0].id() >= cursor {
        seq![events[0]] + accepted((events[0].id() + 1) as u64, events.drop_first())
    } else {
        accepted(cursor, events.drop_first())
    }
}

/// The cursor after an answer: one past the identifier of the answer's last new event, and
/// unchanged where the answer has no new event.
pub open spec fn advanced(cursor: u64, events: Seq<GameEvent>) -> u64
    decreases events.len(),
{
    if events.len() == 0 {
        cursor
    } else if events[0].id() >= cursor {
        advanced((events[0].id() + 1) as u64, events.drop_first())
    } else {
        advanced(cursor, events.drop_first())
    }
}

/// The identifiers of `events` go up from one event to the next, and none is below `from`.
pub open spec fn ascending_from(from: u64, events: Seq<GameEvent>) -> bool {
    &&& forall|i: int| 0 <= i < events.len() ==> (#[trigger] events[i]).id() >= from
    &&& forall|i: int, j: int|
        0 <= i < j < events.len() ==> (#[trigger] events[i]).id() < (#[trigger] events[j]).id()
}

/// Every identifier of `events` is below `bound`.
pub open spec fn all_below(events: Seq<GameEvent>, bound: u64) -> bool {
    forall|i: int| 0 <= i < events.len() ==> (#[trigger] events[i]).id() < bound
}

/// What the engine knows: where the task stands, and the cursor.
pub struct PollState {
    pub phase: PollPhase,
    pub cursor: u64,
}

impl PollState {
    /// The state of a new engine.
    pub open spec fn initial() -> PollState {
        PollState { phase: PollPhase::Created, cursor: 0 }
    }

    /// The state after `event`.
    ///
    /// Cancelling stops the task in every phase. Besides that each phase listens to its own
    /// events only: `Created` to `Spawned`, `AwaitingStart` to the start signal or its loss,
    /// `WaitingForGameStart` to the probe's answer, `Polling` to a query's answer or failure.
    /// Any other event changes nothing, and nothing changes a stopped engine.
    pub open spec fn after(self, event: PollEvent) -> PollState {
        match (self.phase, event) {
            (PollPhase::Stopped, _) => self,
            (_, PollEvent::Cancelled) => PollState { phase: PollPhase::Stopped, ..self },
            (PollPhase::Created, PollEvent::Spawned) => PollState {
                phase: PollPhase::AwaitingStart,
                ..self
            },
            (PollPhase::AwaitingStart, PollEvent::StartSignal) => PollState {
                phase: PollPhase::WaitingForGameStart,
                ..self
            },
            (PollPhase::AwaitingStart, PollEvent::StartDropped) => PollState {
                phase: PollPhase::Stopped,
                ..self
            },
            (PollPhase::WaitingForGameStart, PollEvent::GameProbe(true)) => PollState {
                phase: PollPhase::Polling,
                ..self
            },
            (PollPhase::Polling, PollEvent::Events(events)) => PollState {
                cursor: advanced(self.cursor, events@),
                ..self
            },
            (PollPhase::Polling, PollEvent::QueryFailed) => PollState {
                phase: PollPhase::Stopped,
                ..self
            },
            _ => self,
        }
    }

    /// The events that `event` sends to the consumer: the new events of an answer that
    /// comes while polling, and nothing in any other case.
    pub open spec fn forwards(self, event: PollEvent) -> Seq<GameEvent> {
        match (self.phase, event) {
            (PollPhase::Polling, PollEvent::Events(events)) => accepted(self.cursor, events@),
            _ => Seq::empty(),
        }
    }

    /// What the task does in this state.
    pub open spec fn command(self) -> PollCommand {
        match self.phase {
            PollPhase::Created => PollCommand::AwaitStart,
            PollPhase::AwaitingStart => PollCommand::AwaitStart,
            PollPhase::WaitingForGameStart => PollCommand::ProbeGame,
            PollPhase::Polling => PollCommand::Query { since: self.cursor },
            PollPhase::Stopped => PollCommand::Halt,
        }
    }

    /// The state after a run of events.
    pub open spec fn after_all(self, events: Seq<PollEvent>) -> PollState
        decreases events.len(),
    {
        if events.len() == 0 {
            self
        } else {
            self.after(events[0]).after_all(events.drop_first())
        }
    }

    /// Everything that a run of events sends to the consumer, in order.
    pub open spec fn forwards_all(self, events: Seq<PollEvent>) -> Seq<GameEvent>
        decreases events.len(),
    {
        if events.len() == 0 {
            Seq::empty()
        } else {
            self.forwards(events[0]) + self.after(events[0]).forwards_all(events.drop_first())
        }
    }
}

/// The decisions of one polling task.
#[derive(Debug, Clone, PartialEq, Eq)]
pub struct PollEngine {
    phase: PollPhase,
    cursor: u64,
}

impl View for PollEngine {
    type V = PollState;

    closed spec fn view(&self) -> PollState {
        PollState { phase: self.phase, cursor: self.cursor }
    }
}

impl PollEngine {
    /// A new engine: nothing has happened yet and the cursor is 0, which asks for every event
    /// that the endpoint still has.
    pub fn new() -> (r: PollEngine)
        ensures
            r@ == PollState::initial(),
    {
        PollEngine { phase: PollPhase::Created, cursor: 0 }
    }

    /// Where the task stands.
    pub fn phase(&self) -> (r: PollPhase)
        ensures
            r == self@.phase,
    {
        self.phase
    }

    /// The next identifier that the engine expects.
    pub fn cursor(&self) -> (r: u64)
        ensures
            r == self@.cursor,
    {
        self.cursor
    }

    /// What the task does in the engine's state.
    pub fn command(&self) -> (r: PollCommand)
        ensures
            r == self@.command(),
    {
        match self.phase {
            PollPhase::Created => PollCommand::AwaitStart,
            PollPhase::AwaitingStart => PollCommand::AwaitStart,
            PollPhase::WaitingForGameStart => PollCommand::ProbeGame,
            PollPhase::Polling => PollCommand::Query { since: self.cursor },
            PollPhase::Stopped => PollCommand::Halt,
        }
    }

    /// Takes the new events out of an answer, in the answer's order, and moves the cursor
    /// past them.
    fn accept(&mut self, events: Vec<GameEvent>) -> (forward: Vec<GameEvent>)
        ensures
            forward@ == accepted(old(self).cursor, events@),
            final(self).cursor == advanced(old(self).cursor, events@),
            final(self).phase == old(self).phase,
    {
        let ghost all = events@;
        let ghost start = self.cursor;
        let mut forward: Vec<GameEvent> = Vec::new();
        assert(all.subrange(0, all.len() as int) == all);
        for event in it: events.into_iter()
            invariant
                it.seq() == all,
                self.phase == old(self).phase,
                accepted(start, all) == forward@ + accepted(
                    self.cursor,
                    all.subrange(it.index() as int, all.len() as int),
                ),
                advanced(start, all) == advanced(
                    self.cursor,
                    all.subrange(it.index() as int, all.len() as int),
                ),
        {
            let ghost tail = all.subrange(it.index() as int, all.len() as int);
            let ghost rest = all.subrange(it.index() + 1, all.len() as int);
            proof {
                assert(tail[0] == event);
                assert(tail.drop_first() == rest);
            }
            let id = event.get_event_id();
            if id as u64 >= self.cursor {
                self.cursor = id as u64 + 1;
                proof {
                    assert(forward@ + (seq![event] + accepted(self.cursor, rest))
                        == forward@.push(event) + accepted(self.cursor, rest));
                }
                forward.push(event);
            }
        }
        proof {
            assert(forward@ + Seq::<GameEvent>::empty() == forward@);
        }
        forward
    }

    /// Takes what happened to the task, and says what to forward and what to do next.
    pub fn step(&mut self, event: PollEvent) -> (r: PollStep)
        ensures
            final(self)@ == old(self)@.after(event),
            r.forward@ == old(self)@.forwards(event),
            r.command == final(self)@.command(),
    {
        let mut forward: Vec<GameEvent> = Vec::new();
        match self.phase {
            PollPhase::Stopped => {},
            PollPhase::Created => match event {
                PollEvent::Cancelled => {
                    self.phase = PollPhase::Stopped;
                },
                PollEvent::Spawned => {
                    self.phase = PollPhase::AwaitingStart;
                },
                _ => {},
            },
            PollPhase::AwaitingStart => match event {
                PollEvent::Cancelled => {
                    self.phase = PollPhase::Stopped;
                },
                PollEvent::StartSignal => {
                    self.phase = PollPhase::WaitingForGameStart;
                },
                PollEvent::StartDropped => {
                    self.phase = PollPhase::Stopped;
                },
                _ => {},
            },
            PollPhase::WaitingForGameStart => match event {
                PollEvent::Cancelled => {
                    self.phase = PollPhase::Stopped;
                },
                PollEvent::GameProbe(running) => {
                    if running {
                        self.phase = PollPhase::Polling;
                    }
                },
                _ => {},
            },
            PollPhase::Polling => match event {
                PollEvent::Cancelled => {
                    self.phase = PollPhase::Stopped;
                },
                PollEvent::Events(events) => {
                    forward = self.accept(events);
                },
                PollEvent::QueryFailed => {
                    self.phase = PollPhase::Stopped;
                },
                _ => {},
            },
        }
        PollStep { forward, command: self.command() }
    }
}

/// An answer without events forwards nothing and leaves the cursor where it is; so does every
/// answer none of whose events is new.
pub proof fn lemma_no_new_event_changes_nothing(cursor: u64, events: Seq<GameEvent>)
    ensures
        accepted(cursor, Seq::empty()) == Seq::<GameEvent>::empty(),
        advanced(cursor, Seq::empty()) == cursor,
        accepted(cursor, events).len() == 0 ==> advanced(cursor, events) == cursor,
    decreases events.len(),
{
    if events.len() > 0 && events[0].id() < cursor {
        lemma_no_new_event_changes_nothing(cursor, events.drop_first());
    }
}

/// An answer whose identifiers go up and start at the cursor or above is forwarded as it is,
/// and the cursor ends one past its last identifier.
pub proof fn lemma_ascending_answer_is_forwarded(cursor: u64, events: Seq<GameEvent>)
    requires
        ascending_from(cursor, events),
    ensures
        accepted(cursor, events) == events,
        events.len() > 0 ==> advanced(cursor, events) == events.last().id() + 1,
    decreases events.len(),
{
    if events.len() > 0 {
        let rest = events.drop_first();
        let next = (events[0].id() + 1) as u64;
        assert forall|i: int| 0 <= i < rest.len() implies (#[trigger] rest[i]).id() >= next by {
            assert(rest[i] == events[i + 1]);
            assert(events[0].id() < events[i + 1].id());
        }
        assert forall|i: int, j: int| 0 <= i < j < rest.len() implies (#[trigger] rest[i]).id() < (
        #[trigger] rest[j]).id() by {
            assert(rest[i] == events[i + 1]);
            assert(rest[j] == events[j + 1]);
        }
        lemma_ascending_answer_is_forwarded(next, rest);
        assert(seq![events[0]] + rest == events);
        assert(events[0].id() >= cursor);
        if rest.len() > 0 {
            assert(rest.last() == events.last());
        } else {
            assert(events.last() == events[0]);
            assert(advanced(next, rest) == next);
        }
    }
}

/// What is forwarded from an answer goes up by identifier, starts at the cursor or above and
/// stays below the new cursor; and the cursor never moves back.
pub proof fn lemma_forwarded_is_ascending(cursor: u64, events: Seq<GameEvent>)
    ensures
        ascending_from(cursor, accepted(cursor, events)),
        all_below(accepted(cursor, events), advanced(cursor, events)),
        cursor <= advanced(cursor, events),
    decreases events.len(),
{
    if events.len() > 0 {
        let rest = events.drop_first();
        if events[0].id() >= cursor {
            let next = (events[0].id() + 1) as u64;
            lemma_forwarded_is_ascending(next, rest);
            let tail = accepted(next, rest);
            let whole = seq![events[0]] + tail;
            assert forall|i: int| 0 <= i < whole.len() implies (#[trigger] whole[i]).id()
                >= cursor && whole[i].id() < advanced(cursor, events) by {
                if i > 0 {
                    assert(whole[i] == tail[i - 1]);
                }
            }
            assert forall|i: int, j: int| 0 <= i < j < whole.len() implies (
            #[trigger] whole[i]).id() < (#[trigger] whole[j]).id() by {
                assert(whole[j] == tail[j - 1]);
                if i > 0 {
                    assert(whole[i] == tail[i - 1]);
                }
            }
        } else {
            lemma_forwarded_is_ascending(cursor, rest);
        }
    }
}

/// Two answers in a row forward what one answer with the events of both would: the cursor
/// carries from one poll to the next all that matters of the past.
pub proof fn lemma_answers_compose(cursor: u64, first: Seq<GameEvent>, second: Seq<GameEvent>)
    ensures
        accepted(cursor, first + second) == accepted(cursor, first) + accepted(
            advanced(cursor, first),
            second,
        ),
        advanced(cursor, first + second) == advanced(advanced(cursor, first), second),
    decreases first.len(),
{
    if first.len() == 0 {
        assert(first + second == second);
        assert(Seq::<GameEvent>::empty() + accepted(cursor, second) == accepted(cursor, second));
    } else {
        let both = first + second;
        assert(both[0] == first[0]);
        assert(both.drop_first() == first.drop_first() + second);
        if first[0].id() >= cursor {
            let next = (first[0].id() + 1) as u64;
            lemma_answers_compose(next, first.drop_first(), second);
            assert(seq![first[0]] + (accepted(next, first.drop_first()) + accepted(
                advanced(next, first.drop_first()),
                second,
            )) == (seq![first[0]] + accepted(next, first.drop_first())) + accepted(
                advanced(next, first.drop_first()),
                second,
            ));
        } else {
            lemma_answers_compose(cursor, first.drop_first(), second);
        }
    }
}

/// Two answers in a row whose identifiers go up, from the cursor or above, are forwarded as
/// they are, the first and then the second, and the cursor ends one past the last identifier.
pub proof fn lemma_ascending_polls_are_forwarded(
    cursor: u64,
    first: Seq<GameEvent>,
    second: Seq<GameEvent>,
)
    requires
        ascending_from(cursor, first + second),
    ensures
        accepted(cursor, first) + accepted(advanced(cursor, first), second) == first + second,
        first.len() > 0 ==> advanced(cursor, first) == first.last().id() + 1,
        second.len() > 0 ==> advanced(advanced(cursor, first), second) == second.last().id() + 1,
{
    let both = first + second;
    lemma_answers_compose(cursor, first, second);
    lemma_ascending_answer_is_forwarded(cursor, both);
    assert forall|i: int| 0 <= i < first.len() implies (#[trigger] first[i]).id() >= cursor by {
        assert(first[i] == both[i]);
    }
    assert forall|i: int, j: int| 0 <= i < j < first.len() implies (#[trigger] first[i]).id() < (
    #[trigger] first[j]).id() by {
        assert(first[i] == both[i]);
        assert(first[j] == both[j]);
    }
    lemma_ascending_answer_is_forwarded(cursor, first);
    if second.len() > 0 {
        assert(both.last() == second.last());
    }
}

/// Whatever happens to an engine, what it forwards in all goes up by identifier from its
/// cursor on: the consumer sees the source's order and no identifier twice.
pub proof fn lemma_stream_is_ascending(state: PollState, events: Seq<PollEvent>)
    ensures
        ascending_from(state.cursor, state.forwards_all(events)),
        all_below(state.forwards_all(events), state.after_all(events).cursor),
        state.cursor <= state.after_all(events).cursor,
    decreases events.len(),
{
    if events.len() > 0 {
        let next = state.after(events[0]);
        let head = state.forwards(events[0]);
        let tail = next.forwards_all(events.drop_first());
        let end = state.after_all(events).cursor;
        lemma_stream_is_ascending(next, events.drop_first());
        if state.phase == PollPhase::Polling {
            if let PollEvent::Events(answer) = events[0] {
                lemma_forwarded_is_ascending(state.cursor, answer@);
            }
        }
        assert(state.cursor <= next.cursor);
        assert(ascending_from(state.cursor, head) && all_below(head, next.cursor));
        let whole = head + tail;
        assert forall|i: int| 0 <= i < whole.len() implies (#[trigger] whole[i]).id()
            >= state.cursor && whole[i].id() < end by {
            if i >= head.len() {
                assert(whole[i] == tail[i - head.len()]);
            } else {
                assert(whole[i] == head[i]);
            }
        }
        assert forall|i: int, j: int| 0 <= i < j < whole.len() implies (
        #[trigger] whole[i]).id() < (#[trigger] whole[j]).id() by {
            if i >= head.len() {
                assert(whole[i] == tail[i - head.len()]);
                assert(whole[j] == tail[j - head.len()]);
            } else if j >= head.len() {
                assert(whole[i] == head[i]);
                assert(whole[j] == tail[j - head.len()]);
            } else {
                assert(whole[i] == head[i]);
                assert(whole[j] == head[j]);
            }
        }
    }
}

/// Until the consumer has asked for its first event, the task is told to wait or to end, never
/// to make a request, and nothing is forwarded.
pub proof fn lemma_no_request_before_start(events: Seq<PollEvent>)
    requires
        forall|i: int| 0 <= i < events.len() ==> !((#[trigger] events[i]) is StartSignal),
    ensures
        PollState::initial().after_all(events).command() is AwaitStart
            || PollState::initial().after_all(events).command() is Halt,
        PollState::initial().forwards_all(events) == Seq::<GameEvent>::empty(),
{
    lemma_idle_without_start(PollState::initial(), events);
}

/// The step of `lemma_no_request_before_start`: it holds from every state in which the
/// task has not been started.
proof fn lemma_idle_without_start(state: PollState, events: Seq<PollEvent>)
    requires
        state.phase is Created || state.phase is AwaitingStart || state.phase is Stopped,
        forall|i: int| 0 <= i < events.len() ==> !((#[trigger] events[i]) is StartSignal),
    ensures
        state.after_all(events).command() is AwaitStart || state.after_all(
            events,
        ).command() is Halt,
        state.forwards_all(events) == Seq::<GameEvent>::empty(),
    decreases events.len(),
{
    if events.len() > 0 {
        let rest = events.drop_first();
        assert(!(events[0] is StartSignal));
        assert forall|i: int| 0 <= i < rest.len() implies !((
        #[trigger] rest[i]) is StartSignal) by {
            assert(rest[i] == events[i + 1]);
        }
        lemma_idle_without_start(state.after(events[0]), rest);
        assert(Seq::<GameEvent>::empty() + Seq::<GameEvent>::empty() == Seq::<GameEvent>::empty());
    }
}

/// Cancelling stops the task in whatever phase it is: the very next command is `Halt`, and
/// from then on nothing is forwarded and no other command is given, whatever still comes.
pub proof fn lemma_cancel_stops(state: PollState, later: Seq<PollEvent>)
    ensures
        state.after(PollEvent::Cancelled).command() is Halt,
        state.forwards(PollEvent::Cancelled) == Seq::<GameEvent>::empty(),
        state.after(PollEvent::Cancelled).after_all(later).command() is Halt,
        state.after(PollEvent::Cancelled).forwards_all(later) == Seq::<GameEvent>::empty(),
{
    lemma_stopped_is_terminal(state.after(PollEvent::Cancelled), later);
}

/// A stopped engine stays stopped and forwards nothing. A query that fails stops the engine.
pub proof fn lemma_stopped_is_terminal(state: PollState, events: Seq<PollEvent>)
    requires
        state.phase is Stopped,
    ensures
        state.after_all(events) == state,
        state.forwards_all(events) == Seq::<GameEvent>::empty(),
    decreases events.len(),
{
    if events.len() > 0 {
        lemma_stopped_is_terminal(state, events.drop_first());
        assert(Seq::<GameEvent>::empty() + Seq::<GameEvent>::empty() == Seq::<GameEvent>::empty());
    }
}

} // verus!
