//! The game engine: from a validated context through the poll cycles to a
//! winner or a no-contest.
//!
//! The engine decides; it performs no input or output. Its caller resolves
//! the voice channel, fetches membership snapshots, reads the clock, sends
//! what a cycle reports, and waits between cycles.

use crate::clock::{elapsed_seconds, Timestamp};
use crate::messages::{get_status_board, status_board_of, StatusBoard, StatusBoardView};
use crate::models::player::{
    occupant_views, views, views_of_refs, Occupant, OccupantView, Player, PlayerView,
};
use crate::models::registry::{
    alive_of, count_identities, distinct, identities, lemma_mark_keeps_identities, mark_all,
    newly_left, roster_of, Registry,
};
use vstd::prelude::*;

verus! {

/// Where a game stands.
#[derive(Clone, Copy, Debug, PartialEq, Eq, Structural)]
pub enum Phase {
    /// Created; the context has not been found valid yet.
    Idle,
    /// The context is valid; the roster has not been captured yet.
    AwaitingStart,
    /// The roster is captured and at least two players are alive.
    Polling,
    /// Over: exactly one player outlasted the others.
    FinishedWinner,
    /// Over: nobody is left to be declared the winner.
    FinishedNoContest,
}

/// What the check of the owner's context found.
#[derive(Clone, Copy, Debug, PartialEq, Eq, Structural)]
pub enum Validation {
    /// The owner is in a voice channel with at least two occupants.
    Ready,
    /// The owner is in no voice channel.
    NotInChannel,
    /// The owner's voice channel has fewer than two occupants.
    TooFewOccupants,
}

/// A failed exchange with the outside: the membership source did not
/// answer, or a message could not be delivered.
#[derive(Clone, Copy, Debug, PartialEq, Eq, Structural)]
pub struct Fault {}

/// Why a run of the game was given up.
#[derive(Clone, Copy, Debug, PartialEq, Eq, Structural)]
pub enum GameError {
    /// The occupancy of the voice channel could not be read.
    MembershipFetchFault,
    /// A notification or the status message could not be delivered.
    PublishFault,
    /// Fewer than two participants were left when the roster was captured.
    EmptyRosterError,
}

/// How a game ended.
#[derive(Debug)]
pub enum Outcome {
    /// One player remained. `player.eliminated_at` is the time of the win,
    /// `elapsed` the whole seconds since the start of the game.
    Winner { player: Player, elapsed: i64 },
    /// Nobody remained.
    NoContest,
}

/// What an [`Outcome`] stands for in contracts.
pub enum OutcomeView {
    Winner { player: PlayerView, elapsed: i64 },
    NoContest,
}

impl View for Outcome {
    type V = OutcomeView;

    open spec fn view(&self) -> OutcomeView {
        match *self {
            Outcome::Winner { player, elapsed } => OutcomeView::Winner { player: player@, elapsed },
            Outcome::NoContest => OutcomeView::NoContest,
        }
    }
}

/// What to do after a poll cycle.
#[derive(Debug)]
pub enum Verdict {
    /// At least two players are alive: wait for the poll interval, then
    /// poll again.
    Sleep,
    /// Fewer than two players are alive: the game is over.
    Finished(Outcome),
}

/// What a [`Verdict`] stands for in contracts.
pub enum VerdictView {
    Sleep,
    Finished(OutcomeView),
}

impl View for Verdict {
    type V = VerdictView;

    open spec fn view(&self) -> VerdictView {
        match *self {
            Verdict::Sleep => VerdictView::Sleep,
            Verdict::Finished(outcome) => VerdictView::Finished(outcome@),
        }
    }
}

/// How to publish the status of the game.
#[derive(Clone, Copy, Debug, PartialEq, Eq, Structural)]
pub enum Publish {
    /// No status message exists yet: send one.
    Create,
    /// Overwrite the status message with this handle.
    Edit(u64),
}

/// What one poll cycle found and asks for.
#[derive(Debug)]
pub struct Cycle {
    /// The players who left in this cycle, in roster order: one leave
    /// notification is due for each, in this order.
    pub left: Vec<Player>,
    /// The status of the game after the cycle.
    pub status: StatusBoard,
    /// Whether the status goes into a new message or over the existing one.
    pub publish: Publish,
    /// Whether to go on polling.
    pub verdict: Verdict,
}

/// What a [`Cycle`] stands for in contracts.
pub struct CycleView {
    pub left: Seq<PlayerView>,
    pub status: StatusBoardView,
    pub publish: Publish,
    pub verdict: VerdictView,
}

impl View for Cycle {
    type V = CycleView;

    open spec fn view(&self) -> CycleView {
        CycleView {
            left: views(self.left@),
            status: self.status@,
            publish: self.publish,
            verdict: self.verdict@,
        }
    }
}

/// The state of a game, as contracts see it.
pub struct GameView {
    /// The participant who asked for the game.
    pub owner: u64,
    /// The text channel in which the game was asked for.
    pub channel: u64,
    /// The guild of that channel.
    pub guild: u64,
    /// The roster, in capture order; empty until the game starts.
    pub roster: Seq<PlayerView>,
    /// The voice channel under observation, once resolved.
    pub voice_channel: Option<u64>,
    /// The status message, once one was published.
    pub status_handle: Option<u64>,
    /// When the game started.
    pub start: Option<Timestamp>,
    /// Where the game stands.
    pub phase: Phase,
}

/// What a check of the owner's context finds: `channel` is the voice
/// channel that the owner is in, if any, and `snapshot` the occupants of
/// that channel.
pub open spec fn validation_of(channel: Option<u64>, snapshot: Seq<OccupantView>) -> Validation {
    if channel is None {
        Validation::NotInChannel
    } else if roster_of(snapshot).len() < 2 {
        Validation::TooFewOccupants
    } else {
        Validation::Ready
    }
}

/// The phase that a started game is in, given its roster.
pub open spec fn phase_of(roster: Seq<PlayerView>) -> Phase {
    if alive_of(roster).len() >= 2 {
        Phase::Polling
    } else if alive_of(roster).len() == 1 {
        Phase::FinishedWinner
    } else {
        Phase::FinishedNoContest
    }
}

/// How a game with this roster ends at `now`, if fewer than two players are
/// alive: without a winner if nobody is, else with the one who is, marked
/// as having won at `now`.
pub open spec fn outcome_of(roster: Seq<PlayerView>, start: Timestamp, now: Timestamp)
    -> OutcomeView {
    if alive_of(roster).len() == 0 {
        OutcomeView::NoContest
    } else {
        OutcomeView::Winner {
            player: alive_of(roster).last().eliminated(now),
            elapsed: start.seconds_until(now) as i64,
        }
    }
}

/// What follows a poll cycle that left this roster: another cycle while
/// two players are alive, else the end of the game.
pub open spec fn verdict_of(roster: Seq<PlayerView>, start: Timestamp, now: Timestamp)
    -> VerdictView {
    if alive_of(roster).len() >= 2 {
        VerdictView::Sleep
    } else {
        VerdictView::Finished(outcome_of(roster, start, now))
    }
}

/// How the status is to be published, given the handle recorded so far.
pub open spec fn publish_of(status_handle: Option<u64>) -> Publish {
    match status_handle {
        None => Publish::Create,
        Some(handle) => Publish::Edit(handle),
    }
}

/// The game after its roster was captured from `snapshot` at `now`: polling
/// if the snapshot names two participants, else over without a contest.
pub open spec fn started(pre: GameView, snapshot: Seq<OccupantView>, now: Timestamp) -> GameView {
    if roster_of(snapshot).len() >= 2 {
        GameView { roster: roster_of(snapshot), start: Some(now), phase: Phase::Polling, ..pre }
    } else {
        GameView { phase: Phase::FinishedNoContest, ..pre }
    }
}

/// The game after a poll cycle in which the identities `present` were in
/// the voice channel at `now`.
pub open spec fn polled(pre: GameView, present: Set<u64>, now: Timestamp) -> GameView {
    GameView {
        roster: mark_all(pre.roster, present, now),
        phase: phase_of(mark_all(pre.roster, present, now)),
        ..pre
    }
}

/// What a poll cycle reports, for a game that was polling: who left, the
/// status afterwards, how to publish it, and whether to go on.
pub open spec fn cycle_of(pre: GameView, present: Set<u64>, now: Timestamp) -> CycleView {
    let roster = mark_all(pre.roster, present, now);
    CycleView {
        left: newly_left(pre.roster, present, now),
        status: status_board_of(roster, pre.start->0, now),
        publish: publish_of(pre.status_handle),
        verdict: verdict_of(roster, pre.start->0, now),
    }
}

/// An elimination game among the occupants of a voice channel.
#[derive(Debug)]
pub struct Game {
    game_owner_id: u64,
    channel_id: u64,
    guild_id: u64,
    original_players: Registry,
    v_channel: Option<u64>,
    game_message: Option<u64>,
    start_dt: Option<Timestamp>,
    phase: Phase,
}

impl View for Game {
    type V = GameView;

    closed spec fn view(&self) -> GameView {
        GameView {
            owner: self.game_owner_id,
            channel: self.channel_id,
            guild: self.guild_id,
            roster: self.original_players@,
            voice_channel: self.v_channel,
            status_handle: self.game_message,
            start: self.start_dt,
            phase: self.phase,
        }
    }
}

impl GameView {
    /// What holds of a game in every state: no identity occurs twice in the
    /// roster; before the start the roster is empty and nothing was
    /// published; a polling game has a voice channel, a start time and two
    /// players alive; a finished game has fewer than two.
    pub open spec fn wf(self) -> bool {
        &&& distinct(self.roster)
        &&& match self.phase {
            Phase::Idle => self.roster.len() == 0 && self.start is None && self.status_handle is None,
            Phase::AwaitingStart => {
                &&& self.roster.len() == 0
                &&& self.start is None
                &&& self.status_handle is None
                &&& self.voice_channel is Some
            },
            Phase::Polling => {
                &&& self.start is Some
                &&& self.voice_channel is Some
                &&& alive_of(self.roster).len() >= 2
            },
            Phase::FinishedWinner => self.start is Some && alive_of(self.roster).len() == 1,
            Phase::FinishedNoContest => alive_of(self.roster).len() == 0,
        }
    }
}

impl Game {
    /// What holds of a game in every state; see [`GameView::wf`].
    pub open spec fn wf(&self) -> bool {
        self@.wf()
    }

    /// A game asked for by `game_owner_id` in the text channel `channel_id`
    /// of the guild `guild_id`. Nothing is resolved or captured yet.
    pub fn new(game_owner_id: u64, channel_id: u64, guild_id: u64) -> (r: Game)
        ensures
            r.wf(),
            r@ == (GameView {
                owner: game_owner_id,
                channel: channel_id,
                guild: guild_id,
                roster: Seq::empty(),
                voice_channel: None,
                status_handle: None,
                start: None,
                phase: Phase::Idle,
            }),
    {
        Game {
            game_owner_id,
            channel_id,
            guild_id,
            original_players: Registry::empty(),
            v_channel: None,
            game_message: None,
            start_dt: None,
            phase: Phase::Idle,
        }
    }

    /// Where the game stands.
    pub fn phase(&self) -> (r: Phase)
        ensures
            r == self@.phase,
    {
        self.phase
    }

    /// The participant who asked for the game.
    pub fn game_owner_id(&self) -> (r: u64)
        ensures
            r == self@.owner,
    {
        self.game_owner_id
    }

    /// The text channel in which the game was asked for.
    pub fn channel_id(&self) -> (r: u64)
        ensures
            r == self@.channel,
    {
        self.channel_id
    }

    /// The guild of the game.
    pub fn guild_id(&self) -> (r: u64)
        ensures
            r == self@.guild,
    {
        self.guild_id
    }

    /// The roster, in capture order; empty until the game starts.
    pub fn original_players(&self) -> (r: &Vec<Player>)
        ensures
            views(r@) == self@.roster,
    {
        self.original_players.players()
    }

    /// The voice channel under observation, once resolved.
    pub fn v_channel(&self) -> (r: Option<u64>)
        ensures
            r == self@.voice_channel,
    {
        self.v_channel
    }

    /// The status message, once one was published.
    pub fn game_message(&self) -> (r: Option<u64>)
        ensures
            r == self@.status_handle,
    {
        self.game_message
    }

    /// When the game started, once it did.
    pub fn start_dt(&self) -> (r: Option<Timestamp>)
        ensures
            r == self@.start,
    {
        self.start_dt
    }

    /// Records the voice channel that the owner was found in. When the
    /// owner was found in none, the reference stays as it was.
    pub fn set_v_channel(&mut self, resolved: Option<u64>)
        requires
            old(self).wf(),
            old(self)@.phase == Phase::Idle,
        ensures
            final(self).wf(),
            final(self)@ == (GameView {
                voice_channel: if resolved is Some {
                    resolved
                } else {
                    old(self)@.voice_channel
                },
                ..old(self)@
            }),
    {
        if resolved.is_some() {
            self.v_channel = resolved;
        }
    }

    /// Checks the owner's context: `resolved` is the voice channel that the
    /// owner is in, if any, and `occupants` a snapshot of that channel. The
    /// game awaits its start when the owner is in a voice channel with at
    /// least two occupants, and stays idle otherwise.
    pub fn is_ctx_valid(&mut self, resolved: Option<u64>, occupants: &Vec<Occupant>) -> (r:
        Validation)
        requires
            old(self).wf(),
            old(self)@.phase == Phase::Idle,
        ensures
            final(self).wf(),
            r == validation_of(final(self)@.voice_channel, occupant_views(occupants@)),
            final(self)@ == (GameView {
                voice_channel: if resolved is Some {
                    resolved
                } else {
                    old(self)@.voice_channel
                },
                phase: if r == Validation::Ready {
                    Phase::AwaitingStart
                } else {
                    Phase::Idle
                },
                ..old(self)@
            }),
    {
        self.set_v_channel(resolved);
        if self.v_channel.is_none() {
            return Validation::NotInChannel;
        }
        if count_identities(occupants) < 2 {
            return Validation::TooFewOccupants;
        }
        self.phase = Phase::AwaitingStart;
        Validation::Ready
    }

    /// Starts the game at `now` with the snapshot that the membership
    /// source gave. With two participants or more the roster is captured
    /// and the game polls. With fewer the game is over at once, without a
    /// contest. When the source failed, nothing changes.
    pub fn start(&mut self, fetched: Result<Vec<Occupant>, Fault>, now: Timestamp) -> (r: Result<
        (),
        GameError,
    >)
        requires
            old(self).wf(),
            old(self)@.phase == Phase::AwaitingStart,
        ensures
            final(self).wf(),
            match fetched {
                Err(_) => {
                    &&& r == Err::<(), GameError>(GameError::MembershipFetchFault)
                    &&& final(self)@ == old(self)@
                },
                Ok(occupants) => {
                    &&& final(self)@ == started(old(self)@, occupant_views(occupants@), now)
                    &&& r == if roster_of(occupant_views(occupants@)).len() >= 2 {
                        Ok::<(), GameError>(())
                    } else {
                        Err::<(), GameError>(GameError::EmptyRosterError)
                    }
                },
            },
    {
        let occupants = match fetched {
            Ok(occupants) => occupants,
            Err(_) => {
                return Err(GameError::MembershipFetchFault);
            },
        };
        match Registry::capture(&occupants) {
            Ok(registry) => {
                self.original_players = registry;
                self.start_dt = Some(now);
                self.phase = Phase::Polling;
                Ok(())
            },
            Err(_) => {
                self.phase = Phase::FinishedNoContest;
                proof {
                    reveal(Seq::filter);
                }
                Err(GameError::EmptyRosterError)
            },
        }
    }

    /// Applies a membership snapshot taken at `now` to a polling game:
    /// every player who was alive and is missing from it is eliminated at
    /// `now`, and the game is over once fewer than two are alive. Returns
    /// the players who left, in roster order.
    pub fn check_players(&mut self, current: &Vec<Occupant>, now: Timestamp) -> (left: Vec<Player>)
        requires
            old(self).wf(),
            old(self)@.phase == Phase::Polling,
        ensures
            final(self).wf(),
            final(self)@ == polled(old(self)@, identities(occupant_views(current@)), now),
            views(left@) == newly_left(
                old(self)@.roster,
                identities(occupant_views(current@)),
                now,
            ),
    {
        let left = self.original_players.mark_left(current, now);
        let alive = self.original_players.alive_count();
        if alive >= 2 {
            self.phase = Phase::Polling;
        } else if alive == 1 {
            self.phase = Phase::FinishedWinner;
        } else {
            self.phase = Phase::FinishedNoContest;
        }
        left
    }

    /// The players who are alive, in roster order.
    pub fn get_alive_players(&self) -> (r: Vec<&Player>)
        ensures
            views_of_refs(r@) == alive_of(self@.roster),
    {
        self.original_players.alive()
    }

    /// The status board of the game at `now`.
    pub fn get_embed_game_message(&self, now: Timestamp) -> (r: StatusBoard)
        requires
            self@.start is Some,
        ensures
            r@ == status_board_of(self@.roster, self@.start->0, now),
    {
        get_status_board(self.original_players.players(), self.start_dt.unwrap(), now)
    }

    /// Whether the status goes into a new message or over the one that was
    /// published before.
    pub fn edit_game_message(&self) -> (r: Publish)
        ensures
            r == publish_of(self@.status_handle),
    {
        match self.game_message {
            None => Publish::Create,
            Some(handle) => Publish::Edit(handle),
        }
    }

    /// Takes note of how publishing went. The handle of a status message
    /// that was created is kept if none was kept before; a failure to
    /// deliver is fatal to the run and changes nothing.
    pub fn set_game_message(&mut self, sent: Result<Option<u64>, Fault>) -> (r: Result<
        (),
        GameError,
    >)
        requires
            old(self).wf(),
            old(self)@.phase != Phase::Idle,
            old(self)@.phase != Phase::AwaitingStart,
        ensures
            final(self).wf(),
            match sent {
                Err(_) => {
                    &&& r == Err::<(), GameError>(GameError::PublishFault)
                    &&& final(self)@ == old(self)@
                },
                Ok(created) => {
                    &&& r == Ok::<(), GameError>(())
                    &&& final(self)@ == (GameView {
                        status_handle: if old(self)@.status_handle is None {
                            created
                        } else {
                            old(self)@.status_handle
                        },
                        ..old(self)@
                    })
                },
            },
    {
        match sent {
            Err(_) => Err(GameError::PublishFault),
            Ok(created) => {
                if self.game_message.is_none() {
                    self.game_message = created;
                }
                Ok(())
            },
        }
    }

    /// Whether to go on polling after a cycle at `now`, and how the game
    /// ended if not.
    pub fn verdict(&self, now: Timestamp) -> (r: Verdict)
        requires
            self@.start is Some,
        ensures
            r@ == verdict_of(self@.roster, self@.start->0, now),
    {
        let alive = self.original_players.alive();
        if alive.len() >= 2 {
            Verdict::Sleep
        } else if alive.len() == 0 {
            Verdict::Finished(Outcome::NoContest)
        } else {
            let last = alive[alive.len() - 1];
            let player = Player {
                identity: last.identity,
                display_name: last.display_name.clone(),
                eliminated_at: Some(now),
            };
            let elapsed = elapsed_seconds(self.start_dt.unwrap(), now);
            Verdict::Finished(Outcome::Winner { player, elapsed })
        }
    }

    /// One poll cycle of a polling game, on what the membership source gave
    /// at `now`. When the source failed, the run is given up and nothing
    /// changes: whoever was eliminated before stays so. Otherwise the
    /// snapshot is applied, and the cycle reports who left, the status
    /// afterwards, how to publish it, and whether to go on.
    pub fn poll(&mut self, fetched: Result<Vec<Occupant>, Fault>, now: Timestamp) -> (r: Result<
        Cycle,
        GameError,
    >)
        requires
            old(self).wf(),
            old(self)@.phase == Phase::Polling,
        ensures
            final(self).wf(),
            match fetched {
                Err(_) => {
                    &&& r == Err::<Cycle, GameError>(GameError::MembershipFetchFault)
                    &&& final(self)@ == old(self)@
                },
                Ok(current) => {
                    &&& final(self)@ == polled(
                        old(self)@,
                        identities(occupant_views(current@)),
                        now,
                    )
                    &&& r matches Ok(cycle)
                    &&& cycle@ == cycle_of(old(self)@, identities(occupant_views(current@)), now)
                },
            },
    {
        let current = match fetched {
            Ok(current) => current,
            Err(_) => {
                return Err(GameError::MembershipFetchFault);
            },
        };
        let left = self.check_players(&current, now);
        let status = self.get_embed_game_message(now);
        let publish = self.edit_game_message();
        let verdict = self.verdict(now);
        Ok(Cycle { left, status, publish, verdict })
    }
}

/// What a membership source gives in one poll cycle: the identities in the
/// voice channel, and the time of the reading.
pub struct Sample {
    pub present: Set<u64>,
    pub at: Timestamp,
}

/// The game after the poll cycles that `feed` supplies, one after another.
/// Once the game is over it polls no more, and what is left of the feed
/// changes nothing.
pub open spec fn polled_through(pre: GameView, feed: Seq<Sample>) -> GameView
    decreases feed.len(),
{
    if feed.len() == 0 {
        pre
    } else {
        let before = polled_through(pre, feed.drop_last());
        if before.phase == Phase::Polling {
            polled(before, feed.last().present, feed.last().at)
        } else {
            before
        }
    }
}

/// A poll cycle ends the game exactly when it leaves fewer than two
/// players alive. A game that polls has two alive, so the cycle that ends
/// it is the one in which their number first drops below two; and a cycle
/// that does not end it leaves it polling.
pub proof fn lemma_cycle_ends_with_the_drop(pre: GameView, present: Set<u64>, now: Timestamp)
    requires
        pre.wf(),
        pre.phase == Phase::Polling,
    ensures
        alive_of(pre.roster).len() >= 2,
        polled(pre, present, now).wf(),
        cycle_of(pre, present, now).verdict is Finished <==> alive_of(
            polled(pre, present, now).roster,
        ).len() < 2,
        cycle_of(pre, present, now).verdict is Sleep <==> polled(pre, present, now).phase
            == Phase::Polling,
        cycle_of(pre, present, now).verdict == VerdictView::Finished(OutcomeView::NoContest)
            <==> alive_of(polled(pre, present, now).roster).len() == 0,
{
    lemma_mark_keeps_identities(pre.roster, present, now);
}

/// Polling keeps a game well formed, and changes neither the size of its
/// roster nor anybody's identity or label.
pub proof fn lemma_polled_through(pre: GameView, feed: Seq<Sample>)
    requires
        pre.wf(),
        pre.phase == Phase::Polling,
    ensures
        polled_through(pre, feed).wf(),
        polled_through(pre, feed).start == pre.start,
        polled_through(pre, feed).roster.len() == pre.roster.len(),
        polled_through(pre, feed).phase != Phase::Idle,
        polled_through(pre, feed).phase != Phase::AwaitingStart,
        forall|i: int|
            0 <= i < pre.roster.len() ==> (#[trigger] polled_through(pre, feed).roster[i]).identity
                == pre.roster[i].identity,
    decreases feed.len(),
{
    if feed.len() > 0 {
        lemma_polled_through(pre, feed.drop_last());
        let before = polled_through(pre, feed.drop_last());
        if before.phase == Phase::Polling {
            lemma_mark_keeps_identities(before.roster, feed.last().present, feed.last().at);
        }
    }
}

/// A player whom every snapshot of a run lists is never eliminated.
pub proof fn lemma_present_stays_alive(pre: GameView, feed: Seq<Sample>, i: int)
    requires
        pre.wf(),
        pre.phase == Phase::Polling,
        0 <= i < pre.roster.len(),
        pre.roster[i].is_alive(),
        forall|k: int|
            0 <= k < feed.len() ==> (#[trigger] feed[k]).present.contains(pre.roster[i].identity),
    ensures
        polled_through(pre, feed).roster.len() == pre.roster.len(),
        polled_through(pre, feed).roster[i] == pre.roster[i],
    decreases feed.len(),
{
    lemma_polled_through(pre, feed);
    if feed.len() > 0 {
        let earlier = feed.drop_last();
        assert forall|k: int| 0 <= k < earlier.len() implies (#[trigger] earlier[k]).present.contains(
            pre.roster[i].identity,
        ) by {
            assert(earlier[k] == feed[k]);
        }
        lemma_present_stays_alive(pre, earlier, i);
        lemma_polled_through(pre, earlier);
        assert(feed[feed.len() - 1].present.contains(pre.roster[i].identity));
    }
}

/// In a roster where one player is alive and nobody else, the living are
/// that player alone.
pub proof fn lemma_sole_survivor(roster: Seq<PlayerView>, i: int)
    requires
        0 <= i < roster.len(),
        roster[i].is_alive(),
        forall|j: int| 0 <= j < roster.len() && j != i ==> !(#[trigger] roster[j]).is_alive(),
    ensures
        alive_of(roster) == seq![roster[i]],
    decreases roster.len(),
{
    reveal(Seq::filter);
    let earlier = roster.drop_last();
    if i == roster.len() - 1 {
        lemma_none_alive(earlier);
    } else {
        assert forall|j: int| 0 <= j < earlier.len() && j != i implies !(
        #[trigger] earlier[j]).is_alive() by {
            assert(earlier[j] == roster[j]);
        }
        lemma_sole_survivor(earlier, i);
        assert(!roster[roster.len() - 1].is_alive());
    }
    assert(alive_of(roster) =~= seq![roster[i]]);
}

/// In a roster where nobody is alive, the living are none.
pub proof fn lemma_none_alive(roster: Seq<PlayerView>)
    requires
        forall|j: int| 0 <= j < roster.len() ==> !(#[trigger] roster[j]).is_alive(),
    ensures
        alive_of(roster).len() == 0,
    decreases roster.len(),
{
    reveal(Seq::filter);
    if roster.len() > 0 {
        let earlier = roster.drop_last();
        assert forall|j: int| 0 <= j < earlier.len() implies !(#[trigger] earlier[j]).is_alive() by {
            assert(earlier[j] == roster[j]);
        }
        lemma_none_alive(earlier);
        assert(!roster[roster.len() - 1].is_alive());
    }
}

/// A player whom every snapshot of a run lists is never eliminated, and
/// wins once everybody else is: the game is then over with that player as
/// its winner, marked as having won at the time of the last cycle.
pub proof fn lemma_present_throughout_wins(pre: GameView, feed: Seq<Sample>, i: int, now: Timestamp)
    requires
        pre.wf(),
        pre.phase == Phase::Polling,
        0 <= i < pre.roster.len(),
        pre.roster[i].is_alive(),
        forall|k: int|
            0 <= k < feed.len() ==> (#[trigger] feed[k]).present.contains(pre.roster[i].identity),
        forall|j: int|
            0 <= j < pre.roster.len() && j != i ==> !(#[trigger] polled_through(
                pre,
                feed,
            ).roster[j]).is_alive(),
    ensures
        polled_through(pre, feed).roster[i] == pre.roster[i],
        polled_through(pre, feed).phase == Phase::FinishedWinner,
        verdict_of(polled_through(pre, feed).roster, pre.start->0, now) == VerdictView::Finished(
            OutcomeView::Winner {
                player: pre.roster[i].eliminated(now),
                elapsed: pre.start->0.seconds_until(now) as i64,
            },
        ),
{
    lemma_present_stays_alive(pre, feed, i);
    lemma_polled_through(pre, feed);
    lemma_sole_survivor(polled_through(pre, feed).roster, i);
}

} // verus!
