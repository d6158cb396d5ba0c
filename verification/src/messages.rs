//! The texts that the game sends: what is said when a game cannot start,
//! when a player leaves, and when somebody wins.

use crate::clock::{elapsed_seconds, format_utc, remainder, toward_zero, Timestamp};
use crate::models::game::Validation;
use crate::models::player::{views, Player, PlayerView};
use crate::text::{decimal, push_signed_decimal, signed_decimal};
use serenity::all::{Mentionable, UserId};
use vstd::prelude::*;
use vstd::string::*;

verus! {

/// A message with a headline and a body, shown as an embed.
#[derive(Debug)]
pub struct Notice {
    pub title: String,
    pub description: String,
}

/// What a [`Notice`] stands for in contracts.
pub struct NoticeView {
    pub title: Seq<char>,
    pub description: Seq<char>,
}

impl View for Notice {
    type V = NoticeView;

    open spec fn view(&self) -> NoticeView {
        NoticeView { title: self.title@, description: self.description@ }
    }
}

/// A span of whole seconds as hours, minutes and seconds, such as
/// `1H 2M 5S`. Each part of a negative span carries its own sign.
pub open spec fn total_time_text(total: int) -> Seq<char> {
    signed_decimal(toward_zero(total, 3600)) + "H "@ + signed_decimal(
        toward_zero(remainder(total, 3600), 60),
    ) + "M "@ + signed_decimal(remainder(total, 60)) + "S"@
}

/// The text that makes a chat client show and notify a user: the decimal
/// identity between `<@` and `>`.
pub open spec fn mention_text(identity: u64) -> Seq<char> {
    "<@"@ + decimal(identity as nat) + ">"@
}

/// The three lines on when a game started, when a player's part in it
/// ended, and how long that was.
pub open spec fn dt_description_text(start: Timestamp, end: Timestamp) -> Seq<char> {
    "* **🗓️ Game start**: "@ + start.calendar_text() + "\n* **🗓️ End time**:      "@
        + end.calendar_text() + "\n* **🕘 Total time**: "@ + total_time_text(
        start.seconds_until(end),
    )
}

/// The body of the message on a player who has won.
pub open spec fn winner_text(identity: u64, start: Timestamp, end: Timestamp) -> Seq<char> {
    "The player "@ + mention_text(identity) + " has won the game.\n\n"@ + dt_description_text(
        start,
        end,
    )
}

/// The body of the message on a player who has left.
pub open spec fn leave_text(identity: u64, start: Timestamp, end: Timestamp) -> Seq<char> {
    "The player "@ + mention_text(identity) + " has left.\n\n"@ + dt_description_text(start, end)
}

/// Calls serenity's `UserId::new`, `Mentionable::mention` and the `Display`
/// of the `Mention` it returns, which writes the identity in decimal
/// between `<@` and `>`. `UserId::new` panics on zero.
#[verifier::external_body]
fn serenity_mention(identity: u64) -> (r: String)
    requires
        identity != 0,
    ensures
        r@ == mention_text(identity),
{
    UserId::new(identity).mention().to_string()
}

/// Appends a span of whole seconds as hours, minutes and seconds.
fn push_total_time(out: &mut String, total: i64)
    ensures
        final(out)@ == old(out)@ + total_time_text(total as int),
{
    let hours: i64 = total / 3600;
    let within_hour: i64 = total % 3600;
    let minutes: i64 = within_hour / 60;
    let seconds: i64 = total % 60;
    push_signed_decimal(out, hours);
    out.append("H ");
    push_signed_decimal(out, minutes);
    out.append("M ");
    push_signed_decimal(out, seconds);
    out.append("S");
}

/// The time from `start_dt` to `end_dt` in whole seconds, as hours, minutes
/// and seconds.
pub fn get_total_time(start_dt: Timestamp, end_dt: Timestamp) -> (r: String)
    ensures
        r@ == total_time_text(start_dt.seconds_until(end_dt)),
{
    let mut out = String::new();
    push_total_time(&mut out, elapsed_seconds(start_dt, end_dt));
    out
}

/// Three lines on a player who is out of the game: when the game started,
/// when the player's part in it ended, and how long that was.
pub fn get_player_dt_description(player: &Player, start_dt: Timestamp) -> (r: String)
    requires
        player@.eliminated_at is Some,
    ensures
        r@ == dt_description_text(start_dt, player@.eliminated_at->0),
{
    let end_dt = player.eliminated_at.unwrap();
    let mut out = String::from_str("* **🗓️ Game start**: ");
    out.append(format_utc(start_dt).as_str());
    out.append("\n* **🗓️ End time**:      ");
    out.append(format_utc(end_dt).as_str());
    out.append("\n* **🕘 Total time**: ");
    push_total_time(&mut out, elapsed_seconds(start_dt, end_dt));
    out
}

/// The message on the player who has won; `winner.eliminated_at` is the
/// time of the win.
pub fn get_winner_message(winner: &Player, start_dt: Timestamp) -> (r: Notice)
    requires
        winner@.eliminated_at is Some,
        winner@.identity != 0,
    ensures
        r@.title == "CONGRATULATIONS ✨🎉!"@,
        r@.description == winner_text(winner@.identity, start_dt, winner@.eliminated_at->0),
{
    let mut description = String::from_str("The player ");
    description.append(serenity_mention(winner.identity).as_str());
    description.append(" has won the game.\n\n");
    description.append(get_player_dt_description(winner, start_dt).as_str());
    Notice { title: String::from_str("CONGRATULATIONS ✨🎉!"), description }
}

/// The message on a player who has left the voice channel.
pub fn get_leave_message(player: &Player, start_dt: Timestamp) -> (r: Notice)
    requires
        player@.eliminated_at is Some,
        player@.identity != 0,
    ensures
        r@.title == "Oh no... A player left the voice channel 🥺."@,
        r@.description == leave_text(player@.identity, start_dt, player@.eliminated_at->0),
{
    let mut description = String::from_str("The player ");
    description.append(serenity_mention(player.identity).as_str());
    description.append(" has left.\n\n");
    description.append(get_player_dt_description(player, start_dt).as_str());
    Notice { title: String::from_str("Oh no... A player left the voice channel 🥺."), description }
}

/// One line of the status board: a player and how they are doing.
#[derive(Debug)]
pub struct StatusField {
    pub name: String,
    pub value: String,
}

/// What a [`StatusField`] stands for in contracts.
pub struct StatusFieldView {
    pub name: Seq<char>,
    pub value: Seq<char>,
}

impl View for StatusField {
    type V = StatusFieldView;

    open spec fn view(&self) -> StatusFieldView {
        StatusFieldView { name: self.name@, value: self.value@ }
    }
}

/// The status of a running game: a headline with the time played so far,
/// and one line for each player of the roster, in roster order.
#[derive(Debug)]
pub struct StatusBoard {
    pub title: String,
    pub description: String,
    pub fields: Vec<StatusField>,
}

/// What a [`StatusBoard`] stands for in contracts.
pub struct StatusBoardView {
    pub title: Seq<char>,
    pub description: Seq<char>,
    pub fields: Seq<StatusFieldView>,
}

/// The views of a sequence of status lines, in order.
pub open spec fn field_views(fields: Seq<StatusField>) -> Seq<StatusFieldView> {
    fields.map_values(|f: StatusField| f@)
}

impl View for StatusBoard {
    type V = StatusBoardView;

    open spec fn view(&self) -> StatusBoardView {
        StatusBoardView {
            title: self.title@,
            description: self.description@,
            fields: field_views(self.fields@),
        }
    }
}

/// The status line of a player in a game that started at `start`: alive,
/// or lost after the time they stayed.
pub open spec fn status_field_of(player: PlayerView, start: Timestamp) -> StatusFieldView {
    match player.eliminated_at {
        None => StatusFieldView {
            name: "❤️ "@ + player.display_name,
            value: "* Still alive."@,
        },
        Some(end) => StatusFieldView {
            name: "💔 "@ + player.display_name,
            value: "* Has lost with "@ + total_time_text(start.seconds_until(end)) + "."@,
        },
    }
}

/// The status board of a roster at `now`, in a game that started at
/// `start`.
pub open spec fn status_board_of(roster: Seq<PlayerView>, start: Timestamp, now: Timestamp)
    -> StatusBoardView {
    StatusBoardView {
        title: "["@ + total_time_text(start.seconds_until(now)) + "] Game Status 🎮🎯:"@,
        description: "Current players:"@,
        fields: roster.map_values(|p: PlayerView| status_field_of(p, start)),
    }
}

/// The status line of a player in a game that started at `start_dt`.
pub fn get_status_field(player: &Player, start_dt: Timestamp) -> (r: StatusField)
    ensures
        r@ == status_field_of(player@, start_dt),
{
    match player.eliminated_at {
        None => {
            let mut name = String::from_str("❤️ ");
            name.append(player.display_name.as_str());
            StatusField { name, value: String::from_str("* Still alive.") }
        },
        Some(end_dt) => {
            let mut name = String::from_str("💔 ");
            name.append(player.display_name.as_str());
            let mut value = String::from_str("* Has lost with ");
            push_total_time(&mut value, elapsed_seconds(start_dt, end_dt));
            value.append(".");
            StatusField { name, value }
        },
    }
}

/// The status board of `players` at `now`, in a game that started at
/// `start_dt`.
pub fn get_status_board(players: &Vec<Player>, start_dt: Timestamp, now: Timestamp) -> (r:
    StatusBoard)
    ensures
        r@ == status_board_of(views(players@), start_dt, now),
{
    let mut title = String::from_str("[");
    push_total_time(&mut title, elapsed_seconds(start_dt, now));
    title.append("] Game Status 🎮🎯:");
    let mut fields: Vec<StatusField> = Vec::new();
    let mut i: usize = 0;
    while i < players.len()
        invariant
            i <= players.len(),
            fields@.len() == i,
            forall|j: int|
                0 <= j < i ==> (#[trigger] fields@[j])@ == status_field_of(players@[j]@, start_dt),
        decreases players.len() - i,
    {
        fields.push(get_status_field(&players[i], start_dt));
        i += 1;
    }
    let board = StatusBoard { title, description: String::from_str("Current players:"), fields };
    assert(board@.fields =~= status_board_of(views(players@), start_dt, now).fields);
    board
}

/// What to say when the owner's context is not fit for a game; nothing
/// when it is.
pub open spec fn ctx_text(owner: u64, outcome: Validation) -> Option<Seq<char>> {
    match outcome {
        Validation::Ready => None,
        Validation::NotInChannel => Some(
            mention_text(owner) + " you're not in a voice channel."@,
        ),
        Validation::TooFewOccupants => Some(
            "The current voice channel doesn't have enough players."@,
        ),
    }
}

/// What to say to the owner `owner` after the check of their context:
/// why the game cannot start, or nothing when it can.
pub fn get_ctx_message(owner: u64, outcome: Validation) -> (r: Option<String>)
    requires
        outcome == Validation::NotInChannel ==> owner != 0,
    ensures
        r is Some <==> ctx_text(owner, outcome) is Some,
        r matches Some(text) ==> text@ == ctx_text(owner, outcome)->0,
{
    match outcome {
        Validation::Ready => None,
        Validation::NotInChannel => {
            let mut text = serenity_mention(owner);
            text.append(" you're not in a voice channel.");
            Some(text)
        },
        Validation::TooFewOccupants => Some(
            String::from_str("The current voice channel doesn't have enough players."),
        ),
    }
}

/// What is said when a game starts.
pub fn get_start_message() -> (r: String)
    ensures
        r@ == "Starting game..."@,
{
    String::from_str("Starting game...")
}

/// What is said when a game ends without a winner.
pub fn get_no_contest_message() -> (r: String)
    ensures
        r@ == "Nobody won the game."@,
{
    String::from_str("Nobody won the game.")
}

} // verus!
