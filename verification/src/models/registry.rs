//! The player registry: the roster captured at the start of a game, who of
//! it is still alive, and who has just left.

use crate::clock::Timestamp;
use crate::models::player::{
    occupant_views, views, views_of_refs, Occupant, OccupantView, Player, PlayerView,
};
use vstd::prelude::*;

verus! {

/// The identities that a membership snapshot lists. A snapshot is read as a
/// set: neither the order of its entries nor a repeated entry matters.
pub open spec fn identities(snapshot: Seq<OccupantView>) -> Set<u64> {
    Set::new(
        |id: u64| exists|i: int| 0 <= i < snapshot.len() && (#[trigger] snapshot[i]).identity == id,
    )
}

/// The player that an occupant becomes when a roster is captured.
pub open spec fn fresh_player(occupant: OccupantView) -> PlayerView {
    PlayerView {
        identity: occupant.identity,
        display_name: occupant.display_name,
        eliminated_at: None,
    }
}

/// The roster that a snapshot gives: one player for each identity, in the
/// order in which the identities first appear, labelled as at that first
/// appearance.
pub open spec fn roster_of(snapshot: Seq<OccupantView>) -> Seq<PlayerView>
    decreases snapshot.len(),
{
    if snapshot.len() == 0 {
        Seq::empty()
    } else {
        let earlier = snapshot.drop_last();
        if identities(earlier).contains(snapshot.last().identity) {
            roster_of(earlier)
        } else {
            roster_of(earlier).push(fresh_player(snapshot.last()))
        }
    }
}

/// No identity occurs twice.
pub open spec fn distinct(roster: Seq<PlayerView>) -> bool {
    forall|i: int, j: int|
        0 <= i < j < roster.len() ==> (#[trigger] roster[i]).identity != (
        #[trigger] roster[j]).identity
}

/// Whether some player of the roster has the identity.
pub open spec fn enrolled(roster: Seq<PlayerView>, identity: u64) -> bool {
    exists|i: int| 0 <= i < roster.len() && (#[trigger] roster[i]).identity == identity
}

/// The test for being alive.
pub open spec fn alive_pred() -> spec_fn(PlayerView) -> bool {
    |p: PlayerView| p.is_alive()
}

/// The players of the roster who are alive, in roster order.
pub open spec fn alive_of(roster: Seq<PlayerView>) -> Seq<PlayerView> {
    roster.filter(alive_pred())
}

/// Whether a player is alive and missing from the identities present.
pub open spec fn leaves(player: PlayerView, present: Set<u64>) -> bool {
    player.is_alive() && !present.contains(player.identity)
}

/// The test for leaving, given the identities present.
pub open spec fn leaves_pred(present: Set<u64>) -> spec_fn(PlayerView) -> bool {
    |p: PlayerView| leaves(p, present)
}

/// A player after a snapshot was taken at `now`: eliminated at `now` if
/// they were alive and are missing, unchanged otherwise.
pub open spec fn mark(player: PlayerView, present: Set<u64>, now: Timestamp) -> PlayerView {
    if leaves(player, present) {
        player.eliminated(now)
    } else {
        player
    }
}

/// The roster after a snapshot was taken at `now`.
pub open spec fn mark_all(roster: Seq<PlayerView>, present: Set<u64>, now: Timestamp) -> Seq<
    PlayerView,
> {
    roster.map_values(|p: PlayerView| mark(p, present, now))
}

/// The players whom a snapshot taken at `now` eliminates, as they are
/// afterwards, in roster order.
pub open spec fn newly_left(roster: Seq<PlayerView>, present: Set<u64>, now: Timestamp) -> Seq<
    PlayerView,
> {
    roster.filter(leaves_pred(present)).map_values(|p: PlayerView| p.eliminated(now))
}

/// Filtering one element more either appends that element or changes
/// nothing.
pub proof fn lemma_filter_step<A>(s: Seq<A>, pred: spec_fn(A) -> bool, i: int)
    requires
        0 <= i < s.len(),
    ensures
        s.take(i + 1).filter(pred) == if pred(s[i]) {
            s.take(i).filter(pred).push(s[i])
        } else {
            s.take(i).filter(pred)
        },
{
    reveal(Seq::filter);
    assert(s.take(i + 1).drop_last() =~= s.take(i));
}

/// The roster of a snapshot enrols exactly the identities of the snapshot,
/// each once, and everybody in it is alive.
pub proof fn lemma_roster_of(snapshot: Seq<OccupantView>)
    ensures
        distinct(roster_of(snapshot)),
        roster_of(snapshot).len() <= snapshot.len(),
        forall|id: u64| enrolled(roster_of(snapshot), id) <==> identities(snapshot).contains(id),
        forall|i: int|
            0 <= i < roster_of(snapshot).len() ==> (#[trigger] roster_of(snapshot)[i]).is_alive(),
    decreases snapshot.len(),
{
    let roster = roster_of(snapshot);
    if snapshot.len() > 0 {
        let earlier = snapshot.drop_last();
        let before = roster_of(earlier);
        lemma_roster_of(earlier);
        assert forall|id: u64| enrolled(roster, id) <==> identities(snapshot).contains(id) by {
            if enrolled(roster, id) {
                // The player stood in the roster before, or is the one just added.
                let k = choose|k: int| 0 <= k < roster.len() && roster[k].identity == id;
                if k < before.len() {
                    assert(before[k] == roster[k]);
                    assert(enrolled(before, id));
                    let j = choose|j: int| 0 <= j < earlier.len() && earlier[j].identity == id;
                    assert(snapshot[j].identity == id);
                } else {
                    assert(snapshot[snapshot.len() - 1].identity == id);
                }
            }
            if identities(snapshot).contains(id) {
                // The identity was listed before, or by the last entry alone.
                let j = choose|j: int| 0 <= j < snapshot.len() && snapshot[j].identity == id;
                if j < earlier.len() {
                    assert(earlier[j].identity == id);
                }
                if identities(earlier).contains(id) {
                    let k = choose|k: int| 0 <= k < before.len() && before[k].identity == id;
                    assert(roster[k].identity == id);
                } else {
                    assert(roster[roster.len() - 1].identity == id);
                }
            }
        }
        assert forall|i: int, j: int| 0 <= i < j < roster.len() implies (#[trigger] roster[i]).identity
            != (#[trigger] roster[j]).identity by {
            assert(before[i] == roster[i]);
            if j == before.len() {
                // The player just added was not enrolled before.
                assert(enrolled(before, roster[i].identity));
            } else {
                assert(before[j] == roster[j]);
            }
        }
    }
}

/// A snapshot without repeated identities gives one player per entry, in
/// the order of the snapshot.
pub proof fn lemma_roster_of_distinct(snapshot: Seq<OccupantView>)
    requires
        forall|i: int, j: int|
            0 <= i < j < snapshot.len() ==> (#[trigger] snapshot[i]).identity != (
            #[trigger] snapshot[j]).identity,
    ensures
        roster_of(snapshot) == snapshot.map_values(|o: OccupantView| fresh_player(o)),
    decreases snapshot.len(),
{
    if snapshot.len() > 0 {
        let earlier = snapshot.drop_last();
        assert forall|i: int, j: int| 0 <= i < j < earlier.len() implies (#[trigger] earlier[i]).identity
            != (#[trigger] earlier[j]).identity by {
            assert(earlier[i] == snapshot[i] && earlier[j] == snapshot[j]);
        }
        lemma_roster_of_distinct(earlier);
        if identities(earlier).contains(snapshot.last().identity) {
            // Impossible: an earlier entry would share the identity of the last.
            let j = choose|j: int|
                0 <= j < earlier.len() && earlier[j].identity == snapshot.last().identity;
            assert(snapshot[j] == earlier[j]);
            assert(snapshot[snapshot.len() - 1] == snapshot.last());
        }
    }
    assert(roster_of(snapshot) =~= snapshot.map_values(|o: OccupantView| fresh_player(o)));
}

/// A roster in which everybody is alive is its own list of the living.
pub proof fn lemma_all_alive(roster: Seq<PlayerView>)
    requires
        forall|i: int| 0 <= i < roster.len() ==> (#[trigger] roster[i]).is_alive(),
    ensures
        alive_of(roster) == roster,
    decreases roster.len(),
{
    reveal(Seq::filter);
    if roster.len() > 0 {
        let earlier = roster.drop_last();
        assert forall|i: int| 0 <= i < earlier.len() implies (#[trigger] earlier[i]).is_alive() by {
            assert(earlier[i] == roster[i]);
        }
        lemma_all_alive(earlier);
        assert(roster[roster.len() - 1].is_alive());
    }
    assert(alive_of(roster) =~= roster);
}

/// Why a roster could not be captured: the snapshot named fewer than two
/// participants.
#[derive(Clone, Copy, Debug, PartialEq, Eq, Structural)]
pub struct EmptyRosterError {
    /// How many participants the snapshot did name: none or one.
    pub found: usize,
}

/// The roster of a game in capture order, with each player's elimination
/// time. No identity occurs twice in it, and it never grows or shrinks.
#[derive(Debug)]
pub struct Registry {
    players: Vec<Player>,
}

impl View for Registry {
    type V = Seq<PlayerView>;

    closed spec fn view(&self) -> Seq<PlayerView> {
        views(self.players@)
    }
}

/// Whether the snapshot lists the identity.
pub fn is_present(snapshot: &Vec<Occupant>, identity: u64) -> (r: bool)
    ensures
        r == identities(occupant_views(snapshot@)).contains(identity),
{
    let ghost snap = occupant_views(snapshot@);
    let mut i: usize = 0;
    while i < snapshot.len()
        invariant
            i <= snapshot.len(),
            snap == occupant_views(snapshot@),
            forall|j: int| 0 <= j < i ==> (#[trigger] snap[j]).identity != identity,
        decreases snapshot.len() - i,
    {
        if snapshot[i].identity == identity {
            assert(snap[i as int].identity == identity);
            return true;
        }
        i += 1;
    }
    false
}

/// Whether one of the players has the identity.
fn is_enrolled(players: &Vec<Player>, identity: u64) -> (r: bool)
    ensures
        r == enrolled(views(players@), identity),
{
    let ghost roster = views(players@);
    let mut i: usize = 0;
    while i < players.len()
        invariant
            i <= players.len(),
            roster == views(players@),
            forall|j: int| 0 <= j < i ==> (#[trigger] roster[j]).identity != identity,
        decreases players.len() - i,
    {
        if players[i].identity == identity {
            assert(roster[i as int].identity == identity);
            return true;
        }
        i += 1;
    }
    false
}

/// How many participants a snapshot names: entries with an identity that an
/// earlier entry has are not counted again.
pub fn count_identities(snapshot: &Vec<Occupant>) -> (r: usize)
    ensures
        r == roster_of(occupant_views(snapshot@)).len(),
{
    let ghost snap = occupant_views(snapshot@);
    let mut count: usize = 0;
    let mut i: usize = 0;
    while i < snapshot.len()
        invariant
            i <= snapshot.len(),
            snap == occupant_views(snapshot@),
            count == roster_of(snap.take(i as int)).len(),
            count <= i,
        decreases snapshot.len() - i,
    {
        let identity = snapshot[i].identity;
        let mut seen = false;
        let mut j: usize = 0;
        while j < i
            invariant
                j <= i,
                i < snapshot.len(),
                snap == occupant_views(snapshot@),
                identity == snap[i as int].identity,
                seen <==> exists|k: int| 0 <= k < j && (#[trigger] snap[k]).identity == identity,
            decreases i - j,
        {
            if snapshot[j].identity == identity {
                assert(snap[j as int].identity == identity);
                seen = true;
            }
            j += 1;
        }
        proof {
            let prefix = snap.take(i as int);
            assert(snap.take(i + 1).drop_last() =~= prefix);
            if seen {
                let k = choose|k: int| 0 <= k < i && (#[trigger] snap[k]).identity == identity;
                assert(prefix[k].identity == identity);
            }
            if identities(prefix).contains(identity) {
                let k = choose|k: int|
                    0 <= k < prefix.len() && (#[trigger] prefix[k]).identity == identity;
                assert(snap[k].identity == identity);
            }
        }
        if !seen {
            count += 1;
        }
        i += 1;
    }
    assert(snap.take(snapshot.len() as int) =~= snap);
    count
}

impl Registry {
    /// The invariant of a registry: no identity occurs twice.
    pub open spec fn wf(&self) -> bool {
        distinct(self@)
    }

    /// A registry without players: the roster of a game that has not
    /// started.
    pub fn empty() -> (r: Registry)
        ensures
            r@ == Seq::<PlayerView>::empty(),
            r.wf(),
    {
        Registry { players: Vec::new() }
    }

    /// Captures the roster of a game from a membership snapshot: one player
    /// for each identity, alive, in the order of first appearance. Fails
    /// when the snapshot names fewer than two participants.
    pub fn capture(current: &Vec<Occupant>) -> (r: Result<Registry, EmptyRosterError>)
        ensures
            match r {
                Ok(registry) => {
                    &&& registry@ == roster_of(occupant_views(current@))
                    &&& registry@.len() >= 2
                    &&& registry.wf()
                    &&& alive_of(registry@) == registry@
                },
                Err(e) => {
                    &&& roster_of(occupant_views(current@)).len() < 2
                    &&& e.found == roster_of(occupant_views(current@)).len()
                },
            },
    {
        let ghost snap = occupant_views(current@);
        let mut players: Vec<Player> = Vec::new();
        let mut i: usize = 0;
        while i < current.len()
            invariant
                i <= current.len(),
                snap == occupant_views(current@),
                views(players@) == roster_of(snap.take(i as int)),
            decreases current.len() - i,
        {
            let occupant = &current[i];
            proof {
                lemma_roster_of(snap.take(i as int));
                assert(snap.take(i + 1).drop_last() =~= snap.take(i as int));
            }
            if !is_enrolled(&players, occupant.identity) {
                players.push(Player::new(occupant.identity, occupant.display_name.clone()));
            }
            i += 1;
        }
        proof {
            assert(snap.take(current.len() as int) =~= snap);
            lemma_roster_of(snap);
            lemma_all_alive(roster_of(snap));
        }
        if players.len() < 2 {
            Err(EmptyRosterError { found: players.len() })
        } else {
            Ok(Registry { players })
        }
    }

    /// The players of the roster, in capture order.
    pub fn players(&self) -> (r: &Vec<Player>)
        ensures
            views(r@) == self@,
    {
        &self.players
    }

    /// How many players the roster has.
    pub fn len(&self) -> (r: usize)
        ensures
            r == self@.len(),
    {
        self.players.len()
    }

    /// The players who are alive, in roster order.
    pub fn alive(&self) -> (r: Vec<&Player>)
        ensures
            views_of_refs(r@) == alive_of(self@),
    {
        let ghost roster = self@;
        let mut out: Vec<&Player> = Vec::new();
        let mut i: usize = 0;
        proof {
            reveal(Seq::filter);
        }
        while i < self.players.len()
            invariant
                i <= self.players.len(),
                roster == views(self.players@),
                views_of_refs(out@) == alive_of(roster.take(i as int)),
            decreases self.players.len() - i,
        {
            proof {
                lemma_filter_step(roster, alive_pred(), i as int);
            }
            if self.players[i].is_alive() {
                out.push(&self.players[i]);
            }
            i += 1;
        }
        assert(roster.take(self.players.len() as int) =~= roster);
        out
    }

    /// How many players are alive.
    pub fn alive_count(&self) -> (r: usize)
        ensures
            r == alive_of(self@).len(),
    {
        let ghost roster = self@;
        let mut count: usize = 0;
        let mut i: usize = 0;
        proof {
            reveal(Seq::filter);
        }
        while i < self.players.len()
            invariant
                i <= self.players.len(),
                roster == views(self.players@),
                count == alive_of(roster.take(i as int)).len(),
                count <= i,
            decreases self.players.len() - i,
        {
            proof {
                lemma_filter_step(roster, alive_pred(), i as int);
            }
            if self.players[i].is_alive() {
                count += 1;
            }
            i += 1;
        }
        assert(roster.take(self.players.len() as int) =~= roster);
        count
    }

    /// Applies a membership snapshot taken at `now`: every player who was
    /// alive and is missing from the snapshot is eliminated at `now`.
    /// Returns those players as they are afterwards, in roster order.
    /// Identities of the snapshot that the roster does not hold are
    /// ignored.
    pub fn mark_left(&mut self, current: &Vec<Occupant>, now: Timestamp) -> (left: Vec<Player>)
        requires
            old(self).wf(),
        ensures
            final(self).wf(),
            final(self)@ == mark_all(old(self)@, identities(occupant_views(current@)), now),
            views(left@) == newly_left(old(self)@, identities(occupant_views(current@)), now),
    {
        let ghost roster = self@;
        let ghost present = identities(occupant_views(current@));
        let mut left: Vec<Player> = Vec::new();
        let mut i: usize = 0;
        proof {
            reveal(Seq::filter);
        }
        while i < self.players.len()
            invariant
                i <= self.players.len(),
                self.players@.len() == roster.len(),
                present == identities(occupant_views(current@)),
                forall|j: int|
                    0 <= j < i ==> (#[trigger] views(self.players@)[j]) == mark(
                        roster[j],
                        present,
                        now,
                    ),
                forall|j: int|
                    i <= j < roster.len() ==> (#[trigger] views(self.players@)[j]) == roster[j],
                views(left@) == newly_left(roster.take(i as int), present, now),
            decreases self.players.len() - i,
        {
            let ghost so_far = views(self.players@);
            proof {
                lemma_filter_step(roster, leaves_pred(present), i as int);
                assert(so_far[i as int] == roster[i as int]);
            }
            if self.players[i].is_alive() && !is_present(current, self.players[i].identity) {
                self.players[i].eliminated_at = Some(now);
                left.push(self.players[i].clone());
                proof {
                    assert(newly_left(roster.take(i + 1), present, now) =~= newly_left(
                        roster.take(i as int),
                        present,
                        now,
                    ).push(roster[i as int].eliminated(now)));
                    assert forall|j: int| i < j < roster.len() implies (#[trigger] views(
                        self.players@,
                    )[j]) == roster[j] by {
                        assert(so_far[j] == roster[j]);
                    }
                    assert forall|j: int| 0 <= j < i implies (#[trigger] views(self.players@)[j])
                        == mark(roster[j], present, now) by {
                        assert(so_far[j] == mark(roster[j], present, now));
                    }
                }
            }
            i += 1;
        }
        proof {
            assert(roster.take(self.players.len() as int) =~= roster);
            lemma_mark_keeps_identities(roster, present, now);
        }
        left
    }
}

/// Applying a snapshot changes nobody's identity or label, so a roster
/// without repeated identities stays one.
pub proof fn lemma_mark_keeps_identities(roster: Seq<PlayerView>, present: Set<u64>, now: Timestamp)
    ensures
        mark_all(roster, present, now).len() == roster.len(),
        forall|i: int|
            0 <= i < roster.len() ==> {
                &&& (#[trigger] mark_all(roster, present, now)[i]).identity == roster[i].identity
                &&& mark_all(roster, present, now)[i].display_name == roster[i].display_name
            },
        distinct(roster) ==> distinct(mark_all(roster, present, now)),
{
    let after = mark_all(roster, present, now);
    if distinct(roster) {
        assert forall|i: int, j: int| 0 <= i < j < after.len() implies (#[trigger] after[i]).identity
            != (#[trigger] after[j]).identity by {
            assert(roster[i].identity != roster[j].identity);
        }
    }
}

/// Two elements of a filtered sequence stand in the order in which they
/// stand in the sequence itself.
pub proof fn lemma_filter_order<A>(s: Seq<A>, pred: spec_fn(A) -> bool, k1: int, k2: int)
    requires
        0 <= k1 < k2 < s.filter(pred).len(),
    ensures
        exists|j1: int, j2: int|
            0 <= j1 < j2 < s.len() && pred(s[j1]) && pred(s[j2]) && #[trigger] s[j1] == s.filter(
                pred,
            )[k1] && #[trigger] s[j2] == s.filter(pred)[k2],
    decreases s.len(),
{
    reveal(Seq::filter);
    let kept = s.filter(pred);
    let earlier = s.drop_last();
    if pred(s.last()) && k2 == kept.len() - 1 {
        lemma_filter_source(earlier, pred, k1);
        let j1 = choose|j1: int|
            0 <= j1 < earlier.len() && pred(earlier[j1]) && #[trigger] earlier[j1] == earlier.filter(
                pred,
            )[k1];
        let j2 = s.len() - 1;
        assert(s[j1] == kept[k1] && s[j2] == kept[k2]);
    } else {
        lemma_filter_order(earlier, pred, k1, k2);
        let (j1, j2) = choose|j1: int, j2: int|
            0 <= j1 < j2 < earlier.len() && pred(earlier[j1]) && pred(earlier[j2])
                && #[trigger] earlier[j1] == earlier.filter(pred)[k1] && #[trigger] earlier[j2]
                == earlier.filter(pred)[k2];
        assert(s[j1] == kept[k1] && s[j2] == kept[k2]);
    }
}

/// Every element of a filtered sequence comes from the sequence and passes
/// the test.
pub proof fn lemma_filter_source<A>(s: Seq<A>, pred: spec_fn(A) -> bool, k: int)
    requires
        0 <= k < s.filter(pred).len(),
    ensures
        exists|j: int| 0 <= j < s.len() && pred(s[j]) && #[trigger] s[j] == s.filter(pred)[k],
    decreases s.len(),
{
    reveal(Seq::filter);
    let kept = s.filter(pred);
    let earlier = s.drop_last();
    if pred(s.last()) && k == kept.len() - 1 {
        assert(s[s.len() - 1] == kept[k]);
    } else {
        lemma_filter_source(earlier, pred, k);
        let j = choose|j: int|
            0 <= j < earlier.len() && pred(earlier[j]) && #[trigger] earlier[j] == earlier.filter(
                pred,
            )[k];
        assert(s[j] == kept[k]);
    }
}

/// A roster captured from a snapshot of at least two participants, none
/// listed twice, has exactly those participants alive, in the order of the
/// snapshot.
pub proof fn lemma_captured_all_alive(snapshot: Seq<OccupantView>)
    requires
        snapshot.len() >= 2,
        forall|i: int, j: int|
            0 <= i < j < snapshot.len() ==> (#[trigger] snapshot[i]).identity != (
            #[trigger] snapshot[j]).identity,
    ensures
        roster_of(snapshot).len() == snapshot.len(),
        alive_of(roster_of(snapshot)) == snapshot.map_values(|o: OccupantView| fresh_player(o)),
{
    lemma_roster_of_distinct(snapshot);
    lemma_roster_of(snapshot);
    lemma_all_alive(roster_of(snapshot));
}

/// Once a player is eliminated, no later snapshot changes the time of
/// their elimination or reports them as having left again, whether or not
/// the snapshot lists them.
pub proof fn lemma_eliminated_once(
    roster: Seq<PlayerView>,
    i: int,
    present: Set<u64>,
    now: Timestamp,
)
    requires
        distinct(roster),
        0 <= i < roster.len(),
        !roster[i].is_alive(),
    ensures
        mark_all(roster, present, now)[i] == roster[i],
        forall|k: int|
            0 <= k < newly_left(roster, present, now).len() ==> (#[trigger] newly_left(
                roster,
                present,
                now,
            )[k]).identity != roster[i].identity,
{
    let gone = roster.filter(leaves_pred(present));
    assert forall|k: int| 0 <= k < newly_left(roster, present, now).len() implies (
    #[trigger] newly_left(roster, present, now)[k]).identity != roster[i].identity by {
        lemma_filter_source(roster, leaves_pred(present), k);
        let j = choose|j: int|
            0 <= j < roster.len() && leaves_pred(present)(roster[j]) && #[trigger] roster[j]
                == gone[k];
        // The player reported is alive in the roster, so is another than `i`.
        if j < i {
            assert(roster[j].identity != roster[i].identity);
        } else if i < j {
            assert(roster[i].identity != roster[j].identity);
        }
    }
}

/// A player whom one snapshot eliminates keeps that time through the next
/// snapshot and is not reported by it.
pub proof fn lemma_mark_left_idempotent(
    roster: Seq<PlayerView>,
    i: int,
    first: Set<u64>,
    at_first: Timestamp,
    second: Set<u64>,
    at_second: Timestamp,
)
    requires
        distinct(roster),
        0 <= i < roster.len(),
        leaves(roster[i], first),
    ensures
        mark_all(roster, first, at_first)[i].eliminated_at == Some(at_first),
        mark_all(mark_all(roster, first, at_first), second, at_second)[i].eliminated_at == Some(
            at_first,
        ),
        forall|k: int|
            0 <= k < newly_left(mark_all(roster, first, at_first), second, at_second).len() ==> (
            #[trigger] newly_left(mark_all(roster, first, at_first), second, at_second)[k]).identity
                != roster[i].identity,
{
    let after = mark_all(roster, first, at_first);
    lemma_mark_keeps_identities(roster, first, at_first);
    lemma_eliminated_once(after, i, second, at_second);
}

/// The players whom a snapshot eliminates are reported in the order in
/// which they stand in the roster: of any two reported, the one reported
/// first stands first.
pub proof fn lemma_left_in_roster_order(
    roster: Seq<PlayerView>,
    present: Set<u64>,
    now: Timestamp,
    k1: int,
    k2: int,
)
    requires
        0 <= k1 < k2 < newly_left(roster, present, now).len(),
    ensures
        exists|j1: int, j2: int|
            0 <= j1 < j2 < roster.len() && leaves(roster[j1], present) && leaves(
                roster[j2],
                present,
            ) && (#[trigger] roster[j1]).eliminated(now) == newly_left(roster, present, now)[k1] && (
            #[trigger] roster[j2]).eliminated(now) == newly_left(roster, present, now)[k2],
{
    let gone = roster.filter(leaves_pred(present));
    lemma_filter_order(roster, leaves_pred(present), k1, k2);
    let (j1, j2) = choose|j1: int, j2: int|
        0 <= j1 < j2 < roster.len() && leaves_pred(present)(roster[j1]) && leaves_pred(present)(
            roster[j2],
        ) && #[trigger] roster[j1] == gone[k1] && #[trigger] roster[j2] == gone[k2];
    assert(roster[j1].eliminated(now) == newly_left(roster, present, now)[k1]);
    assert(roster[j2].eliminated(now) == newly_left(roster, present, now)[k2]);
}

/// Snapshots that list the same identities are the same to the registry,
/// in whatever order and however often they list them.
pub proof fn lemma_snapshot_order_irrelevant(a: Seq<OccupantView>, b: Seq<OccupantView>)
    requires
        forall|i: int|
            0 <= i < a.len() ==> exists|j: int|
                0 <= j < b.len() && (#[trigger] b[j]).identity == (#[trigger] a[i]).identity,
        forall|j: int|
            0 <= j < b.len() ==> exists|i: int|
                0 <= i < a.len() && (#[trigger] a[i]).identity == (#[trigger] b[j]).identity,
    ensures
        identities(a) == identities(b),
{
    assert forall|id: u64| identities(a).contains(id) <==> identities(b).contains(id) by {
        if identities(a).contains(id) {
            let i = choose|i: int| 0 <= i < a.len() && (#[trigger] a[i]).identity == id;
            let j = choose|j: int| 0 <= j < b.len() && (#[trigger] b[j]).identity == a[i].identity;
            assert(b[j].identity == id);
        }
        if identities(b).contains(id) {
            let j = choose|j: int| 0 <= j < b.len() && (#[trigger] b[j]).identity == id;
            let i = choose|i: int| 0 <= i < a.len() && (#[trigger] a[i]).identity == b[j].identity;
            assert(a[i].identity == id);
        }
    }
    assert(identities(a) =~= identities(b));
}

} // verus!
