//! The world view: the client's local model of who is on the play field
//! and where.
//!
//! The locally controlled character is moved only by local input, one
//! discrete grid step per pressed direction.  Every other character is
//! moved only by inbound notification batches: for each reported character
//! that is not the local one, it is created in the view if previously
//! unseen, else moved to its reported position.  A batch is applied whole,
//! in one call, never merged with another batch mid-apply; the last
//! notification wins.

use vstd::prelude::*;

use crate::messages::Character;
use crate::messages::CharacterPosition;
use crate::messages::Direction;
use crate::messages::GameNotif;
use crate::messages::Position;

verus! {

/// Where a character first appears on the field when no position is
/// reported for it.
pub const SPAWN_X: i32 = 2;

/// See [`SPAWN_X`].
pub const SPAWN_Y: i32 = 2;

/// The cell a character spawns into when its position is unknown.
pub open spec fn spawn_point() -> Position {
    Position { x: SPAWN_X, y: SPAWN_Y }
}

/// A remotely owned character as the world view tracks it: identity and
/// current cell.
#[derive(Clone, Copy, PartialEq, Eq, Structural, Debug)]
pub struct RemoteCharacter {
    pub id: i64,
    pub position: Position,
}

/// No two tracked characters share an identity.
pub open spec fn distinct_ids(others: Seq<RemoteCharacter>) -> bool {
    forall|i: int, j: int|
        0 <= i < j < others.len() ==> others[i].id != others[j].id
}

/// Whether a character with identity `id` is tracked.
pub open spec fn contains_id(others: Seq<RemoteCharacter>, id: i64) -> bool {
    exists|i: int| 0 <= i < others.len() && others[i].id == id
}

/// The index at which `id` is tracked (meaningful only when
/// [`contains_id`] holds; unique under [`distinct_ids`]).
pub open spec fn index_of_id(others: Seq<RemoteCharacter>, id: i64) -> int {
    choose|i: int| 0 <= i < others.len() && others[i].id == id
}

/// The tracked position of `id`, when it is tracked.
pub open spec fn find_position(others: Seq<RemoteCharacter>, id: i64) -> Option<Position> {
    if contains_id(others, id) {
        Some(others[index_of_id(others, id)].position)
    } else {
        None
    }
}

/// Where a reported character ends up: at its reported position, or where
/// it already was when the report carries none, or at the spawn point when
/// it was unseen and the report carries none.
pub open spec fn landed(reported: Option<Position>, previous: Option<Position>) -> Position {
    match reported {
        Some(p) => p,
        None => match previous {
            Some(q) => q,
            None => spawn_point(),
        },
    }
}

/// One reported character folded into the tracked set: a tracked one is
/// moved in place, an unseen one is appended.
pub open spec fn upsert(others: Seq<RemoteCharacter>, e: CharacterPosition) -> Seq<
    RemoteCharacter,
> {
    if contains_id(others, e.character_id) {
        let i = index_of_id(others, e.character_id);
        others.update(
            i,
            RemoteCharacter {
                id: e.character_id,
                position: landed(e.position, Some(others[i].position)),
            },
        )
    } else {
        others.push(
            RemoteCharacter { id: e.character_id, position: landed(e.position, None) },
        )
    }
}

/// One entry of a notification batch applied: a report about the local
/// character is ignored, every other report is folded in.
pub open spec fn apply_entry(
    others: Seq<RemoteCharacter>,
    local_id: i64,
    e: CharacterPosition,
) -> Seq<RemoteCharacter> {
    if e.character_id == local_id {
        others
    } else {
        upsert(others, e)
    }
}

/// A whole batch of entries applied, oldest first.
pub open spec fn apply_entries(
    others: Seq<RemoteCharacter>,
    local_id: i64,
    entries: Seq<CharacterPosition>,
) -> Seq<RemoteCharacter>
    decreases entries.len(),
{
    if entries.len() == 0 {
        others
    } else {
        apply_entries(
            apply_entry(others, local_id, entries[0]),
            local_id,
            entries.drop_first(),
        )
    }
}

/// The entries of one notification batch, in the order they are applied:
/// first the presence reports, then the position updates.
pub open spec fn notif_entries(n: GameNotif) -> Seq<CharacterPosition> {
    n.character_on_notifs@.map_values(
        |c: Character| CharacterPosition { character_id: c.id, position: c.position },
    ) + n.character_position_notifs@
}

/// The client's model of the play field: the locally controlled character
/// and every remotely owned character seen so far.
pub struct WorldView {
    pub local_id: i64,
    pub local_position: Position,
    pub others: Vec<RemoteCharacter>,
}

impl WorldView {
    /// Well-formedness: tracked identities are distinct, and the local
    /// character is never tracked among the others.
    pub open spec fn wf(self) -> bool {
        &&& distinct_ids(self.others@)
        &&& forall|i: int| 0 <= i < self.others@.len() ==> self.others@[i].id != self.local_id
    }

    /// A fresh world view: the local character alone, at `position`.
    pub fn new(local_id: i64, position: Position) -> (r: WorldView)
        ensures
            r.wf(),
            r.local_id == local_id,
            r.local_position == position,
            r.others@ == Seq::<RemoteCharacter>::empty(),
    {
        WorldView { local_id, local_position: position, others: Vec::new() }
    }

    /// One discrete grid step of the locally controlled character.  Only
    /// local input ever moves it; notifications never do.
    pub fn step_local(&mut self, d: Direction)
        requires
            old(self).wf(),
            old(self).local_position.step_fits(d),
        ensures
            final(self).wf(),
            final(self).local_id == old(self).local_id,
            final(self).others@ == old(self).others@,
            final(self).local_position.x as int == old(self).local_position.x + d.spec_dx(),
            final(self).local_position.y as int == old(self).local_position.y + d.spec_dy(),
    {
        self.local_position = self.local_position.step(d);
    }

    /// The tracked position of the character with identity `id`, or
    /// `None` when it has not been seen (the local character is never
    /// tracked here).
    pub fn position_of(&self, id: i64) -> (r: Option<Position>)
        requires
            self.wf(),
        ensures
            r == find_position(self.others@, id),
    {
        let mut i: usize = 0;
        while i < self.others.len()
            invariant
                self.wf(),
                i <= self.others.len(),
                forall|j: int| 0 <= j < i ==> self.others@[j].id != id,
            decreases self.others.len() - i,
        {
            if self.others[i].id == id {
                proof {
                    lemma_index_unique(self.others@, id, i as int);
                }
                return Some(self.others[i].position);
            }
            i += 1;
        }
        proof {
            assert(!contains_id(self.others@, id));
        }
        None
    }

    /// Folds one reported character into the view, per [`apply_entry`]:
    /// the local character is ignored, a tracked one is moved, an unseen
    /// one is appended.
    fn fold_entry(&mut self, id: i64, reported: Option<Position>)
        requires
            old(self).wf(),
        ensures
            final(self).wf(),
            final(self).local_id == old(self).local_id,
            final(self).local_position == old(self).local_position,
            final(self).others@ == apply_entry(
                old(self).others@,
                old(self).local_id,
                CharacterPosition { character_id: id, position: reported },
                ),
    {
        if id == self.local_id {
            return;
        }
        let ghost e = CharacterPosition { character_id: id, position: reported };
        let mut i: usize = 0;
        while i < self.others.len()
            invariant
                *self == *old(self),
                old(self).wf(),
                id != old(self).local_id,
                i <= self.others.len(),
                forall|j: int| 0 <= j < i ==> self.others@[j].id != id,
            decreases self.others.len() - i,
        {
            if self.others[i].id == id {
                proof {
                    lemma_index_unique(self.others@, id, i as int);
                }
                let landed_at = match reported {
                    Some(p) => p,
                    None => self.others[i].position,
                };
                set_remote(&mut self.others, i, RemoteCharacter { id, position: landed_at });
                proof {
                    lemma_update_keeps_distinct(old(self).others@, i as int, id, self.others@);
                }
                return;
            }
            i += 1;
        }
        proof {
            assert(!contains_id(self.others@, id));
        }
        let landed_at = match reported {
            Some(p) => p,
            None => Position { x: SPAWN_X, y: SPAWN_Y },
        };
        self.others.push(RemoteCharacter { id, position: landed_at });
        proof {
            assert(distinct_ids(self.others@));
        }
    }

    /// Applies one whole inbound notification batch, atomically: every
    /// presence report, then every position update, each per
    /// [`apply_entry`].  The local character is untouched.
    pub fn apply_notif(&mut self, notif: &GameNotif)
        requires
            old(self).wf(),
        ensures
            final(self).wf(),
            final(self).local_id == old(self).local_id,
            final(self).local_position == old(self).local_position,
            final(self).others@ == apply_entries(
                old(self).others@,
                old(self).local_id,
                notif_entries(*notif),
                ),
    {
        let ghost entries = notif_entries(*notif);
        let ghost on_len = notif.character_on_notifs@.len() as int;
        let mut k: usize = 0;
        while k < notif.character_on_notifs.len()
            invariant
                old(self).wf(),
                self.wf(),
                k <= notif.character_on_notifs@.len(),
                entries == notif_entries(*notif),
                self.local_id == old(self).local_id,
                self.local_position == old(self).local_position,
                self.others@ == apply_entries(
                    old(self).others@,
                    old(self).local_id,
                    entries.subrange(0, k as int),
                ),
            decreases notif.character_on_notifs.len() - k,
        {
            let c = &notif.character_on_notifs[k];
            proof {
                assert(entries[k as int] == CharacterPosition {
                    character_id: c.id,
                    position: c.position,
                });
                lemma_apply_entries_snoc(
                    old(self).others@,
                    old(self).local_id,
                    entries,
                    k as int,
                );
            }
            self.fold_entry(c.id, c.position);
            k += 1;
        }
        let mut m: usize = 0;
        while m < notif.character_position_notifs.len()
            invariant
                old(self).wf(),
                self.wf(),
                m <= notif.character_position_notifs@.len(),
                entries == notif_entries(*notif),
                on_len == notif.character_on_notifs@.len() as int,
                self.local_id == old(self).local_id,
                self.local_position == old(self).local_position,
                self.others@ == apply_entries(
                    old(self).others@,
                    old(self).local_id,
                    entries.subrange(0, on_len + m as int),
                ),
            decreases notif.character_position_notifs.len() - m,
        {
            let e = &notif.character_position_notifs[m];
            proof {
                assert(entries[on_len + m as int] == *e);
                lemma_apply_entries_snoc(
                    old(self).others@,
                    old(self).local_id,
                    entries,
                    on_len + m as int,
                );
            }
            self.fold_entry(e.character_id, e.position);
            m += 1;
        }
        proof {
            assert(entries.subrange(0, entries.len() as int) =~= entries);
        }
    }
}

/// Writes `r` into slot `i`.
fn set_remote(v: &mut Vec<RemoteCharacter>, i: usize, r: RemoteCharacter)
    requires
        i < old(v).len(),
    ensures
        final(v)@ == old(v)@.update(i as int, r),
{
    let slot = &mut v[i];
    *slot = r;
}

/// Under a prefix free of `id`, a match at `i` is the index [`index_of_id`]
/// names.
proof fn lemma_index_unique(others: Seq<RemoteCharacter>, id: i64, i: int)
    requires
        0 <= i < others.len(),
        others[i].id == id,
        forall|j: int| 0 <= j < i ==> others[j].id != id,
        distinct_ids(others),
    ensures
        contains_id(others, id),
        index_of_id(others, id) == i,
{
    assert(contains_id(others, id));
    let w = index_of_id(others, id);
    assert(0 <= w < others.len() && others[w].id == id);
    if w < i {
        assert(others[w].id != id);
    } else if i < w {
        assert(others[i].id != others[w].id);
    }
}

/// An in-place move keeps identities distinct.
proof fn lemma_update_keeps_distinct(
    others: Seq<RemoteCharacter>,
    i: int,
    id: i64,
    updated: Seq<RemoteCharacter>,
)
    requires
        0 <= i < others.len(),
        others[i].id == id,
        distinct_ids(others),
        updated.len() == others.len(),
        forall|j: int| 0 <= j < others.len() && j != i ==> updated[j] == others[j],
        updated[i].id == id,
    ensures
        distinct_ids(updated),
{
}

/// Peeling the last applied entry off a batch prefix: applying the first
/// `k + 1` entries is applying the first `k` and then entry `k`.
proof fn lemma_apply_entries_snoc(
    others: Seq<RemoteCharacter>,
    local_id: i64,
    entries: Seq<CharacterPosition>,
    k: int,
)
    requires
        0 <= k < entries.len(),
    ensures
        apply_entries(others, local_id, entries.subrange(0, k + 1)) == apply_entry(
            apply_entries(others, local_id, entries.subrange(0, k)),
            local_id,
            entries[k],
        ),
    decreases k,
{
    let pre = entries.subrange(0, k);
    let pre1 = entries.subrange(0, k + 1);
    if k == 0 {
        assert(pre =~= Seq::<CharacterPosition>::empty());
        assert(pre1.len() == 1);
        assert(pre1.drop_first() =~= Seq::<CharacterPosition>::empty());
        assert(pre1[0] == entries[0]);
        assert(apply_entries(others, local_id, pre1) == apply_entries(
            apply_entry(others, local_id, entries[0]),
            local_id,
            pre1.drop_first(),
        ));
        assert(apply_entries(others, local_id, pre) == others);
    } else {
        let x = apply_entry(others, local_id, entries[0]);
        let edf = entries.drop_first();
        lemma_apply_entries_snoc(x, local_id, edf, k - 1);
        assert(edf.subrange(0, k - 1) =~= pre.drop_first());
        assert(edf.subrange(0, k) =~= pre1.drop_first());
        assert(edf[k - 1] == entries[k]);
        assert(pre[0] == entries[0]);
        assert(pre1[0] == entries[0]);
        assert(pre.len() > 0);
        assert(pre1.len() > 0);
        assert(apply_entries(others, local_id, pre1) == apply_entries(x, local_id, pre1.drop_first()));
        assert(apply_entries(others, local_id, pre) == apply_entries(x, local_id, pre.drop_first()));
        assert(apply_entries(x, local_id, edf.subrange(0, k)) == apply_entry(
            apply_entries(x, local_id, edf.subrange(0, k - 1)),
            local_id,
            edf[k - 1],
        ));
    }
}

/// Folding a report in tracks its character and no one else:
/// afterwards `e.character_id` is tracked, and any other identity is
/// tracked exactly when it was before.
proof fn lemma_upsert_contains(others: Seq<RemoteCharacter>, e: CharacterPosition, id: i64)
    ensures
        contains_id(upsert(others, e), id) == (contains_id(others, id) || id == e.character_id),
{
    let up = upsert(others, e);
    if contains_id(others, e.character_id) {
        let i = index_of_id(others, e.character_id);
        assert(0 <= i < others.len() && others[i].id == e.character_id);
        assert(forall|j: int| 0 <= j < up.len() ==> up[j].id == others[j].id);
        if contains_id(others, id) {
            let w = index_of_id(others, id);
            assert(up[w].id == id);
            assert(contains_id(up, id));
        }
        if contains_id(up, id) {
            let w = choose|w: int| 0 <= w < up.len() && up[w].id == id;
            assert(others[w].id == id);
            assert(contains_id(others, id));
        }
    } else {
        if contains_id(others, id) {
            let w = index_of_id(others, id);
            assert(up[w].id == id);
            assert(contains_id(up, id));
        }
        assert(up[others.len() as int].id == e.character_id);
        if contains_id(up, id) && id != e.character_id {
            let w = choose|w: int| 0 <= w < up.len() && up[w].id == id;
            assert(w < others.len());
            assert(contains_id(others, id));
        }
    }
}

/// Folding a report in moves exactly its character: afterwards it is
/// tracked at where it [`landed`], given where it was tracked before.
proof fn lemma_upsert_find_same(others: Seq<RemoteCharacter>, e: CharacterPosition)
    requires
        distinct_ids(others),
    ensures
        find_position(upsert(others, e), e.character_id) == Some(
            landed(e.position, find_position(others, e.character_id)),
        ),
{
    let up = upsert(others, e);
    let id = e.character_id;
    lemma_upsert_contains(others, e, id);
    if contains_id(others, id) {
        let i = index_of_id(others, id);
        assert(0 <= i < others.len() && others[i].id == id);
        assert(forall|j: int| 0 <= j < up.len() ==> up[j].id == others[j].id);
        let w = index_of_id(up, id);
        assert(0 <= w < up.len() && up[w].id == id);
        assert(others[w].id == id);
        if w != i {
            assert(others[i].id != others[w].id);
        }
        assert(w == i);
    } else {
        let n = others.len() as int;
        assert(up[n].id == id);
        let w = index_of_id(up, id);
        assert(0 <= w < up.len() && up[w].id == id);
        if w < n {
            assert(others[w].id == id);
            assert(contains_id(others, id));
        }
        assert(w == n);
    }
}

/// Folding a report in touches no other character: any other identity
/// keeps exactly the tracked position it had.
proof fn lemma_upsert_find_other(others: Seq<RemoteCharacter>, e: CharacterPosition, id: i64)
    requires
        distinct_ids(others),
        id != e.character_id,
    ensures
        find_position(upsert(others, e), id) == find_position(others, id),
{
    let up = upsert(others, e);
    lemma_upsert_contains(others, e, id);
    if contains_id(others, id) {
        let w = index_of_id(others, id);
        assert(0 <= w < others.len() && others[w].id == id);
        let v = index_of_id(up, id);
        assert(0 <= v < up.len() && up[v].id == id);
        if contains_id(others, e.character_id) {
            let i = index_of_id(others, e.character_id);
            assert(up[w] == others[w]);
            assert(forall|j: int| 0 <= j < up.len() ==> up[j].id == others[j].id);
            if v != w {
                assert(others[v].id != others[w].id);
            }
            assert(v == w);
        } else {
            assert(up[w] == others[w]);
            if v < others.len() {
                assert(up[v] == others[v]);
                if v != w {
                    assert(others[v].id != others[w].id);
                }
            } else {
                assert(up[v].id == e.character_id);
            }
            assert(v == w);
        }
    }
}

/// Folding a report in keeps tracked identities distinct.
proof fn lemma_upsert_distinct(others: Seq<RemoteCharacter>, e: CharacterPosition)
    requires
        distinct_ids(others),
    ensures
        distinct_ids(upsert(others, e)),
{
    let up = upsert(others, e);
    if contains_id(others, e.character_id) {
        assert(forall|j: int| 0 <= j < up.len() ==> up[j].id == others[j].id);
    }
}

/// Folding a report in grows the tracked set by one for an unseen
/// character and not at all for a tracked one.
proof fn lemma_upsert_len(others: Seq<RemoteCharacter>, e: CharacterPosition)
    ensures
        upsert(others, e).len() == others.len() + (
        if contains_id(others, e.character_id) {
            0int
        } else {
            1int
        }),
{
}

/// How many of a batch's characters are not yet tracked.
pub open spec fn newly_seen(
    others: Seq<RemoteCharacter>,
    entries: Seq<CharacterPosition>,
) -> int
    decreases entries.len(),
{
    if entries.len() == 0 {
        0
    } else {
        (if contains_id(others, entries[0].character_id) {
            0int
        } else {
            1int
        }) + newly_seen(others, entries.drop_first())
    }
}

/// Two tracked sets that agree on which of a batch's characters they
/// track agree on how many of them are new.
proof fn lemma_newly_seen_same(
    a: Seq<RemoteCharacter>,
    b: Seq<RemoteCharacter>,
    entries: Seq<CharacterPosition>,
)
    requires
        forall|k: int|
            0 <= k < entries.len() ==> contains_id(a, entries[k].character_id) == contains_id(
                b,
                entries[k].character_id,
            ),
    ensures
        newly_seen(a, entries) == newly_seen(b, entries),
    decreases entries.len(),
{
    if entries.len() > 0 {
        assert(forall|k: int|
            0 <= k < entries.drop_first().len() ==> entries.drop_first()[k] == entries[k + 1]);
        lemma_newly_seen_same(a, b, entries.drop_first());
    }
}

/// Applying a batch keeps tracked identities distinct.
pub proof fn lemma_apply_entries_distinct(
    others: Seq<RemoteCharacter>,
    local_id: i64,
    entries: Seq<CharacterPosition>,
)
    requires
        distinct_ids(others),
    ensures
        distinct_ids(apply_entries(others, local_id, entries)),
    decreases entries.len(),
{
    if entries.len() > 0 {
        lemma_upsert_distinct(others, entries[0]);
        lemma_apply_entries_distinct(
            apply_entry(others, local_id, entries[0]),
            local_id,
            entries.drop_first(),
        );
    }
}

/// World view atomicity, the untouched half: a character that a batch
/// does not name keeps exactly the tracked position it had before the
/// batch, wherever the batch was applied from.
pub proof fn lemma_batch_untouched(
    others: Seq<RemoteCharacter>,
    local_id: i64,
    entries: Seq<CharacterPosition>,
    id: i64,
)
    requires
        distinct_ids(others),
        forall|k: int| 0 <= k < entries.len() ==> entries[k].character_id != id,
    ensures
        find_position(apply_entries(others, local_id, entries), id) == find_position(others, id),
        contains_id(apply_entries(others, local_id, entries), id) == contains_id(others, id),
    decreases entries.len(),
{
    if entries.len() > 0 {
        let e0 = entries[0];
        let next = apply_entry(others, local_id, e0);
        if e0.character_id != local_id {
            lemma_upsert_find_other(others, e0, id);
            lemma_upsert_contains(others, e0, id);
            lemma_upsert_distinct(others, e0);
        }
        assert(forall|k: int|
            0 <= k < entries.drop_first().len() ==> entries.drop_first()[k] == entries[k + 1]);
        lemma_batch_untouched(next, local_id, entries.drop_first(), id);
    }
}

/// World view atomicity, the updated half: every character a batch names
/// with a definite position is tracked at exactly that position once the
/// whole batch is applied — the last report would win, but under the
/// batch's distinct identities each character is reported once.
pub proof fn lemma_batch_entry_lands(
    others: Seq<RemoteCharacter>,
    local_id: i64,
    entries: Seq<CharacterPosition>,
    k: int,
)
    requires
        distinct_ids(others),
        forall|i: int, j: int|
            0 <= i < j < entries.len() ==> entries[i].character_id != entries[j].character_id,
        forall|i: int| 0 <= i < entries.len() ==> entries[i].character_id != local_id,
        0 <= k < entries.len(),
        entries[k].position is Some,
    ensures
        find_position(apply_entries(others, local_id, entries), entries[k].character_id)
            == entries[k].position,
    decreases entries.len(),
{
    let e0 = entries[0];
    let next = apply_entry(others, local_id, e0);
    let rest = entries.drop_first();
    assert(forall|i: int| 0 <= i < rest.len() ==> rest[i] == entries[i + 1]);
    lemma_upsert_distinct(others, e0);
    if k == 0 {
        lemma_upsert_find_same(others, e0);
        lemma_batch_untouched(next, local_id, rest, e0.character_id);
    } else {
        lemma_batch_entry_lands(next, local_id, rest, k - 1);
    }
}

/// World view atomicity, the count half: a batch of distinct characters,
/// none of them the local one, leaves exactly one tracked character per
/// batch entry that was previously unseen, on top of those already
/// tracked — never more, never fewer, never a duplicate.
pub proof fn lemma_batch_count(
    others: Seq<RemoteCharacter>,
    local_id: i64,
    entries: Seq<CharacterPosition>,
)
    requires
        distinct_ids(others),
        forall|i: int, j: int|
            0 <= i < j < entries.len() ==> entries[i].character_id != entries[j].character_id,
        forall|i: int| 0 <= i < entries.len() ==> entries[i].character_id != local_id,
    ensures
        apply_entries(others, local_id, entries).len() == others.len() + newly_seen(
            others,
            entries,
        ),
    decreases entries.len(),
{
    if entries.len() > 0 {
        let e0 = entries[0];
        let next = apply_entry(others, local_id, e0);
        let rest = entries.drop_first();
        assert(forall|i: int| 0 <= i < rest.len() ==> rest[i] == entries[i + 1]);
        lemma_upsert_len(others, e0);
        lemma_upsert_distinct(others, e0);
        assert forall|i: int| 0 <= i < rest.len() implies contains_id(
            next,
            rest[i].character_id,
        ) == contains_id(others, rest[i].character_id) by {
            lemma_upsert_contains(others, e0, rest[i].character_id);
        }
        lemma_newly_seen_same(next, others, rest);
        lemma_batch_count(next, local_id, rest);
    }
}

} // verus!
