use vstd::prelude::*;

use crate::commands::CreateObject;
use crate::engine::apply_post;
use crate::engine::create_post;
use crate::engine::created_object;
use crate::engine::entry_effect;
use crate::engine::replay_from;
use crate::engine::replay_result;
use crate::engine::run_post;
use crate::engine::select_post;
use crate::engine::EditState;
use crate::engine::GamePhase;
use crate::engine::PlacedObject;
use crate::grid::GridCoord;
use crate::grid::GridRegistry;
use crate::item::Item;

verus! {

/// Uniqueness: after any create-object step from a well-formed state, at most
/// one placed object exists per coordinate — two arena slots holding the same
/// coordinate are the same slot.
pub proof fn lemma_uniqueness(
    pre: EditState,
    post: EditState,
    cmd: CreateObject,
    sound_available: bool,
    i: int,
    j: int,
)
    requires
        pre.wf(),
        create_post(pre, post, cmd, sound_available),
        0 <= i < post.objects@.len(),
        0 <= j < post.objects@.len(),
        post.objects@[i].coord == post.objects@[j].coord,
    ensures
        i == j,
{
    if i != j {
        assert(post.objects@[i].coord != post.objects@[j].coord);
        assert(false);
    }
}

/// Idempotence: issuing the same create-object command twice in a row leaves
/// the target cell exactly as one issue does — one object carrying the latest
/// item's attributes, or nothing for the eraser — and every other cell as it
/// started.
pub proof fn lemma_idempotence(
    s0: EditState,
    s1: EditState,
    s2: EditState,
    cmd: CreateObject,
    sound_available: bool,
)
    requires
        s0.wf(),
        create_post(s0, s1, cmd, sound_available),
        create_post(s1, s2, cmd, sound_available),
    ensures
        s2.at(cmd.coord) == s1.at(cmd.coord),
        cmd.item != Item::Eraser ==> s2.at(cmd.coord) == Option::Some(created_object(cmd)),
        cmd.item == Item::Eraser ==> s2.at(cmd.coord) is None,
        forall|c: GridCoord| c != cmd.coord ==> #[trigger] s2.at(c) == s0.at(c),
        s2.wf(),
{
    assert forall|c: GridCoord| c != cmd.coord implies #[trigger] s2.at(c) == s0.at(c) by {
        assert(s2.at(c) == s1.at(c));
        assert(s1.at(c) == s0.at(c));
    }
}

/// Erase removes without creating: an eraser command always leaves the target
/// cell empty, whether or not an object sat there before.
pub proof fn lemma_erase_removes_without_creating(
    pre: EditState,
    post: EditState,
    cmd: CreateObject,
    sound_available: bool,
)
    requires
        pre.wf(),
        create_post(pre, post, cmd, sound_available),
        cmd.item == Item::Eraser,
    ensures
        post.at(cmd.coord) is None,
        !post.has_at(cmd.coord),
{
    if post.has_at(cmd.coord) {
        assert(post.at(cmd.coord) is Some);
    }
}

/// Selection toggle: starting from no selection in the Edit phase, selecting
/// the same item twice yields no selection, and selecting two different items
/// in a row yields the second.
pub proof fn lemma_selection_toggle(s0: EditState, s1: EditState, s2: EditState, x: Item, y: Item)
    requires
        s0.phase == GamePhase::Edit,
        s0.selected is None,
        select_post(s0, s1, x),
        select_post(s1, s2, y),
    ensures
        x == y ==> s2.selected is None,
        x != y ==> s2.selected == Option::Some(y),
{
}

/// Phase-gated selection: a selection attempt outside the Edit phase always
/// yields no selection, regardless of the prior selection.
pub proof fn lemma_phase_gated_selection(pre: EditState, post: EditState, x: Item)
    requires
        pre.phase != GamePhase::Edit,
        select_post(pre, post, x),
    ensures
        post.selected is None,
{
}

/// Replaying from index `i` on leaves a cell alone if no remaining entry
/// names its coordinate.
proof fn lemma_replay_from_no_match(
    cur: Option<PlacedObject>,
    entries: Seq<(GridCoord, Item)>,
    reg: GridRegistry,
    c: GridCoord,
    i: int,
)
    requires
        forall|k: int| i <= k < entries.len() ==> (#[trigger] entries[k]).0 != c,
    ensures
        replay_from(cur, entries, reg, c, i) == cur,
    decreases entries.len() - i,
{
    if i < 0 || i >= entries.len() {
    } else {
        assert(entries[i].0 != c);
        assert(entry_effect(cur, entries[i], reg, c) == cur);
        lemma_replay_from_no_match(cur, entries, reg, c, i + 1);
    }
}

/// Replaying from index `i` on gives a cell the value of its last matching
/// entry, when that entry's coordinate resolves in the registry.
proof fn lemma_replay_from_last_match(
    cur: Option<PlacedObject>,
    entries: Seq<(GridCoord, Item)>,
    reg: GridRegistry,
    c: GridCoord,
    i: int,
    k: int,
)
    requires
        0 <= i <= k < entries.len(),
        entries[k].0 == c,
        forall|l: int| k < l < entries.len() ==> (#[trigger] entries[l]).0 != c,
        forall|l: int| i <= l < k ==> (#[trigger] entries[l]).0 != c,
        reg.spec_lookup(c) is Some,
    ensures
        replay_from(cur, entries, reg, c, i) == entry_effect(cur, entries[k], reg, c),
    decreases k - i,
{
    if i == k {
        let stepped = entry_effect(cur, entries[k], reg, c);
        lemma_replay_from_no_match(stepped, entries, reg, c, i + 1);
    } else {
        assert(entries[i].0 != c);
        assert(entry_effect(cur, entries[i], reg, c) == cur);
        lemma_replay_from_last_match(cur, entries, reg, c, i + 1, k);
    }
}

/// Replay fidelity: replaying a stored layout whose level matches, whose
/// coordinates are pairwise distinct and all covered by grid tiles, onto an
/// empty board, yields exactly the stored placements — each stored cell holds
/// its stored item, and every other cell is empty.
pub proof fn lemma_replay_fidelity(
    pre: EditState,
    post: EditState,
    reg: GridRegistry,
    active_level: usize,
)
    requires
        pre.wf(),
        apply_post(pre, post, reg, active_level),
        pre.store.spec_level() == active_level,
        pre.objects@.len() == 0,
        forall|k: int, l: int|
            0 <= k < pre.store.entries().len() && 0 <= l < pre.store.entries().len() && k != l ==> (
            #[trigger] pre.store.entries()[k]).0 != (#[trigger] pre.store.entries()[l]).0,
        forall|k: int|
            0 <= k < pre.store.entries().len() ==> (#[trigger] reg.spec_lookup(
                pre.store.entries()[k].0,
            )) is Some,
    ensures
        forall|k: int|
            0 <= k < pre.store.entries().len() ==> #[trigger] post.at(pre.store.entries()[k].0)
                == entry_effect(
                Option::<PlacedObject>::None,
                pre.store.entries()[k],
                reg,
                pre.store.entries()[k].0,
            ),
        forall|c: GridCoord|
            (forall|k: int| 0 <= k < pre.store.entries().len() ==> (#[trigger] pre.store.entries()[k]).0 != c)
                ==> #[trigger] post.at(c) is None,
{
    let entries = pre.store.entries();
    assert forall|c: GridCoord| #[trigger] pre.at(c) is None by {
        crate::engine::lemma_seq_at_absent(pre.objects@, c);
    }
    assert forall|k: int| 0 <= k < entries.len() implies #[trigger] post.at(entries[k].0)
        == entry_effect(Option::<PlacedObject>::None, entries[k], reg, entries[k].0) by {
        let c = entries[k].0;
        assert(post.at(c) == replay_result(pre.at(c), entries, reg, c));
        assert(pre.at(c) is None);
        assert forall|l: int| k < l < entries.len() implies (#[trigger] entries[l]).0 != c by {
            assert(entries[l].0 != entries[k].0);
        }
        assert forall|l: int| 0 <= l < k implies (#[trigger] entries[l]).0 != c by {
            assert(entries[l].0 != entries[k].0);
        }
        lemma_replay_from_last_match(pre.at(c), entries, reg, c, 0, k);
        assert(entry_effect(pre.at(c), entries[k], reg, c) == entry_effect(
            Option::<PlacedObject>::None,
            entries[k],
            reg,
            c,
        ));
    }
    assert forall|c: GridCoord|
        (forall|k: int| 0 <= k < entries.len() ==> (#[trigger] entries[k]).0 != c) implies #[trigger] post.at(
        c,
    ) is None by {
        assert(post.at(c) == replay_result(pre.at(c), entries, reg, c));
        lemma_replay_from_no_match(pre.at(c), entries, reg, c, 0);
        assert(pre.at(c) is None);
    }
}

/// Run gating: an attempted run transition leaves the phase unchanged when no
/// fire marker exists, and moves it to Run when one does.
pub proof fn lemma_run_gating(pre: EditState, post: EditState)
    requires
        run_post(pre, post),
    ensures
        pre.fire is None ==> post.phase == pre.phase,
        pre.fire is Some ==> post.phase == GamePhase::Run,
{
}

/// Reset durability: once the placement store is empty (as it is after a
/// reset), replaying it changes no cell, whatever the active level.
pub proof fn lemma_reset_durability(
    s1: EditState,
    s2: EditState,
    reg: GridRegistry,
    active_level: usize,
)
    requires
        s1.wf(),
        s1.store.entries().len() == 0,
        apply_post(s1, s2, reg, active_level),
    ensures
        forall|c: GridCoord| #[trigger] s2.at(c) == s1.at(c),
{
    if s1.store.spec_level() == active_level {
        assert forall|c: GridCoord| #[trigger] s2.at(c) == s1.at(c) by {
            assert(s2.at(c) == replay_result(s1.at(c), s1.store.entries(), reg, c));
        }
    } else {
        assert(s2.objects == s1.objects);
    }
}

} // verus!
