use vstd::prelude::*;

use crate::commands::CreateFire;
use crate::commands::CreateObject;
use crate::grid::GridCoord;
use crate::grid::GridRegistry;
use crate::item::Item;
use crate::store::CurrentPlacement;
use crate::store::INVALID_LEVEL;

verus! {

/// The three phases of the gameplay loop: level (re)load, placement editing,
/// and the running simulation.
#[derive(Clone, Copy, Debug, PartialEq, Eq, Structural)]
pub enum GamePhase {
    Init,
    Edit,
    Run,
}

/// A game item instance anchored to one grid coordinate, owned by the grid
/// tile whose handle is `parent_grid`.
#[derive(Clone, Copy, Debug, PartialEq, Eq, Structural)]
pub struct PlacedObject {
    pub parent_grid: usize,
    pub coord: GridCoord,
    pub item: Item,
    pub visual_index: u8,
}

/// Marker for the single transient fire entity; its presence is the readiness
/// signal for starting a run.
#[derive(Clone, Copy, Debug, PartialEq, Eq, Structural)]
pub struct Fire {
    pub coord: GridCoord,
    pub visual_index: u8,
}

/// Sprite-sheet slot of the fire marker.
pub const FIRE_VISUAL_INDEX: u8 = 5;

/// The fire marker placed at `coord`.
pub open spec fn spec_fire(coord: GridCoord) -> Fire {
    Fire { coord, visual_index: FIRE_VISUAL_INDEX }
}

pub fn fire(coord: GridCoord) -> (f: Fire)
    ensures
        f == spec_fire(coord),
{
    Fire { coord, visual_index: FIRE_VISUAL_INDEX }
}

/// A requested sound side effect, named after the asset it plays.
#[derive(Clone, Copy, Debug, PartialEq, Eq, Structural)]
pub enum SoundRequest {
    Break1,
    Break2,
    Start1,
}

/// Well-formedness of the placed-object arena: at most one object per
/// coordinate, the eraser never materialized, and every object's visual index
/// equal to its item's code.
pub open spec fn objects_wf(objs: Seq<PlacedObject>) -> bool {
    &&& forall|i: int, j: int|
        0 <= i < objs.len() && 0 <= j < objs.len() && i != j ==> (#[trigger] objs[i]).coord != (
        #[trigger] objs[j]).coord
    &&& forall|i: int| 0 <= i < objs.len() ==> (#[trigger] objs[i]).item != Item::Eraser
    &&& forall|i: int|
        0 <= i < objs.len() ==> (#[trigger] objs[i]).visual_index == objs[i].item.spec_code()
}

/// Whether some object in `objs` sits at `c`.
pub open spec fn seq_has_at(objs: Seq<PlacedObject>, c: GridCoord) -> bool {
    exists|i: int| 0 <= i < objs.len() && (#[trigger] objs[i]).coord == c
}

/// An index of an object at `c`, when one exists.
pub open spec fn seq_index_at(objs: Seq<PlacedObject>, c: GridCoord) -> int {
    choose|i: int| 0 <= i < objs.len() && (#[trigger] objs[i]).coord == c
}

/// The object at `c`, if any.
pub open spec fn seq_at(objs: Seq<PlacedObject>, c: GridCoord) -> Option<PlacedObject> {
    if seq_has_at(objs, c) {
        Option::Some(objs[seq_index_at(objs, c)])
    } else {
        Option::None
    }
}

/// In a well-formed arena, any index holding coordinate `c` is the index that
/// `seq_at` reads.
pub proof fn lemma_seq_at_index(objs: Seq<PlacedObject>, c: GridCoord, i: int)
    requires
        objects_wf(objs),
        0 <= i < objs.len(),
        objs[i].coord == c,
    ensures
        seq_has_at(objs, c),
        seq_at(objs, c) == Option::Some(objs[i]),
        seq_index_at(objs, c) == i,
{
    assert(seq_has_at(objs, c));
    let j = seq_index_at(objs, c);
    assert(0 <= j < objs.len() && objs[j].coord == c);
    if i != j {
        assert(objs[i].coord != objs[j].coord);
        assert(false);
    }
}

/// A coordinate no object holds reads as empty.
pub proof fn lemma_seq_at_absent(objs: Seq<PlacedObject>, c: GridCoord)
    requires
        forall|k: int| 0 <= k < objs.len() ==> (#[trigger] objs[k]).coord != c,
    ensures
        !seq_has_at(objs, c),
        seq_at(objs, c) is None,
{
}

/// Effect of removing the object at index `j` on a well-formed arena: the
/// arena stays well formed, its coordinate becomes empty, and every other
/// coordinate reads as before.
proof fn lemma_remove_effect(objs: Seq<PlacedObject>, j: int)
    requires
        objects_wf(objs),
        0 <= j < objs.len(),
    ensures
        objects_wf(objs.remove(j)),
        !seq_has_at(objs.remove(j), objs[j].coord),
        forall|c: GridCoord|
            c != objs[j].coord ==> #[trigger] seq_at(objs.remove(j), c) == seq_at(objs, c),
{
    let rem = objs.remove(j);
    objs.remove_ensures(j);
    assert forall|k: int| 0 <= k < rem.len() implies #[trigger] rem[k] == objs[
        if k < j {
            k
        } else {
            k + 1
        }
    ] by {
        if k < j {
            assert(rem[k] == objs[k]);
        } else {
            assert(rem[k] == objs[k + 1]);
        }
    }
    assert forall|k1: int, k2: int|
        0 <= k1 < rem.len() && 0 <= k2 < rem.len() && k1 != k2 implies (#[trigger] rem[k1]).coord
        != (#[trigger] rem[k2]).coord by {
        let m1 = if k1 < j { k1 } else { k1 + 1 };
        let m2 = if k2 < j { k2 } else { k2 + 1 };
        assert(rem[k1] == objs[m1]);
        assert(rem[k2] == objs[m2]);
        assert(m1 != m2);
        assert(objs[m1].coord != objs[m2].coord);
    }
    assert forall|k: int| 0 <= k < rem.len() implies (#[trigger] rem[k]).coord != objs[j].coord by {
        let m = if k < j { k } else { k + 1 };
        assert(rem[k] == objs[m]);
        assert(m != j);
        assert(objs[m].coord != objs[j].coord);
    }
    lemma_seq_at_absent(rem, objs[j].coord);
    assert forall|c: GridCoord| c != objs[j].coord implies #[trigger] seq_at(rem, c) == seq_at(
        objs,
        c,
    ) by {
        if seq_has_at(objs, c) {
            let i = seq_index_at(objs, c);
            assert(0 <= i < objs.len() && objs[i].coord == c);
            assert(i != j);
            let k = if i < j { i } else { i - 1 };
            assert(rem[k] == objs[i]);
            lemma_seq_at_index(objs, c, i);
            lemma_seq_at_index(rem, c, k);
        } else {
            assert forall|k: int| 0 <= k < rem.len() implies (#[trigger] rem[k]).coord != c by {
                let m = if k < j { k } else { k + 1 };
                assert(rem[k] == objs[m]);
                assert(objs[m].coord != c);
            }
            lemma_seq_at_absent(rem, c);
        }
    }
}

/// Effect of overwriting index `j` with an object at the same coordinate.
proof fn lemma_update_effect(objs: Seq<PlacedObject>, j: int, obj: PlacedObject)
    requires
        objects_wf(objs),
        0 <= j < objs.len(),
        obj.coord == objs[j].coord,
        obj.item != Item::Eraser,
        obj.visual_index == obj.item.spec_code(),
    ensures
        objects_wf(objs.update(j, obj)),
        seq_at(objs.update(j, obj), obj.coord) == Option::Some(obj),
        forall|c: GridCoord|
            c != obj.coord ==> #[trigger] seq_at(objs.update(j, obj), c) == seq_at(objs, c),
{
    let upd = objs.update(j, obj);
    assert forall|k1: int, k2: int|
        0 <= k1 < upd.len() && 0 <= k2 < upd.len() && k1 != k2 implies (#[trigger] upd[k1]).coord
        != (#[trigger] upd[k2]).coord by {
        assert(upd[k1] == if k1 == j { obj } else { objs[k1] });
        assert(upd[k2] == if k2 == j { obj } else { objs[k2] });
        assert(upd[k1].coord == objs[k1].coord);
        assert(upd[k2].coord == objs[k2].coord);
        assert(objs[k1].coord != objs[k2].coord);
    }
    assert forall|k: int| 0 <= k < upd.len() implies (#[trigger] upd[k]).item != Item::Eraser && (
    #[trigger] upd[k]).visual_index == upd[k].item.spec_code() by {
        assert(upd[k] == if k == j { obj } else { objs[k] });
    }
    lemma_seq_at_index(upd, obj.coord, j);
    assert forall|c: GridCoord| c != obj.coord implies #[trigger] seq_at(upd, c) == seq_at(
        objs,
        c,
    ) by {
        if seq_has_at(objs, c) {
            let i = seq_index_at(objs, c);
            assert(0 <= i < objs.len() && objs[i].coord == c);
            assert(i != j);
            assert(upd[i] == objs[i]);
            lemma_seq_at_index(objs, c, i);
            lemma_seq_at_index(upd, c, i);
        } else {
            assert forall|k: int| 0 <= k < upd.len() implies (#[trigger] upd[k]).coord != c by {
                assert(upd[k] == if k == j { obj } else { objs[k] });
            }
            lemma_seq_at_absent(upd, c);
            lemma_seq_at_absent(objs, c);
        }
    }
}

/// Effect of appending an object at a coordinate the arena does not hold.
proof fn lemma_push_effect(objs: Seq<PlacedObject>, obj: PlacedObject)
    requires
        objects_wf(objs),
        !seq_has_at(objs, obj.coord),
        obj.item != Item::Eraser,
        obj.visual_index == obj.item.spec_code(),
    ensures
        objects_wf(objs.push(obj)),
        seq_at(objs.push(obj), obj.coord) == Option::Some(obj),
        forall|c: GridCoord|
            c != obj.coord ==> #[trigger] seq_at(objs.push(obj), c) == seq_at(objs, c),
{
    let new = objs.push(obj);
    assert forall|k: int| 0 <= k < new.len() implies #[trigger] new[k] == (if k < objs.len() {
        objs[k]
    } else {
        obj
    }) by {}
    assert forall|k1: int, k2: int|
        0 <= k1 < new.len() && 0 <= k2 < new.len() && k1 != k2 implies (#[trigger] new[k1]).coord
        != (#[trigger] new[k2]).coord by {
        if k1 < objs.len() && k2 < objs.len() {
            assert(objs[k1].coord != objs[k2].coord);
        } else if k1 < objs.len() {
            assert(new[k2] == obj);
            assert(objs[k1].coord != obj.coord);
        } else {
            assert(new[k1] == obj);
            assert(objs[k2].coord != obj.coord);
        }
    }
    lemma_seq_at_index(new, obj.coord, objs.len() as int);
    assert forall|c: GridCoord| c != obj.coord implies #[trigger] seq_at(new, c) == seq_at(
        objs,
        c,
    ) by {
        if seq_has_at(objs, c) {
            let i = seq_index_at(objs, c);
            assert(0 <= i < objs.len() && objs[i].coord == c);
            assert(new[i] == objs[i]);
            lemma_seq_at_index(objs, c, i);
            lemma_seq_at_index(new, c, i);
        } else {
            assert forall|k: int| 0 <= k < new.len() implies (#[trigger] new[k]).coord != c by {}
            lemma_seq_at_absent(new, c);
            lemma_seq_at_absent(objs, c);
        }
    }
}

/// First index in the arena holding an object at `c`, if any.
fn find_object(objects: &Vec<PlacedObject>, c: GridCoord) -> (r: Option<usize>)
    ensures
        r matches Some(j) ==> (j as int) < objects@.len() && objects@[j as int].coord == c,
        r is None ==> forall|k: int| 0 <= k < objects@.len() ==> (#[trigger] objects@[k]).coord != c,
{
    let mut i: usize = 0;
    while i < objects.len()
        invariant
            i <= objects@.len(),
            forall|k: int| 0 <= k < i ==> (#[trigger] objects@[k]).coord != c,
        decreases objects@.len() - i,
    {
        if objects[i].coord == c {
            return Option::Some(i);
        }
        i += 1;
    }
    Option::None
}

/// The object a non-eraser command creates.
pub open spec fn created_object(cmd: CreateObject) -> PlacedObject {
    PlacedObject {
        parent_grid: cmd.parent_grid,
        coord: cmd.coord,
        item: cmd.item,
        visual_index: cmd.item.spec_code(),
    }
}

/// The sound queue after a create-object command: a break sound is appended
/// exactly when the command asks for sound and a sound resource is available.
pub open spec fn create_sound(
    cmd: CreateObject,
    sound_available: bool,
    pre: Seq<SoundRequest>,
) -> Seq<SoundRequest> {
    if cmd.with_sound && sound_available {
        pre.push(
            if cmd.item == Item::Eraser {
                SoundRequest::Break1
            } else {
                SoundRequest::Break2
            },
        )
    } else {
        pre
    }
}

/// Everything a create-object step guarantees: the target cell holds exactly
/// the commanded item (or nothing, for the eraser), every other cell is
/// untouched, the arena stays well formed, the sound queue grows as commanded,
/// and no other state moves.
pub open spec fn create_post(
    pre: EditState,
    post: EditState,
    cmd: CreateObject,
    sound_available: bool,
) -> bool {
    &&& post.wf()
    &&& post.at(cmd.coord) == (if cmd.item == Item::Eraser {
        Option::<PlacedObject>::None
    } else {
        Option::Some(created_object(cmd))
    })
    &&& forall|c: GridCoord| c != cmd.coord ==> #[trigger] post.at(c) == pre.at(c)
    &&& post.sounds@ == create_sound(cmd, sound_available, pre.sounds@)
    &&& post.phase == pre.phase
    &&& post.selected == pre.selected
    &&& post.store == pre.store
    &&& post.fire == pre.fire
}

/// Everything a select-item step guarantees: the selection toggles off when
/// the candidate is already selected, is forced off outside the Edit phase,
/// and otherwise becomes the candidate; nothing else moves.
pub open spec fn select_post(pre: EditState, post: EditState, candidate: Item) -> bool {
    &&& post.selected == (if pre.selected == Option::Some(candidate) || pre.phase
        != GamePhase::Edit {
        Option::<Item>::None
    } else {
        Option::Some(candidate)
    })
    &&& post.phase == pre.phase
    &&& post.objects == pre.objects
    &&& post.store == pre.store
    &&& post.fire == pre.fire
    &&& post.sounds == pre.sounds
}

/// Everything a run attempt guarantees: the phase becomes Run exactly when a
/// fire marker is present, and nothing else moves.
pub open spec fn run_post(pre: EditState, post: EditState) -> bool {
    &&& post.phase == (if pre.fire is Some {
        GamePhase::Run
    } else {
        pre.phase
    })
    &&& post.selected == pre.selected
    &&& post.objects == pre.objects
    &&& post.store == pre.store
    &&& post.fire == pre.fire
    &&& post.sounds == pre.sounds
}

/// Everything a fire-toggle step guarantees: with no bomb at the commanded
/// coordinate nothing happens; otherwise a fire marker already there is
/// removed, and any other (or no) fire marker is replaced by one there.
pub open spec fn fire_toggle_post(pre: EditState, post: EditState, coord: GridCoord) -> bool {
    &&& post.fire == (if !pre.bomb_at(coord) {
        pre.fire
    } else {
        match pre.fire {
            Option::Some(f) => if f.coord == coord {
                Option::<Fire>::None
            } else {
                Option::Some(spec_fire(coord))
            },
            Option::None => Option::Some(spec_fire(coord)),
        }
    })
    &&& post.phase == pre.phase
    &&& post.selected == pre.selected
    &&& post.objects == pre.objects
    &&& post.store == pre.store
    &&& post.sounds == pre.sounds
}

/// What one stored entry does to the content of cell `c` during replay: an
/// entry for another cell, or one whose coordinate no grid tile covers, leaves
/// it alone; an eraser entry empties it; any other entry fills it with the
/// stored item under the resolved grid tile.
pub open spec fn entry_effect(
    cur: Option<PlacedObject>,
    e: (GridCoord, Item),
    reg: GridRegistry,
    c: GridCoord,
) -> Option<PlacedObject> {
    if e.0 == c {
        match reg.spec_lookup(c) {
            Option::Some(g) => if e.1 == Item::Eraser {
                Option::None
            } else {
                Option::Some(
                    PlacedObject {
                        parent_grid: g,
                        coord: c,
                        item: e.1,
                        visual_index: e.1.spec_code(),
                    },
                )
            },
            Option::None => cur,
        }
    } else {
        cur
    }
}

/// The content of cell `c` after replaying the stored entries from index `i`
/// on, starting from content `cur`.
pub open spec fn replay_from(
    cur: Option<PlacedObject>,
    entries: Seq<(GridCoord, Item)>,
    reg: GridRegistry,
    c: GridCoord,
    i: int,
) -> Option<PlacedObject>
    decreases entries.len() - i,
{
    if i < 0 || i >= entries.len() {
        cur
    } else {
        replay_from(entry_effect(cur, entries[i], reg, c), entries, reg, c, i + 1)
    }
}

/// The content of cell `c` after replaying all stored entries in insertion
/// order, starting from content `base`.
pub open spec fn replay_result(
    base: Option<PlacedObject>,
    entries: Seq<(GridCoord, Item)>,
    reg: GridRegistry,
    c: GridCoord,
) -> Option<PlacedObject> {
    replay_from(base, entries, reg, c, 0)
}

/// Everything a replay step guarantees: with a matching level every cell ends
/// up as the stored entries dictate; with a stale level nothing moves; and in
/// either case the replay is silent and touches neither phase, selection,
/// store, nor fire marker.
pub open spec fn apply_post(
    pre: EditState,
    post: EditState,
    reg: GridRegistry,
    active_level: usize,
) -> bool {
    &&& post.wf()
    &&& (if pre.store.spec_level() == active_level {
        forall|c: GridCoord|
            #[trigger] post.at(c) == replay_result(pre.at(c), pre.store.entries(), reg, c)
    } else {
        post.objects == pre.objects
    })
    &&& post.phase == pre.phase
    &&& post.selected == pre.selected
    &&& post.store == pre.store
    &&& post.fire == pre.fire
    &&& post.sounds@ == pre.sounds@
}

/// The process-wide editing state: the phase, the current selection, the
/// placement store, the placed-object arena, the fire marker, and the queue of
/// requested sound effects.
#[derive(Debug)]
pub struct EditState {
    pub phase: GamePhase,
    pub selected: Option<Item>,
    pub store: CurrentPlacement,
    pub objects: Vec<PlacedObject>,
    pub fire: Option<Fire>,
    pub sounds: Vec<SoundRequest>,
}

impl EditState {
    /// Invariant of the placed-object arena.
    pub open spec fn wf(self) -> bool {
        objects_wf(self.objects@)
    }

    /// Whether some placed object sits at `c`.
    pub open spec fn has_at(self, c: GridCoord) -> bool {
        seq_has_at(self.objects@, c)
    }

    /// The placed object at `c`, if any.
    pub open spec fn at(self, c: GridCoord) -> Option<PlacedObject> {
        seq_at(self.objects@, c)
    }

    /// Whether a bomb (any real item) sits at `c`.
    pub open spec fn bomb_at(self, c: GridCoord) -> bool {
        match self.at(c) {
            Option::Some(o) => o.item.spec_is_bomb(),
            Option::None => false,
        }
    }

    /// A fresh state: Init phase, nothing selected, nothing placed, no fire,
    /// no sounds, and a store that no level matches.
    pub fn new() -> (s: EditState)
        ensures
            s.wf(),
            s.phase == GamePhase::Init,
            s.selected is None,
            s.store.spec_level() == INVALID_LEVEL,
            s.store.entries() == Seq::<(GridCoord, Item)>::empty(),
            s.objects@ == Seq::<PlacedObject>::empty(),
            s.fire is None,
            s.sounds@ == Seq::<SoundRequest>::empty(),
    {
        EditState {
            phase: GamePhase::Init,
            selected: Option::None,
            store: CurrentPlacement::new(INVALID_LEVEL, Vec::new()),
            objects: Vec::new(),
            fire: Option::None,
            sounds: Vec::new(),
        }
    }

    /// The placed object at `c`, as an executable query.
    pub fn object_at(&self, c: GridCoord) -> (r: Option<PlacedObject>)
        requires
            self.wf(),
        ensures
            r == self.at(c),
    {
        let found = find_object(&self.objects, c);
        match found {
            Option::Some(j) => {
                proof {
                    lemma_seq_at_index(self.objects@, c, j as int);
                }
                Option::Some(self.objects[j])
            },
            Option::None => {
                proof {
                    lemma_seq_at_absent(self.objects@, c);
                }
                Option::None
            },
        }
    }

    /// The sole mutation point for grid contents. Destroys whatever sits at
    /// the commanded coordinate, then creates the commanded object unless the
    /// command is an erase; requests the matching break sound when asked and
    /// a sound resource is available.
    pub fn create_object(&mut self, cmd: &CreateObject, sound_available: bool)
        requires
            old(self).wf(),
        ensures
            create_post(*old(self), *final(self), *cmd, sound_available),
    {
        let ghost pre = self.objects@;
        let found = find_object(&self.objects, cmd.coord);
        if cmd.item.is_bomb() {
            let obj = PlacedObject {
                parent_grid: cmd.parent_grid,
                coord: cmd.coord,
                item: cmd.item,
                visual_index: cmd.item.code(),
            };
            match found {
                Option::Some(j) => {
                    self.objects[j] = obj;
                    proof {
                        lemma_update_effect(pre, j as int, obj);
                    }
                },
                Option::None => {
                    self.objects.push(obj);
                    proof {
                        lemma_seq_at_absent(pre, cmd.coord);
                        lemma_push_effect(pre, obj);
                    }
                },
            }
            if cmd.with_sound && sound_available {
                self.sounds.push(SoundRequest::Break2);
            }
        } else {
            match found {
                Option::Some(j) => {
                    self.objects.remove(j);
                    proof {
                        lemma_remove_effect(pre, j as int);
                    }
                },
                Option::None => {
                    proof {
                        lemma_seq_at_absent(pre, cmd.coord);
                    }
                },
            }
            if cmd.with_sound && sound_available {
                self.sounds.push(SoundRequest::Break1);
            }
        }
    }

    /// An item button was clicked: toggle the selection, forcing it off
    /// outside the Edit phase.
    pub fn select_item(&mut self, candidate: Item)
        ensures
            select_post(*old(self), *final(self), candidate),
    {
        let same = match self.selected {
            Option::Some(s) => s == candidate,
            Option::None => false,
        };
        if same || self.phase != GamePhase::Edit {
            self.selected = Option::None;
        } else {
            self.selected = Option::Some(candidate);
        }
    }

    /// On (re-)entering the Edit phase: the selection starts out empty.
    pub fn init_edit_state(&mut self)
        ensures
            final(self).selected is None,
            final(self).phase == old(self).phase,
            final(self).objects == old(self).objects,
            final(self).store == old(self).store,
            final(self).fire == old(self).fire,
            final(self).sounds == old(self).sounds,
    {
        self.selected = Option::None;
    }

    /// Attempt the Edit -> Run transition: it takes effect only if a fire
    /// marker is present; otherwise it is a silent no-op.
    pub fn try_run_simulation(&mut self)
        ensures
            run_post(*old(self), *final(self)),
    {
        if self.fire.is_some() {
            self.phase = GamePhase::Run;
        }
    }

    /// The run key was pressed while editing: request the start sound if a
    /// sound resource is available, then attempt the run transition.
    pub fn run_simulation_with_keyboard(&mut self, sound_available: bool)
        requires
            old(self).phase == GamePhase::Edit,
        ensures
            final(self).sounds@ == (if sound_available {
                old(self).sounds@.push(SoundRequest::Start1)
            } else {
                old(self).sounds@
            }),
            final(self).phase == (if old(self).fire is Some {
                GamePhase::Run
            } else {
                GamePhase::Edit
            }),
            final(self).selected == old(self).selected,
            final(self).objects == old(self).objects,
            final(self).store == old(self).store,
            final(self).fire == old(self).fire,
    {
        if sound_available {
            self.sounds.push(SoundRequest::Start1);
        }
        self.try_run_simulation();
    }

    /// The run button was clicked: attempt the run transition, but only while
    /// in the Edit phase, and without a sound request.
    pub fn run_simulation_with_button(&mut self)
        ensures
            final(self).phase == (if old(self).phase == GamePhase::Edit && old(self).fire is Some {
                GamePhase::Run
            } else {
                old(self).phase
            }),
            final(self).selected == old(self).selected,
            final(self).objects == old(self).objects,
            final(self).store == old(self).store,
            final(self).fire == old(self).fire,
            final(self).sounds == old(self).sounds,
    {
        if self.phase != GamePhase::Edit {
            return;
        }
        self.try_run_simulation();
    }

    /// The reset key was pressed while editing: go back to the Init phase,
    /// unconditionally.
    pub fn reset_all_object_placements(&mut self)
        requires
            old(self).phase == GamePhase::Edit,
        ensures
            final(self).phase == GamePhase::Init,
            final(self).selected == old(self).selected,
            final(self).objects == old(self).objects,
            final(self).store == old(self).store,
            final(self).fire == old(self).fire,
            final(self).sounds == old(self).sounds,
    {
        self.phase = GamePhase::Init;
    }

    /// Leaving the gameplay context: clear the placement store and mark its
    /// level invalid, so replay no-ops until the store is repopulated.
    pub fn reset_current_placement(&mut self)
        ensures
            final(self).store.spec_level() == INVALID_LEVEL,
            final(self).store.entries() == Seq::<(GridCoord, Item)>::empty(),
            final(self).phase == old(self).phase,
            final(self).selected == old(self).selected,
            final(self).objects == old(self).objects,
            final(self).fire == old(self).fire,
            final(self).sounds == old(self).sounds,
    {
        self.store.reset();
    }

    /// On entering the Edit phase: replay the stored layout through the
    /// object-creation engine, silently, entry by entry in insertion order.
    /// A stale store (level mismatch) disables the whole replay; an entry
    /// whose coordinate no grid tile covers is skipped, best effort, without
    /// aborting the remaining entries.
    pub fn apply_current_placement(&mut self, registry: &GridRegistry, active_level: usize)
        requires
            old(self).wf(),
        ensures
            apply_post(*old(self), *final(self), *registry, active_level),
    {
        let lvl = self.store.level();
        if lvl != active_level {
            return;
        }
        let ghost entries = self.store.entries();
        let n = self.store.len();
        let mut i: usize = 0;
        while i < n
            invariant
                self.wf(),
                n == entries.len(),
                i <= n,
                self.store == old(self).store,
                entries == old(self).store.entries(),
                self.phase == old(self).phase,
                self.selected == old(self).selected,
                self.fire == old(self).fire,
                self.sounds@ == old(self).sounds@,
                forall|c: GridCoord|
                    #[trigger] replay_from(self.at(c), entries, *registry, c, i as int)
                        == replay_result(old(self).at(c), entries, *registry, c),
            decreases n - i,
        {
            let e = self.store.entry(i);
            let ghost mid = *self;
            let r = registry.lookup(e.0);
            match r {
                Option::Some(g) => {
                    let cmd = CreateObject::new(g, e.0, e.1).without_sound();
                    self.create_object(&cmd, false);
                    proof {
                        assert forall|c: GridCoord|
                            #[trigger] replay_from(self.at(c), entries, *registry, c, i as int + 1)
                                == replay_result(old(self).at(c), entries, *registry, c) by {
                            assert(entries[i as int] == e);
                            if c == e.0 {
                                assert(self.at(c) == entry_effect(
                                    mid.at(c),
                                    entries[i as int],
                                    *registry,
                                    c,
                                ));
                            } else {
                                assert(self.at(c) == mid.at(c));
                                assert(entry_effect(mid.at(c), entries[i as int], *registry, c)
                                    == mid.at(c));
                            }
                            assert(replay_from(mid.at(c), entries, *registry, c, i as int)
                                == replay_from(
                                entry_effect(mid.at(c), entries[i as int], *registry, c),
                                entries,
                                *registry,
                                c,
                                i as int + 1,
                            ));
                            assert(replay_from(mid.at(c), entries, *registry, c, i as int)
                                == replay_result(old(self).at(c), entries, *registry, c));
                        }
                    }
                },
                Option::None => {
                    proof {
                        assert forall|c: GridCoord|
                            #[trigger] replay_from(self.at(c), entries, *registry, c, i as int + 1)
                                == replay_result(old(self).at(c), entries, *registry, c) by {
                            assert(entries[i as int] == e);
                            assert(entry_effect(self.at(c), entries[i as int], *registry, c)
                                == self.at(c));
                            assert(replay_from(self.at(c), entries, *registry, c, i as int)
                                == replay_from(self.at(c), entries, *registry, c, i as int + 1));
                        }
                    }
                },
            }
            i += 1;
        }
        proof {
            assert forall|c: GridCoord|
                #[trigger] self.at(c) == replay_result(old(self).at(c), entries, *registry, c) by {
                assert(replay_from(self.at(c), entries, *registry, c, i as int) == self.at(c));
            }
        }
    }

    /// Entering the Edit phase: reset the selection first, then replay the
    /// stored layout, in that order, so that replayed objects are never
    /// mistakenly highlighted as selected.
    pub fn enter_edit(&mut self, registry: &GridRegistry, active_level: usize)
        requires
            old(self).wf(),
        ensures
            final(self).wf(),
            final(self).phase == GamePhase::Edit,
            final(self).selected is None,
            final(self).store == old(self).store,
            final(self).fire == old(self).fire,
            final(self).sounds@ == old(self).sounds@,
            old(self).store.spec_level() == active_level ==> forall|c: GridCoord|
                #[trigger] final(self).at(c) == replay_result(
                    old(self).at(c),
                    old(self).store.entries(),
                    *registry,
                    c,
                ),
            old(self).store.spec_level() != active_level ==> final(self).objects == old(
                self,
            ).objects,
    {
        self.phase = GamePhase::Edit;
        self.init_edit_state();
        let ghost mid = *self;
        self.apply_current_placement(registry, active_level);
        proof {
            assert(mid.objects == old(self).objects);
            if old(self).store.spec_level() == active_level {
                assert forall|c: GridCoord|
                    #[trigger] self.at(c) == replay_result(
                        old(self).at(c),
                        old(self).store.entries(),
                        *registry,
                        c,
                    ) by {
                    assert(self.at(c) == replay_result(
                        mid.at(c),
                        mid.store.entries(),
                        *registry,
                        c,
                    ));
                    assert(mid.at(c) == old(self).at(c));
                }
            }
        }
    }

    /// A fire-toggle command: if a bomb sits at the commanded coordinate, arm
    /// the single fire marker there, disarm it if it was already there, and
    /// move it if it was elsewhere; with no bomb there, do nothing.
    pub fn try_create_single_fire(&mut self, cmd: &CreateFire)
        requires
            old(self).wf(),
        ensures
            fire_toggle_post(*old(self), *final(self), cmd.coord),
    {
        let found = find_object(&self.objects, cmd.coord);
        let bomb_here = match found {
            Option::Some(j) => {
                proof {
                    lemma_seq_at_index(self.objects@, cmd.coord, j as int);
                }
                self.objects[j].item.is_bomb()
            },
            Option::None => {
                proof {
                    lemma_seq_at_absent(self.objects@, cmd.coord);
                }
                false
            },
        };
        if !bomb_here {
            return;
        }
        let cur = self.fire;
        match cur {
            Option::Some(f) => {
                if f.coord == cmd.coord {
                    self.fire = Option::None;
                } else {
                    self.fire = Option::Some(fire(cmd.coord));
                }
            },
            Option::None => {
                self.fire = Option::Some(fire(cmd.coord));
            },
        }
    }
}

} // verus!
