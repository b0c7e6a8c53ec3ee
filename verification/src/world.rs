//! World-side data the engine reads: named scene entities with positions,
//! camera poses, and movement goals.
//!
//! Coordinates are fixed-point milli-units (one world unit = 1000), bounded
//! so that adding the small camera offsets can never overflow.

use vstd::prelude::*;

verus! {

/// Largest magnitude a well-formed coordinate may have, in milli-units.
pub const COORD_LIMIT: i64 = 0x1000_0000_0000_0000;

/// Height of the camera above a framed target, in milli-units.
pub const CAMERA_OFFSET_Y: i64 = 2000;

/// Distance of the camera behind a framed target, in milli-units.
pub const CAMERA_OFFSET_Z: i64 = 5000;

/// Height above a framed target the camera looks at, in milli-units.
pub const LOOK_OFFSET_Y: i64 = 1000;

/// A point or translation in world space, in milli-units.
#[derive(Clone, Copy, PartialEq, Eq, Structural, Debug)]
pub struct Vec3i {
    pub x: i64,
    pub y: i64,
    pub z: i64,
}

pub open spec fn coord_ok(c: i64) -> bool {
    -COORD_LIMIT <= c <= COORD_LIMIT
}

/// A coordinate forced into bounds; one already in bounds is unchanged.
pub open spec fn spec_clamp(c: i64) -> i64 {
    if c > COORD_LIMIT {
        COORD_LIMIT
    } else if c < (-COORD_LIMIT) as i64 {
        (-COORD_LIMIT) as i64
    } else {
        c
    }
}

impl Vec3i {
    pub open spec fn wf(self) -> bool {
        coord_ok(self.x) && coord_ok(self.y) && coord_ok(self.z)
    }

    pub open spec fn spec_clamped(self) -> Vec3i {
        Vec3i { x: spec_clamp(self.x), y: spec_clamp(self.y), z: spec_clamp(self.z) }
    }
}

/// A camera framing: where the camera stands and the point it looks at.
#[derive(Clone, Copy, PartialEq, Eq, Structural, Debug)]
pub struct CameraPose {
    pub position: Vec3i,
    pub look_at: Vec3i,
}

/// An instruction to the camera collaborator.
#[derive(Clone, Copy, PartialEq, Eq, Structural, Debug)]
pub enum CameraDirective {
    /// Reframe onto a dialogue target.
    Cue(CameraPose),
    /// Restore the framing captured when the conversation started.
    Restore(CameraPose),
}

/// A movement goal installed on an actor by a `move_to` trigger: walk to
/// `target` at `speed` milli-units per second.
#[derive(Clone, Copy, PartialEq, Eq, Structural, Debug)]
pub struct MovementGoal {
    pub target: Vec3i,
    pub speed: i64,
}

/// The framing used while a line shows: offset above and behind the target,
/// looking at a point slightly above the target.
pub open spec fn spec_camera_cue(target: Vec3i) -> CameraPose {
    CameraPose {
        position: Vec3i {
            x: target.x,
            y: (target.y + CAMERA_OFFSET_Y) as i64,
            z: (target.z + CAMERA_OFFSET_Z) as i64,
        },
        look_at: Vec3i { x: target.x, y: (target.y + LOOK_OFFSET_Y) as i64, z: target.z },
    }
}

pub fn camera_cue(target: Vec3i) -> (r: CameraPose)
    requires
        target.wf(),
    ensures
        r == spec_camera_cue(target),
{
    CameraPose {
        position: Vec3i { x: target.x, y: target.y + CAMERA_OFFSET_Y, z: target.z + CAMERA_OFFSET_Z },
        look_at: Vec3i { x: target.x, y: target.y + LOOK_OFFSET_Y, z: target.z },
    }
}

/// One entity of the scene registry, with its capability tags: whether the
/// camera may frame it, and whether triggers may move it.
pub struct SceneEntity {
    pub name: String,
    pub position: Vec3i,
    /// Where the entity stands when the scene is reset.
    pub home: Vec3i,
    pub is_dialogue_target: bool,
    pub is_actor: bool,
}

#[verifier::ext_equal]
pub ghost struct EntityV {
    pub name: Seq<char>,
    pub position: Vec3i,
    pub home: Vec3i,
    pub is_dialogue_target: bool,
    pub is_actor: bool,
}

impl View for SceneEntity {
    type V = EntityV;

    open spec fn view(&self) -> EntityV {
        EntityV {
            name: self.name@,
            position: self.position,
            home: self.home,
            is_dialogue_target: self.is_dialogue_target,
            is_actor: self.is_actor,
        }
    }
}

/// The position of the first dialogue-target entity with this name.
pub open spec fn find_target(entities: Seq<EntityV>, name: Seq<char>) -> Option<Vec3i>
    decreases entities.len(),
{
    if entities.len() == 0 {
        None
    } else if entities[0].is_dialogue_target && entities[0].name == name {
        Some(entities[0].position)
    } else {
        find_target(entities.drop_first(), name)
    }
}

/// The index of the first actor entity with this name.
pub open spec fn find_actor(entities: Seq<EntityV>, name: Seq<char>) -> Option<int>
    decreases entities.len(),
{
    if entities.len() == 0 {
        None
    } else if entities[0].is_actor && entities[0].name == name {
        Some(0int)
    } else {
        match find_actor(entities.drop_first(), name) {
            Some(i) => Some(i + 1),
            None => None,
        }
    }
}

pub open spec fn spec_reset_positions(entities: Seq<EntityV>) -> Seq<EntityV> {
    entities.map_values(
        |e: EntityV|
            if e.is_actor {
                EntityV { position: e.home, ..e }
            } else {
                e
            },
    )
}

/// The scene/entity registry the engine queries for world positions.
pub struct SceneRegistry {
    pub entities: Vec<SceneEntity>,
}

impl View for SceneRegistry {
    type V = Seq<EntityV>;

    open spec fn view(&self) -> Seq<EntityV> {
        self.entities@.map_values(|e: SceneEntity| e@)
    }
}

impl SceneRegistry {
    /// All coordinates in bounds, so camera offsets cannot overflow.
    pub open spec fn wf(&self) -> bool {
        forall|i: int|
            0 <= i < self@.len() ==> (#[trigger] self@[i]).position.wf() && self@[i].home.wf()
    }

    pub fn new() -> (r: Self)
        ensures
            r@ == Seq::<EntityV>::empty(),
            r.wf(),
    {
        let r = SceneRegistry { entities: Vec::new() };
        proof {
            assert(r@ =~= Seq::<EntityV>::empty());
        }
        r
    }

    /// Adds an entity; out-of-bounds coordinates are clamped to the limit so
    /// the registry stays well formed.
    pub fn add_entity(&mut self, entity: SceneEntity)
        requires
            old(self).wf(),
        ensures
            final(self).wf(),
            final(self)@ == old(self)@.push(
                EntityV {
                    position: entity@.position.spec_clamped(),
                    home: entity@.home.spec_clamped(),
                    ..entity@
                },
            ),
            entity.position.wf() && entity.home.wf() ==> final(self)@ == old(self)@.push(entity@),
    {
        let e = SceneEntity {
            name: entity.name,
            position: clamp_vec(entity.position),
            home: clamp_vec(entity.home),
            is_dialogue_target: entity.is_dialogue_target,
            is_actor: entity.is_actor,
        };
        let ghost old_view = self@;
        self.entities.push(e);
        proof {
            assert(self@ =~= old_view.push(self.entities@[old_view.len() as int]@));
            assert forall|i: int| 0 <= i < self@.len() implies (#[trigger] self@[i]).position.wf()
                && self@[i].home.wf() by {
                if i < old_view.len() {
                    assert(old(self).wf());
                    assert(old_view[i].position.wf() && old_view[i].home.wf());
                }
            }
        }
    }

    /// The world position of the named dialogue target, if one is known:
    /// first match wins.
    pub fn target_position(&self, name: &String) -> (r: Option<Vec3i>)
        ensures
            r == find_target(self@, name@),
    {
        let mut i: usize = 0;
        proof {
            assert(self@.skip(0) =~= self@);
        }
        while i < self.entities.len()
            invariant
                i <= self.entities.len(),
                find_target(self@, name@) == find_target(self@.skip(i as int), name@),
            decreases self.entities.len() - i,
        {
            proof {
                assert(self@.skip(i as int)[0] == self@[i as int]);
                assert(self@.skip(i as int).drop_first() =~= self@.skip(i as int + 1));
            }
            if self.entities[i].is_dialogue_target && self.entities[i].name == *name {
                return Some(self.entities[i].position);
            }
            i = i + 1;
        }
        proof {
            assert(self@.skip(i as int) =~= Seq::<EntityV>::empty());
        }
        None
    }

    /// Repositions every actor to its defined origin; other entities are
    /// untouched.
    pub fn reset_positions(&mut self)
        requires
            old(self).wf(),
        ensures
            final(self)@ == spec_reset_positions(old(self)@),
            final(self).wf(),
    {
        let mut i: usize = 0;
        while i < self.entities.len()
            invariant
                i <= self.entities.len(),
                self@.len() == old(self)@.len(),
                forall|j: int| 0 <= j < i ==> self@[j] == spec_reset_positions(old(self)@)[j],
                forall|j: int| i <= j < self@.len() ==> self@[j] == old(self)@[j],
                old(self).wf(),
            decreases self.entities.len() - i,
        {
            let ghost prev = self.entities@;
            if self.entities[i].is_actor {
                let e = SceneEntity {
                    name: self.entities[i].name.clone(),
                    position: self.entities[i].home,
                    home: self.entities[i].home,
                    is_dialogue_target: self.entities[i].is_dialogue_target,
                    is_actor: self.entities[i].is_actor,
                };
                self.entities.set(i, e);
            }
            proof {
                assert forall|j: int| 0 <= j < i + 1 implies self@[j] == spec_reset_positions(
                    old(self)@,
                )[j] by {
                    assert(self@[j] == self.entities@[j]@);
                    assert(spec_reset_positions(old(self)@)[j] == (
                    if old(self)@[j].is_actor {
                        EntityV { position: old(self)@[j].home, ..old(self)@[j] }
                    } else {
                        old(self)@[j]
                    }));
                    if j < i {
                        assert(self.entities@[j] == prev[j]);
                        assert(prev[j]@ == prev.map_values(|x: SceneEntity| x@)[j]);
                        assert(prev.map_values(|x: SceneEntity| x@)[j] == spec_reset_positions(
                            old(self)@,
                        )[j]);
                    } else {
                        assert(self@[j] =~= spec_reset_positions(old(self)@)[j]);
                    }
                }
            }
            i = i + 1;
        }
        proof {
            assert(self@ =~= spec_reset_positions(old(self)@));
            assert forall|j: int| 0 <= j < self@.len() implies (#[trigger] self@[j]).position.wf()
                && self@[j].home.wf() by {
                assert(old(self)@[j].position.wf() && old(self)@[j].home.wf());
            }
        }
    }
}

fn clamp_coord(c: i64) -> (r: i64)
    ensures
        r == spec_clamp(c),
        coord_ok(r),
{
    if c > COORD_LIMIT {
        COORD_LIMIT
    } else if c < -COORD_LIMIT {
        -COORD_LIMIT
    } else {
        c
    }
}

fn clamp_vec(v: Vec3i) -> (r: Vec3i)
    ensures
        r == v.spec_clamped(),
        r.wf(),
{
    Vec3i { x: clamp_coord(v.x), y: clamp_coord(v.y), z: clamp_coord(v.z) }
}

} // verus!
