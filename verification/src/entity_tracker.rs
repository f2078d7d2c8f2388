//! The entity tracker's decisions: which components an object that the server creates gets,
//! and which known entities a destroy message or a movement update is about.
use vstd::prelude::*;

verus! {

/// The kind of a created object's update mask, with the values that the tracker reads.
#[derive(Clone, Copy, PartialEq, Eq, Structural)]
pub enum ObjectMask {
    Item,
    Container,
    Unit { level: Option<i32>, display_id: Option<i32> },
    Player { level: Option<i32> },
    GameObject,
    DynamicObject,
    Corpse,
}

/// An object that the server creates, as far as the tracker reads it.
#[derive(Clone, Copy, PartialEq, Eq, Structural)]
pub struct NewObject {
    pub guid: u64,
    /// The movement block carries a position and an orientation.
    pub has_position: bool,
    /// The movement block is that of a living object that follows a spline.
    pub spline_enabled: bool,
    pub mask: ObjectMask,
}

/// The components that the tracker gives a created object, besides its guid and object type.
#[derive(Clone, Copy, PartialEq, Eq, Structural)]
pub struct ObjectComponents {
    pub guid: u64,
    /// A location and an orientation, taken from the movement block.
    pub location: bool,
    /// A spline walker, taken from the movement block's spline.
    pub spline_walker: bool,
    pub level: Option<i32>,
    pub display_id: Option<i32>,
    /// Players are rendered.
    pub renderable: bool,
}

/// Units and players carry their level: the tracker does not take one without it.
pub open spec fn level_present(mask: ObjectMask) -> bool {
    match mask {
        ObjectMask::Unit { level, .. } => level is Some,
        ObjectMask::Player { level } => level is Some,
        _ => true,
    }
}

/// Whether the tracker takes the object (see `level_present`).
pub fn has_level(mask: ObjectMask) -> (r: bool)
    ensures
        r == level_present(mask),
{
    match mask {
        ObjectMask::Unit { level, .. } => level.is_some(),
        ObjectMask::Player { level } => level.is_some(),
        _ => true,
    }
}

/// The components of a created object: its location and spline walker where the movement block
/// has them; a unit's level and display id; a player's level, and that it is rendered. Game
/// objects and the other kinds get nothing more.
pub fn object_components(object: NewObject) -> (r: ObjectComponents)
    requires
        level_present(object.mask),
    ensures
        r.guid == object.guid,
        r.location == object.has_position,
        r.spline_walker == object.spline_enabled,
        r.level == match object.mask {
            ObjectMask::Unit { level, .. } => level,
            ObjectMask::Player { level } => level,
            _ => None,
        },
        r.display_id == match object.mask {
            ObjectMask::Unit { display_id, .. } => display_id,
            _ => None,
        },
        r.renderable == object.mask is Player,
        r.level is Some <==> (object.mask is Unit || object.mask is Player),
{
    let (level, display_id, renderable) = match object.mask {
        ObjectMask::Unit { level, display_id } => (level, display_id, false),
        ObjectMask::Player { level } => (level, None, true),
        _ => (None, None, false),
    };
    ObjectComponents {
        guid: object.guid,
        location: object.has_position,
        spline_walker: object.spline_enabled,
        level,
        display_id,
        renderable,
    }
}

/// The entity that a destroy message or a movement update for `guid` is about: the first
/// known entity with that guid, by its position among the guids of the tracked entities (in
/// the order in which the world hands them out); `None` where no known entity has it.
pub fn find_entity(known: &Vec<u64>, guid: u64) -> (r: Option<usize>)
    ensures
        match r {
            Some(i) => i < known.len() && known[i as int] == guid && forall|j: int|
                0 <= j < i ==> known[j] != guid,
            None => forall|j: int| 0 <= j < known.len() ==> known[j] != guid,
        },
{
    let mut i: usize = 0;
    while i < known.len()
        invariant
            i <= known.len(),
            forall|j: int| 0 <= j < i ==> known[j] != guid,
        decreases known.len() - i,
    {
        if known[i] == guid {
            return Some(i);
        }
        i += 1;
    }
    None
}

/// The entities that a message destroying the objects `guids` removes: every known entity
/// whose guid is among them, by their positions in increasing order.
pub fn entities_to_destroy(known: &Vec<u64>, guids: &Vec<u64>) -> (r: Vec<usize>)
    ensures
        forall|k: int| 0 <= k < r.len() ==> #[trigger] r[k] < known.len() && guids@.contains(known[r[k] as int]),
        forall|k: int, l: int| 0 <= k < l < r.len() ==> r[k] < r[l],
        forall|i: int|
            0 <= i < known.len() && guids@.contains(#[trigger] known[i]) ==> r@.contains(i as usize),
{
    let mut r: Vec<usize> = Vec::new();
    let mut i: usize = 0;
    while i < known.len()
        invariant
            i <= known.len(),
            forall|k: int| 0 <= k < r.len() ==> #[trigger] r[k] < i && guids@.contains(known[r[k] as int]),
            forall|k: int, l: int| 0 <= k < l < r.len() ==> r[k] < r[l],
            forall|j: int| 0 <= j < i && guids@.contains(#[trigger] known[j]) ==> r@.contains(j as usize),
        decreases known.len() - i,
    {
        let ghost before = r@;
        if contains_guid(guids, known[i]) {
            r.push(i);
            proof {
                assert(r@ == before.push(i));
                assert forall|k: int| 0 <= k < r.len() implies #[trigger] r[k] < i + 1 && guids@.contains(
                    known[r[k] as int],
                ) by {
                    if k < before.len() {
                        assert(r[k] == before[k]);
                    }
                }
                assert forall|j: int| 0 <= j < i + 1 && guids@.contains(#[trigger] known[j]) implies r@.contains(
                    j as usize,
                ) by {
                    if j == i {
                        assert(r@[r.len() - 1] == i);
                    } else {
                        let w = choose|w: int| 0 <= w < before.len() && before[w] == j as usize;
                        assert(r@[w] == j as usize);
                    }
                }
            }
        }
        i += 1;
    }
    r
}

/// Whether `guid` is among `guids`.
fn contains_guid(guids: &Vec<u64>, guid: u64) -> (r: bool)
    ensures
        r == guids@.contains(guid),
{
    let mut i: usize = 0;
    while i < guids.len()
        invariant
            i <= guids.len(),
            forall|j: int| 0 <= j < i ==> guids[j] != guid,
        decreases guids.len() - i,
    {
        if guids[i] == guid {
            assert(guids@[i as int] == guid);
            return true;
        }
        i += 1;
    }
    false
}

} // verus!
