//! What the renderer needs of a scene snapshot: object kinds, lookup of a primitive by its
//! entity id, and the check that a snapshot has its light and its camera.
use vstd::prelude::*;

verus! {

/// The kind of primitive that a ray hit; `Nothing` before any hit.
#[derive(Clone, Copy, PartialEq, Eq, Structural, Debug)]
pub enum ObjectType {
    Nothing,
    Sphere,
    Plane,
    Box,
    Mesh,
}

/// No entity with a particular id exists.
#[derive(Clone, Copy, PartialEq, Eq, Structural, Debug)]
pub struct NoSuchEntity;

impl NoSuchEntity {
    /// The error's description.
    pub fn to_string(&self) -> (r: String)
        ensures
            r@ == "no such entity"@,
    {
        "no such entity".to_owned()
    }
}

/// The scene that an entity belonged to has been destroyed.
#[derive(Clone, Copy, PartialEq, Eq, Structural, Debug)]
pub struct NoSuchScene;

impl NoSuchScene {
    /// The error's description.
    pub fn to_string(&self) -> (r: String)
        ensures
            r@ == "no such scene"@,
    {
        "no such scene".to_owned()
    }
}

/// Why a scene cannot be rendered: it lacks its point light or its camera.
#[derive(Clone, Copy, PartialEq, Eq, Structural, Debug)]
pub enum SceneError {
    NoLight,
    NoCamera,
}

impl SceneError {
    /// The error's description.
    pub fn to_string(&self) -> (r: String)
        ensures
            r@ == (match self {
                SceneError::NoLight => "the scene has no point light"@,
                SceneError::NoCamera => "the scene has no camera"@,
            }),
    {
        match self {
            SceneError::NoLight => "the scene has no point light".to_owned(),
            SceneError::NoCamera => "the scene has no camera".to_owned(),
        }
    }
}

/// Whether a snapshot with `lights` point lights and `cameras` cameras can be rendered: it
/// needs at least one of each (the first is used). A missing light is reported first.
pub fn check_snapshot(lights: usize, cameras: usize) -> (r: Result<(), SceneError>)
    ensures
        r == (if lights == 0 {
            Err(SceneError::NoLight)
        } else if cameras == 0 {
            Err(SceneError::NoCamera)
        } else {
            Ok(())
        }),
{
    if lights == 0 {
        Err(SceneError::NoLight)
    } else if cameras == 0 {
        Err(SceneError::NoCamera)
    } else {
        Ok(())
    }
}

/// Entries keyed by entity id, in strictly increasing order of id.
pub open spec fn ids_ascending<T>(entries: Seq<(u32, T)>) -> bool {
    forall|i: int, j: int| 0 <= i < j < entries.len() ==> entries[i].0 < entries[j].0
}

/// Whether some entry has id `id`.
pub open spec fn has_id<T>(entries: Seq<(u32, T)>, id: u32) -> bool {
    exists|k: int| 0 <= k < entries.len() && entries[k].0 == id
}

/// The position of the entry with id `id`, by binary search. An index returned always holds
/// that id; where the ids ascend, `None` means that no entry has it.
pub fn find_by_id<T>(entries: &Vec<(u32, T)>, id: u32) -> (r: Option<usize>)
    ensures
        r matches Some(k) ==> k < entries@.len() && entries@[k as int].0 == id,
        ids_ascending(entries@) ==> (r is Some <==> has_id(entries@, id)),
{
    let mut lo: usize = 0;
    let mut hi: usize = entries.len();
    while lo < hi
        invariant
            lo <= hi <= entries@.len(),
            ids_ascending(entries@) ==> forall|k: int|
                0 <= k < entries@.len() && entries@[k].0 == id ==> lo <= k < hi,
        decreases hi - lo,
    {
        let mid = lo + (hi - lo) / 2;
        let key = entries[mid].0;
        if key == id {
            return Some(mid);
        } else if key < id {
            lo = mid + 1;
        } else {
            hi = mid;
        }
    }
    None
}

} // verus!
