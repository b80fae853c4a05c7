//! The level editor's view of an entity: a bag of named, typed fields
//! attached to an entity instance placed on a layer.
//!
//! These types mirror what the editor's project file stores for each
//! entity, reduced to the plain values the game logic reads: pixel
//! position, bounding box, pivot, and the named field instances.

use crate::geometry::GridPoint;
use crate::geometry::PixelPoint;
use crate::geometry::Pivot;
use crate::geometry::COORD_LIMIT;
use crate::geometry::SIZE_LIMIT;
use vstd::prelude::*;

verus! {

/// The value of one editor-authored field.  The game logic reads two
/// of the editor's field types: a list of grid points (of which the
/// editor may leave individual slots empty) and an enumeration label
/// (which the editor may leave unset).
#[derive(Clone, Debug)]
pub enum FieldValue {
    Points(Vec<Option<GridPoint>>),
    Enum(Option<String>),
}

/// A named field attached to an entity instance.
#[derive(Clone, Debug)]
pub struct FieldInstance {
    pub identifier: String,
    pub value: FieldValue,
}

/// One entity instance as authored in the level editor: its type
/// identifier, its pivot position in layer pixels (top-left origin,
/// Y down), its bounding box, its pivot anchor, and its fields.
#[derive(Clone, Debug)]
pub struct EntityInstance {
    pub identifier: String,
    pub px: PixelPoint,
    pub width: i32,
    pub height: i32,
    pub pivot: Pivot,
    pub field_instances: Vec<FieldInstance>,
}

impl EntityInstance {
    /// The instance's bounding box and pivot are within the bounds the
    /// coordinate conversion accepts.
    pub open spec fn wf(self) -> bool {
        &&& 0 <= self.width <= SIZE_LIMIT
        &&& 0 <= self.height <= SIZE_LIMIT
        &&& self.pivot.wf()
    }
}

/// The layer an entity instance belongs to: its height in grid cells
/// and the size of one square grid cell in pixels.
#[derive(Clone, Copy, Debug, PartialEq, Eq, Structural)]
pub struct LayerInstance {
    pub c_hei: i32,
    pub grid_size: i32,
}

impl LayerInstance {
    /// The layer has a positive, bounded extent.
    pub open spec fn wf(self) -> bool {
        &&& 0 < self.c_hei <= SIZE_LIMIT
        &&& 0 < self.grid_size <= SIZE_LIMIT
    }

    /// The layer's height in pixels.
    pub open spec fn px_height(self) -> int {
        self.c_hei * self.grid_size
    }

    /// The layer's height in pixels.
    pub fn pixel_height(&self) -> (r: i64)
        requires
            self.wf(),
        ensures
            r == self.px_height(),
            0 <= r <= COORD_LIMIT,
    {
        proof {
            assert(0 < (self.c_hei as int) * (self.grid_size as int) <= 65536
                * 65536) by (nonlinear_arith)
                requires
                    0 < self.c_hei as int <= 65536,
                    0 < self.grid_size as int <= 65536,
            ;
        }
        (self.c_hei as i64) * (self.grid_size as i64)
    }
}

/// Index of the first field with the given identifier, if any.
pub open spec fn find_field_idx(fields: Seq<FieldInstance>, id: Seq<char>) -> Option<int>
    decreases fields.len(),
{
    if fields.len() == 0 {
        None
    } else if fields[0].identifier@ == id {
        Some(0int)
    } else {
        match find_field_idx(fields.drop_first(), id) {
            None => None,
            Some(i) => Some(i + 1),
        }
    }
}

/// The value of the first field with the given identifier, if any.
pub open spec fn find_field_value(fields: Seq<FieldInstance>, id: Seq<char>) -> Option<
    FieldValue,
> {
    match find_field_idx(fields, id) {
        None => None,
        Some(i) => Some(fields[i].value),
    }
}

/// The index returned by `find_field_idx` is the first match: it lies
/// in bounds, its field carries the identifier, and no earlier field
/// does; when the result is `None`, no field carries the identifier.
pub proof fn lemma_find_field_idx_first_match(fields: Seq<FieldInstance>, id: Seq<char>)
    ensures
        match find_field_idx(fields, id) {
            None => forall|j: int|
                0 <= j < fields.len() ==> (#[trigger] fields[j]).identifier@ != id,
            Some(i) => {
                &&& 0 <= i < fields.len()
                &&& fields[i].identifier@ == id
                &&& forall|j: int| 0 <= j < i ==> (#[trigger] fields[j]).identifier@ != id
            },
        },
    decreases fields.len(),
{
    if fields.len() > 0 && fields[0].identifier@ != id {
        lemma_find_field_idx_first_match(fields.drop_first(), id);
        assert(forall|j: int|
            1 <= j < fields.len() ==> fields.drop_first()[j - 1] == #[trigger] fields[j]);
    }
}

/// The first match characterizes `find_field_idx`: if the field at `i`
/// carries the identifier and no earlier field does, the lookup finds
/// exactly `i`.
pub proof fn lemma_first_match_is_find_field_idx(fields: Seq<FieldInstance>, id: Seq<char>, i: int)
    requires
        0 <= i < fields.len(),
        fields[i].identifier@ == id,
        forall|j: int| 0 <= j < i ==> (#[trigger] fields[j]).identifier@ != id,
    ensures
        find_field_idx(fields, id) == Some(i),
    decreases fields.len(),
{
    if i > 0 {
        let rest = fields.drop_first();
        assert(forall|j: int| 1 <= j < fields.len() ==> rest[j - 1] == #[trigger] fields[j]);
        lemma_first_match_is_find_field_idx(rest, id, i - 1);
    }
}

/// Looks up a field of an entity by its exact string identifier,
/// returning the index of the first field that carries it.
pub fn find_field(fields: &Vec<FieldInstance>, id: &String) -> (r: Option<usize>)
    ensures
        match r {
            None => find_field_idx(fields@, id@) is None,
            Some(i) => {
                &&& find_field_idx(fields@, id@) == Some(i as int)
                &&& i < fields@.len()
                &&& fields@[i as int].identifier@ == id@
                &&& find_field_value(fields@, id@) == Some(fields@[i as int].value)
            },
        },
{
    let n = fields.len();
    for i in 0..n
        invariant
            n == fields@.len(),
            forall|j: int| 0 <= j < i ==> (#[trigger] fields@[j]).identifier@ != id@,
    {
        if fields[i].identifier == *id {
            proof {
                lemma_first_match_is_find_field_idx(fields@, id@, i as int);
            }
            return Some(i);
        }
    }
    proof {
        lemma_find_field_idx_first_match(fields@, id@);
        if find_field_idx(fields@, id@) is Some {
            assert(false);
        }
    }
    None
}

} // verus!
