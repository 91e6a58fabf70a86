//! The data the host reports each tick: the agent, the farm grid, and the
//! actions the agent can answer with.

use vstd::prelude::*;

verus! {

/// The closed set of crop kinds.  `Grass` is the ground-cover kind: it is
/// never watered and its harvest is subject to congestion thinning.
#[derive(Clone, Copy, Debug, PartialEq, Eq, Structural)]
pub enum PlantType {
    Grass,
    Wheat,
}

/// A crop on a field.  Reaching `growth_stage_max` marks it ready for
/// harvest regardless of watering.
#[derive(Clone, Copy, Debug, PartialEq, Eq, Structural)]
pub struct Plant {
    pub plant_type: PlantType,
    pub growth_stage: u32,
    pub growth_stage_max: u32,
}

impl Plant {
    /// The growth stage never exceeds its positive bound.
    pub open spec fn wf(self) -> bool {
        self.growth_stage <= self.growth_stage_max && self.growth_stage_max >= 1
    }
}

/// What kind of thing stands on a field.
#[derive(Clone, Copy, Debug, PartialEq, Eq, Structural)]
pub enum EntityType {
    Agent,
    Other,
}

/// Something standing on a field; only agents other than ourselves matter,
/// for occupancy.
#[derive(Clone, Copy, Debug, PartialEq, Eq, Structural)]
pub struct Entity {
    pub entity_type: EntityType,
    pub id: u64,
}

/// One cell of the farm grid.
#[derive(Debug)]
pub struct Field {
    pub plant: Option<Plant>,
    pub watered: bool,
    pub entities: Vec<Entity>,
}

/// The farm snapshot the host hands out: the grid, indexed `[row][col]`,
/// and the produce counts awaiting sale.
#[derive(Debug)]
pub struct FarmState {
    pub fields: Vec<Vec<Field>>,
    pub fields_width: u32,
    pub fields_height: u32,
    pub grass: u64,
    pub wheat: u64,
}

impl FarmState {
    /// The grid is exactly `fields_width` x `fields_height` and every plant
    /// on it satisfies its growth invariant.
    pub open spec fn wf(self) -> bool {
        &&& self.fields@.len() == self.fields_height
        &&& forall|y: int|
            0 <= y < self.fields@.len() ==> (#[trigger] self.fields@[y])@.len()
                == self.fields_width
        &&& forall|y: int, x: int|
            0 <= y < self.fields@.len() && 0 <= x < self.fields@[y]@.len() ==> match (
            #[trigger] self.fields@[y]@[x]).plant {
                Some(p) => p.wf(),
                None => true,
            }
    }

    /// The field at column `x`, row `y`, if that cell exists in the grid.
    pub open spec fn spec_field_at(self, x: int, y: int) -> Option<Field> {
        if 0 <= y < self.fields@.len() && 0 <= x < self.fields@[y]@.len() {
            Some(self.fields@[y]@[x])
        } else {
            None
        }
    }
}

/// The field at column `x`, row `y` of the grid, or `None` for a cell that
/// is not there.
pub fn field_at(farm: &FarmState, x: u32, y: u32) -> (r: Option<&Field>)
    ensures
        match r {
            Some(f) => farm.spec_field_at(x as int, y as int) == Some(*f),
            None => farm.spec_field_at(x as int, y as int) is None,
        },
        farm.wf() ==> (r is Some <==> x < farm.fields_width && y < farm.fields_height),
{
    if (y as usize) < farm.fields.len() {
        let row: &Vec<Field> = &farm.fields[y as usize];
        if (x as usize) < row.len() {
            return Some(&row[x as usize]);
        }
    }
    None
}

/// A grid position; the origin is the top-left corner, `y` grows downward.
#[derive(Clone, Copy, Debug, PartialEq, Eq, Structural)]
pub struct Position {
    pub x: u32,
    pub y: u32,
}

/// The actions the agent can answer a tick with.
#[derive(Clone, Copy, Debug, PartialEq, Eq, Structural)]
pub enum Action {
    Idle,
    MoveUp,
    MoveDown,
    MoveLeft,
    MoveRight,
    Water,
    Harvest,
    Seed(PlantType),
}

/// The agent's state as the host reports it at the start of a tick.
#[derive(Clone, Copy, Debug)]
pub struct BotState {
    pub id: u64,
    pub position: Position,
    pub energy: u64,
    pub water: u64,
    pub seeds: u64,
    pub current_action: Action,
}

/// The kinds of work a field can need, mutually exclusive per tick.
#[derive(Clone, Copy, Debug, PartialEq, Eq, Structural)]
pub enum Work {
    Watering,
    Harvesting,
    Seeding,
}

/// A workable field found by the spatial search.
#[derive(Clone, Copy, Debug, PartialEq, Eq, Structural)]
pub struct Candidate {
    pub x: u32,
    pub y: u32,
    pub work: Work,
}

/// No two candidates of the list name the same cell.
pub open spec fn distinct_cells(s: Seq<Candidate>) -> bool {
    forall|i: int, j: int|
        0 <= i < j < s.len() ==> !((#[trigger] s[i]).x == (#[trigger] s[j]).x && s[i].y
            == s[j].y)
}

/// The absolute difference of two integers.
pub open spec fn dist1(a: int, b: int) -> int {
    if a >= b {
        a - b
    } else {
        b - a
    }
}

/// Manhattan distance from the agent to the cell at `(x, y)`.
pub open spec fn manhattan(bot: BotState, x: int, y: int) -> int {
    dist1(x, bot.position.x as int) + dist1(y, bot.position.y as int)
}

/// Chebyshev distance from the agent to the cell at `(x, y)`.
pub open spec fn chebyshev(bot: BotState, x: int, y: int) -> int {
    let dx = dist1(x, bot.position.x as int);
    let dy = dist1(y, bot.position.y as int);
    if dx >= dy {
        dx
    } else {
        dy
    }
}

} // verus!
