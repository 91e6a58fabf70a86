//! The work classifier: a pure function from one field and the agent's
//! resources to the work, if any, the field needs this tick.

use vstd::prelude::*;

use crate::model::{BotState, Field, PlantType, Work};

verus! {

/// What work the field needs from this agent, if any.
///
/// A plant at its maximum growth stage is harvested unconditionally.  An
/// unwatered plant past half its maximum stage is watered, provided the
/// agent has energy above 100 and water in stock, and the plant is not
/// ground cover (which is never watered).  An empty field is seeded when the
/// agent has energy above 80 and at least one seed.  Anything else needs
/// nothing.
pub open spec fn classify(field: Field, bot: BotState) -> Option<Work> {
    match field.plant {
        Some(plant) => {
            if plant.growth_stage == plant.growth_stage_max {
                Some(Work::Harvesting)
            } else if !field.watered && bot.energy > 100 && bot.water > 0
                && plant.growth_stage > plant.growth_stage_max / 2
                && plant.plant_type != PlantType::Grass {
                Some(Work::Watering)
            } else {
                None
            }
        },
        None => {
            if bot.energy > 80 && bot.seeds > 0 {
                Some(Work::Seeding)
            } else {
                None
            }
        },
    }
}

/// Decide what work, if any, `field` needs from this agent.
pub fn needs_work(field: &Field, bot: &BotState) -> (r: Option<Work>)
    ensures
        r == classify(*field, *bot),
        (match field.plant {
            Some(p) => p.growth_stage == p.growth_stage_max,
            None => false,
        }) ==> r == Some(Work::Harvesting),
        field.plant is None ==> (r == Some(Work::Seeding) <==> bot.energy > 80 && bot.seeds
            >= 1),
        field.plant is None && !(bot.energy > 80 && bot.seeds >= 1) ==> r is None,
{
    if let Some(plant) = field.plant {
        if plant.growth_stage == plant.growth_stage_max {
            return Some(Work::Harvesting);
        }
        if !field.watered && bot.energy > 100 && bot.water > 0
            && plant.growth_stage > plant.growth_stage_max / 2
            && plant.plant_type != PlantType::Grass {
            return Some(Work::Watering);
        }
        return None;
    }
    if bot.energy > 80 && bot.seeds > 0 {
        Some(Work::Seeding)
    } else {
        None
    }
}

} // verus!
