//! The action dispatcher: turn the chosen target, or its absence, into at
//! most one outbound action.

use vstd::prelude::*;

use crate::model::{dist1, Action, BotState, Candidate, PlantType, Work};

verus! {

/// The work action matching a candidate's kind of work; seeding plants the
/// fixed crop choice, wheat.
pub open spec fn work_action(work: Work) -> Action {
    match work {
        Work::Watering => Action::Water,
        Work::Harvesting => Action::Harvest,
        Work::Seeding => Action::Seed(PlantType::Wheat),
    }
}

/// The single step toward the target: the axis with the larger absolute
/// offset wins, vertical on a tie; the direction follows the sign of the
/// offset on the chosen axis.
pub open spec fn step_toward(bot: BotState, c: Candidate) -> Action {
    let dx = c.x - bot.position.x;
    let dy = c.y - bot.position.y;
    if dist1(dx, 0) > dist1(dy, 0) {
        if dx > 0 {
            Action::MoveRight
        } else {
            Action::MoveLeft
        }
    } else {
        if dy > 0 {
            Action::MoveDown
        } else {
            Action::MoveUp
        }
    }
}

/// What the dispatcher emits.  A busy agent, an empty candidate list, and
/// an agent too drained to travel (energy at or below 100, target
/// elsewhere) all emit nothing; a target under the agent's feet emits its
/// work action; otherwise one single step toward the target.
pub open spec fn spec_dispatch(bot: BotState, target: Option<Candidate>) -> Option<Action> {
    if !(bot.current_action is Idle) {
        None
    } else {
        match target {
            None => None,
            Some(c) => {
                if c.x == bot.position.x && c.y == bot.position.y {
                    Some(work_action(c.work))
                } else if bot.energy > 100 {
                    Some(step_toward(bot, c))
                } else {
                    None
                }
            },
        }
    }
}

/// Emit at most one action for the chosen target.
pub fn dispatch(bot: &BotState, target: Option<Candidate>) -> (r: Option<Action>)
    ensures
        r == spec_dispatch(*bot, target),
{
    if !matches!(bot.current_action, Action::Idle) {
        return None;
    }
    match target {
        None => None,
        Some(c) => {
            let dx: i64 = (c.x as i64) - (bot.position.x as i64);
            let dy: i64 = (c.y as i64) - (bot.position.y as i64);
            if dx == 0 && dy == 0 {
                Some(
                    match c.work {
                        Work::Watering => Action::Water,
                        Work::Harvesting => Action::Harvest,
                        Work::Seeding => Action::Seed(PlantType::Wheat),
                    },
                )
            } else if bot.energy > 100 {
                let adx: i64 = if dx < 0 {
                    -dx
                } else {
                    dx
                };
                let ady: i64 = if dy < 0 {
                    -dy
                } else {
                    dy
                };
                if adx > ady {
                    if dx > 0 {
                        Some(Action::MoveRight)
                    } else {
                        Some(Action::MoveLeft)
                    }
                } else {
                    if dy > 0 {
                        Some(Action::MoveDown)
                    } else {
                        Some(Action::MoveUp)
                    }
                }
            } else {
                None
            }
        },
    }
}

} // verus!
