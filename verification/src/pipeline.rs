//! The fieldwork decision of one tick, taken after maintenance: search,
//! prioritize, dispatch.

use vstd::prelude::*;

use crate::dispatcher::{dispatch, spec_dispatch};
use crate::model::{Action, BotState, Candidate, FarmState};
use crate::search::{candidate_ok, serviceable_fields, surely_kept};

verus! {

/// Decide this tick's action from the agent's state and the farm snapshot.
///
/// A busy agent emits nothing.  An idle agent searches the rings around it
/// and dispatches on the best candidate; any emitted action is the dispatch
/// of some valid candidate.  When some workable cell survives congestion
/// avoidance whatever the draw, and the agent is idle with energy above
/// 100, an action is certainly emitted.
pub fn tick_decision(bot: &BotState, farm: &FarmState) -> (r: Option<Action>)
    ensures
        !(bot.current_action is Idle) ==> r is None,
        r is Some ==> exists|c: Candidate|
            #[trigger] candidate_ok(*bot, *farm, c) && r == spec_dispatch(*bot, Some(c)),
        (bot.current_action is Idle && bot.energy > 100 && exists|x: int, y: int|
            surely_kept(*bot, *farm, x, y)) ==> r is Some,
{
    if !matches!(bot.current_action, Action::Idle) {
        return None;
    }
    let candidates = serviceable_fields(bot, farm);
    let target = crate::prioritizer::select_target(&candidates);
    let r = dispatch(bot, target);
    proof {
        if r is Some {
            let c = candidates@[0];
            assert(candidate_ok(*bot, *farm, c));
        }
        if bot.energy > 100 && exists|x: int, y: int| surely_kept(*bot, *farm, x, y) {
            let (x, y) = choose|x: int, y: int| surely_kept(*bot, *farm, x, y);
            assert(candidates@.contains(crate::search::surely_candidate(*bot, *farm, x, y)));
            assert(candidates@.len() > 0);
        }
    }
    r
}

} // verus!

