//! The spatial search: scan expanding rings around the agent for workable
//! fields, thinning contested ground-cover harvests with a random draw and
//! discarding cells occupied by another agent.

use vstd::prelude::*;

use crate::classifier::{classify, needs_work};
use crate::model::{
    chebyshev, distinct_cells, manhattan, BotState, Candidate, EntityType, FarmState, Field,
    PlantType, Work,
};

verus! {

broadcast use vstd::seq_lib::group_seq_properties;

/// Relies on rand::random_range: the result is drawn uniformly from the
/// given range, here 0..100, and the call panics only on an empty range.
#[verifier::external_body]
fn draw_percent() -> (r: u64)
    ensures
        r < 100,
{
    rand::random_range(0..100u64)
}

/// The skip chance of congestion avoidance, in hundredths: 15 points per
/// step of Manhattan distance for a ground-cover harvest, zero otherwise.
pub open spec fn skip_points(grass_harvest: bool, dist: int) -> int {
    if grass_harvest {
        15 * dist
    } else {
        0
    }
}

/// Whether a candidate survives congestion avoidance under a given draw.
/// First stage: a draw below the skip chance discards it regardless of
/// occupancy.  Second stage: a cell occupied by another agent discards it
/// whenever the draw lies above the skip chance.
pub open spec fn survives(grass_harvest: bool, occupied: bool, dist: int, draw: int) -> bool {
    &&& !(draw < skip_points(grass_harvest, dist))
    &&& !(occupied && draw > skip_points(grass_harvest, dist))
}

/// Apply both stages of congestion avoidance to one candidate cell.
pub fn congestion_filter(grass_harvest: bool, occupied: bool, dist: u32, draw: u64) -> (keep:
    bool)
    ensures
        keep == survives(grass_harvest, occupied, dist as int, draw as int),
{
    let points: u64 = if grass_harvest {
        15 * (dist as u64)
    } else {
        0
    };
    if draw < points {
        false
    } else if occupied && draw > points {
        false
    } else {
        true
    }
}

/// Whether an agent other than `bot_id` already stands on the field.
pub open spec fn spec_occupied_by_other(field: Field, bot_id: u64) -> bool {
    exists|i: int|
        0 <= i < field.entities@.len() && (#[trigger] field.entities@[i]).entity_type
            == EntityType::Agent && field.entities@[i].id != bot_id
}

/// Report whether any other agent currently occupies `field`.
pub fn occupied_by_other(field: &Field, bot_id: u64) -> (r: bool)
    ensures
        r == spec_occupied_by_other(*field, bot_id),
{
    let mut i: usize = 0;
    while i < field.entities.len()
        invariant
            i <= field.entities@.len(),
            forall|j: int|
                0 <= j < i ==> !((#[trigger] field.entities@[j]).entity_type
                    == EntityType::Agent && field.entities@[j].id != bot_id),
        decreases field.entities@.len() - i,
    {
        let e = field.entities[i];
        if e.entity_type == EntityType::Agent && e.id != bot_id {
            return true;
        }
        i += 1;
    }
    false
}

/// Whether this work is a harvest of ground cover, the one case whose skip
/// chance grows with distance.
pub open spec fn grass_harvest(field: Field, work: Work) -> bool {
    work == Work::Harvesting && match field.plant {
        Some(p) => p.plant_type == PlantType::Grass,
        None => false,
    }
}

/// What the search may report: an existing cell within Chebyshev radius 3
/// whose field the classifier assigns exactly this work.
pub open spec fn candidate_ok(bot: BotState, farm: FarmState, c: Candidate) -> bool {
    &&& c.x < farm.fields_width
    &&& c.y < farm.fields_height
    &&& chebyshev(bot, c.x as int, c.y as int) <= 3
    &&& match farm.spec_field_at(c.x as int, c.y as int) {
        Some(f) => classify(f, bot) == Some(c.work),
        None => false,
    }
}

/// A cell whose candidate survives congestion avoidance whatever the random
/// draw: it exists, is within reach, carries work, no other agent stands on
/// it, and its skip chance is zero (it is no ground-cover harvest, or it is
/// the agent's own cell).
pub open spec fn surely_kept(bot: BotState, farm: FarmState, x: int, y: int) -> bool {
    &&& 0 <= x < farm.fields_width
    &&& 0 <= y < farm.fields_height
    &&& chebyshev(bot, x, y) <= 3
    &&& match farm.spec_field_at(x, y) {
        Some(f) => {
            &&& classify(f, bot) is Some
            &&& !spec_occupied_by_other(f, bot.id)
            &&& (!grass_harvest(f, classify(f, bot).unwrap()) || manhattan(bot, x, y) == 0)
        },
        None => false,
    }
}

/// The candidate that a surely kept cell yields.
pub open spec fn surely_candidate(bot: BotState, farm: FarmState, x: int, y: int) -> Candidate
    recommends
        surely_kept(bot, farm, x, y),
{
    Candidate {
        x: x as u32,
        y: y as u32,
        work: classify(farm.spec_field_at(x, y).unwrap(), bot).unwrap(),
    }
}

/// Scan rings of Chebyshev radius 0 through 3 around the agent, in ring
/// order, and collect the candidates that survive congestion avoidance.
///
/// Every reported candidate is valid for this agent and farm; every cell
/// that survives whatever the draw is reported.  Which contested or
/// ground-cover cells also appear depends on the random draws.
pub(crate) fn scan_rings(bot: &BotState, farm: &FarmState) -> (r: Vec<Candidate>)
    ensures
        forall|i: int| 0 <= i < r@.len() ==> candidate_ok(*bot, *farm, #[trigger] r@[i]),
        forall|x: int, y: int|
            #[trigger] surely_kept(*bot, *farm, x, y) ==> r@.contains(
                surely_candidate(*bot, *farm, x, y)),
        distinct_cells(r@),
{
    let mut out: Vec<Candidate> = Vec::new();
    let bx: i64 = bot.position.x as i64;
    let by: i64 = bot.position.y as i64;
    let mut d: i64 = 0;
    while d <= 3
        invariant
            0 <= d <= 4,
            bx == bot.position.x as int,
            by == bot.position.y as int,
            forall|i: int| 0 <= i < out@.len() ==> candidate_ok(*bot, *farm, #[trigger] out@[i]),
            forall|x: int, y: int|
                #[trigger] surely_kept(*bot, *farm, x, y) && chebyshev(*bot, x, y) < d
                    ==> out@.contains(surely_candidate(*bot, *farm, x, y)),
            distinct_cells(out@),
            forall|i: int|
                0 <= i < out@.len() ==> chebyshev(*bot, (#[trigger] out@[i]).x as int,
                    out@[i].y as int) < d,
        decreases 4 - d,
    {
        let mut dx: i64 = -d;
        while dx <= d
            invariant
                0 <= d <= 3,
                -d <= dx <= d + 1,
                bx == bot.position.x as int,
                by == bot.position.y as int,
                forall|i: int|
                    0 <= i < out@.len() ==> candidate_ok(*bot, *farm, #[trigger] out@[i]),
                forall|x: int, y: int|
                    #[trigger] surely_kept(*bot, *farm, x, y) && (chebyshev(*bot, x, y) < d
                        || (chebyshev(*bot, x, y) == d && x - bx < dx)) ==> out@.contains(
                        surely_candidate(*bot, *farm, x, y)),
                distinct_cells(out@),
                forall|i: int|
                    0 <= i < out@.len() ==> (chebyshev(*bot, (#[trigger] out@[i]).x as int,
                        out@[i].y as int) < d || (chebyshev(*bot, out@[i].x as int,
                        out@[i].y as int) == d && out@[i].x - bx < dx)),
            decreases d + 1 - dx,
        {
            let mut dy: i64 = -d;
            while dy <= d
                invariant
                    0 <= d <= 3,
                    -d <= dx <= d,
                    -d <= dy <= d + 1,
                    bx == bot.position.x as int,
                    by == bot.position.y as int,
                    forall|i: int|
                        0 <= i < out@.len() ==> candidate_ok(*bot, *farm, #[trigger] out@[i]),
                    forall|x: int, y: int|
                        #[trigger] surely_kept(*bot, *farm, x, y) && (chebyshev(*bot, x, y) < d
                            || (chebyshev(*bot, x, y) == d && (x - bx < dx || (x - bx == dx && y
                            - by < dy)))) ==> out@.contains(
                            surely_candidate(*bot, *farm, x, y)),
                    distinct_cells(out@),
                    forall|i: int|
                        0 <= i < out@.len() ==> (chebyshev(*bot, (#[trigger] out@[i]).x as int,
                            out@[i].y as int) < d || (chebyshev(*bot, out@[i].x as int,
                            out@[i].y as int) == d && (out@[i].x - bx < dx || (out@[i].x - bx
                            == dx && out@[i].y - by < dy)))),
                decreases d + 1 - dy,
            {
                let ghost prev = out@;
                let on_edge: bool = dx == d || dx == -d || dy == d || dy == -d;
                if on_edge {
                    let xi: i64 = bx + dx;
                    let yi: i64 = by + dy;
                    if xi >= 0 && yi >= 0 && xi < farm.fields_width as i64 && yi
                        < farm.fields_height as i64 {
                        let x: u32 = xi as u32;
                        let y: u32 = yi as u32;
                        if let Some(f) = crate::model::field_at(farm, x, y) {
                            if let Some(work) = needs_work(f, bot) {
                                let gh: bool = if work == Work::Harvesting {
                                    match f.plant {
                                        Some(p) => p.plant_type == PlantType::Grass,
                                        None => false,
                                    }
                                } else {
                                    false
                                };
                                let occ: bool = occupied_by_other(f, bot.id);
                                let adx: i64 = if dx < 0 {
                                    -dx
                                } else {
                                    dx
                                };
                                let ady: i64 = if dy < 0 {
                                    -dy
                                } else {
                                    dy
                                };
                                let dist: u32 = (adx + ady) as u32;
                                assert(dist == manhattan(*bot, x as int, y as int));
                                let draw: u64 = draw_percent();
                                if congestion_filter(gh, occ, dist, draw) {
                                    let c = Candidate { x, y, work };
                                    assert(candidate_ok(*bot, *farm, c));
                                    proof {
                                        // the cell is new: everything collected so far
                                        // lies on an earlier ring or earlier in this one
                                        assert(chebyshev(*bot, x as int, y as int) == d);
                                        assert forall|i: int| 0 <= i < prev.len() implies !((
                                        #[trigger] prev[i]).x == c.x && prev[i].y == c.y) by {}
                                    }
                                    out.push(c);
                                    assert(distinct_cells(out@));
                                }
                            }
                        }
                    }
                }
                proof {
                    assert forall|x: int, y: int|
                        #[trigger] surely_kept(*bot, *farm, x, y) && (chebyshev(*bot, x, y) < d
                            || (chebyshev(*bot, x, y) == d && (x - bx < dx || (x - bx == dx && y
                            - by < dy + 1)))) implies out@.contains(
                        surely_candidate(*bot, *farm, x, y)) by {
                        let sc = surely_candidate(*bot, *farm, x, y);
                        if chebyshev(*bot, x, y) < d || (chebyshev(*bot, x, y) == d && (x - bx
                            < dx || (x - bx == dx && y - by < dy))) {
                            assert(prev.contains(sc));
                            let i = choose|i: int| 0 <= i < prev.len() && prev[i] == sc;
                            assert(out@[i] == sc);
                            assert(out@.contains(sc));
                        } else {
                            // the cell just considered: x == bx + dx, y == by + dy
                            assert(x == bx + dx && y == by + dy);
                            assert(chebyshev(*bot, x, y) == d);
                            assert(out@[out@.len() - 1] == sc);
                            assert(out@.contains(sc));
                        }
                    }
                }
                dy += 1;
            }
            proof {
                assert forall|x: int, y: int|
                    #[trigger] surely_kept(*bot, *farm, x, y) && (chebyshev(*bot, x, y) < d
                        || (chebyshev(*bot, x, y) == d && x - bx < dx + 1)) implies out@
                    .contains(surely_candidate(*bot, *farm, x, y)) by {
                    if chebyshev(*bot, x, y) == d && x - bx == dx {
                        assert(y - by < d + 1);
                    }
                }
            }
            dx += 1;
        }
        d += 1;
    }
    out
}

/// The ordered candidate list of one tick: scan the rings around the agent,
/// then stable-sort the surviving candidates by priority key, discovery
/// order breaking ties.
///
/// Every reported candidate is a valid one for this agent and farm, no two
/// name the same cell, the list is ordered by ascending priority key, and
/// every cell that survives congestion avoidance whatever the draw is
/// reported.
pub fn serviceable_fields(bot: &BotState, farm: &FarmState) -> (r: Vec<Candidate>)
    ensures
        forall|i: int| 0 <= i < r@.len() ==> candidate_ok(*bot, *farm, #[trigger] r@[i]),
        crate::prioritizer::sorted_by_key(*bot, r@),
        forall|x: int, y: int|
            #[trigger] surely_kept(*bot, *farm, x, y) ==> r@.contains(
                surely_candidate(*bot, *farm, x, y)),
        distinct_cells(r@),
{
    let found = scan_rings(bot, farm);
    proof {
        assert forall|i: int| 0 <= i < found@.len() implies -1 <= crate::prioritizer::priority_key(
            *bot,
            #[trigger] found@[i],
        ) <= 7 by {
            assert(candidate_ok(*bot, *farm, found@[i]));
        }
    }
    let r = crate::prioritizer::sort_candidates(bot, &found);
    proof {
        assert forall|i: int| 0 <= i < r@.len() implies candidate_ok(
            *bot,
            *farm,
            #[trigger] r@[i],
        ) by {
            assert(r@.contains(r@[i]));
            let j = choose|j: int| 0 <= j < found@.len() && found@[j] == r@[i];
            assert(candidate_ok(*bot, *farm, found@[j]));
        }
    }
    r
}

} // verus!
