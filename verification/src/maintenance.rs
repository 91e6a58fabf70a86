//! The resource maintenance sequence of one tick, as a state machine.
//!
//! Each tick the agent tops up consumables that fell below their
//! thresholds, fetches a fresh farm snapshot, and sells all accumulated
//! produce.  Every purchase, sale and fetch is a host call that may fail;
//! the policy is fail-fast, no retry: the first failure aborts all
//! remaining calls, the error is reported, and a snapshot is fetched
//! directly so the rest of the tick can still proceed.
//!
//! The caller drives the machine: starting from `MaintState::CheckEnergy`
//! with `MaintEvent::Begin`, it performs each returned command, feeds the
//! outcome back in as the next event, and stops at `MaintCommand::Finish`.

use vstd::prelude::*;

use crate::model::BotState;

verus! {

/// What the agent can buy from the market.
#[derive(Clone, Copy, Debug, PartialEq, Eq, Structural)]
pub enum Buyable {
    Energy,
    Water,
    Seeds,
}

/// What the agent can sell to the market.
#[derive(Clone, Copy, Debug, PartialEq, Eq, Structural)]
pub enum Sellable {
    Grass,
    Wheat,
}

/// Where the maintenance sequence stands: which decision comes next once
/// the pending host call answers.
#[derive(Clone, Copy, Debug, PartialEq, Eq, Structural)]
pub enum MaintState {
    /// Consider the energy purchase; the initial state.
    CheckEnergy,
    /// Consider the water purchase.
    CheckWater,
    /// Consider the seed purchase.
    CheckSeeds,
    /// Purchases are done; fetch the farm snapshot next.
    CheckFetch,
    /// The snapshot fetch is pending.
    AwaitFarm,
    /// The grass sale is pending; the wheat count still awaits its sale.
    AwaitGrassSale { wheat: u64 },
    /// The wheat sale is pending.
    AwaitWheatSale,
    /// The sequence ran to completion.
    Complete,
    /// A call failed; the fallback fetch is pending.
    Failed,
}

/// What the last host call answered.
#[derive(Clone, Copy, Debug, PartialEq, Eq, Structural)]
pub enum MaintEvent {
    /// No call was made yet.
    Begin,
    /// The pending purchase or sale succeeded.
    CallOk,
    /// The pending purchase or sale failed.
    CallFailed,
    /// The pending fetch answered with these produce counts.
    FarmFetched { grass: u64, wheat: u64 },
}

/// The next host call the caller is to perform.
#[derive(Clone, Copy, Debug, PartialEq, Eq, Structural)]
pub enum MaintCommand {
    /// Buy this quantity from the market.
    Buy(Buyable, u64),
    /// Sell this quantity to the market.
    Sell(Sellable, u64),
    /// Fetch the current farm snapshot.
    FetchFarm,
    /// A call failed: report the error, then fetch a snapshot directly.
    ReportAndRefetch,
    /// Maintenance is over; no further call this tick.
    Finish,
}

/// The purchase decisions, scanned in their fixed order from the seed
/// check on: one seed is bought when none is in stock.
pub open spec fn spec_from_seeds(bot: BotState) -> (MaintState, MaintCommand) {
    if bot.seeds < 1 {
        (MaintState::CheckFetch, MaintCommand::Buy(Buyable::Seeds, 1))
    } else {
        (MaintState::AwaitFarm, MaintCommand::FetchFarm)
    }
}

/// The purchase decisions from the water check on: 25 water are bought
/// when none is in stock.
pub open spec fn spec_from_water(bot: BotState) -> (MaintState, MaintCommand) {
    if bot.water < 1 {
        (MaintState::CheckSeeds, MaintCommand::Buy(Buyable::Water, 25))
    } else {
        spec_from_seeds(bot)
    }
}

/// The purchase decisions from the energy check on: 25 energy are bought
/// below the threshold of 150.
pub open spec fn spec_from_energy(bot: BotState) -> (MaintState, MaintCommand) {
    if bot.energy < 150 {
        (MaintState::CheckWater, MaintCommand::Buy(Buyable::Energy, 25))
    } else {
        spec_from_water(bot)
    }
}

/// One step of the maintenance machine: given the agent's resources, where
/// the sequence stands and what the last call answered, the next state and
/// the next command.
pub open spec fn spec_maintenance_step(bot: BotState, state: MaintState, event: MaintEvent) -> (
    MaintState,
    MaintCommand,
) {
    if event is CallFailed {
        (MaintState::Failed, MaintCommand::ReportAndRefetch)
    } else {
        match state {
            MaintState::CheckEnergy => spec_from_energy(bot),
            MaintState::CheckWater => spec_from_water(bot),
            MaintState::CheckSeeds => spec_from_seeds(bot),
            MaintState::CheckFetch => (MaintState::AwaitFarm, MaintCommand::FetchFarm),
            MaintState::AwaitFarm => match event {
                MaintEvent::FarmFetched { grass, wheat } => {
                    if grass > 0 {
                        (
                            MaintState::AwaitGrassSale { wheat },
                            MaintCommand::Sell(Sellable::Grass, grass),
                        )
                    } else if wheat > 0 {
                        (MaintState::AwaitWheatSale, MaintCommand::Sell(Sellable::Wheat, wheat))
                    } else {
                        (MaintState::Complete, MaintCommand::Finish)
                    }
                },
                _ => (MaintState::AwaitFarm, MaintCommand::FetchFarm),
            },
            MaintState::AwaitGrassSale { wheat } => {
                if wheat > 0 {
                    (MaintState::AwaitWheatSale, MaintCommand::Sell(Sellable::Wheat, wheat))
                } else {
                    (MaintState::Complete, MaintCommand::Finish)
                }
            },
            MaintState::AwaitWheatSale => (MaintState::Complete, MaintCommand::Finish),
            MaintState::Complete => (MaintState::Complete, MaintCommand::Finish),
            MaintState::Failed => (MaintState::Complete, MaintCommand::Finish),
        }
    }
}

/// One step of the resource maintenance sequence.
///
/// An agent that holds energy at or above 150, water, and a seed is never
/// told to buy; a failed call always aborts into the fallback, so no
/// purchase or sale follows it.
pub fn resource_maintenance(bot: &BotState, state: MaintState, event: MaintEvent) -> (r: (
    MaintState,
    MaintCommand,
))
    ensures
        r == spec_maintenance_step(*bot, state, event),
        bot.energy >= 150 && bot.water >= 1 && bot.seeds >= 1 ==> !(r.1 is Buy),
        event is CallFailed ==> r == (MaintState::Failed, MaintCommand::ReportAndRefetch),
{
    if matches!(event, MaintEvent::CallFailed) {
        return (MaintState::Failed, MaintCommand::ReportAndRefetch);
    }
    match state {
        MaintState::CheckEnergy => {
            if bot.energy < 150 {
                (MaintState::CheckWater, MaintCommand::Buy(Buyable::Energy, 25))
            } else if bot.water < 1 {
                (MaintState::CheckSeeds, MaintCommand::Buy(Buyable::Water, 25))
            } else if bot.seeds < 1 {
                (MaintState::CheckFetch, MaintCommand::Buy(Buyable::Seeds, 1))
            } else {
                (MaintState::AwaitFarm, MaintCommand::FetchFarm)
            }
        },
        MaintState::CheckWater => {
            if bot.water < 1 {
                (MaintState::CheckSeeds, MaintCommand::Buy(Buyable::Water, 25))
            } else if bot.seeds < 1 {
                (MaintState::CheckFetch, MaintCommand::Buy(Buyable::Seeds, 1))
            } else {
                (MaintState::AwaitFarm, MaintCommand::FetchFarm)
            }
        },
        MaintState::CheckSeeds => {
            if bot.seeds < 1 {
                (MaintState::CheckFetch, MaintCommand::Buy(Buyable::Seeds, 1))
            } else {
                (MaintState::AwaitFarm, MaintCommand::FetchFarm)
            }
        },
        MaintState::CheckFetch => (MaintState::AwaitFarm, MaintCommand::FetchFarm),
        MaintState::AwaitFarm => {
            match event {
                MaintEvent::FarmFetched { grass, wheat } => {
                    if grass > 0 {
                        (
                            MaintState::AwaitGrassSale { wheat },
                            MaintCommand::Sell(Sellable::Grass, grass),
                        )
                    } else if wheat > 0 {
                        (MaintState::AwaitWheatSale, MaintCommand::Sell(Sellable::Wheat, wheat))
                    } else {
                        (MaintState::Complete, MaintCommand::Finish)
                    }
                },
                _ => (MaintState::AwaitFarm, MaintCommand::FetchFarm),
            }
        },
        MaintState::AwaitGrassSale { wheat } => {
            if wheat > 0 {
                (MaintState::AwaitWheatSale, MaintCommand::Sell(Sellable::Wheat, wheat))
            } else {
                (MaintState::Complete, MaintCommand::Finish)
            }
        },
        MaintState::AwaitWheatSale => (MaintState::Complete, MaintCommand::Finish),
        MaintState::Complete => (MaintState::Complete, MaintCommand::Finish),
        MaintState::Failed => (MaintState::Complete, MaintCommand::Finish),
    }
}

} // verus!
