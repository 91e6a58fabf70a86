use farmer_bot::maintenance::{
    resource_maintenance, Buyable, MaintCommand, MaintEvent, MaintState, Sellable,
};
use farmer_bot::model::{Action, BotState, Position};

fn bot_with(energy: u64, water: u64, seeds: u64) -> BotState {
    BotState {
        id: 1,
        position: Position { x: 0, y: 0 },
        energy,
        water,
        seeds,
        current_action: Action::Idle,
    }
}

#[test]
fn stocked_agent_buys_nothing() {
    // Energy at 150, water and a seed in stock: straight to the fetch.
    let b = bot_with(150, 1, 1);
    let (state, command) = resource_maintenance(&b, MaintState::CheckEnergy, MaintEvent::Begin);
    assert_eq!(command, MaintCommand::FetchFarm);
    assert_eq!(state, MaintState::AwaitFarm);
}

#[test]
fn each_threshold_triggers_its_purchase() {
    let b = bot_with(149, 1, 1);
    let (_, command) = resource_maintenance(&b, MaintState::CheckEnergy, MaintEvent::Begin);
    assert_eq!(command, MaintCommand::Buy(Buyable::Energy, 25));
    let b = bot_with(150, 0, 1);
    let (_, command) = resource_maintenance(&b, MaintState::CheckEnergy, MaintEvent::Begin);
    assert_eq!(command, MaintCommand::Buy(Buyable::Water, 25));
    let b = bot_with(150, 1, 0);
    let (_, command) = resource_maintenance(&b, MaintState::CheckEnergy, MaintEvent::Begin);
    assert_eq!(command, MaintCommand::Buy(Buyable::Seeds, 1));
}

#[test]
fn depleted_agent_buys_then_sells_grass() {
    // Energy 100, no water, no seeds; the farm holds 5 grass and no wheat:
    // three purchases, the fetch, the grass sale, and no wheat sale.
    let b = bot_with(100, 0, 0);
    let (s, c) = resource_maintenance(&b, MaintState::CheckEnergy, MaintEvent::Begin);
    assert_eq!(c, MaintCommand::Buy(Buyable::Energy, 25));
    let (s, c) = resource_maintenance(&b, s, MaintEvent::CallOk);
    assert_eq!(c, MaintCommand::Buy(Buyable::Water, 25));
    let (s, c) = resource_maintenance(&b, s, MaintEvent::CallOk);
    assert_eq!(c, MaintCommand::Buy(Buyable::Seeds, 1));
    let (s, c) = resource_maintenance(&b, s, MaintEvent::CallOk);
    assert_eq!(c, MaintCommand::FetchFarm);
    let (s, c) = resource_maintenance(&b, s, MaintEvent::FarmFetched { grass: 5, wheat: 0 });
    assert_eq!(c, MaintCommand::Sell(Sellable::Grass, 5));
    let (s, c) = resource_maintenance(&b, s, MaintEvent::CallOk);
    assert_eq!(c, MaintCommand::Finish);
    assert_eq!(s, MaintState::Complete);
}

#[test]
fn failed_purchase_aborts_the_rest() {
    // As above, but the energy purchase fails: no further purchase or sale
    // is commanded, the error is reported and a snapshot fetched directly.
    let b = bot_with(100, 0, 0);
    let (s, c) = resource_maintenance(&b, MaintState::CheckEnergy, MaintEvent::Begin);
    assert_eq!(c, MaintCommand::Buy(Buyable::Energy, 25));
    let (s, c) = resource_maintenance(&b, s, MaintEvent::CallFailed);
    assert_eq!(c, MaintCommand::ReportAndRefetch);
    assert_eq!(s, MaintState::Failed);
    let (s, c) = resource_maintenance(&b, s, MaintEvent::FarmFetched { grass: 5, wheat: 0 });
    assert_eq!(c, MaintCommand::Finish);
    assert_eq!(s, MaintState::Complete);
}

#[test]
fn both_produce_kinds_are_sold() {
    let b = bot_with(200, 1, 1);
    let (s, c) = resource_maintenance(&b, MaintState::CheckEnergy, MaintEvent::Begin);
    assert_eq!(c, MaintCommand::FetchFarm);
    let (s, c) = resource_maintenance(&b, s, MaintEvent::FarmFetched { grass: 2, wheat: 3 });
    assert_eq!(c, MaintCommand::Sell(Sellable::Grass, 2));
    let (s, c) = resource_maintenance(&b, s, MaintEvent::CallOk);
    assert_eq!(c, MaintCommand::Sell(Sellable::Wheat, 3));
    let (s, c) = resource_maintenance(&b, s, MaintEvent::CallOk);
    assert_eq!(c, MaintCommand::Finish);
    assert_eq!(s, MaintState::Complete);
}

#[test]
fn wheat_alone_is_sold_without_grass_sale() {
    let b = bot_with(200, 1, 1);
    let (s, _) = resource_maintenance(&b, MaintState::CheckEnergy, MaintEvent::Begin);
    let (s, c) = resource_maintenance(&b, s, MaintEvent::FarmFetched { grass: 0, wheat: 7 });
    assert_eq!(c, MaintCommand::Sell(Sellable::Wheat, 7));
    let (_, c) = resource_maintenance(&b, s, MaintEvent::CallOk);
    assert_eq!(c, MaintCommand::Finish);
}

#[test]
fn no_produce_means_no_sale() {
    let b = bot_with(200, 1, 1);
    let (s, _) = resource_maintenance(&b, MaintState::CheckEnergy, MaintEvent::Begin);
    let (s, c) = resource_maintenance(&b, s, MaintEvent::FarmFetched { grass: 0, wheat: 0 });
    assert_eq!(c, MaintCommand::Finish);
    assert_eq!(s, MaintState::Complete);
}

#[test]
fn failed_sale_also_aborts() {
    let b = bot_with(200, 1, 1);
    let (s, _) = resource_maintenance(&b, MaintState::CheckEnergy, MaintEvent::Begin);
    let (s, c) = resource_maintenance(&b, s, MaintEvent::FarmFetched { grass: 2, wheat: 3 });
    assert_eq!(c, MaintCommand::Sell(Sellable::Grass, 2));
    let (s, c) = resource_maintenance(&b, s, MaintEvent::CallFailed);
    assert_eq!(c, MaintCommand::ReportAndRefetch);
    assert_eq!(s, MaintState::Failed);
}
