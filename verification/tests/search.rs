use farmer_bot::model::{
    field_at, Action, BotState, Entity, EntityType, FarmState, Field, Plant, PlantType,
    Position, Work,
};
use farmer_bot::search::{congestion_filter, occupied_by_other, serviceable_fields};

fn bot_at(x: u32, y: u32) -> BotState {
    BotState {
        id: 1,
        position: Position { x, y },
        energy: 200,
        water: 5,
        seeds: 5,
        current_action: Action::Idle,
    }
}

fn empty_field() -> Field {
    Field { plant: None, watered: false, entities: vec![] }
}

fn uniform_farm(width: u32, height: u32) -> FarmState {
    let mut rows: Vec<Vec<Field>> = Vec::new();
    for _y in 0..height {
        let mut row: Vec<Field> = Vec::new();
        for _x in 0..width {
            row.push(empty_field());
        }
        rows.push(row);
    }
    FarmState { fields: rows, fields_width: width, fields_height: height, grass: 0, wheat: 0 }
}

#[test]
fn field_at_answers_exactly_the_grid_cells() {
    let farm = uniform_farm(3, 2);
    assert!(field_at(&farm, 0, 0).is_some());
    assert!(field_at(&farm, 2, 1).is_some());
    assert!(field_at(&farm, 3, 0).is_none());
    assert!(field_at(&farm, 0, 2).is_none());
    assert!(field_at(&farm, 3, 2).is_none());
}

#[test]
fn search_stays_on_the_grid_and_within_radius() {
    // Every cell of this farm is seedable, so candidates abound; none may
    // lie off the grid or beyond Chebyshev distance 3, whatever the draws.
    let farm = uniform_farm(4, 4);
    let bot = bot_at(0, 0);
    for _round in 0..25 {
        let found = serviceable_fields(&bot, &farm);
        for c in &found {
            assert!(c.x < 4 && c.y < 4);
            let dx = (c.x as i64 - 0).abs();
            let dy = (c.y as i64 - 0).abs();
            assert!(dx.max(dy) <= 3);
        }
    }
}

#[test]
fn search_finds_every_uncontested_cell() {
    // Unoccupied cells that are no ground-cover harvest survive whatever
    // the draw: all 16 reachable cells are reported, every time.
    let farm = uniform_farm(4, 4);
    let bot = bot_at(0, 0);
    for _round in 0..10 {
        let found = serviceable_fields(&bot, &farm);
        assert_eq!(found.len(), 16);
        for c in &found {
            assert_eq!(c.work, Work::Seeding);
        }
    }
}

#[test]
fn occupancy_sees_only_other_agents() {
    let mine = Entity { entity_type: EntityType::Agent, id: 1 };
    let other_agent = Entity { entity_type: EntityType::Agent, id: 2 };
    let bystander = Entity { entity_type: EntityType::Other, id: 3 };
    let f = Field { plant: None, watered: false, entities: vec![] };
    assert!(!occupied_by_other(&f, 1));
    let f = Field { plant: None, watered: false, entities: vec![mine, bystander] };
    assert!(!occupied_by_other(&f, 1));
    let f = Field { plant: None, watered: false, entities: vec![mine, other_agent] };
    assert!(occupied_by_other(&f, 1));
}

#[test]
fn congestion_filter_thins_distant_ground_cover() {
    // Ground-cover harvest at Manhattan distance 2: skip chance 30 points.
    assert!(!congestion_filter(true, false, 2, 29));
    assert!(congestion_filter(true, false, 2, 30));
    assert!(congestion_filter(true, false, 2, 99));
    // Occupied cells are discarded whenever the draw lies above the chance.
    assert!(!congestion_filter(true, true, 2, 31));
    assert!(congestion_filter(true, true, 2, 30));
    assert!(!congestion_filter(true, true, 2, 29));
}

#[test]
fn congestion_filter_keeps_unoccupied_ordinary_work() {
    for draw in 0..100 {
        assert!(congestion_filter(false, false, 3, draw));
    }
    // An occupied cell with zero skip chance survives only a zero draw.
    assert!(congestion_filter(false, true, 3, 0));
    for draw in 1..100 {
        assert!(!congestion_filter(false, true, 3, draw));
    }
}

#[test]
fn search_reports_only_correct_work() {
    // A mature grass patch away from the agent may or may not be reported
    // (the thinning draws decide), but what is reported is always correct.
    let mut farm = uniform_farm(6, 6);
    farm.fields[0][3] = Field {
        plant: Some(Plant { plant_type: PlantType::Grass, growth_stage: 4, growth_stage_max: 4 }),
        watered: false,
        entities: vec![],
    };
    let bot = bot_at(0, 0);
    for _round in 0..25 {
        let found = serviceable_fields(&bot, &farm);
        for c in &found {
            if c.x == 3 && c.y == 0 {
                assert_eq!(c.work, Work::Harvesting);
            } else {
                assert_eq!(c.work, Work::Seeding);
            }
        }
    }
}
