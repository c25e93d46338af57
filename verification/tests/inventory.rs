use action_engine::character::Character;
use action_engine::conditions::full_inventory;
use action_engine::error::Error;
use action_engine::response::{APIResponse, ErrorData, InventorySlot};
use action_engine::response::Character as CharacterState;

fn empty_state() -> CharacterState {
    CharacterState {
        name: String::new(),
        skin: String::new(),
        level: 0,
        xp: 0,
        max_xp: 0,
        total_xp: 0,
        gold: 0,
        speed: 0,
        mining_level: 0,
        mining_xp: 0,
        mining_max_xp: 0,
        woodcutting_level: 0,
        woodcutting_xp: 0,
        woodcutting_max_xp: 0,
        fishing_level: 0,
        fishing_xp: 0,
        fishing_max_xp: 0,
        weaponcrafting_level: 0,
        weaponcrafting_xp: 0,
        weaponcrafting_max_xp: 0,
        gearcrafting_level: 0,
        gearcrafting_xp: 0,
        gearcrafting_max_xp: 0,
        jewelrycrafting_level: 0,
        jewelrycrafting_xp: 0,
        jewelrycrafting_max_xp: 0,
        cooking_level: 0,
        cooking_xp: 0,
        cooking_max_xp: 0,
        hp: 0,
        haste: 0,
        critical_strike: 0,
        stamina: 0,
        attack_fire: 0,
        attack_earth: 0,
        attack_water: 0,
        attack_air: 0,
        dmg_fire: 0,
        dmg_earth: 0,
        dmg_water: 0,
        dmg_air: 0,
        res_fire: 0,
        res_earth: 0,
        res_water: 0,
        res_air: 0,
        x: 0,
        y: 0,
        cooldown: 0,
        cooldown_expiration: String::new(),
        weapon_slot: String::new(),
        shield_slot: String::new(),
        helmet_slot: String::new(),
        body_armor_slot: String::new(),
        leg_armor_slot: String::new(),
        boots_slot: String::new(),
        ring1_slot: String::new(),
        ring2_slot: String::new(),
        amulet_slot: String::new(),
        artifact1_slot: String::new(),
        artifact2_slot: String::new(),
        artifact3_slot: String::new(),
        consumable1_slot: String::new(),
        consumable1_slot_quantity: 0,
        consumable2_slot: String::new(),
        consumable2_slot_quantity: 0,
        inventory_slot1: String::new(),
        inventory_slot1_quantity: 0,
        inventory_slot2: String::new(),
        inventory_slot2_quantity: 0,
        inventory_slot3: String::new(),
        inventory_slot3_quantity: 0,
        inventory_slot4: String::new(),
        inventory_slot4_quantity: 0,
        inventory_slot5: String::new(),
        inventory_slot5_quantity: 0,
        inventory_slot6: String::new(),
        inventory_slot6_quantity: 0,
        inventory_slot7: String::new(),
        inventory_slot7_quantity: 0,
        inventory_slot8: String::new(),
        inventory_slot8_quantity: 0,
        inventory_slot9: String::new(),
        inventory_slot9_quantity: 0,
        inventory_slot10: String::new(),
        inventory_slot10_quantity: 0,
        inventory_slot11: String::new(),
        inventory_slot11_quantity: 0,
        inventory_slot12: String::new(),
        inventory_slot12_quantity: 0,
        inventory_slot13: String::new(),
        inventory_slot13_quantity: 0,
        inventory_slot14: String::new(),
        inventory_slot14_quantity: 0,
        inventory_slot15: String::new(),
        inventory_slot15_quantity: 0,
        inventory_slot16: String::new(),
        inventory_slot16_quantity: 0,
        inventory_slot17: String::new(),
        inventory_slot17_quantity: 0,
        inventory_slot18: String::new(),
        inventory_slot18_quantity: 0,
        inventory_slot19: String::new(),
        inventory_slot19_quantity: 0,
        inventory_slot20: String::new(),
        inventory_slot20_quantity: 0,
        inventory_max_items: 0,
        task: String::new(),
        task_type: String::new(),
        task_progress: 0,
        task_total: 0,
    }
}

fn slot(code: &str, quantity: i64) -> InventorySlot {
    InventorySlot {
        name: String::from("slot"),
        code: String::from(code),
        quantity,
    }
}

#[test]
fn inventory_maps_all_twenty_slots_in_order() {
    let mut state = empty_state();
    state.inventory_max_items = 100;
    state.inventory_slot1 = String::from("copper_ore");
    state.inventory_slot1_quantity = 42;
    state.inventory_slot7 = String::from("feather");
    state.inventory_slot7_quantity = 3;
    state.inventory_slot20 = String::from("egg");
    state.inventory_slot20_quantity = 1;

    let ch = Character::new(String::from("alice"), String::from("t"));
    let res = APIResponse { data: Some(state), error: None };
    let (max_items, slots) = ch.inventory(res).expect("a data envelope maps");
    assert_eq!(max_items, 100);
    assert_eq!(slots.len(), 20);
    for (i, s) in slots.iter().enumerate() {
        assert_eq!(s.name, format!("inventory_slot{}", i + 1));
    }
    assert_eq!(slots[0].code, "copper_ore");
    assert_eq!(slots[0].quantity, 42);
    assert_eq!(slots[6].code, "feather");
    assert_eq!(slots[6].quantity, 3);
    assert_eq!(slots[19].code, "egg");
    assert_eq!(slots[19].quantity, 1);
    assert_eq!(slots[1].code, "");
    assert_eq!(slots[1].quantity, 0);
}

#[test]
fn inventory_read_classifies_error_envelopes() {
    let ch = Character::new(String::from("alice"), String::from("t"));
    let cooling: APIResponse<CharacterState> = APIResponse {
        data: None,
        error: Some(ErrorData { code: 499, message: String::from("cooling down") }),
    };
    assert!(matches!(ch.inventory(cooling), Err(Error::Cooldown)));

    let rejected: APIResponse<CharacterState> = APIResponse {
        data: None,
        error: Some(ErrorData { code: 404, message: String::from("no such character") }),
    };
    match ch.inventory(rejected) {
        Err(Error::APIError(e)) => assert_eq!(e.code, 404),
        _ => panic!("expected an APIError"),
    }
}

#[test]
fn inventory_read_reports_protocol_violations() {
    let ch = Character::new(String::from("alice"), String::from("t"));
    let neither: APIResponse<CharacterState> = APIResponse { data: None, error: None };
    assert!(matches!(ch.inventory(neither), Err(Error::InvalidAPIResponse)));

    let both = APIResponse {
        data: Some(empty_state()),
        error: Some(ErrorData { code: 1, message: String::from("spurious") }),
    };
    assert!(matches!(ch.inventory(both), Err(Error::InvalidAPIResponse)));
}

#[test]
fn full_inventory_compares_the_total_to_the_capacity() {
    let inv = vec![slot("a", 30), slot("b", 50), slot("", 0), slot("c", 20)];
    assert!(full_inventory(100, &inv));
    assert!(!full_inventory(101, &inv));
    assert!(full_inventory(99, &inv));
}

#[test]
fn full_inventory_on_an_empty_list() {
    let inv: Vec<InventorySlot> = Vec::new();
    assert!(full_inventory(0, &inv));
    assert!(!full_inventory(1, &inv));
}

#[test]
fn full_inventory_handles_extreme_quantities() {
    let inv = vec![slot("a", i64::MAX), slot("b", i64::MAX), slot("c", 1)];
    assert!(full_inventory(i64::MAX, &inv));
    let negatives = vec![slot("a", i64::MIN), slot("b", 5)];
    assert!(!full_inventory(0, &negatives));
}
