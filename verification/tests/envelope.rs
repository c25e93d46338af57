use action_engine::action_queue::classify_response;
use action_engine::error::Error;
use action_engine::execution::{loop_step, LogLevel, COOLDOWN_BACKOFF_SECONDS};
use action_engine::response::{APIResponse, ActionData, Character, Cooldown, ErrorData};

fn blank_state() -> Character {
    Character {
        name: String::new(),
        skin: String::new(),
        level: 0,
        xp: 0,
        max_xp: 0,
        total_xp: 0,
        gold: 0,
        speed: 0,
        mining_level: 0,
        mining_xp: 0,
        mining_max_xp: 0,
        woodcutting_level: 0,
        woodcutting_xp: 0,
        woodcutting_max_xp: 0,
        fishing_level: 0,
        fishing_xp: 0,
        fishing_max_xp: 0,
        weaponcrafting_level: 0,
        weaponcrafting_xp: 0,
        weaponcrafting_max_xp: 0,
        gearcrafting_level: 0,
        gearcrafting_xp: 0,
        gearcrafting_max_xp: 0,
        jewelrycrafting_level: 0,
        jewelrycrafting_xp: 0,
        jewelrycrafting_max_xp: 0,
        cooking_level: 0,
        cooking_xp: 0,
        cooking_max_xp: 0,
        hp: 0,
        haste: 0,
        critical_strike: 0,
        stamina: 0,
        attack_fire: 0,
        attack_earth: 0,
        attack_water: 0,
        attack_air: 0,
        dmg_fire: 0,
        dmg_earth: 0,
        dmg_water: 0,
        dmg_air: 0,
        res_fire: 0,
        res_earth: 0,
        res_water: 0,
        res_air: 0,
        x: 0,
        y: 0,
        cooldown: 0,
        cooldown_expiration: String::new(),
        weapon_slot: String::new(),
        shield_slot: String::new(),
        helmet_slot: String::new(),
        body_armor_slot: String::new(),
        leg_armor_slot: String::new(),
        boots_slot: String::new(),
        ring1_slot: String::new(),
        ring2_slot: String::new(),
        amulet_slot: String::new(),
        artifact1_slot: String::new(),
        artifact2_slot: String::new(),
        artifact3_slot: String::new(),
        consumable1_slot: String::new(),
        consumable1_slot_quantity: 0,
        consumable2_slot: String::new(),
        consumable2_slot_quantity: 0,
        inventory_slot1: String::new(),
        inventory_slot1_quantity: 0,
        inventory_slot2: String::new(),
        inventory_slot2_quantity: 0,
        inventory_slot3: String::new(),
        inventory_slot3_quantity: 0,
        inventory_slot4: String::new(),
        inventory_slot4_quantity: 0,
        inventory_slot5: String::new(),
        inventory_slot5_quantity: 0,
        inventory_slot6: String::new(),
        inventory_slot6_quantity: 0,
        inventory_slot7: String::new(),
        inventory_slot7_quantity: 0,
        inventory_slot8: String::new(),
        inventory_slot8_quantity: 0,
        inventory_slot9: String::new(),
        inventory_slot9_quantity: 0,
        inventory_slot10: String::new(),
        inventory_slot10_quantity: 0,
        inventory_slot11: String::new(),
        inventory_slot11_quantity: 0,
        inventory_slot12: String::new(),
        inventory_slot12_quantity: 0,
        inventory_slot13: String::new(),
        inventory_slot13_quantity: 0,
        inventory_slot14: String::new(),
        inventory_slot14_quantity: 0,
        inventory_slot15: String::new(),
        inventory_slot15_quantity: 0,
        inventory_slot16: String::new(),
        inventory_slot16_quantity: 0,
        inventory_slot17: String::new(),
        inventory_slot17_quantity: 0,
        inventory_slot18: String::new(),
        inventory_slot18_quantity: 0,
        inventory_slot19: String::new(),
        inventory_slot19_quantity: 0,
        inventory_slot20: String::new(),
        inventory_slot20_quantity: 0,
        inventory_max_items: 0,
        task: String::new(),
        task_type: String::new(),
        task_progress: 0,
        task_total: 0,
    }
}

fn success_envelope(remaining_seconds: i64) -> APIResponse<ActionData> {
    APIResponse {
        data: Some(ActionData {
            cooldown: Cooldown {
                total_seconds: remaining_seconds,
                remaining_seconds,
                expiration: String::new(),
                reason: String::new(),
            },
            destination: None,
            character: blank_state(),
        }),
        error: None,
    }
}

fn error_envelope(code: i32, message: &str) -> APIResponse<ActionData> {
    APIResponse {
        data: None,
        error: Some(ErrorData { code, message: String::from(message) }),
    }
}

#[test]
fn success_yields_its_cooldown_seconds() {
    assert!(matches!(classify_response(success_envelope(12)), Ok(Some(12))));
    assert!(matches!(classify_response(success_envelope(0)), Ok(Some(0))));
}

#[test]
fn code_490_is_a_noop_not_an_error() {
    let r = classify_response(error_envelope(490, "character already at destination"));
    assert!(matches!(r, Ok(None)));
}

#[test]
fn code_499_is_the_cooldown_rejection() {
    let r = classify_response(error_envelope(499, "character in cooldown"));
    assert!(matches!(r, Err(Error::Cooldown)));
}

#[test]
fn other_codes_carry_the_payload_verbatim() {
    let r = classify_response(error_envelope(404, "map not found"));
    match r {
        Err(Error::APIError(e)) => {
            assert_eq!(e.code, 404);
            assert_eq!(e.message, "map not found");
        }
        _ => panic!("expected an APIError"),
    }
}

#[test]
fn both_payloads_is_a_protocol_violation() {
    let mut res = success_envelope(3);
    res.error = Some(ErrorData { code: 1, message: String::from("spurious") });
    assert!(matches!(classify_response(res), Err(Error::InvalidAPIResponse)));
}

#[test]
fn neither_payload_is_a_protocol_violation() {
    let res: APIResponse<ActionData> = APIResponse { data: None, error: None };
    assert!(matches!(classify_response(res), Err(Error::InvalidAPIResponse)));
}

#[test]
fn loop_sleeps_exactly_the_reported_cooldown() {
    let d = loop_step(classify_response(success_envelope(9)));
    assert_eq!(d.delay_seconds, 9);
    assert_eq!(d.log, LogLevel::Silent);
}

#[test]
fn loop_proceeds_immediately_after_a_noop() {
    let d = loop_step(classify_response(error_envelope(490, "already there")));
    assert_eq!(d.delay_seconds, 0);
    assert_eq!(d.log, LogLevel::Silent);
}

#[test]
fn loop_backs_off_exactly_five_seconds_on_cooldown_rejection() {
    assert_eq!(COOLDOWN_BACKOFF_SECONDS, 5);
    let d = loop_step(classify_response(error_envelope(499, "still cooling down")));
    assert_eq!(d.delay_seconds, COOLDOWN_BACKOFF_SECONDS);
    assert_eq!(d.log, LogLevel::Warn);
}

#[test]
fn loop_survives_a_protocol_violation() {
    let res: APIResponse<ActionData> = APIResponse { data: None, error: None };
    let d = loop_step(classify_response(res));
    assert_eq!(d.delay_seconds, 0);
    assert_eq!(d.log, LogLevel::Error);
}

#[test]
fn loop_reports_remote_failures_and_moves_on() {
    let d = loop_step(classify_response(error_envelope(500, "internal")));
    assert_eq!(d.delay_seconds, 0);
    assert_eq!(d.log, LogLevel::Error);
}

#[test]
fn loop_treats_transport_failures_like_any_failure() {
    let d = loop_step(Err(Error::Transport(String::from("connection reset"))));
    assert_eq!(d.delay_seconds, 0);
    assert_eq!(d.log, LogLevel::Error);
}

#[test]
fn negative_cooldown_figures_never_produce_a_wait() {
    let d = loop_step(Ok(Some(-4)));
    assert_eq!(d.delay_seconds, 0);
}
