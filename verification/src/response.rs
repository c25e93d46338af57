//! The remote API's response shapes, held as plain values.
//!
//! Every reply is an envelope with an optional success payload and an
//! optional error payload; the server contract is that exactly one of the
//! two is present. The full character state is a flat record of levels,
//! stats, equipment and twenty fixed inventory slots.

use vstd::prelude::*;
use crate::encode::{dec_int, i64_to_dec_string};

verus! {

/// The uniform response envelope: at most one of `data` / `error` is
/// expected to be present; a violation is a protocol error.
pub struct APIResponse<T> {
    pub data: Option<T>,
    pub error: Option<ErrorData>,
}

/// The error payload of an envelope: a numeric code and a message.
#[derive(Debug)]
pub struct ErrorData {
    pub code: i32,
    pub message: String,
}

impl ErrorData {
    /// The payload rendered for people: the code in decimal, a space,
    /// then the message verbatim.
    pub fn display_string(&self) -> (s: String)
        ensures
            s@ == dec_int(self.code as int) + " "@ + self.message@,
    {
        let mut s = i64_to_dec_string(self.code as i64);
        s.append(" ");
        s.append(self.message.as_str());
        proof {
            assert(s@ =~= dec_int(self.code as int) + " "@ + self.message@);
        }
        s
    }
}

/// The success payload of a queued action: the cooldown it produced,
/// an optional movement destination, and the character's new state.
pub struct ActionData {
    pub cooldown: Cooldown,
    pub destination: Option<Destination>,
    pub character: Character,
}

/// A server-enforced pause before the character may act again.
pub struct Cooldown {
    pub total_seconds: i64,
    pub remaining_seconds: i64,
    pub expiration: String,
    pub reason: String,
}

/// Where a movement action ended up. `content` carries the tile's raw
/// JSON description; nothing in the engine reads inside it.
pub struct Destination {
    pub name: String,
    pub x: i64,
    pub y: i64,
    pub content: String,
}

/// Full character state as the API reports it, including the twenty
/// fixed inventory slots and the inventory capacity.
pub struct Character {
    pub name: String,
    pub skin: String,
    pub level: i64,
    pub xp: i64,
    pub max_xp: i64,
    pub total_xp: i64,
    pub gold: i64,
    pub speed: i64,
    pub mining_level: i64,
    pub mining_xp: i64,
    pub mining_max_xp: i64,
    pub woodcutting_level: i64,
    pub woodcutting_xp: i64,
    pub woodcutting_max_xp: i64,
    pub fishing_level: i64,
    pub fishing_xp: i64,
    pub fishing_max_xp: i64,
    pub weaponcrafting_level: i64,
    pub weaponcrafting_xp: i64,
    pub weaponcrafting_max_xp: i64,
    pub gearcrafting_level: i64,
    pub gearcrafting_xp: i64,
    pub gearcrafting_max_xp: i64,
    pub jewelrycrafting_level: i64,
    pub jewelrycrafting_xp: i64,
    pub jewelrycrafting_max_xp: i64,
    pub cooking_level: i64,
    pub cooking_xp: i64,
    pub cooking_max_xp: i64,
    pub hp: i64,
    pub haste: i64,
    pub critical_strike: i64,
    pub stamina: i64,
    pub attack_fire: i64,
    pub attack_earth: i64,
    pub attack_water: i64,
    pub attack_air: i64,
    pub dmg_fire: i64,
    pub dmg_earth: i64,
    pub dmg_water: i64,
    pub dmg_air: i64,
    pub res_fire: i64,
    pub res_earth: i64,
    pub res_water: i64,
    pub res_air: i64,
    pub x: i64,
    pub y: i64,
    pub cooldown: i64,
    pub cooldown_expiration: String,
    pub weapon_slot: String,
    pub shield_slot: String,
    pub helmet_slot: String,
    pub body_armor_slot: String,
    pub leg_armor_slot: String,
    pub boots_slot: String,
    pub ring1_slot: String,
    pub ring2_slot: String,
    pub amulet_slot: String,
    pub artifact1_slot: String,
    pub artifact2_slot: String,
    pub artifact3_slot: String,
    pub consumable1_slot: String,
    pub consumable1_slot_quantity: i64,
    pub consumable2_slot: String,
    pub consumable2_slot_quantity: i64,
    pub inventory_slot1: String,
    pub inventory_slot1_quantity: i64,
    pub inventory_slot2: String,
    pub inventory_slot2_quantity: i64,
    pub inventory_slot3: String,
    pub inventory_slot3_quantity: i64,
    pub inventory_slot4: String,
    pub inventory_slot4_quantity: i64,
    pub inventory_slot5: String,
    pub inventory_slot5_quantity: i64,
    pub inventory_slot6: String,
    pub inventory_slot6_quantity: i64,
    pub inventory_slot7: String,
    pub inventory_slot7_quantity: i64,
    pub inventory_slot8: String,
    pub inventory_slot8_quantity: i64,
    pub inventory_slot9: String,
    pub inventory_slot9_quantity: i64,
    pub inventory_slot10: String,
    pub inventory_slot10_quantity: i64,
    pub inventory_slot11: String,
    pub inventory_slot11_quantity: i64,
    pub inventory_slot12: String,
    pub inventory_slot12_quantity: i64,
    pub inventory_slot13: String,
    pub inventory_slot13_quantity: i64,
    pub inventory_slot14: String,
    pub inventory_slot14_quantity: i64,
    pub inventory_slot15: String,
    pub inventory_slot15_quantity: i64,
    pub inventory_slot16: String,
    pub inventory_slot16_quantity: i64,
    pub inventory_slot17: String,
    pub inventory_slot17_quantity: i64,
    pub inventory_slot18: String,
    pub inventory_slot18_quantity: i64,
    pub inventory_slot19: String,
    pub inventory_slot19_quantity: i64,
    pub inventory_slot20: String,
    pub inventory_slot20_quantity: i64,
    pub inventory_max_items: i64,
    pub task: String,
    pub task_type: String,
    pub task_progress: i64,
    pub task_total: i64,
}

/// One uniform inventory entry: the slot's name, the item code it holds
/// (empty when the slot is empty) and the held quantity.
pub struct InventorySlot {
    pub name: String,
    pub code: String,
    pub quantity: i64,
}

/// The mathematical shape of one inventory entry.
pub struct SlotModel {
    pub name: Seq<char>,
    pub code: Seq<char>,
    pub quantity: int,
}

impl View for InventorySlot {
    type V = SlotModel;

    open spec fn view(&self) -> SlotModel {
        SlotModel { name: self.name@, code: self.code@, quantity: self.quantity as int }
    }
}

impl DeepView for InventorySlot {
    type V = SlotModel;

    open spec fn deep_view(&self) -> SlotModel {
        self.view()
    }
}

/// The twenty fixed inventory slots of a character state, in slot order.
pub open spec fn spec_inventory_slots(c: Character) -> Seq<SlotModel> {
    seq![
        SlotModel {
            name: "inventory_slot1"@,
            code: c.inventory_slot1@,
            quantity: c.inventory_slot1_quantity as int,
        },
        SlotModel {
            name: "inventory_slot2"@,
            code: c.inventory_slot2@,
            quantity: c.inventory_slot2_quantity as int,
        },
        SlotModel {
            name: "inventory_slot3"@,
            code: c.inventory_slot3@,
            quantity: c.inventory_slot3_quantity as int,
        },
        SlotModel {
            name: "inventory_slot4"@,
            code: c.inventory_slot4@,
            quantity: c.inventory_slot4_quantity as int,
        },
        SlotModel {
            name: "inventory_slot5"@,
            code: c.inventory_slot5@,
            quantity: c.inventory_slot5_quantity as int,
        },
        SlotModel {
            name: "inventory_slot6"@,
            code: c.inventory_slot6@,
            quantity: c.inventory_slot6_quantity as int,
        },
        SlotModel {
            name: "inventory_slot7"@,
            code: c.inventory_slot7@,
            quantity: c.inventory_slot7_quantity as int,
        },
        SlotModel {
            name: "inventory_slot8"@,
            code: c.inventory_slot8@,
            quantity: c.inventory_slot8_quantity as int,
        },
        SlotModel {
            name: "inventory_slot9"@,
            code: c.inventory_slot9@,
            quantity: c.inventory_slot9_quantity as int,
        },
        SlotModel {
            name: "inventory_slot10"@,
            code: c.inventory_slot10@,
            quantity: c.inventory_slot10_quantity as int,
        },
        SlotModel {
            name: "inventory_slot11"@,
            code: c.inventory_slot11@,
            quantity: c.inventory_slot11_quantity as int,
        },
        SlotModel {
            name: "inventory_slot12"@,
            code: c.inventory_slot12@,
            quantity: c.inventory_slot12_quantity as int,
        },
        SlotModel {
            name: "inventory_slot13"@,
            code: c.inventory_slot13@,
            quantity: c.inventory_slot13_quantity as int,
        },
        SlotModel {
            name: "inventory_slot14"@,
            code: c.inventory_slot14@,
            quantity: c.inventory_slot14_quantity as int,
        },
        SlotModel {
            name: "inventory_slot15"@,
            code: c.inventory_slot15@,
            quantity: c.inventory_slot15_quantity as int,
        },
        SlotModel {
            name: "inventory_slot16"@,
            code: c.inventory_slot16@,
            quantity: c.inventory_slot16_quantity as int,
        },
        SlotModel {
            name: "inventory_slot17"@,
            code: c.inventory_slot17@,
            quantity: c.inventory_slot17_quantity as int,
        },
        SlotModel {
            name: "inventory_slot18"@,
            code: c.inventory_slot18@,
            quantity: c.inventory_slot18_quantity as int,
        },
        SlotModel {
            name: "inventory_slot19"@,
            code: c.inventory_slot19@,
            quantity: c.inventory_slot19_quantity as int,
        },
        SlotModel {
            name: "inventory_slot20"@,
            code: c.inventory_slot20@,
            quantity: c.inventory_slot20_quantity as int,
        },
    ]
}

} // verus!
