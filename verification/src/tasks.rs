//! The scripted behaviours: each task is a plan, the ordered list of
//! actions it submits to its character's queue. Plans are data; the
//! driver walks a plan and submits each action in turn.

use vstd::prelude::*;
use crate::request::{Action, ActionModel};
use crate::response::InventorySlot;

verus! {

/// Mining copper: move to the copper vein, then gather six times.
pub open spec fn spec_mine_copper_plan() -> Seq<ActionModel> {
    seq![
        ActionModel::MoveTo { x: 2, y: 0 },
        ActionModel::Gathering,
        ActionModel::Gathering,
        ActionModel::Gathering,
        ActionModel::Gathering,
        ActionModel::Gathering,
        ActionModel::Gathering,
    ]
}

/// The plan for mining copper.
pub fn mine_copper() -> (plan: Vec<Action>)
    ensures
        plan.deep_view() == spec_mine_copper_plan(),
{
    let mut plan: Vec<Action> = Vec::new();
    plan.push(Action::MoveTo { x: 2, y: 0 });
    plan.push(Action::Gathering);
    plan.push(Action::Gathering);
    plan.push(Action::Gathering);
    plan.push(Action::Gathering);
    plan.push(Action::Gathering);
    plan.push(Action::Gathering);
    proof {
        assert(plan.deep_view() =~= spec_mine_copper_plan());
    }
    plan
}

/// Mining iron: move to the iron vein, then gather six times.
pub open spec fn spec_mine_iron_plan() -> Seq<ActionModel> {
    seq![
        ActionModel::MoveTo { x: 1, y: 7 },
        ActionModel::Gathering,
        ActionModel::Gathering,
        ActionModel::Gathering,
        ActionModel::Gathering,
        ActionModel::Gathering,
        ActionModel::Gathering,
    ]
}

/// The plan for mining iron.
pub fn mine_iron() -> (plan: Vec<Action>)
    ensures
        plan.deep_view() == spec_mine_iron_plan(),
{
    let mut plan: Vec<Action> = Vec::new();
    plan.push(Action::MoveTo { x: 1, y: 7 });
    plan.push(Action::Gathering);
    plan.push(Action::Gathering);
    plan.push(Action::Gathering);
    plan.push(Action::Gathering);
    plan.push(Action::Gathering);
    plan.push(Action::Gathering);
    proof {
        assert(plan.deep_view() =~= spec_mine_iron_plan());
    }
    plan
}

/// Smelting copper ingots: move to the forge, then craft copper.
pub open spec fn spec_copper_ingots_plan() -> Seq<ActionModel> {
    seq![
        ActionModel::MoveTo { x: 1, y: 5 },
        ActionModel::Crafting { code: "copper"@ },
    ]
}

/// The plan for smelting copper ingots.
pub fn copper_ingots() -> (plan: Vec<Action>)
    ensures
        plan.deep_view() == spec_copper_ingots_plan(),
{
    let mut plan: Vec<Action> = Vec::new();
    plan.push(Action::MoveTo { x: 1, y: 5 });
    plan.push(Action::Crafting { code: String::from_str("copper") });
    proof {
        assert(plan.deep_view() =~= spec_copper_ingots_plan());
    }
    plan
}

/// Hunting chickens: move to the chickens, then fight.
pub open spec fn spec_kill_chickens_plan() -> Seq<ActionModel> {
    seq![ActionModel::MoveTo { x: 0, y: 1 }, ActionModel::Fight]
}

/// The plan for hunting chickens.
pub fn kill_chickens() -> (plan: Vec<Action>)
    ensures
        plan.deep_view() == spec_kill_chickens_plan(),
{
    let mut plan: Vec<Action> = Vec::new();
    plan.push(Action::MoveTo { x: 0, y: 1 });
    plan.push(Action::Fight);
    proof {
        assert(plan.deep_view() =~= spec_kill_chickens_plan());
    }
    plan
}

/// Hunting cows: move to the cows, then fight.
pub open spec fn spec_kill_cows_plan() -> Seq<ActionModel> {
    seq![ActionModel::MoveTo { x: 0, y: 2 }, ActionModel::Fight]
}

/// The plan for hunting cows.
pub fn kill_cows() -> (plan: Vec<Action>)
    ensures
        plan.deep_view() == spec_kill_cows_plan(),
{
    let mut plan: Vec<Action> = Vec::new();
    plan.push(Action::MoveTo { x: 0, y: 2 });
    plan.push(Action::Fight);
    proof {
        assert(plan.deep_view() =~= spec_kill_cows_plan());
    }
    plan
}

/// Hunting the yellow slime: move to the slime, then fight.
pub open spec fn spec_kill_yellow_slime_plan() -> Seq<ActionModel> {
    seq![ActionModel::MoveTo { x: 4, y: -1 }, ActionModel::Fight]
}

/// The plan for hunting the yellow slime.
pub fn kill_yellow_slime() -> (plan: Vec<Action>)
    ensures
        plan.deep_view() == spec_kill_yellow_slime_plan(),
{
    let mut plan: Vec<Action> = Vec::new();
    plan.push(Action::MoveTo { x: 4, y: -1 });
    plan.push(Action::Fight);
    proof {
        assert(plan.deep_view() =~= spec_kill_yellow_slime_plan());
    }
    plan
}

/// The deposits a given inventory calls for: one per slot that holds a
/// positive quantity, in slot order, each carrying the slot's item code
/// and its full quantity.
pub open spec fn spec_deposit_steps(s: Seq<InventorySlot>) -> Seq<ActionModel>
    decreases s.len(),
{
    if s.len() == 0 {
        Seq::empty()
    } else {
        spec_deposit_steps(s.drop_last()) + if s.last().quantity > 0 {
            seq![
                ActionModel::Deposit {
                    code: s.last().code@,
                    quantity: s.last().quantity as int,
                },
            ]
        } else {
            Seq::empty()
        }
    }
}

/// Depositing the inventory: walk to the bank, then deposit every slot
/// that holds anything.
pub open spec fn spec_deposit_inventory_plan(s: Seq<InventorySlot>) -> Seq<ActionModel> {
    seq![ActionModel::MoveTo { x: 4, y: 1 }] + spec_deposit_steps(s)
}

/// The plan for depositing the given inventory at the bank.
pub fn deposit_inventory(inventory: &Vec<InventorySlot>) -> (plan: Vec<Action>)
    ensures
        plan.deep_view() == spec_deposit_inventory_plan(inventory@),
{
    let mut plan: Vec<Action> = Vec::new();
    plan.push(Action::MoveTo { x: 4, y: 1 });
    let n = inventory.len();
    let mut i: usize = 0;
    while i < n
        invariant
            i <= n,
            n == inventory@.len(),
            plan.deep_view() == seq![ActionModel::MoveTo { x: 4, y: 1 }]
                + spec_deposit_steps(inventory@.take(i as int)),
        decreases n - i,
    {
        let slot = &inventory[i];
        proof {
            assert(inventory@.take(i + 1 as int).drop_last() =~= inventory@.take(i as int));
            assert(inventory@.take(i + 1 as int).last() == inventory@[i as int]);
        }
        if slot.quantity > 0 {
            let ghost prev = plan.deep_view();
            let ghost m = ActionModel::Deposit {
                code: slot.code@,
                quantity: slot.quantity as int,
            };
            plan.push(Action::Deposit {
                code: String::from_str(slot.code.as_str()),
                quantity: slot.quantity,
            });
            proof {
                assert(plan.deep_view() =~~= prev.push(m));
                assert(spec_deposit_steps(inventory@.take(i + 1 as int))
                    =~~= spec_deposit_steps(inventory@.take(i as int)) + seq![m]);
                assert(plan.deep_view() =~~= seq![ActionModel::MoveTo { x: 4, y: 1 }]
                    + spec_deposit_steps(inventory@.take(i + 1 as int)));
            }
        } else {
            proof {
                assert(spec_deposit_steps(inventory@.take(i + 1 as int))
                    =~~= spec_deposit_steps(inventory@.take(i as int)));
                assert(plan.deep_view() =~~= seq![ActionModel::MoveTo { x: 4, y: 1 }]
                    + spec_deposit_steps(inventory@.take(i + 1 as int)));
            }
        }
        i = i + 1;
    }
    proof {
        assert(inventory@.take(n as int) =~= inventory@);
    }
    plan
}

} // verus!
