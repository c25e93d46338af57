//! Actions, their JSON bodies, and the fully built request.
//!
//! An `Action` is one thing a character can be asked to do. Building a
//! request turns it into the verb of the character-scoped endpoint and,
//! where the action carries parameters, a JSON object body. `ActionModel`
//! is the action's mathematical shape, which the contracts speak of.

use vstd::prelude::*;
use crate::config::TaskName;
use crate::encode::{dec_int, json_string, i64_to_dec_string, append_json_string};

verus! {

/// The only two HTTP methods the engine issues.
#[derive(Debug, Clone, Copy, PartialEq, Eq, Structural)]
pub enum HttpMethod {
    Get,
    Post,
}

/// One fully built request: everything the transport needs to issue it,
/// plus a human-readable description used for observability only.
/// Immutable once built; owned by the queue slot until consumed.
pub struct ActionRequest {
    pub method: HttpMethod,
    pub url: String,
    pub token: String,
    pub body: Option<String>,
    pub description: String,
}

/// One action a character can perform through its queue.
pub enum Action {
    MoveTo { x: i32, y: i32 },
    Fight,
    Gathering,
    Unequip { slot: String },
    Crafting { code: String },
    Equip { code: String, slot: String },
    Deposit { code: String, quantity: i64 },
}

/// The mathematical shape of an action, over sequences and integers.
pub enum ActionModel {
    MoveTo { x: int, y: int },
    Fight,
    Gathering,
    Unequip { slot: Seq<char> },
    Crafting { code: Seq<char> },
    Equip { code: Seq<char>, slot: Seq<char> },
    Deposit { code: Seq<char>, quantity: int },
}

impl View for Action {
    type V = ActionModel;

    open spec fn view(&self) -> ActionModel {
        match self {
            Action::MoveTo { x, y } => ActionModel::MoveTo { x: *x as int, y: *y as int },
            Action::Fight => ActionModel::Fight,
            Action::Gathering => ActionModel::Gathering,
            Action::Unequip { slot } => ActionModel::Unequip { slot: slot@ },
            Action::Crafting { code } => ActionModel::Crafting { code: code@ },
            Action::Equip { code, slot } => ActionModel::Equip { code: code@, slot: slot@ },
            Action::Deposit { code, quantity } => ActionModel::Deposit {
                code: code@,
                quantity: *quantity as int,
            },
        }
    }
}

impl DeepView for Action {
    type V = ActionModel;

    open spec fn deep_view(&self) -> ActionModel {
        self.view()
    }
}

/// The verb of the character-scoped endpoint each action posts to.
pub open spec fn action_verb(a: ActionModel) -> Seq<char> {
    match a {
        ActionModel::MoveTo { .. } => "move"@,
        ActionModel::Fight => "fight"@,
        ActionModel::Gathering => "gathering"@,
        ActionModel::Unequip { .. } => "unequip"@,
        ActionModel::Crafting { .. } => "crafting"@,
        ActionModel::Equip { .. } => "equip"@,
        ActionModel::Deposit { .. } => "bank/deposit"@,
    }
}

/// The JSON object body of an action, if it carries parameters: keys in
/// alphabetical order, string values escaped as JSON string literals.
pub open spec fn spec_body_json(a: ActionModel) -> Option<Seq<char>> {
    match a {
        ActionModel::MoveTo { x, y } => Some(
            "{\"x\":"@ + dec_int(x) + ",\"y\":"@ + dec_int(y) + "}"@,
        ),
        ActionModel::Fight => None,
        ActionModel::Gathering => None,
        ActionModel::Unequip { slot } => Some("{\"slot\":"@ + json_string(slot) + "}"@),
        ActionModel::Crafting { code } => Some("{\"code\":"@ + json_string(code) + "}"@),
        ActionModel::Equip { code, slot } => Some(
            "{\"code\":"@ + json_string(code) + ",\"slot\":"@ + json_string(slot) + "}"@,
        ),
        ActionModel::Deposit { code, quantity } => Some(
            "{\"code\":"@ + json_string(code) + ",\"quantity\":"@ + dec_int(quantity) + "}"@,
        ),
    }
}

/// The verb of the endpoint this action posts to.
pub fn action_verb_str(a: &Action) -> (s: &'static str)
    ensures
        s@ == action_verb(a@),
{
    match a {
        Action::MoveTo { .. } => "move",
        Action::Fight => "fight",
        Action::Gathering => "gathering",
        Action::Unequip { .. } => "unequip",
        Action::Crafting { .. } => "crafting",
        Action::Equip { .. } => "equip",
        Action::Deposit { .. } => "bank/deposit",
    }
}

/// Build the JSON body of an action, if it has one.
pub fn body_json(a: &Action) -> (r: Option<String>)
    ensures
        r.deep_view() == spec_body_json(a@),
{
    match a {
        Action::MoveTo { x, y } => {
            let mut s = String::new();
            s.append("{\"x\":");
            let xd = i64_to_dec_string(*x as i64);
            s.append(xd.as_str());
            s.append(",\"y\":");
            let yd = i64_to_dec_string(*y as i64);
            s.append(yd.as_str());
            s.append("}");
            proof {
                assert(s@ =~= spec_body_json(a@)->Some_0);
            }
            Some(s)
        }
        Action::Fight => None,
        Action::Gathering => None,
        Action::Unequip { slot } => {
            let mut s = String::new();
            s.append("{\"slot\":");
            append_json_string(&mut s, slot.as_str());
            s.append("}");
            proof {
                assert(s@ =~= spec_body_json(a@)->Some_0);
            }
            Some(s)
        }
        Action::Crafting { code } => {
            let mut s = String::new();
            s.append("{\"code\":");
            append_json_string(&mut s, code.as_str());
            s.append("}");
            proof {
                assert(s@ =~= spec_body_json(a@)->Some_0);
            }
            Some(s)
        }
        Action::Equip { code, slot } => {
            let mut s = String::new();
            s.append("{\"code\":");
            append_json_string(&mut s, code.as_str());
            s.append(",\"slot\":");
            append_json_string(&mut s, slot.as_str());
            s.append("}");
            proof {
                assert(s@ =~= spec_body_json(a@)->Some_0);
            }
            Some(s)
        }
        Action::Deposit { code, quantity } => {
            let mut s = String::new();
            s.append("{\"code\":");
            append_json_string(&mut s, code.as_str());
            s.append(",\"quantity\":");
            let qd = i64_to_dec_string(*quantity);
            s.append(qd.as_str());
            s.append("}");
            proof {
                assert(s@ =~= spec_body_json(a@)->Some_0);
            }
            Some(s)
        }
    }
}

/// The label of a task, as it appears in request descriptions.
pub open spec fn task_label(t: TaskName) -> Seq<char> {
    match t {
        TaskName::CopperIngots => "CopperIngots"@,
        TaskName::KillChickens => "KillChickens"@,
        TaskName::DepositInventory => "DepositInventory"@,
        TaskName::KillYellowSlime => "KillYellowSlime"@,
        TaskName::KillCows => "KillCows"@,
        TaskName::MineCopper => "MineCopper"@,
        TaskName::MineIron => "MineIron"@,
    }
}

/// The label of a task, as it appears in request descriptions.
pub fn task_label_str(t: TaskName) -> (s: &'static str)
    ensures
        s@ == task_label(t),
{
    match t {
        TaskName::CopperIngots => "CopperIngots",
        TaskName::KillChickens => "KillChickens",
        TaskName::DepositInventory => "DepositInventory",
        TaskName::KillYellowSlime => "KillYellowSlime",
        TaskName::KillCows => "KillCows",
        TaskName::MineCopper => "MineCopper",
        TaskName::MineIron => "MineIron",
    }
}

/// The label of an HTTP method, as it appears in request descriptions.
pub open spec fn method_label(m: HttpMethod) -> Seq<char> {
    match m {
        HttpMethod::Get => "GET"@,
        HttpMethod::Post => "POST"@,
    }
}

/// The label of an HTTP method, as it appears in request descriptions.
pub fn method_label_str(m: HttpMethod) -> (s: &'static str)
    ensures
        s@ == method_label(m),
{
    match m {
        HttpMethod::Get => "GET",
        HttpMethod::Post => "POST",
    }
}

} // verus!
