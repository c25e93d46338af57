//! One character session: its name, its auth token, and its owned
//! single-slot action queue. The methods build fully addressed requests
//! for the character-scoped endpoints and deposit them into the queue.

use vstd::prelude::*;
use crate::action_queue::ActionQueue;
use crate::config::TaskName;
use crate::error::Error;
use crate::request::{
    Action, ActionModel, ActionRequest, HttpMethod, action_verb, action_verb_str, body_json,
    spec_body_json, task_label_str, method_label, method_label_str, task_label,
};
use crate::response;
use crate::response::{APIResponse, ErrorData, InventorySlot};

verus! {

/// The server every request is addressed to.
pub open spec fn base_url() -> Seq<char> {
    "https://api.artifactsmmo.com/"@
}

/// The character-scoped endpoint path an action posts to.
pub open spec fn action_path(name: Seq<char>, a: ActionModel) -> Seq<char> {
    "my/"@ + name + "/action/"@ + action_verb(a)
}

/// The path of the character-state read.
pub open spec fn state_path(name: Seq<char>) -> Seq<char> {
    "characters/"@ + name
}

/// A request's observability label: task, method and path, then the
/// serialized body when there is one, separated by single spaces.
pub open spec fn spec_description(
    t: TaskName,
    m: HttpMethod,
    path: Seq<char>,
    body: Option<Seq<char>>,
) -> Seq<char> {
    let head = task_label(t) + " "@ + method_label(m) + " "@ + path;
    match body {
        Some(b) => head + " "@ + b,
        None => head,
    }
}

/// What the fully built request of action `a`, for character `name` under
/// task `t` and with this auth token, holds in every field.
pub open spec fn request_matches(
    r: ActionRequest,
    name: Seq<char>,
    token: Seq<char>,
    t: TaskName,
    a: ActionModel,
) -> bool {
    &&& r.method == HttpMethod::Post
    &&& r.url@ == base_url() + action_path(name, a)
    &&& r.token@ == token
    &&& r.body.deep_view() == spec_body_json(a)
    &&& r.description@ == spec_description(t, HttpMethod::Post, action_path(name, a), spec_body_json(a))
}

/// How one attempted submission relates the character before and after:
/// the identity is untouched, nothing is popped, and either the queue had
/// a free slot and now additionally holds exactly the request built for
/// the action, or it was full and is unchanged.
pub open spec fn submit_outcome(
    pre: Character,
    post: Character,
    accepted: bool,
    t: TaskName,
    a: ActionModel,
) -> bool {
    &&& post.spec_queue().well_formed()
    &&& post.spec_name() == pre.spec_name()
    &&& post.spec_token() == pre.spec_token()
    &&& post.spec_queue().popped() == pre.spec_queue().popped()
    &&& accepted == !pre.spec_queue().is_full()
    &&& if accepted {
        &&& post.spec_queue().submitted().len() == pre.spec_queue().submitted().len() + 1
        &&& post.spec_queue().submitted().take(pre.spec_queue().submitted().len() as int)
            == pre.spec_queue().submitted()
        &&& request_matches(
            post.spec_queue().submitted().last(),
            pre.spec_name(),
            pre.spec_token(),
            t,
            a,
        )
    } else {
        post.spec_queue().submitted() == pre.spec_queue().submitted()
    }
}

/// One configured character: created at startup, lives for the process.
pub struct Character {
    name: String,
    token: String,
    pub queue: ActionQueue,
}

impl Character {
    /// The character's name, which scopes every endpoint it talks to.
    pub closed spec fn spec_name(&self) -> Seq<char> {
        self.name@
    }

    /// The bearer token attached to every request.
    pub closed spec fn spec_token(&self) -> Seq<char> {
        self.token@
    }

    /// The character's queue, as contracts speak of it.
    pub closed spec fn spec_queue(&self) -> ActionQueue {
        self.queue
    }

    /// A fresh session with an empty queue.
    pub fn new(name: String, token: String) -> (c: Character)
        ensures
            c.spec_name() == name@,
            c.spec_token() == token@,
            c.spec_queue().well_formed(),
            c.spec_queue().submitted() == Seq::<ActionRequest>::empty(),
            c.spec_queue().popped() == Seq::<ActionRequest>::empty(),
    {
        Character { name, token, queue: ActionQueue::new() }
    }

    /// The character's name.
    pub fn name(&self) -> (n: &String)
        ensures
            n@ == self.spec_name(),
    {
        &self.name
    }

    /// Build a fully addressed request: the base URL prefixed to the path,
    /// the auth token attached, and the description label assembled.
    /// Pure construction — no transfer happens here.
    fn build_request(
        &self,
        current_task: TaskName,
        method: HttpMethod,
        path: &str,
        body: Option<String>,
    ) -> (r: ActionRequest)
        ensures
            r.method == method,
            r.url@ == base_url() + path@,
            r.token@ == self.spec_token(),
            r.body.deep_view() == body.deep_view(),
            r.description@ == spec_description(current_task, method, path@, body.deep_view()),
    {
        let mut url = String::new();
        url.append("https://api.artifactsmmo.com/");
        url.append(path);
        let mut description = String::new();
        description.append(task_label_str(current_task));
        description.append(" ");
        description.append(method_label_str(method));
        description.append(" ");
        description.append(path);
        match &body {
            Some(b) => {
                description.append(" ");
                description.append(b.as_str());
            }
            None => {}
        }
        proof {
            assert(url@ =~= base_url() + path@);
            assert(description@ =~= spec_description(
                current_task,
                method,
                path@,
                body.deep_view(),
            ));
        }
        ActionRequest { method, url, token: self.token.clone(), body, description }
    }

    /// Build the request for one action and offer it to the queue slot.
    pub fn action(&mut self, current_task: TaskName, action: Action) -> (accepted: bool)
        requires
            old(self).spec_queue().well_formed(),
        ensures
            submit_outcome(*old(self), *final(self), accepted, current_task, action@),
    {
        let body = body_json(&action);
        let mut path = String::new();
        path.append("my/");
        path.append(self.name.as_str());
        path.append("/action/");
        path.append(action_verb_str(&action));
        proof {
            assert(path@ =~= action_path(self.spec_name(), action@));
        }
        let request = self.build_request(current_task, HttpMethod::Post, path.as_str(), body);
        let ghost grequest = request;
        let accepted = self.queue.push(request);
        proof {
            if accepted {
                assert(self.queue.submitted() == old(self).queue.submitted().push(grequest));
                assert(self.queue.submitted().take(old(self).queue.submitted().len() as int)
                    =~= old(self).queue.submitted());
            }
        }
        accepted
    }

    /// Queue a movement to the given coordinates.
    pub fn move_to(&mut self, current_task: TaskName, x: i32, y: i32) -> (accepted: bool)
        requires
            old(self).spec_queue().well_formed(),
        ensures
            submit_outcome(*old(self), *final(self), accepted, current_task, (ActionModel::MoveTo {
                x: x as int,
                y: y as int,
            })),
    {
        self.action(current_task, Action::MoveTo { x, y })
    }

    /// Queue an attack on whatever shares the character's tile.
    pub fn fight(&mut self, current_task: TaskName) -> (accepted: bool)
        requires
            old(self).spec_queue().well_formed(),
        ensures
            submit_outcome(*old(self), *final(self), accepted, current_task, ActionModel::Fight),
    {
        self.action(current_task, Action::Fight)
    }

    /// Queue a gathering of the resource on the character's tile.
    pub fn gathering(&mut self, current_task: TaskName) -> (accepted: bool)
        requires
            old(self).spec_queue().well_formed(),
        ensures
            submit_outcome(
                *old(self),
                *final(self),
                accepted,
                current_task,
                ActionModel::Gathering,
            ),
    {
        self.action(current_task, Action::Gathering)
    }

    /// Queue removing whatever is equipped in the named slot.
    pub fn unequip(&mut self, current_task: TaskName, slot: &str) -> (accepted: bool)
        requires
            old(self).spec_queue().well_formed(),
        ensures
            submit_outcome(*old(self), *final(self), accepted, current_task, (ActionModel::Unequip {
                slot: slot@,
            })),
    {
        self.action(current_task, Action::Unequip { slot: String::from_str(slot) })
    }

    /// Queue crafting the item with the given code.
    pub fn crafting(&mut self, current_task: TaskName, code: &str) -> (accepted: bool)
        requires
            old(self).spec_queue().well_formed(),
        ensures
            submit_outcome(
                *old(self),
                *final(self),
                accepted,
                current_task,
                (ActionModel::Crafting { code: code@ }),
            ),
    {
        self.action(current_task, Action::Crafting { code: String::from_str(code) })
    }

    /// Queue equipping the item with the given code into the named slot.
    pub fn equip(&mut self, current_task: TaskName, code: &str, slot: &str) -> (accepted: bool)
        requires
            old(self).spec_queue().well_formed(),
        ensures
            submit_outcome(*old(self), *final(self), accepted, current_task, (ActionModel::Equip {
                code: code@,
                slot: slot@,
            })),
    {
        self.action(
            current_task,
            Action::Equip { code: String::from_str(code), slot: String::from_str(slot) },
        )
    }

    /// Queue a bank deposit of the given quantity of an item.
    pub fn deposit(&mut self, current_task: TaskName, code: &str, quantity: i64) -> (accepted:
        bool)
        requires
            old(self).spec_queue().well_formed(),
        ensures
            submit_outcome(*old(self), *final(self), accepted, current_task, (ActionModel::Deposit {
                code: code@,
                quantity: quantity as int,
            })),
    {
        self.action(
            current_task,
            Action::Deposit { code: String::from_str(code), quantity },
        )
    }

    /// Take the pending request out of the queue slot, if any: the consumer
    /// side of the hand-off, popping strictly in submission order.
    pub fn pop_request(&mut self) -> (r: Option<ActionRequest>)
        requires
            old(self).spec_queue().well_formed(),
        ensures
            final(self).spec_queue().well_formed(),
            final(self).spec_name() == old(self).spec_name(),
            final(self).spec_token() == old(self).spec_token(),
            final(self).spec_queue().submitted() == old(self).spec_queue().submitted(),
            r is Some <==> old(self).spec_queue().is_full(),
            old(self).spec_queue().is_full() ==> {
                &&& r == Some(old(self).spec_queue().submitted()[old(
                    self,
                ).spec_queue().popped().len() as int])
                &&& final(self).spec_queue().popped() == old(self).spec_queue().popped().push(
                    old(self).spec_queue().submitted()[old(self).spec_queue().popped().len() as int],
                )
            },
            !old(self).spec_queue().is_full() ==> final(self).spec_queue().popped() == old(
                self,
            ).spec_queue().popped(),
    {
        self.queue.pop()
    }

    /// Build the non-queued character-state read. This bypasses the queue:
    /// a read costs no cooldown, so it never contends with queued actions.
    pub fn inventory_request(&self, current_task: TaskName) -> (r: ActionRequest)
        ensures
            r.method == HttpMethod::Get,
            r.url@ == base_url() + state_path(self.spec_name()),
            r.token@ == self.spec_token(),
            r.body is None,
            r.description@ == spec_description(
                current_task,
                HttpMethod::Get,
                state_path(self.spec_name()),
                None,
            ),
    {
        let mut path = String::new();
        path.append("characters/");
        path.append(self.name.as_str());
        proof {
            assert(path@ =~= state_path(self.spec_name()));
        }
        self.build_request(current_task, HttpMethod::Get, path.as_str(), None)
    }

    /// Map a decoded character-state envelope into the inventory capacity
    /// and the twenty fixed slots, in slot order. The envelope is checked
    /// like any other: exactly one payload must be present, and an error
    /// payload is classified by code — a cooldown rejection keeps its
    /// distinguished class, every other code is a remote failure.
    pub fn inventory(&self, res: APIResponse<response::Character>) -> (r: Result<
        (i64, Vec<InventorySlot>),
        Error,
    >)
        ensures
            (res.data is Some && res.error is None) ==> {
                &&& r is Ok
                &&& r->Ok_0.0 == res.data->Some_0.inventory_max_items
                &&& r->Ok_0.1@.len() == 20
                &&& r->Ok_0.1.deep_view() == response::spec_inventory_slots(res.data->Some_0)
            },
            (res.data is None && res.error is Some) ==> r == Err::<(i64, Vec<InventorySlot>), Error>(
                spec_read_error(res.error->Some_0),
            ),
            (res.data is Some <==> res.error is Some) ==> r == Err::<
                (i64, Vec<InventorySlot>),
                Error,
            >(Error::InvalidAPIResponse),
    {
        match res {
            APIResponse { data: Some(data), error: None } => {
                let ghost gdata = data;
                let max_items = data.inventory_max_items;
                let mut slots: Vec<InventorySlot> = Vec::new();
                slots.push(InventorySlot {
                    name: String::from_str("inventory_slot1"),
                    code: data.inventory_slot1,
                    quantity: data.inventory_slot1_quantity,
                });
                slots.push(InventorySlot {
                    name: String::from_str("inventory_slot2"),
                    code: data.inventory_slot2,
                    quantity: data.inventory_slot2_quantity,
                });
                slots.push(InventorySlot {
                    name: String::from_str("inventory_slot3"),
                    code: data.inventory_slot3,
                    quantity: data.inventory_slot3_quantity,
                });
                slots.push(InventorySlot {
                    name: String::from_str("inventory_slot4"),
                    code: data.inventory_slot4,
                    quantity: data.inventory_slot4_quantity,
                });
                slots.push(InventorySlot {
                    name: String::from_str("inventory_slot5"),
                    code: data.inventory_slot5,
                    quantity: data.inventory_slot5_quantity,
                });
                slots.push(InventorySlot {
                    name: String::from_str("inventory_slot6"),
                    code: data.inventory_slot6,
                    quantity: data.inventory_slot6_quantity,
                });
                slots.push(InventorySlot {
                    name: String::from_str("inventory_slot7"),
                    code: data.inventory_slot7,
                    quantity: data.inventory_slot7_quantity,
                });
                slots.push(InventorySlot {
                    name: String::from_str("inventory_slot8"),
                    code: data.inventory_slot8,
                    quantity: data.inventory_slot8_quantity,
                });
                slots.push(InventorySlot {
                    name: String::from_str("inventory_slot9"),
                    code: data.inventory_slot9,
                    quantity: data.inventory_slot9_quantity,
                });
                slots.push(InventorySlot {
                    name: String::from_str("inventory_slot10"),
                    code: data.inventory_slot10,
                    quantity: data.inventory_slot10_quantity,
                });
                slots.push(InventorySlot {
                    name: String::from_str("inventory_slot11"),
                    code: data.inventory_slot11,
                    quantity: data.inventory_slot11_quantity,
                });
                slots.push(InventorySlot {
                    name: String::from_str("inventory_slot12"),
                    code: data.inventory_slot12,
                    quantity: data.inventory_slot12_quantity,
                });
                slots.push(InventorySlot {
                    name: String::from_str("inventory_slot13"),
                    code: data.inventory_slot13,
                    quantity: data.inventory_slot13_quantity,
                });
                slots.push(InventorySlot {
                    name: String::from_str("inventory_slot14"),
                    code: data.inventory_slot14,
                    quantity: data.inventory_slot14_quantity,
                });
                slots.push(InventorySlot {
                    name: String::from_str("inventory_slot15"),
                    code: data.inventory_slot15,
                    quantity: data.inventory_slot15_quantity,
                });
                slots.push(InventorySlot {
                    name: String::from_str("inventory_slot16"),
                    code: data.inventory_slot16,
                    quantity: data.inventory_slot16_quantity,
                });
                slots.push(InventorySlot {
                    name: String::from_str("inventory_slot17"),
                    code: data.inventory_slot17,
                    quantity: data.inventory_slot17_quantity,
                });
                slots.push(InventorySlot {
                    name: String::from_str("inventory_slot18"),
                    code: data.inventory_slot18,
                    quantity: data.inventory_slot18_quantity,
                });
                slots.push(InventorySlot {
                    name: String::from_str("inventory_slot19"),
                    code: data.inventory_slot19,
                    quantity: data.inventory_slot19_quantity,
                });
                slots.push(InventorySlot {
                    name: String::from_str("inventory_slot20"),
                    code: data.inventory_slot20,
                    quantity: data.inventory_slot20_quantity,
                });
                proof {
                    assert(slots.deep_view() =~= response::spec_inventory_slots(gdata));
                }
                Ok((max_items, slots))
            }
            APIResponse { data: None, error: Some(e) } => Err(read_error(e)),
            _ => Err(Error::InvalidAPIResponse),
        }
    }
}

/// How an error payload on the non-queued read path is classified: the
/// cooldown-rejection code keeps its distinguished class; every other
/// code — the no-op code included, since a read cannot succeed without a
/// payload — is a remote failure carried verbatim.
pub open spec fn spec_read_error(e: ErrorData) -> Error {
    if e.code == 499 {
        Error::Cooldown
    } else {
        Error::APIError(e)
    }
}

/// Classify an error payload on the read path.
fn read_error(e: ErrorData) -> (r: Error)
    ensures
        r == spec_read_error(e),
{
    if e.code == 499 {
        Error::Cooldown
    } else {
        Error::APIError(e)
    }
}

} // verus!
