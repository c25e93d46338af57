use action_engine::action_queue::ActionQueue;
use action_engine::request::{ActionRequest, HttpMethod};

fn request_labelled(description: &str) -> ActionRequest {
    ActionRequest {
        method: HttpMethod::Post,
        url: String::from("https://api.artifactsmmo.com/my/alice/action/fight"),
        token: String::from("token"),
        body: None,
        description: String::from(description),
    }
}

#[test]
fn pop_on_empty_queue_returns_none() {
    let mut q = ActionQueue::new();
    assert!(q.pop().is_none());
}

#[test]
fn queue_hands_one_item_through() {
    let mut q = ActionQueue::new();
    assert!(q.push(request_labelled("first")));
    let out = q.pop().expect("slot held an item");
    assert_eq!(out.description, "first");
    assert!(q.pop().is_none());
}

#[test]
fn queue_rejects_second_push_while_full() {
    let mut q = ActionQueue::new();
    assert!(q.push(request_labelled("first")));
    assert!(!q.push(request_labelled("second")));
    let out = q.pop().expect("slot held an item");
    assert_eq!(out.description, "first");
    assert!(q.push(request_labelled("second")));
    let out2 = q.pop().expect("slot held an item");
    assert_eq!(out2.description, "second");
}

#[test]
fn queue_is_fifo_over_many_submissions() {
    let mut q = ActionQueue::new();
    let labels: Vec<String> = (0..50).map(|i| format!("action {}", i)).collect();
    for label in &labels {
        assert!(q.push(request_labelled(label)));
        let out = q.pop().expect("slot held an item");
        assert_eq!(&out.description, label);
    }
    assert!(q.pop().is_none());
}

#[test]
fn queues_of_different_characters_are_independent() {
    let mut q1 = ActionQueue::new();
    let mut q2 = ActionQueue::new();
    assert!(q1.push(request_labelled("for the first character")));
    // The first queue being full does not block the second.
    assert!(q2.push(request_labelled("for the second character")));
    assert_eq!(q2.pop().expect("item").description, "for the second character");
    assert_eq!(q1.pop().expect("item").description, "for the first character");
}
