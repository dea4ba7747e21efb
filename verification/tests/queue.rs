use bridge_daemon::message::Message;
use bridge_daemon::queue::Queue;

fn info(text: &str) -> Message {
    Message::Info { message: text.into() }
}

/// Hands the pending messages to the attached client, as a connection that
/// takes every message would.
fn drain(queue: &mut Queue<Vec<Message>>) {
    while let Some(message) = queue.take_next() {
        queue.client_mut().unwrap().push(message);
    }
}

#[test]
fn a_new_queue_is_empty_and_has_no_client() {
    let mut queue: Queue<u8> = Queue::new();
    assert!(!queue.has_client());
    assert_eq!(queue.len(), 0);
    assert_eq!(queue.take_next(), None);
    assert!(queue.client_mut().is_none());
}

#[test]
fn nothing_is_taken_while_no_client_is_attached() {
    let mut queue: Queue<u8> = Queue::new();
    queue.send(info("A"));
    queue.send(info("B"));
    assert_eq!(queue.take_next(), None);
    assert_eq!(queue.len(), 2);
}

#[test]
fn a_client_gets_the_messages_in_the_order_they_were_sent() {
    let mut queue: Queue<Vec<Message>> = Queue::new();

    // enqueue A, B with no client attached
    queue.send(info("A"));
    queue.send(info("B"));
    assert!(!queue.has_client());

    // attach a client: it receives A then B
    queue.set_client(Some(Vec::new()));
    assert!(queue.has_client());
    drain(&mut queue);
    assert_eq!(queue.client_mut().unwrap().clone(), vec![info("A"), info("B")]);
    assert_eq!(queue.len(), 0);

    // detach, enqueue C
    queue.set_client(None);
    assert!(!queue.has_client());
    queue.send(info("C"));

    // a second client receives C only
    queue.set_client(Some(Vec::new()));
    drain(&mut queue);
    assert_eq!(queue.client_mut().unwrap().clone(), vec![info("C")]);
    assert_eq!(queue.take_next(), None);
}

#[test]
fn a_message_sent_while_a_client_is_attached_follows_the_pending_ones() {
    let mut queue: Queue<Vec<Message>> = Queue::new();
    queue.send(info("A"));
    queue.set_client(Some(Vec::new()));
    queue.send(info("B"));
    drain(&mut queue);
    queue.send(info("C"));
    drain(&mut queue);
    assert_eq!(
        queue.client_mut().unwrap().clone(),
        vec![info("A"), info("B"), info("C")]
    );
}

#[test]
fn a_message_that_was_not_delivered_is_the_first_for_the_next_client() {
    let mut queue: Queue<Vec<Message>> = Queue::new();
    queue.send(info("A"));
    queue.send(info("B"));
    queue.send(info("C"));
    queue.set_client(Some(Vec::new()));

    // A is delivered, B is not
    let first = queue.take_next().unwrap();
    queue.client_mut().unwrap().push(first);
    let second = queue.take_next().unwrap();
    assert_eq!(second, info("B"));
    queue.requeue(second);

    // the client is gone, B and C wait
    assert!(!queue.has_client());
    assert!(queue.client_mut().is_none());
    assert_eq!(queue.len(), 2);
    assert_eq!(queue.take_next(), None);

    // a message sent in between comes after them
    queue.send(info("D"));
    queue.set_client(Some(Vec::new()));
    drain(&mut queue);
    assert_eq!(
        queue.client_mut().unwrap().clone(),
        vec![info("B"), info("C"), info("D")]
    );
}

#[test]
fn attaching_replaces_the_client_and_keeps_the_messages() {
    let mut queue: Queue<u8> = Queue::new();
    queue.send(info("A"));
    queue.set_client(Some(1));
    queue.set_client(Some(2));
    assert_eq!(queue.client_mut().copied(), Some(2));
    assert_eq!(queue.len(), 1);
    assert_eq!(queue.take_next(), Some(info("A")));
}
