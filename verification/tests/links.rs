use zenoh_flow::link::{link, Delivery, LinkTable, SendStatus, DEFAULT_LINK_CAPACITY};
use zenoh_flow::message::{ControlMessage, Message};
use zenoh_flow::types::ZFError;

fn data(byte: u8) -> Message {
    Message::from_data(vec![byte], byte as u64)
}

#[test]
fn link_delivers_in_order() {
    let mut table = LinkTable::new();
    let (tx, rx) = link(&mut table, None, String::from("out"), String::from("in"));
    for i in 0..5u8 {
        assert_eq!(table.send(&tx, data(i)), Ok(SendStatus::Sent));
    }
    for i in 0..5u8 {
        assert_eq!(table.recv(&rx), Ok(Some((String::from("in"), data(i)))));
    }
    assert_eq!(table.recv(&rx), Ok(None));
}

#[test]
fn link_interleaves_sends_and_receives() {
    let mut table = LinkTable::new();
    let (tx, rx) = link(&mut table, Some(2), String::from("out"), String::from("in"));
    let mut received = Vec::new();
    for i in 0..20u8 {
        assert_eq!(table.send(&tx, data(i)), Ok(SendStatus::Sent));
        if i % 2 == 1 {
            while let Ok(Some((_, m))) = table.recv(&rx) {
                received.push(m);
            }
        }
    }
    let expected: Vec<Message> = (0..20u8).map(data).collect();
    assert_eq!(received, expected);
}

#[test]
fn link_default_capacity_is_sixteen() {
    assert_eq!(DEFAULT_LINK_CAPACITY, 16);
    let mut table = LinkTable::new();
    let (tx, _rx) = link(&mut table, None, String::from("out"), String::from("in"));
    for i in 0..16u8 {
        assert_eq!(table.send(&tx, data(i)), Ok(SendStatus::Sent));
    }
    assert_eq!(table.send(&tx, data(16)), Ok(SendStatus::Full(data(16))));
}

#[test]
fn a_full_link_takes_messages_again_once_drained() {
    let mut table = LinkTable::new();
    let (tx, rx) = link(&mut table, Some(1), String::from("out"), String::from("in"));
    assert_eq!(table.send(&tx, data(1)), Ok(SendStatus::Sent));
    assert_eq!(table.send(&tx, data(2)), Ok(SendStatus::Full(data(2))));
    assert_eq!(table.recv(&rx), Ok(Some((String::from("in"), data(1)))));
    assert_eq!(table.send(&tx, data(2)), Ok(SendStatus::Sent));
}

#[test]
fn a_link_of_capacity_zero_is_always_full() {
    let mut table = LinkTable::new();
    let (tx, rx) = link(&mut table, Some(0), String::from("out"), String::from("in"));
    assert_eq!(table.send(&tx, data(1)), Ok(SendStatus::Full(data(1))));
    assert_eq!(table.recv(&rx), Ok(None));
}

#[test]
fn send_fails_once_receiver_is_gone() {
    let mut table = LinkTable::new();
    let (tx, rx) = link(&mut table, Some(2), String::from("out"), String::from("in"));
    table.close_receiver(rx);
    assert_eq!(table.send(&tx, data(1)), Err(ZFError::LinkClosed));
}

#[test]
fn recv_drains_before_it_fails() {
    let mut table = LinkTable::new();
    let (tx, rx) = link(&mut table, None, String::from("out"), String::from("in"));
    table.send(&tx, data(1)).unwrap();
    table.send(&tx, Message::Control(ControlMessage::RecorderStop)).unwrap();
    table.close_sender(tx);
    assert_eq!(table.recv(&rx), Ok(Some((String::from("in"), data(1)))));
    assert_eq!(
        table.recv(&rx),
        Ok(Some((String::from("in"), Message::Control(ControlMessage::RecorderStop))))
    );
    assert_eq!(table.recv(&rx), Err(ZFError::LinkClosed));
}

#[test]
fn recv_after_the_receiver_was_closed_fails() {
    let mut table = LinkTable::new();
    let (tx, rx) = link(&mut table, None, String::from("out"), String::from("in"));
    table.send(&tx, data(1)).unwrap();
    table.close_receiver(rx.clone());
    assert_eq!(table.recv(&rx), Err(ZFError::LinkClosed));
}

#[test]
fn endpoints_of_another_table_are_closed() {
    let mut big = LinkTable::new();
    let _ = link(&mut big, None, String::from("a"), String::from("a"));
    let (tx, rx) = link(&mut big, None, String::from("b"), String::from("b"));
    let mut small = LinkTable::new();
    assert_eq!(small.send(&tx, data(1)), Err(ZFError::LinkClosed));
    assert_eq!(small.recv(&rx), Err(ZFError::LinkClosed));
    small.close_sender(tx);
    small.close_receiver(rx);
    assert_eq!(small.len(), 0);
}

#[test]
fn endpoints_carry_their_port() {
    let mut table = LinkTable::new();
    let (tx, rx) = link(&mut table, None, String::from("output"), String::from("input"));
    assert_eq!(tx.id(), "output");
    assert_eq!(rx.id(), "input");
    assert_eq!(tx.clone(), tx);
    assert_eq!(rx.clone(), rx);
}

#[test]
fn deliver_stops_at_a_full_link_and_resumes() {
    let mut table = LinkTable::new();
    let (wide, wide_rx) = link(&mut table, Some(4), String::from("out"), String::from("a"));
    let (narrow, narrow_rx) = link(&mut table, Some(1), String::from("out"), String::from("b"));
    let deliveries = vec![
        Delivery { sender: wide.clone(), message: data(1) },
        Delivery { sender: narrow.clone(), message: data(1) },
        Delivery { sender: wide.clone(), message: data(2) },
        Delivery { sender: narrow.clone(), message: data(2) },
    ];
    // The second message for the narrow link has to wait.
    assert_eq!(table.deliver(&deliveries, 0), Ok(3));
    assert_eq!(table.deliver(&deliveries, 3), Ok(3));
    assert_eq!(table.recv(&narrow_rx), Ok(Some((String::from("b"), data(1)))));
    assert_eq!(table.deliver(&deliveries, 3), Ok(4));
    assert_eq!(table.deliver(&deliveries, 4), Ok(4));
    assert_eq!(table.deliver(&deliveries, 9), Ok(9));
    assert_eq!(table.recv(&wide_rx), Ok(Some((String::from("a"), data(1)))));
    assert_eq!(table.recv(&wide_rx), Ok(Some((String::from("a"), data(2)))));
    assert_eq!(table.recv(&wide_rx), Ok(None));
    assert_eq!(table.recv(&narrow_rx), Ok(Some((String::from("b"), data(2)))));
}

#[test]
fn deliver_fails_at_a_closed_link() {
    let mut table = LinkTable::new();
    let (open, open_rx) = link(&mut table, None, String::from("out"), String::from("a"));
    let (closed, closed_rx) = link(&mut table, None, String::from("out"), String::from("b"));
    table.close_receiver(closed_rx);
    let deliveries = vec![
        Delivery { sender: open.clone(), message: data(1) },
        Delivery { sender: closed, message: data(1) },
        Delivery { sender: open, message: data(2) },
    ];
    assert_eq!(table.deliver(&deliveries, 0), Err(ZFError::LinkClosed));
    assert_eq!(table.recv(&open_rx), Ok(Some((String::from("a"), data(1)))));
    assert_eq!(table.recv(&open_rx), Ok(None));
}
