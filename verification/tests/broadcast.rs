use sdk::broadcast::{pause, Medium, Node, Reception, TransmitError, POLL};

/// The next frame `node` reads without waiting.
fn next(node: &Node<u8>, medium: &mut Medium<u8>) -> Option<u8> {
    match node.receive(medium, 0, 0) {
        Reception::Done(frame) => frame,
        Reception::Wait => panic!("no time was left to wait"),
    }
}

#[test]
fn every_other_node_hears_a_frame_and_the_sender_does_not() {
    let mut medium = Medium::new("can0");
    let (a, b, c) = (medium.node(), medium.node(), medium.node());
    a.transmit(&mut medium, &1u8).expect("heard");
    assert_eq!(next(&a, &mut medium), None, "not its own");
    assert_eq!(next(&b, &mut medium), Some(1));
    assert_eq!(next(&c, &mut medium), Some(1), "no race");
    assert_eq!(b.name(), "can0");
}

#[test]
fn a_frame_nobody_hears_is_not_acknowledged() {
    let mut medium = Medium::new("can0");
    let alone = medium.node();
    let refused = alone.transmit(&mut medium, &7u8).expect_err("nobody there");
    assert!(refused.retryable(), "{}", refused.message());
    assert_eq!(refused, TransmitError::Unheard);
    let other = medium.node();
    alone.transmit(&mut medium, &7u8).expect("heard now");
    assert_eq!(next(&other, &mut medium), Some(7));
}

#[test]
fn a_lost_frame_is_heard_by_nobody_and_the_sender_is_told() {
    let mut medium = Medium::new("air");
    let (a, b) = (medium.node(), medium.node());
    medium.lose_every(2);
    a.transmit(&mut medium, &1u8).expect("first carried");
    assert!(a.transmit(&mut medium, &2u8).expect_err("second lost").retryable());
    a.transmit(&mut medium, &3u8).expect("third carried");
    assert_eq!(next(&b, &mut medium), Some(1));
    assert_eq!(next(&b, &mut medium), Some(3));
    assert_eq!(next(&b, &mut medium), None);
}

#[test]
fn a_reader_waits_for_a_frame_sent_while_it_waits() {
    let mut medium = Medium::new("can0");
    let (a, b) = (medium.node(), medium.node());
    let (sent_at, timeout) = (20_000_000u128, 2_000_000_000u128);
    let mut clock = 0u128;
    let mut sent = false;
    let waited = loop {
        if clock >= sent_at && !sent {
            a.transmit(&mut medium, &9u8).expect("sent");
            sent = true;
        }
        match b.receive(&mut medium, clock, timeout) {
            Reception::Done(frame) => break frame,
            Reception::Wait => clock += u128::from(pause(clock, timeout)),
        }
    };
    assert_eq!(waited, Some(9));
    assert_eq!(clock, sent_at);
}

#[test]
fn a_reader_gives_up_exactly_when_its_time_is_up() {
    let mut medium: Medium<u8> = Medium::new("can0");
    let alone = medium.node();
    let timeout = 2_500_000u128;
    let mut clock = 0u128;
    let mut looks = 0;
    let waited = loop {
        looks += 1;
        match alone.receive(&mut medium, clock, timeout) {
            Reception::Done(frame) => break frame,
            Reception::Wait => clock += u128::from(pause(clock, timeout)),
        }
    };
    assert_eq!(waited, None);
    assert_eq!((clock, looks), (timeout, 4));
}

#[test]
fn a_reader_is_told_to_look_again_until_its_time_is_up() {
    let mut medium = Medium::new("can0");
    let (a, b) = (medium.node(), medium.node());
    assert_eq!(b.receive(&mut medium, 0, 100), Reception::Wait);
    assert_eq!(b.receive(&mut medium, 99, 100), Reception::Wait);
    assert_eq!(b.receive(&mut medium, 100, 100), Reception::Done(None));
    a.transmit(&mut medium, &5u8).expect("heard");
    assert_eq!(b.receive(&mut medium, 101, 100), Reception::Done(Some(5)));
    assert_eq!(b.receive(&mut medium, 101, 100), Reception::Done(None));
}

#[test]
fn a_pause_is_a_poll_or_what_is_left() {
    assert_eq!(POLL, 1_000_000);
    assert_eq!(pause(0, 5_000_000), 1_000_000);
    assert_eq!(pause(4_000_000, 5_000_000), 1_000_000);
    assert_eq!(pause(4_999_990, 5_000_000), 10);
    assert_eq!(pause(5_000_000, 5_000_000), 0);
    assert_eq!(pause(6_000_000, 5_000_000), 0);
    assert_eq!(pause(0, u128::MAX), 1_000_000);
}

#[test]
fn frames_are_read_in_the_order_they_were_sent() {
    let mut medium = Medium::new("can0");
    let (a, b, c) = (medium.node(), medium.node(), medium.node());
    a.transmit(&mut medium, &1u8).expect("heard");
    b.transmit(&mut medium, &2u8).expect("heard");
    a.transmit(&mut medium, &3u8).expect("heard");
    assert_eq!(next(&c, &mut medium), Some(1));
    assert_eq!(next(&a, &mut medium), Some(2));
    assert_eq!(next(&c, &mut medium), Some(2));
    assert_eq!(next(&b, &mut medium), Some(1));
    assert_eq!(next(&b, &mut medium), Some(3));
    assert_eq!(next(&c, &mut medium), Some(3));
    assert_eq!(next(&a, &mut medium), None);
    assert_eq!(next(&b, &mut medium), None);
    assert_eq!(next(&c, &mut medium), None);
}

#[test]
fn a_newcomer_hears_nothing_sent_before_it_joined() {
    let mut medium = Medium::new("air");
    let (a, b) = (medium.node(), medium.node());
    a.transmit(&mut medium, &1u8).expect("heard");
    let late = medium.node();
    assert_eq!(next(&late, &mut medium), None);
    a.transmit(&mut medium, &2u8).expect("heard");
    assert_eq!(next(&late, &mut medium), Some(2));
    assert_eq!(next(&b, &mut medium), Some(1));
    assert_eq!(next(&b, &mut medium), Some(2));
}

#[test]
fn one_frame_in_three_is_lost_and_its_retry_carried() {
    let mut medium = Medium::new("air");
    let (a, b) = (medium.node(), medium.node());
    a.transmit(&mut medium, &0u8).expect("nothing is lost unless asked");
    medium.lose_every(3);
    let told: Vec<bool> = (1..=9u8)
        .map(|frame| a.transmit(&mut medium, &frame).is_ok())
        .collect();
    assert_eq!(
        told,
        vec![true, false, true, true, false, true, true, false, true]
    );
    assert_eq!(medium.carried(), 10);
    let mut heard = Vec::new();
    while let Some(frame) = next(&b, &mut medium) {
        heard.push(frame);
    }
    assert_eq!(heard, vec![0, 1, 3, 4, 6, 7, 9]);
}

#[test]
fn losing_every_zeroth_frame_loses_every_frame() {
    let mut medium = Medium::new("air");
    let (a, b) = (medium.node(), medium.node());
    medium.lose_every(0);
    assert_eq!(a.transmit(&mut medium, &1u8), Err(TransmitError::Lost));
    medium.lose_every(1);
    assert_eq!(a.transmit(&mut medium, &2u8), Err(TransmitError::Lost));
    assert_eq!(next(&b, &mut medium), None);
}

#[test]
fn a_loss_is_told_before_nobody_is_there() {
    let mut medium = Medium::new("air");
    let alone = medium.node();
    medium.lose_every(2);
    assert_eq!(alone.transmit(&mut medium, &1u8), Err(TransmitError::Unheard));
    assert_eq!(alone.transmit(&mut medium, &1u8), Err(TransmitError::Lost));
    assert_eq!(medium.carried(), 2);
}

#[test]
fn the_sender_is_told_why() {
    assert_eq!(
        TransmitError::Lost.message(),
        "the frame was lost on the medium"
    );
    assert_eq!(
        TransmitError::Unheard.message(),
        "no other node acknowledged the frame"
    );
    assert!(TransmitError::Lost.retryable());
    assert!(TransmitError::Unheard.retryable());
}

#[test]
fn a_frame_of_any_type_is_copied_to_each_listener() {
    let mut medium = Medium::new("segment");
    let (a, b, c) = (medium.node(), medium.node(), medium.node());
    let frame = String::from("hello");
    a.transmit(&mut medium, &frame).expect("heard");
    assert_eq!(
        b.receive(&mut medium, 0, 0),
        Reception::Done(Some(frame.clone()))
    );
    assert_eq!(c.receive(&mut medium, 0, 0), Reception::Done(Some(frame)));
}
