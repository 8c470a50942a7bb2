use rust_atomics::channel::{channel, Channel, Phase, ProtocolViolation};
use std::cell::Cell;
use std::rc::Rc;

struct DetectDrop(Rc<Cell<usize>>);

impl Drop for DetectDrop {
    fn drop(&mut self) {
        self.0.set(self.0.get() + 1);
    }
}

#[test]
fn hello_world_is_handed_over() {
    let mut channel = Channel::<&str>::new();
    assert!(!channel.is_ready());
    assert_eq!(channel.send("hello world!"), Ok(()));
    assert!(channel.is_ready());
    let chan_msg = channel.receive();
    assert_eq!(chan_msg, Ok("hello world!"));
    assert!(!channel.is_ready());
}

#[test]
fn second_send_is_a_protocol_violation() {
    let mut channel = Channel::<&str>::new();
    assert_eq!(channel.send("hello world!"), Ok(()));
    assert_eq!(channel.send("again"), Err(ProtocolViolation::AlreadySent));
    // the first message is the one that waits
    assert_eq!(channel.receive(), Ok("hello world!"));
    // and the channel stays used up
    assert_eq!(channel.send("again"), Err(ProtocolViolation::AlreadySent));
    assert!(!channel.is_ready());
}

#[test]
fn receive_before_send_is_a_protocol_violation() {
    let mut channel = Channel::<String>::new();
    assert_eq!(channel.receive(), Err(ProtocolViolation::NoMessage));
    assert_eq!(channel.send(String::from("late")), Ok(()));
    assert_eq!(channel.receive(), Ok(String::from("late")));
}

#[test]
fn second_receive_is_a_protocol_violation() {
    let mut channel = Channel::<u8>::new();
    assert_eq!(channel.send(9), Ok(()));
    assert_eq!(channel.receive(), Ok(9));
    assert_eq!(channel.receive(), Err(ProtocolViolation::NoMessage));
}

#[test]
fn is_ready_does_not_consume() {
    let mut channel = Channel::<u8>::new();
    assert_eq!(channel.send(1), Ok(()));
    assert!(channel.is_ready());
    assert!(channel.is_ready());
    assert_eq!(channel.receive(), Ok(1));
}

#[test]
fn split_hands_out_both_ends() {
    let mut channel = Channel::<&str>::new();
    let (sender, receiver) = channel.split();
    assert!(!receiver.is_ready(&channel));
    assert_eq!(sender.send(&mut channel, "hello world!"), Ok(()));
    assert!(receiver.is_ready(&channel));
    let chan_msg = receiver.receive(&mut channel);
    assert_eq!(chan_msg, Ok("hello world!"));
    assert_eq!(receiver.receive(&mut channel), Err(ProtocolViolation::NoMessage));
}

#[test]
fn split_starts_the_channel_over() {
    let mut channel = Channel::<u32>::new();
    assert_eq!(channel.send(1), Ok(()));
    let (sender, receiver) = channel.split();
    // the message of the old generation is gone, and so is its claim
    assert!(!receiver.is_ready(&channel));
    assert_eq!(receiver.receive(&mut channel), Err(ProtocolViolation::NoMessage));
    assert_eq!(sender.send(&mut channel, 2), Ok(()));
    assert_eq!(receiver.receive(&mut channel), Ok(2));
    let (sender, receiver) = channel.split();
    assert_eq!(sender.send(&mut channel, 3), Ok(()));
    assert_eq!(receiver.receive(&mut channel), Ok(3));
}

#[test]
fn channel_function_gives_a_fresh_channel() {
    let (mut shared, sender, receiver) = channel::<&str>();
    assert!(!receiver.is_ready(&shared));
    assert_eq!(sender.send(&mut shared, "hello world!"), Ok(()));
    assert_eq!(receiver.receive(&mut shared), Ok("hello world!"));
}

#[test]
fn a_message_left_waiting_is_destroyed_with_the_channel() {
    let drops = Rc::new(Cell::new(0));
    let mut channel = Channel::new();
    assert!(channel.send(DetectDrop(drops.clone())).is_ok());
    assert_eq!(drops.get(), 0);
    drop(channel);
    assert_eq!(drops.get(), 1);

    let mut channel = Channel::new();
    assert!(channel.send(DetectDrop(drops.clone())).is_ok());
    let message = channel.receive();
    drop(channel);
    assert_eq!(drops.get(), 1);
    drop(message);
    assert_eq!(drops.get(), 2);
}

#[test]
fn violations_say_what_went_wrong() {
    assert_eq!(ProtocolViolation::AlreadySent.message(), "can't send more than one message");
    assert_eq!(ProtocolViolation::NoMessage.message(), "no message available!");
}

#[test]
fn the_channel_goes_through_its_phases_once() {
    let mut channel = Channel::<i16>::new();
    assert_eq!(channel.phase(), Phase::Empty);
    assert_eq!(channel.receive(), Err(ProtocolViolation::NoMessage));
    assert_eq!(channel.phase(), Phase::Empty);
    assert_eq!(channel.send(-1), Ok(()));
    assert_eq!(channel.phase(), Phase::Occupied);
    assert_eq!(channel.send(-2), Err(ProtocolViolation::AlreadySent));
    assert_eq!(channel.phase(), Phase::Occupied);
    assert_eq!(channel.receive(), Ok(-1));
    assert_eq!(channel.phase(), Phase::Consumed);
    assert_eq!(channel.send(-3), Err(ProtocolViolation::AlreadySent));
    assert_eq!(channel.phase(), Phase::Consumed);
    let _ends = channel.split();
    assert_eq!(channel.phase(), Phase::Empty);
}
