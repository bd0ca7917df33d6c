use handoff::blocking_channel;
use handoff::flag_channel;
use handoff::oneshot_channel;
use handoff::progress::ChannelError;
use handoff::shared_channel;

#[test]
fn channel_test() {
    let mut channel = oneshot_channel::Channel::new();
    assert!(!channel.is_ready());
    assert_eq!(channel.send("hello, world"), Ok(()));
    assert!(channel.is_ready());
    assert_eq!(channel.receive(), Ok("hello, world"));
}

#[test]
fn borrow() {
    let mut channel = blocking_channel::Channel::new();
    let (sender, receiver) = channel.split();
    sender.send(&mut channel, "hello world!");
    assert!(receiver.is_ready(&channel));
    assert_eq!(receiver.receive(&mut channel), "hello world!");
}

#[test]
fn sender_receiver() {
    let (mut state, tx, rx) = shared_channel::channel();
    tx.send(&mut state, "hello, world");
    assert!(rx.is_ready(&state));
    assert_eq!(rx.receive(&mut state), Ok("hello, world"));
}

#[test]
fn double_send_is_refused() {
    let mut channel = oneshot_channel::Channel::new();
    assert_eq!(channel.send(1u64), Ok(()));
    assert_eq!(channel.send(2u64), Err(ChannelError::ProtocolViolation));
    // The first value is unaffected by the refused second send.
    assert_eq!(channel.receive(), Ok(1u64));
}

#[test]
fn send_after_consumption_is_refused() {
    let mut channel = oneshot_channel::Channel::new();
    assert_eq!(channel.send(5i32), Ok(()));
    assert_eq!(channel.receive(), Ok(5i32));
    assert_eq!(channel.send(6i32), Err(ChannelError::ProtocolViolation));
}

#[test]
fn premature_receive_is_refused() {
    let mut channel = oneshot_channel::Channel::<String>::new();
    assert_eq!(channel.receive(), Err(ChannelError::NotReady));
    // The refused receive left the channel usable: the one send still works.
    assert_eq!(channel.send(String::from("later")), Ok(()));
    assert_eq!(channel.receive(), Ok(String::from("later")));
}

#[test]
fn double_receive_is_refused() {
    let mut channel = oneshot_channel::Channel::new();
    assert_eq!(channel.send(42u8), Ok(()));
    assert_eq!(channel.receive(), Ok(42u8));
    assert_eq!(channel.receive(), Err(ChannelError::NotReady));
}

#[test]
fn is_ready_tracks_the_lifecycle() {
    let mut channel = oneshot_channel::Channel::new();
    assert!(!channel.is_ready());
    assert_eq!(channel.send(true), Ok(()));
    assert!(channel.is_ready());
    assert_eq!(channel.receive(), Ok(true));
    assert!(!channel.is_ready());
}

#[test]
fn flag_channel_roundtrip() {
    let mut channel = flag_channel::Channel::new();
    channel.send(300u16);
    assert_eq!(channel.receive(), Ok(300u16));
    assert_eq!(channel.receive(), Err(ChannelError::NotReady));
}

#[test]
fn flag_channel_premature_receive_is_refused() {
    let mut channel = flag_channel::Channel::<u16>::new();
    assert_eq!(channel.receive(), Err(ChannelError::NotReady));
}

#[test]
fn shared_channel_premature_receive_is_refused() {
    let (mut state, tx, rx) = shared_channel::channel();
    assert!(!rx.is_ready(&state));
    assert_eq!(rx.receive(&mut state), Err(ChannelError::NotReady));
    // The refused receive changed nothing: the send and receive still work.
    tx.send(&mut state, 7u32);
    assert_eq!(rx.receive(&mut state), Ok(7u32));
    assert_eq!(rx.receive(&mut state), Err(ChannelError::NotReady));
}

#[test]
fn delivery_preserves_prior_writes() {
    // The received value carries every field written before the send.
    let mut message: Vec<u64> = Vec::new();
    for i in 0..64u64 {
        message.push(i * i);
    }
    let mut channel = oneshot_channel::Channel::new();
    assert_eq!(channel.send(message), Ok(()));
    let got = channel.receive().unwrap();
    assert_eq!(got.len(), 64);
    for (i, x) in got.iter().enumerate() {
        assert_eq!(*x, (i as u64) * (i as u64));
    }
}
