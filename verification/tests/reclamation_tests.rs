use std::cell::Cell;
use std::rc::Rc;

use handoff::blocking_channel;
use handoff::oneshot_channel;
use handoff::shared_channel;

/// A value whose cleanup is observable: dropping it bumps the shared count.
struct Token {
    drops: Rc<Cell<u32>>,
}

impl Drop for Token {
    fn drop(&mut self) {
        self.drops.set(self.drops.get() + 1);
    }
}

#[test]
fn abandoned_value_is_dropped_exactly_once() {
    let drops = Rc::new(Cell::new(0));
    {
        let mut channel = oneshot_channel::Channel::new();
        assert_eq!(channel.send(Token { drops: drops.clone() }).is_ok(), true);
        assert_eq!(drops.get(), 0);
        // The value is never received: destroying the channel must run its
        // cleanup exactly once.
    }
    assert_eq!(drops.get(), 1);
}

#[test]
fn received_value_is_not_dropped_by_the_channel() {
    let drops = Rc::new(Cell::new(0));
    let mut channel = oneshot_channel::Channel::new();
    assert!(channel.send(Token { drops: drops.clone() }).is_ok());
    let value = match channel.receive() {
        Ok(v) => v,
        Err(_) => panic!("a sent value must be received"),
    };
    drop(channel);
    assert_eq!(drops.get(), 0);
    drop(value);
    assert_eq!(drops.get(), 1);
}

#[test]
fn untouched_channel_runs_no_cleanup() {
    let drops = Rc::new(Cell::new(0));
    let channel = oneshot_channel::Channel::<Token>::new();
    drop(channel);
    // Nothing was ever written: no value exists whose cleanup could run.
    assert_eq!(drops.get(), 0);
}

#[test]
fn split_reclaims_an_abandoned_value() {
    let drops = Rc::new(Cell::new(0));
    let mut channel = blocking_channel::Channel::new();
    let (sender, _receiver) = channel.split();
    sender.send(&mut channel, Token { drops: drops.clone() });
    assert_eq!(drops.get(), 0);
    // Splitting again resets the channel; the abandoned value of the first
    // round is reclaimed exactly once.
    let (_sender2, _receiver2) = channel.split();
    assert_eq!(drops.get(), 1);
    drop(channel);
    assert_eq!(drops.get(), 1);
}

#[test]
fn shared_channel_reclaims_an_abandoned_value() {
    let drops = Rc::new(Cell::new(0));
    {
        let (mut state, tx, _rx) = shared_channel::channel();
        tx.send(&mut state, Token { drops: drops.clone() });
        assert_eq!(drops.get(), 0);
    }
    assert_eq!(drops.get(), 1);
}
