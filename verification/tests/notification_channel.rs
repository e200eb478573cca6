use servo::channel::{create_compositor_channel, SendError};
use servo::root::CompositorMsg;

#[test]
fn cloned_senders_deliver_exactly_one_event_each() {
    let (p0, mut chan) = create_compositor_channel::<CompositorMsg>(42);
    let p1 = chan.clone_compositor_proxy(&p0);
    let p2 = chan.clone_compositor_proxy(&p0);
    let p3 = chan.clone_compositor_proxy(&p1);

    assert_ne!(p0.sender_id(), p1.sender_id());
    assert_ne!(p1.sender_id(), p2.sender_id());
    assert_ne!(p2.sender_id(), p3.sender_id());
    assert_eq!(p3.waker_id(), 42);

    assert!(chan.send(&p0, CompositorMsg::NewFrameReady).is_ok());
    assert!(chan.send(&p1, CompositorMsg::Recomposite).is_ok());
    assert!(chan.send(&p2, CompositorMsg::NewFrameReady).is_ok());
    assert!(chan.send(&p3, CompositorMsg::ShutdownComplete).is_ok());

    // one send per clone: exactly four events queued, one wake each
    assert_eq!(chan.pending(), 4);
    assert_eq!(chan.wakeups(), 4);

    // each event arrives intact
    assert_eq!(chan.recv(), CompositorMsg::NewFrameReady);
    assert_eq!(chan.recv(), CompositorMsg::Recomposite);
    assert_eq!(chan.recv(), CompositorMsg::NewFrameReady);
    assert_eq!(chan.recv(), CompositorMsg::ShutdownComplete);
    assert_eq!(chan.pending(), 0);
}

#[test]
fn per_sender_fifo_order_is_kept() {
    let (p0, mut chan) = create_compositor_channel::<u64>(1);
    let p1 = chan.clone_compositor_proxy(&p0);

    // p0 sends 10, 20, 30; p1's sends are interleaved between them
    assert!(chan.send(&p0, 10).is_ok());
    assert!(chan.send(&p1, 100).is_ok());
    assert!(chan.send(&p0, 20).is_ok());
    assert!(chan.send(&p1, 200).is_ok());
    assert!(chan.send(&p0, 30).is_ok());

    let mut from_p0: Vec<u64> = Vec::new();
    let mut from_p1: Vec<u64> = Vec::new();
    while chan.pending() > 0 {
        let v = chan.recv();
        if v < 100 {
            from_p0.push(v);
        } else {
            from_p1.push(v);
        }
    }
    assert_eq!(from_p0, vec![10, 20, 30]);
    assert_eq!(from_p1, vec![100, 200]);
}

#[test]
fn send_to_dropped_receiver_is_nonfatal() {
    let (p0, mut chan) = create_compositor_channel::<u64>(9);
    assert!(chan.send(&p0, 5).is_ok());
    chan.close_receiver();
    assert!(!chan.is_receiver_live());
    assert_eq!(chan.pending(), 0);

    // delivery failure is reported, not fatal, and nothing is queued
    assert_eq!(chan.send(&p0, 6), Err(SendError::ReceiverDropped));
    assert_eq!(chan.pending(), 0);
    assert_eq!(chan.wakeups(), 1);
}

#[test]
fn every_send_invokes_the_waker() {
    let (p0, mut chan) = create_compositor_channel::<u64>(7);
    assert_eq!(chan.wakeups(), 0);
    assert!(chan.send(&p0, 1).is_ok());
    assert!(chan.send(&p0, 2).is_ok());
    assert_eq!(chan.wakeups(), 2);
    // receiving does not wake anyone
    let _ = chan.recv();
    assert_eq!(chan.wakeups(), 2);
}
