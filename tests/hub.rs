use tokio::sync::broadcast::{self, error::TryRecvError};
use tuio_simulator::hub::{on_delivery, Delivery, PeerAction, BROADCAST_CAPACITY};

fn next(rx: &mut broadcast::Receiver<Vec<u8>>) -> (PeerAction, Option<Vec<u8>>, u64) {
    match rx.try_recv() {
        Ok(frame) => (on_delivery(Delivery::Frame), Some(frame), 0),
        Err(TryRecvError::Lagged(n)) => (on_delivery(Delivery::Lagged(n)), None, n),
        Err(TryRecvError::Closed) => (on_delivery(Delivery::Closed), None, 0),
        Err(TryRecvError::Empty) => (PeerAction::Continue, None, 0),
    }
}

#[test]
fn slow_client_lags_and_resumes_while_others_miss_nothing() {
    let (tx, _) = broadcast::channel::<Vec<u8>>(BROADCAST_CAPACITY);
    let mut slow = tx.subscribe();
    let mut fast = tx.subscribe();
    // the channel may round its capacity up; three times over lags in any case
    let total = 3 * BROADCAST_CAPACITY as u32;
    let mut fast_seen = Vec::new();
    for i in 0..total {
        tx.send(i.to_be_bytes().to_vec()).unwrap();
        let (action, frame, _) = next(&mut fast);
        assert_eq!(action, PeerAction::Send);
        fast_seen.push(frame.unwrap());
    }
    assert_eq!(fast_seen.len(), total as usize);

    let (action, frame, dropped) = next(&mut slow);
    assert_eq!(action, PeerAction::Continue);
    assert!(frame.is_none());
    assert!(dropped > 0);
    let (action, frame, _) = next(&mut slow);
    assert_eq!(action, PeerAction::Send);
    assert_eq!(frame.unwrap(), (dropped as u32).to_be_bytes().to_vec());
    let mut last = None;
    while let (PeerAction::Send, Some(frame), _) = next(&mut slow) {
        last = Some(frame);
    }
    assert_eq!(last.unwrap(), (total - 1).to_be_bytes().to_vec());
}

#[test]
fn closed_hub_ends_the_peer() {
    let (tx, mut rx) = broadcast::channel::<Vec<u8>>(BROADCAST_CAPACITY);
    drop(tx);
    assert_eq!(next(&mut rx).0, PeerAction::Terminate);
}

#[test]
fn publishing_without_subscribers_is_harmless() {
    let (tx, rx) = broadcast::channel::<Vec<u8>>(BROADCAST_CAPACITY);
    drop(rx);
    assert!(tx.send(vec![1, 2, 3]).is_err());
}
