use ublox_cellular::network::AtTx;

struct AtClient {
    n_urcs_dequeued: u8,
}

fn peek_unhandled(tx: &mut AtTx<AtClient>, dequeued: &mut u8) {
    let handled = (|_: u8| false)(0);
    if tx.handle_urc(handled) {
        *dequeued += 1;
    }
}

#[test]
fn unhandled_urcs() {
    let mut tx = AtTx::new(AtClient { n_urcs_dequeued: 0 }, 5);
    let mut n_urcs_dequeued = tx.client().n_urcs_dequeued;

    peek_unhandled(&mut tx, &mut n_urcs_dequeued);
    assert_eq!(n_urcs_dequeued, 0);
    peek_unhandled(&mut tx, &mut n_urcs_dequeued);
    peek_unhandled(&mut tx, &mut n_urcs_dequeued);
    peek_unhandled(&mut tx, &mut n_urcs_dequeued);
    peek_unhandled(&mut tx, &mut n_urcs_dequeued);
    peek_unhandled(&mut tx, &mut n_urcs_dequeued);
    assert_eq!(n_urcs_dequeued, 1);
    peek_unhandled(&mut tx, &mut n_urcs_dequeued);
    assert_eq!(n_urcs_dequeued, 1);
}

#[test]
fn handled_urc_is_taken_at_once() {
    let mut tx = AtTx::new(AtClient { n_urcs_dequeued: 0 }, 5);
    assert!(!tx.handle_urc(false));
    assert!(tx.handle_urc(true));
    assert!(!tx.handle_urc(false));
}
