use wreq_proto::error::{Cause, Error, Kind, Reason};
use wreq_proto::shared::{Active, Admission, Shared, Wakes};

type X = &'static str;

/// An admission counts the exchange before it releases its reservation;
/// the idle check must see it in every state, open or shut. A permit the
/// semaphore assigned to a waiter that has not run yet must not count.
#[test]
fn admission_stays_visible_between_its_count_and_its_reservation() {
    let mut shared = Shared::<X>::new(1, false);
    shared.count_reserved();
    shared.drain();
    assert!(!shared.is_idle());
    assert!(shared.take_permit());
    shared.count_active();
    assert!(!shared.is_idle());
    shared.uncount_reserved();
    assert!(!shared.is_idle());
    shared.put_permit();
    shared.uncount_active();
    assert!(shared.is_idle());
    // A shutdown skips a request still waiting for admission, even one
    // the semaphore already assigned a permit to.
    shared.count_reserved();
    assert!(shared.take_permit());
    shared.shutdown();
    assert!(shared.is_idle());
}

#[test]
fn new_connection_is_open_and_idle() {
    let shared = Shared::<X>::new(3, true);
    assert!(!shared.is_closed());
    assert!(!shared.admission_closed());
    assert!(shared.is_idle());
    assert!(shared.has_datagrams());
    assert!(!shared.settings_ready());
    assert_eq!(shared.peer_extended_connect(), None);
    assert_eq!(shared.senders(), 1);
    assert_eq!((shared.reserved(), shared.active()), (0, 0));
    assert_eq!(shared.error().kind, Kind::Canceled);
}

#[test]
fn drain_wakes_once() {
    let mut shared = Shared::<X>::new(1, false);
    assert!(shared.drain());
    assert!(!shared.drain());
    assert!(shared.is_closed());
    assert!(!shared.admission_closed());
}

#[test]
fn shutdown_after_drain_still_wakes_those_who_wait() {
    let mut shared = Shared::<X>::new(1, false);
    shared.drain();
    let wakes = shared.shutdown();
    assert_eq!(wakes, Wakes { driver: true, waiting: true, datagrams: false });
    assert!(shared.settings_ready() && shared.admission_closed());
    let again = shared.shutdown();
    assert_eq!(again, Wakes { driver: false, waiting: false, datagrams: false });
}

#[test]
fn limit_caps_admission() {
    let mut shared = Shared::<X>::new(2, false);
    let mut admitted = Vec::new();
    for _ in 0..3 {
        let reservation = Active::reserve(&mut shared);
        match reservation.seek_admission(&mut shared) {
            Admission::Admitted(active) => admitted.push(active),
            Admission::Waiting(waiting) => {
                assert_eq!(admitted.len(), 2);
                assert_eq!(shared.active(), 2);
                assert_eq!(shared.reserved(), 1);
                let wakes = shared.release(admitted.pop().unwrap());
                assert_eq!(wakes, Wakes { driver: false, waiting: true, datagrams: false });
                assert!(!waiting.is_admitted());
                match waiting.seek_admission(&mut shared) {
                    Admission::Admitted(active) => assert!(active.is_admitted()),
                    _ => panic!("a permit came back"),
                }
            }
            Admission::Refused(..) => panic!("admission is open"),
        }
    }
    assert_eq!(shared.active(), 2);
    assert_eq!(shared.reserved(), 0);
}

#[test]
fn huge_limits_are_capped() {
    let mut shared = Shared::<X>::new(usize::MAX, false);
    let reservation = Active::reserve(&mut shared);
    assert!(matches!(
        reservation.seek_admission(&mut shared),
        Admission::Admitted(_)
    ));
}

#[test]
fn closed_admission_returns_requests() {
    let mut shared = Shared::<X>::new(1, false);
    let reservation = Active::reserve(&mut shared);
    shared.shutdown();
    match reservation.seek_admission(&mut shared) {
        Admission::Refused(error, wakes) => {
            assert_eq!(error.kind, Kind::Canceled);
            assert!(matches!(error.cause, Some(Cause::Reason(Reason::ConnectionClosed))));
            assert!(wakes.driver);
        }
        _ => panic!("expected a refusal"),
    }
    assert_eq!(shared.reserved(), 0);
}

#[test]
fn first_published_error_stays() {
    let mut shared = Shared::<X>::new(1, true);
    let wakes = shared.terminate(Error::new_outside(Kind::Http3, "first"));
    assert_eq!(wakes, Wakes { driver: true, waiting: true, datagrams: true });
    shared.terminate(Error::new_outside(Kind::Http3, "second"));
    shared.shutdown();
    let later = shared.error_or(Error::new_outside(Kind::Http3, "stream"));
    for error in [shared.error(), later] {
        assert_eq!(error.kind, Kind::Http3);
        let published = error.published.unwrap();
        assert!(matches!(published.cause, Some(Cause::Outside("first"))));
    }
}

#[test]
fn stream_error_is_kept_without_a_published_one() {
    let shared = Shared::<X>::new(1, false);
    let error = shared.error_or(Error::new_outside(Kind::Http3, "stream"));
    assert!(error.published.is_none());
    assert!(matches!(error.cause, Some(Cause::Outside("stream"))));
}

#[test]
fn first_settings_stay() {
    let mut shared = Shared::<X>::new(1, false);
    assert!(shared.settle(true));
    assert!(!shared.settle(false));
    assert_eq!(shared.peer_extended_connect(), Some(true));
    assert!(shared.settings_ready());
}

#[test]
fn last_handle_starts_draining_and_cancels_nothing() {
    let mut shared = Shared::<X>::new(1, false);
    shared.add_sender();
    let reservation = Active::reserve(&mut shared);
    assert!(!shared.drop_sender());
    assert!(!shared.is_closed());
    assert!(shared.drop_sender());
    assert!(shared.is_closed());
    assert!(!shared.is_idle());
    assert!(matches!(
        reservation.seek_admission(&mut shared),
        Admission::Admitted(_)
    ));
}

#[test]
fn releasing_wakes_a_draining_driver() {
    let mut shared = Shared::<X>::new(1, false);
    let reservation = Active::reserve(&mut shared);
    shared.drain();
    assert!(!shared.is_idle());
    let wakes = shared.release(reservation);
    assert_eq!(wakes, Wakes { driver: true, waiting: false, datagrams: false });
    assert!(shared.is_idle());
}

fn waits(admission: Admission<X>) -> Active {
    match admission {
        Admission::Waiting(active) => active,
        _ => panic!("expected to wait"),
    }
}

fn enters(admission: Admission<X>) -> Active {
    match admission {
        Admission::Admitted(active) => active,
        _ => panic!("expected admission"),
    }
}

/// One is admitted, another waits; a third that asks after the first is
/// released does not overtake the second.
#[test]
fn returned_permit_goes_to_the_request_that_waited_longest() {
    let mut shared = Shared::<X>::new(1, false);
    let first = enters(Active::reserve(&mut shared).seek_admission(&mut shared));
    let second = waits(Active::reserve(&mut shared).seek_admission(&mut shared));
    assert_eq!(shared.next_ticket(), 1);
    let wakes = shared.release(first);
    assert!(wakes.waiting);
    let third = waits(Active::reserve(&mut shared).seek_admission(&mut shared));
    assert!(!shared.take_permit());
    // Asking again changes nothing of the order.
    let third = waits(third.seek_admission(&mut shared));
    assert_eq!(shared.next_ticket(), 2);
    let second = enters(second.seek_admission(&mut shared));
    let third = waits(third.seek_admission(&mut shared));
    shared.release(second);
    enters(third.seek_admission(&mut shared));
    assert_eq!((shared.reserved(), shared.active()), (0, 1));
}

#[test]
fn permits_that_several_wait_for_may_be_taken_in_any_order() {
    let mut shared = Shared::<X>::new(2, false);
    let one = enters(Active::reserve(&mut shared).seek_admission(&mut shared));
    let two = enters(Active::reserve(&mut shared).seek_admission(&mut shared));
    let three = waits(Active::reserve(&mut shared).seek_admission(&mut shared));
    let four = waits(Active::reserve(&mut shared).seek_admission(&mut shared));
    shared.release(one);
    shared.release(two);
    let late = waits(Active::reserve(&mut shared).seek_admission(&mut shared));
    enters(four.seek_admission(&mut shared));
    enters(three.seek_admission(&mut shared));
    waits(late.seek_admission(&mut shared));
}

#[test]
fn place_that_is_given_up_passes_to_the_next() {
    let mut shared = Shared::<X>::new(1, false);
    let first = enters(Active::reserve(&mut shared).seek_admission(&mut shared));
    let second = waits(Active::reserve(&mut shared).seek_admission(&mut shared));
    let third = waits(Active::reserve(&mut shared).seek_admission(&mut shared));
    shared.release(first);
    let third = waits(third.seek_admission(&mut shared));
    let wakes = shared.release(second);
    assert_eq!(wakes, Wakes { driver: false, waiting: true, datagrams: false });
    enters(third.seek_admission(&mut shared));
    assert_eq!(shared.reserved(), 0);
}

#[test]
fn closed_admission_returns_those_who_wait() {
    let mut shared = Shared::<X>::new(1, false);
    let first = enters(Active::reserve(&mut shared).seek_admission(&mut shared));
    let second = waits(Active::reserve(&mut shared).seek_admission(&mut shared));
    shared.release(first);
    shared.shutdown();
    assert!(shared.is_idle());
    assert!(matches!(
        second.seek_admission(&mut shared),
        Admission::Refused(..)
    ));
    assert_eq!(shared.reserved(), 0);
}

/// Others come and go; the exchange that is not given up keeps the connection
/// from being idle.
#[test]
fn exchange_stays_counted_while_others_come_and_go() {
    let mut shared = Shared::<X>::new(3, false);
    let kept = enters(Active::reserve(&mut shared).seek_admission(&mut shared));
    let other = enters(Active::reserve(&mut shared).seek_admission(&mut shared));
    let third = enters(Active::reserve(&mut shared).seek_admission(&mut shared));
    let waiting = waits(Active::reserve(&mut shared).seek_admission(&mut shared));
    assert_eq!(shared.active(), 3);
    shared.release(other);
    let fourth = enters(waiting.seek_admission(&mut shared));
    shared.settle(true);
    shared.release(third);
    shared.drain();
    shared.release(fourth);
    shared.shutdown();
    shared.terminate(Error::new(Kind::Closed));
    assert_eq!(shared.active(), 1);
    assert!(!shared.is_idle());
    shared.release(kept);
    assert!(shared.is_idle());
}

#[test]
fn admission_conserves_permits() {
    let mut shared = Shared::<X>::new(1, false);
    let created = Active::reserve(&mut shared);
    assert_eq!((shared.reserved(), shared.active()), (1, 0));
    let admitted = enters(created.seek_admission(&mut shared));
    assert_eq!((shared.reserved(), shared.active()), (0, 1));
    assert!(!shared.take_permit());
    let waiting = waits(Active::reserve(&mut shared).seek_admission(&mut shared));
    assert_eq!((shared.reserved(), shared.active()), (1, 1));
    shared.release(waiting);
    shared.release(admitted);
    assert_eq!((shared.reserved(), shared.active()), (0, 0));
    assert!(shared.take_permit() && !shared.take_permit());
}
