use ublox_cellular::broadcast::{Broadcast, SubscribeError};
use ublox_cellular::command::{Functionality, GPRSNetworkRegistrationStat, SocketProtocol};
use ublox_cellular::error::Error;
use ublox_cellular::ip::IpAddress;
use ublox_cellular::network::{context_active, finish_activating, ProfileState};
use ublox_cellular::command::ContextId;
use ublox_cellular::state::{LinkState, OperationState, Shared, MAX_STATE_LISTENERS};
use ublox_cellular::urc::{DataConnectionActivated, SocketClosed, StatusConnection, Urc};
use ublox_cellular::socket::PeerHandle;

#[test]
fn subscribers_see_messages_in_order_and_skip_dropped_ones() {
    let mut ch: Broadcast<u32> = Broadcast::new(2, 2);
    let a = ch.subscribe().unwrap();
    let b = ch.subscribe().unwrap();
    assert_eq!(ch.subscribe(), Err(SubscribeError::MaximumSubscribersReached));
    assert!(!ch.publish(10));
    let k = ch.try_next(a).unwrap();
    assert_eq!(*ch.message(k), 10);
    assert!(!ch.publish(11));
    assert!(ch.publish(12));
    let mut seen_a = Vec::new();
    while let Some(k) = ch.try_next(a) {
        seen_a.push(*ch.message(k));
    }
    assert_eq!(seen_a, vec![11, 12]);
    let mut seen_b = Vec::new();
    while let Some(k) = ch.try_next(b) {
        seen_b.push(*ch.message(k));
    }
    assert_eq!(seen_b, vec![11, 12]);
    assert_eq!(ch.try_next(a), None);
}

#[test]
fn setting_the_same_desired_state_is_published_again() {
    let mut shared = Shared::new();
    let sub = shared.subscribe_desired().unwrap();
    shared.set_desired_state(OperationState::Alive);
    assert_eq!(shared.next_desired(sub), Some(OperationState::Alive));
    shared.set_desired_state(OperationState::Alive);
    assert_eq!(shared.next_desired(sub), Some(OperationState::Alive));
    assert_eq!(shared.next_desired(sub), None);
}

#[test]
fn desired_state_listeners_are_bounded() {
    let mut shared = Shared::new();
    for _ in 0..MAX_STATE_LISTENERS {
        assert!(shared.subscribe_desired().is_ok());
    }
    assert_eq!(shared.subscribe_desired(), Err(Error::SubscriberOverflow));
}

#[test]
fn call_status_sets_the_link_state() {
    let mut shared = Shared::new();
    assert_eq!(shared.link_state(), None);
    let up = Urc::DataConnectionActivated(DataConnectionActivated {
        sc: StatusConnection::Connected(IpAddress::V4(10, 0, 0, 2)),
    });
    shared.handle_urc(&up);
    assert_eq!(shared.link_state(), Some(LinkState::Up));
    let closed = Urc::SocketClosed(SocketClosed { id: PeerHandle(1), num_or_type: None, close_type: None });
    shared.handle_urc(&closed);
    assert_eq!(shared.link_state(), Some(LinkState::Up));
    let down = Urc::DataConnectionActivated(DataConnectionActivated { sc: StatusConnection::Disconnect });
    shared.handle_urc(&down);
    assert_eq!(shared.link_state(), Some(LinkState::Down));
    let busy = Urc::DataConnectionActivated(DataConnectionActivated { sc: StatusConnection::Busy });
    shared.handle_urc(&busy);
    assert_eq!(shared.link_state(), None);
}

#[test]
fn registration_status_that_allows_packet_data() {
    assert!(GPRSNetworkRegistrationStat::Registered.is_registered());
    assert!(GPRSNetworkRegistrationStat::RegisteredRoaming.is_registered());
    assert!(!GPRSNetworkRegistrationStat::NotRegisteredSearching.is_registered());
    assert!(!GPRSNetworkRegistrationStat::RegistrationDenied.is_registered());
    assert_eq!(GPRSNetworkRegistrationStat::AttachedEmergencyOnly.code(), 8);
}

#[test]
fn wire_codes() {
    assert_eq!(Functionality::SilentReset.code(), 15);
    assert_eq!(Functionality::Full.code(), 1);
    assert_eq!(SocketProtocol::UDP.code(), 17);
}

#[test]
fn profile_states() {
    assert!(context_active(&ProfileState::Active(ContextId(1)), ContextId(1)));
    assert!(!context_active(&ProfileState::Active(ContextId(1)), ContextId(2)));
    assert!(!context_active(&ProfileState::Deactivated, ContextId(1)));
    assert_eq!(finish_activating(&ProfileState::Activating(ContextId(3))), Some(ProfileState::Active(ContextId(3))));
    assert_eq!(finish_activating(&ProfileState::Unknown), None);
}
