use embedded_svc::ipv4::{IpInfo, Ipv4Addr, Mask, Subnet};
use modem::error::{ModemError, ModemPPPError};
use modem::handle::ModemHandle;
use modem::status::{
    map_ppp_event, IpEvent, ModemPhaseStatus, ModemState, PppEvent, SharedStatus,
};
use modem::time::{Duration, Timestamp};

fn addresses() -> IpInfo {
    IpInfo {
        ip: Ipv4Addr::new(10, 0, 0, 2),
        subnet: Subnet { gateway: Ipv4Addr::new(10, 0, 0, 1), mask: Mask(24) },
        dns: None,
        secondary_dns: None,
    }
}

fn handle() -> ModemHandle {
    ModemHandle { shared: SharedStatus::new() }
}

#[test]
fn every_ppp_event_is_mapped() {
    let errors = [
        (PppEvent::ParameterError, ModemPPPError::Parameter),
        (PppEvent::OpenError, ModemPPPError::Open),
        (PppEvent::DeviceError, ModemPPPError::Device),
        (PppEvent::AllocError, ModemPPPError::Alloc),
        (PppEvent::UserError, ModemPPPError::User),
        (PppEvent::DisconnectError, ModemPPPError::Disconnect),
        (PppEvent::AuthFailError, ModemPPPError::AuthFail),
        (PppEvent::ProtocolError, ModemPPPError::Protocol),
        (PppEvent::PeerDeadError, ModemPPPError::PeerDead),
        (PppEvent::IdleTimeoutError, ModemPPPError::IdleTimeout),
        (PppEvent::MaxConnectTimeoutError, ModemPPPError::MaxConnectTimeout),
        (PppEvent::LoopbackError, ModemPPPError::Loopback),
    ];
    for (event, error) in errors {
        assert_eq!(map_ppp_event(event), (None, Some(error)));
    }
    let phases = [
        (PppEvent::PhaseDead, ModemPhaseStatus::Dead),
        (PppEvent::PhaseMaster, ModemPhaseStatus::Master),
        (PppEvent::PhaseHoldoff, ModemPhaseStatus::Holdoff),
        (PppEvent::PhaseInitialize, ModemPhaseStatus::Initialize),
        (PppEvent::PhaseSerialConnection, ModemPhaseStatus::SerialConnection),
        (PppEvent::PhaseDormant, ModemPhaseStatus::Dormant),
        (PppEvent::PhaseEstablish, ModemPhaseStatus::Establish),
        (PppEvent::PhaseAuthenticate, ModemPhaseStatus::Authenticate),
        (PppEvent::PhaseCallback, ModemPhaseStatus::Callback),
        (PppEvent::PhaseNetwork, ModemPhaseStatus::Network),
        (PppEvent::PhaseRunning, ModemPhaseStatus::Running),
        (PppEvent::PhaseTerminate, ModemPhaseStatus::Terminate),
        (PppEvent::PhaseDisconnect, ModemPhaseStatus::Disconnect),
        (PppEvent::PhaseFailed, ModemPhaseStatus::Failed),
    ];
    for (event, phase) in phases {
        assert_eq!(map_ppp_event(event), (Some(phase), None));
    }
    assert_eq!(map_ppp_event(PppEvent::NoError), (None, None));
}

#[test]
fn a_new_handle_shows_a_stopped_modem() {
    let status = handle().status();
    assert_eq!(status.state, ModemState::Stopped);
    assert_eq!(status.phase, ModemPhaseStatus::Dead);
    assert!(status.ip_info.is_none());
    assert!(status.last_error.is_none());
}

#[test]
fn addresses_come_and_go_with_the_connection() {
    let mut handle = handle();
    handle.shared.on_ppp_event(PppEvent::PeerDeadError);
    handle.shared.on_ip_event(false, IpEvent::DhcpIpAssigned(addresses()));
    assert_eq!(handle.status().state, ModemState::Stopped);
    handle.shared.on_ip_event(true, IpEvent::DhcpIpAssigned(addresses()));
    let status = handle.status();
    assert_eq!(status.state, ModemState::Connected);
    assert_eq!(status.ip_info, Some(addresses()));
    assert!(status.last_error.is_none());
    handle.shared.on_ip_event(true, IpEvent::Other);
    assert_eq!(handle.status().ip_info, Some(addresses()));
    handle.shared.set_state(ModemState::Connected, None);
    assert_eq!(handle.status().ip_info, Some(addresses()));
    handle.shared.on_ip_event(true, IpEvent::DhcpIpDeassigned);
    assert_eq!(handle.status().state, ModemState::Recovering);
    assert!(handle.status().ip_info.is_none());

    handle.shared.on_ip_event(true, IpEvent::DhcpIpAssigned(addresses()));
    handle.shared.set_state(ModemState::Stopping, None);
    assert!(handle.status().ip_info.is_none());
}

#[test]
fn lost_addresses_do_not_undo_a_requested_stop() {
    let mut handle = handle();
    handle.shared.on_ip_event(true, IpEvent::DhcpIpAssigned(addresses()));
    handle.request_stop();
    assert!(handle.shared.stop);
    handle.shared.on_ip_event(true, IpEvent::DhcpIpDeassigned);
    assert_eq!(handle.status().state, ModemState::Connected);
    assert!(handle.status().ip_info.is_none());
}

#[test]
fn ppp_errors_are_noted_for_the_runner_and_the_user() {
    let mut shared = SharedStatus::new();
    shared.on_ppp_event(PppEvent::PhaseRunning);
    assert_eq!(shared.status.phase, ModemPhaseStatus::Running);
    shared.on_ppp_event(PppEvent::UserError);
    assert_eq!(shared.ppp_error, Some(ModemPPPError::User));
    assert!(matches!(shared.status.last_error, Some(ModemError::Ppp(ModemPPPError::User))));

    let mut shared = SharedStatus::new();
    shared.stop = true;
    shared.on_ppp_event(PppEvent::UserError);
    assert_eq!(shared.ppp_error, Some(ModemPPPError::User));
    assert!(shared.status.last_error.is_none());
    shared.on_ppp_event(PppEvent::DisconnectError);
    assert_eq!(shared.ppp_error, Some(ModemPPPError::Disconnect));
    assert!(matches!(
        shared.status.last_error,
        Some(ModemError::Ppp(ModemPPPError::Disconnect))
    ));
}

#[test]
fn a_wait_ends_with_the_connection_the_failure_or_the_time() {
    let left = Duration::from_secs(1);
    let none = Duration::from_nanos(0);
    let mut handle = handle();
    assert!(handle.wait_connected(left, false).is_none());
    assert!(matches!(
        handle.wait_connected(none, false),
        Some(Err(ModemError::Timeout("waiting for a PPP address")))
    ));
    assert!(matches!(
        handle.wait_connected(left, true),
        Some(Err(ModemError::Timeout("waiting for a PPP address")))
    ));

    handle.shared.set_state(ModemState::Failed, None);
    assert!(matches!(
        handle.wait_connected(left, false),
        Some(Err(ModemError::ConnectionLost))
    ));
    handle.shared.set_state(ModemState::Failed, Some(ModemError::SimPinRequired));
    assert!(matches!(
        handle.wait_connected(none, false),
        Some(Err(ModemError::SimPinRequired))
    ));
    assert!(matches!(
        handle.wait_connected(none, true),
        Some(Err(ModemError::Timeout(_)))
    ));

    handle.shared.on_ip_event(true, IpEvent::DhcpIpAssigned(addresses()));
    for (left, timed_out) in [(left, false), (none, false), (none, true)] {
        match handle.wait_connected(left, timed_out) {
            Some(Ok(status)) => assert_eq!(status.ip_info, Some(addresses())),
            other => panic!("{:?}", other),
        }
    }
}

#[test]
fn moments_and_spans() {
    let start = Timestamp { nanos: 5 };
    assert_eq!(start.after(Duration::from_nanos(7)), Timestamp { nanos: 12 });
    let last = Timestamp { nanos: u128::MAX };
    assert_eq!(last.after(Duration::from_secs(1)), last);
    assert!(last.reached(start));
    assert!(start.reached(start));
    assert!(!start.reached(last));
    assert_eq!(Timestamp { nanos: 12 }.since(start), Duration::from_nanos(7));
    assert_eq!(start.since(Timestamp { nanos: 12 }), Duration::from_nanos(0));
    assert_eq!(Duration::from_millis(1999).as_millis(), 1999);
    assert_eq!(Duration::from_nanos(1_999_999).as_millis(), 1);
    assert_eq!(Duration::from_secs(2).min(Duration::from_secs(1)), Duration::from_secs(1));
}
