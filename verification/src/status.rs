//! What is known of a modem at a moment, and how news from the network stack changes it.
use crate::error::{ErrorModel, ModemError, ModemPPPError};
use embedded_svc::ipv4::IpInfo;
use vstd::prelude::*;

verus! {

/// The addresses that a PPP link was given. They are carried from the network stack to whoever
/// asks for the status; nothing here looks into them.
#[verifier::external_type_specification]
#[verifier::external_body]
pub struct ExIpInfo(embedded_svc::ipv4::IpInfo);

/// What a modem is doing.
#[derive(Clone, Copy, Debug, PartialEq, Eq, Structural)]
pub enum ModemState {
    Initializing,
    Registering,
    Dialing,
    NegotiatingPpp,
    Connected,
    Recovering,
    Stopping,
    Stopped,
    Failed,
}

/// The phase that the PPP stack is in.
#[derive(Clone, Copy, Debug, PartialEq, Eq, Structural)]
pub enum ModemPhaseStatus {
    Dead,
    Master,
    Holdoff,
    Initialize,
    SerialConnection,
    Dormant,
    Establish,
    Authenticate,
    Callback,
    Network,
    Running,
    Terminate,
    Disconnect,
    Failed,
}

/// An event of the PPP stack.
#[derive(Clone, Copy, Debug, PartialEq, Eq, Structural)]
pub enum PppEvent {
    NoError,
    ParameterError,
    OpenError,
    DeviceError,
    AllocError,
    UserError,
    DisconnectError,
    AuthFailError,
    ProtocolError,
    PeerDeadError,
    IdleTimeoutError,
    MaxConnectTimeoutError,
    LoopbackError,
    PhaseDead,
    PhaseMaster,
    PhaseHoldoff,
    PhaseInitialize,
    PhaseSerialConnection,
    PhaseDormant,
    PhaseEstablish,
    PhaseAuthenticate,
    PhaseCallback,
    PhaseNetwork,
    PhaseRunning,
    PhaseTerminate,
    PhaseDisconnect,
    PhaseFailed,
}

/// The phase that an event announces.
pub open spec fn announced_phase(event: PppEvent) -> Option<ModemPhaseStatus> {
    match event {
        PppEvent::PhaseDead => Some(ModemPhaseStatus::Dead),
        PppEvent::PhaseMaster => Some(ModemPhaseStatus::Master),
        PppEvent::PhaseHoldoff => Some(ModemPhaseStatus::Holdoff),
        PppEvent::PhaseInitialize => Some(ModemPhaseStatus::Initialize),
        PppEvent::PhaseSerialConnection => Some(ModemPhaseStatus::SerialConnection),
        PppEvent::PhaseDormant => Some(ModemPhaseStatus::Dormant),
        PppEvent::PhaseEstablish => Some(ModemPhaseStatus::Establish),
        PppEvent::PhaseAuthenticate => Some(ModemPhaseStatus::Authenticate),
        PppEvent::PhaseCallback => Some(ModemPhaseStatus::Callback),
        PppEvent::PhaseNetwork => Some(ModemPhaseStatus::Network),
        PppEvent::PhaseRunning => Some(ModemPhaseStatus::Running),
        PppEvent::PhaseTerminate => Some(ModemPhaseStatus::Terminate),
        PppEvent::PhaseDisconnect => Some(ModemPhaseStatus::Disconnect),
        PppEvent::PhaseFailed => Some(ModemPhaseStatus::Failed),
        _ => None,
    }
}

/// The error that an event reports.
pub open spec fn reported_error(event: PppEvent) -> Option<ModemPPPError> {
    match event {
        PppEvent::ParameterError => Some(ModemPPPError::Parameter),
        PppEvent::OpenError => Some(ModemPPPError::Open),
        PppEvent::DeviceError => Some(ModemPPPError::Device),
        PppEvent::AllocError => Some(ModemPPPError::Alloc),
        PppEvent::UserError => Some(ModemPPPError::User),
        PppEvent::DisconnectError => Some(ModemPPPError::Disconnect),
        PppEvent::AuthFailError => Some(ModemPPPError::AuthFail),
        PppEvent::ProtocolError => Some(ModemPPPError::Protocol),
        PppEvent::PeerDeadError => Some(ModemPPPError::PeerDead),
        PppEvent::IdleTimeoutError => Some(ModemPPPError::IdleTimeout),
        PppEvent::MaxConnectTimeoutError => Some(ModemPPPError::MaxConnectTimeout),
        PppEvent::LoopbackError => Some(ModemPPPError::Loopback),
        _ => None,
    }
}

/// The phase that an event announces and the error that it reports.
pub fn map_ppp_event(event: PppEvent) -> (news: (Option<ModemPhaseStatus>, Option<ModemPPPError>))
    ensures
        news.0 == announced_phase(event),
        news.1 == reported_error(event),
{
    match event {
        PppEvent::NoError => (None, None),
        PppEvent::ParameterError => (None, Some(ModemPPPError::Parameter)),
        PppEvent::OpenError => (None, Some(ModemPPPError::Open)),
        PppEvent::DeviceError => (None, Some(ModemPPPError::Device)),
        PppEvent::AllocError => (None, Some(ModemPPPError::Alloc)),
        PppEvent::UserError => (None, Some(ModemPPPError::User)),
        PppEvent::DisconnectError => (None, Some(ModemPPPError::Disconnect)),
        PppEvent::AuthFailError => (None, Some(ModemPPPError::AuthFail)),
        PppEvent::ProtocolError => (None, Some(ModemPPPError::Protocol)),
        PppEvent::PeerDeadError => (None, Some(ModemPPPError::PeerDead)),
        PppEvent::IdleTimeoutError => (None, Some(ModemPPPError::IdleTimeout)),
        PppEvent::MaxConnectTimeoutError => (None, Some(ModemPPPError::MaxConnectTimeout)),
        PppEvent::LoopbackError => (None, Some(ModemPPPError::Loopback)),
        PppEvent::PhaseDead => (Some(ModemPhaseStatus::Dead), None),
        PppEvent::PhaseMaster => (Some(ModemPhaseStatus::Master), None),
        PppEvent::PhaseHoldoff => (Some(ModemPhaseStatus::Holdoff), None),
        PppEvent::PhaseInitialize => (Some(ModemPhaseStatus::Initialize), None),
        PppEvent::PhaseSerialConnection => (Some(ModemPhaseStatus::SerialConnection), None),
        PppEvent::PhaseDormant => (Some(ModemPhaseStatus::Dormant), None),
        PppEvent::PhaseEstablish => (Some(ModemPhaseStatus::Establish), None),
        PppEvent::PhaseAuthenticate => (Some(ModemPhaseStatus::Authenticate), None),
        PppEvent::PhaseCallback => (Some(ModemPhaseStatus::Callback), None),
        PppEvent::PhaseNetwork => (Some(ModemPhaseStatus::Network), None),
        PppEvent::PhaseRunning => (Some(ModemPhaseStatus::Running), None),
        PppEvent::PhaseTerminate => (Some(ModemPhaseStatus::Terminate), None),
        PppEvent::PhaseDisconnect => (Some(ModemPhaseStatus::Disconnect), None),
        PppEvent::PhaseFailed => (Some(ModemPhaseStatus::Failed), None),
    }
}

/// An event of the interface to the network.
pub enum IpEvent {
    /// The interface was given addresses.
    DhcpIpAssigned(IpInfo),
    /// The interface lost its addresses.
    DhcpIpDeassigned,
    /// Anything else.
    Other,
}

/// What a modem is doing, how far its PPP link is, which addresses it has and what went wrong
/// last.
#[derive(Debug)]
pub struct ModemStatus {
    pub state: ModemState,
    pub phase: ModemPhaseStatus,
    pub ip_info: Option<IpInfo>,
    pub last_error: Option<ModemError>,
}

/// A [`ModemStatus`] as the contracts speak of it.
pub struct StatusModel {
    pub state: ModemState,
    pub phase: ModemPhaseStatus,
    pub ip_info: Option<IpInfo>,
    pub last_error: Option<ErrorModel>,
}

/// An error that may be there, as the contracts speak of it.
pub open spec fn error_view(error: Option<ModemError>) -> Option<ErrorModel> {
    match error {
        Some(error) => Some(error@),
        None => None,
    }
}

impl View for ModemStatus {
    type V = StatusModel;

    open spec fn view(&self) -> StatusModel {
        StatusModel {
            state: self.state,
            phase: self.phase,
            ip_info: self.ip_info,
            last_error: error_view(self.last_error),
        }
    }
}

/// A copy of an error that may be there.
pub fn copy_error(error: &Option<ModemError>) -> (copy: Option<ModemError>)
    ensures
        error_view(copy) == error_view(*error),
{
    match error {
        Some(error) => Some(error.clone()),
        None => None,
    }
}

impl Clone for ModemStatus {
    fn clone(&self) -> (copy: ModemStatus)
        ensures
            copy@ == self@,
    {
        ModemStatus {
            state: self.state,
            phase: self.phase,
            ip_info: self.ip_info,
            last_error: copy_error(&self.last_error),
        }
    }
}

/// What a modem's runner, its handles and the network stack share: the status, whether a stop was
/// asked for, and the PPP error that the runner has not dealt with yet.
#[derive(Debug)]
pub struct SharedStatus {
    pub status: ModemStatus,
    pub stop: bool,
    pub ppp_error: Option<ModemPPPError>,
}

/// A [`SharedStatus`] as the contracts speak of it.
pub struct SharedModel {
    pub status: StatusModel,
    pub stop: bool,
    pub ppp_error: Option<ModemPPPError>,
}

impl View for SharedStatus {
    type V = SharedModel;

    open spec fn view(&self) -> SharedModel {
        SharedModel { status: self.status@, stop: self.stop, ppp_error: self.ppp_error }
    }
}

/// What is shared before a modem was first run.
pub open spec fn initial_shared() -> SharedModel {
    SharedModel {
        status: StatusModel {
            state: ModemState::Stopped,
            phase: ModemPhaseStatus::Dead,
            ip_info: None,
            last_error: None,
        },
        stop: false,
        ppp_error: None,
    }
}

/// `shared` once the runner entered `state`, with `error` as what went wrong last. Only a connected
/// modem has addresses.
pub open spec fn entered(
    shared: SharedModel,
    state: ModemState,
    error: Option<ErrorModel>,
) -> SharedModel {
    SharedModel {
        status: StatusModel {
            state,
            phase: shared.status.phase,
            ip_info: if state == ModemState::Connected {
                shared.status.ip_info
            } else {
                None
            },
            last_error: error,
        },
        ..shared
    }
}

/// `shared` after an event of the interface to the network, if the interface is the modem's own.
/// Addresses make a modem connected; losing them makes it recover, unless a stop was asked for.
pub open spec fn after_ip_event(shared: SharedModel, ours: bool, event: IpEvent) -> SharedModel {
    match event {
        IpEvent::DhcpIpAssigned(info) if ours => SharedModel {
            status: StatusModel {
                state: ModemState::Connected,
                ip_info: Some(info),
                last_error: None,
                ..shared.status
            },
            ..shared
        },
        IpEvent::DhcpIpDeassigned if ours => SharedModel {
            status: StatusModel {
                state: if shared.stop {
                    shared.status.state
                } else {
                    ModemState::Recovering
                },
                ip_info: None,
                ..shared.status
            },
            ..shared
        },
        _ => shared,
    }
}

/// `shared` after an event of the PPP stack. The phase it announces and the error it reports are
/// noted; a link that the user ended on request is no error to show.
pub open spec fn after_ppp_event(shared: SharedModel, event: PppEvent) -> SharedModel {
    SharedModel {
        status: StatusModel {
            phase: match announced_phase(event) {
                Some(phase) => phase,
                None => shared.status.phase,
            },
            last_error: match reported_error(event) {
                Some(error) if error != ModemPPPError::User || !shared.stop => Some(
                    ErrorModel::Ppp(error),
                ),
                _ => shared.status.last_error,
            },
            ..shared.status
        },
        ppp_error: match reported_error(event) {
            Some(error) => Some(error),
            None => shared.ppp_error,
        },
        ..shared
    }
}

impl SharedStatus {
    /// What is shared before a modem was first run.
    pub fn new() -> (shared: SharedStatus)
        ensures
            shared@ == initial_shared(),
    {
        SharedStatus {
            status: ModemStatus {
                state: ModemState::Stopped,
                phase: ModemPhaseStatus::Dead,
                ip_info: None,
                last_error: None,
            },
            stop: false,
            ppp_error: None,
        }
    }

    /// Notes that the runner entered `state`, with `error` as what went wrong last.
    pub fn set_state(&mut self, state: ModemState, error: Option<ModemError>)
        ensures
            final(self)@ == entered(old(self)@, state, error_view(error)),
    {
        self.status.state = state;
        self.status.last_error = error;
        if state != ModemState::Connected {
            self.status.ip_info = None;
        }
    }

    /// Notes an event of the interface to the network; `ours` tells whether the interface is the
    /// modem's own.
    pub fn on_ip_event(&mut self, ours: bool, event: IpEvent)
        ensures
            final(self)@ == after_ip_event(old(self)@, ours, event),
    {
        if !ours {
            return;
        }
        match event {
            IpEvent::DhcpIpAssigned(info) => {
                self.status.state = ModemState::Connected;
                self.status.ip_info = Some(info);
                self.status.last_error = None;
            },
            IpEvent::DhcpIpDeassigned => {
                self.status.ip_info = None;
                if !self.stop {
                    self.status.state = ModemState::Recovering;
                }
            },
            IpEvent::Other => {},
        }
    }

    /// Notes an event of the PPP stack.
    pub fn on_ppp_event(&mut self, event: PppEvent)
        ensures
            final(self)@ == after_ppp_event(old(self)@, event),
    {
        let (phase, error) = map_ppp_event(event);
        if let Some(phase) = phase {
            self.status.phase = phase;
        }
        if let Some(error) = error {
            self.ppp_error = Some(error);
            if error != ModemPPPError::User || !self.stop {
                self.status.last_error = Some(ModemError::Ppp(error));
            }
        }
    }
}

/// Every phase is announced by its own event and by no other, and the events of errors announce
/// none.
pub proof fn law_each_phase_has_its_event(event: PppEvent)
    ensures
        announced_phase(event) == Some(ModemPhaseStatus::Dead) <==> event == PppEvent::PhaseDead,
        announced_phase(event) == Some(ModemPhaseStatus::Master) <==> event == PppEvent::PhaseMaster,
        announced_phase(event) == Some(ModemPhaseStatus::Holdoff) <==> event == PppEvent::PhaseHoldoff,
        announced_phase(event) == Some(ModemPhaseStatus::Initialize) <==> event == PppEvent::PhaseInitialize,
        announced_phase(event) == Some(ModemPhaseStatus::SerialConnection) <==> event == PppEvent::PhaseSerialConnection,
        announced_phase(event) == Some(ModemPhaseStatus::Dormant) <==> event == PppEvent::PhaseDormant,
        announced_phase(event) == Some(ModemPhaseStatus::Establish) <==> event == PppEvent::PhaseEstablish,
        announced_phase(event) == Some(ModemPhaseStatus::Authenticate) <==> event == PppEvent::PhaseAuthenticate,
        announced_phase(event) == Some(ModemPhaseStatus::Callback) <==> event == PppEvent::PhaseCallback,
        announced_phase(event) == Some(ModemPhaseStatus::Network) <==> event == PppEvent::PhaseNetwork,
        announced_phase(event) == Some(ModemPhaseStatus::Running) <==> event == PppEvent::PhaseRunning,
        announced_phase(event) == Some(ModemPhaseStatus::Terminate) <==> event == PppEvent::PhaseTerminate,
        announced_phase(event) == Some(ModemPhaseStatus::Disconnect) <==> event == PppEvent::PhaseDisconnect,
        announced_phase(event) == Some(ModemPhaseStatus::Failed) <==> event == PppEvent::PhaseFailed,
{
}

/// Every error is reported by its own event and by no other, and neither the events of phases nor
/// the one of no error report any.
pub proof fn law_each_ppp_error_has_its_event(event: PppEvent)
    ensures
        reported_error(event) == Some(ModemPPPError::Parameter) <==> event == PppEvent::ParameterError,
        reported_error(event) == Some(ModemPPPError::Open) <==> event == PppEvent::OpenError,
        reported_error(event) == Some(ModemPPPError::Device) <==> event == PppEvent::DeviceError,
        reported_error(event) == Some(ModemPPPError::Alloc) <==> event == PppEvent::AllocError,
        reported_error(event) == Some(ModemPPPError::User) <==> event == PppEvent::UserError,
        reported_error(event) == Some(ModemPPPError::Disconnect) <==> event == PppEvent::DisconnectError,
        reported_error(event) == Some(ModemPPPError::AuthFail) <==> event == PppEvent::AuthFailError,
        reported_error(event) == Some(ModemPPPError::Protocol) <==> event == PppEvent::ProtocolError,
        reported_error(event) == Some(ModemPPPError::PeerDead) <==> event == PppEvent::PeerDeadError,
        reported_error(event) == Some(ModemPPPError::IdleTimeout) <==> event == PppEvent::IdleTimeoutError,
        reported_error(event) == Some(ModemPPPError::MaxConnectTimeout) <==> event == PppEvent::MaxConnectTimeoutError,
        reported_error(event) == Some(ModemPPPError::Loopback) <==> event == PppEvent::LoopbackError,
{
}

/// An event of the PPP stack changes the phase just if it announces one; an error that it reports is
/// left for the runner, and shown unless it is the user's own after a stop was asked for. Nothing
/// else changes.
pub proof fn law_the_stack_tells_its_phase_and_its_errors(shared: SharedModel, event: PppEvent)
    ensures
        ({
            let after = after_ppp_event(shared, event);
            &&& after.status.state == shared.status.state
            &&& after.status.ip_info == shared.status.ip_info
            &&& after.stop == shared.stop
            &&& match announced_phase(event) {
                Some(phase) => after.status.phase == phase,
                None => after.status.phase == shared.status.phase,
            }
            &&& match reported_error(event) {
                Some(error) => {
                    &&& after.ppp_error == Some(error)
                    &&& shared.stop && error == ModemPPPError::User ==> after.status.last_error
                        == shared.status.last_error
                    &&& !(shared.stop && error == ModemPPPError::User)
                        ==> after.status.last_error == Some(ErrorModel::Ppp(error))
                },
                None => {
                    &&& after.ppp_error == shared.ppp_error
                    &&& after.status.last_error == shared.status.last_error
                },
            }
        }),
{
}

/// Addresses for the modem's own interface make it connected and clear its error; losing them makes
/// it recover, unless a stop was asked for. News of other interfaces, and other news, change nothing,
/// and none changes the phase, the stop or the error left for the runner.
pub proof fn law_addresses_tell_of_the_connection(shared: SharedModel, ours: bool, event: IpEvent)
    ensures
        ({
            let after = after_ip_event(shared, ours, event);
            &&& after.status.phase == shared.status.phase
            &&& after.stop == shared.stop
            &&& after.ppp_error == shared.ppp_error
            &&& !ours || event is Other ==> after == shared
            &&& ours ==> (event matches IpEvent::DhcpIpAssigned(info) ==> after.status.state
                == ModemState::Connected && after.status.ip_info == Some(info)
                && after.status.last_error is None)
            &&& ours && event is DhcpIpDeassigned ==> after.status.ip_info is None
                && after.status.last_error == shared.status.last_error && (if shared.stop {
                after.status.state == shared.status.state
            } else {
                after.status.state == ModemState::Recovering
            })
        }),
{
}

/// A state that the runner enters is shown with its error; addresses stay with a connected modem and
/// go with any other; and the phase, the stop and the error left for the runner stay.
pub proof fn law_a_state_is_shown_with_its_error(
    shared: SharedModel,
    state: ModemState,
    error: Option<ErrorModel>,
)
    ensures
        ({
            let after = entered(shared, state, error);
            &&& after.status.state == state
            &&& after.status.last_error == error
            &&& after.status.phase == shared.status.phase
            &&& after.stop == shared.stop
            &&& after.ppp_error == shared.ppp_error
            &&& state == ModemState::Connected ==> after.status.ip_info == shared.status.ip_info
            &&& state != ModemState::Connected ==> after.status.ip_info is None
        }),
{
}

/// A modem that was never run is stopped, its stack dead, with no addresses, no error and no stop
/// asked for; and the contracts speak of what is shared as it is.
pub proof fn law_what_is_shared_is_seen_as_it_is(shared: SharedStatus)
    ensures
        initial_shared().status.state == ModemState::Stopped,
        initial_shared().status.phase == ModemPhaseStatus::Dead,
        initial_shared().status.ip_info is None,
        initial_shared().status.last_error is None,
        !initial_shared().stop,
        initial_shared().ppp_error is None,
        shared@.status.state == shared.status.state,
        shared@.status.phase == shared.status.phase,
        shared@.status.ip_info == shared.status.ip_info,
        shared@.status.last_error is Some <==> shared.status.last_error is Some,
        shared.status.last_error is Some ==> shared@.status.last_error->0
            == shared.status.last_error->0@,
        shared@.stop == shared.stop,
        shared@.ppp_error == shared.ppp_error,
{
}

} // verus!
