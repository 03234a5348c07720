//! What the user of a modem sees of it.
use crate::error::{ErrorModel, ModemError};
use crate::status::{
    after_ip_event, after_ppp_event, copy_error, entered, initial_shared, IpEvent, ModemState,
    ModemStatus, PppEvent, SharedModel, SharedStatus, StatusModel,
};
use crate::time::Duration;
use vstd::prelude::*;

verus! {

/// The user's end of a modem. It holds what the runner and the network stack write, and is to be
/// kept behind a lock that all of them take.
#[derive(Debug)]
pub struct ModemHandle {
    pub shared: SharedStatus,
}

/// What a wait for a connection comes to, if it is over. `left` is the time that the wait may still
/// take; `timed_out` tells that the last sleep ended because its time was up.
pub open spec fn wait_outcome(status: StatusModel, left: Duration, timed_out: bool) -> Option<
    Result<StatusModel, ErrorModel>,
> {
    if status.state == ModemState::Connected {
        Some(Ok(status))
    } else if timed_out {
        Some(Err(ErrorModel::Timeout("waiting for a PPP address"@)))
    } else if status.state == ModemState::Failed {
        Some(
            Err(
                match status.last_error {
                    Some(error) => error,
                    None => ErrorModel::ConnectionLost,
                },
            ),
        )
    } else if left.nanos == 0 {
        Some(Err(ErrorModel::Timeout("waiting for a PPP address"@)))
    } else {
        None
    }
}

/// The outcome of a wait, as the contracts speak of it.
pub open spec fn outcome_view(outcome: Option<Result<ModemStatus, ModemError>>) -> Option<
    Result<StatusModel, ErrorModel>,
> {
    match outcome {
        Some(Ok(status)) => Some(Ok(status@)),
        Some(Err(error)) => Some(Err(error@)),
        None => None,
    }
}

impl ModemHandle {
    /// The status of the modem.
    pub fn status(&self) -> (status: ModemStatus)
        ensures
            status@ == self.shared@.status,
    {
        self.shared.status.clone()
    }

    /// Asks the runner to stop the modem.
    pub fn request_stop(&mut self)
        ensures
            final(self).shared@ == (SharedModel { stop: true, ..old(self).shared@ }),
    {
        self.shared.stop = true;
    }

    /// Whether a wait for a connection is over, and with what: the status of the connected modem,
    /// or why there is no connection.
    ///
    /// `left` is the time that the wait may still take, and how long to sleep until the status
    /// changes where it is not over; `timed_out` tells that the last such sleep ended because its
    /// time was up.
    pub fn wait_connected(&self, left: Duration, timed_out: bool) -> (outcome: Option<
        Result<ModemStatus, ModemError>,
    >)
        ensures
            outcome_view(outcome) == wait_outcome(self.shared@.status, left, timed_out),
    {
        if timed_out && self.shared.status.state != ModemState::Connected {
            return Some(Err(ModemError::Timeout("waiting for a PPP address")));
        }
        match self.shared.status.state {
            ModemState::Connected => {
                return Some(Ok(self.shared.status.clone()));
            },
            ModemState::Failed => {
                let error = match copy_error(&self.shared.status.last_error) {
                    Some(error) => error,
                    None => ModemError::ConnectionLost,
                };
                return Some(Err(error));
            },
            _ => {},
        }
        if left.nanos == 0 {
            return Some(Err(ModemError::Timeout("waiting for a PPP address")));
        }
        None
    }
}

/// Whether the addresses in a status fit its state: only a connected modem has any.
pub open spec fn addresses_fit(shared: SharedModel) -> bool {
    shared.status.ip_info is Some ==> shared.status.state == ModemState::Connected
}

/// Whatever the runner, the user and the network stack do, only a connected modem shows addresses.
pub proof fn law_only_a_connected_modem_has_addresses(
    shared: SharedModel,
    state: ModemState,
    error: Option<ErrorModel>,
    ours: bool,
    ip_event: IpEvent,
    ppp_event: PppEvent,
)
    ensures
        addresses_fit(initial_shared()),
        addresses_fit(entered(shared, state, error)),
        addresses_fit(shared) ==> addresses_fit(after_ip_event(shared, ours, ip_event)),
        addresses_fit(shared) ==> addresses_fit(after_ppp_event(shared, ppp_event)),
        addresses_fit(shared) ==> addresses_fit(SharedModel { stop: true, ..shared }),
{
}

/// A wait ends with a status only if that status is a connected one, and an interface that was
/// given addresses ends every wait with them.
pub proof fn law_a_wait_succeeds_exactly_when_connected(
    shared: SharedModel,
    info: embedded_svc::ipv4::IpInfo,
    left: Duration,
    timed_out: bool,
)
    ensures
        wait_outcome(shared.status, left, timed_out) matches Some(Ok(status)) ==> status
            == shared.status,
        (wait_outcome(shared.status, left, timed_out) matches Some(Ok(_)))
            <==> shared.status.state == ModemState::Connected,
        wait_outcome(
            after_ip_event(shared, true, IpEvent::DhcpIpAssigned(info)).status,
            left,
            timed_out,
        ) matches Some(Ok(status)) && status.ip_info == Some(info) && status.last_error is None,
{
}

/// A wait ends at once with a connected modem, and with a failed one by telling its error, or that
/// the connection was lost if none is known. It goes on in any other state, while there is time; a
/// sleep that used up its time ends it, be the modem failed or not.
pub proof fn law_a_wait_ends_with_the_modem_or_the_time(
    status: StatusModel,
    left: Duration,
    timed_out: bool,
)
    ensures
        ({
            let outcome = wait_outcome(status, left, timed_out);
            let over: Option<Result<StatusModel, ErrorModel>> = Some(
                Err(ErrorModel::Timeout("waiting for a PPP address"@)),
            );
            &&& status.state == ModemState::Connected ==> outcome == Some(
                Ok::<StatusModel, ErrorModel>(status),
            )
            &&& status.state != ModemState::Connected && timed_out ==> outcome == over
            &&& status.state == ModemState::Failed && !timed_out ==> match status.last_error {
                Some(error) => outcome == Some(Err::<StatusModel, ErrorModel>(error)),
                None => outcome == Some(
                    Err::<StatusModel, ErrorModel>(ErrorModel::ConnectionLost),
                ),
            }
            &&& status.state != ModemState::Connected && status.state != ModemState::Failed
                && !timed_out ==> if left.nanos == 0 {
                outcome == over
            } else {
                outcome is None
            }
        }),
{
}

/// The outcome of a wait is seen as it is.
pub proof fn law_the_outcome_of_a_wait_is_seen_as_it_is(
    outcome: Option<Result<ModemStatus, ModemError>>,
)
    ensures
        match outcome {
            Some(Ok(status)) => outcome_view(outcome) == Some(
                Ok::<StatusModel, ErrorModel>(status@),
            ),
            Some(Err(error)) => outcome_view(outcome) == Some(
                Err::<StatusModel, ErrorModel>(error@),
            ),
            None => outcome_view(outcome) is None,
        },
{
}

} // verus!
