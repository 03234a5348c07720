//! How a modem is to be brought online.
use crate::at::{
    argument_allowed, bad_argument_message, law_an_argument_holds_no_quote_and_no_line_end,
    validate_at_argument,
};
use crate::error::{ErrorModel, ModemError};
use crate::text::chars_of;
use crate::time::{Duration, NANOS_PER_SEC};
use vstd::prelude::*;

verus! {

/// A method by which a PPP peer lets itself be authenticated.
#[derive(Clone, Copy, Debug, PartialEq, Eq, Structural)]
pub enum PppAuthentication {
    Pap,
    Chap,
}

/// Which methods of authentication to offer.
#[derive(Clone, Copy, Debug, PartialEq, Eq, Structural)]
pub enum PppAuthProtocol {
    Pap,
    Chap,
    PapOrChap,
}

/// The methods that `protocol` offers.
pub open spec fn offered_methods(protocol: PppAuthProtocol) -> Set<PppAuthentication> {
    match protocol {
        PppAuthProtocol::Pap => set![PppAuthentication::Pap],
        PppAuthProtocol::Chap => set![PppAuthentication::Chap],
        PppAuthProtocol::PapOrChap => set![PppAuthentication::Pap, PppAuthentication::Chap],
    }
}

impl PppAuthProtocol {
    /// The methods to offer, each one once.
    pub fn methods(self) -> (methods: Vec<PppAuthentication>)
        ensures
            methods@.to_set() == offered_methods(self),
            methods@.no_duplicates(),
    {
        let mut methods: Vec<PppAuthentication> = Vec::new();
        match self {
            PppAuthProtocol::Pap => {
                methods.push(PppAuthentication::Pap);
                assert(methods@[0] == PppAuthentication::Pap);
            },
            PppAuthProtocol::Chap => {
                methods.push(PppAuthentication::Chap);
                assert(methods@[0] == PppAuthentication::Chap);
            },
            PppAuthProtocol::PapOrChap => {
                methods.push(PppAuthentication::Pap);
                methods.push(PppAuthentication::Chap);
                assert(methods@[0] == PppAuthentication::Pap);
                assert(methods@[1] == PppAuthentication::Chap);
            },
        }
        assert(methods@.to_set() =~= offered_methods(self));
        methods
    }
}

/// The credentials of a PPP link.
#[derive(Clone, Debug)]
pub struct PppAuthConfig {
    pub protocol: PppAuthProtocol,
    pub username: String,
    pub password: String,
}

/// A [`PppAuthConfig`] as the contracts speak of it.
pub struct AuthModel {
    pub protocol: PppAuthProtocol,
    pub username: Seq<char>,
    pub password: Seq<char>,
}

impl View for PppAuthConfig {
    type V = AuthModel;

    open spec fn view(&self) -> AuthModel {
        AuthModel {
            protocol: self.protocol,
            username: self.username@,
            password: self.password@,
        }
    }
}

/// How a modem is to be brought online: the network to join, the secrets it asks for, how long
/// each step may take, and how long to wait before each new try.
#[derive(Clone, Debug)]
pub struct ModemConfig {
    pub apn: String,
    pub pin: Option<String>,
    pub authentication: Option<PppAuthConfig>,
    pub command_timeout: Duration,
    pub registration_timeout: Duration,
    pub dial_timeout: Duration,
    pub ppp_timeout: Duration,
    pub shutdown_timeout: Duration,
    pub retry_delays: Vec<Duration>,
}

/// A [`ModemConfig`] as the contracts speak of it.
#[verifier::ext_equal]
pub struct ConfigModel {
    pub apn: Seq<char>,
    pub pin: Option<Seq<char>>,
    pub authentication: Option<AuthModel>,
    pub command_timeout: Duration,
    pub registration_timeout: Duration,
    pub dial_timeout: Duration,
    pub ppp_timeout: Duration,
    pub shutdown_timeout: Duration,
    pub retry_delays: Seq<Duration>,
}

impl View for ModemConfig {
    type V = ConfigModel;

    open spec fn view(&self) -> ConfigModel {
        ConfigModel {
            apn: self.apn@,
            pin: match self.pin {
                Some(pin) => Some(pin@),
                None => None,
            },
            authentication: match self.authentication {
                Some(auth) => Some(auth@),
                None => None,
            },
            command_timeout: self.command_timeout,
            registration_timeout: self.registration_timeout,
            dial_timeout: self.dial_timeout,
            ppp_timeout: self.ppp_timeout,
            shutdown_timeout: self.shutdown_timeout,
            retry_delays: self.retry_delays@,
        }
    }
}

/// A span of `secs` seconds.
pub open spec fn seconds(secs: int) -> Duration {
    Duration { nanos: (secs * NANOS_PER_SEC) as u128 }
}

/// The configuration for the network `apn` with nothing else chosen.
pub open spec fn default_config(apn: Seq<char>) -> ConfigModel {
    ConfigModel {
        apn,
        pin: None,
        authentication: None,
        command_timeout: seconds(5),
        registration_timeout: seconds(180),
        dial_timeout: seconds(60),
        ppp_timeout: seconds(60),
        shutdown_timeout: seconds(30),
        retry_delays: seq![seconds(2), seconds(5), seconds(10)],
    }
}

/// What is wrong with a configuration, if anything is. The network's name must be there and fit
/// into a command, the PIN must fit into one, and credentials must not hold a NUL.
pub open spec fn config_fault(config: ConfigModel) -> Option<Seq<char>> {
    if !argument_allowed(config.apn) {
        Some(bad_argument_message("APN"@))
    } else if config.apn.len() == 0 {
        Some("APN cannot be empty"@)
    } else if config.pin matches Some(pin) && !argument_allowed(pin) {
        Some(bad_argument_message("PIN"@))
    } else if config.authentication matches Some(auth) && (auth.username.contains('\0')
        || auth.password.contains('\0')) {
        Some("PPP credentials cannot contain NUL"@)
    } else {
        None
    }
}

/// Whether `text` holds a NUL.
fn holds_nul(text: &str) -> (yes: bool)
    ensures
        yes == text@.contains('\0'),
{
    let chars = chars_of(text);
    let mut i: usize = 0;
    while i < chars.len()
        invariant
            i <= chars.len(),
            chars@ == text@,
            forall|k: int| 0 <= k < i ==> text@[k] != '\0',
        decreases chars.len() - i,
    {
        if chars[i] == '\0' {
            assert(text@[i as int] == '\0');
            return true;
        }
        i += 1;
    }
    false
}

impl ModemConfig {
    /// The configuration for the network `apn` with nothing else chosen.
    pub fn new(apn: &str) -> (config: ModemConfig)
        ensures
            config@ == default_config(apn@),
    {
        let mut retry_delays: Vec<Duration> = Vec::new();
        retry_delays.push(Duration::from_secs(2));
        retry_delays.push(Duration::from_secs(5));
        retry_delays.push(Duration::from_secs(10));
        let config = ModemConfig {
            apn: apn.to_owned(),
            pin: None,
            authentication: None,
            command_timeout: Duration::from_secs(5),
            registration_timeout: Duration::from_secs(180),
            dial_timeout: Duration::from_secs(60),
            ppp_timeout: Duration::from_secs(60),
            shutdown_timeout: Duration::from_secs(30),
            retry_delays,
        };
        assert(config@.retry_delays =~= default_config(apn@).retry_delays);
        config
    }

    /// Accepts a configuration with nothing wrong in it.
    pub fn validate(&self) -> (result: Result<(), ModemError>)
        ensures
            match config_fault(self@) {
                None => result is Ok,
                Some(message) => result is Err && result->Err_0@ == ErrorModel::Configuration(
                    message,
                ),
            },
    {
        if let Err(error) = validate_at_argument("APN", self.apn.as_str()) {
            return Err(error);
        }
        if self.apn.as_str().is_empty() {
            return Err(ModemError::Configuration("APN cannot be empty".to_owned()));
        }
        if let Some(pin) = &self.pin {
            if let Err(error) = validate_at_argument("PIN", pin.as_str()) {
                return Err(error);
            }
        }
        if let Some(auth) = &self.authentication {
            if holds_nul(auth.username.as_str()) || holds_nul(auth.password.as_str()) {
                return Err(
                    ModemError::Configuration("PPP credentials cannot contain NUL".to_owned()),
                );
            }
        }
        Ok(())
    }
}

/// An accepted configuration names a network, puts nothing into a command that would end its
/// argument or its line, and has credentials that can be handed on as NUL-terminated texts.
pub proof fn law_an_accepted_configuration_can_be_used(config: ConfigModel)
    requires
        config_fault(config) is None,
    ensures
        config.apn.len() > 0,
        argument_allowed(config.apn),
        config.pin matches Some(pin) ==> argument_allowed(pin),
        config.authentication matches Some(auth) ==> !auth.username.contains('\0')
            && !auth.password.contains('\0'),
{
}

/// A configuration with nothing chosen but the network is accepted exactly if the network's name
/// is one that can be used.
pub proof fn law_the_default_configuration_is_accepted(apn: Seq<char>)
    ensures
        config_fault(default_config(apn)) is None <==> apn.len() > 0 && argument_allowed(apn),
{
}

/// With nothing chosen but the network, a command may take 5 seconds, the registration 3 minutes,
/// the call and the negotiation a minute each and the shutdown 30 seconds, and there are three
/// retries, after 2, 5 and 10 seconds.
pub proof fn law_the_default_times(apn: Seq<char>)
    ensures
        ({
            let config = default_config(apn);
            &&& config.apn == apn
            &&& config.pin is None
            &&& config.authentication is None
            &&& config.command_timeout.nanos == 5_000_000_000
            &&& config.registration_timeout.nanos == 180_000_000_000
            &&& config.dial_timeout.nanos == 60_000_000_000
            &&& config.ppp_timeout.nanos == 60_000_000_000
            &&& config.shutdown_timeout.nanos == 30_000_000_000
            &&& config.retry_delays.len() == 3
            &&& config.retry_delays[0].nanos == 2_000_000_000
            &&& config.retry_delays[1].nanos == 5_000_000_000
            &&& config.retry_delays[2].nanos == 10_000_000_000
        }),
{
}

/// Whether `text` holds a character that would end an argument or a line, or a NUL.
pub open spec fn breaks_a_command(text: Seq<char>) -> bool {
    text.contains('"') || text.contains('\r') || text.contains('\n') || text.contains('\0')
}

/// A configuration is refused for the first of its faults, and accepted if it has none: a network's
/// name that would break a command, one that is empty, a PIN that would break a command, or
/// credentials with a NUL. Nothing else in it matters.
pub proof fn law_a_configuration_is_refused_for_its_faults(config: ConfigModel)
    ensures
        ({
            let bad_pin = config.pin matches Some(pin) && breaks_a_command(pin);
            let bad_credentials = config.authentication matches Some(auth) && (
            auth.username.contains('\0') || auth.password.contains('\0'));
            let suffix = " contains a character which cannot be used in an AT command"@;
            &&& breaks_a_command(config.apn) ==> config_fault(config) == Some("APN"@ + suffix)
            &&& config.apn.len() == 0 ==> config_fault(config) == Some("APN cannot be empty"@)
            &&& !breaks_a_command(config.apn) && config.apn.len() > 0 && bad_pin ==> config_fault(
                config,
            ) == Some("PIN"@ + suffix)
            &&& !breaks_a_command(config.apn) && config.apn.len() > 0 && !bad_pin
                && bad_credentials ==> config_fault(config) == Some(
                "PPP credentials cannot contain NUL"@,
            )
            &&& config_fault(config) is None <==> !breaks_a_command(config.apn) && config.apn.len()
                > 0 && !bad_pin && !bad_credentials
        }),
{
    law_an_argument_holds_no_quote_and_no_line_end(config.apn);
    if let Some(pin) = config.pin {
        law_an_argument_holds_no_quote_and_no_line_end(pin);
    }
}

/// A protocol offers the methods that it is named after.
pub proof fn law_a_protocol_offers_its_methods(protocol: PppAuthProtocol)
    ensures
        offered_methods(protocol).contains(PppAuthentication::Pap) <==> protocol
            != PppAuthProtocol::Chap,
        offered_methods(protocol).contains(PppAuthentication::Chap) <==> protocol
            != PppAuthProtocol::Pap,
{
}

/// The contracts speak of every field of a configuration as it is.
pub proof fn law_a_configuration_is_seen_as_it_is(config: ModemConfig, auth: PppAuthConfig)
    ensures
        config@.apn == config.apn@,
        config@.pin is Some <==> config.pin is Some,
        config.pin is Some ==> config@.pin->0 == config.pin->0@,
        config@.authentication is Some <==> config.authentication is Some,
        config.authentication is Some ==> config@.authentication->0 == config.authentication->0@,
        config@.command_timeout == config.command_timeout,
        config@.registration_timeout == config.registration_timeout,
        config@.dial_timeout == config.dial_timeout,
        config@.ppp_timeout == config.ppp_timeout,
        config@.shutdown_timeout == config.shutdown_timeout,
        config@.retry_delays == config.retry_delays@,
        auth@.protocol == auth.protocol,
        auth@.username == auth.username@,
        auth@.password == auth.password@,
{
}

} // verus!
