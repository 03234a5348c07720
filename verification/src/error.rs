//! What can go wrong with a modem, and which failures are worth another try.
use crate::text::joined;
use vstd::prelude::*;

verus! {

/// Why the PPP stack gave up on a link.
#[derive(Clone, Copy, Debug, PartialEq, Eq, Structural)]
pub enum ModemPPPError {
    Parameter,
    Open,
    Device,
    Alloc,
    User,
    Disconnect,
    AuthFail,
    Protocol,
    PeerDead,
    IdleTimeout,
    MaxConnectTimeout,
    Loopback,
}

/// The name of a PPP error.
pub open spec fn ppp_error_name(error: ModemPPPError) -> Seq<char> {
    match error {
        ModemPPPError::Parameter => "Parameter"@,
        ModemPPPError::Open => "Open"@,
        ModemPPPError::Device => "Device"@,
        ModemPPPError::Alloc => "Alloc"@,
        ModemPPPError::User => "User"@,
        ModemPPPError::Disconnect => "Disconnect"@,
        ModemPPPError::AuthFail => "AuthFail"@,
        ModemPPPError::Protocol => "Protocol"@,
        ModemPPPError::PeerDead => "PeerDead"@,
        ModemPPPError::IdleTimeout => "IdleTimeout"@,
        ModemPPPError::MaxConnectTimeout => "MaxConnectTimeout"@,
        ModemPPPError::Loopback => "Loopback"@,
    }
}

impl ModemPPPError {
    /// The name of this error.
    pub fn name(self) -> (name: &'static str)
        ensures
            name@ == ppp_error_name(self),
    {
        match self {
            ModemPPPError::Parameter => "Parameter",
            ModemPPPError::Open => "Open",
            ModemPPPError::Device => "Device",
            ModemPPPError::Alloc => "Alloc",
            ModemPPPError::User => "User",
            ModemPPPError::Disconnect => "Disconnect",
            ModemPPPError::AuthFail => "AuthFail",
            ModemPPPError::Protocol => "Protocol",
            ModemPPPError::PeerDead => "PeerDead",
            ModemPPPError::IdleTimeout => "IdleTimeout",
            ModemPPPError::MaxConnectTimeout => "MaxConnectTimeout",
            ModemPPPError::Loopback => "Loopback",
        }
    }
}

/// The code with which a driver call reports that its time ran out.
pub const ESP_ERR_TIMEOUT: i32 = 0x107;

/// An error code of the platform, with the text that the platform has for it.
#[derive(Debug)]
pub struct EspError {
    pub code: i32,
    pub description: String,
}

/// An [`EspError`] as the contracts speak of it.
pub struct EspErrorModel {
    pub code: i32,
    pub description: Seq<char>,
}

impl View for EspError {
    type V = EspErrorModel;

    open spec fn view(&self) -> EspErrorModel {
        EspErrorModel { code: self.code, description: self.description@ }
    }
}

impl Clone for EspError {
    fn clone(&self) -> (copy: EspError)
        ensures
            copy@ == self@,
    {
        EspError { code: self.code, description: self.description.clone() }
    }
}

/// A failure of the modem, of its line or of the PPP stack above it.
#[derive(Debug)]
pub enum ModemError {
    Configuration(String),
    Io,
    At(String),
    Timeout(&'static str),
    BufferOverflow,
    SimPinRequired,
    SimPinRejected,
    RegistrationDenied,
    Ppp(ModemPPPError),
    ConnectionLost,
    RecoveryRequired,
    ShutdownTimeout,
    Esp(EspError),
}

/// A [`ModemError`] as the contracts speak of it.
pub enum ErrorModel {
    Configuration(Seq<char>),
    Io,
    At(Seq<char>),
    Timeout(Seq<char>),
    BufferOverflow,
    SimPinRequired,
    SimPinRejected,
    RegistrationDenied,
    Ppp(ModemPPPError),
    ConnectionLost,
    RecoveryRequired,
    ShutdownTimeout,
    Esp(EspErrorModel),
}

impl View for ModemError {
    type V = ErrorModel;

    open spec fn view(&self) -> ErrorModel {
        match self {
            ModemError::Configuration(message) => ErrorModel::Configuration(message@),
            ModemError::Io => ErrorModel::Io,
            ModemError::At(line) => ErrorModel::At(line@),
            ModemError::Timeout(operation) => ErrorModel::Timeout(operation@),
            ModemError::BufferOverflow => ErrorModel::BufferOverflow,
            ModemError::SimPinRequired => ErrorModel::SimPinRequired,
            ModemError::SimPinRejected => ErrorModel::SimPinRejected,
            ModemError::RegistrationDenied => ErrorModel::RegistrationDenied,
            ModemError::Ppp(error) => ErrorModel::Ppp(*error),
            ModemError::ConnectionLost => ErrorModel::ConnectionLost,
            ModemError::RecoveryRequired => ErrorModel::RecoveryRequired,
            ModemError::ShutdownTimeout => ErrorModel::ShutdownTimeout,
            ModemError::Esp(error) => ErrorModel::Esp(error@),
        }
    }
}

impl Clone for ModemError {
    fn clone(&self) -> (copy: ModemError)
        ensures
            copy@ == self@,
    {
        match self {
            ModemError::Configuration(message) => ModemError::Configuration(message.clone()),
            ModemError::Io => ModemError::Io,
            ModemError::At(line) => ModemError::At(line.clone()),
            ModemError::Timeout(operation) => ModemError::Timeout(*operation),
            ModemError::BufferOverflow => ModemError::BufferOverflow,
            ModemError::SimPinRequired => ModemError::SimPinRequired,
            ModemError::SimPinRejected => ModemError::SimPinRejected,
            ModemError::RegistrationDenied => ModemError::RegistrationDenied,
            ModemError::Ppp(error) => ModemError::Ppp(*error),
            ModemError::ConnectionLost => ModemError::ConnectionLost,
            ModemError::RecoveryRequired => ModemError::RecoveryRequired,
            ModemError::ShutdownTimeout => ModemError::ShutdownTimeout,
            ModemError::Esp(error) => ModemError::Esp(error.clone()),
        }
    }
}

impl From<EspError> for ModemError {
    fn from(value: EspError) -> (error: ModemError) {
        ModemError::Esp(value)
    }
}

impl vstd::std_specs::convert::FromSpecImpl<EspError> for ModemError {
    open spec fn obeys_from_spec() -> bool {
        true
    }

    open spec fn from_spec(v: EspError) -> ModemError {
        ModemError::Esp(v)
    }
}

/// Whether a session that ended with `error` may be tried again. A wrong configuration, a SIM or
/// network that refuses, refused credentials and a modem or PPP stack that hangs are final.
pub open spec fn worth_retrying(error: ErrorModel) -> bool {
    match error {
        ErrorModel::Configuration(_)
        | ErrorModel::SimPinRequired
        | ErrorModel::SimPinRejected
        | ErrorModel::RegistrationDenied
        | ErrorModel::RecoveryRequired
        | ErrorModel::ShutdownTimeout
        | ErrorModel::Ppp(ModemPPPError::AuthFail) => false,
        _ => true,
    }
}

/// The text that describes `error` to a person.
pub open spec fn error_message(error: ErrorModel) -> Seq<char> {
    match error {
        ErrorModel::Configuration(message) => "invalid modem configuration: "@ + message,
        ErrorModel::Io => "modem transport I/O failed"@,
        ErrorModel::At(line) => "modem rejected command: "@ + line,
        ErrorModel::Timeout(operation) => "timed out while "@ + operation,
        ErrorModel::BufferOverflow => "AT response exceeded the receive buffer"@,
        ErrorModel::SimPinRequired => "SIM requires a PIN"@,
        ErrorModel::SimPinRejected => "SIM PIN was rejected"@,
        ErrorModel::RegistrationDenied => "cellular registration was denied"@,
        ErrorModel::Ppp(error) => "PPP failed: "@ + ppp_error_name(error),
        ErrorModel::ConnectionLost => "PPP connection was lost"@,
        ErrorModel::RecoveryRequired => "modem requires a hardware reset"@,
        ErrorModel::ShutdownTimeout => "PPP did not stop before its deadline"@,
        ErrorModel::Esp(error) => "ESP-IDF error: "@ + error.description,
    }
}

impl ModemError {
    /// Whether a session that ended with this error may be tried again.
    pub fn retryable(&self) -> (yes: bool)
        ensures
            yes == worth_retrying(self@),
    {
        match self {
            ModemError::Configuration(_)
            | ModemError::SimPinRequired
            | ModemError::SimPinRejected
            | ModemError::RegistrationDenied
            | ModemError::RecoveryRequired
            | ModemError::ShutdownTimeout
            | ModemError::Ppp(ModemPPPError::AuthFail) => false,
            _ => true,
        }
    }

    /// The text that describes this error to a person.
    pub fn message(&self) -> (text: String)
        ensures
            text@ == error_message(self@),
    {
        match self {
            ModemError::Configuration(message) => joined(
                "invalid modem configuration: ",
                message.as_str(),
            ),
            ModemError::Io => "modem transport I/O failed".to_owned(),
            ModemError::At(line) => joined("modem rejected command: ", line.as_str()),
            ModemError::Timeout(operation) => joined("timed out while ", operation),
            ModemError::BufferOverflow => "AT response exceeded the receive buffer".to_owned(),
            ModemError::SimPinRequired => "SIM requires a PIN".to_owned(),
            ModemError::SimPinRejected => "SIM PIN was rejected".to_owned(),
            ModemError::RegistrationDenied => "cellular registration was denied".to_owned(),
            ModemError::Ppp(error) => joined("PPP failed: ", error.name()),
            ModemError::ConnectionLost => "PPP connection was lost".to_owned(),
            ModemError::RecoveryRequired => "modem requires a hardware reset".to_owned(),
            ModemError::ShutdownTimeout => "PPP did not stop before its deadline".to_owned(),
            ModemError::Esp(error) => joined("ESP-IDF error: ", error.description.as_str()),
        }
    }
}

/// A PPP error goes by its own name, and no two go by the same.
pub proof fn law_ppp_errors_have_their_names(error: ModemPPPError)
    ensures
        ppp_error_name(error) == "Parameter"@ <==> error == ModemPPPError::Parameter,
        ppp_error_name(error) == "Open"@ <==> error == ModemPPPError::Open,
        ppp_error_name(error) == "Device"@ <==> error == ModemPPPError::Device,
        ppp_error_name(error) == "Alloc"@ <==> error == ModemPPPError::Alloc,
        ppp_error_name(error) == "User"@ <==> error == ModemPPPError::User,
        ppp_error_name(error) == "Disconnect"@ <==> error == ModemPPPError::Disconnect,
        ppp_error_name(error) == "AuthFail"@ <==> error == ModemPPPError::AuthFail,
        ppp_error_name(error) == "Protocol"@ <==> error == ModemPPPError::Protocol,
        ppp_error_name(error) == "PeerDead"@ <==> error == ModemPPPError::PeerDead,
        ppp_error_name(error) == "IdleTimeout"@ <==> error == ModemPPPError::IdleTimeout,
        ppp_error_name(error) == "MaxConnectTimeout"@ <==> error == ModemPPPError::MaxConnectTimeout,
        ppp_error_name(error) == "Loopback"@ <==> error == ModemPPPError::Loopback,
{
    reveal_strlit("Parameter");
    reveal_strlit("Open");
    reveal_strlit("Device");
    reveal_strlit("Alloc");
    reveal_strlit("User");
    reveal_strlit("Disconnect");
    reveal_strlit("AuthFail");
    reveal_strlit("Protocol");
    reveal_strlit("PeerDead");
    reveal_strlit("IdleTimeout");
    reveal_strlit("MaxConnectTimeout");
    reveal_strlit("Loopback");
    assert("Parameter"@.len() == 9);
    assert("Parameter"@[0] == 'P');
    assert("Open"@.len() == 4);
    assert("Open"@[0] == 'O');
    assert("Device"@.len() == 6);
    assert("Device"@[0] == 'D');
    assert("Alloc"@.len() == 5);
    assert("Alloc"@[0] == 'A');
    assert("User"@.len() == 4);
    assert("User"@[0] == 'U');
    assert("Disconnect"@.len() == 10);
    assert("Disconnect"@[0] == 'D');
    assert("AuthFail"@.len() == 8);
    assert("AuthFail"@[0] == 'A');
    assert("Protocol"@.len() == 8);
    assert("Protocol"@[0] == 'P');
    assert("PeerDead"@.len() == 8);
    assert("PeerDead"@[0] == 'P');
    assert("IdleTimeout"@.len() == 11);
    assert("IdleTimeout"@[0] == 'I');
    assert("MaxConnectTimeout"@.len() == 17);
    assert("MaxConnectTimeout"@[0] == 'M');
    assert("Loopback"@.len() == 8);
    assert("Loopback"@[0] == 'L');
    assert("Parameter"@[1] == 'a');
    assert("PeerDead"@[1] == 'e');
    assert("Protocol"@[1] == 'r');
    assert("Device"@[3] == 'i');
    assert("Alloc"@[1] == 'l');
    assert("AuthFail"@[1] == 'u');
}

/// A session is tried again unless its error is one that would come back: a wrong configuration, a
/// SIM without or with a wrong PIN, a refused registration, refused credentials, a modem that needs
/// a reset, or a stack that does not stop.
pub proof fn law_errors_that_come_back_are_final(error: ErrorModel)
    ensures
        !worth_retrying(error) <==> {
            ||| error is Configuration
            ||| error is SimPinRequired
            ||| error is SimPinRejected
            ||| error is RegistrationDenied
            ||| error == ErrorModel::Ppp(ModemPPPError::AuthFail)
            ||| error is RecoveryRequired
            ||| error is ShutdownTimeout
        },
{
}

/// What an error is about stands at the end of its message, behind words that tell its kind.
pub proof fn law_a_message_tells_what_it_is_about(
    text: Seq<char>,
    error: ModemPPPError,
    platform: EspErrorModel,
)
    ensures
        error_message(ErrorModel::Configuration(text)) == "invalid modem configuration: "@ + text,
        error_message(ErrorModel::At(text)) == "modem rejected command: "@ + text,
        error_message(ErrorModel::Timeout(text)) == "timed out while "@ + text,
        error_message(ErrorModel::Ppp(error)) == "PPP failed: "@ + ppp_error_name(error),
        error_message(ErrorModel::Esp(platform)) == "ESP-IDF error: "@ + platform.description,
        error_message(ErrorModel::Io) == "modem transport I/O failed"@,
        error_message(ErrorModel::BufferOverflow) == "AT response exceeded the receive buffer"@,
        error_message(ErrorModel::SimPinRequired) == "SIM requires a PIN"@,
        error_message(ErrorModel::SimPinRejected) == "SIM PIN was rejected"@,
        error_message(ErrorModel::RegistrationDenied) == "cellular registration was denied"@,
        error_message(ErrorModel::ConnectionLost) == "PPP connection was lost"@,
        error_message(ErrorModel::RecoveryRequired) == "modem requires a hardware reset"@,
        error_message(ErrorModel::ShutdownTimeout) == "PPP did not stop before its deadline"@,
{
}

/// The contracts speak of an error as it is.
pub proof fn law_an_error_is_seen_as_it_is(error: ModemError, platform: EspError)
    ensures
        platform@.code == platform.code,
        platform@.description == platform.description@,
        match error {
            ModemError::Configuration(text) => error@ == ErrorModel::Configuration(text@),
            ModemError::Io => error@ is Io,
            ModemError::At(text) => error@ == ErrorModel::At(text@),
            ModemError::Timeout(text) => error@ == ErrorModel::Timeout(text@),
            ModemError::BufferOverflow => error@ is BufferOverflow,
            ModemError::SimPinRequired => error@ is SimPinRequired,
            ModemError::SimPinRejected => error@ is SimPinRejected,
            ModemError::RegistrationDenied => error@ is RegistrationDenied,
            ModemError::Ppp(cause) => error@ == ErrorModel::Ppp(cause),
            ModemError::ConnectionLost => error@ is ConnectionLost,
            ModemError::RecoveryRequired => error@ is RecoveryRequired,
            ModemError::ShutdownTimeout => error@ is ShutdownTimeout,
            ModemError::Esp(cause) => error@ == ErrorModel::Esp(cause@),
        },
{
}

} // verus!
