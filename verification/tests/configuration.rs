use modem::config::{ModemConfig, PppAuthConfig, PppAuthProtocol, PppAuthentication};
use modem::error::{EspError, ModemError, ModemPPPError};
use modem::runner::EspModem;
use modem::time::Duration;
use modem::reader::TimedRead;

struct Silence;

impl TimedRead for Silence {
    type Error = ();

    fn read_timeout(&mut self, _buffer: &mut [u8], _timeout: Duration) -> Result<usize, ()> {
        Ok(0)
    }
}

fn fault(config: &ModemConfig) -> String {
    match config.validate() {
        Err(ModemError::Configuration(message)) => message,
        other => panic!("{:?}", other),
    }
}

#[test]
fn the_default_configuration_has_its_timeouts() {
    let config = ModemConfig::new("internet");
    assert_eq!(config.apn, "internet");
    assert!(config.pin.is_none());
    assert!(config.authentication.is_none());
    assert_eq!(config.command_timeout, Duration::from_secs(5));
    assert_eq!(config.registration_timeout, Duration::from_secs(180));
    assert_eq!(config.dial_timeout, Duration::from_millis(60_000));
    assert_eq!(config.ppp_timeout, Duration::from_secs(60));
    assert_eq!(config.shutdown_timeout, Duration::from_secs(30));
    let delays: Vec<u128> = config.retry_delays.iter().map(|delay| delay.as_millis()).collect();
    assert_eq!(delays, [2000, 5000, 10_000]);
    assert!(config.validate().is_ok());
}

#[test]
fn each_fault_of_a_configuration_is_told() {
    let mut config = ModemConfig::new("a\"b");
    assert_eq!(fault(&config), "APN contains a character which cannot be used in an AT command");
    config.apn = String::new();
    assert_eq!(fault(&config), "APN cannot be empty");
    config.apn = "internet".to_string();
    config.pin = Some("12\n34".to_string());
    assert_eq!(fault(&config), "PIN contains a character which cannot be used in an AT command");
    config.pin = Some("1234".to_string());
    assert!(config.validate().is_ok());
    let mut auth = PppAuthConfig {
        protocol: PppAuthProtocol::Pap,
        username: "user\0".to_string(),
        password: "secret".to_string(),
    };
    config.authentication = Some(auth.clone());
    assert_eq!(fault(&config), "PPP credentials cannot contain NUL");
    auth.username = "user".to_string();
    auth.password = "\0".to_string();
    config.authentication = Some(auth.clone());
    assert_eq!(fault(&config), "PPP credentials cannot contain NUL");
    auth.password = "quo\"te".to_string();
    config.authentication = Some(auth);
    assert!(config.validate().is_ok());
}

#[test]
fn a_modem_is_made_only_from_a_good_configuration() {
    assert!(matches!(
        EspModem::new(ModemConfig::new(""), Silence),
        Err(ModemError::Configuration(_))
    ));
    let (_runner, _transport, handle) =
        EspModem::new(ModemConfig::new("internet"), Silence).unwrap();
    assert!(!handle.shared.stop);
}

#[test]
fn the_offered_methods_follow_the_protocol() {
    assert_eq!(PppAuthProtocol::Pap.methods(), [PppAuthentication::Pap]);
    assert_eq!(PppAuthProtocol::Chap.methods(), [PppAuthentication::Chap]);
    assert_eq!(
        PppAuthProtocol::PapOrChap.methods(),
        [PppAuthentication::Pap, PppAuthentication::Chap]
    );
}

#[test]
fn errors_are_described() {
    let esp = EspError { code: 0x101, description: "ESP_ERR_NO_MEM".to_string() };
    let cases = [
        (ModemError::Configuration("x".to_string()), "invalid modem configuration: x"),
        (ModemError::Io, "modem transport I/O failed"),
        (ModemError::At("ERROR".to_string()), "modem rejected command: ERROR"),
        (ModemError::Timeout("dialing the modem"), "timed out while dialing the modem"),
        (ModemError::BufferOverflow, "AT response exceeded the receive buffer"),
        (ModemError::SimPinRequired, "SIM requires a PIN"),
        (ModemError::SimPinRejected, "SIM PIN was rejected"),
        (ModemError::RegistrationDenied, "cellular registration was denied"),
        (ModemError::Ppp(ModemPPPError::AuthFail), "PPP failed: AuthFail"),
        (ModemError::ConnectionLost, "PPP connection was lost"),
        (ModemError::RecoveryRequired, "modem requires a hardware reset"),
        (ModemError::ShutdownTimeout, "PPP did not stop before its deadline"),
        (ModemError::from(esp), "ESP-IDF error: ESP_ERR_NO_MEM"),
    ];
    for (error, text) in cases {
        assert_eq!(error.message(), text);
        assert_eq!(error.clone().message(), text);
    }
    for error in [
        ModemPPPError::Parameter,
        ModemPPPError::Open,
        ModemPPPError::Device,
        ModemPPPError::Alloc,
        ModemPPPError::User,
        ModemPPPError::Disconnect,
        ModemPPPError::AuthFail,
        ModemPPPError::Protocol,
        ModemPPPError::PeerDead,
        ModemPPPError::IdleTimeout,
        ModemPPPError::MaxConnectTimeout,
        ModemPPPError::Loopback,
    ] {
        assert_eq!(error.name(), format!("{error:?}"));
    }
}

#[test]
fn final_errors_are_not_retryable() {
    for error in [
        ModemError::Configuration(String::new()),
        ModemError::SimPinRequired,
        ModemError::SimPinRejected,
        ModemError::RegistrationDenied,
        ModemError::RecoveryRequired,
        ModemError::ShutdownTimeout,
        ModemError::Ppp(ModemPPPError::AuthFail),
    ] {
        assert!(!error.retryable(), "{error:?}");
    }
    for error in [
        ModemError::Io,
        ModemError::At("ERROR".to_string()),
        ModemError::Timeout("x"),
        ModemError::BufferOverflow,
        ModemError::ConnectionLost,
        ModemError::Ppp(ModemPPPError::PeerDead),
        ModemError::Esp(EspError { code: -1, description: String::new() }),
    ] {
        assert!(error.retryable(), "{error:?}");
    }
}
