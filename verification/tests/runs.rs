use embedded_svc::ipv4::{IpInfo, Ipv4Addr, Mask, Subnet};
use modem::action::{Action, Event};
use modem::command::{CommandExchange, ExchangeTurn};
use modem::config::ModemConfig;
use modem::error::{EspError, ModemError, ModemPPPError};
use modem::handle::ModemHandle;
use modem::reader::TimedRead;
use modem::runner::{EspModem, ModemRunner};
use modem::status::{IpEvent, ModemPhaseStatus, ModemState, PppEvent};
use modem::time::{Duration, Timestamp};
use modem::transport::{read_poll, BufferedTransport};

struct Silence;

impl TimedRead for Silence {
    type Error = ();

    fn read_timeout(&mut self, _buffer: &mut [u8], _timeout: Duration) -> Result<usize, ()> {
        Ok(0)
    }
}

/// A run under test, with a clock that is moved by hand.
struct Bench {
    runner: ModemRunner,
    handle: ModemHandle,
    now: Timestamp,
    action: Action,
}

fn at_millis(millis: u128) -> Timestamp {
    Timestamp { nanos: millis * 1_000_000 }
}

fn failure(code: i32) -> EspError {
    EspError { code, description: format!("error {code}") }
}

fn addresses() -> IpInfo {
    IpInfo {
        ip: Ipv4Addr::new(10, 0, 0, 2),
        subnet: Subnet { gateway: Ipv4Addr::new(10, 0, 0, 1), mask: Mask(24) },
        dns: None,
        secondary_dns: None,
    }
}

impl Bench {
    fn new(config: ModemConfig) -> Bench {
        let (mut runner, _transport, mut handle) = EspModem::new(config, Silence).unwrap();
        let action = runner.run(&mut handle.shared);
        Bench { runner, handle, now: at_millis(1000), action }
    }

    fn give(&mut self, event: Event) {
        self.action = self.runner.resume(&mut self.handle.shared, self.now, event);
    }

    fn state(&self) -> ModemState {
        self.handle.status().state
    }

    fn expect_write(&mut self, text: &str) {
        match &self.action {
            Action::Write(bytes) => assert_eq!(bytes, text.as_bytes()),
            other => panic!("expected {text:?}, got {other:?}"),
        }
        self.give(Event::Written(true));
    }

    /// Expects `command` with its carriage return, and leaves its reply to be read.
    fn expect_command(&mut self, command: &str) {
        self.expect_write(command);
        self.expect_write("\r");
        match &self.action {
            Action::ReadLine { operation, .. } => {
                assert_eq!(*operation, "waiting for an AT response")
            }
            other => panic!("{other:?}"),
        }
    }

    fn line(&mut self, text: &str) {
        assert!(matches!(self.action, Action::ReadLine { .. }), "{:?}", self.action);
        self.give(Event::Line(Ok(text.as_bytes().to_vec())));
    }

    fn exchange(&mut self, command: &str, reply: &[&str]) {
        self.expect_command(command);
        for line in reply {
            self.line(line);
        }
    }

    fn expect_delay(&mut self, millis: u32) {
        match self.action {
            Action::Delay(delay) => assert_eq!(delay, millis),
            ref other => panic!("{other:?}"),
        }
        self.now = Timestamp { nanos: self.now.nanos + (millis as u128) * 1_000_000 };
        self.give(Event::Done);
    }

    fn expect_query(&mut self, started: bool) {
        assert!(matches!(self.action, Action::QueryPpp), "{:?}", self.action);
        self.give(Event::Started(Ok(started)));
    }

    fn expect_discard(&mut self) {
        assert!(matches!(self.action, Action::DiscardPending), "{:?}", self.action);
        self.give(Event::Done);
    }

    fn expect_read(&mut self, size: usize, data: &[u8]) {
        match self.action {
            Action::ReadData { capacity, timeout } => {
                assert_eq!(capacity, size);
                assert_eq!(timeout, Duration::from_millis(100));
            }
            ref other => panic!("{other:?}"),
        }
        self.give(Event::Data(Ok(data.to_vec())));
        if !data.is_empty() {
            match &self.action {
                Action::Deliver(bytes) => assert_eq!(bytes, data),
                other => panic!("{other:?}"),
            }
            self.give(Event::Driver(Ok(())));
        }
    }

    /// Goes from the first command to the question about the SIM.
    fn reach_sim(&mut self) {
        assert_eq!(self.state(), ModemState::Initializing);
        self.exchange("AT", &["OK"]);
        self.exchange("ATE0", &["ATE0", "OK"]);
        self.exchange("AT+CMEE=2", &["OK"]);
        self.exchange("AT+IFC=0,0", &["OK"]);
    }

    fn reach_registration(&mut self) {
        self.reach_sim();
        self.exchange("AT+CPIN?", &["", "+CPIN: READY", "", "OK"]);
        assert_eq!(self.state(), ModemState::Registering);
    }

    fn reach_dialing(&mut self) {
        self.reach_registration();
        self.exchange("AT+CEREG?", &["+CEREG: 0,1", "OK"]);
        self.exchange("AT+CGDCONT=1,\"IP\",\"internet\"", &["OK"]);
        assert_eq!(self.state(), ModemState::Dialing);
    }

    fn reach_ppp(&mut self) {
        self.reach_dialing();
        self.expect_write("ATD*99***1#\r");
        self.line("");
        self.line("CONNECT 115200");
        assert_eq!(self.state(), ModemState::NegotiatingPpp);
        assert!(matches!(self.action, Action::StartPpp));
        self.give(Event::Driver(Ok(())));
    }

    fn reach_connected(&mut self) {
        self.reach_ppp();
        self.handle.shared.on_ppp_event(PppEvent::PhaseRunning);
        self.expect_read(4096, b"~\xff}");
        self.handle.shared.on_ip_event(true, IpEvent::DhcpIpAssigned(addresses()));
        self.expect_read(4096, b"");
        assert_eq!(self.state(), ModemState::Connected);
    }

    /// Shuts down a running PPP stack.
    fn shut_down(&mut self) {
        self.expect_query(true);
        assert_eq!(self.state(), ModemState::Stopping);
        assert!(matches!(self.action, Action::StopPpp));
        self.give(Event::Driver(Ok(())));
        self.expect_read(512, b"bye");
        self.handle.shared.on_ppp_event(PppEvent::PhaseDead);
        self.expect_read(512, b"");
    }

    /// Recovers a modem that still listens, up to the wait.
    fn recover(&mut self, delay: u32) {
        assert_eq!(self.state(), ModemState::Recovering);
        self.expect_query(false);
        self.expect_discard();
        self.exchange("AT", &["OK"]);
        self.exchange("ATH", &["ERROR"]);
        self.expect_delay(delay);
    }
}

#[test]
fn a_session_connects_and_stops_on_request() {
    let mut bench = Bench::new(ModemConfig::new("internet"));
    bench.reach_connected();
    bench.handle.request_stop();
    bench.expect_read(4096, b"");
    bench.shut_down();
    bench.expect_query(false);
    assert!(matches!(bench.action, Action::Finish(Ok(()))));
    let status = bench.handle.status();
    assert_eq!(status.state, ModemState::Stopped);
    assert!(status.last_error.is_none());
    assert!(status.ip_info.is_none());
}

#[test]
fn a_stop_asked_for_before_the_run_is_forgotten() {
    let (mut runner, _transport, mut handle) =
        EspModem::new(ModemConfig::new("internet"), Silence).unwrap();
    handle.request_stop();
    assert!(matches!(runner.run(&mut handle.shared), Action::Write(_)));
    assert!(!handle.shared.stop);
}

#[test]
fn a_deaf_modem_is_called_three_times_per_session() {
    let mut config = ModemConfig::new("internet");
    config.retry_delays = vec![];
    let mut bench = Bench::new(config);
    for _ in 0..3 {
        bench.expect_command("AT");
        bench.give(Event::Line(Err(ModemError::Timeout("waiting for an AT response"))));
    }
    assert!(matches!(
        bench.action,
        Action::Finish(Err(ModemError::Timeout("synchronizing with the modem")))
    ));
    assert_eq!(bench.state(), ModemState::Failed);
}

#[test]
fn retries_use_up_the_configured_delays() {
    let mut bench = Bench::new(ModemConfig::new("internet"));
    for delay in [2000, 5000, 10_000] {
        bench.reach_sim();
        bench.exchange("AT+CPIN?", &["+CME ERROR: SIM busy"]);
        assert!(matches!(bench.handle.status().last_error, Some(ModemError::At(_))));
        bench.recover(delay);
    }
    bench.reach_sim();
    bench.exchange("AT+CPIN?", &["+CME ERROR: SIM busy"]);
    match &bench.action {
        Action::Finish(Err(ModemError::At(line))) => assert_eq!(line, "+CME ERROR: SIM busy"),
        other => panic!("{other:?}"),
    }
    assert!(matches!(bench.handle.status().last_error, Some(ModemError::At(_))));
}

#[test]
fn a_lasting_connection_earns_new_retries() {
    for (seconds, gives_up) in [(59, true), (60, false)] {
        let mut config = ModemConfig::new("internet");
        config.retry_delays = vec![Duration::from_millis(7)];
        let mut bench = Bench::new(config);
        bench.exchange("AT", &["OK"]);
        bench.exchange("ATE0", &["ERROR"]);
        bench.recover(7);
        bench.reach_connected();
        bench.now = Timestamp { nanos: bench.now.nanos + seconds * 1_000_000_000 };
        bench.handle.shared.on_ppp_event(PppEvent::PeerDeadError);
        bench.expect_read(4096, b"");
        bench.shut_down();
        if gives_up {
            assert!(matches!(
                bench.action,
                Action::Finish(Err(ModemError::Ppp(ModemPPPError::PeerDead)))
            ));
        } else {
            bench.recover(7);
            bench.reach_sim();
        }
    }
}

#[test]
fn a_sim_that_wants_its_pin_is_given_it() {
    let mut config = ModemConfig::new("internet");
    config.pin = Some("1234".to_string());
    let mut bench = Bench::new(config);
    bench.reach_sim();
    bench.exchange("AT+CPIN?", &["+CPIN: SIM PIN", "OK"]);
    bench.exchange("AT+CPIN=\"1234\"", &["OK"]);
    assert_eq!(bench.state(), ModemState::Registering);

    let mut config = ModemConfig::new("internet");
    config.pin = Some("0000".to_string());
    let mut bench = Bench::new(config);
    bench.reach_sim();
    bench.exchange("AT+CPIN?", &["+CPIN: SIM PIN", "OK"]);
    bench.exchange("AT+CPIN=\"0000\"", &["+CME ERROR: incorrect password"]);
    assert!(matches!(bench.action, Action::Finish(Err(ModemError::SimPinRejected))));
}

#[test]
fn a_sim_that_cannot_be_unlocked_ends_the_run() {
    for (reply, required) in [("+CPIN: SIM PIN", true), ("+CPIN: SIM PUK", false), ("+X", false)] {
        let mut bench = Bench::new(ModemConfig::new("internet"));
        bench.reach_sim();
        bench.exchange("AT+CPIN?", &[reply, "OK"]);
        if required {
            assert!(matches!(bench.action, Action::Finish(Err(ModemError::SimPinRequired))));
        } else {
            assert!(matches!(bench.action, Action::Finish(Err(ModemError::SimPinRejected))));
        }
    }
}

#[test]
fn registration_is_awaited_and_asked_for_in_the_older_way() {
    let mut bench = Bench::new(ModemConfig::new("internet"));
    bench.reach_registration();
    bench.exchange("AT+CEREG?", &["+CEREG: 0,2", "OK"]);
    bench.expect_delay(1000);
    bench.exchange("AT+CEREG?", &["ERROR"]);
    bench.expect_delay(1000);
    bench.exchange("AT+CGREG?", &["+CEREG: 0,1", "OK"]);
    bench.expect_delay(1000);
    bench.exchange("AT+CGREG?", &["+CGREG: 0,5", "OK"]);
    bench.expect_command("AT+CGDCONT=1,\"IP\",\"internet\"");

    let mut bench = Bench::new(ModemConfig::new("internet"));
    bench.reach_registration();
    bench.exchange("AT+CEREG?", &["ERROR"]);
    bench.expect_delay(1000);
    bench.exchange("AT+CGREG?", &["ERROR"]);
    assert_eq!(bench.state(), ModemState::Recovering);
}

#[test]
fn registration_can_be_denied_or_take_too_long() {
    let mut bench = Bench::new(ModemConfig::new("internet"));
    bench.reach_registration();
    bench.exchange("AT+CEREG?", &["+CEREG: 0,3", "OK"]);
    assert!(matches!(bench.action, Action::Finish(Err(ModemError::RegistrationDenied))));

    let mut bench = Bench::new(ModemConfig::new("internet"));
    bench.reach_registration();
    bench.now = Timestamp { nanos: bench.now.nanos + 180_000_000_000 };
    bench.exchange("AT+CEREG?", &["+CEREG: 0,2", "OK"]);
    assert_eq!(bench.state(), ModemState::Recovering);
    assert!(matches!(
        bench.handle.status().last_error,
        Some(ModemError::Timeout("waiting for cellular registration"))
    ));
}

#[test]
fn a_stop_is_heeded_at_each_decision() {
    let mut bench = Bench::new(ModemConfig::new("internet"));
    bench.reach_sim();
    bench.handle.request_stop();
    bench.exchange("AT+CPIN?", &["+CPIN: READY", "OK"]);
    bench.expect_query(false);
    assert!(matches!(bench.action, Action::Finish(Ok(()))));

    let mut bench = Bench::new(ModemConfig::new("internet"));
    bench.reach_registration();
    bench.handle.request_stop();
    bench.exchange("AT+CEREG?", &["+CEREG: 0,2", "OK"]);
    bench.expect_query(false);
    assert!(matches!(bench.action, Action::Finish(Ok(()))));

    let mut bench = Bench::new(ModemConfig::new("internet"));
    bench.reach_dialing();
    bench.handle.request_stop();
    bench.expect_write("ATD*99***1#\r");
    bench.line("NO CARRIER");
    bench.expect_query(false);
    assert!(matches!(bench.action, Action::Finish(Ok(()))));

    let mut bench = Bench::new(ModemConfig::new("internet"));
    bench.reach_dialing();
    bench.expect_write("ATD*99***1#\r");
    bench.handle.request_stop();
    bench.line("RING");
    assert!(matches!(bench.action, Action::ReadLine { .. }));
    bench.line("CONNECT");
    bench.expect_query(false);
    assert!(matches!(bench.action, Action::Finish(Ok(()))));

    let mut bench = Bench::new(ModemConfig::new("internet"));
    bench.exchange("AT", &["OK"]);
    bench.exchange("ATE0", &["ERROR"]);
    bench.handle.request_stop();
    bench.recover(2000);
    bench.expect_query(false);
    assert!(matches!(bench.action, Action::Finish(Ok(()))));
    assert_eq!(bench.state(), ModemState::Stopped);
}

#[test]
fn a_call_can_fail() {
    let mut bench = Bench::new(ModemConfig::new("internet"));
    bench.reach_dialing();
    bench.expect_write("ATD*99***1#\r");
    match bench.action {
        Action::ReadLine { deadline, operation } => {
            assert_eq!(deadline, bench.now.after(Duration::from_secs(60)));
            assert_eq!(operation, "dialing the modem");
        }
        ref other => panic!("{other:?}"),
    }
    bench.line("NO CARRIER");
    assert!(matches!(bench.handle.status().last_error, Some(ModemError::At(_))));
    assert_eq!(bench.state(), ModemState::Recovering);

    let mut bench = Bench::new(ModemConfig::new("internet"));
    bench.reach_dialing();
    bench.give(Event::Written(false));
    assert!(matches!(bench.handle.status().last_error, Some(ModemError::Io)));
}

#[test]
fn a_link_without_addresses_times_out() {
    let mut bench = Bench::new(ModemConfig::new("internet"));
    bench.reach_ppp();
    bench.handle.shared.on_ppp_event(PppEvent::PhaseEstablish);
    bench.expect_read(4096, b"");
    bench.now = Timestamp { nanos: bench.now.nanos + 60_000_000_000 };
    bench.expect_read(4096, b"");
    bench.shut_down();
    assert!(matches!(
        bench.handle.status().last_error,
        Some(ModemError::Timeout("negotiating PPP"))
    ));
    bench.recover(2000);
}

#[test]
fn lost_addresses_end_the_link() {
    let mut bench = Bench::new(ModemConfig::new("internet"));
    bench.reach_connected();
    bench.handle.shared.on_ip_event(true, IpEvent::DhcpIpDeassigned);
    bench.expect_read(4096, b"");
    bench.shut_down();
    assert!(matches!(bench.handle.status().last_error, Some(ModemError::ConnectionLost)));
}

#[test]
fn ppp_errors_end_the_link_unless_they_are_the_users_own() {
    let mut bench = Bench::new(ModemConfig::new("internet"));
    bench.reach_connected();
    bench.handle.shared.on_ppp_event(PppEvent::UserError);
    bench.expect_read(4096, b"");
    assert!(matches!(bench.action, Action::ReadData { .. }));
    assert!(bench.handle.shared.ppp_error.is_none());
    bench.handle.shared.on_ppp_event(PppEvent::AuthFailError);
    bench.expect_read(4096, b"");
    bench.shut_down();
    assert!(matches!(
        bench.action,
        Action::Finish(Err(ModemError::Ppp(ModemPPPError::AuthFail)))
    ));
}

#[test]
fn a_driver_that_fails_ends_the_session() {
    let mut bench = Bench::new(ModemConfig::new("internet"));
    bench.reach_dialing();
    bench.expect_write("ATD*99***1#\r");
    bench.line("CONNECT");
    bench.give(Event::Driver(Err(failure(5))));
    assert_eq!(bench.state(), ModemState::Recovering);
    bench.give(Event::Started(Err(failure(6))));
    match &bench.action {
        Action::Finish(Err(ModemError::Esp(error))) => assert_eq!(error.code, 6),
        other => panic!("{other:?}"),
    }
}

#[test]
fn a_stack_that_does_not_stop_is_given_up() {
    let mut bench = Bench::new(ModemConfig::new("internet"));
    bench.reach_connected();
    bench.handle.request_stop();
    bench.expect_read(4096, b"");
    bench.expect_query(true);
    bench.give(Event::Driver(Ok(())));
    bench.now = Timestamp { nanos: bench.now.nanos + 30_000_000_000 };
    bench.expect_read(512, b"");
    bench.expect_query(true);
    bench.give(Event::Driver(Ok(())));
    bench.now = Timestamp { nanos: bench.now.nanos + 30_000_000_000 };
    bench.expect_read(512, b"");
    assert!(matches!(bench.action, Action::Finish(Err(ModemError::ShutdownTimeout))));
    assert_eq!(bench.state(), ModemState::Failed);
    assert_eq!(bench.handle.status().phase, ModemPhaseStatus::Running);
}

#[test]
fn a_modem_that_is_still_online_is_escaped_from() {
    let mut bench = Bench::new(ModemConfig::new("internet"));
    bench.reach_connected();
    bench.give(Event::Data(Err(ModemError::Io)));
    assert_eq!(bench.state(), ModemState::Recovering);
    bench.expect_query(true);
    bench.shut_down();
    bench.expect_discard();
    bench.expect_command("AT");
    match bench.action {
        Action::ReadLine { deadline, .. } => {
            assert_eq!(deadline, bench.now.after(Duration::from_secs(1)))
        }
        ref other => panic!("{other:?}"),
    }
    bench.give(Event::Line(Err(ModemError::Timeout("waiting for an AT response"))));
    bench.expect_delay(1100);
    bench.expect_write("+++");
    bench.expect_delay(1100);
    bench.expect_discard();
    bench.exchange("AT", &["OK"]);
    bench.exchange("ATH", &["OK"]);
    bench.expect_delay(2000);
    bench.reach_sim();
}

#[test]
fn a_modem_that_cannot_be_recovered_needs_a_reset() {
    let mut bench = Bench::new(ModemConfig::new("internet"));
    bench.exchange("AT", &["OK"]);
    bench.exchange("ATE0", &["ERROR"]);
    bench.expect_query(false);
    bench.expect_discard();
    bench.exchange("AT", &["ERROR"]);
    bench.expect_delay(1100);
    bench.expect_write("+++");
    bench.expect_delay(1100);
    bench.expect_discard();
    bench.exchange("AT", &["ERROR"]);
    assert!(matches!(bench.action, Action::Finish(Err(ModemError::RecoveryRequired))));

    let mut bench = Bench::new(ModemConfig::new("internet"));
    bench.exchange("AT", &["OK"]);
    bench.exchange("ATE0", &["ERROR"]);
    bench.expect_query(false);
    bench.expect_discard();
    bench.exchange("AT", &["ERROR"]);
    bench.expect_delay(1100);
    bench.give(Event::Written(false));
    assert!(matches!(bench.action, Action::Finish(Err(ModemError::Io))));
}

#[test]
fn a_long_delay_is_cut_to_what_the_timer_takes() {
    let mut config = ModemConfig::new("internet");
    config.retry_delays = vec![Duration::from_millis(0x1_0000_0000 + 5)];
    let mut bench = Bench::new(config);
    bench.exchange("AT", &["OK"]);
    bench.exchange("ATE0", &["ERROR"]);
    bench.recover(5);
    bench.reach_sim();
}

#[test]
fn whatever_is_written_is_one_line() {
    let mut config = ModemConfig::new("m\u{f6}bil");
    config.pin = Some("\u{661}\u{662}".to_string());
    let mut bench = Bench::new(config);
    bench.reach_sim();
    bench.exchange("AT+CPIN?", &["+CPIN: SIM PIN", "OK"]);
    match &bench.action {
        Action::Write(bytes) => {
            assert_eq!(bytes, "AT+CPIN=\"\u{661}\u{662}\"".as_bytes());
            assert!(bytes.iter().all(|byte| !matches!(byte, 0 | b'\r' | b'\n')));
        }
        other => panic!("{other:?}"),
    }
}

#[test]
fn a_reply_is_its_answer_lines_in_order() {
    let (exchange, action) = CommandExchange::start("ATI".to_string(), Duration::from_secs(5));
    assert!(matches!(action, Action::Write(bytes) if bytes == b"ATI"));
    let now = at_millis(10);
    let mut turn = exchange.on_event(now, Event::Written(true));
    for event in [
        Event::Written(true),
        Event::Line(Ok(b"ATI".to_vec())),
        Event::Line(Ok(b"".to_vec())),
        Event::Line(Ok(b" SIMCOM ".to_vec())),
        Event::Line(Ok(b"rev \xff".to_vec())),
        Event::Line(Ok(b"OK".to_vec())),
    ] {
        turn = match turn {
            ExchangeTurn::Continue(exchange, _) => exchange.on_event(now, event),
            done => panic!("{done:?}"),
        };
    }
    match turn {
        ExchangeTurn::Done(Ok(lines)) => assert_eq!(lines, ["SIMCOM", "rev \u{fffd}"]),
        other => panic!("{other:?}"),
    }
}

#[test]
fn a_command_that_cannot_be_written_fails() {
    for steps in [0, 1] {
        let (exchange, _) = CommandExchange::start("AT".to_string(), Duration::from_secs(5));
        let mut exchange = exchange;
        for _ in 0..steps {
            exchange = match exchange.on_event(at_millis(0), Event::Written(true)) {
                ExchangeTurn::Continue(exchange, _) => exchange,
                done => panic!("{done:?}"),
            };
        }
        assert!(matches!(
            exchange.on_event(at_millis(0), Event::Written(false)),
            ExchangeTurn::Done(Err(ModemError::Io))
        ));
    }
}

struct Chunks {
    chunks: Vec<Vec<u8>>,
}

impl TimedRead for Chunks {
    type Error = ();

    fn read_timeout(&mut self, buffer: &mut [u8], _timeout: Duration) -> Result<usize, ()> {
        if self.chunks.is_empty() {
            return Ok(0);
        }
        let chunk = self.chunks.remove(0);
        buffer[..chunk.len()].copy_from_slice(&chunk);
        Ok(chunk.len())
    }
}

#[test]
fn the_stack_is_given_the_stream_behind_the_answer() {
    let chunks = [&b"RING\r\nCONN"[..], b"ECT\r\n~\xff}\n", b"", b"\x00\r\n", b"tail"];
    let chunks = chunks.iter().map(|chunk| chunk.to_vec()).collect();
    let mut transport = BufferedTransport::new(Chunks { chunks }, 64);
    let mut bench = Bench::new(ModemConfig::new("internet"));
    bench.reach_dialing();
    bench.expect_write("ATD*99***1#\r");
    let soon = std::time::Instant::now() + std::time::Duration::from_secs(5);
    let mut slices: Vec<Vec<u8>> = Vec::new();
    for _ in 0..12 {
        let event = match &bench.action {
            Action::ReadLine { operation, .. } => {
                Event::Line(transport.read_line(soon, operation))
            }
            Action::ReadData { capacity, .. } => {
                let mut buffer = vec![0; *capacity];
                let read = transport.read_data(&mut buffer, read_poll());
                Event::Data(read.map(|len| buffer[..len].to_vec()))
            }
            Action::Deliver(slice) => {
                slices.push(slice.clone());
                Event::Driver(Ok(()))
            }
            Action::StartPpp => Event::Driver(Ok(())),
            other => panic!("{other:?}"),
        };
        bench.give(event);
    }
    assert_eq!(slices, [&b"~\xff}\n"[..], b"\x00\r\n", b"tail"]);
}

#[test]
fn a_stop_asked_for_stays_asked_for() {
    let mut bench = Bench::new(ModemConfig::new("internet"));
    assert!(!bench.handle.shared.stop);
    bench.handle.request_stop();
    bench.handle.shared.on_ppp_event(PppEvent::PhaseRunning);
    bench.handle.shared.on_ip_event(true, IpEvent::DhcpIpAssigned(addresses()));
    bench.handle.shared.on_ip_event(true, IpEvent::DhcpIpDeassigned);
    bench.expect_command("AT");
    assert!(bench.handle.shared.stop);
    assert_eq!(bench.handle.status().phase, ModemPhaseStatus::Running);
}
