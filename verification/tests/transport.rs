use modem::clock::Clock;
use modem::error::{EspError, ModemError, ESP_ERR_TIMEOUT};
use modem::reader::TimedRead;
use modem::time::Duration;
use modem::transport::{read_poll, settle_read, BufferedTransport};

struct ScriptedReader {
    chunks: Vec<Vec<u8>>,
}

impl TimedRead for ScriptedReader {
    type Error = core::convert::Infallible;

    fn read_timeout(
        &mut self,
        output: &mut [u8],
        _timeout: Duration,
    ) -> Result<usize, Self::Error> {
        if self.chunks.is_empty() {
            return Ok(0);
        }
        let chunk = self.chunks.remove(0);
        let len = core::cmp::min(chunk.len(), output.len());
        output[..len].copy_from_slice(&chunk[..len]);
        if len < chunk.len() {
            self.chunks.insert(0, chunk[len..].to_vec());
        }
        Ok(len)
    }
}

/// Notes what it is asked for, and always fails.
struct BrokenReader {
    requests: Vec<(usize, Duration)>,
}

impl TimedRead for &mut BrokenReader {
    type Error = &'static str;

    fn read_timeout(
        &mut self,
        output: &mut [u8],
        timeout: Duration,
    ) -> Result<usize, Self::Error> {
        self.requests.push((output.len(), timeout));
        Err("broken")
    }
}

fn scripted(chunks: &[&[u8]], capacity: usize) -> BufferedTransport<ScriptedReader> {
    let chunks = chunks.iter().map(|chunk| chunk.to_vec()).collect();
    BufferedTransport::new(ScriptedReader { chunks }, capacity)
}

fn soon() -> std::time::Instant {
    std::time::Instant::now() + std::time::Duration::from_secs(1)
}

#[test]
fn fragmented_lines_preserve_binary_data_after_connect() {
    let reader = ScriptedReader {
        chunks: vec![b"\r\nCON".to_vec(), b"NECT 115200\r\n~\xff}".to_vec()],
    };
    let mut reader = BufferedTransport::new(reader, 64);
    assert!(reader.read_line(soon(), "test").unwrap().is_empty());
    assert_eq!(reader.read_line(soon(), "test").unwrap(), b"CONNECT 115200");
    let mut ppp = [0; 8];
    let len = reader.read_data(&mut ppp, read_poll()).unwrap();
    assert_eq!(&ppp[..len], b"~\xff}");
}

#[test]
fn lines_do_not_depend_on_how_the_stream_is_cut() {
    let stream = b"one\r\ntwo\n\r\r\nrest";
    for size in 1..stream.len() {
        let chunks: Vec<Vec<u8>> = stream.chunks(size).map(|chunk| chunk.to_vec()).collect();
        let mut reader = BufferedTransport::new(ScriptedReader { chunks }, 32);
        assert_eq!(reader.read_line(soon(), "test").unwrap(), b"one");
        assert_eq!(reader.read_line(soon(), "test").unwrap(), b"two");
        assert_eq!(reader.read_line(soon(), "test").unwrap(), b"\r");
        let mut rest: Vec<u8> = Vec::new();
        let mut buffer = [0; 3];
        while rest.len() < 4 {
            let len = reader.read_data(&mut buffer, read_poll()).unwrap();
            rest.extend_from_slice(&buffer[..len]);
        }
        assert_eq!(rest, b"rest");
    }
}

#[test]
fn a_line_that_does_not_come_times_out_and_keeps_its_bytes() {
    let mut reader = scripted(&[b"half"], 16);
    let deadline = std::time::Instant::now() + std::time::Duration::from_millis(20);
    assert!(matches!(
        reader.read_line(deadline, "waiting"),
        Err(ModemError::Timeout("waiting"))
    ));
    let mut data = [0; 8];
    assert_eq!(reader.read_data(&mut data, read_poll()).unwrap(), 4);
    assert_eq!(&data, b"half\0\0\0\0");
}

#[test]
fn a_pending_line_is_given_even_past_the_deadline() {
    let mut reader = scripted(&[b"a\nb\n"], 16);
    assert_eq!(reader.read_line(soon(), "test").unwrap(), b"a");
    assert_eq!(reader.read_line(std::time::Instant::now(), "test").unwrap(), b"b");
}

#[test]
fn a_line_longer_than_the_buffer_overflows_it() {
    let mut reader = scripted(&[b"123", b"45678"], 4);
    assert!(matches!(
        reader.read_line(soon(), "test"),
        Err(ModemError::BufferOverflow)
    ));
    let mut data = [0; 4];
    assert_eq!(reader.read_data(&mut data, read_poll()).unwrap(), 4);
    assert_eq!(&data, b"1234");
    assert_eq!(reader.read_data(&mut data, read_poll()).unwrap(), 4);
    assert_eq!(&data, b"5678");
}

#[test]
fn a_line_may_end_at_the_very_end_of_the_buffer() {
    let mut reader = scripted(&[b"a\nbc", b"d\nefg\n"], 4);
    assert_eq!(reader.read_line(soon(), "test").unwrap(), b"a");
    assert_eq!(reader.read_line(soon(), "test").unwrap(), b"bcd");
    assert_eq!(reader.read_line(soon(), "test").unwrap(), b"efg");
}

#[test]
fn one_round_reads_once_and_no_longer_than_is_left() {
    let mut broken = BrokenReader { requests: Vec::new() };
    let mut reader = BufferedTransport::new(&mut broken, 10);
    assert!(matches!(
        reader.poll_line(Duration::from_secs(3), "test"),
        Err(ModemError::Io)
    ));
    assert!(matches!(
        reader.poll_line(Duration::from_millis(30), "test"),
        Err(ModemError::Io)
    ));
    assert!(matches!(
        reader.poll_line(Duration::from_nanos(0), "test"),
        Err(ModemError::Timeout("test"))
    ));
    let mut data = [0; 3];
    assert!(matches!(
        reader.read_data(&mut data, Duration::from_secs(2)),
        Err(ModemError::Io)
    ));
    assert_eq!(
        broken.requests,
        [
            (10, Duration::from_millis(100)),
            (10, Duration::from_millis(30)),
            (3, Duration::from_secs(2)),
        ]
    );
}

/// Plays back one outcome per call, and counts the calls.
struct Playback {
    outcomes: Vec<Result<Vec<u8>, ()>>,
    calls: usize,
}

impl TimedRead for &mut Playback {
    type Error = ();

    fn read_timeout(&mut self, output: &mut [u8], _timeout: Duration) -> Result<usize, ()> {
        self.calls += 1;
        let bytes = self.outcomes.remove(0)?;
        output[..bytes.len()].copy_from_slice(&bytes);
        Ok(bytes.len())
    }
}

#[test]
fn an_idle_read_is_no_failure_and_a_failed_one_is_the_last() {
    let idle = || Ok(Vec::new());
    let mut playback = Playback {
        outcomes: vec![idle(), idle(), Ok(b"OK\r\nre".to_vec()), Err(()), Ok(b"st\n".to_vec())],
        calls: 0,
    };
    let mut reader = BufferedTransport::new(&mut playback, 16);
    assert_eq!(reader.read_line(soon(), "test").unwrap(), b"OK");
    assert!(matches!(reader.read_line(soon(), "test"), Err(ModemError::Io)));
    assert_eq!(reader.read_line(soon(), "test").unwrap(), b"rest");
    assert_eq!(playback.calls, 5);

    let mut playback = Playback { outcomes: vec![idle(), Err(()), Ok(b"x".to_vec())], calls: 0 };
    let mut reader = BufferedTransport::new(&mut playback, 16);
    let mut data = [0; 4];
    assert_eq!(reader.read_data(&mut data, read_poll()).unwrap(), 0);
    assert!(matches!(reader.read_data(&mut data, read_poll()), Err(ModemError::Io)));
    assert_eq!(reader.read_data(&mut data, read_poll()).unwrap(), 1);
    assert_eq!(playback.calls, 3);
}

#[test]
fn a_deadline_that_has_passed_leaves_the_reader_alone() {
    let mut playback = Playback { outcomes: vec![Ok(b"late\n".to_vec())], calls: 0 };
    let mut reader = BufferedTransport::new(&mut playback, 16);
    assert!(matches!(
        reader.read_line(std::time::Instant::now(), "test"),
        Err(ModemError::Timeout("test"))
    ));
    assert_eq!(reader.read_line(soon(), "test").unwrap(), b"late");
    assert_eq!(playback.calls, 1);
}

#[test]
fn one_round_takes_a_line_or_asks_for_another_round() {
    let mut reader = scripted(&[b"OK", b"\r\n"], 16);
    let left = Duration::from_secs(1);
    assert!(reader.poll_line(left, "test").unwrap().is_none());
    assert!(reader.poll_line(left, "test").unwrap().is_none());
    assert_eq!(reader.poll_line(left, "test").unwrap().unwrap(), b"OK");
    assert!(reader.take_line().is_none());
}

#[test]
fn a_clock_never_runs_backwards() {
    let mut clock = Clock::new();
    let before = std::time::Instant::now();
    let first = clock.now();
    let second = clock.now();
    assert!(before <= first && first <= second);
    assert!(second <= std::time::Instant::now());
}

#[test]
fn discarded_bytes_are_gone() {
    let mut reader = scripted(&[b"old", b"new\n"], 16);
    assert!(reader.poll_line(Duration::from_secs(1), "test").unwrap().is_none());
    reader.discard_pending();
    assert_eq!(reader.read_line(soon(), "test").unwrap(), b"new");
}

#[test]
fn moving_the_pending_bytes_changes_none_of_them() {
    let mut reader = scripted(&[b"a\nbcd"], 8);
    assert_eq!(reader.read_line(soon(), "test").unwrap(), b"a");
    reader.compact();
    let mut data = [0; 8];
    assert_eq!(reader.read_data(&mut data, read_poll()).unwrap(), 3);
    assert_eq!(&data[..3], b"bcd");
}

#[test]
fn a_driver_timeout_is_an_empty_read() {
    let timeout = EspError { code: ESP_ERR_TIMEOUT, description: "ESP_ERR_TIMEOUT".to_string() };
    assert_eq!(settle_read(Err(timeout)).unwrap(), 0);
    assert_eq!(settle_read(Ok(7)).unwrap(), 7);
    let other = EspError { code: -1, description: "ESP_FAIL".to_string() };
    assert_eq!(settle_read(Err(other)).unwrap_err().code, -1);
}
