use std::cell::RefCell;
use std::collections::VecDeque;
use std::rc::Rc;

use net_stream::error::{HandshakeFailure, NetError};
use net_stream::stream::{Channel, NetworkStream, StreamState, TlsKind, Wrapping};
use net_stream::tls::{plan_upgrade, TlsParameters, UpgradePlan};

/// One end of an in-memory connection: writes go to `out`, reads come from
/// `inp`, at most `chunk` bytes per call.
struct Pipe {
    inp: Rc<RefCell<VecDeque<u8>>>,
    out: Rc<RefCell<VecDeque<u8>>>,
    chunk: usize,
    id: u32,
}

fn pipe_pair(chunk: usize) -> (Pipe, Pipe) {
    let a = Rc::new(RefCell::new(VecDeque::new()));
    let b = Rc::new(RefCell::new(VecDeque::new()));
    (
        Pipe { inp: a.clone(), out: b.clone(), chunk, id: 1 },
        Pipe { inp: b, out: a, chunk, id: 2 },
    )
}

impl Channel<String> for Pipe {
    fn read(&mut self, buf: &mut [u8]) -> Result<usize, String> {
        let mut q = self.inp.borrow_mut();
        let n = buf.len().min(self.chunk).min(q.len());
        for b in buf.iter_mut().take(n) {
            *b = q.pop_front().unwrap();
        }
        Ok(n)
    }

    fn write(&mut self, buf: &[u8]) -> Result<usize, String> {
        let n = buf.len().min(self.chunk);
        self.out.borrow_mut().extend(&buf[..n]);
        Ok(n)
    }

    fn flush(&mut self) -> Result<(), String> {
        Ok(())
    }
}

/// A test "encryption": every byte on the wire is xored with a key.
struct Xor {
    raw: Pipe,
}

impl Channel<String> for Xor {
    fn read(&mut self, buf: &mut [u8]) -> Result<usize, String> {
        let n = self.raw.read(buf)?;
        for b in buf.iter_mut().take(n) {
            *b ^= 0x5a;
        }
        Ok(n)
    }

    fn write(&mut self, buf: &[u8]) -> Result<usize, String> {
        let enc: Vec<u8> = buf.iter().map(|b| b ^ 0x5a).collect();
        self.raw.write(&enc)
    }

    fn flush(&mut self) -> Result<(), String> {
        self.raw.flush()
    }
}

impl Wrapping<Pipe> for Xor {
    fn get_ref(&self) -> &Pipe {
        &self.raw
    }
}

type Stream = NetworkStream<Pipe, Xor>;
type Connector = fn(Pipe) -> Result<Xor, String>;

fn xor_connector(raw: Pipe) -> Result<Xor, String> {
    Ok(Xor { raw })
}

fn refusing_connector(_raw: Pipe) -> Result<Xor, String> {
    Err("certificate rejected".to_string())
}

fn params(kind: TlsKind) -> TlsParameters {
    TlsParameters::new("mail.example.org".to_string(), kind)
}

fn write_all(s: &mut Stream, data: &[u8]) -> usize {
    let mut done = 0;
    let mut calls = 0;
    while done < data.len() {
        done += s.write(&data[done..]).unwrap();
        calls += 1;
    }
    s.flush().unwrap();
    calls
}

fn read_n(s: &mut Stream, n: usize) -> (Vec<u8>, usize) {
    let mut got = Vec::new();
    let mut calls = 0;
    let mut buf = [0u8; 16];
    while got.len() < n {
        let k = s.read(&mut buf).unwrap();
        assert!(k > 0);
        got.extend_from_slice(&buf[..k]);
        calls += 1;
    }
    (got, calls)
}

#[test]
fn new_stream_is_plain() {
    let (a, _b) = pipe_pair(4);
    let s: Stream = NetworkStream::new(a);
    assert!(!s.is_encrypted());
    assert_eq!(s.current_state(), StreamState::Plain);
}

#[test]
fn upgrade_plain_stream_encrypts() {
    let (a, _b) = pipe_pair(4);
    let mut s: Stream = NetworkStream::new(a);
    assert!(!s.is_encrypted());
    let r = s.upgrade_tls(&params(TlsKind::NativeTls), Some(xor_connector as Connector));
    assert!(r.is_ok());
    assert!(s.is_encrypted());
    assert_eq!(s.current_state(), StreamState::Encrypted(TlsKind::NativeTls));
}

#[test]
fn upgrade_tags_the_connector_kind() {
    let (a, _b) = pipe_pair(4);
    let mut s: Stream = NetworkStream::new(a);
    assert!(s.upgrade_tls(&params(TlsKind::Rustls), Some(xor_connector as Connector)).is_ok());
    assert_eq!(s.current_state(), StreamState::Encrypted(TlsKind::Rustls));
}

#[test]
fn second_upgrade_is_a_noop() {
    let (a, _b) = pipe_pair(4);
    let mut s: Stream = NetworkStream::new(a);
    let p = params(TlsKind::NativeTls);
    assert!(s.upgrade_tls(&p, Some(xor_connector as Connector)).is_ok());
    // A connector that would fail shows that it is not called again.
    assert!(s.upgrade_tls(&p, Some(refusing_connector as Connector)).is_ok());
    assert_eq!(s.current_state(), StreamState::Encrypted(TlsKind::NativeTls));
}

#[test]
fn failed_handshake_leaves_stream_unusable() {
    let (a, _b) = pipe_pair(4);
    let mut s: Stream = NetworkStream::new(a);
    match s.upgrade_tls(&params(TlsKind::NativeTls), Some(refusing_connector as Connector)) {
        Err(NetError::TlsHandshakeFailure(HandshakeFailure::Rejected(e))) => {
            assert_eq!(e, "certificate rejected")
        }
        other => panic!("unexpected {:?}", other),
    }
    assert!(!s.is_encrypted());
    assert_eq!(s.current_state(), StreamState::Unusable);
    let mut buf = [7u8; 4];
    assert!(matches!(s.read(&mut buf), Err(NetError::StreamUnusable)));
    assert_eq!(buf, [7u8; 4]);
    assert!(matches!(s.write(b"data"), Err(NetError::StreamUnusable)));
    assert!(matches!(s.flush(), Err(NetError::StreamUnusable)));
    assert!(matches!(s.socket::<String>(), Err(NetError::StreamUnusable)));
    // and the failure stays
    assert!(matches!(
        s.upgrade_tls(&params(TlsKind::NativeTls), Some(xor_connector as Connector)),
        Err(NetError::StreamUnusable)
    ));
    assert!(matches!(s.write(b"data"), Err(NetError::StreamUnusable)));
}

#[test]
fn upgrade_without_connector_is_unsupported() {
    let (a, _b) = pipe_pair(4);
    let mut s: Stream = NetworkStream::new(a);
    let r = s.upgrade_tls(&params(TlsKind::Rustls), None::<Connector>);
    assert!(matches!(r, Err(NetError::TlsUnsupported)));
    assert_eq!(s.current_state(), StreamState::Plain);
    assert_eq!(s.write(b"ok").unwrap(), 2);
}

#[test]
fn rustls_rejects_an_invalid_domain() {
    let (a, _b) = pipe_pair(4);
    let mut s: Stream = NetworkStream::new(a);
    let p = TlsParameters::new("not a host name!".to_string(), TlsKind::Rustls);
    assert!(!p.domain_is_acceptable());
    let r = s.upgrade_tls(&p, Some(xor_connector as Connector));
    assert!(matches!(r, Err(NetError::TlsHandshakeFailure(HandshakeFailure::InvalidName))));
    assert!(!s.is_encrypted());
    let mut buf = [0u8; 4];
    assert!(matches!(s.read(&mut buf), Err(NetError::StreamUnusable)));
    assert_eq!(s.current_state(), StreamState::Unusable);
}

#[test]
fn domain_acceptance_by_kind() {
    assert!(params(TlsKind::Rustls).domain_is_acceptable());
    assert!(TlsParameters::new("localhost".to_string(), TlsKind::Rustls).domain_is_acceptable());
    assert!(!TlsParameters::new("".to_string(), TlsKind::Rustls).domain_is_acceptable());
    assert!(!TlsParameters::new("a..b".to_string(), TlsKind::Rustls).domain_is_acceptable());
    let long = format!("{}.org", "a".repeat(300));
    assert!(!TlsParameters::new(long, TlsKind::Rustls).domain_is_acceptable());
    // native-tls judges the name during its handshake
    assert!(TlsParameters::new("not a host name!".to_string(), TlsKind::NativeTls)
        .domain_is_acceptable());
}

#[test]
fn tls_parameters_keep_their_values() {
    let p = params(TlsKind::NativeTls);
    assert_eq!(p.domain(), "mail.example.org");
    assert_eq!(p.kind(), TlsKind::NativeTls);
}

#[test]
fn upgrade_plans() {
    assert_eq!(plan_upgrade(StreamState::Encrypted(TlsKind::Rustls), false, false), UpgradePlan::AlreadyEncrypted);
    assert_eq!(plan_upgrade(StreamState::Unusable, true, true), UpgradePlan::Closed);
    assert_eq!(plan_upgrade(StreamState::Plain, false, true), UpgradePlan::Unsupported);
    assert_eq!(plan_upgrade(StreamState::Plain, true, false), UpgradePlan::InvalidName);
    assert_eq!(plan_upgrade(StreamState::Plain, true, true), UpgradePlan::Handshake);
}

#[test]
fn from_handshake_outcomes() {
    let (a, _b) = pipe_pair(4);
    let (s, r) = Stream::from_handshake::<String>(TlsKind::Rustls, Ok(Xor { raw: a }));
    assert!(r.is_ok());
    assert_eq!(s.current_state(), StreamState::Encrypted(TlsKind::Rustls));
    let (s, r) = Stream::from_handshake(TlsKind::Rustls, Err("eof".to_string()));
    assert!(matches!(r, Err(NetError::TlsHandshakeFailure(HandshakeFailure::Rejected(ref e))) if e == "eof"));
    assert_eq!(s.current_state(), StreamState::Unusable);
}

#[test]
fn socket_reaches_the_raw_transport_when_encrypted() {
    let (a, _b) = pipe_pair(4);
    let mut s: Stream = NetworkStream::new(a);
    assert_eq!(s.socket::<String>().unwrap().id, 1);
    assert!(s.upgrade_tls(&params(TlsKind::NativeTls), Some(xor_connector as Connector)).is_ok());
    assert_eq!(s.socket::<String>().unwrap().id, 1);
}

#[test]
fn plain_round_trip_with_partial_writes_and_reads() {
    let (a, b) = pipe_pair(3);
    let mut x: Stream = NetworkStream::new(a);
    let mut y: Stream = NetworkStream::new(b);
    let data = b"EHLO client.example.org\r\n";
    let writes = write_all(&mut x, data);
    assert!(writes > 1);
    let (got, reads) = read_n(&mut y, data.len());
    assert!(reads > 1);
    assert_eq!(got, data.to_vec());
    let mut buf = [0u8; 8];
    assert_eq!(y.read(&mut buf).unwrap(), 0);
}

#[test]
fn encrypted_round_trip_with_partial_writes_and_reads() {
    let (a, b) = pipe_pair(5);
    let wire = a.inp.clone();
    let mut x: Stream = NetworkStream::new(a);
    let mut y: Stream = NetworkStream::new(b);
    let p = params(TlsKind::Rustls);
    assert!(x.upgrade_tls(&p, Some(xor_connector as Connector)).is_ok());
    assert!(y.upgrade_tls(&p, Some(xor_connector as Connector)).is_ok());
    let data = b"MAIL FROM:<a@example.org>\r\n";
    assert!(write_all(&mut y, data) > 1);
    // what crossed the wire is not the plain text
    assert_ne!(wire.borrow().iter().copied().collect::<Vec<u8>>(), data.to_vec());
    let (got, reads) = read_n(&mut x, data.len());
    assert!(reads > 1);
    assert_eq!(got, data.to_vec());
}
