use vstd::prelude::*;

use crate::error::{HandshakeFailure, NetError};
use crate::tls::{domain_acceptable, plan_upgrade, upgrade_plan_spec, TlsParameters, UpgradePlan};

verus! {

/// The secure-transport implementations a stream can be encrypted by.
#[derive(Debug, Clone, Copy, PartialEq, Eq, Structural)]
pub enum TlsKind {
    NativeTls,
    Rustls,
}

/// What a caller can observe of a stream's backend.
#[derive(Debug, Clone, Copy, PartialEq, Eq, Structural)]
pub enum StreamState {
    Plain,
    Encrypted(TlsKind),
    Unusable,
}

/// A blocking byte channel: the raw transport, or an encrypted one around
/// it. Its model is the history of bytes it has accepted from writers and
/// handed out to readers. As for `std::io::Read` and `std::io::Write`, a call
/// that fails has moved no bytes.
pub trait Channel<X> {
    /// The bytes accepted by `write` so far, in order. An implementation in
    /// verified code defines it; elsewhere it stays unspecified, and the
    /// contracts below are taken on trust for that implementation.
    closed spec fn sent(&self) -> Seq<u8> {
        arbitrary()
    }

    /// The bytes handed out by `read` so far, in order. Defined as `sent` is.
    closed spec fn received(&self) -> Seq<u8> {
        arbitrary()
    }

    /// Reads into the front of `buf`; `Ok(0)` for a non-empty `buf` is the
    /// orderly end of the stream.
    fn read(&mut self, buf: &mut [u8]) -> (r: Result<usize, X>)
        ensures
            final(buf)@.len() == old(buf)@.len(),
            final(self).sent() == old(self).sent(),
            r matches Ok(n) ==> n <= old(buf)@.len()
                && final(self).received() == old(self).received() + final(buf)@.subrange(0, n as int),
            r is Err ==> final(self).received() == old(self).received(),
    ;

    /// Writes a front part of `buf`, perhaps not all of it.
    fn write(&mut self, buf: &[u8]) -> (r: Result<usize, X>)
        ensures
            final(self).received() == old(self).received(),
            r matches Ok(n) ==> n <= buf@.len()
                && final(self).sent() == old(self).sent() + buf@.subrange(0, n as int),
            r is Err ==> final(self).sent() == old(self).sent(),
    ;

    /// Pushes out what was accepted; it accepts and hands out no new bytes.
    fn flush(&mut self) -> (r: Result<(), X>)
        ensures
            final(self).sent() == old(self).sent(),
            final(self).received() == old(self).received(),
    ;
}

/// An encrypted transport that still owns the raw transport it wraps.
pub trait Wrapping<T> {
    /// The raw transport inside. Defined as `Channel::sent` is.
    closed spec fn wrapped(&self) -> T {
        arbitrary()
    }

    fn get_ref(&self) -> (r: &T)
        ensures
            *r == self.wrapped(),
    ;
}

/// The one backend a stream owns. The raw transport is held by exactly one
/// variant at a time.
enum Backend<T, E> {
    Plain(T),
    Encrypted(TlsKind, E),
    Unusable,
}

/// A single-owner byte stream over a raw transport `T`, which can be upgraded
/// once, in place, to an encrypted transport `E`.
pub struct NetworkStream<T, E> {
    inner: Backend<T, E>,
}

impl<T, E> NetworkStream<T, E> {
    /// The state of the backend.
    pub closed spec fn state(&self) -> StreamState {
        match self.inner {
            Backend::Plain(_) => StreamState::Plain,
            Backend::Encrypted(k, _) => StreamState::Encrypted(k),
            Backend::Unusable => StreamState::Unusable,
        }
    }

    /// The raw transport of a plain stream.
    pub closed spec fn plain_transport(&self) -> T
        recommends
            self.state() is Plain,
    {
        self.inner->Plain_0
    }

    /// The encrypted transport of an encrypted stream.
    pub closed spec fn encrypted_transport(&self) -> E
        recommends
            self.state() is Encrypted,
    {
        self.inner->Encrypted_1
    }

    /// A plain stream over a connected raw transport.
    pub fn new(transport: T) -> (s: Self)
        ensures
            s.state() == StreamState::Plain,
            s.plain_transport() == transport,
    {
        NetworkStream { inner: Backend::Plain(transport) }
    }

    /// True iff the backend is encrypted, of any kind.
    pub fn is_encrypted(&self) -> (r: bool)
        ensures
            r == (self.state() is Encrypted),
    {
        match self.inner {
            Backend::Encrypted(_, _) => true,
            _ => false,
        }
    }

    /// The current state of the backend.
    pub fn current_state(&self) -> (r: StreamState)
        ensures
            r == self.state(),
    {
        match self.inner {
            Backend::Plain(_) => StreamState::Plain,
            Backend::Encrypted(k, _) => StreamState::Encrypted(k),
            Backend::Unusable => StreamState::Unusable,
        }
    }

    pub fn read<X>(&mut self, buf: &mut [u8]) -> (r: Result<usize, NetError<X>>)
        where T: Channel<X>, E: Channel<X>,
        ensures
            final(self).state() == old(self).state(),
            old(self).state() is Unusable ==> *final(self) == *old(self) && final(buf)@ == old(buf)@,
            old(self).state() is Plain ==> (r matches Ok(n) ==> n <= old(buf)@.len()
                && final(self).plain_transport().received()
                    == old(self).plain_transport().received() + final(buf)@.subrange(0, n as int)),
            old(self).state() is Encrypted ==> (r matches Ok(n) ==> n <= old(buf)@.len()
                && final(self).encrypted_transport().received()
                    == old(self).encrypted_transport().received() + final(buf)@.subrange(0, n as int)),
            old(self).state() is Unusable <==> r matches Err(NetError::StreamUnusable),
            r is Err ==> r matches Err(NetError::StreamUnusable) || r matches Err(NetError::IoFailure(_)),
    {
        let r = match &mut self.inner {
            Backend::Plain(t) => t.read(buf),
            Backend::Encrypted(_, e) => e.read(buf),
            Backend::Unusable => { return Err(NetError::StreamUnusable); },
        };
        match r {
            Ok(n) => Ok(n),
            Err(x) => Err(NetError::IoFailure(x)),
        }
    }
    pub fn write<X>(&mut self, buf: &[u8]) -> (r: Result<usize, NetError<X>>)
        where T: Channel<X>, E: Channel<X>,
        ensures
            final(self).state() == old(self).state(),
            old(self).state() is Unusable ==> *final(self) == *old(self),
            old(self).state() is Plain ==> (r matches Ok(n) ==> n <= buf@.len()
                && final(self).plain_transport().sent()
                    == old(self).plain_transport().sent() + buf@.subrange(0, n as int)),
            old(self).state() is Encrypted ==> (r matches Ok(n) ==> n <= buf@.len()
                && final(self).encrypted_transport().sent()
                    == old(self).encrypted_transport().sent() + buf@.subrange(0, n as int)),
            old(self).state() is Unusable <==> r matches Err(NetError::StreamUnusable),
            r is Err ==> r matches Err(NetError::StreamUnusable) || r matches Err(NetError::IoFailure(_)),
    {
        let r = match &mut self.inner {
            Backend::Plain(t) => t.write(buf),
            Backend::Encrypted(_, e) => e.write(buf),
            Backend::Unusable => { return Err(NetError::StreamUnusable); },
        };
        match r {
            Ok(n) => Ok(n),
            Err(x) => Err(NetError::IoFailure(x)),
        }
    }

    pub fn flush<X>(&mut self) -> (r: Result<(), NetError<X>>)
        where T: Channel<X>, E: Channel<X>,
        ensures
            final(self).state() == old(self).state(),
            old(self).state() is Unusable ==> *final(self) == *old(self),
            old(self).state() is Plain ==> final(self).plain_transport().sent() == old(self).plain_transport().sent()
                && final(self).plain_transport().received() == old(self).plain_transport().received(),
            old(self).state() is Encrypted ==> final(self).encrypted_transport().sent()
                    == old(self).encrypted_transport().sent()
                && final(self).encrypted_transport().received() == old(self).encrypted_transport().received(),
            old(self).state() is Unusable <==> r matches Err(NetError::StreamUnusable),
            r is Err ==> r matches Err(NetError::StreamUnusable) || r matches Err(NetError::IoFailure(_)),
    {
        let r = match &mut self.inner {
            Backend::Plain(t) => t.flush(),
            Backend::Encrypted(_, e) => e.flush(),
            Backend::Unusable => { return Err(NetError::StreamUnusable); },
        };
        match r {
            Ok(()) => Ok(()),
            Err(x) => Err(NetError::IoFailure(x)),
        }
    }

    /// The raw transport, which socket-level settings (timeouts, shutdown,
    /// binding, the peer's address) act on whether or not it is encrypted.
    pub fn socket<X>(&self) -> (r: Result<&T, NetError<X>>)
        where E: Wrapping<T>,
        ensures
            r is Ok <==> !(self.state() is Unusable),
            r is Err ==> r matches Err(NetError::StreamUnusable),
            self.state() is Plain ==> r is Ok && *r->Ok_0 == self.plain_transport(),
            self.state() is Encrypted ==> r is Ok && *r->Ok_0 == self.encrypted_transport().wrapped(),
    {
        match &self.inner {
            Backend::Plain(t) => Ok(t),
            Backend::Encrypted(_, e) => Ok(e.get_ref()),
            Backend::Unusable => Err(NetError::StreamUnusable),
        }
    }

    /// The stream that a handshake's outcome leaves: encrypted by `kind` on
    /// success, unusable on failure.
    pub fn from_handshake<X>(kind: TlsKind, outcome: Result<E, X>) -> (r: (Self, Result<(), NetError<X>>))
        ensures
            outcome is Ok ==> r.0.state() == StreamState::Encrypted(kind)
                && r.0.encrypted_transport() == outcome->Ok_0 && r.1 is Ok,
            outcome is Err ==> r.0.state() == StreamState::Unusable
                && r.1 == Err::<(), NetError<X>>(NetError::TlsHandshakeFailure(HandshakeFailure::Rejected(outcome->Err_0))),
    {
        match outcome {
            Ok(e) => (NetworkStream { inner: Backend::Encrypted(kind, e) }, Ok(())),
            Err(x) => (NetworkStream { inner: Backend::Unusable }, Err(NetError::TlsHandshakeFailure(HandshakeFailure::Rejected(x)))),
        }
    }

    /// Upgrades a plain stream in place, handing the raw transport to
    /// `connector` (absent when no implementation of the requested kind is
    /// available). An encrypted stream is left as it is, with success. Once the
    /// transport has been handed over, a failure leaves the stream unusable.
    pub fn upgrade_tls<X, F>(&mut self, params: &TlsParameters, connector: Option<F>) -> (r: Result<(), NetError<X>>)
        where F: FnOnce(T) -> Result<E, X>,
        requires
            connector matches Some(f) ==> forall|t: T| f.requires((t,)),
        ensures
            ({
                let plan = upgrade_plan_spec(old(self).state(), connector is Some,
                    domain_acceptable(params.kind_view(), params.domain_view()));
                &&& plan == UpgradePlan::AlreadyEncrypted ==> r is Ok && *final(self) == *old(self)
                &&& plan == UpgradePlan::Closed ==> (r matches Err(NetError::StreamUnusable))
                    && *final(self) == *old(self)
                &&& plan == UpgradePlan::Unsupported ==> (r matches Err(NetError::TlsUnsupported))
                    && *final(self) == *old(self)
                &&& plan == UpgradePlan::InvalidName
                    ==> (r matches Err(NetError::TlsHandshakeFailure(HandshakeFailure::InvalidName)))
                    && final(self).state() == StreamState::Unusable
                &&& plan == UpgradePlan::Handshake ==> (r is Ok <==> final(self).state() == StreamState::Encrypted(params.kind_view()))
                    && (r is Err ==> (r matches Err(NetError::TlsHandshakeFailure(HandshakeFailure::Rejected(_))))
                        && final(self).state() == StreamState::Unusable)
                    && (r is Ok ==> call_ensures(connector->Some_0,
                        (old(self).plain_transport(),), Ok::<E, X>(final(self).encrypted_transport())))
                    && (r matches Err(NetError::TlsHandshakeFailure(HandshakeFailure::Rejected(x))) ==> call_ensures(connector->Some_0,
                        (old(self).plain_transport(),), Err::<E, X>(x)))
            }),
    {
        let state = self.current_state();
        let has_connector = connector.is_some();
        let name_ok = if let StreamState::Plain = state { params.domain_is_acceptable() } else { true };
        match plan_upgrade(state, has_connector, name_ok) {
            UpgradePlan::AlreadyEncrypted => Ok(()),
            UpgradePlan::Closed => Err(NetError::StreamUnusable),
            UpgradePlan::Unsupported => Err(NetError::TlsUnsupported),
            UpgradePlan::InvalidName => {
                self.inner = Backend::Unusable;
                Err(NetError::TlsHandshakeFailure(HandshakeFailure::InvalidName))
            },
            UpgradePlan::Handshake => {
                let ghost given = connector;
                let mut taken = Backend::Unusable;
                core::mem::swap(&mut taken, &mut self.inner);
                match (taken, connector) {
                    (Backend::Plain(transport), Some(f)) => {
                        let ghost handed = transport;
                        let outcome = f(transport);
                        proof {
                            assert(handed == old(self).plain_transport() && given->Some_0 == f);
                        }
                        let (next, r) = Self::from_handshake(params.kind(), outcome);
                        *self = next;
                        r
                    },
                    // not reached: the plan is a handshake only for a plain
                    // stream with a connector
                    _ => Err(NetError::StreamUnusable),
                }
            },
        }
    }
}

} // verus!
