//! The tracker session: the one entry point external code drives. It
//! sequences Connect-then-Announce exchanges through the connection manager
//! and the transaction coordinator, and is re-architected as a pure state
//! machine: every public function maps the current state and one event to
//! the next state and a [`Step`] for the driver, which owns the socket and
//! the timers and supplies the current time in seconds.
//!
//! Error handling follows the protocol's taxonomy: framing errors and
//! explicit tracker rejections are surfaced at once and never retried here;
//! silence is recovered by the retransmission schedule; and an Announce that
//! stays silent past the whole schedule — the shape a stale connection id
//! takes on the wire — is recovered by exactly one forced renewal of the
//! connection before failure is surfaced.

use vstd::prelude::*;

use crate::conn::ConnectionManager;
use crate::errors::TrackerError;
use crate::txn::{
    backoff_wait, lemma_single_id, Coordinator, DispatchOutcome, TimerOutcome, MAX_ATTEMPT,
    MAX_WAIT_SECS,
};
use crate::wire::{
    connect_request_bytes, request_bytes, response_of_bytes, u32_of_bytes_at, u64_of_bytes_at,
    ConnectRequest, Request, RequestImage, Response, ACTION_ANNOUNCE, ACTION_CONNECT,
    ACTION_ERROR, PROTOCOL_MAGIC,
};
use vstd::pervasive::arbitrary;
use vstd::slice::slice_to_vec;

verus! {

/// What a caller supplies for one announce: the torrent's infohash, this
/// peer's id and advertised port, and its transfer statistics.
#[derive(Debug, Clone, Copy, PartialEq, Eq)]
pub struct AnnounceParams {
    pub infohash: [u8; 20],
    pub peer_id: [u8; 20],
    pub port: u16,
    pub downloaded: u64,
    pub left: u64,
    pub uploaded: u64,
    pub event: u64,
    pub ip_address: u32,
    pub num_want: u32,
}

impl AnnounceParams {
    /// Parameters for a peer that has everything still left to download:
    /// counters at zero, the address left for the tracker to infer, and no
    /// limit on the number of peers wanted.
    pub fn new(infohash: [u8; 20], peer_id: [u8; 20], port: u16) -> (r: AnnounceParams)
        ensures
            r.infohash == infohash,
            r.peer_id == peer_id,
            r.port == port,
            r.downloaded == 0,
            r.left == u64::MAX,
            r.uploaded == 0,
            r.event == 0,
            r.ip_address == 0,
            r.num_want == u32::MAX,
    {
        AnnounceParams {
            infohash,
            peer_id,
            port,
            downloaded: 0,
            left: u64::MAX,
            uploaded: 0,
            event: 0,
            ip_address: 0,
            num_want: u32::MAX,
        }
    }
}

/// The image of the Announce request built from a connection id, a
/// transaction id and the caller's parameters.
pub open spec fn announce_image(connection_id: u64, transaction_id: u32, p: AnnounceParams)
    -> RequestImage {
    RequestImage {
        connection_id,
        action: ACTION_ANNOUNCE,
        transaction_id,
        infohash: p.infohash@,
        peer_id: p.peer_id@,
        downloaded: p.downloaded,
        left: p.left,
        uploaded: p.uploaded,
        event: p.event,
        ip_address: p.ip_address,
        num_want: p.num_want,
        port: p.port,
    }
}

/// Where the session stands in the Connect-then-Announce sequence.
#[derive(Debug, Clone, Copy, PartialEq, Eq)]
pub enum Phase {
    /// No announce under way.
    Idle,
    /// Waiting for the response of the Connect exchange with this id.
    Connecting { transaction_id: u32 },
    /// Waiting for the response of the Announce exchange with this id.
    Announcing { transaction_id: u32 },
}

/// What the driver is to do next.
#[derive(Debug, Clone, PartialEq, Eq)]
pub enum Step {
    /// Send these bytes to the tracker and arm a timer for `deadline`.
    Send { bytes: Vec<u8>, deadline: u64 },
    /// The announce completed with this response.
    Done { response: Response },
    /// The announce failed; the error is terminal for this call.
    Failed { error: TrackerError },
    /// Nothing to do: a stray datagram was dropped or no work is pending.
    Quiet,
}

/// The tracker session state: its connection cache, its transaction table,
/// its phase, the parameters of the announce under way, whether that
/// announce has spent its one forced renewal, and how many Connect
/// exchanges this session has issued over its lifetime.
#[derive(Debug)]
pub struct Session {
    pub conn: ConnectionManager,
    pub coord: Coordinator,
    pub phase: Phase,
    pub params: Option<AnnounceParams>,
    pub renewed: bool,
    pub connect_count: u64,
}

impl Session {
    /// The transaction id of the phase's exchange.
    pub open spec fn phase_tid(self) -> u32 {
        match self.phase {
            Phase::Idle => arbitrary(),
            Phase::Connecting { transaction_id } => transaction_id,
            Phase::Announcing { transaction_id } => transaction_id,
        }
    }

    /// The parameters of the announce under way.
    pub open spec fn spec_params(self) -> AnnounceParams {
        match self.params {
            Some(p) => p,
            None => arbitrary(),
        }
    }

    /// Well-formedness: the transaction table holds exactly the exchange the
    /// phase is waiting for — none when idle, one Connect transaction while
    /// connecting, one Announce transaction while announcing — and an
    /// announce under way has its parameters at hand.
    pub open spec fn wf(self) -> bool {
        &&& self.coord.wf()
        &&& match self.phase {
            Phase::Idle => self.coord.in_flight@.len() == 0,
            Phase::Connecting { transaction_id } => {
                &&& self.coord.in_flight@.len() == 1
                &&& self.coord.has_id(transaction_id)
                &&& self.coord.txn_with(transaction_id).action == ACTION_CONNECT
                &&& self.params is Some
            },
            Phase::Announcing { transaction_id } => {
                &&& self.coord.in_flight@.len() == 1
                &&& self.coord.has_id(transaction_id)
                &&& self.coord.txn_with(transaction_id).action == ACTION_ANNOUNCE
                &&& self.params is Some
            },
        }
    }

    /// A fresh session: nothing cached, nothing in flight, no Connect
    /// exchange issued yet.
    pub fn new() -> (r: Session)
        ensures
            r.wf(),
            r.phase is Idle,
            r.conn.cache is None,
            r.coord.in_flight@.len() == 0,
            r.connect_count == 0,
    {
        Session {
            conn: ConnectionManager::new(),
            coord: Coordinator::new(),
            phase: Phase::Idle,
            params: None,
            renewed: false,
            connect_count: 0,
        }
    }

    /// Dispatches a Connect request: a fresh transaction id, the magic
    /// placeholder connection id, and the first attempt's deadline.
    fn send_connect(&mut self, now: u64) -> (r: Step)
        requires
            old(self).coord.wf(),
            old(self).coord.in_flight@.len() == 0,
            old(self).params is Some,
            now <= u64::MAX - MAX_WAIT_SECS,
            old(self).connect_count < u64::MAX,
        ensures
            final(self).wf(),
            final(self).phase is Connecting,
            final(self).conn == old(self).conn,
            final(self).params == old(self).params,
            final(self).renewed == old(self).renewed,
            final(self).connect_count == old(self).connect_count + 1,
            match r {
                Step::Send { bytes, deadline } => {
                    &&& bytes@ == connect_request_bytes((ConnectRequest {
                        connection_id: PROTOCOL_MAGIC,
                        action: ACTION_CONNECT,
                        transaction_id: final(self).phase_tid(),
                    }))
                    &&& deadline == now + 15
                },
                _ => false,
            },
    {
        let transaction_id = self.coord.fresh_transaction_id();
        let request = ConnectRequest::new(transaction_id);
        let bytes = request.serialize();
        let copy = slice_to_vec(bytes.as_slice());
        self.coord.register(transaction_id, ACTION_CONNECT, bytes, now);
        self.phase = Phase::Connecting { transaction_id };
        self.connect_count = self.connect_count + 1;
        Step::Send { bytes: copy, deadline: now + 15 }
    }

    /// Dispatches an Announce request built from the caller's parameters and
    /// the given connection id, under a fresh transaction id.
    fn send_announce(&mut self, connection_id: u64, p: AnnounceParams, now: u64) -> (r: Step)
        requires
            old(self).coord.wf(),
            old(self).coord.in_flight@.len() == 0,
            old(self).params == Some(p),
            now <= u64::MAX - MAX_WAIT_SECS,
        ensures
            final(self).wf(),
            final(self).phase is Announcing,
            final(self).conn == old(self).conn,
            final(self).params == old(self).params,
            final(self).renewed == old(self).renewed,
            final(self).connect_count == old(self).connect_count,
            match r {
                Step::Send { bytes, deadline } => {
                    &&& bytes@ == request_bytes(announce_image(connection_id, final(
                        self).phase_tid(), p))
                    &&& deadline == now + 15
                },
                _ => false,
            },
    {
        let transaction_id = self.coord.fresh_transaction_id();
        let request = Request {
            connection_id,
            action: ACTION_ANNOUNCE,
            transaction_id,
            infohash: p.infohash,
            peer_id: p.peer_id,
            downloaded: p.downloaded,
            left: p.left,
            uploaded: p.uploaded,
            event: p.event,
            ip_address: p.ip_address,
            num_want: p.num_want,
            port: p.port,
        };
        let bytes = request.serialize();
        proof {
            assert(request@ =~= announce_image(connection_id, transaction_id, p));
        }
        let copy = slice_to_vec(bytes.as_slice());
        self.coord.register(transaction_id, ACTION_ANNOUNCE, bytes, now);
        self.phase = Phase::Announcing { transaction_id };
        Step::Send { bytes: copy, deadline: now + 15 }
    }

    /// A datagram matched an in-flight transaction, so the session is not
    /// idle and the match is the phase's own exchange.
    proof fn lemma_matched(self, tid: u32)
        requires
            self.wf(),
            self.coord.has_id(tid),
        ensures
            !(self.phase is Idle),
            tid == self.phase_tid(),
            self.coord.txn_with(tid) == self.coord.in_flight@[0],
    {
        if self.phase is Idle {
            assert(self.coord.in_flight@.len() == 0);
            assert(false);
        } else {
            lemma_single_id(self.coord.in_flight@, tid, self.phase_tid());
        }
    }

    /// Begins one announce at time `now`. If a cached connection id is
    /// still within its validity window it is reused at once and no Connect
    /// exchange is issued; otherwise a Connect exchange is issued first and
    /// the Announce follows on its completion.
    pub fn start_announce(&mut self, p: AnnounceParams, now: u64) -> (r: Step)
        requires
            old(self).wf(),
            old(self).phase is Idle,
            now <= u64::MAX - MAX_WAIT_SECS,
            old(self).connect_count < u64::MAX,
        ensures
            final(self).wf(),
            final(self).params == Some(p),
            final(self).renewed == false,
            final(self).conn == old(self).conn,
            old(self).conn.valid_at(now) ==> {
                &&& final(self).connect_count == old(self).connect_count
                &&& final(self).phase is Announcing
                &&& match r {
                    Step::Send { bytes, deadline } => {
                        &&& bytes@ == request_bytes(announce_image(old(
                            self).conn.spec_connection_id(), final(self).phase_tid(), p))
                        &&& deadline == now + 15
                    },
                    _ => false,
                }
            },
            !old(self).conn.valid_at(now) ==> {
                &&& final(self).connect_count == old(self).connect_count + 1
                &&& final(self).phase is Connecting
                &&& match r {
                    Step::Send { bytes, deadline } => {
                        &&& bytes@ == connect_request_bytes((ConnectRequest {
                            connection_id: PROTOCOL_MAGIC,
                            action: ACTION_CONNECT,
                            transaction_id: final(self).phase_tid(),
                        }))
                        &&& deadline == now + 15
                    },
                    _ => false,
                }
            },
    {
        self.params = Some(p);
        self.renewed = false;
        match self.conn.get(now) {
            Some(connection_id) => self.send_announce(connection_id, p, now),
            None => self.send_connect(now),
        }
    }

    /// Feeds one inbound datagram to the session at time `now`. A datagram
    /// that correlates with nothing is dropped without any effect. A
    /// Connect response establishes the connection and dispatches the
    /// pending Announce. An Announce response completes the call. An Error
    /// response or a framing error fails it at once.
    pub fn on_datagram(&mut self, buf: &[u8], now: u64) -> (r: Step)
        requires
            old(self).wf(),
            now <= u64::MAX - MAX_WAIT_SECS,
        ensures
            final(self).wf(),
            final(self).connect_count == old(self).connect_count,
            final(self).renewed == old(self).renewed,
            match r {
                Step::Quiet => {
                    &&& final(self).conn == old(self).conn
                    &&& final(self).phase == old(self).phase
                    &&& final(self).params == old(self).params
                    &&& final(self).coord.in_flight@ == old(self).coord.in_flight@
                    &&& (buf@.len() >= 8 && !(old(self).phase is Idle) && u32_of_bytes_at(
                        buf@, 4) == old(self).phase_tid() ==> {
                        let act = u32_of_bytes_at(buf@, 0);
                        &&& act != ACTION_ERROR
                        &&& act != old(self).coord.txn_with(old(self).phase_tid()).action
                    })
                },
                Step::Send { bytes, deadline } => {
                    &&& old(self).phase is Connecting
                    &&& buf@.len() == 16
                    &&& u32_of_bytes_at(buf@, 0) == ACTION_CONNECT
                    &&& u32_of_bytes_at(buf@, 4) == old(self).phase_tid()
                    &&& final(self).conn.cache is Some
                    &&& final(self).conn.spec_connection_id() == u64_of_bytes_at(buf@, 8)
                    &&& final(self).conn.spec_established_at() == now
                    &&& final(self).phase is Announcing
                    &&& final(self).params == old(self).params
                    &&& bytes@ == request_bytes(announce_image(u64_of_bytes_at(buf@, 8), final(self).phase_tid(), old(self).spec_params()))
                    &&& deadline == now + 15
                },
                Step::Done { response } => {
                    &&& old(self).phase is Announcing
                    &&& buf@.len() >= 20
                    &&& u32_of_bytes_at(buf@, 0) == ACTION_ANNOUNCE
                    &&& u32_of_bytes_at(buf@, 4) == old(self).phase_tid()
                    &&& response == response_of_bytes(buf@)
                    &&& final(self).phase is Idle
                    &&& final(self).coord.in_flight@.len() == 0
                    &&& final(self).conn == old(self).conn
                },
                Step::Failed { error } => {
                    &&& old(self).phase is Connecting || old(self).phase is Announcing
                    &&& buf@.len() >= 8
                    &&& u32_of_bytes_at(buf@, 4) == old(self).phase_tid()
                    &&& final(self).phase is Idle
                    &&& final(self).coord.in_flight@.len() == 0
                    &&& final(self).conn == old(self).conn
                    &&& match error {
                        TrackerError::TrackerRejected(message) => {
                            &&& u32_of_bytes_at(buf@, 0) == ACTION_ERROR
                            &&& message@ == buf@.skip(8)
                        },
                        TrackerError::LengthMismatch => {
                            &&& u32_of_bytes_at(buf@, 0) != ACTION_ERROR
                            &&& (old(self).phase is Connecting ==> buf@.len() != 16)
                            &&& (old(self).phase is Announcing ==> buf@.len() < 20)
                        },
                        _ => false,
                    }
                },
            },
    {
        let ghost pre = *self;
        let outcome = self.coord.on_datagram(buf);
        match outcome {
            DispatchOutcome::Dropped => Step::Quiet,
            DispatchOutcome::ConnectDone { transaction_id, response } => {
                proof {
                    pre.lemma_matched(transaction_id);
                }
                self.conn.store(response.connection_id, now);
                let p = match self.params {
                    Some(p) => p,
                    None => vstd::pervasive::unreached(),
                };
                self.send_announce(response.connection_id, p, now)
            },
            DispatchOutcome::AnnounceDone { transaction_id, response } => {
                proof {
                    pre.lemma_matched(transaction_id);
                }
                self.phase = Phase::Idle;
                self.params = None;
                Step::Done { response }
            },
            DispatchOutcome::Rejected { transaction_id, message } => {
                proof {
                    pre.lemma_matched(transaction_id);
                }
                self.phase = Phase::Idle;
                self.params = None;
                Step::Failed { error: TrackerError::TrackerRejected(message) }
            },
            DispatchOutcome::Malformed { transaction_id, error } => {
                proof {
                    pre.lemma_matched(transaction_id);
                }
                self.phase = Phase::Idle;
                self.params = None;
                Step::Failed { error }
            },
        }
    }

    /// Answers the expiry of the armed deadline at time `now`: while the
    /// schedule has attempts left the identical request bytes go out again;
    /// an exhausted Connect fails the call; an exhausted Announce spends
    /// the one forced connection renewal first — the cached id may have
    /// raced the tracker's authoritative expiry — and fails only after its
    /// retry too has run out.
    pub fn on_timer(&mut self, now: u64) -> (r: Step)
        requires
            old(self).wf(),
            now <= u64::MAX - MAX_WAIT_SECS,
            old(self).connect_count < u64::MAX,
        ensures
            final(self).wf(),
            !(r is Done),
            match r {
                Step::Quiet => {
                    &&& old(self).phase is Idle
                    &&& final(self).conn == old(self).conn
                    &&& final(self).phase == old(self).phase
                    &&& final(self).coord.in_flight@ == old(self).coord.in_flight@
                    &&& final(self).connect_count == old(self).connect_count
                },
                Step::Send { bytes, deadline } => {
                    ||| {
                        // an attempt of the schedule remains: retransmission
                        &&& !(old(self).phase is Idle)
                        &&& old(self).coord.txn_with(old(self).phase_tid()).attempt < MAX_ATTEMPT
                        &&& bytes@ == old(self).coord.txn_with(
                            old(self).phase_tid()).request_bytes@
                        &&& deadline == now + backoff_wait((old(self).coord.txn_with(
                            old(self).phase_tid()).attempt + 1) as nat)
                        &&& final(self).phase == old(self).phase
                        &&& final(self).conn == old(self).conn
                        &&& final(self).connect_count == old(self).connect_count
                        &&& final(self).coord.txn_with(final(self).phase_tid()).attempt == old(
                            self).coord.txn_with(old(self).phase_tid()).attempt + 1
                    }
                    ||| {
                        // the Announce stayed silent past the whole schedule:
                        // the one forced renewal
                        &&& old(self).phase is Announcing
                        &&& old(self).coord.txn_with(old(self).phase_tid()).attempt
                            >= MAX_ATTEMPT
                        &&& old(self).renewed == false
                        &&& final(self).renewed == true
                        &&& final(self).phase is Connecting
                        &&& final(self).conn.cache is None
                        &&& final(self).connect_count == old(self).connect_count + 1
                        &&& bytes@ == connect_request_bytes((ConnectRequest {
                            connection_id: PROTOCOL_MAGIC,
                            action: ACTION_CONNECT,
                            transaction_id: final(self).phase_tid(),
                        }))
                        &&& deadline == now + 15
                    }
                },
                Step::Failed { error } => {
                    &&& old(self).coord.txn_with(old(self).phase_tid()).attempt >= MAX_ATTEMPT
                    &&& final(self).phase is Idle
                    &&& final(self).coord.in_flight@.len() == 0
                    &&& final(self).conn == old(self).conn
                    &&& final(self).connect_count == old(self).connect_count
                    &&& (error == TrackerError::ConnectFailed <==> old(self).phase is Connecting)
                    &&& (error == TrackerError::TrackerTimeout <==> (old(self).phase
                        is Announcing && old(self).renewed == true))
                    &&& (error == TrackerError::ConnectFailed || error
                        == TrackerError::TrackerTimeout)
                },
                Step::Done { .. } => false,
            },
    {
        let transaction_id = match self.phase {
            Phase::Idle => {
                return Step::Quiet;
            },
            Phase::Connecting { transaction_id } => transaction_id,
            Phase::Announcing { transaction_id } => transaction_id,
        };
        let ghost pre = *self;
        match self.coord.on_timer(transaction_id, now) {
            TimerOutcome::Missing => vstd::pervasive::unreached(),
            TimerOutcome::Retransmit { bytes, deadline } => Step::Send { bytes, deadline },
            TimerOutcome::Expired { action } => {
                match self.phase {
                    Phase::Connecting { .. } => {
                        self.phase = Phase::Idle;
                        self.params = None;
                        Step::Failed { error: TrackerError::ConnectFailed }
                    },
                    Phase::Announcing { .. } => {
                        if !self.renewed {
                            self.renewed = true;
                            self.conn.clear();
                            self.send_connect(now)
                        } else {
                            self.phase = Phase::Idle;
                            self.params = None;
                            Step::Failed { error: TrackerError::TrackerTimeout }
                        }
                    },
                    Phase::Idle => vstd::pervasive::unreached(),
                }
            },
        }
    }

    /// Tears the session down: the pending exchange, if any, is cancelled —
    /// removed from the table with no further retransmission, its caller
    /// released with `Cancelled` — and the connection cache is dropped.
    pub fn shutdown(&mut self) -> (r: Step)
        requires
            old(self).wf(),
        ensures
            final(self).wf(),
            final(self).phase is Idle,
            final(self).coord.in_flight@.len() == 0,
            final(self).conn.cache is None,
            final(self).connect_count == old(self).connect_count,
            old(self).phase is Idle ==> r == Step::Quiet,
            !(old(self).phase is Idle) ==> r == (Step::Failed { error: TrackerError::Cancelled }),
    {
        match self.phase {
            Phase::Idle => {
                self.conn.clear();
                Step::Quiet
            },
            Phase::Connecting { transaction_id } | Phase::Announcing { transaction_id } => {
                self.coord.cancel(transaction_id);
                self.phase = Phase::Idle;
                self.params = None;
                self.conn.clear();
                Step::Failed { error: TrackerError::Cancelled }
            },
        }
    }
}

} // verus!
