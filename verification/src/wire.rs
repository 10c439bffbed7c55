//! The wire codec: fixed-layout big-endian framing for every action of the
//! UDP tracker protocol. Encoding and decoding are pure transformations with
//! no side effects; every multi-byte integer is big-endian on the wire.

use vstd::prelude::*;

use crate::bytes::{
    lemma_u16_round_trip, lemma_u32_round_trip, lemma_u64_round_trip, push_u16, push_u32,
    push_u64, read_u16, read_u32, read_u64, u16_bytes, u16_of_bytes, u32_bytes, u32_of_bytes,
    u64_bytes, u64_of_bytes,
};
use crate::errors::TrackerError;
use vstd::slice::{slice_subrange, slice_to_vec};

verus! {

/// The protocol-mandated connection-id placeholder of a Connect request.
pub const PROTOCOL_MAGIC: u64 = 0x0000_0417_2710_1980;

/// Wire code of the Connect action.
pub const ACTION_CONNECT: u32 = 0;

/// Wire code of the Announce action.
pub const ACTION_ANNOUNCE: u32 = 1;

/// Wire code of the Scrape action.
pub const ACTION_SCRAPE: u32 = 2;

/// Wire code of the Error action.
pub const ACTION_ERROR: u32 = 3;

/// The action tag carried in every request and response header.
#[derive(Debug, Clone, Copy, PartialEq, Eq, Structural)]
pub enum Action {
    Connect,
    Announce,
    Scrape,
    Error,
}

impl Action {
    /// The numeric wire code of this action.
    pub open spec fn spec_code(self) -> u32 {
        match self {
            Action::Connect => ACTION_CONNECT,
            Action::Announce => ACTION_ANNOUNCE,
            Action::Scrape => ACTION_SCRAPE,
            Action::Error => ACTION_ERROR,
        }
    }

    /// Returns the numeric wire code of this action.
    pub fn code(self) -> (r: u32)
        ensures
            r == self.spec_code(),
    {
        match self {
            Action::Connect => ACTION_CONNECT,
            Action::Announce => ACTION_ANNOUNCE,
            Action::Scrape => ACTION_SCRAPE,
            Action::Error => ACTION_ERROR,
        }
    }

    /// Returns the action denoted by a wire code, or `None` for a code the
    /// protocol does not define.
    pub fn from_code(code: u32) -> (r: Option<Action>)
        ensures
            match r {
                Some(a) => a.spec_code() == code,
                None => code > ACTION_ERROR,
            },
    {
        if code == ACTION_CONNECT {
            Some(Action::Connect)
        } else if code == ACTION_ANNOUNCE {
            Some(Action::Announce)
        } else if code == ACTION_SCRAPE {
            Some(Action::Scrape)
        } else if code == ACTION_ERROR {
            Some(Action::Error)
        } else {
            None
        }
    }
}

/// The big-endian `u32` at offset `off` of `s`: the shape of the two header
/// fields every response starts with.
pub open spec fn u32_of_bytes_at(s: Seq<u8>, off: int) -> u32
    recommends
        0 <= off,
        off + 4 <= s.len(),
{
    u32_of_bytes(s.subrange(off, off + 4))
}

/// The big-endian `u64` at offset `off` of `s`.
pub open spec fn u64_of_bytes_at(s: Seq<u8>, off: int) -> u64
    recommends
        0 <= off,
        off + 8 <= s.len(),
{
    u64_of_bytes(s.subrange(off, off + 8))
}

/// A Connect request: the magic placeholder connection id, the Connect
/// action, and the client-chosen transaction id. Fixed wire length 16.
#[derive(Debug, Clone, Copy, PartialEq, Eq, Structural)]
pub struct ConnectRequest {
    pub connection_id: u64,
    pub action: u32,
    pub transaction_id: u32,
}

/// A Connect response: action, the echoed transaction id, and the
/// tracker-issued connection id. Fixed wire length 16.
#[derive(Debug, Clone, Copy, PartialEq, Eq, Structural)]
pub struct ConnectResponse {
    pub action: u32,
    pub transaction_id: u32,
    pub connection_id: u64,
}

/// The bytes of a Connect request: connection_id(0:8), action(8:4),
/// transaction_id(12:4).
pub open spec fn connect_request_bytes(m: ConnectRequest) -> Seq<u8> {
    u64_bytes(m.connection_id) + u32_bytes(m.action) + u32_bytes(m.transaction_id)
}

/// The Connect request denoted by a 16-byte buffer.
pub open spec fn connect_request_of_bytes(s: Seq<u8>) -> ConnectRequest
    recommends
        s.len() == 16,
{
    ConnectRequest {
        connection_id: u64_of_bytes(s.subrange(0, 8)),
        action: u32_of_bytes(s.subrange(8, 12)),
        transaction_id: u32_of_bytes(s.subrange(12, 16)),
    }
}

/// The bytes of a Connect response: action(0:4), transaction_id(4:4),
/// connection_id(8:8).
pub open spec fn connect_response_bytes(m: ConnectResponse) -> Seq<u8> {
    u32_bytes(m.action) + u32_bytes(m.transaction_id) + u64_bytes(m.connection_id)
}

/// The Connect response denoted by a 16-byte buffer.
pub open spec fn connect_response_of_bytes(s: Seq<u8>) -> ConnectResponse
    recommends
        s.len() == 16,
{
    ConnectResponse {
        action: u32_of_bytes(s.subrange(0, 4)),
        transaction_id: u32_of_bytes(s.subrange(4, 8)),
        connection_id: u64_of_bytes(s.subrange(8, 16)),
    }
}

impl ConnectRequest {
    /// Fixed wire length of a Connect request.
    pub const LENGTH: usize = 16;

    /// Builds a Connect request for a fresh exchange: the connection id is
    /// the protocol magic constant and the action is Connect.
    pub fn new(transaction_id: u32) -> (r: ConnectRequest)
        ensures
            r.connection_id == PROTOCOL_MAGIC,
            r.action == ACTION_CONNECT,
            r.transaction_id == transaction_id,
    {
        ConnectRequest { connection_id: PROTOCOL_MAGIC, action: ACTION_CONNECT, transaction_id }
    }

    /// Encodes this request into its exact 16-byte big-endian layout.
    pub fn serialize(&self) -> (r: Vec<u8>)
        ensures
            r@ == connect_request_bytes(*self),
            r@.len() == 16,
    {
        let mut out: Vec<u8> = Vec::new();
        push_u64(&mut out, self.connection_id);
        push_u32(&mut out, self.action);
        push_u32(&mut out, self.transaction_id);
        proof {
            assert(out@ =~= connect_request_bytes(*self));
        }
        out
    }

    /// Decodes a Connect request from a buffer of exactly 16 bytes; any
    /// other length is a `LengthMismatch`.
    pub fn deserialize(buf: &[u8]) -> (r: Result<(ConnectRequest, &[u8]), TrackerError>)
        ensures
            match r {
                Ok((m, rest)) => {
                    &&& buf@.len() == 16
                    &&& m == connect_request_of_bytes(buf@)
                    &&& rest@ == buf@.skip(16)
                },
                Err(e) => {
                    &&& buf@.len() != 16
                    &&& e == TrackerError::LengthMismatch
                },
            },
    {
        if buf.len() != Self::LENGTH {
            return Err(TrackerError::LengthMismatch);
        }
        let m = ConnectRequest {
            connection_id: read_u64(buf, 0),
            action: read_u32(buf, 8),
            transaction_id: read_u32(buf, 12),
        };
        let rest = slice_subrange(buf, Self::LENGTH, buf.len());
        proof {
            assert(rest@ =~= buf@.skip(16));
        }
        Ok((m, rest))
    }
}

impl ConnectResponse {
    /// Fixed wire length of a Connect response.
    pub const LENGTH: usize = 16;

    /// Encodes this response into its exact 16-byte big-endian layout.
    pub fn serialize(&self) -> (r: Vec<u8>)
        ensures
            r@ == connect_response_bytes(*self),
            r@.len() == 16,
    {
        let mut out: Vec<u8> = Vec::new();
        push_u32(&mut out, self.action);
        push_u32(&mut out, self.transaction_id);
        push_u64(&mut out, self.connection_id);
        proof {
            assert(out@ =~= connect_response_bytes(*self));
        }
        out
    }

    /// Decodes a Connect response from a buffer of exactly 16 bytes; any
    /// other length is a `LengthMismatch`.
    pub fn deserialize(buf: &[u8]) -> (r: Result<(ConnectResponse, &[u8]), TrackerError>)
        ensures
            match r {
                Ok((m, rest)) => {
                    &&& buf@.len() == 16
                    &&& m == connect_response_of_bytes(buf@)
                    &&& rest@ == buf@.skip(16)
                },
                Err(e) => {
                    &&& buf@.len() != 16
                    &&& e == TrackerError::LengthMismatch
                },
            },
    {
        if buf.len() != Self::LENGTH {
            return Err(TrackerError::LengthMismatch);
        }
        let m = ConnectResponse {
            action: read_u32(buf, 0),
            transaction_id: read_u32(buf, 4),
            connection_id: read_u64(buf, 8),
        };
        let rest = slice_subrange(buf, Self::LENGTH, buf.len());
        proof {
            assert(rest@ =~= buf@.skip(16));
        }
        Ok((m, rest))
    }
}

/// An Announce request, one field per wire field. `infohash` and `peer_id`
/// are the 20-byte identifiers supplied by the caller, opaque to this core.
/// Fixed wire length 98.
#[derive(Debug, Clone, Copy, PartialEq, Eq)]
pub struct Request {
    pub connection_id: u64,
    pub action: u32,
    pub transaction_id: u32,
    pub infohash: [u8; 20],
    pub peer_id: [u8; 20],
    pub downloaded: u64,
    pub left: u64,
    pub uploaded: u64,
    pub event: u64,
    pub ip_address: u32,
    pub num_want: u32,
    pub port: u16,
}

/// The mathematical content of an Announce request: each field as a plain
/// value, the two identifiers as byte sequences.
#[verifier::ext_equal]
pub struct RequestImage {
    pub connection_id: u64,
    pub action: u32,
    pub transaction_id: u32,
    pub infohash: Seq<u8>,
    pub peer_id: Seq<u8>,
    pub downloaded: u64,
    pub left: u64,
    pub uploaded: u64,
    pub event: u64,
    pub ip_address: u32,
    pub num_want: u32,
    pub port: u16,
}

impl View for Request {
    type V = RequestImage;

    open spec fn view(&self) -> RequestImage {
        RequestImage {
            connection_id: self.connection_id,
            action: self.action,
            transaction_id: self.transaction_id,
            infohash: self.infohash@,
            peer_id: self.peer_id@,
            downloaded: self.downloaded,
            left: self.left,
            uploaded: self.uploaded,
            event: self.event,
            ip_address: self.ip_address,
            num_want: self.num_want,
            port: self.port,
        }
    }
}

/// The bytes of an Announce request: connection_id(0:8), action(8:4),
/// transaction_id(12:4), infohash(16:20), peer_id(36:20), downloaded(56:8),
/// left(64:8), uploaded(72:8), event(80:8), ip_address(88:4), num_want(92:4),
/// port(96:2).
pub open spec fn request_bytes(f: RequestImage) -> Seq<u8>
    recommends
        f.infohash.len() == 20,
        f.peer_id.len() == 20,
{
    u64_bytes(f.connection_id) + u32_bytes(f.action) + u32_bytes(f.transaction_id) + f.infohash
        + f.peer_id + u64_bytes(f.downloaded) + u64_bytes(f.left) + u64_bytes(f.uploaded)
        + u64_bytes(f.event) + u32_bytes(f.ip_address) + u32_bytes(f.num_want) + u16_bytes(f.port)
}

/// The Announce request denoted by a 98-byte buffer.
pub open spec fn request_of_bytes(s: Seq<u8>) -> RequestImage
    recommends
        s.len() == 98,
{
    RequestImage {
        connection_id: u64_of_bytes(s.subrange(0, 8)),
        action: u32_of_bytes(s.subrange(8, 12)),
        transaction_id: u32_of_bytes(s.subrange(12, 16)),
        infohash: s.subrange(16, 36),
        peer_id: s.subrange(36, 56),
        downloaded: u64_of_bytes(s.subrange(56, 64)),
        left: u64_of_bytes(s.subrange(64, 72)),
        uploaded: u64_of_bytes(s.subrange(72, 80)),
        event: u64_of_bytes(s.subrange(80, 88)),
        ip_address: u32_of_bytes(s.subrange(88, 92)),
        num_want: u32_of_bytes(s.subrange(92, 96)),
        port: u16_of_bytes(s.subrange(96, 98)),
    }
}

/// Appends the 20 bytes of an identifier to `out`.
fn push_id20(out: &mut Vec<u8>, a: &[u8; 20])
    ensures
        final(out)@ == old(out)@ + a@,
{
    let mut i: usize = 0;
    while i < 20
        invariant
            i <= 20,
            out@ == old(out)@ + a@.subrange(0, i as int),
        decreases 20 - i,
    {
        out.push(a[i]);
        i = i + 1;
        assert(out@ =~= old(out)@ + a@.subrange(0, i as int));
    }
    assert(a@.subrange(0, 20) =~= a@);
}

/// Reads a 20-byte identifier at offset `off` of `buf`.
fn read_id20(buf: &[u8], off: usize) -> (r: [u8; 20])
    requires
        off + 20 <= buf@.len(),
    ensures
        r@ == buf@.subrange(off as int, off as int + 20),
{
    let n = buf.len();
    let mut r: [u8; 20] = [0; 20];
    let mut i: usize = 0;
    while i < 20
        invariant
            i <= 20,
            off + 20 <= n,
            n == buf@.len(),
            r@.len() == 20,
            forall|j: int| 0 <= j < i ==> r@[j] == buf@[off + j],
        decreases 20 - i,
    {
        r[i] = buf[off + i];
        i = i + 1;
    }
    assert(r@ =~= buf@.subrange(off as int, off as int + 20));
    r
}

impl Request {
    /// Fixed wire length of an Announce request.
    pub const LENGTH: usize = 98;

    /// Builds an Announce request for a torrent: counters start at zero,
    /// everything is still left to download, the tracker may infer the
    /// client's address and send as many peers as it wants, and the
    /// transaction id is drawn at random.
    pub fn new(connection_id: u64, infohash: [u8; 20], peer_id: [u8; 20], port: u16) -> (r:
        Request)
        ensures
            r.connection_id == connection_id,
            r.action == ACTION_ANNOUNCE,
            r.infohash == infohash,
            r.peer_id == peer_id,
            r.downloaded == 0,
            r.left == u64::MAX,
            r.uploaded == 0,
            r.event == 0,
            r.ip_address == 0,
            r.num_want == u32::MAX,
            r.port == port,
    {
        Request {
            connection_id,
            action: ACTION_ANNOUNCE,
            transaction_id: crate::rng::random_u32(),
            infohash,
            peer_id,
            downloaded: 0,
            left: u64::MAX,
            uploaded: 0,
            event: 0,
            ip_address: 0,
            num_want: u32::MAX,
            port,
        }
    }

    /// Encodes this request into its exact 98-byte big-endian layout.
    pub fn serialize(&self) -> (r: Vec<u8>)
        ensures
            r@ == request_bytes(self@),
            r@.len() == 98,
    {
        let mut out: Vec<u8> = Vec::new();
        push_u64(&mut out, self.connection_id);
        push_u32(&mut out, self.action);
        push_u32(&mut out, self.transaction_id);
        push_id20(&mut out, &self.infohash);
        push_id20(&mut out, &self.peer_id);
        push_u64(&mut out, self.downloaded);
        push_u64(&mut out, self.left);
        push_u64(&mut out, self.uploaded);
        push_u64(&mut out, self.event);
        push_u32(&mut out, self.ip_address);
        push_u32(&mut out, self.num_want);
        push_u16(&mut out, self.port);
        proof {
            assert(out@ =~= request_bytes(self@));
        }
        out
    }

    /// Decodes an Announce request from a buffer of exactly 98 bytes; any
    /// other length is a `LengthMismatch`.
    pub fn deserialize(buf: &[u8]) -> (r: Result<(Request, &[u8]), TrackerError>)
        ensures
            match r {
                Ok((m, rest)) => {
                    &&& buf@.len() == 98
                    &&& m@ == request_of_bytes(buf@)
                    &&& rest@ == buf@.skip(98)
                },
                Err(e) => {
                    &&& buf@.len() != 98
                    &&& e == TrackerError::LengthMismatch
                },
            },
    {
        if buf.len() != Self::LENGTH {
            return Err(TrackerError::LengthMismatch);
        }
        let m = Request {
            connection_id: read_u64(buf, 0),
            action: read_u32(buf, 8),
            transaction_id: read_u32(buf, 12),
            infohash: read_id20(buf, 16),
            peer_id: read_id20(buf, 36),
            downloaded: read_u64(buf, 56),
            left: read_u64(buf, 64),
            uploaded: read_u64(buf, 72),
            event: read_u64(buf, 80),
            ip_address: read_u32(buf, 88),
            num_want: read_u32(buf, 92),
            port: read_u16(buf, 96),
        };
        let rest = slice_subrange(buf, Self::LENGTH, buf.len());
        proof {
            assert(m@ =~= request_of_bytes(buf@));
            assert(rest@ =~= buf@.skip(98));
        }
        Ok((m, rest))
    }
}

/// An Announce response: action, the echoed transaction id, the seconds to
/// wait before the next announce, and the swarm's leech and seed counts.
/// Minimum wire length 20; a peer list may follow and is left to callers.
#[derive(Debug, Clone, Copy, PartialEq, Eq, Structural)]
pub struct Response {
    pub action: u32,
    pub transaction_id: u32,
    pub interval: u32,
    pub leechers: u32,
    pub seeders: u32,
}

/// The 20 header bytes of an Announce response: action(0:4),
/// transaction_id(4:4), interval(8:4), leechers(12:4), seeders(16:4).
pub open spec fn response_bytes(m: Response) -> Seq<u8> {
    u32_bytes(m.action) + u32_bytes(m.transaction_id) + u32_bytes(m.interval) + u32_bytes(
        m.leechers) + u32_bytes(m.seeders)
}

/// The Announce response denoted by the first 20 bytes of a buffer.
pub open spec fn response_of_bytes(s: Seq<u8>) -> Response
    recommends
        s.len() >= 20,
{
    Response {
        action: u32_of_bytes(s.subrange(0, 4)),
        transaction_id: u32_of_bytes(s.subrange(4, 8)),
        interval: u32_of_bytes(s.subrange(8, 12)),
        leechers: u32_of_bytes(s.subrange(12, 16)),
        seeders: u32_of_bytes(s.subrange(16, 20)),
    }
}

impl Response {
    /// Minimum wire length of an Announce response.
    pub const LENGTH: usize = 20;

    /// Encodes this response into its exact 20-byte big-endian header
    /// layout, with no peer list.
    pub fn serialize(&self) -> (r: Vec<u8>)
        ensures
            r@ == response_bytes(*self),
            r@.len() == 20,
    {
        let mut out: Vec<u8> = Vec::new();
        push_u32(&mut out, self.action);
        push_u32(&mut out, self.transaction_id);
        push_u32(&mut out, self.interval);
        push_u32(&mut out, self.leechers);
        push_u32(&mut out, self.seeders);
        proof {
            assert(out@ =~= response_bytes(*self));
        }
        out
    }

    /// Decodes an Announce response from a buffer of at least 20 bytes; a
    /// shorter buffer is a `LengthMismatch`. The rest of the buffer, the
    /// peer list if the tracker sent one, is returned undecoded.
    pub fn deserialize(buf: &[u8]) -> (r: Result<(Response, &[u8]), TrackerError>)
        ensures
            match r {
                Ok((m, rest)) => {
                    &&& buf@.len() >= 20
                    &&& m == response_of_bytes(buf@)
                    &&& rest@ == buf@.skip(20)
                },
                Err(e) => {
                    &&& buf@.len() < 20
                    &&& e == TrackerError::LengthMismatch
                },
            },
    {
        if buf.len() < Self::LENGTH {
            return Err(TrackerError::LengthMismatch);
        }
        let m = Response {
            action: read_u32(buf, 0),
            transaction_id: read_u32(buf, 4),
            interval: read_u32(buf, 8),
            leechers: read_u32(buf, 12),
            seeders: read_u32(buf, 16),
        };
        let rest = slice_subrange(buf, Self::LENGTH, buf.len());
        proof {
            assert(rest@ =~= buf@.skip(20));
        }
        Ok((m, rest))
    }
}

/// An Error response: action 3, the echoed transaction id, and the
/// tracker's human-readable message. Minimum wire length 8.
#[derive(Debug, Clone, PartialEq, Eq)]
pub struct ErrorResponse {
    pub action: u32,
    pub transaction_id: u32,
    pub message: Vec<u8>,
}

/// The bytes of an Error response: action(0:4), transaction_id(4:4),
/// message(8:rest).
pub open spec fn error_response_bytes(action: u32, transaction_id: u32, message: Seq<u8>)
    -> Seq<u8> {
    u32_bytes(action) + u32_bytes(transaction_id) + message
}

impl ErrorResponse {
    /// Minimum wire length of an Error response.
    pub const LENGTH: usize = 8;

    /// Encodes this response: the 8-byte header followed by the message.
    pub fn serialize(&self) -> (r: Vec<u8>)
        ensures
            r@ == error_response_bytes(self.action, self.transaction_id, self.message@),
            r@.len() == 8 + self.message@.len(),
    {
        let mut out: Vec<u8> = Vec::new();
        push_u32(&mut out, self.action);
        push_u32(&mut out, self.transaction_id);
        let mut i: usize = 0;
        let n = self.message.len();
        while i < n
            invariant
                i <= n,
                n == self.message@.len(),
                out@ == u32_bytes(self.action) + u32_bytes(self.transaction_id)
                    + self.message@.subrange(0, i as int),
            decreases n - i,
        {
            out.push(self.message[i]);
            i = i + 1;
            assert(out@ =~= u32_bytes(self.action) + u32_bytes(self.transaction_id)
                + self.message@.subrange(0, i as int));
        }
        proof {
            assert(self.message@.subrange(0, n as int) =~= self.message@);
        }
        out
    }

    /// Decodes an Error response from a buffer of at least 8 bytes; a
    /// shorter buffer is a `LengthMismatch`. Everything after the header is
    /// the message.
    pub fn deserialize(buf: &[u8]) -> (r: Result<ErrorResponse, TrackerError>)
        ensures
            match r {
                Ok(m) => {
                    &&& buf@.len() >= 8
                    &&& m.action == u32_of_bytes(buf@.subrange(0, 4))
                    &&& m.transaction_id == u32_of_bytes(buf@.subrange(4, 8))
                    &&& m.message@ == buf@.skip(8)
                },
                Err(e) => {
                    &&& buf@.len() < 8
                    &&& e == TrackerError::LengthMismatch
                },
            },
    {
        if buf.len() < Self::LENGTH {
            return Err(TrackerError::LengthMismatch);
        }
        let action = read_u32(buf, 0);
        let transaction_id = read_u32(buf, 4);
        let tail = slice_subrange(buf, Self::LENGTH, buf.len());
        let message = slice_to_vec(tail);
        proof {
            assert(message@ =~= buf@.skip(8));
        }
        Ok(ErrorResponse { action, transaction_id, message })
    }
}

/// Decoding the encoding of an Announce request yields the request itself,
/// for every request whose identifiers are 20 bytes long.
pub proof fn lemma_request_round_trip(f: RequestImage)
    requires
        f.infohash.len() == 20,
        f.peer_id.len() == 20,
    ensures
        request_of_bytes(request_bytes(f)) == f,
{
    let s = request_bytes(f);
    assert(s.subrange(0, 8) =~= u64_bytes(f.connection_id));
    assert(s.subrange(8, 12) =~= u32_bytes(f.action));
    assert(s.subrange(12, 16) =~= u32_bytes(f.transaction_id));
    assert(s.subrange(16, 36) =~= f.infohash);
    assert(s.subrange(36, 56) =~= f.peer_id);
    assert(s.subrange(56, 64) =~= u64_bytes(f.downloaded));
    assert(s.subrange(64, 72) =~= u64_bytes(f.left));
    assert(s.subrange(72, 80) =~= u64_bytes(f.uploaded));
    assert(s.subrange(80, 88) =~= u64_bytes(f.event));
    assert(s.subrange(88, 92) =~= u32_bytes(f.ip_address));
    assert(s.subrange(92, 96) =~= u32_bytes(f.num_want));
    assert(s.subrange(96, 98) =~= u16_bytes(f.port));
    lemma_u64_round_trip(f.connection_id);
    lemma_u32_round_trip(f.action);
    lemma_u32_round_trip(f.transaction_id);
    lemma_u64_round_trip(f.downloaded);
    lemma_u64_round_trip(f.left);
    lemma_u64_round_trip(f.uploaded);
    lemma_u64_round_trip(f.event);
    lemma_u32_round_trip(f.ip_address);
    lemma_u32_round_trip(f.num_want);
    lemma_u16_round_trip(f.port);
    assert(request_of_bytes(request_bytes(f)) =~= f);
}

/// Decoding the encoding of an Announce response yields the response
/// itself.
pub proof fn lemma_response_round_trip(m: Response)
    ensures
        response_of_bytes(response_bytes(m)) == m,
{
    let s = response_bytes(m);
    assert(s.subrange(0, 4) =~= u32_bytes(m.action));
    assert(s.subrange(4, 8) =~= u32_bytes(m.transaction_id));
    assert(s.subrange(8, 12) =~= u32_bytes(m.interval));
    assert(s.subrange(12, 16) =~= u32_bytes(m.leechers));
    assert(s.subrange(16, 20) =~= u32_bytes(m.seeders));
    lemma_u32_round_trip(m.action);
    lemma_u32_round_trip(m.transaction_id);
    lemma_u32_round_trip(m.interval);
    lemma_u32_round_trip(m.leechers);
    lemma_u32_round_trip(m.seeders);
}

/// Decoding the encoding of an Error response yields the header fields and
/// the message unchanged.
pub proof fn lemma_error_response_round_trip(action: u32, transaction_id: u32, message: Seq<u8>)
    ensures
        u32_of_bytes(error_response_bytes(action, transaction_id, message).subrange(0, 4))
            == action,
        u32_of_bytes(error_response_bytes(action, transaction_id, message).subrange(4, 8))
            == transaction_id,
        error_response_bytes(action, transaction_id, message).skip(8) == message,
{
    let s = error_response_bytes(action, transaction_id, message);
    assert(s.subrange(0, 4) =~= u32_bytes(action));
    assert(s.subrange(4, 8) =~= u32_bytes(transaction_id));
    assert(s.skip(8) =~= message);
    lemma_u32_round_trip(action);
    lemma_u32_round_trip(transaction_id);
}

/// Decoding the encoding of a Connect request yields the request itself.
pub proof fn lemma_connect_request_round_trip(m: ConnectRequest)
    ensures
        connect_request_of_bytes(connect_request_bytes(m)) == m,
{
    let s = connect_request_bytes(m);
    assert(s.subrange(0, 8) =~= u64_bytes(m.connection_id));
    assert(s.subrange(8, 12) =~= u32_bytes(m.action));
    assert(s.subrange(12, 16) =~= u32_bytes(m.transaction_id));
    lemma_u64_round_trip(m.connection_id);
    lemma_u32_round_trip(m.action);
    lemma_u32_round_trip(m.transaction_id);
}

/// Decoding the encoding of a Connect response yields the response itself.
pub proof fn lemma_connect_response_round_trip(m: ConnectResponse)
    ensures
        connect_response_of_bytes(connect_response_bytes(m)) == m,
{
    let s = connect_response_bytes(m);
    assert(s.subrange(0, 4) =~= u32_bytes(m.action));
    assert(s.subrange(4, 8) =~= u32_bytes(m.transaction_id));
    assert(s.subrange(8, 16) =~= u64_bytes(m.connection_id));
    lemma_u32_round_trip(m.action);
    lemma_u32_round_trip(m.transaction_id);
    lemma_u64_round_trip(m.connection_id);
}

} // verus!
