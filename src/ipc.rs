//! The wire format between the control client and the daemon: every message
//! travels as a 4-byte big-endian length followed by exactly that many bytes of
//! payload, in both directions.

use vstd::prelude::*;

verus! {

/// Number of bytes in a frame's length prefix.
pub const HEADER_LEN: usize = 4;

/// The unsigned integer written big-endian by four bytes.
pub open spec fn be_u32(b: Seq<u8>) -> int {
    b[0] as int * 16777216 + b[1] as int * 65536 + b[2] as int * 256 + b[3] as int
}

/// The four bytes that write `n` big-endian.
pub open spec fn be_bytes(n: int) -> Seq<u8> {
    seq![
        (n / 16777216) as u8,
        ((n / 65536) % 256) as u8,
        ((n / 256) % 256) as u8,
        (n % 256) as u8,
    ]
}

/// The largest payload whose length a prefix can state.
pub open spec fn max_payload() -> int {
    u32::MAX as int
}

/// The frame that carries `payload`.
pub open spec fn frame_of(payload: Seq<u8>) -> Seq<u8> {
    be_bytes(payload.len() as int) + payload
}

/// The first complete frame at the front of `s`: its payload and the bytes after it.
pub open spec fn parse_frame(s: Seq<u8>) -> Option<(Seq<u8>, Seq<u8>)> {
    if s.len() >= 4 && s.len() >= 4 + be_u32(s.take(4)) {
        let end = 4 + be_u32(s.take(4));
        Some((s.subrange(4, end), s.skip(end)))
    } else {
        None
    }
}

/// Why a frame could not be produced or read.
#[derive(Clone, Copy, Debug, PartialEq, Eq, Structural)]
pub enum FrameError {
    /// The payload is longer than a length prefix can state.
    TooLarge,
    /// The connection closed in the middle of a frame.
    Truncated,
    /// The connection closed before any byte of a frame arrived.
    Closed,
}

pub proof fn lemma_be_round_trip(n: int)
    requires
        0 <= n <= u32::MAX,
    ensures
        be_u32(be_bytes(n)) == n,
{
    let b = be_bytes(n);
    assert(0 <= n / 16777216 < 256) by (nonlinear_arith)
        requires
            0 <= n <= 4294967295,
    ;
    assert(b[0] as int == n / 16777216);
    assert(n == (n / 16777216) * 16777216 + ((n / 65536) % 256) * 65536 + ((n / 256) % 256)
        * 256 + n % 256) by (nonlinear_arith)
        requires
            0 <= n,
    ;
}

/// Reads the length that a frame header states.
pub fn decode_len(header: &[u8]) -> (r: u32)
    requires
        header@.len() == HEADER_LEN,
    ensures
        r as int == be_u32(header@),
{
    let r = header[0] as u32 * 16777216 + header[1] as u32 * 65536 + header[2] as u32 * 256
        + header[3] as u32;
    r
}

/// Writes `n` as a frame header.
pub fn encode_len(n: u32) -> (r: [u8; 4])
    ensures
        r@ == be_bytes(n as int),
{
    let r = [(n / 16777216) as u8, ((n / 65536) % 256) as u8, ((n / 256) % 256) as u8, (n % 256) as u8];
    assert(r@ =~= be_bytes(n as int));
    r
}

/// Puts `payload` into a frame; refused when its length does not fit the prefix.
pub fn encode_frame(payload: &[u8]) -> (r: Result<Vec<u8>, FrameError>)
    ensures
        payload@.len() <= max_payload() ==> (r matches Ok(f) && f@ == frame_of(payload@)),
        payload@.len() > max_payload() ==> r == Err::<Vec<u8>, FrameError>(FrameError::TooLarge),
{
    if payload.len() > 4294967295 {
        return Err(FrameError::TooLarge);
    }
    let header = encode_len(payload.len() as u32);
    let mut out: Vec<u8> = Vec::new();
    let mut i: usize = 0;
    while i < HEADER_LEN
        invariant
            i <= 4,
            header@ == be_bytes(payload@.len() as int),
            out@ == header@.take(i as int),
        decreases 4 - i,
    {
        out.push(header[i]);
        i = i + 1;
    }
    let mut j: usize = 0;
    while j < payload.len()
        invariant
            j <= payload@.len(),
            out@ == header@ + payload@.take(j as int),
            header@.len() == 4,
        decreases payload@.len() - j,
    {
        out.push(payload[j]);
        j = j + 1;
        assert(payload@.take(j as int) =~= payload@.take(j - 1).push(payload@[j - 1]));
    }
    assert(payload@.take(payload@.len() as int) =~= payload@);
    Ok(out)
}

fn copy_range(s: &[u8], from: usize, to: usize) -> (r: Vec<u8>)
    requires
        from <= to <= s@.len(),
    ensures
        r@ == s@.subrange(from as int, to as int),
{
    let mut out: Vec<u8> = Vec::new();
    let mut i: usize = from;
    while i < to
        invariant
            from <= i <= to,
            to <= s@.len(),
            out@ == s@.subrange(from as int, i as int),
        decreases to - i,
    {
        out.push(s[i]);
        i = i + 1;
        assert(s@.subrange(from as int, i as int) =~= s@.subrange(from as int, i - 1).push(
            s@[i - 1],
        ));
    }
    out
}

/// Takes the first complete frame off the front of `buf`: its payload and the
/// number of bytes it spanned, or `None` while the frame is incomplete.
pub fn decode_frame(buf: &[u8]) -> (r: Option<(Vec<u8>, usize)>)
    ensures
        match (r, parse_frame(buf@)) {
            (None, None) => true,
            (Some((p, used)), Some((q, rest))) => p@ == q && used + rest.len() == buf@.len(),
            _ => false,
        },
{
    if buf.len() < HEADER_LEN {
        return None;
    }
    let n = decode_len(&buf[0..4]);
    assert(buf@.subrange(0, 4) =~= buf@.take(4));
    if ((buf.len() - 4) as u64) < n as u64 {
        return None;
    }
    let end = 4 + n as usize;
    let payload = copy_range(buf, 4, end);
    Some((payload, end))
}

/// Accumulates the bytes read from a connection and hands out whole frames.
pub struct FrameDecoder {
    buf: Vec<u8>,
}

impl View for FrameDecoder {
    type V = Seq<u8>;

    /// The bytes received and not yet handed out.
    closed spec fn view(&self) -> Seq<u8> {
        self.buf@
    }
}

impl FrameDecoder {
    pub fn new() -> (r: FrameDecoder)
        ensures
            r@ == Seq::<u8>::empty(),
    {
        FrameDecoder { buf: Vec::new() }
    }

    /// Appends bytes that arrived on the connection.
    pub fn feed(&mut self, chunk: &[u8])
        ensures
            final(self)@ == old(self)@ + chunk@,
    {
        let mut i: usize = 0;
        while i < chunk.len()
            invariant
                i <= chunk@.len(),
                self@ == old(self)@ + chunk@.take(i as int),
            decreases chunk@.len() - i,
        {
            self.buf.push(chunk[i]);
            i = i + 1;
            assert(chunk@.take(i as int) =~= chunk@.take(i - 1).push(chunk@[i - 1]));
        }
        assert(chunk@.take(chunk@.len() as int) =~= chunk@);
    }

    /// Hands out the payload of the first complete frame, if one has arrived,
    /// and keeps the bytes after it.
    pub fn next_frame(&mut self) -> (r: Option<Vec<u8>>)
        ensures
            match parse_frame(old(self)@) {
                Some((p, rest)) => (r matches Some(q) && q@ == p) && final(self)@ == rest,
                None => r is None && final(self)@ == old(self)@,
            },
    {
        match decode_frame(self.buf.as_slice()) {
            None => None,
            Some((payload, used)) => {
                let rest = copy_range(self.buf.as_slice(), used, self.buf.len());
                self.buf = rest;
                Some(payload)
            },
        }
    }

    /// What the end of the connection means here: a clean close between frames,
    /// or a frame cut short.
    pub fn close(&self) -> (r: FrameError)
        ensures
            self@.len() == 0 ==> r == FrameError::Closed,
            self@.len() > 0 ==> r == FrameError::Truncated,
    {
        if self.buf.len() == 0 {
            FrameError::Closed
        } else {
            FrameError::Truncated
        }
    }
}

/// Framing then reading gives back the payload, and leaves what followed the frame.
pub proof fn lemma_frame_round_trip(payload: Seq<u8>, rest: Seq<u8>)
    requires
        payload.len() <= max_payload(),
    ensures
        parse_frame(frame_of(payload) + rest) == Some((payload, rest)),
{
    let s = frame_of(payload) + rest;
    lemma_be_round_trip(payload.len() as int);
    assert(s.take(4) =~= be_bytes(payload.len() as int));
    assert(s.subrange(4, 4 + payload.len() as int) =~= payload);
    assert(s.skip(4 + payload.len() as int) =~= rest);
}

/// The daemon's answer to one request.
#[derive(Debug)]
pub enum Reply {
    /// The request was carried out.
    Success,
    /// The request failed, for the reason given.
    Error(String),
}

impl Reply {
    /// `Success` for a success; for a failure, an error that carries its message.
    pub fn from_result<T>(result: Result<T, String>) -> (r: Reply)
        ensures
            result is Ok ==> r is Success,
            result matches Err(e) ==> (r matches Reply::Error(m) && m@ == e@),
    {
        match result {
            Ok(_) => Reply::Success,
            Err(e) => Reply::Error(e),
        }
    }
}

} // verus!
