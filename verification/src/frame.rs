//! Length-prefixed byte frames.
//!
//! Every frame is a 4-byte big-endian length followed by that many payload
//! bytes. The reading side refuses a frame longer than its limit, which is its
//! TUN MTU: a packet read from the device never exceeds it, so a larger frame
//! means that the two peers run with different `--mtu` values.

use vstd::prelude::*;
use vstd::slice::{slice_subrange, slice_to_vec};

verus! {

/// Number of bytes of the length prefix.
pub const HEADER_LEN: usize = 4;

/// Why a frame could not be written or read.
#[derive(Debug, Clone, Copy, PartialEq, Eq, Structural)]
pub enum FrameError {
    /// The peer announced a frame of `len` bytes, above the limit `max`.
    TooLarge { len: usize, max: usize },
    /// The payload is longer than the 32-bit length prefix can state.
    TooLong,
    /// The input ended before the frame did.
    Truncated,
}

/// The number that four bytes state in big-endian order.
pub open spec fn be_value(b: Seq<u8>) -> int {
    b[0] * 0x100_0000 + b[1] * 0x1_0000 + b[2] * 0x100 + b[3]
}

/// The four big-endian bytes of `n`, for `0 <= n <= u32::MAX`.
pub open spec fn be_bytes(n: int) -> Seq<u8> {
    seq![
        (n / 0x100_0000 % 0x100) as u8,
        (n / 0x1_0000 % 0x100) as u8,
        (n / 0x100 % 0x100) as u8,
        (n % 0x100) as u8,
    ]
}

/// The bytes of the frame that carries `data`.
pub open spec fn frame_bytes(data: Seq<u8>) -> Seq<u8> {
    be_bytes(data.len() as int) + data
}

/// What writing `data` as a frame gives: its bytes, or `TooLong` when the
/// length does not fit the prefix.
pub open spec fn encode_result(data: Seq<u8>) -> Result<Seq<u8>, FrameError> {
    if data.len() <= u32::MAX {
        Ok(frame_bytes(data))
    } else {
        Err(FrameError::TooLong)
    }
}

/// The payload length that a 4-byte header announces, checked against `max`.
pub open spec fn header_result(max: usize, header: Seq<u8>) -> Result<usize, FrameError> {
    let len = be_value(header);
    if len > max {
        Err(FrameError::TooLarge { len: len as usize, max })
    } else {
        Ok(len as usize)
    }
}

/// What reading one frame from the front of `buf` gives, with limit `max`:
/// the number of bytes the frame takes and its payload.
pub open spec fn decode_result(max: usize, buf: Seq<u8>) -> Result<(int, Seq<u8>), FrameError> {
    if buf.len() < HEADER_LEN {
        Err(FrameError::Truncated)
    } else {
        match header_result(max, buf.take(HEADER_LEN as int)) {
            Err(e) => Err(e),
            Ok(len) => if buf.len() < HEADER_LEN + len {
                Err(FrameError::Truncated)
            } else {
                Ok((HEADER_LEN + len, buf.subrange(HEADER_LEN as int, HEADER_LEN + len)))
            },
        }
    }
}

/// Length-prefixed byte frames. `max_frame_len` is the TUN MTU: a packet read
/// from the device can never exceed it, so anything larger from the peer means
/// the two sides run with different `--mtu` values.
#[derive(Clone, Copy, Debug)]
pub struct BytesCodec {
    max_frame_len: usize,
}

impl BytesCodec {
    /// The largest payload this codec accepts from the peer.
    pub closed spec fn limit(&self) -> usize {
        self.max_frame_len
    }

    pub fn new(max_frame_len: usize) -> (codec: Self)
        ensures
            codec.limit() == max_frame_len,
    {
        Self { max_frame_len }
    }

    /// Reads the length prefix of an incoming frame: the payload length, or
    /// `TooLarge` when it exceeds the limit.
    pub fn frame_len(&self, header: [u8; 4]) -> (r: Result<usize, FrameError>)
        ensures
            r == header_result(self.limit(), header@),
    {
        let len: u32 = header_value(header);
        let len: usize = len as usize;
        if len > self.max_frame_len {
            Err(FrameError::TooLarge { len, max: self.max_frame_len })
        } else {
            Ok(len)
        }
    }

    /// Reads one frame from the front of `buf`: the bytes it takes and its
    /// payload.
    pub fn decode(&self, buf: &[u8]) -> (r: Result<(usize, Vec<u8>), FrameError>)
        ensures
            match r {
                Ok((n, payload)) => decode_result(self.limit(), buf@) == Ok::<(int, Seq<u8>), FrameError>((n as int, payload@)),
                Err(e) => decode_result(self.limit(), buf@) == Err::<(int, Seq<u8>), FrameError>(e),
            },
    {
        if buf.len() < HEADER_LEN {
            return Err(FrameError::Truncated);
        }
        let header: [u8; 4] = [buf[0], buf[1], buf[2], buf[3]];
        assert(header@ == buf@.take(4));
        let len = match self.frame_len(header) {
            Ok(len) => len,
            Err(e) => return Err(e),
        };
        if buf.len() - HEADER_LEN < len {
            return Err(FrameError::Truncated);
        }
        let payload = slice_to_vec(slice_subrange(buf, HEADER_LEN, HEADER_LEN + len));
        Ok((HEADER_LEN + len, payload))
    }
}

/// The number that a big-endian 4-byte header states.
fn header_value(header: [u8; 4]) -> (v: u32)
    ensures
        v == be_value(header@),
{
    (header[0] as u32) * 0x100_0000 + (header[1] as u32) * 0x1_0000 + (header[2] as u32) * 0x100
        + (header[3] as u32)
}

/// The length prefix of a frame whose payload is `len` bytes long.
pub fn frame_header(len: usize) -> (r: Result<[u8; 4], FrameError>)
    ensures
        match r {
            Ok(header) => len <= u32::MAX && header@ == be_bytes(len as int),
            Err(e) => len > u32::MAX && e == FrameError::TooLong,
        },
{
    if len > u32::MAX as usize {
        return Err(FrameError::TooLong);
    }
    let n: u32 = len as u32;
    Ok([
        (n / 0x100_0000 % 0x100) as u8,
        (n / 0x1_0000 % 0x100) as u8,
        (n / 0x100 % 0x100) as u8,
        (n % 0x100) as u8,
    ])
}

/// The bytes of the frame that carries `data`: the length prefix, then `data`.
pub fn encode_frame(data: &[u8]) -> (r: Result<Vec<u8>, FrameError>)
    ensures
        match r {
            Ok(bytes) => encode_result(data@) == Ok::<Seq<u8>, FrameError>(bytes@),
            Err(e) => encode_result(data@) == Err::<Seq<u8>, FrameError>(e),
        },
{
    let header = match frame_header(data.len()) {
        Ok(header) => header,
        Err(e) => return Err(e),
    };
    let mut out: Vec<u8> = Vec::new();
    out.extend_from_slice(&header);
    out.extend_from_slice(data);
    assert(out@ == frame_bytes(data@));
    Ok(out)
}


/// Four bytes read back as the number they were made from.
pub proof fn lemma_be_value_of_bytes(n: int)
    requires
        0 <= n <= u32::MAX,
    ensures
        be_bytes(n).len() == 4,
        be_value(be_bytes(n)) == n,
{
    let b = be_bytes(n);
    assert(b[0] == n / 0x100_0000 % 0x100);
    assert(b[1] == n / 0x1_0000 % 0x100);
    assert(b[2] == n / 0x100 % 0x100);
    assert(b[3] == n % 0x100);
    assert(n / 0x100_0000 % 0x100 * 0x100_0000 + n / 0x1_0000 % 0x100 * 0x1_0000 + n / 0x100 % 0x100
        * 0x100 + n % 0x100 == n) by (nonlinear_arith)
        requires
            0 <= n <= u32::MAX,
    ;
}

/// A number read from four bytes, written back, gives the same four bytes.
pub proof fn lemma_be_bytes_of_value(b: Seq<u8>)
    requires
        b.len() == 4,
    ensures
        0 <= be_value(b) <= u32::MAX,
        be_bytes(be_value(b)) == b,
{
    let (b0, b1, b2, b3) = (b[0] as int, b[1] as int, b[2] as int, b[3] as int);
    let n = be_value(b);
    assert(n / 0x100_0000 % 0x100 == b0 && n / 0x1_0000 % 0x100 == b1 && n / 0x100 % 0x100 == b2
        && n % 0x100 == b3) by (nonlinear_arith)
        requires
            0 <= b0 < 256,
            0 <= b1 < 256,
            0 <= b2 < 256,
            0 <= b3 < 256,
            n == b0 * 0x100_0000 + b1 * 0x1_0000 + b2 * 0x100 + b3,
    ;
    assert(be_bytes(n) =~= b);
}

/// What a reader gives back of a write: a payload no longer than the reader's
/// limit, written as a frame and followed by any other bytes, is read back
/// whole, and the frame takes exactly its prefix and its payload. The header
/// alone already announces the payload's length.
pub proof fn law_read_after_write(max: usize, data: Seq<u8>, rest: Seq<u8>)
    requires
        data.len() <= max,
        data.len() <= u32::MAX,
    ensures
        encode_result(data) == Ok::<Seq<u8>, FrameError>(frame_bytes(data)),
        header_result(max, be_bytes(data.len() as int)) == Ok::<usize, FrameError>(
            data.len() as usize,
        ),
        decode_result(max, frame_bytes(data) + rest) == Ok::<(int, Seq<u8>), FrameError>(
            (HEADER_LEN + data.len(), data),
        ),
{
    lemma_be_value_of_bytes(data.len() as int);
    let buf = frame_bytes(data) + rest;
    assert(buf.take(4) =~= be_bytes(data.len() as int));
    assert(buf.subrange(4, 4 + data.len() as int) =~= data);
}

/// A frame whose payload exceeds the reader's limit is refused by the reader,
/// which names the announced length and its own limit.
pub proof fn law_oversized_frame_refused(max: usize, data: Seq<u8>, rest: Seq<u8>)
    requires
        max < data.len() <= u32::MAX,
    ensures
        decode_result(max, frame_bytes(data) + rest) == Err::<(int, Seq<u8>), FrameError>(
            FrameError::TooLarge { len: data.len() as usize, max },
        ),
{
    lemma_be_value_of_bytes(data.len() as int);
    let buf = frame_bytes(data) + rest;
    assert(buf.take(4) =~= be_bytes(data.len() as int));
}

/// A frame that was read, written again, gives back exactly the bytes it was
/// read from, and its payload is within the limit: each payload has one
/// encoding.
pub proof fn law_write_after_read(max: usize, buf: Seq<u8>)
    ensures
        decode_result(max, buf) matches Ok((n, payload)) ==> {
            &&& payload.len() <= max
            &&& encode_result(payload) == Ok::<Seq<u8>, FrameError>(buf.take(n))
        },
{
    if let Ok((n, payload)) = decode_result(max, buf) {
        lemma_be_bytes_of_value(buf.take(4));
        assert(frame_bytes(payload) =~= buf.take(n));
    }
}

/// Reading a frame looks at no byte past it: bytes that follow a complete
/// frame change neither its payload nor its length, so frames can follow each
/// other on one stream.
pub proof fn law_frame_ignores_what_follows(max: usize, buf: Seq<u8>, rest: Seq<u8>)
    ensures
        decode_result(max, buf) is Ok ==> decode_result(max, buf + rest) == decode_result(max, buf),
{
    if let Ok((n, payload)) = decode_result(max, buf) {
        assert((buf + rest).take(4) =~= buf.take(4));
        assert((buf + rest).subrange(4, n) =~= buf.subrange(4, n));
    }
}

/// The length prefix of a payload of `n` bytes is `n` in base 256, most
/// significant digit first, and a whole frame is that prefix followed by the
/// payload itself.
pub proof fn law_header_is_big_endian_length(n: int, data: Seq<u8>)
    requires
        0 <= n <= u32::MAX,
        data.len() <= u32::MAX,
    ensures
        be_bytes(n).len() == 4,
        be_bytes(n)[0] as int * 0x100_0000 + be_bytes(n)[1] as int * 0x1_0000 + be_bytes(n)[2] as int
            * 0x100 + be_bytes(n)[3] as int == n,
        encode_result(data) matches Ok(bytes) && {
            &&& bytes.len() == 4 + data.len()
            &&& bytes[0] as int * 0x100_0000 + bytes[1] as int * 0x1_0000 + bytes[2] as int * 0x100
                + bytes[3] as int == data.len()
            &&& bytes.skip(4) == data
        },
{
    lemma_be_value_of_bytes(n);
    lemma_be_value_of_bytes(data.len() as int);
    let bytes = frame_bytes(data);
    assert(bytes.skip(4) =~= data);
}

/// The header is checked against the limit on its own: a header whose
/// big-endian value exceeds the limit is refused with that value and the
/// limit, and any other header gives its value.
pub proof fn law_header_checked_against_limit(max: usize, h: Seq<u8>)
    requires
        h.len() == 4,
    ensures
        ({
            let v = h[0] as int * 0x100_0000 + h[1] as int * 0x1_0000 + h[2] as int * 0x100
                + h[3] as int;
            &&& v > max ==> header_result(max, h) == Err::<usize, FrameError>(
                FrameError::TooLarge { len: v as usize, max },
            )
            &&& v <= max ==> header_result(max, h) == Ok::<usize, FrameError>(v as usize)
        }),
{
}

/// Reading a frame decides on its header before looking at the payload: once
/// four bytes are there, a length above the limit is refused however many
/// payload bytes follow, even fewer than announced; a length within the limit
/// gives `Truncated` while the payload is incomplete, and the payload once it
/// is complete.
pub proof fn law_decode_decides_on_header_first(max: usize, buf: Seq<u8>)
    requires
        buf.len() >= 4,
    ensures
        ({
            let v = buf[0] as int * 0x100_0000 + buf[1] as int * 0x1_0000 + buf[2] as int * 0x100
                + buf[3] as int;
            &&& v > max ==> decode_result(max, buf) == Err::<(int, Seq<u8>), FrameError>(
                FrameError::TooLarge { len: v as usize, max },
            )
            &&& v <= max && buf.len() < 4 + v ==> decode_result(max, buf) == Err::<
                (int, Seq<u8>),
                FrameError,
            >(FrameError::Truncated)
            &&& v <= max && buf.len() >= 4 + v ==> decode_result(max, buf) == Ok::<
                (int, Seq<u8>),
                FrameError,
            >((4 + v, buf.subrange(4, 4 + v)))
        }),
{
    let h = buf.take(4);
    assert(h[0] == buf[0] && h[1] == buf[1] && h[2] == buf[2] && h[3] == buf[3]);
}

} // verus!
