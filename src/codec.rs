use vstd::prelude::*;

use crate::error::Error;

verus! {

/// Capacity of a session's receive buffer.
pub const RCV_BUFFER_SIZE: usize = 1024;

/// The largest payload length that a frame may announce.
pub const MAX_FRAME: usize = 1024;

/// The number of bytes of a frame's length prefix.
pub const PREFIX_LEN: usize = 4;

/// The largest payload length that a length prefix can hold.
pub const MAX_PREFIXED_LEN: u64 = 0xffff_ffff;

/// The unsigned integer written big-endian in four bytes.
pub open spec fn be_value(b: Seq<u8>) -> nat {
    (b[0] as nat) * 0x100_0000 + (b[1] as nat) * 0x1_0000 + (b[2] as nat) * 0x100 + (b[3] as nat)
}

/// The four big-endian bytes of an integer below `2^32`.
pub open spec fn be_bytes(n: nat) -> Seq<u8> {
    seq![
        (n / 0x100_0000) as u8,
        ((n / 0x1_0000) % 0x100) as u8,
        ((n / 0x100) % 0x100) as u8,
        (n % 0x100) as u8,
    ]
}

/// What a frame announcing `len` payload bytes gives, for a receive buffer of
/// `capacity` bytes: the length, or the framing error that rejects it.
pub open spec fn frame_length_result(len: nat, capacity: nat) -> Result<usize, Error> {
    if len == 0 || len > MAX_FRAME {
        Err(Error::IllegalMessageLength)
    } else if len > capacity {
        Err(Error::InvalidBuffer)
    } else {
        Ok(len as usize)
    }
}

/// Reads the payload length from a frame's prefix and checks it: a length of
/// zero or above `MAX_FRAME` gives `IllegalMessageLength`, one above the
/// buffer's capacity gives `InvalidBuffer`.
pub fn frame_length(header: [u8; 4], capacity: usize) -> (r: Result<usize, Error>)
    ensures
        r == frame_length_result(be_value(header@), capacity as nat),
{
    let len: u64 = (header[0] as u64) * 0x100_0000 + (header[1] as u64) * 0x1_0000 + (
    header[2] as u64) * 0x100 + (header[3] as u64);
    if len == 0 || len > MAX_FRAME as u64 {
        Err(Error::IllegalMessageLength)
    } else if len > capacity as u64 {
        Err(Error::InvalidBuffer)
    } else {
        Ok(len as usize)
    }
}

/// The length prefix of a payload of `len` bytes; a length that does not
/// fit in 32 unsigned bits gives `MessageTooLarge`.
pub fn length_prefix(len: usize) -> (r: Result<[u8; 4], Error>)
    ensures
        len <= MAX_PREFIXED_LEN ==> (r matches Ok(b) && b@ == be_bytes(len as nat)),
        len > MAX_PREFIXED_LEN ==> r == Err::<[u8; 4], Error>(Error::MessageTooLarge),
{
    if len as u64 > MAX_PREFIXED_LEN {
        return Err(Error::MessageTooLarge);
    }
    let n = len as u64;
    let b: [u8; 4] = [
        (n / 0x100_0000) as u8,
        ((n / 0x1_0000) % 0x100) as u8,
        ((n / 0x100) % 0x100) as u8,
        (n % 0x100) as u8,
    ];
    assert(b@ =~= be_bytes(len as nat));
    Ok(b)
}

/// A frame: the payload's length prefix followed by the payload; a payload
/// whose length does not fit in 32 unsigned bits gives `MessageTooLarge`.
pub fn encode_frame(payload: &[u8]) -> (r: Result<Vec<u8>, Error>)
    ensures
        payload@.len() <= MAX_PREFIXED_LEN ==> (r matches Ok(v) && v@ == be_bytes(
            payload@.len(),
        ) + payload@),
        payload@.len() > MAX_PREFIXED_LEN ==> r == Err::<Vec<u8>, Error>(Error::MessageTooLarge),
{
    let prefix = match length_prefix(payload.len()) {
        Ok(p) => p,
        Err(e) => return Err(e),
    };
    let mut out: Vec<u8> = Vec::new();
    let mut i: usize = 0;
    while i < PREFIX_LEN
        invariant
            i <= PREFIX_LEN,
            out@ == prefix@.subrange(0, i as int),
        decreases PREFIX_LEN - i,
    {
        out.push(prefix[i]);
        i = i + 1;
        assert(out@ =~= prefix@.subrange(0, i as int));
    }
    let mut j: usize = 0;
    while j < payload.len()
        invariant
            j <= payload@.len(),
            out@ == prefix@ + payload@.subrange(0, j as int),
        decreases payload@.len() - j,
    {
        out.push(payload[j]);
        j = j + 1;
        assert(out@ =~= prefix@ + payload@.subrange(0, j as int));
    }
    assert(payload@.subrange(0, payload@.len() as int) =~= payload@);
    Ok(out)
}

/// Reading back the prefix written for a length gives that length.
pub proof fn lemma_prefix_round_trip(n: nat)
    requires
        n <= MAX_PREFIXED_LEN,
    ensures
        be_bytes(n).len() == PREFIX_LEN,
        be_value(be_bytes(n)) == n,
{
    let b = be_bytes(n);
    assert(n / 0x100_0000 < 0x100);
    assert(be_value(b) == n) by (nonlinear_arith)
        requires
            n <= 0xffff_ffff,
            b[0] == n / 0x100_0000,
            b[1] == (n / 0x1_0000) % 0x100,
            b[2] == (n / 0x100) % 0x100,
            b[3] == n % 0x100,
            be_value(b) == (b[0] as nat) * 0x100_0000 + (b[1] as nat) * 0x1_0000 + (b[2] as nat)
                * 0x100 + (b[3] as nat),
    ;
}

/// A frame whose prefix announces no payload is rejected.
pub proof fn lemma_empty_frame_rejected(header: Seq<u8>, capacity: nat)
    requires
        header.len() == PREFIX_LEN,
        be_value(header) == 0,
    ensures
        frame_length_result(be_value(header), capacity) == Err::<usize, Error>(
            Error::IllegalMessageLength,
        ),
{
}

/// A frame whose prefix announces one byte more than the largest frame is
/// rejected, whatever the buffer's capacity.
pub proof fn lemma_oversized_frame_rejected(header: Seq<u8>, capacity: nat)
    requires
        header.len() == PREFIX_LEN,
        be_value(header) == MAX_FRAME + 1,
    ensures
        frame_length_result(be_value(header), capacity) is Err,
{
}

} // verus!
