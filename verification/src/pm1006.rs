//! The particulate sensor's framed serial protocol.
//!
//! The request frame is a fixed five-byte command. A response frame is
//! `header, length N, N data bytes, checksum`: the header must be `0x16`,
//! the first data byte must echo the command `0x0b`, and the trailing byte
//! must bring the 8-bit wrapping sum of header, length and data to zero.
//! The reading is `DF3 * 256 + DF4`, the fourth and fifth data bytes; the
//! remaining data bytes are reserved and ignored. Validation runs byte for
//! byte in this exact order and the first divergence aborts decoding.

use vstd::prelude::*;
use vstd::arithmetic::div_mod::lemma_add_mod_noop_right;

verus! {

/// Why a response frame was rejected: a wrong header byte, a wrong command
/// echo, or a nonzero checksum residue (each error carries the byte seen).
#[derive(Debug, Clone, Copy, PartialEq, Eq)]
pub enum Error {
    InvalidHeader(u8),
    InvalidCommandResponse(u8),
    InvalidChecksum(u8),
}

/// The 8-bit wrapping sum of a byte sequence.
pub open spec fn checksum_sum(s: Seq<u8>) -> u8
    decreases s.len(),
{
    if s.len() == 0 {
        0
    } else {
        ((checksum_sum(s.drop_last()) + s.last()) % 256) as u8
    }
}

/// The number of data bytes a frame declares.
pub open spec fn data_len(s: Seq<u8>) -> int {
    s[1] as int
}

/// The checksum residue of a frame: the wrapping sum of header, length and
/// data bytes plus the trailing checksum byte. A well-formed frame brings
/// it to zero.
pub open spec fn checksum_diff(s: Seq<u8>) -> u8 {
    ((checksum_sum(s.take(2 + data_len(s))) + s[2 + data_len(s)]) % 256) as u8
}

/// The reading carried by a frame: `DF3 * 256 + DF4`, each term present
/// only when the declared data length reaches it.
pub open spec fn decoded_value(s: Seq<u8>) -> u16 {
    ((if data_len(s) >= 4 {
        256 * (s[5] as int)
    } else {
        0
    }) + (if data_len(s) >= 5 {
        s[6] as int
    } else {
        0
    })) as u16
}

/// What decoding a response frame returns: the header is checked first,
/// then the command echo (when there is at least one data byte), then the
/// checksum; a frame that passes all three yields its reading.
pub open spec fn decode_response(s: Seq<u8>) -> Result<u16, Error>
    recommends
        s.len() >= 3 + data_len(s),
{
    if s[0] != 0x16 {
        Err(Error::InvalidHeader(s[0]))
    } else if data_len(s) >= 1 && s[2] != 0x0b {
        Err(Error::InvalidCommandResponse(s[2]))
    } else if checksum_diff(s) != 0 {
        Err(Error::InvalidChecksum(checksum_diff(s)))
    } else {
        Ok(decoded_value(s))
    }
}

/// The fixed request frame: header, length, command, argument, checksum.
pub open spec fn request_frame() -> Seq<u8> {
    seq![0x11u8, 0x02u8, 0x0bu8, 0x01u8, 0xe1u8]
}

/// Extending a prefix sum by one byte adds that byte, wrapping.
proof fn lemma_sum_take_step(s: Seq<u8>, k: int)
    requires
        0 <= k < s.len(),
    ensures
        checksum_sum(s.take(k + 1)) == ((checksum_sum(s.take(k)) + s[k]) % 256) as u8,
{
    assert(s.take(k + 1).drop_last() =~= s.take(k));
    assert(s.take(k + 1).last() == s[k]);
}

/// Replacing one byte shifts the wrapping sum by the difference of the new
/// and old byte, modulo 256.
proof fn lemma_sum_update(s: Seq<u8>, j: int, v: u8)
    requires
        0 <= j < s.len(),
    ensures
        checksum_sum(s.update(j, v)) as int == (checksum_sum(s) + v - s[j]) % 256,
    decreases s.len(),
{
    let t = s.update(j, v);
    if j == s.len() - 1 {
        assert(t.drop_last() =~= s.drop_last());
        assert(checksum_sum(t) as int == (checksum_sum(s.drop_last()) + v) % 256);
        lemma_add_mod_noop_right(v - s[j], checksum_sum(s.drop_last()) + s[j], 256);
    } else {
        assert(t.drop_last() =~= s.drop_last().update(j, v));
        assert(t.last() == s.last());
        lemma_sum_update(s.drop_last(), j, v);
        // sum(t) == ((sum(s.drop_last()) + v - s[j]) % 256 + s.last()) % 256
        lemma_add_mod_noop_right(
            s.last() as int,
            checksum_sum(s.drop_last()) + v - s[j],
            256,
        );
        // == (sum(s.drop_last()) + s.last() + v - s[j]) % 256
        lemma_add_mod_noop_right(
            v - s[j],
            checksum_sum(s.drop_last()) + s.last(),
            256,
        );
        // == (sum(s) + v - s[j]) % 256
    }
}

/// Flipping any single data byte of a frame that decodes successfully makes
/// decoding fail: the command echo check rejects a changed command byte,
/// and the checksum rejects any other changed data byte, since the sum
/// shifts by exactly the nonzero difference of the two bytes.
pub proof fn lemma_flip_data_byte(s: Seq<u8>, j: int, v: u8)
    requires
        s.len() >= 3 + data_len(s),
        decode_response(s) is Ok,
        2 <= j < 2 + data_len(s),
        v != s[j],
    ensures
        j == 2 ==> decode_response(s.update(j, v)) == Err::<u16, Error>(
            Error::InvalidCommandResponse(v),
        ),
        j != 2 ==> decode_response(s.update(j, v)) == Err::<u16, Error>(
            Error::InvalidChecksum((((v - s[j]) % 256) as u8)),
        ),
        decode_response(s.update(j, v)) is Err,
{
    let t = s.update(j, v);
    assert(t[0] == s[0] && t[1] == s[1]);
    if j == 2 {
        assert(s[2] == 0x0b);
    } else {
        let end = 2 + data_len(s);
        assert(t.take(end) =~= s.take(end).update(j, v));
        lemma_sum_update(s.take(end), j, v);
        assert(s.take(end)[j] == s[j]);
        assert(checksum_sum(t.take(end)) as int == (checksum_sum(s.take(end)) + v - s[j]) % 256);
        assert(t[end] == s[end]);
        lemma_add_mod_noop_right(
            s[end] as int,
            checksum_sum(s.take(end)) + v - s[j],
            256,
        );
        lemma_add_mod_noop_right(
            v - s[j],
            checksum_sum(s.take(end)) + s[end],
            256,
        );
        assert(checksum_diff(s) == 0);
        assert(checksum_diff(t) as int == (v - s[j]) % 256);
        assert((v - s[j]) % 256 != 0);
    }
}

/// Encodes the fixed request frame that asks the sensor for a reading.
/// Its own trailing byte brings the frame's wrapping sum to zero.
pub fn encode_request() -> (r: Vec<u8>)
    ensures
        r@ == request_frame(),
        checksum_sum(r@) == 0,
{
    let mut frame: Vec<u8> = Vec::new();
    frame.push(0x11);
    frame.push(0x02);
    frame.push(0x0b);
    frame.push(0x01);
    frame.push(0xe1);
    assert(frame@ =~= request_frame());
    proof {
        reveal_with_fuel(checksum_sum, 6);
        assert(request_frame().drop_last() =~= seq![0x11u8, 0x02u8, 0x0bu8, 0x01u8]);
        assert(seq![0x11u8, 0x02u8, 0x0bu8, 0x01u8].drop_last() =~= seq![0x11u8, 0x02u8, 0x0bu8]);
        assert(seq![0x11u8, 0x02u8, 0x0bu8].drop_last() =~= seq![0x11u8, 0x02u8]);
        assert(seq![0x11u8, 0x02u8].drop_last() =~= seq![0x11u8]);
        assert(seq![0x11u8].drop_last() =~= Seq::<u8>::empty());
    }
    frame
}

/// Decodes and validates a response frame, returning the PM2.5 reading in
/// micrograms per cubic meter. The slice must reach past the declared data
/// bytes and the trailing checksum.
pub fn parse_response(response: &[u8]) -> (r: Result<u16, Error>)
    requires
        response@.len() >= 3 + data_len(response@),
    ensures
        r == decode_response(response@),
{
    let ghost s = response@;
    if response[0] != 0x16 {
        return Err(Error::InvalidHeader(response[0]));
    }

    let length = response[1];
    let mut checksum: u8 = response[0].wrapping_add(response[1]);
    proof {
        lemma_sum_take_step(s, 0);
        lemma_sum_take_step(s, 1);
        assert(s.take(0) =~= Seq::<u8>::empty());
        assert(checksum == checksum_sum(s.take(2)));
    }

    let mut result: u16 = 0;
    let mut i: usize = 0;
    while i < length as usize
        invariant
            s == response@,
            s.len() >= 3 + length,
            length == s[1],
            s[0] == 0x16,
            0 <= i <= length,
            checksum == checksum_sum(s.take(2 + i)),
            i >= 1 ==> s[2] == 0x0b,
            result == ((if i >= 4 {
                256 * (s[5] as int)
            } else {
                0
            }) + (if i >= 5 {
                s[6] as int
            } else {
                0
            })) as u16,
        decreases length - i,
    {
        let byte = response[2 + i];
        if i == 0 {
            if byte != 0x0b {
                return Err(Error::InvalidCommandResponse(byte));
            }
        } else if i == 3 {
            result = byte as u16 * 256;
        } else if i == 4 {
            result += byte as u16;
        }
        checksum = checksum.wrapping_add(byte);
        proof {
            lemma_sum_take_step(s, 2 + i);
        }
        i += 1;
    }

    let expected_checksum = response[2 + length as usize];
    let diff = expected_checksum.wrapping_add(checksum);
    assert(diff == checksum_diff(s));
    if diff != 0 {
        return Err(Error::InvalidChecksum(diff));
    }

    assert(result == decoded_value(s));
    Ok(result)
}

} // verus!
