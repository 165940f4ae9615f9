//! The wire format between client and daemon.
//!
//! A request is a 4-byte little-endian tag. The tag 0 stands for `Play` and is
//! followed by the byte length of the command text as an 8-byte little-endian
//! number and by the text itself in UTF-8; the tag 1 stands for `PrintConfig`
//! and is followed by nothing. Bytes after a complete request are ignored.

use crate::daemon::daemon_action::{DaemonAction, DispatchAction};
use vstd::arithmetic::div_mod::{
    lemma_div_denominator, lemma_fundamental_div_mod, lemma_fundamental_div_mod_converse,
    lemma_small_mod,
};
use vstd::prelude::*;
use vstd::slice::{slice_subrange, slice_to_vec};
use vstd::string::*;
use vstd::utf8::*;

verus! {

/// The tag of a `Play` request.
pub const TAG_PLAY: u32 = 0;

/// The tag of a `PrintConfig` request.
pub const TAG_PRINT_CONFIG: u32 = 1;

/// The number of bytes that a tag takes.
pub const TAG_WIDTH: usize = 4;

/// The number of bytes that the length of a text takes.
pub const LENGTH_WIDTH: usize = 8;

/// Why a sequence of bytes is no request.
#[derive(Debug, Clone, Copy, PartialEq, Eq, Structural)]
pub enum DecodeError {
    /// The bytes end before the request does.
    Truncated,
    /// The tag names no action.
    UnknownAction(u32),
    /// The command text is not UTF-8.
    InvalidText,
}

/// 256 to the power `n`.
pub open spec fn pow256(n: nat) -> nat
    decreases n,
{
    if n == 0 {
        1
    } else {
        256 * pow256((n - 1) as nat)
    }
}

/// The `width` low-order bytes of `value`, least significant first.
pub open spec fn le_bytes(value: nat, width: nat) -> Seq<u8> {
    Seq::new(width, |i: int| ((value / pow256(i as nat)) % 256) as u8)
}

/// The number that `bytes` spell, least significant byte first.
pub open spec fn le_value(bytes: Seq<u8>) -> nat
    decreases bytes.len(),
{
    if bytes.len() == 0 {
        0
    } else {
        bytes[0] as nat + 256 * le_value(bytes.drop_first())
    }
}

/// The bytes that stand for `action` on the wire.
pub open spec fn wire_encoding(action: DispatchAction) -> Seq<u8> {
    match action {
        DispatchAction::Play(command) => le_bytes(TAG_PLAY as nat, TAG_WIDTH as nat) + le_bytes(
            encode_utf8(command).len(),
            LENGTH_WIDTH as nat,
        ) + encode_utf8(command),
        DispatchAction::PrintConfig => le_bytes(TAG_PRINT_CONFIG as nat, TAG_WIDTH as nat),
    }
}

/// The request that `data` begins with, or the reason why it begins with none.
pub open spec fn wire_decoding(data: Seq<u8>) -> Result<DispatchAction, DecodeError> {
    if data.len() < TAG_WIDTH {
        Err(DecodeError::Truncated)
    } else {
        let tag = le_value(data.subrange(0, TAG_WIDTH as int));
        if tag == TAG_PLAY {
            let start = TAG_WIDTH + LENGTH_WIDTH;
            if data.len() < start {
                Err(DecodeError::Truncated)
            } else {
                let length = le_value(data.subrange(TAG_WIDTH as int, start));
                if length > data.len() - start {
                    Err(DecodeError::Truncated)
                } else {
                    let text = data.subrange(start, start + length);
                    if valid_utf8(text) {
                        Ok(DispatchAction::Play(decode_utf8(text)))
                    } else {
                        Err(DecodeError::InvalidText)
                    }
                }
            }
        } else if tag == TAG_PRINT_CONFIG {
            Ok(DispatchAction::PrintConfig)
        } else {
            Err(DecodeError::UnknownAction(tag as u32))
        }
    }
}

/// What a decoded request is to the contracts.
pub open spec fn decoded_view(outcome: Result<DaemonAction, DecodeError>) -> Result<
    DispatchAction,
    DecodeError,
> {
    match outcome {
        Ok(action) => Ok(action@),
        Err(error) => Err(error),
    }
}

/// Powers of 256 are positive.
pub proof fn lemma_pow256_positive(n: nat)
    ensures
        pow256(n) > 0,
    decreases n,
{
    if n > 0 {
        lemma_pow256_positive((n - 1) as nat);
    }
}

/// Four bytes hold the numbers below 2^32, eight bytes those below 2^64.
pub proof fn lemma_pow256_widths()
    ensures
        pow256(4) == 0x1_0000_0000,
        pow256(8) == 0x1_0000_0000_0000_0000,
{
    reveal_with_fuel(pow256, 9);
}

/// A sequence of `n` bytes spells a number below 256 to the power `n`.
pub proof fn lemma_le_value_bound(bytes: Seq<u8>)
    ensures
        le_value(bytes) < pow256(bytes.len()),
    decreases bytes.len(),
{
    if bytes.len() > 0 {
        lemma_le_value_bound(bytes.drop_first());
    }
}

/// Reading back the bytes of a number gives the number, up to the width.
pub proof fn lemma_le_round_trip(value: nat, width: nat)
    ensures
        le_value(le_bytes(value, width)) == value % pow256(width),
    decreases width,
{
    let bytes = le_bytes(value, width);
    if width == 0 {
    } else {
        let rest = (width - 1) as nat;
        assert(bytes.drop_first() =~= le_bytes(value / 256, rest)) by {
            assert forall|i: int| 0 <= i < rest implies bytes.drop_first()[i] == le_bytes(
                value / 256,
                rest,
            )[i] by {
                lemma_pow256_positive(i as nat);
                lemma_div_denominator(value as int, 256, pow256(i as nat) as int);
                assert(pow256((i + 1) as nat) == 256 * pow256(i as nat));
            }
        }
        lemma_le_round_trip(value / 256, rest);
        lemma_pow256_positive(rest);
        lemma_mod_split(value, pow256(rest));
        assert(bytes[0] as nat == value % 256) by {
            assert(pow256(0) == 1);
            assert(value / 1 == value);
        }
    }
}

/// The remainder by `256 * m` is the low byte and the remainder of the rest.
proof fn lemma_mod_split(value: nat, m: nat)
    requires
        m > 0,
    ensures
        value % (256 * m) == value % 256 + 256 * ((value / 256) % m),
{
    let q = value / 256;
    let byte = value % 256;
    let high = q / m;
    let mid = q % m;
    lemma_fundamental_div_mod(value as int, 256);
    lemma_fundamental_div_mod(q as int, m as int);
    let low = byte + 256 * mid;
    assert(value == high * (256 * m) + low) by (nonlinear_arith)
        requires
            value == 256 * q + byte,
            q == m * high + mid,
            low == byte + 256 * mid,
    ;
    assert(0 <= low < 256 * m) by (nonlinear_arith)
        requires
            0 <= byte < 256,
            0 <= mid < m,
            low == byte + 256 * mid,
    ;
    lemma_fundamental_div_mod_converse(
        value as int,
        (256 * m) as int,
        high as int,
        low as int,
    );
}

/// Decoding what was encoded gives the request back, whatever follows it.
pub proof fn lemma_decoding_inverts_encoding(action: DispatchAction, tail: Seq<u8>)
    requires
        action matches DispatchAction::Play(command) ==> encode_utf8(command).len() <= u64::MAX,
    ensures
        wire_decoding(wire_encoding(action) + tail) == Ok::<DispatchAction, DecodeError>(action),
{
    broadcast use encode_utf8_valid_utf8, encode_utf8_decode_utf8;

    let data = wire_encoding(action) + tail;
    lemma_pow256_widths();
    match action {
        DispatchAction::Play(command) => {
            let text = encode_utf8(command);
            let start = TAG_WIDTH + LENGTH_WIDTH;
            assert(data.subrange(0, TAG_WIDTH as int) =~= le_bytes(TAG_PLAY as nat, 4));
            lemma_le_round_trip(TAG_PLAY as nat, 4);
            assert(data.subrange(TAG_WIDTH as int, start as int) =~= le_bytes(text.len(), 8));
            lemma_le_round_trip(text.len(), 8);
            lemma_small_mod(text.len(), pow256(8));
            assert(data.subrange(start as int, start + text.len()) =~= text);
        },
        DispatchAction::PrintConfig => {
            assert(data.subrange(0, TAG_WIDTH as int) =~= le_bytes(TAG_PRINT_CONFIG as nat, 4));
            lemma_le_round_trip(TAG_PRINT_CONFIG as nat, 4);
        },
    }
}

/// Appends the `width` low-order bytes of `value`, least significant first.
fn push_le(out: &mut Vec<u8>, value: u64, width: usize)
    requires
        width <= 8,
    ensures
        final(out)@ == old(out)@ + le_bytes(value as nat, width as nat),
{
    let ghost before = out@;
    let mut rest: u64 = value;
    let mut i: usize = 0;
    proof {
        assert(pow256(0) == 1);
        assert(value as nat / 1 == value as nat);
        assert(out@ =~= before + le_bytes(value as nat, 0));
    }
    while i < width
        invariant
            i <= width <= 8,
            rest as nat == value as nat / pow256(i as nat),
            out@ == before + le_bytes(value as nat, i as nat),
        decreases width - i,
    {
        let byte: u8 = (rest % 256) as u8;
        out.push(byte);
        proof {
            lemma_pow256_positive(i as nat);
            lemma_div_denominator(value as int, pow256(i as nat) as int, 256);
            assert(pow256((i + 1) as nat) == pow256(i as nat) * 256);
            assert(out@ =~= before + le_bytes(value as nat, (i + 1) as nat));
        }
        rest = rest / 256;
        i = i + 1;
    }
}

/// Reads the number that `width` bytes from `start` on spell.
fn read_le(data: &[u8], start: usize, width: usize) -> (value: u64)
    requires
        width <= 8,
        start + width <= data@.len(),
    ensures
        value as nat == le_value(data@.subrange(start as int, start + width)),
{
    let total: usize = data.len();
    let end: usize = start + width;
    let mut value: u64 = 0;
    let mut i: usize = end;
    proof {
        lemma_pow256_widths();
        reveal_with_fuel(pow256, 9);
    }
    while i > start
        invariant
            start <= i <= end,
            end == start + width,
            width <= 8,
            end <= data@.len(),
            value as nat == le_value(data@.subrange(i as int, end as int)),
            pow256(8) == 0x1_0000_0000_0000_0000,
        decreases i - start,
    {
        i = i - 1;
        proof {
            let wider = data@.subrange(i as int, end as int);
            assert(wider.drop_first() =~= data@.subrange(i + 1, end as int));
            lemma_le_value_bound(wider);
            lemma_pow256_grows(wider.len(), 8);
        }
        value = value * 256 + data[i] as u64;
    }
    value
}

/// A larger exponent gives no smaller power.
proof fn lemma_pow256_grows(small: nat, large: nat)
    requires
        small <= large,
    ensures
        pow256(small) <= pow256(large),
    decreases large,
{
    if small < large {
        lemma_pow256_grows(small, (large - 1) as nat);
    }
}

/// Encodes a request for the wire.
pub fn encode_action(action: &DaemonAction) -> (bytes: Vec<u8>)
    ensures
        bytes@ == wire_encoding(action@),
{
    let mut bytes: Vec<u8> = Vec::new();
    match action {
        DaemonAction::Play(command) => {
            let text = command.as_str().as_bytes();
            push_le(&mut bytes, TAG_PLAY as u64, TAG_WIDTH);
            push_le(&mut bytes, text.len() as u64, LENGTH_WIDTH);
            let mut body = slice_to_vec(text);
            bytes.append(&mut body);
            proof {
                assert(bytes@ =~= wire_encoding(action@));
            }
        },
        DaemonAction::PrintConfig => {
            push_le(&mut bytes, TAG_PRINT_CONFIG as u64, TAG_WIDTH);
            proof {
                assert(bytes@ =~= wire_encoding(action@));
            }
        },
    }
    bytes
}

/// Decodes the request that `data` begins with.
pub fn decode_action(data: &[u8]) -> (outcome: Result<DaemonAction, DecodeError>)
    ensures
        decoded_view(outcome) == wire_decoding(data@),
{
    if data.len() < TAG_WIDTH {
        return Err(DecodeError::Truncated);
    }
    let tag = read_le(data, 0, TAG_WIDTH);
    proof {
        lemma_le_value_bound(data@.subrange(0, TAG_WIDTH as int));
        lemma_pow256_widths();
    }
    if tag == TAG_PLAY as u64 {
        let start: usize = TAG_WIDTH + LENGTH_WIDTH;
        if data.len() < start {
            return Err(DecodeError::Truncated);
        }
        let length = read_le(data, TAG_WIDTH, LENGTH_WIDTH);
        if length > (data.len() - start) as u64 {
            return Err(DecodeError::Truncated);
        }
        let text = slice_subrange(data, start, start + length as usize);
        match text_of(text) {
            Some(command) => Ok(DaemonAction::Play(command.to_owned())),
            None => Err(DecodeError::InvalidText),
        }
    } else if tag == TAG_PRINT_CONFIG as u64 {
        Ok(DaemonAction::PrintConfig)
    } else {
        Err(DecodeError::UnknownAction(tag as u32))
    }
}

/// `std::str::from_utf8`: the text that `bytes` encode, if they are UTF-8.
#[verifier::external_body]
fn text_of(bytes: &[u8]) -> (text: Option<&str>)
    ensures
        text is Some <==> valid_utf8(bytes@),
        text matches Some(s) ==> s@ == decode_utf8(bytes@),
{
    std::str::from_utf8(bytes).ok()
}

} // verus!
