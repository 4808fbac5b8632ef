use vstd::prelude::*;

use base64::engine::general_purpose;
use base64::Engine as _;
use rand::rngs::ThreadRng;
use rand::RngCore;

verus! {

#[verifier::external_type_specification]
#[verifier::external_body]
pub struct ExThreadRng(ThreadRng);

/// `rand::rng`: a handle to the thread-local random generator. Nothing is
/// stated of it; `rand` panics here when the operating system's generator
/// cannot be initialised.
#[verifier::external_body]
fn thread_rng() -> ThreadRng {
    rand::rng()
}

/// `RngCore::fill_bytes` on the thread-local generator: overwrites `key`
/// with random bytes. Nothing is stated of the bytes.
#[verifier::external_body]
fn fill_random(rng: &mut ThreadRng, key: &mut [u8; 16]) {
    rng.fill_bytes(key);
}

/// The character of the standard base64 alphabet for the six-bit value `v`.
pub open spec fn base64_char(v: int) -> char {
    if v < 26 {
        (65 + v) as char
    } else if v < 52 {
        (71 + v) as char
    } else if v < 62 {
        (v - 4) as char
    } else if v == 62 {
        '+'
    } else {
        '/'
    }
}

/// The standard, padded base64 text of `bytes`: each group of three bytes
/// gives four characters of six bits each; a last group of one or two bytes
/// is padded with zero bits and completed with `=`.
pub open spec fn base64_standard(bytes: Seq<u8>) -> Seq<char>
    decreases bytes.len(),
{
    if bytes.len() == 0 {
        seq![]
    } else if bytes.len() == 1 {
        let a = bytes[0] as int;
        seq![base64_char(a / 4), base64_char((a % 4) * 16), '=', '=']
    } else if bytes.len() == 2 {
        let a = bytes[0] as int;
        let b = bytes[1] as int;
        seq![base64_char(a / 4), base64_char((a % 4) * 16 + b / 16), base64_char((b % 16) * 4), '=']
    } else {
        let a = bytes[0] as int;
        let b = bytes[1] as int;
        let c = bytes[2] as int;
        seq![
            base64_char(a / 4),
            base64_char((a % 4) * 16 + b / 16),
            base64_char((b % 16) * 4 + c / 64),
            base64_char(c % 64),
        ] + base64_standard(bytes.subrange(3, bytes.len() as int))
    }
}

/// Base64 text has four characters for every three bytes or part of three.
proof fn lemma_base64_len(bytes: Seq<u8>)
    ensures
        base64_standard(bytes).len() == 4 * ((bytes.len() + 2) / 3),
    decreases bytes.len(),
{
    if bytes.len() > 2 {
        lemma_base64_len(bytes.subrange(3, bytes.len() as int));
    }
}

/// `base64::engine::general_purpose::STANDARD.encode`: the standard, padded
/// base64 text of `bytes`.
#[verifier::external_body]
fn encode_standard(bytes: &[u8; 16]) -> (text: String)
    ensures
        text@ == base64_standard(bytes@),
{
    general_purpose::STANDARD.encode(bytes)
}

/// A random 16-byte key, base64 encoded (24 characters, as a websocket
/// handshake key).
pub fn generate_rand_base64() -> (text: String)
    ensures
        text@.len() == 24,
        exists|key: Seq<u8>| key.len() == 16 && text@ == base64_standard(key),
{
    let mut key = [0u8; 16];
    let mut rng = thread_rng();
    fill_random(&mut rng, &mut key);
    let text = encode_standard(&key);
    assert(key@.len() == 16);
    proof {
        lemma_base64_len(key@);
    }
    text
}

/// `time` lies between `start` and `end`, both included, wrapping past
/// midnight when the start is after the end. Times are milliseconds since
/// midnight.
pub open spec fn in_closed_window(start: int, end: int, time: int) -> bool {
    if start <= end {
        start <= time <= end
    } else {
        time >= start || time <= end
    }
}

pub fn is_in_timerange(start: u32, end: u32, time: u32) -> (b: bool)
    ensures
        b == in_closed_window(start as int, end as int, time as int),
{
    if start <= end {
        time >= start && time <= end
    } else {
        time >= start || time <= end
    }
}

} // verus!
