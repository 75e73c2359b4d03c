use vstd::prelude::*;

use vstd::arithmetic::div_mod::lemma_fundamental_div_mod_converse;

use crate::retry::{Retry, RetryStep, next_step, ESDM_RETRY_COUNT};
use crate::session::{
    close_action_for, esdm_rng_fini, esdm_rng_init_checked, open_granted, Session, SessionAction,
    SessionKind,
};

verus! {

/// How a generator obtains its bytes from the daemon.
#[derive(Clone, Copy, Debug, PartialEq, Eq, Structural)]
pub enum EsdmRngType {
    /// Fresh entropy for every output: markedly slower, meant for small requests.
    PredictionResistant,
    /// Output only once the daemon is fully seeded; the daemon blocks until then,
    /// up to its own timeout.
    FullySeeded,
}

/// Whether a byte fetch that returned `returned` filled a request of `requested`
/// bytes: only an answer of exactly the requested length counts.
pub open spec fn fill_accepted(returned: isize, requested: usize) -> bool {
    returned as int == requested as int
}

/// Whether a byte fetch that returned `returned` filled a request of `requested` bytes.
pub fn fill_succeeded(returned: isize, requested: usize) -> (r: bool)
    ensures
        r == fill_accepted(returned, requested),
{
    returned >= 0 && returned as usize == requested
}

/// A daemon that answers a fetch with the requested length fills the request at
/// the first attempt, whatever its length.
pub proof fn lemma_healthy_fill(requested: usize)
    requires
        requested <= isize::MAX,
    ensures
        fill_accepted(requested as isize, requested),
        next_step(0, fill_accepted(requested as isize, requested)) == RetryStep::Succeeded,
{
}

/// One request for random bytes, under the retry envelope.
pub struct FillRequest {
    rng_type: EsdmRngType,
    len: usize,
    retry: Retry,
}

impl FillRequest {
    pub closed spec fn spec_rng_type(&self) -> EsdmRngType {
        self.rng_type
    }

    pub closed spec fn spec_len(&self) -> usize {
        self.len
    }

    /// The number of fetches that failed so far.
    pub closed spec fn failed(&self) -> nat {
        self.retry.failed()
    }

    /// A request that may still fetch.
    pub open spec fn can_attempt(&self) -> bool {
        self.failed() < ESDM_RETRY_COUNT
    }

    /// A request for `len` bytes in the given mode, before any fetch.
    pub fn new(rng_type: EsdmRngType, len: usize) -> (r: FillRequest)
        ensures
            r.spec_rng_type() == rng_type,
            r.spec_len() == len,
            r.failed() == 0,
    {
        FillRequest { rng_type, len, retry: Retry::new() }
    }

    /// The daemon primitive to call: the byte fetch of this mode.
    pub fn rng_type(&self) -> (t: EsdmRngType)
        ensures
            t == self.spec_rng_type(),
    {
        self.rng_type
    }

    /// The number of bytes requested.
    pub fn len(&self) -> (n: usize)
        ensures
            n == self.spec_len(),
    {
        self.len
    }

    /// The number of fetches that failed so far.
    pub fn failures(&self) -> (n: u32)
        ensures
            n == self.failed(),
    {
        self.retry.failures()
    }

    /// Records what one fetch returned and says what to do next. A short or
    /// failed fetch is attempted again until the retry bound is reached.
    pub fn record(&mut self, returned: isize) -> (step: RetryStep)
        requires
            old(self).can_attempt(),
        ensures
            step == next_step(old(self).failed(), fill_accepted(returned, old(self).spec_len())),
            final(self).spec_rng_type() == old(self).spec_rng_type(),
            final(self).spec_len() == old(self).spec_len(),
            final(self).failed() == if fill_accepted(returned, old(self).spec_len()) {
                old(self).failed()
            } else {
                old(self).failed() + 1
            },
    {
        let ok = fill_succeeded(returned, self.len);
        self.retry.record(ok)
    }
}

/// A generator of random numbers backed by the daemon. It holds one reference to
/// the unprivileged session for as long as it lives.
pub struct EsdmRng {
    rng_type: EsdmRngType,
}

impl EsdmRng {
    pub closed spec fn spec_rng_type(&self) -> EsdmRngType {
        self.rng_type
    }

    /// A generator of the given mode. It takes a reference to the unprivileged
    /// session, which must be granted: `connect_code` is the answer of the connect
    /// call that the session asked for, if it asked for one.
    pub fn new(rng_type: EsdmRngType, session: &mut Session, connect_code: Option<i32>) -> (r: EsdmRng)
        requires
            old(session).spec_kind() == SessionKind::Unprivileged,
            old(session)@ < u32::MAX,
            open_granted(old(session)@, connect_code),
        ensures
            r.spec_rng_type() == rng_type,
            final(session)@ == old(session)@ + 1,
            final(session).spec_kind() == SessionKind::Unprivileged,
    {
        esdm_rng_init_checked(session, connect_code);
        EsdmRng { rng_type }
    }

    /// The generator's mode.
    pub fn rng_type(&self) -> (t: EsdmRngType)
        ensures
            t == self.spec_rng_type(),
    {
        self.rng_type
    }

    /// Ends the generator and gives its session reference back.
    pub fn release(self, session: &mut Session) -> (a: SessionAction)
        requires
            old(session).spec_kind() == SessionKind::Unprivileged,
            old(session)@ > 0,
        ensures
            a == close_action_for(old(session)@),
            final(session)@ == old(session)@ - 1,
            final(session).spec_kind() == SessionKind::Unprivileged,
    {
        esdm_rng_fini(session)
    }

    /// A request to fill `len` bytes in this generator's mode.
    pub fn fill_request(&self, len: usize) -> (r: FillRequest)
        ensures
            r.spec_rng_type() == self.spec_rng_type(),
            r.spec_len() == len,
            r.failed() == 0,
    {
        FillRequest::new(self.rng_type, len)
    }
}

/// The generator of the older interface that only answers once the daemon is
/// fully seeded.
pub struct EsdmRngFullySeeded {}

impl EsdmRngFullySeeded {
    /// A request to fill `len` bytes from the fully seeded source.
    pub fn fill_request(&self, len: usize) -> (r: FillRequest)
        ensures
            r.spec_rng_type() == EsdmRngType::FullySeeded,
            r.spec_len() == len,
            r.failed() == 0,
    {
        FillRequest::new(EsdmRngType::FullySeeded, len)
    }
}

/// The generator of the older interface that uses fresh entropy for every output.
pub struct EsdmRngPredictionResistant {}

impl EsdmRngPredictionResistant {
    /// A request to fill `len` bytes from the prediction resistant source.
    pub fn fill_request(&self, len: usize) -> (r: FillRequest)
        ensures
            r.spec_rng_type() == EsdmRngType::PredictionResistant,
            r.spec_len() == len,
            r.failed() == 0,
    {
        FillRequest::new(EsdmRngType::PredictionResistant, len)
    }
}

/// The number that `b` denotes read least significant byte first.
pub open spec fn le_value(b: Seq<u8>) -> nat
    decreases b.len(),
{
    if b.len() == 0 {
        0
    } else {
        b[0] as nat + 256 * le_value(b.drop_first())
    }
}

/// The number that `b` denotes read most significant byte first.
pub open spec fn be_value(b: Seq<u8>) -> nat
    decreases b.len(),
{
    if b.len() == 0 {
        0
    } else {
        be_value(b.drop_last()) * 256 + b.last() as nat
    }
}

/// Relies on u64::from_ne_bytes: the eight bytes read in the machine's byte order,
/// which is either little-endian or big-endian.
#[verifier::external_body]
fn u64_from_ne_bytes(bytes: [u8; 8]) -> (r: u64)
    ensures
        r == le_value(bytes@) || r == be_value(bytes@),
{
    u64::from_ne_bytes(bytes)
}

/// The 64-bit output that a fill of eight bytes gives: the bytes in native order.
pub fn next_u64_from(bytes: [u8; 8]) -> (r: u64)
    ensures
        r == le_value(bytes@) || r == be_value(bytes@),
{
    u64_from_ne_bytes(bytes)
}

/// The 32-bit output derived from a 64-bit one: its low 32 bits.
pub fn next_u32_from(word: u64) -> (r: u32)
    ensures
        r == word % 0x1_0000_0000,
{
    (word % 0x1_0000_0000) as u32
}

/// The 32-bit output agrees with the byte order of the fill: in little-endian order
/// it is the first four bytes, in big-endian order the last four, read in the same
/// order as the 64-bit output.
pub proof fn lemma_low_half_matches_fill(bytes: Seq<u8>, word: u64)
    requires
        bytes.len() == 8,
        word == le_value(bytes) || word == be_value(bytes),
    ensures
        word == le_value(bytes) ==> word % 0x1_0000_0000 == le_value(bytes.subrange(0, 4)),
        word == be_value(bytes) ==> word % 0x1_0000_0000 == be_value(bytes.subrange(4, 8)),
{
    reveal_with_fuel(le_value, 9);
    reveal_with_fuel(be_value, 9);
    let lo = bytes.subrange(0, 4);
    let hi = bytes.subrange(4, 8);
    assert(le_value(bytes) == bytes[0] + 256 * bytes[1] + 65536 * bytes[2] + 16777216 * bytes[3]
        + 0x1_0000_0000 * (bytes[4] + 256 * bytes[5] + 65536 * bytes[6] + 16777216 * bytes[7]));
    assert(le_value(lo) == bytes[0] + 256 * bytes[1] + 65536 * bytes[2] + 16777216 * bytes[3]);
    assert(be_value(bytes) == 0x1_0000_0000 * (16777216 * bytes[0] + 65536 * bytes[1] + 256
        * bytes[2] + bytes[3]) + (16777216 * bytes[4] + 65536 * bytes[5] + 256 * bytes[6]
        + bytes[7]));
    assert(be_value(hi) == 16777216 * bytes[4] + 65536 * bytes[5] + 256 * bytes[6] + bytes[7]);
    if word == le_value(bytes) {
        lemma_fundamental_div_mod_converse(
            word as int,
            0x1_0000_0000,
            (bytes[4] + 256 * bytes[5] + 65536 * bytes[6] + 16777216 * bytes[7]) as int,
            le_value(lo) as int,
        );
    }
    if word == be_value(bytes) {
        lemma_fundamental_div_mod_converse(
            word as int,
            0x1_0000_0000,
            (16777216 * bytes[0] + 65536 * bytes[1] + 256 * bytes[2] + bytes[3]) as int,
            be_value(hi) as int,
        );
    }
}

/// The lowercase hexadecimal digit for `n`, where `n` is below 16.
pub open spec fn hex_digit(n: int) -> char {
    seq!['0', '1', '2', '3', '4', '5', '6', '7', '8', '9', 'a', 'b', 'c', 'd', 'e', 'f'][n]
}

/// The bytes `b` written as lowercase hexadecimal, two digits per byte, the high
/// half first.
pub open spec fn hex_of(b: Seq<u8>) -> Seq<char>
    decreases b.len(),
{
    if b.len() == 0 {
        Seq::empty()
    } else {
        seq![hex_digit(b[0] as int / 16), hex_digit(b[0] as int % 16)] + hex_of(b.drop_first())
    }
}

/// Relies on hex::encode: each byte becomes two lowercase hexadecimal digits, the
/// high half first, in the order of the bytes.
#[verifier::external_body]
fn hex_encode(bytes: &[u8]) -> (r: String)
    ensures
        r@ == hex_of(bytes@),
{
    hex::encode(bytes)
}

/// Random bytes written out as lowercase hexadecimal, for display.
pub fn to_hex(bytes: &[u8]) -> (r: String)
    ensures
        r@ == hex_of(bytes@),
        r@.len() == 2 * bytes@.len(),
{
    proof {
        lemma_hex_of_len(bytes@);
    }
    hex_encode(bytes)
}

/// Hexadecimal takes two digits per byte.
pub proof fn lemma_hex_of_len(b: Seq<u8>)
    ensures
        hex_of(b).len() == 2 * b.len(),
    decreases b.len(),
{
    if b.len() > 0 {
        lemma_hex_of_len(b.drop_first());
    }
}

} // verus!
