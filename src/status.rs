use vstd::prelude::*;

use vstd::string::StringSliceAdditionalSpecFns;
use vstd::utf8::{decode_utf8, encode_utf8, valid_utf8};

use crate::error::EsdmError;

verus! {

/// The size of the buffer that the daemon writes its status report into.
pub const STATUS_BUFFER_SIZE: usize = 8192;

/// The bytes of `buf` before its first zero byte, or all of them where it holds none.
pub open spec fn before_nul(buf: Seq<u8>) -> Seq<u8>
    decreases buf.len(),
{
    if buf.len() == 0 || buf[0] == 0 {
        Seq::empty()
    } else {
        seq![buf[0]] + before_nul(buf.drop_first())
    }
}

proof fn lemma_before_nul_split(buf: Seq<u8>, i: int)
    requires
        0 <= i <= buf.len(),
        forall|j: int| 0 <= j < i ==> buf[j] != 0,
    ensures
        before_nul(buf) == buf.take(i) + before_nul(buf.skip(i)),
    decreases i,
{
    if i > 0 {
        let rest = buf.drop_first();
        lemma_before_nul_split(rest, i - 1);
        assert(rest.skip(i - 1) =~= buf.skip(i));
        assert(seq![buf[0]] + rest.take(i - 1) =~= buf.take(i));
        assert(seq![buf[0]] + (rest.take(i - 1) + before_nul(rest.skip(i - 1))) =~= buf.take(i)
            + before_nul(buf.skip(i)));
    } else {
        assert(buf.skip(0) =~= buf);
        assert(buf.take(0) + before_nul(buf) =~= before_nul(buf));
    }
}

/// The bytes of the buffer `buf` before its first zero byte, or all of them where
/// it holds none.
pub fn text_before_nul(buf: &[u8]) -> (text: Vec<u8>)
    ensures
        text@ == before_nul(buf@),
{
    let mut text: Vec<u8> = Vec::new();
    let mut i: usize = 0;
    while i < buf.len()
        invariant
            i <= buf@.len(),
            text@ == buf@.take(i as int),
            forall|j: int| 0 <= j < i ==> buf@[j] != 0,
        decreases buf@.len() - i,
    {
        if buf[i] == 0 {
            proof {
                lemma_before_nul_split(buf@, i as int);
                assert(text@ + Seq::<u8>::empty() =~= text@);
            }
            return text;
        }
        text.push(buf[i]);
        i = i + 1;
        assert(text@ =~= buf@.take(i as int));
    }
    proof {
        lemma_before_nul_split(buf@, i as int);
        assert(text@ + Seq::<u8>::empty() =~= text@);
    }
    text
}

/// Relies on String::from_utf8: it succeeds exactly on valid UTF-8, and the string
/// then holds the characters that the bytes encode.
#[verifier::external_body]
fn string_from_utf8(bytes: Vec<u8>) -> (r: Option<String>)
    ensures
        r.is_some() == valid_utf8(bytes@),
        r.is_some() ==> r.unwrap()@ == decode_utf8(bytes@),
{
    String::from_utf8(bytes).ok()
}

/// The status report that the daemon wrote into `buf`: the text before the first
/// zero byte, which must be valid UTF-8.
pub fn status_from_buffer(buf: &[u8]) -> (r: Result<String, EsdmError>)
    ensures
        r.is_ok() == valid_utf8(before_nul(buf@)),
        r.is_ok() ==> r.unwrap()@ == decode_utf8(before_nul(buf@)),
        r.is_err() ==> r == Err::<String, EsdmError>(EsdmError::MalformedStatus),
{
    let text = text_before_nul(buf);
    match string_from_utf8(text) {
        Some(s) => Ok(s),
        None => Err(EsdmError::MalformedStatus),
    }
}

/// The line feed that separates the lines of a status report.
pub const NEWLINE: u8 = 10;

/// Whether `pat` occurs in `text`.
pub open spec fn occurs_in(text: Seq<u8>, pat: Seq<u8>) -> bool {
    exists|i: int|
        0 <= i && i + pat.len() <= text.len() && #[trigger] text.subrange(i, i + pat.len()) == pat
}

/// The line of a status report that states whether the daemon is fully seeded,
/// for the given answer.
pub open spec fn seeded_marker(seeded: bool) -> Seq<u8> {
    if seeded {
        "ESDM fully seeded: true".spec_bytes()
    } else {
        "ESDM fully seeded: false".spec_bytes()
    }
}

/// What the status report `text` says of the daemon being fully seeded: the answer
/// whose marker occurs, and nothing where neither or both occur.
pub open spec fn seeded_flag(text: Seq<u8>) -> Option<bool> {
    let yes = occurs_in(text, seeded_marker(true));
    let no = occurs_in(text, seeded_marker(false));
    if yes && !no {
        Some(true)
    } else if no && !yes {
        Some(false)
    } else {
        None
    }
}

/// Whether `pat` occurs in `text` at position `i`.
fn occurs_at(text: &[u8], pat: &[u8], i: usize) -> (r: bool)
    requires
        i <= text@.len(),
    ensures
        r == (i + pat@.len() <= text@.len() && text@.subrange(
            i as int,
            i + pat@.len(),
        ) == pat@),
{
    if pat.len() > text.len() - i {
        return false;
    }
    let mut k: usize = 0;
    while k < pat.len()
        invariant
            i + pat@.len() <= text@.len(),
            text@.len() <= usize::MAX,
            k <= pat@.len(),
            forall|j: int| 0 <= j < k ==> text@[i + j] == pat@[j],
        decreases pat@.len() - k,
    {
        if text[i + k] != pat[k] {
            assert(text@.subrange(i as int, i + pat@.len())[k as int] != pat@[k as int]);
            return false;
        }
        k = k + 1;
    }
    assert(text@.subrange(i as int, i + pat@.len()) =~= pat@);
    true
}

/// Whether `pat` occurs in `text`.
pub fn occurs(text: &[u8], pat: &[u8]) -> (r: bool)
    ensures
        r == occurs_in(text@, pat@),
{
    if pat.len() > text.len() {
        return false;
    }
    let last = text.len() - pat.len();
    let mut i: usize = 0;
    while i <= last
        invariant
            last == text@.len() - pat@.len(),
            i <= last + 1,
            forall|j: int| 0 <= j < i ==> #[trigger] text@.subrange(j, j + pat@.len()) != pat@,
        decreases last + 1 - i,
    {
        if occurs_at(text, pat, i) {
            return true;
        }
        if i == last {
            return false;
        }
        i = i + 1;
    }
    false
}

/// Whether the status report says that the daemon is fully seeded: `Some(true)` or
/// `Some(false)` where the report holds exactly one of the two marker lines, and
/// `None` where it holds neither or both.
pub fn fully_seeded_from_status(status: &str) -> (r: Option<bool>)
    ensures
        r == seeded_flag(status.spec_bytes()),
{
    let text = status.as_bytes();
    let yes = occurs(text, "ESDM fully seeded: true".as_bytes());
    let no = occurs(text, "ESDM fully seeded: false".as_bytes());
    if yes && !no {
        Some(true)
    } else if no && !yes {
        Some(false)
    } else {
        None
    }
}

/// Where the line that starts at `i` ends: at the next line feed, or at the end of
/// the text.
pub open spec fn line_end(text: Seq<u8>, i: int) -> int
    decreases text.len() - i,
{
    if i < 0 || i >= text.len() {
        text.len() as int
    } else if text[i] == NEWLINE {
        i
    } else {
        line_end(text, i + 1)
    }
}

/// A line ends within the text, at a line feed unless it is the last line.
pub proof fn lemma_line_end_bounds(text: Seq<u8>, i: int)
    requires
        0 <= i <= text.len(),
    ensures
        i <= line_end(text, i) <= text.len(),
        line_end(text, i) < text.len() ==> text[line_end(text, i)] == NEWLINE,
    decreases text.len() - i,
{
    if i < text.len() && text[i] != NEWLINE {
        lemma_line_end_bounds(text, i + 1);
    }
}

/// The prefix of the line that states the daemon's entropy level.
pub open spec fn level_prefix() -> Seq<u8> {
    "ESDM entropy level: ".spec_bytes()
}

/// Whether `b` is an ASCII decimal digit.
pub open spec fn is_digit(b: u8) -> bool {
    48 <= b <= 57
}

/// The digits of `line` where it is the entropy level line: the prefix followed by
/// one or more decimal digits and nothing else.
pub open spec fn level_digits(line: Seq<u8>) -> Option<Seq<u8>> {
    let n = level_prefix().len();
    if line.len() > n && line.take(n as int) == level_prefix() && forall|j: int|
        n <= j < line.len() ==> is_digit(#[trigger] line[j]) {
        Some(line.skip(n as int))
    } else {
        None
    }
}

/// The number that the decimal digits `d` denote.
pub open spec fn decimal_value(d: Seq<u8>) -> nat
    decreases d.len(),
{
    if d.len() == 0 {
        0
    } else {
        decimal_value(d.drop_last()) * 10 + (d.last() - 48) as nat
    }
}

/// The entropy level stated by the first entropy level line at or after the line
/// that starts at `i`, if there is one.
pub open spec fn level_from(text: Seq<u8>, i: int) -> Option<nat>
    decreases text.len() - i,
{
    if i < 0 || i > text.len() {
        None
    } else {
        proof {
            lemma_line_end_bounds(text, i);
        }
        match level_digits(text.subrange(i, line_end(text, i))) {
            Some(d) => Some(decimal_value(d)),
            None => if line_end(text, i) < text.len() {
                level_from(text, line_end(text, i) + 1)
            } else {
                None
            },
        }
    }
}

/// The entropy level that the status report `text` states: the number on its first
/// entropy level line, where that number fits in 32 bits.
pub open spec fn entropy_level_of(text: Seq<u8>) -> Option<u32> {
    match level_from(text, 0) {
        Some(v) => if v <= u32::MAX {
            Some(v as u32)
        } else {
            None
        },
        None => None,
    }
}

/// Where the line that starts at `start` ends.
fn find_line_end(text: &[u8], start: usize) -> (e: usize)
    requires
        start <= text@.len(),
    ensures
        e == line_end(text@, start as int),
{
    let mut j: usize = start;
    while j < text.len()
        invariant
            start <= j <= text@.len(),
            line_end(text@, start as int) == line_end(text@, j as int),
        decreases text@.len() - j,
    {
        if text[j] == NEWLINE {
            return j;
        }
        j = j + 1;
    }
    j
}

/// The entropy level that the line `text[start..end]` states: `None` where the line
/// is not an entropy level line, and otherwise its number where that fits in 32 bits.
fn level_of_line(text: &[u8], start: usize, end: usize) -> (r: Option<Option<u32>>)
    requires
        start <= end <= text@.len(),
    ensures
        r == match level_digits(text@.subrange(start as int, end as int)) {
            Some(d) => Some(
                if decimal_value(d) <= u32::MAX {
                    Some(decimal_value(d) as u32)
                } else {
                    None
                },
            ),
            None => None,
        },
{
    let ghost line = text@.subrange(start as int, end as int);
    let prefix = "ESDM entropy level: ".as_bytes();
    let n = prefix.len();
    if end - start <= n || !occurs_at(text, prefix, start) {
        proof {
            if line.len() > n && line.take(n as int) == level_prefix() {
                assert(text@.subrange(start as int, start + n) =~= line.take(n as int));
            }
        }
        return None;
    }
    assert(line.take(n as int) =~= text@.subrange(start as int, start + n));
    let first = start + n;
    let ghost digits = line.skip(n as int);
    assert(digits =~= text@.subrange(first as int, end as int));
    let mut acc: u32 = 0;
    let mut too_large = false;
    let mut j: usize = first;
    while j < end
        invariant
            first <= j <= end,
            end <= text@.len(),
            digits == text@.subrange(first as int, end as int),
            line == text@.subrange(start as int, end as int),
            first == start + n,
            n == level_prefix().len(),
            line.take(n as int) == level_prefix(),
            forall|k: int| first <= k < j ==> is_digit(#[trigger] text@[k]),
            !too_large ==> acc == decimal_value(text@.subrange(first as int, j as int)),
            too_large ==> decimal_value(text@.subrange(first as int, j as int)) > u32::MAX,
        decreases end - j,
    {
        let b = text[j];
        if b < 48 || b > 57 {
            proof {
                assert(line[j - start] == b);
                assert(!is_digit(line[j - start]));
            }
            return None;
        }
        let ghost before = text@.subrange(first as int, j as int);
        assert(text@.subrange(first as int, j + 1).drop_last() =~= before);
        if !too_large {
            let next: u64 = acc as u64 * 10 + (b - 48) as u64;
            if next > u32::MAX as u64 {
                too_large = true;
            } else {
                acc = next as u32;
            }
        }
        j = j + 1;
    }
    assert(digits =~= text@.subrange(first as int, j as int));
    assert forall|k: int| n <= k < line.len() implies is_digit(#[trigger] line[k]) by {
        assert(line[k] == text@[start + k]);
    }
    if too_large {
        Some(None)
    } else {
        Some(Some(acc))
    }
}

/// The entropy level that the status report states: the number on its first line
/// of the form `ESDM entropy level: <digits>`. `None` where no line has that form,
/// or where the number on the first one does not fit in 32 bits.
pub fn entropy_level_from_status(status: &str) -> (r: Option<u32>)
    ensures
        r == entropy_level_of(status.spec_bytes()),
{
    let text = status.as_bytes();
    let mut start: usize = 0;
    loop
        invariant
            text@ == status.spec_bytes(),
            start <= text@.len(),
            level_from(text@, 0) == level_from(text@, start as int),
        decreases text@.len() - start,
    {
        let end = find_line_end(text, start);
        proof {
            lemma_line_end_bounds(text@, start as int);
        }
        assert(level_from(text@, start as int) == match level_digits(
            text@.subrange(start as int, end as int),
        ) {
            Some(d) => Some(decimal_value(d)),
            None => if end < text@.len() {
                level_from(text@, end + 1)
            } else {
                None
            },
        });
        match level_of_line(text, start, end) {
            Some(level) => {
                return level;
            },
            None => {
                if end < text.len() {
                    start = end + 1;
                } else {
                    return None;
                }
            },
        }
    }
}

/// Whether the daemon is fully seeded, from the outcome of fetching its status
/// report (an error where the session could not be opened or the fetch failed):
/// `None` where there is no report, or where it does not settle the question.
pub fn esdm_is_fully_seeded(status: &Result<String, EsdmError>) -> (r: Option<bool>)
    ensures
        r == match status {
            Ok(text) => seeded_flag(encode_utf8(text@)),
            Err(_) => None,
        },
{
    match status {
        Ok(text) => fully_seeded_from_status(text.as_str()),
        Err(_) => None,
    }
}

/// The daemon's entropy level, from the outcome of fetching its status report (an
/// error where the session could not be opened or the fetch failed): `None` where
/// there is no report, or where it states no level that fits in 32 bits.
pub fn esdm_get_entropy_level(status: &Result<String, EsdmError>) -> (r: Option<u32>)
    ensures
        r == match status {
            Ok(text) => entropy_level_of(encode_utf8(text@)),
            Err(_) => None,
        },
{
    match status {
        Ok(text) => entropy_level_from_status(text.as_str()),
        Err(_) => None,
    }
}

} // verus!
