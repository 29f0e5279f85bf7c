use vstd::prelude::*;
use vstd::utf8::{decode_utf8, valid_utf8};
use crate::commands::tool_result;
use crate::error::{Error, Stage};

verus! {

/// The text that a sequence of UTF-16 code units encodes, or `None` where it
/// holds an unpaired surrogate.
pub uninterp spec fn utf16_text(units: Seq<u16>) -> Option<Seq<char>>;

/// `s` without the white space at its two ends.
pub uninterp spec fn trimmed(s: Seq<char>) -> Seq<char>;

/// `s` without the white space at its end.
pub uninterp spec fn end_trimmed(s: Seq<char>) -> Seq<char>;

/// The lines of `s`, each without its line ending.
pub uninterp spec fn lines_of(s: Seq<char>) -> Seq<Seq<char>>;

/// `c` is one of the ten ASCII digits.
pub open spec fn is_digit(c: char) -> bool {
    0x30 <= c as u32 <= 0x39
}

/// The number that a run of digits denotes in base ten.
pub open spec fn decimal_value(digits: Seq<char>) -> nat
    decreases digits.len(),
{
    if digits.len() == 0 {
        0
    } else {
        decimal_value(digits.drop_last()) * 10 + (digits.last() as u32 - 0x30) as nat
    }
}

/// The number that the decimal text `s` denotes: an optional plus sign, then
/// at least one digit and nothing but digits, the value within `u64`. Any
/// other text denotes none.
pub open spec fn parsed_u64(s: Seq<char>) -> Option<u64> {
    let digits = if s.len() > 0 && s[0] == '+' {
        s.skip(1)
    } else {
        s
    };
    if digits.len() > 0 && (forall|i: int| 0 <= i < digits.len() ==> is_digit(digits[i]))
        && decimal_value(digits) <= u64::MAX {
        Some(decimal_value(digits) as u64)
    } else {
        None
    }
}

/// `String::from_utf16`: the decoded text, or `None` where std reports an
/// error. The result depends on the code units alone.
#[verifier::external_body]
fn text_from_utf16(units: &Vec<u16>) -> (r: Option<String>)
    ensures
        match r {
            Some(s) => utf16_text(units@) == Some(s@),
            None => utf16_text(units@) is None,
        },
{
    String::from_utf16(units).ok()
}

/// `String::from_utf8`: the text that the bytes encode where they are valid
/// UTF-8, and `None` where they are not.
#[verifier::external_body]
fn text_from_utf8(bytes: Vec<u8>) -> (r: Option<String>)
    ensures
        match r {
            Some(s) => valid_utf8(bytes@) && s@ == decode_utf8(bytes@),
            None => !valid_utf8(bytes@),
        },
{
    String::from_utf8(bytes).ok()
}

/// The text that bytes stand for when every sequence that is not valid UTF-8
/// is replaced by the replacement character.
pub uninterp spec fn lossy_text(bytes: Seq<u8>) -> Seq<char>;

/// `String::from_utf8_lossy`: the bytes as text, invalid sequences replaced.
/// Valid UTF-8 comes out as the text it encodes, with nothing replaced.
#[verifier::external_body]
pub(crate) fn text_from_utf8_lossy(bytes: &Vec<u8>) -> (r: String)
    ensures
        r@ == lossy_text(bytes@),
        valid_utf8(bytes@) ==> r@ == decode_utf8(bytes@),
{
    String::from_utf8_lossy(bytes).into_owned()
}

/// `str::trim`: the text between leading and trailing white space.
#[verifier::external_body]
fn trim(s: &str) -> (r: String)
    ensures
        r@ == trimmed(s@),
{
    s.trim().to_owned()
}

/// `str::trim_end`: the text before trailing white space.
#[verifier::external_body]
fn trim_end(s: &str) -> (r: String)
    ensures
        r@ == end_trimmed(s@),
{
    s.trim_end().to_owned()
}

/// `str::lines`: the lines of the text, in order, as owned strings.
#[verifier::external_body]
fn lines(s: &str) -> (r: Vec<String>)
    ensures
        r@.map_values(|l: String| l@) == lines_of(s@),
{
    s.lines().map(|l| l.to_owned()).collect()
}

/// `str::parse::<u64>`: the number, or `None` where std reports an error,
/// which it does for an empty text, for any character that is no digit but
/// for one leading plus sign, and for a value beyond `u64`.
#[verifier::external_body]
fn parse_u64(s: &str) -> (r: Option<u64>)
    ensures
        r == parsed_u64(s@),
{
    s.parse::<u64>().ok()
}

/// The 16-bit units that `bytes` hold in little-endian order, two bytes to a
/// unit; a last byte without a partner is left out.
pub open spec fn le_units(bytes: Seq<u8>) -> Seq<u16> {
    Seq::new(
        (bytes.len() / 2) as nat,
        |i: int| (bytes[2 * i] as int + 256 * (bytes[2 * i + 1] as int)) as u16,
    )
}

/// Pairs bytes up into little-endian 16-bit units.
pub fn units_from_le_bytes(bytes: &[u8]) -> (units: Vec<u16>)
    ensures
        units@ == le_units(bytes@),
{
    let total: usize = bytes.len();
    let n: usize = total / 2;
    let mut units: Vec<u16> = Vec::new();
    let mut i: usize = 0;
    while i < n
        invariant
            n == total / 2,
            total == bytes@.len(),
            0 <= i <= n,
            units@ == le_units(bytes@).take(i as int),
        decreases n - i,
    {
        let lo: u16 = bytes[2 * i] as u16;
        let hi: u16 = bytes[2 * i + 1] as u16;
        units.push(lo + 256 * hi);
        assert(units@ =~= le_units(bytes@).take(i + 1));
        i = i + 1;
    }
    assert(units@ =~= le_units(bytes@));
    units
}

/// Decodes little-endian UTF-16 bytes, as the host tool prints them.
pub fn decode_utf16(bytes: &[u8]) -> (r: Result<String, Error>)
    ensures
        match r {
            Ok(s) => utf16_text(le_units(bytes@)) == Some(s@),
            Err(e) => e == Error::InvalidOutput && utf16_text(le_units(bytes@)) is None,
        },
{
    let units = units_from_le_bytes(bytes);
    match text_from_utf16(&units) {
        Some(s) => Ok(s),
        None => Err(Error::InvalidOutput),
    }
}

/// Each of `lines` without its trailing white space, in the same order.
pub fn trim_lines(lines: &Vec<String>) -> (out: Vec<String>)
    ensures
        out@.len() == lines@.len(),
        forall|i: int| 0 <= i < out@.len() ==> (#[trigger] out@[i])@ == end_trimmed(lines@[i]@),
{
    let mut out: Vec<String> = Vec::new();
    let mut i: usize = 0;
    while i < lines.len()
        invariant
            0 <= i <= lines@.len(),
            out@.len() == i,
            forall|j: int| 0 <= j < i ==> (#[trigger] out@[j])@ == end_trimmed(lines@[j]@),
        decreases lines@.len() - i,
    {
        out.push(trim_end(lines[i].as_str()));
        i = i + 1;
    }
    out
}

/// The names in the text that the host tool prints when asked for its list:
/// one to a line, trailing white space dropped.
pub open spec fn listed_names(text: Seq<char>) -> Seq<Seq<char>> {
    lines_of(text).map_values(|l: Seq<char>| end_trimmed(l))
}

/// The installed distributions, from the bytes that the host tool printed.
pub fn parse_distro_list(stdout: &[u8]) -> (r: Result<Vec<String>, Error>)
    ensures
        match r {
            Ok(names) => utf16_text(le_units(stdout@)) matches Some(text) && names@.map_values(
                |n: String| n@,
            ) == listed_names(text),
            Err(e) => e == Error::InvalidOutput && utf16_text(le_units(stdout@)) is None,
        },
{
    match decode_utf16(stdout) {
        Ok(text) => {
            let all = lines(text.as_str());
            let names = trim_lines(&all);
            proof {
                let got = names@.map_values(|n: String| n@);
                let each = all@.map_values(|l: String| l@);
                assert(each == lines_of(text@));
                assert forall|i: int| 0 <= i < got.len() implies got[i] == listed_names(
                    text@,
                )[i] by {
                    assert(each[i] == all@[i]@);
                    assert(names@[i]@ == end_trimmed(all@[i]@));
                }
                assert(got =~= listed_names(text@));
            }
            Ok(names)
        },
        Err(_) => Err(Error::InvalidOutput),
    }
}

/// The user id in what `id -u` printed: the bytes must be UTF-8 and, white
/// space at the ends aside, the decimal form of a `u64`.
pub open spec fn uid_in(stdout: Seq<u8>) -> Option<u64> {
    if valid_utf8(stdout) {
        parsed_u64(trimmed(decode_utf8(stdout)))
    } else {
        None
    }
}

/// Reads the numeric user id from the output of the in-guest `id -u`.
pub fn parse_uid(stdout: Vec<u8>) -> (r: Result<u64, Error>)
    ensures
        match r {
            Ok(uid) => uid_in(stdout@) == Some(uid),
            Err(e) => e == Error::InvalidOutput && uid_in(stdout@) is None,
        },
{
    match text_from_utf8(stdout) {
        Some(text) => {
            let core = trim(text.as_str());
            match parse_u64(core.as_str()) {
                Some(uid) => Ok(uid),
                None => Err(Error::InvalidOutput),
            }
        },
        None => Err(Error::InvalidOutput),
    }
}

/// The user id from one run of the in-guest `id -u`: a run that failed is a
/// failure of that tool, whatever it printed; a run that succeeded gives the
/// id in its output.
pub fn uid_from_run(success: bool, stdout: Vec<u8>) -> (r: Result<u64, Error>)
    ensures
        r == if !success {
            Err::<u64, Error>(Error::ExternalTool { stage: Stage::QueryUid })
        } else {
            match uid_in(stdout@) {
                Some(uid) => Ok::<u64, Error>(uid),
                None => Err::<u64, Error>(Error::InvalidOutput),
            }
        },
{
    match tool_result(Stage::QueryUid, success) {
        Ok(()) => parse_uid(stdout),
        Err(e) => Err(e),
    }
}

/// Reads the id of a container from what the image tool printed when it
/// created one: the output as text, white space at the ends dropped.
pub fn parse_instance_id(stdout: Vec<u8>) -> (r: Result<String, Error>)
    ensures
        match r {
            Ok(id) => valid_utf8(stdout@) && id@ == trimmed(decode_utf8(stdout@)),
            Err(e) => e == Error::InvalidOutput && !valid_utf8(stdout@),
        },
{
    match text_from_utf8(stdout) {
        Some(text) => Ok(trim(text.as_str())),
        None => Err(Error::InvalidOutput),
    }
}

} // verus!
