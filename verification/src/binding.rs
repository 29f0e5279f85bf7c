use vstd::prelude::*;

verus! {

/// The functions that the host's distribution library exports and this
/// library calls.
#[derive(Clone, Copy, Debug, PartialEq, Eq, Structural)]
pub enum EntryPoint {
    Configure,
    GetConfiguration,
    LaunchInteractive,
    IsRegistered,
    Unregister,
}

/// The name under which the host library exports each entry point.
pub open spec fn export_name_text(entry: EntryPoint) -> Seq<char> {
    match entry {
        EntryPoint::Configure => "WslConfigureDistribution"@,
        EntryPoint::GetConfiguration => "WslGetDistributionConfiguration"@,
        EntryPoint::LaunchInteractive => "WslLaunchInteractive"@,
        EntryPoint::IsRegistered => "WslIsDistributionRegistered"@,
        EntryPoint::Unregister => "WslUnregisterDistribution"@,
    }
}

/// The exported name to resolve for `entry`.
pub fn export_name(entry: EntryPoint) -> (name: &'static str)
    ensures
        name@ == export_name_text(entry),
{
    match entry {
        EntryPoint::Configure => "WslConfigureDistribution",
        EntryPoint::GetConfiguration => "WslGetDistributionConfiguration",
        EntryPoint::LaunchInteractive => "WslLaunchInteractive",
        EntryPoint::IsRegistered => "WslIsDistributionRegistered",
        EntryPoint::Unregister => "WslUnregisterDistribution",
    }
}

/// The UTF-16 code units that encode `s`.
pub uninterp spec fn utf16_units(s: Seq<char>) -> Seq<u16>;

/// Every character of `s` is an ASCII character.
pub open spec fn all_ascii(s: Seq<char>) -> bool {
    forall|i: int| 0 <= i < s.len() ==> (#[trigger] s[i]) as u32 <= 0x7f
}

/// `str::encode_utf16`, collected: the code units of the text in order. An
/// ASCII character is encoded as one unit of its own value, so an ASCII text
/// keeps its length and its values.
#[verifier::external_body]
fn encode_utf16(s: &str) -> (units: Vec<u16>)
    ensures
        units@ == utf16_units(s@),
        all_ascii(s@) ==> units@.len() == s@.len() && forall|i: int|
            0 <= i < s@.len() ==> (#[trigger] units@[i]) as u32 == s@[i] as u32,
{
    s.encode_utf16().collect()
}

/// The form in which a text crosses to the host: its UTF-16 code units
/// followed by a terminating zero. For ASCII text, which distribution and
/// user names are, unit `i` is character `i`: nothing is lost.
pub fn wide_string(s: &str) -> (wide: Vec<u16>)
    ensures
        wide@ == utf16_units(s@).push(0),
        all_ascii(s@) ==> wide@.len() == s@.len() + 1 && forall|i: int|
            0 <= i < s@.len() ==> (#[trigger] wide@[i]) as u32 == s@[i] as u32,
{
    let mut wide = encode_utf16(s);
    wide.push(0);
    wide
}

} // verus!
