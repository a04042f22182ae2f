use vstd::prelude::*;

verus! {

/// The ignore file written into a new workspace: the build output directory
/// and the lock file, one per line.
pub open spec fn ignore_text() -> Seq<char> {
    "/target\nCargo.lock\n"@
}

/// The toolchain pin for `channel`.
pub open spec fn toolchain_text(channel: Seq<char>) -> Seq<char> {
    "[toolchain]\nchannel = \""@ + channel + "\"\n"@
}

/// What to write as the ignore file: nothing when one is already there, so a
/// file that the user edited is never altered.
pub fn ignore_file_contents(exists: bool) -> (r: Option<String>)
    ensures
        exists ==> r is None,
        !exists ==> (r matches Some(s) && s@ == ignore_text()),
{
    if exists {
        None
    } else {
        Some(String::from_str("/target\nCargo.lock\n"))
    }
}

/// The toolchain pin, written whether or not one is there.
pub fn toolchain_file_contents(channel: &str) -> (r: String)
    ensures
        r@ == toolchain_text(channel@),
{
    let mut s = String::from_str("[toolchain]\nchannel = \"");
    s.append(channel);
    s.append("\"\n");
    s
}

} // verus!
