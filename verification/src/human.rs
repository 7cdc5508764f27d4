//! The boundary to the external humanizer that renders a byte count as text.

use vstd::prelude::*;

verus! {

/// The text that the humanizer produces for a whole-byte count. The result
/// depends on the byte count alone.
pub uninterp spec fn human_format_of(bytes: u64) -> Seq<char>;

/// Relies on `humansize::format_size` with the `WINDOWS` options: 1024-based
/// scaling labelled "B"/"kB"/"MB"/..., at most two decimal places, and a
/// single space between number and unit. The result is a pure function of
/// the byte count.
#[verifier::external_body]
pub(crate) fn humanize_bytes(bytes: u64) -> (r: String)
    ensures
        r@ == human_format_of(bytes),
{
    humansize::format_size(bytes, humansize::WINDOWS)
}

} // verus!
