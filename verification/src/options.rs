//! The argument list handed to the mount call.
//!
//! The mount API takes its options as alternating marker and value arguments:
//! `-o fsname=GCSF -o allow_root ...`. This module lays that list out from the
//! configured option values.

use itertools::Itertools;
use vstd::prelude::*;

verus! {

/// Marker that introduces each option value in the argument list.
pub const OPTION_MARKER: &'static str = "-o";

/// The argument list for `values`: one marker before every value, in order.
pub open spec fn paired(values: Seq<Seq<char>>) -> Seq<Seq<char>> {
    Seq::new(
        2 * values.len(),
        |i: int|
            if i % 2 == 0 {
                OPTION_MARKER@
            } else {
                values[i / 2]
            },
    )
}

/// The characters of each string of `items`, in order.
pub open spec fn texts(items: Seq<String>) -> Seq<Seq<char>> {
    items.map_values(|s: String| s@)
}

/// `itertools::Itertools::interleave_shortest`, applied to an endless run of
/// `marker` and the strings of `values`.
///
/// The adaptor draws from the two sides in turn, the endless side first, and
/// stops at the first side that has nothing left. The values run out when the
/// marker has just been drawn once more, so the result holds every value
/// behind a marker, and one marker at the end that has no value.
#[verifier::external_body]
fn interleave_marker(marker: &str, values: &Vec<String>) -> (out: Vec<String>)
    ensures
        out@.len() == 2 * values@.len() + 1,
        forall|i: int|
            0 <= i < out@.len() ==> #[trigger] out@[i]@ == if i % 2 == 0 {
                marker@
            } else {
                values@[i / 2]@
            },
{
    std::iter::repeat(marker)
        .interleave_shortest(values.iter().map(String::as_str))
        .map(String::from)
        .collect()
}

/// Lays out the mount argument list for the configured option values.
///
/// Each value is paired with the option marker in front of it, so `n` values
/// give `2 * n` arguments, and the list never ends on a marker.
pub fn mount_arguments(values: &Vec<String>) -> (args: Vec<String>)
    ensures
        texts(args@) == paired(texts(values@)),
        args@.len() == 2 * values@.len(),
        forall|i: int|
            0 <= i < args@.len() ==> #[trigger] args@[i]@ == if i % 2 == 0 {
                OPTION_MARKER@
            } else {
                values@[i / 2]@
            },
        values@.len() > 0 ==> args@.last()@ == values@.last()@,
{
    let mut args = interleave_marker(OPTION_MARKER, values);
    args.pop();
    assert(texts(args@) =~= paired(texts(values@)));
    args
}

} // verus!
