//! Random strings and grapheme clusters: what the eye sees as one glyph
//! can be several characters, so counting glyphs goes through a
//! segmentation of the string.

use crate::randomness::{is_ascii_alphanumeric_char, random_alphanumeric};
use vstd::prelude::*;
use vstd::string::*;

verus! {

/// A random string of letters and digits, of the asked-for length.
pub fn rand_str(length: usize) -> (s: String)
    ensures
        s@.len() == length,
        forall|i: int| 0 <= i < s@.len() ==> is_ascii_alphanumeric_char(s@[i]),
{
    random_alphanumeric(length)
}

/// The extended grapheme clusters of a string, in order.
pub uninterp spec fn graphemes_of(s: Seq<char>) -> Seq<Seq<char>>;

/// Relies on unicode-segmentation's `UnicodeSegmentation::graphemes`
/// (extended clusters): the clusters depend on the characters alone, are
/// nonempty, and concatenate back to the original string.
#[verifier::external_body]
fn grapheme_clusters(s: &str) -> (r: Vec<String>)
    ensures
        r@.map_values(|g: String| g@) == graphemes_of(s@),
        r@.map_values(|g: String| g@).flatten() == s@,
        forall|i: int| 0 <= i < r@.len() ==> r@[i]@.len() > 0,
{
    unicode_segmentation::UnicodeSegmentation::graphemes(s, true)
        .map(|g| g.to_owned())
        .collect()
}

/// The glyphs of a string: one owned piece per extended grapheme cluster.
pub fn graphemes(s: &str) -> (r: Vec<String>)
    ensures
        r@.map_values(|g: String| g@) == graphemes_of(s@),
        graphemes_of(s@).flatten() == s@,
{
    grapheme_clusters(s)
}

/// How many glyphs a string has: the number of its grapheme clusters.
pub fn grapheme_count(s: &str) -> (n: usize)
    ensures
        n == graphemes_of(s@).len(),
{
    let clusters = grapheme_clusters(s);
    let n = clusters.len();
    proof {
        assert(clusters@.map_values(|g: String| g@).len() == clusters@.len());
    }
    n
}

/// How many characters a string has, as opposed to bytes or glyphs.
pub fn char_count(s: &str) -> (n: usize)
    ensures
        n == s@.len(),
{
    s.unicode_len()
}

} // verus!
