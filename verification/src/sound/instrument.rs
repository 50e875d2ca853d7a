//! The clarinet, deep in the sound module's tree.

use vstd::prelude::*;
use vstd::string::*;

verus! {

/// The line the clarinet toots, naming the path it was reached by:
/// `A clarinet goes tweet tweet! (via <path> path)`.
pub fn clarinet_line(path: &str) -> (s: String)
    ensures
        s@ == "A clarinet goes tweet tweet! (via "@ + path@ + " path)"@,
{
    let mut s: String = "A clarinet goes tweet tweet! (via ".to_owned();
    s.append(path);
    s.append(" path)");
    s
}

} // verus!
