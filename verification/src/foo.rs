//! A tiny module tree whose members pass greetings up and across: the
//! lines themselves are built here; printing them is the caller's
//! business.

use vstd::prelude::*;
use vstd::string::*;

verus! {

/// The line with which a roaring member announces the path it was
/// reached by: `I am Zug; hear me roar (via a <path> path!)`.
pub fn zug_line(path: &str) -> (s: String)
    ensures
        s@ == "I am Zug; hear me roar (via a "@ + path@ + " path!)"@,
{
    let mut s: String = "I am Zug; hear me roar (via a ".to_owned();
    s.append(path);
    s.append(" path!)");
    s
}

/// What the `blort` printer says about a message: `Blort says: <msg>`.
pub fn blort_line(msg: &str) -> (s: String)
    ensures
        s@ == "Blort says: "@ + msg@,
{
    let mut s: String = "Blort says: ".to_owned();
    s.append(msg);
    s
}

/// Reaches up to `blort` with its own greeting; the line that comes
/// back is `Blort says: message from qux`.
pub fn qux() -> (s: String)
    ensures
        s@ == "Blort says: "@ + "message from qux"@,
{
    blort_line("message from qux")
}

} // verus!
