//! A sibling module of breakfast foods that pass greetings around, as
//! [`crate::foo`] does: lines are built here and printed by the caller.

use vstd::prelude::*;
use vstd::string::*;

verus! {

/// The line with which toast announces the path it was reached by:
/// `I am Toast; hear me roar (via a <path> path!)`.
pub fn toast_line(path: &str) -> (s: String)
    ensures
        s@ == "I am Toast; hear me roar (via a "@ + path@ + " path!)"@,
{
    let mut s: String = "I am Toast; hear me roar (via a ".to_owned();
    s.append(path);
    s.append(" path!)");
    s
}

/// What the `beans` printer says about a message: `Beans says: <msg>`.
pub fn beans_line(msg: &str) -> (s: String)
    ensures
        s@ == "Beans says: "@ + msg@,
{
    let mut s: String = "Beans says: ".to_owned();
    s.append(msg);
    s
}

/// Reaches up to `beans` with its own greeting; the line that comes
/// back is `Beans says: message from ham`.
pub fn ham() -> (s: String)
    ensures
        s@ == "Beans says: "@ + "message from ham"@,
{
    beans_line("message from ham")
}

} // verus!
