//! Choosing the longer of two strings — once as a borrow with a shared
//! lifetime, once by handing out an owned copy — and taking the first
//! sentence of a text.

use vstd::prelude::*;
use vstd::string::*;

verus! {

/// The longer of two string slices, borrowed, measured in bytes as
/// `str::len` measures; ties go to the second.
pub fn naive_longest<'a>(x: &'a str, y: &'a str) -> (r: &'a str)
    ensures
        x.spec_bytes().len() > y.spec_bytes().len() ==> r@ == x@,
        x.spec_bytes().len() <= y.spec_bytes().len() ==> r@ == y@,
{
    if x.as_bytes().len() > y.as_bytes().len() {
        x
    } else {
        y
    }
}

/// The longer of two strings as an owned copy, measured in bytes as
/// `str::len` measures; ties go to the second.
pub fn longest(x: &str, y: &str) -> (r: String)
    ensures
        x.spec_bytes().len() > y.spec_bytes().len() ==> r@ == x@,
        x.spec_bytes().len() <= y.spec_bytes().len() ==> r@ == y@,
{
    if x.as_bytes().len() > y.as_bytes().len() {
        x.to_owned()
    } else {
        y.to_owned()
    }
}

/// Where the first full stop stands in a text: the least index holding
/// `'.'`, or the text's length if there is none.
pub open spec fn first_stop(s: Seq<char>) -> int
    decreases s.len(),
{
    if s.len() == 0 {
        0
    } else if s[0] == '.' {
        0
    } else {
        1 + first_stop(s.drop_first())
    }
}

/// The first stop never lies beyond the text.
pub proof fn lemma_first_stop_in_range(s: Seq<char>)
    ensures
        0 <= first_stop(s) <= s.len(),
        forall|j: int| 0 <= j < first_stop(s) ==> s[j] != '.',
        first_stop(s) < s.len() ==> s[first_stop(s)] == '.',
    decreases s.len(),
{
    if s.len() == 0 {
    } else if s[0] == '.' {
    } else {
        lemma_first_stop_in_range(s.drop_first());
        assert forall|j: int| 0 <= j < first_stop(s) implies s[j] != '.' by {
            if j > 0 {
                assert(s.drop_first()[j - 1] == s[j]);
            }
        }
        if first_stop(s) < s.len() {
            assert(s.drop_first()[first_stop(s.drop_first())] == s[first_stop(s)]);
        }
    }
}

/// The text up to (not including) its first full stop.
pub fn first_sentence<'a>(text: &'a str) -> (r: &'a str)
    ensures
        r@ == text@.subrange(0, first_stop(text@)),
{
    proof {
        lemma_first_stop_in_range(text@);
    }
    let n = text.unicode_len();
    let mut i: usize = 0;
    while i < n && text.get_char(i) != '.'
        invariant
            0 <= i <= n == text@.len(),
            forall|j: int| 0 <= j < i ==> text@[j] != '.',
            first_stop(text@) >= i,
        decreases n - i,
    {
        i += 1;
        proof {
            lemma_stop_past_prefix(text@, i as int);
        }
    }
    proof {
        lemma_stop_past_prefix(text@, i as int);
        if i < n {
            assert(text@[i as int] == '.');
            lemma_stop_at(text@, i as int);
        }
    }
    text.substring_char(0, i)
}

/// A prefix free of full stops pushes the first stop at least that far.
proof fn lemma_stop_past_prefix(s: Seq<char>, i: int)
    requires
        0 <= i <= s.len(),
        forall|j: int| 0 <= j < i ==> s[j] != '.',
    ensures
        first_stop(s) >= i,
    decreases i,
{
    lemma_first_stop_in_range(s);
    if i > 0 {
        assert(s[0] != '.');
        assert forall|j: int| 0 <= j < i - 1 implies s.drop_first()[j] != '.' by {
            assert(s.drop_first()[j] == s[j + 1]);
        }
        lemma_stop_past_prefix(s.drop_first(), i - 1);
        assert(first_stop(s) == 1 + first_stop(s.drop_first()));
    }
}

/// A full stop at `i`, with none before it, is the first stop.
proof fn lemma_stop_at(s: Seq<char>, i: int)
    requires
        0 <= i < s.len(),
        s[i] == '.',
        forall|j: int| 0 <= j < i ==> s[j] != '.',
    ensures
        first_stop(s) == i,
{
    lemma_first_stop_in_range(s);
    lemma_stop_past_prefix(s, i);
}

} // verus!
