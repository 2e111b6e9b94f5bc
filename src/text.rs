//! Character-level helpers on strings.

use vstd::prelude::*;

verus! {

/// Relies on `String::push`: appends the one character at the end.
#[verifier::external_body]
pub(crate) fn push_char(s: &mut String, c: char)
    ensures
        final(s)@ == old(s)@.push(c),
{
    s.push(c)
}

/// The code of `c` with ASCII capital letters taken to lower case.
pub open spec fn ascii_lower(c: char) -> int {
    if 'A' <= c && c <= 'Z' {
        c as int + 32
    } else {
        c as int
    }
}

/// Whether `s` spells `name` once ASCII capital letters are lowered.
pub open spec fn same_ignoring_case(s: Seq<char>, name: Seq<char>) -> bool {
    &&& s.len() == name.len()
    &&& forall|i: int| 0 <= i < s.len() ==> ascii_lower(#[trigger] s[i]) == ascii_lower(name[i])
}

pub fn eq_ignoring_case(s: &str, name: &str) -> (r: bool)
    ensures
        r == same_ignoring_case(s@, name@),
{
    let n = s.unicode_len();
    if n != name.unicode_len() {
        return false;
    }
    let mut i: usize = 0;
    while i < n
        invariant
            n == s@.len(),
            n == name@.len(),
            i <= n,
            forall|j: int| 0 <= j < i ==> ascii_lower(#[trigger] s@[j]) == ascii_lower(name@[j]),
        decreases n - i,
    {
        let a = s.get_char(i);
        let b = name.get_char(i);
        let la: u32 = if 'A' <= a && a <= 'Z' { a as u32 + 32 } else { a as u32 };
        let lb: u32 = if 'A' <= b && b <= 'Z' { b as u32 + 32 } else { b as u32 };
        if la != lb {
            return false;
        }
        i += 1;
    }
    true
}

} // verus!
