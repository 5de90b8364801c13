//! Shell-escaping of student-chosen folder names before they are handed to a
//! gateway command: spaces and the shell metacharacters `&` and `|` get a
//! backslash in front of them.

use vstd::prelude::*;

verus! {

/// Whether the shell would read the character specially inside a command.
pub open spec fn needs_escape(c: char) -> bool {
    c == ' ' || c == '&' || c == '|'
}

/// What one character contributes to the escaped text.
pub open spec fn escape_char(c: char) -> Seq<char> {
    if needs_escape(c) {
        seq!['\\', c]
    } else {
        seq![c]
    }
}

/// The whole text with every space, `&` and `|` preceded by a backslash.
pub open spec fn escape_spec(s: Seq<char>) -> Seq<char>
    decreases s.len(),
{
    if s.len() == 0 {
        Seq::empty()
    } else {
        escape_spec(s.drop_last()) + escape_char(s.last())
    }
}

pub fn escape(path: &String) -> (r: String)
    ensures
        r@ == escape_spec(path@),
{
    let n: usize = path.as_str().unicode_len();
    let mut out = String::new();
    let mut i: usize = 0;
    while i < n
        invariant
            i <= n,
            n == path@.len(),
            out@ == escape_spec(path@.subrange(0, i as int)),
        decreases n - i,
    {
        let c = path.as_str().get_char(i);
        if c == ' ' || c == '&' || c == '|' {
            out.push('\\');
            out.push(c);
        } else {
            out.push(c);
        }
        proof {
            let pre = path@.subrange(0, i as int);
            let cur = path@.subrange(0, i + 1 as int);
            assert(cur.drop_last() =~= pre);
            assert(cur.last() == path@[i as int]);
        }
        i = i + 1;
    }
    proof {
        assert(path@.subrange(0, n as int) =~= path@);
    }
    out
}

} // verus!
