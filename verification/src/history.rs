//! Parsing of the revision listing a version-control gateway returns: one
//! short revision identifier per line, newest first.  Blank lines are
//! dropped; the gateway's ordering is preserved.

use vstd::prelude::*;

verus! {

/// The pieces of `s` between newline characters; `n` newlines give `n + 1`
/// pieces, empty pieces included.
pub open spec fn split_lines(s: Seq<char>) -> Seq<Seq<char>>
    decreases s.len(),
{
    if s.len() == 0 {
        seq![Seq::<char>::empty()]
    } else if s.last() == '\n' {
        split_lines(s.drop_last()).push(Seq::<char>::empty())
    } else {
        let r = split_lines(s.drop_last());
        r.update(r.len() - 1, r.last().push(s.last()))
    }
}

/// The lines with the blank ones removed.
pub open spec fn drop_blanks(ls: Seq<Seq<char>>) -> Seq<Seq<char>> {
    ls.filter(|l: Seq<char>| l.len() != 0)
}

/// The revision identifiers in a raw gateway listing: its non-blank lines,
/// in the order the gateway printed them.
pub open spec fn revision_lines(s: Seq<char>) -> Seq<Seq<char>> {
    drop_blanks(split_lines(s))
}

proof fn lemma_split_lines_nonempty(s: Seq<char>)
    ensures
        split_lines(s).len() >= 1,
    decreases s.len(),
{
    if s.len() != 0 {
        lemma_split_lines_nonempty(s.drop_last());
    }
}

proof fn lemma_drop_blanks_push(ls: Seq<Seq<char>>, l: Seq<char>)
    ensures
        l.len() != 0 ==> drop_blanks(ls.push(l)) == drop_blanks(ls).push(l),
        l.len() == 0 ==> drop_blanks(ls.push(l)) == drop_blanks(ls),
{
    reveal_with_fuel(Seq::filter, 2);
    let q = ls.push(l);
    assert(q.drop_last() =~= ls);
    assert(q.last() == l);
}

pub fn parse_revision_lines(text: &str) -> (r: Vec<String>)
    ensures
        r.deep_view() == revision_lines(text@),
{
    let n: usize = text.unicode_len();
    let mut out: Vec<String> = Vec::new();
    let mut cur = String::new();
    let mut i: usize = 0;
    while i < n
        invariant
            i <= n,
            n == text@.len(),
            cur@ == split_lines(text@.subrange(0, i as int)).last(),
            out.deep_view() == drop_blanks(
                split_lines(text@.subrange(0, i as int)).drop_last(),
            ),
        decreases n - i,
    {
        proof {
            let pre = text@.subrange(0, i as int);
            let ext = text@.subrange(0, i + 1 as int);
            assert(ext.drop_last() =~= pre);
            assert(ext.last() == text@[i as int]);
            lemma_split_lines_nonempty(pre);
        }
        let ghost pieces = split_lines(text@.subrange(0, i as int));
        let c = text.get_char(i);
        if c == '\n' {
            proof {
                // the finished piece joins the output if it is non-blank
                assert(pieces.drop_last().push(pieces.last()) =~= pieces);
                lemma_drop_blanks_push(pieces.drop_last(), pieces.last());
                assert(split_lines(text@.subrange(0, i + 1 as int)).drop_last() =~= pieces);
            }
            if !cur.as_str().is_empty() {
                let ghost old_out = out.deep_view();
                let ghost cur_view = cur@;
                out.push(cur);
                proof {
                    assert(out.deep_view() =~= old_out.push(cur_view));
                }
            }
            cur = String::new();
        } else {
            cur.push(c);
            proof {
                let next = split_lines(text@.subrange(0, i + 1 as int));
                assert(next == pieces.update(pieces.len() - 1, pieces.last().push(text@[i as int])));
                assert(next.last() == pieces.last().push(text@[i as int]));
                assert(next.drop_last() =~= pieces.drop_last());
            }
        }
        i = i + 1;
    }
    proof {
        assert(text@.subrange(0, n as int) =~= text@);
        let pieces = split_lines(text@);
        lemma_split_lines_nonempty(text@);
        assert(pieces.drop_last().push(pieces.last()) =~= pieces);
        lemma_drop_blanks_push(pieces.drop_last(), pieces.last());
    }
    if !cur.as_str().is_empty() {
        let ghost old_out = out.deep_view();
        let ghost cur_view = cur@;
        out.push(cur);
        proof {
            assert(out.deep_view() =~= old_out.push(cur_view));
        }
    }
    out
}

/// How many revisions a raw gateway listing names.
pub fn count_revisions(text: &str) -> (n: usize)
    ensures
        n == revision_lines(text@).len(),
{
    parse_revision_lines(text).len()
}

} // verus!
