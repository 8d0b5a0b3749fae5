use vstd::prelude::*;

verus! {

/// Index of the first line feed at or after `p`, or `s.len()` when there is
/// none.
pub open spec fn first_nl_from(s: Seq<char>, p: int) -> int
    decreases s.len() - p,
{
    if p < 0 || p >= s.len() {
        s.len() as int
    } else if s[p] == '\n' {
        p
    } else {
        first_nl_from(s, p + 1)
    }
}

pub proof fn lemma_first_nl_from_range(s: Seq<char>, p: int)
    requires
        0 <= p <= s.len(),
    ensures
        p <= first_nl_from(s, p) <= s.len(),
        first_nl_from(s, p) < s.len() ==> s[first_nl_from(s, p)] == '\n',
        forall|m: int| p <= m < first_nl_from(s, p) ==> s[m] != '\n',
    decreases s.len() - p,
{
    if p < s.len() && s[p] != '\n' {
        lemma_first_nl_from_range(s, p + 1);
    }
}

/// A stretch of non-linefeed characters followed by a line feed (or by the
/// end of the text) pins down where the first line feed is.
pub proof fn lemma_first_nl_from_is(s: Seq<char>, p: int, d: int)
    requires
        0 <= p <= d <= s.len(),
        forall|m: int| p <= m < d ==> s[m] != '\n',
        d == s.len() || s[d] == '\n',
    ensures
        first_nl_from(s, p) == d,
    decreases d - p,
{
    if p < d {
        lemma_first_nl_from_is(s, p + 1, d);
    }
}

/// A line that ended at a line feed loses one trailing carriage return,
/// so that both plain and carriage-return/line-feed endings delimit lines.
pub open spec fn strip_cr(s: Seq<char>) -> Seq<char> {
    if s.len() > 0 && s[s.len() - 1] == '\r' {
        s.drop_last()
    } else {
        s
    }
}

/// The lines of `s` from position `p` on, split at line endings, without a
/// final empty line when the text ends in a line feed. This matches how
/// `str::lines` splits: a trailing carriage return is stripped only from
/// segments that were ended by a line feed.
pub open spec fn lines_from(s: Seq<char>, p: int) -> Seq<Seq<char>>
    decreases s.len() - p,
    when 0 <= p <= s.len()
{
    if p >= s.len() {
        Seq::empty()
    } else {
        let j = first_nl_from(s, p);
        if j >= s.len() {
            seq![s.subrange(p, s.len() as int)]
        } else {
            proof {
                lemma_first_nl_from_range(s, p);
            }
            seq![strip_cr(s.subrange(p, j))] + lines_from(s, j + 1)
        }
    }
}

/// The lines of the whole text.
pub open spec fn spec_lines(s: Seq<char>) -> Seq<Seq<char>> {
    lines_from(s, 0)
}

/// The line of `text` at 0-based index `idx`, or `None` when the text has
/// no such line.
pub fn line_at<'a>(text: &'a str, idx: usize) -> (r: Option<&'a str>)
    ensures
        match r {
            Some(l) => idx < spec_lines(text@).len() && l@ == spec_lines(text@)[idx as int],
            None => idx >= spec_lines(text@).len(),
        },
{
    let len: usize = text.unicode_len();
    let mut p: usize = 0;
    let mut k: usize = 0;
    proof {
        assert(lines_from(text@, 0int) =~= spec_lines(text@).skip(0));
    }
    loop
        invariant
            len == text@.len(),
            p <= len,
            k <= idx,
            lines_from(text@, p as int) =~= spec_lines(text@).skip(k as int),
            spec_lines(text@).len() == k + lines_from(text@, p as int).len(),
        decreases len - p,
    {
        if p >= len {
            return None;
        }
        let mut j: usize = p;
        while j < len && text.get_char(j) != '\n'
            invariant
                len == text@.len(),
                p <= j <= len,
                forall|m: int| p <= m < j ==> text@[m] != '\n',
            decreases len - j,
        {
            j = j + 1;
        }
        proof {
            lemma_first_nl_from_is(text@, p as int, j as int);
        }
        if k == idx {
            let ghost lines = spec_lines(text@);
            proof {
                assert(lines_from(text@, p as int).len() >= 1);
                assert(lines.skip(k as int)[0] == lines[k as int]);
            }
            if j < len {
                if j > p && text.get_char(j - 1) == '\r' {
                    let l = text.substring_char(p, j - 1);
                    proof {
                        assert(text@.subrange(p as int, j as int).drop_last() =~= text@.subrange(
                            p as int,
                            j - 1,
                        ));
                    }
                    return Some(l);
                } else {
                    let l = text.substring_char(p, j);
                    proof {
                        assert(strip_cr(text@.subrange(p as int, j as int)) == text@.subrange(
                            p as int,
                            j as int,
                        ));
                    }
                    return Some(l);
                }
            } else {
                let l = text.substring_char(p, len);
                return Some(l);
            }
        }
        if j >= len {
            proof {
                assert(lines_from(text@, p as int).len() == 1);
            }
            return None;
        }
        proof {
            let ghost lines = spec_lines(text@);
            assert(lines_from(text@, p as int) == seq![
                strip_cr(text@.subrange(p as int, j as int)),
            ] + lines_from(text@, j + 1));
            assert forall|i: int| 0 <= i < lines.skip(k + 1).len() implies #[trigger] lines.skip(
                k + 1,
            )[i] == lines_from(text@, j + 1)[i] by {
                assert(lines.skip(k as int)[i + 1] == lines[k + 1 + i]);
            }
            assert(lines_from(text@, j + 1) =~= lines.skip(k + 1));
        }
        p = j + 1;
        k = k + 1;
    }
}

} // verus!
