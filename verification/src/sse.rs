//! Framing for Server-Sent-Events style streams: splitting a received text
//! chunk into lines and recognising the `data: ` marker that carries a
//! JSON payload.
use vstd::prelude::*;
use crate::strutil::is_prefix;

verus! {

/// Index of the first newline in `t`, or `t.len()` if there is none.
pub open spec fn nl_index(t: Seq<char>) -> int
    decreases t.len(),
{
    if t.len() == 0 {
        0
    } else if t[0] == '\n' {
        0
    } else {
        1 + nl_index(t.drop_first())
    }
}

/// `nl_index` points at the first newline: it is in bounds, everything
/// before it is not a newline, and if it is short of the end it is one.
pub proof fn lemma_nl_index_bounds(t: Seq<char>)
    ensures
        0 <= nl_index(t) <= t.len(),
        nl_index(t) < t.len() ==> t[nl_index(t)] == '\n',
        forall|j: int| 0 <= j < nl_index(t) ==> t[j] != '\n',
    decreases t.len(),
{
    if t.len() == 0 {
    } else if t[0] == '\n' {
    } else {
        lemma_nl_index_bounds(t.drop_first());
        assert forall|j: int| 0 <= j < nl_index(t) implies t[j] != '\n' by {
            if j > 0 {
                assert(t.drop_first()[j - 1] == t[j]);
            }
        }
    }
}

/// The position of the first newline is determined by what the prefix holds.
pub proof fn lemma_nl_index_at(t: Seq<char>, k: int)
    requires
        0 <= k <= t.len(),
        forall|j: int| 0 <= j < k ==> t[j] != '\n',
        k < t.len() ==> t[k] == '\n',
    ensures
        nl_index(t) == k,
    decreases k,
{
    if k == 0 {
    } else {
        assert(t[0] != '\n');
        assert forall|j: int| 0 <= j < k - 1 implies t.drop_first()[j] != '\n' by {
            assert(t.drop_first()[j] == t[j + 1]);
        }
        assert(k - 1 < t.drop_first().len() ==> t.drop_first()[k - 1] == t[k]);
        lemma_nl_index_at(t.drop_first(), k - 1);
    }
}

/// Drops one trailing carriage return, as line splitting does for lines
/// terminated by a newline.
pub open spec fn strip_cr(s: Seq<char>) -> Seq<char> {
    if s.len() > 0 && s.last() == '\r' {
        s.drop_last()
    } else {
        s
    }
}

/// The lines of `t`, split at `'\n'`, each terminated line with one
/// trailing `'\r'` removed, and no empty line after a final newline.
/// This matches how the standard line iterator splits text.
pub open spec fn spec_lines(t: Seq<char>) -> Seq<Seq<char>>
    decreases t.len(),
    via spec_lines_dec
{
    if t.len() == 0 {
        Seq::empty()
    } else {
        let i = nl_index(t);
        if i == t.len() {
            seq![t]
        } else {
            seq![strip_cr(t.subrange(0, i))] + spec_lines(t.subrange(i + 1, t.len() as int))
        }
    }
}

#[via_fn]
proof fn spec_lines_dec(t: Seq<char>) {
    lemma_nl_index_bounds(t);
}

/// Splits a text chunk into lines: at each `'\n'`, with a `'\r'` directly
/// before the `'\n'` removed, and without a final empty line.
pub fn split_lines(text: &str) -> (r: Vec<String>)
    ensures
        r.deep_view() == spec_lines(text@),
{
    let len = text.unicode_len();
    let mut out: Vec<String> = Vec::new();
    let mut start: usize = 0;
    let mut i: usize = 0;
    proof {
        assert(text@.skip(0) =~= text@);
        assert(out.deep_view() + spec_lines(text@) =~= spec_lines(text@));
    }
    while i < len
        invariant
            len == text@.len(),
            start <= i <= len,
            forall|j: int| start <= j < i ==> text@[j] != '\n',
            spec_lines(text@) == out.deep_view() + spec_lines(text@.skip(start as int)),
        decreases len - i,
    {
        if text.get_char(i) == '\n' {
            let line_end: usize = if i > start && text.get_char(i - 1) == '\r' {
                i - 1
            } else {
                i
            };
            let line = text.substring_char(start, line_end).to_owned();
            let ghost dv0 = out.deep_view();
            let ghost rem = text@.skip(start as int);
            out.push(line);
            proof {
                assert forall|j: int| 0 <= j < i - start implies rem[j] != '\n' by {
                    assert(rem[j] == text@[start + j]);
                }
                assert(rem[i - start] == text@[i as int]);
                lemma_nl_index_at(rem, i - start);
                assert(rem.subrange(0, i - start) =~= text@.subrange(start as int, i as int));
                assert(strip_cr(rem.subrange(0, i - start)) =~= text@.subrange(
                    start as int,
                    line_end as int,
                ));
                assert(rem.subrange(i - start + 1, rem.len() as int) =~= text@.skip(i + 1));
                assert(spec_lines(rem) == seq![line@] + spec_lines(text@.skip(i + 1)));
                assert(out.deep_view() =~= dv0 + seq![line@]);
                assert((dv0 + seq![line@]) + spec_lines(text@.skip(i + 1)) =~= dv0 + (seq![line@]
                    + spec_lines(text@.skip(i + 1))));
            }
            start = i + 1;
        }
        i += 1;
    }
    if start < len {
        let line = text.substring_char(start, len).to_owned();
        let ghost dv0 = out.deep_view();
        let ghost rem = text@.skip(start as int);
        out.push(line);
        proof {
            assert forall|j: int| 0 <= j < rem.len() implies rem[j] != '\n' by {
                assert(rem[j] == text@[start + j]);
            }
            lemma_nl_index_at(rem, rem.len() as int);
            assert(rem =~= text@.subrange(start as int, len as int));
            assert(spec_lines(rem) == seq![rem]);
            assert(out.deep_view() =~= dv0 + seq![line@]);
            assert(dv0 + seq![line@] =~= spec_lines(text@));
        }
    } else {
        proof {
            assert(text@.skip(start as int).len() == 0);
            assert(out.deep_view() + spec_lines(text@.skip(start as int)) =~= out.deep_view());
        }
    }
    out
}

/// The marker that prefixes each event payload line.
pub open spec fn data_marker() -> Seq<char> {
    "data: "@
}

/// Strips the `data: ` marker from a line: the payload if the line carries
/// one, nothing otherwise.
pub fn data_payload(line: &str) -> (r: Option<String>)
    ensures
        match r {
            Some(p) => is_prefix(data_marker(), line@) && p@ == line@.skip(
                data_marker().len() as int,
            ),
            None => !is_prefix(data_marker(), line@),
        },
{
    proof {
        reveal_strlit("data: ");
    }
    if crate::strutil::starts_with(line, "data: ") {
        let len = line.unicode_len();
        let p = line.substring_char(6, len).to_owned();
        proof {
            assert(p@ =~= line@.skip(6));
        }
        Some(p)
    } else {
        None
    }
}

} // verus!
