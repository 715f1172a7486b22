//! Line-oriented text files: how a text splits into lines, and how lines
//! are joined into a text.
use crate::text::chars_of;
use vstd::prelude::*;

verus! {

/// The pieces of a text between its `'\n'` characters (one more piece than
/// there are newlines).
pub open spec fn newline_pieces(s: Seq<char>) -> Seq<Seq<char>>
    decreases s.len(),
{
    if s.len() == 0 {
        seq![Seq::empty()]
    } else {
        let p = newline_pieces(s.drop_last());
        if s.last() == '\n' {
            p.push(Seq::empty())
        } else {
            p.update(p.len() - 1, p.last().push(s.last()))
        }
    }
}

/// A line that a `"\r\n"` ended, without its `'\r'`.
pub open spec fn strip_carriage_return(line: Seq<char>) -> Seq<char> {
    if line.len() > 0 && line.last() == '\r' {
        line.drop_last()
    } else {
        line
    }
}

/// The lines of a text as `str::lines` gives them: split at `'\n'`, a
/// `'\r'` before a `'\n'` dropped, and no empty line after a final newline.
pub open spec fn text_lines(s: Seq<char>) -> Seq<Seq<char>> {
    let p = newline_pieces(s);
    let ended = p.drop_last().map_values(|l: Seq<char>| strip_carriage_return(l));
    if p.last().len() == 0 {
        ended
    } else {
        ended.push(p.last())
    }
}

/// Lines joined into a text, each followed by a newline.
pub open spec fn lines_text(lines: Seq<Seq<char>>) -> Seq<char>
    decreases lines.len(),
{
    if lines.len() == 0 {
        Seq::empty()
    } else {
        lines_text(lines.drop_last()) + lines.last() + seq!['\n']
    }
}

pub open spec fn has_no_newline(s: Seq<char>) -> bool {
    forall|i: int| 0 <= i < s.len() ==> s[i] != '\n'
}

/// The line held in `cur`, without the `'\r'` that a `"\r\n"` left on it.
fn ended_line(cur: &Vec<char>) -> (r: Vec<char>)
    ensures
        r@ == strip_carriage_return(cur@),
{
    let n = if cur.len() > 0 && cur[cur.len() - 1] == '\r' {
        cur.len() - 1
    } else {
        cur.len()
    };
    let mut r: Vec<char> = Vec::new();
    let mut i: usize = 0;
    while i < n
        invariant
            n <= cur.len(),
            i <= n,
            r@ == cur@.take(i as int),
        decreases n - i,
    {
        r.push(cur[i]);
        i = i + 1;
        assert(r@ =~= cur@.take(i as int));
    }
    assert(r@ =~= strip_carriage_return(cur@));
    r
}

/// The lines of a text, as `str::lines` splits it.
pub fn split_lines(content: &str) -> (r: Vec<Vec<char>>)
    ensures
        r@.len() == text_lines(content@).len(),
        forall|i: int| 0 <= i < r@.len() ==> #[trigger] r@[i]@ == text_lines(content@)[i],
{
    let s = chars_of(content);
    let mut out: Vec<Vec<char>> = Vec::new();
    let mut cur: Vec<char> = Vec::new();
    let mut k: usize = 0;
    let ghost f = |l: Seq<char>| strip_carriage_return(l);
    assert(s@.take(0) =~= Seq::<char>::empty());
    while k < s.len()
        invariant
            k <= s.len(),
            s@ == content@,
            f == (|l: Seq<char>| strip_carriage_return(l)),
            out@.len() == newline_pieces(s@.take(k as int)).len() - 1,
            forall|i: int|
                0 <= i < out@.len() ==> #[trigger] out@[i]@ == newline_pieces(
                    s@.take(k as int),
                ).drop_last().map_values(f)[i],
            cur@ == newline_pieces(s@.take(k as int)).last(),
            newline_pieces(s@.take(k as int)).len() >= 1,
        decreases s.len() - k,
    {
        let c = s[k];
        let ghost before = newline_pieces(s@.take(k as int));
        let ghost after = newline_pieces(s@.take(k + 1));
        assert(s@.take(k + 1).drop_last() =~= s@.take(k as int));
        assert(s@.take(k + 1).last() == c);
        if c == '\n' {
            assert(after == before.push(Seq::<char>::empty()));
            assert(after.drop_last() =~= before);
            let line = ended_line(&cur);
            out.push(line);
            cur = Vec::new();
        } else {
            assert(after == before.update(before.len() - 1, before.last().push(c)));
            assert(after.drop_last() =~= before.drop_last());
            cur.push(c);
        }
        k = k + 1;
    }
    assert(s@.take(s.len() as int) =~= s@);
    if cur.len() > 0 {
        out.push(cur);
    }
    out
}

proof fn lemma_newline_pieces_len(s: Seq<char>)
    ensures
        newline_pieces(s).len() >= 1,
    decreases s.len(),
{
    if s.len() > 0 {
        lemma_newline_pieces_len(s.drop_last());
    }
}

/// Appending text without newlines extends the last piece.
proof fn lemma_newline_pieces_append(s: Seq<char>, t: Seq<char>)
    requires
        has_no_newline(t),
    ensures
        newline_pieces(s + t) == newline_pieces(s).update(
            newline_pieces(s).len() - 1,
            newline_pieces(s).last() + t,
        ),
    decreases t.len(),
{
    lemma_newline_pieces_len(s);
    let p = newline_pieces(s);
    if t.len() == 0 {
        assert(s + t =~= s);
        assert(p.last() + t =~= p.last());
        assert(p.update(p.len() - 1, p.last() + t) =~= p);
    } else {
        let t0 = t.drop_last();
        lemma_newline_pieces_append(s, t0);
        assert((s + t).drop_last() =~= s + t0);
        assert((s + t).last() == t.last());
        assert((p.last() + t0).push(t.last()) =~= p.last() + t);
        assert(newline_pieces(s + t0).update(p.len() - 1, (p.last() + t0).push(t.last()))
            =~= p.update(p.len() - 1, p.last() + t));
    }
}

/// Splitting lines joined with newlines gives the lines back, and an empty
/// piece after the final newline.
proof fn lemma_lines_text_pieces(lines: Seq<Seq<char>>)
    requires
        forall|i: int| 0 <= i < lines.len() ==> has_no_newline(#[trigger] lines[i]),
    ensures
        newline_pieces(lines_text(lines)) == lines.push(Seq::empty()),
    decreases lines.len(),
{
    if lines.len() == 0 {
        assert(newline_pieces(Seq::<char>::empty()) =~= seq![Seq::<char>::empty()]);
        assert(lines.push(Seq::empty()) =~= seq![Seq::<char>::empty()]);
    } else {
        let rest = lines.drop_last();
        assert forall|i: int| 0 <= i < rest.len() implies has_no_newline(#[trigger] rest[i]) by {
            assert(rest[i] == lines[i]);
        }
        lemma_lines_text_pieces(rest);
        let t = lines_text(rest);
        let l = lines.last();
        assert(has_no_newline(l)) by {
            assert(l == lines[lines.len() - 1]);
        }
        lemma_newline_pieces_append(t, l);
        let with_line = t + l;
        assert(rest.push(Seq::empty()).update(rest.len() as int, Seq::<char>::empty() + l)
            =~= lines);
        assert(lines_text(lines) =~= with_line.push('\n'));
        assert(lines_text(lines).drop_last() =~= with_line);
    }
}

/// Lines without newlines that do not end in a carriage return, joined
/// into a text, split back into the same lines.
pub proof fn lemma_lines_round_trip(lines: Seq<Seq<char>>)
    requires
        forall|i: int| 0 <= i < lines.len() ==> has_no_newline(#[trigger] lines[i]),
        forall|i: int| 0 <= i < lines.len() ==> strip_carriage_return(#[trigger] lines[i]) == lines[i],
    ensures
        text_lines(lines_text(lines)) == lines,
{
    lemma_lines_text_pieces(lines);
    let pieces = lines.push(Seq::<char>::empty());
    assert(pieces.drop_last() =~= lines);
    assert(lines.map_values(|l: Seq<char>| strip_carriage_return(l)) =~= lines);
}

/// The text of the first `k + 1` lines extends that of the first `k`.
pub proof fn lemma_lines_text_take(lines: Seq<Seq<char>>, k: int)
    requires
        0 <= k <= lines.len(),
    ensures
        lines_text(lines.take(0)) == Seq::<char>::empty(),
        k > 0 ==> lines_text(lines.take(k)) == lines_text(lines.take(k - 1)) + lines[k - 1]
            + seq!['\n'],
{
    assert(lines.take(0) =~= Seq::<Seq<char>>::empty());
    if k > 0 {
        assert(lines.take(k).drop_last() =~= lines.take(k - 1));
    }
}

} // verus!
