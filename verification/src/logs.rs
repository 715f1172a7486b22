//! The log panel's copy action: earlier copy confirmations leave the log,
//! and the rest is copied as one text.
use crate::text::{chars_of, push_all, string_of};
use vstd::prelude::*;

verus! {

/// The texts of the lines.
pub open spec fn line_texts(lines: Seq<String>) -> Seq<Seq<char>> {
    lines.map_values(|l: String| l@)
}

/// The lines, in order, that are not among `dropped`.
pub open spec fn lines_without(lines: Seq<Seq<char>>, dropped: Seq<Seq<char>>) -> Seq<Seq<char>>
    decreases lines.len(),
{
    if lines.len() == 0 {
        Seq::empty()
    } else {
        let kept = lines_without(lines.drop_last(), dropped);
        if dropped.contains(lines.last()) {
            kept
        } else {
            kept.push(lines.last())
        }
    }
}

/// Only the given lines leave the log: the kept lines are exactly the
/// lines not among `dropped`, in order and as often as they occur.
pub proof fn lemma_lines_without_keeps_others(lines: Seq<Seq<char>>, dropped: Seq<Seq<char>>)
    ensures
        lines_without(lines, dropped) == lines.filter(|l: Seq<char>| !dropped.contains(l)),
    decreases lines.len(),
{
    reveal_with_fuel(Seq::filter, 1);
    if lines.len() > 0 {
        lemma_lines_without_keeps_others(lines.drop_last(), dropped);
    }
}

/// The lines joined with `'\n'` between them (none after the last).
pub open spec fn joined_lines(lines: Seq<Seq<char>>) -> Seq<char>
    decreases lines.len(),
{
    if lines.len() == 0 {
        Seq::empty()
    } else if lines.len() == 1 {
        lines[0]
    } else {
        joined_lines(lines.drop_last()) + seq!['\n'] + lines.last()
    }
}

/// Whether two texts are equal.
fn same_text(a: &str, b: &str) -> (r: bool)
    ensures
        r == (a@ == b@),
{
    let x = chars_of(a);
    let y = chars_of(b);
    if x.len() != y.len() {
        return false;
    }
    let mut i: usize = 0;
    while i < x.len()
        invariant
            x@ == a@,
            y@ == b@,
            x.len() == y.len(),
            i <= x.len(),
            forall|j: int| 0 <= j < i ==> x@[j] == y@[j],
        decreases x.len() - i,
    {
        if x[i] != y[i] {
            return false;
        }
        i = i + 1;
    }
    assert(x@ =~= y@);
    true
}

/// Whether `line` is one of `dropped`.
fn is_among(line: &String, dropped: &Vec<String>) -> (r: bool)
    ensures
        r == line_texts(dropped@).contains(line@),
{
    let mut i: usize = 0;
    while i < dropped.len()
        invariant
            i <= dropped.len(),
            forall|j: int| 0 <= j < i ==> dropped@[j]@ != line@,
        decreases dropped.len() - i,
    {
        if same_text(dropped[i].as_str(), line.as_str()) {
            assert(line_texts(dropped@)[i as int] == line@);
            return true;
        }
        i = i + 1;
    }
    proof {
        if line_texts(dropped@).contains(line@) {
            let j = choose|j: int|
                0 <= j < line_texts(dropped@).len() && line_texts(dropped@)[j] == line@;
            assert(dropped@[j]@ == line@);
        }
    }
    false
}

/// Copies the log: earlier copy confirmations (in any language, given in
/// `confirmations`) leave the log, the text to copy is the remaining lines
/// joined with newlines, and the new `confirmation` line ends the log.
pub fn copy_logs(logs: &mut Vec<String>, confirmations: &Vec<String>, confirmation: String) -> (text:
    String)
    ensures
        line_texts(final(logs)@) == lines_without(
            line_texts(old(logs)@),
            line_texts(confirmations@),
        ).push(confirmation@),
        text@ == joined_lines(lines_without(line_texts(old(logs)@), line_texts(confirmations@))),
{
    let ghost lines = line_texts(logs@);
    let ghost dropped = line_texts(confirmations@);
    let mut kept: Vec<String> = Vec::new();
    let mut out: Vec<char> = Vec::new();
    let mut i: usize = 0;
    while i < logs.len()
        invariant
            i <= logs.len(),
            lines == line_texts(logs@),
            dropped == line_texts(confirmations@),
            line_texts(kept@) == lines_without(lines.take(i as int), dropped),
            out@ == joined_lines(line_texts(kept@)),
        decreases logs.len() - i,
    {
        let line = &logs[i];
        assert(lines.take(i + 1).drop_last() =~= lines.take(i as int));
        assert(lines.take(i + 1).last() == line@);
        if !is_among(line, confirmations) {
            let ghost before = line_texts(kept@);
            if kept.len() > 0 {
                out.push('\n');
            }
            let chars = chars_of(line.as_str());
            push_all(&mut out, &chars);
            kept.push(line.clone());
            proof {
                assert(line_texts(kept@) =~= before.push(line@));
                assert(line_texts(kept@).drop_last() =~= before);
                if before.len() == 0 {
                    assert(out@ =~= line@);
                } else {
                    assert(out@ =~= joined_lines(before) + seq!['\n'] + line@);
                }
            }
        }
        i = i + 1;
    }
    assert(lines.take(logs.len() as int) =~= lines);
    let text = string_of(&out);
    let ghost kept_texts = line_texts(kept@);
    kept.push(confirmation);
    assert(line_texts(kept@) =~= kept_texts.push(confirmation@));
    *logs = kept;
    text
}

/// Empties the log.
pub fn clear_logs(logs: &mut Vec<String>)
    ensures
        final(logs)@.len() == 0,
{
    logs.clear();
}

} // verus!
