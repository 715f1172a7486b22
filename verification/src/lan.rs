//! The announcement that Minecraft: Java Edition clients listen for on the
//! local network: `[MOTD]name[/MOTD][AD]port[/AD]`.
use crate::number::{
    decimal, decimal_chars, is_digit, lemma_decimal_digits, lemma_decimal_round_trip,
    parse_unsigned, IntErrorKind,
};
use crate::text::{char_is_control, char_is_white_space, chars_of, is_control_char, is_white_space, push_all, push_str, string_of};
use vstd::prelude::*;

verus! {

/// Most characters of the announced name.
pub const MOTD_CHARS_MAX: usize = 64;

/// The name announced when nothing of the given name is left.
pub const MOTD_FALLBACK: &'static str = "shrieker";

/// The name announced when nothing of the given name is left.
pub open spec fn motd_fallback() -> Seq<char> {
    "shrieker"@
}

/// Brackets would end the name's field early and control characters have
/// no place in a one-line title: both become spaces.
pub open spec fn mask_char(c: char) -> char {
    if c == '[' || c == ']' || is_control_char(c) {
        ' '
    } else {
        c
    }
}

/// The first `MOTD_CHARS_MAX` characters of the name, masked.
pub open spec fn masked_name(name: Seq<char>) -> Seq<char> {
    let n = if name.len() < 64 {
        name.len() as int
    } else {
        64
    };
    name.take(n).map_values(|c: char| mask_char(c))
}

/// The pieces of a text between its white-space characters (one more piece
/// than there are white-space characters).
pub open spec fn space_pieces(s: Seq<char>) -> Seq<Seq<char>>
    decreases s.len(),
{
    if s.len() == 0 {
        seq![Seq::empty()]
    } else {
        let p = space_pieces(s.drop_last());
        if is_white_space(s.last()) {
            p.push(Seq::empty())
        } else {
            p.update(p.len() - 1, p.last().push(s.last()))
        }
    }
}

/// The pieces that are not empty, in order.
pub open spec fn nonempty_pieces(ps: Seq<Seq<char>>) -> Seq<Seq<char>>
    decreases ps.len(),
{
    if ps.len() == 0 {
        Seq::empty()
    } else if ps.last().len() == 0 {
        nonempty_pieces(ps.drop_last())
    } else {
        nonempty_pieces(ps.drop_last()).push(ps.last())
    }
}

/// Words joined with single spaces.
pub open spec fn join_with_space(words: Seq<Seq<char>>) -> Seq<char>
    decreases words.len(),
{
    if words.len() == 0 {
        Seq::empty()
    } else if words.len() == 1 {
        words[0]
    } else {
        join_with_space(words.drop_last()) + seq![' '] + words.last()
    }
}

/// The words of a text joined with single spaces: white space at the ends
/// removed and every run of white space inside replaced by one space.
pub open spec fn collapse_white_space(s: Seq<char>) -> Seq<char> {
    join_with_space(nonempty_pieces(space_pieces(s)))
}

/// The name as announced: masked, cut to `MOTD_CHARS_MAX` characters, its
/// white space collapsed, or the fallback name when nothing is left.
pub open spec fn sanitized_name(name: Seq<char>) -> Seq<char> {
    let cleaned = collapse_white_space(masked_name(name));
    if cleaned.len() == 0 {
        motd_fallback()
    } else {
        cleaned
    }
}

/// A character that may stand in an announced name.
pub open spec fn is_name_char(c: char) -> bool {
    c != '[' && c != ']' && !is_control_char(c)
}

/// The name that the announcement carries: at most `MOTD_CHARS_MAX`
/// characters, never empty, without brackets or control characters.
pub fn sanitize_name(name: &str) -> (r: String)
    ensures
        r@ == sanitized_name(name@),
        1 <= r@.len() <= MOTD_CHARS_MAX,
        forall|i: int| 0 <= i < r@.len() ==> is_name_char(#[trigger] r@[i]),
{
    let all = chars_of(name);
    let n: usize = if all.len() < MOTD_CHARS_MAX {
        all.len()
    } else {
        MOTD_CHARS_MAX
    };
    let ghost masked = masked_name(name@);
    let mut out: Vec<char> = Vec::new();
    let mut cur: Vec<char> = Vec::new();
    let ghost mut done: Seq<Seq<char>> = Seq::empty();
    let mut k: usize = 0;
    assert(masked.take(0) =~= Seq::<char>::empty());
    while k < n
        invariant
            n <= all.len(),
            all@ == name@,
            n <= MOTD_CHARS_MAX,
            masked.len() == n,
            masked == masked_name(name@),
            k <= n,
            space_pieces(masked.take(k as int)) == done.push(cur@),
            out@ == join_with_space(nonempty_pieces(done)),
            out.len() + cur.len() + (if out.len() > 0 {
                1int
            } else {
                0int
            }) <= k,
            out.len() == 0 <==> nonempty_pieces(done).len() == 0,
            forall|i: int| 0 <= i < out@.len() ==> is_name_char(#[trigger] out@[i]),
            forall|i: int|
                0 <= i < cur@.len() ==> is_name_char(#[trigger] cur@[i]) && !is_white_space(
                    cur@[i],
                ),
        decreases n - k,
    {
        let raw = all[k];
        let c = if raw == '[' || raw == ']' || char_is_control(raw) {
            ' '
        } else {
            raw
        };
        assert(c == masked[k as int]);
        let ghost before = masked.take(k as int);
        assert(masked.take(k + 1).drop_last() =~= before);
        assert(masked.take(k + 1).last() == c);
        if char_is_white_space(c) {
            proof {
                assert(space_pieces(masked.take(k + 1)) == done.push(cur@).push(
                    Seq::<char>::empty(),
                ));
                assert(done.push(cur@).drop_last() =~= done);
            }
            if cur.len() > 0 {
                let ghost old_out = out@;
                if out.len() > 0 {
                    out.push(' ');
                }
                push_all(&mut out, &cur);
                proof {
                    let words = nonempty_pieces(done);
                    assert(nonempty_pieces(done.push(cur@)) == words.push(cur@));
                    if words.len() == 0 {
                        assert(out@ =~= cur@);
                        assert(words.push(cur@) =~= seq![cur@]);
                    } else {
                        assert(words.push(cur@).drop_last() =~= words);
                        assert(out@ =~= old_out + seq![' '] + cur@);
                    }
                    assert forall|i: int| 0 <= i < out@.len() implies is_name_char(
                        #[trigger] out@[i],
                    ) by {
                        if i < old_out.len() {
                            assert(out@[i] == old_out[i]);
                        } else if out.len() > cur.len() && i < old_out.len() + 1 {
                        } else {
                            assert(out@[i] == cur@[i - (out@.len() - cur@.len())]);
                        }
                    }
                }
            } else {
                assert(nonempty_pieces(done.push(cur@)) == nonempty_pieces(done));
            }
            proof {
                done = done.push(cur@);
            }
            cur = Vec::new();
        } else {
            proof {
                let p = done.push(cur@);
                assert(space_pieces(masked.take(k + 1)) == p.update(
                    p.len() - 1,
                    p.last().push(c),
                ));
                assert(p.update(p.len() - 1, p.last().push(c)) =~= done.push(cur@.push(c)));
            }
            cur.push(c);
        }
        k = k + 1;
    }
    assert(masked.take(n as int) =~= masked);
    // The last piece ends the text.
    let ghost words = nonempty_pieces(done);
    assert(done.push(cur@).drop_last() =~= done);
    assert(done.push(cur@).last() == cur@);
    if cur.len() > 0 {
        let ghost old_out = out@;
        if out.len() > 0 {
            out.push(' ');
        }
        push_all(&mut out, &cur);
        proof {
            assert(nonempty_pieces(done.push(cur@)) == words.push(cur@));
            if words.len() == 0 {
                assert(out@ =~= cur@);
                assert(words.push(cur@) =~= seq![cur@]);
            } else {
                assert(words.push(cur@).drop_last() =~= words);
                assert(out@ =~= old_out + seq![' '] + cur@);
            }
            assert forall|i: int| 0 <= i < out@.len() implies is_name_char(#[trigger] out@[i]) by {
                if i < old_out.len() {
                    assert(out@[i] == old_out[i]);
                } else if out.len() > cur.len() && i < old_out.len() + 1 {
                } else {
                    assert(out@[i] == cur@[i - (out@.len() - cur@.len())]);
                }
            }
        }
    } else {
        assert(nonempty_pieces(done.push(cur@)) == nonempty_pieces(done));
    }
    if out.len() == 0 {
        let r = String::from_str("shrieker");
        proof {
            reveal_strlit("shrieker");
            assert(r@.len() == 8);
            assert forall|i: int| 0 <= i < r@.len() implies is_name_char(#[trigger] r@[i]) by {}
        }
        r
    } else {
        string_of(&out)
    }
}

pub open spec fn all_name_chars(s: Seq<char>) -> bool {
    forall|i: int| 0 <= i < s.len() ==> is_name_char(#[trigger] s[i])
}

pub open spec fn all_pieces_name_chars(ps: Seq<Seq<char>>) -> bool {
    forall|j: int| 0 <= j < ps.len() ==> all_name_chars(#[trigger] ps[j])
}

proof fn lemma_space_pieces_name_chars(s: Seq<char>)
    requires
        all_name_chars(s),
    ensures
        all_pieces_name_chars(space_pieces(s)),
        space_pieces(s).len() >= 1,
    decreases s.len(),
{
    if s.len() > 0 {
        let rest = s.drop_last();
        assert(all_name_chars(rest)) by {
            assert forall|i: int| 0 <= i < rest.len() implies is_name_char(#[trigger] rest[i]) by {
                assert(rest[i] == s[i]);
            }
        }
        lemma_space_pieces_name_chars(rest);
        let p = space_pieces(rest);
        let c = s.last();
        assert(is_name_char(c)) by {
            assert(c == s[s.len() - 1]);
        }
        if is_white_space(c) {
            assert(all_name_chars(Seq::<char>::empty()));
            assert forall|j: int| 0 <= j < p.push(Seq::<char>::empty()).len() implies all_name_chars(
                #[trigger] p.push(Seq::<char>::empty())[j],
            ) by {
                if j < p.len() {
                    assert(p.push(Seq::<char>::empty())[j] == p[j]);
                }
            }
        } else {
            let last = p.last().push(c);
            assert(all_name_chars(p.last())) by {
                assert(p.last() == p[p.len() - 1]);
            }
            assert(all_name_chars(last)) by {
                assert forall|i: int| 0 <= i < last.len() implies is_name_char(#[trigger] last[i]) by {
                    if i < p.last().len() {
                        assert(last[i] == p.last()[i]);
                    }
                }
            }
            let q = p.update(p.len() - 1, last);
            assert forall|j: int| 0 <= j < q.len() implies all_name_chars(#[trigger] q[j]) by {
                if j < p.len() - 1 {
                    assert(q[j] == p[j]);
                }
            }
        }
    }
}

proof fn lemma_nonempty_pieces_name_chars(ps: Seq<Seq<char>>)
    requires
        all_pieces_name_chars(ps),
    ensures
        all_pieces_name_chars(nonempty_pieces(ps)),
    decreases ps.len(),
{
    if ps.len() > 0 {
        let rest = ps.drop_last();
        assert(all_pieces_name_chars(rest)) by {
            assert forall|j: int| 0 <= j < rest.len() implies all_name_chars(#[trigger] rest[j]) by {
                assert(rest[j] == ps[j]);
            }
        }
        lemma_nonempty_pieces_name_chars(rest);
        let n = nonempty_pieces(rest);
        if ps.last().len() > 0 {
            assert(all_name_chars(ps.last())) by {
                assert(ps.last() == ps[ps.len() - 1]);
            }
            assert forall|j: int| 0 <= j < n.push(ps.last()).len() implies all_name_chars(
                #[trigger] n.push(ps.last())[j],
            ) by {
                if j < n.len() {
                    assert(n.push(ps.last())[j] == n[j]);
                }
            }
        }
    }
}

proof fn lemma_join_name_chars(words: Seq<Seq<char>>)
    requires
        all_pieces_name_chars(words),
    ensures
        all_name_chars(join_with_space(words)),
    decreases words.len(),
{
    if words.len() == 1 {
        assert(all_name_chars(words[0]));
    } else if words.len() > 1 {
        let rest = words.drop_last();
        assert(all_pieces_name_chars(rest)) by {
            assert forall|j: int| 0 <= j < rest.len() implies all_name_chars(#[trigger] rest[j]) by {
                assert(rest[j] == words[j]);
            }
        }
        lemma_join_name_chars(rest);
        let head = join_with_space(rest);
        let w = words.last();
        assert(all_name_chars(w)) by {
            assert(w == words[words.len() - 1]);
        }
        let t = head + seq![' '] + w;
        assert(is_name_char(' '));
        assert forall|i: int| 0 <= i < t.len() implies is_name_char(#[trigger] t[i]) by {
            if i < head.len() {
                assert(t[i] == head[i]);
            } else if i == head.len() {
                assert(t[i] == ' ');
            } else {
                assert(t[i] == w[i - head.len() - 1]);
            }
        }
    }
}

/// The sanitized name holds no bracket and no control character.
pub proof fn lemma_sanitized_name_chars(name: Seq<char>)
    ensures
        all_name_chars(sanitized_name(name)),
{
    let m = masked_name(name);
    assert(all_name_chars(m));
    lemma_space_pieces_name_chars(m);
    lemma_nonempty_pieces_name_chars(space_pieces(m));
    lemma_join_name_chars(nonempty_pieces(space_pieces(m)));
    reveal_strlit("shrieker");
    assert(all_name_chars(motd_fallback()));
}

pub open spec fn no_white_space(s: Seq<char>) -> bool {
    forall|i: int| 0 <= i < s.len() ==> !is_white_space(#[trigger] s[i])
}

/// Pieces that are words: not empty and without white space.
pub open spec fn all_words(ws: Seq<Seq<char>>) -> bool {
    forall|j: int| 0 <= j < ws.len() ==> #[trigger] ws[j].len() > 0 && no_white_space(ws[j])
}

/// The total length of the pieces.
pub open spec fn pieces_len(ps: Seq<Seq<char>>) -> nat
    decreases ps.len(),
{
    if ps.len() == 0 {
        0
    } else {
        pieces_len(ps.drop_last()) + ps.last().len()
    }
}

proof fn lemma_space_pieces_shape(s: Seq<char>)
    ensures
        space_pieces(s).len() >= 1,
        forall|j: int|
            0 <= j < space_pieces(s).len() ==> no_white_space(#[trigger] space_pieces(s)[j]),
        pieces_len(space_pieces(s)) + space_pieces(s).len() == s.len() + 1,
    decreases s.len(),
{
    if s.len() == 0 {
        let e = seq![Seq::<char>::empty()];
        assert(e.drop_last() =~= Seq::<Seq<char>>::empty());
        assert(pieces_len(Seq::<Seq<char>>::empty()) == 0);
        assert(pieces_len(e) == 0);
        assert(space_pieces(s) == e);
    } else {
        let rest = s.drop_last();
        lemma_space_pieces_shape(rest);
        let p = space_pieces(rest);
        let c = s.last();
        if is_white_space(c) {
            let q = p.push(Seq::<char>::empty());
            assert(q.drop_last() =~= p);
            assert(space_pieces(s) == q);
            assert(pieces_len(q) == pieces_len(p));
            assert forall|j: int| 0 <= j < q.len() implies no_white_space(#[trigger] q[j]) by {
                if j < p.len() {
                    assert(q[j] == p[j]);
                }
            }
        } else {
            let last = p.last().push(c);
            let q = p.update(p.len() - 1, last);
            assert(q.drop_last() =~= p.drop_last());
            assert(q.last() == last);
            assert(space_pieces(s) == q);
            assert(pieces_len(p) == pieces_len(p.drop_last()) + p.last().len());
            assert(pieces_len(q) == pieces_len(p) + 1);
            assert(no_white_space(p.last())) by {
                assert(p.last() == p[p.len() - 1]);
            }
            assert forall|j: int| 0 <= j < q.len() implies no_white_space(#[trigger] q[j]) by {
                if j < p.len() - 1 {
                    assert(q[j] == p[j]);
                } else {
                    assert forall|i: int| 0 <= i < last.len() implies !is_white_space(
                        #[trigger] last[i],
                    ) by {
                        if i < p.last().len() {
                            assert(last[i] == p.last()[i]);
                        }
                    }
                }
            }
        }
    }
}

proof fn lemma_nonempty_pieces_shape(ps: Seq<Seq<char>>)
    requires
        forall|j: int| 0 <= j < ps.len() ==> no_white_space(#[trigger] ps[j]),
    ensures
        all_words(nonempty_pieces(ps)),
        pieces_len(nonempty_pieces(ps)) == pieces_len(ps),
        nonempty_pieces(ps).len() <= ps.len(),
    decreases ps.len(),
{
    if ps.len() > 0 {
        let rest = ps.drop_last();
        assert forall|j: int| 0 <= j < rest.len() implies no_white_space(#[trigger] rest[j]) by {
            assert(rest[j] == ps[j]);
        }
        lemma_nonempty_pieces_shape(rest);
        let n = nonempty_pieces(rest);
        if ps.last().len() > 0 {
            let q = n.push(ps.last());
            assert(q.drop_last() =~= n);
            assert(no_white_space(ps.last())) by {
                assert(ps.last() == ps[ps.len() - 1]);
            }
            assert forall|j: int| 0 <= j < q.len() implies #[trigger] q[j].len() > 0
                && no_white_space(q[j]) by {
                if j < n.len() {
                    assert(q[j] == n[j]);
                }
            }
        }
    }
}

proof fn lemma_join_len(ws: Seq<Seq<char>>)
    requires
        ws.len() >= 1,
    ensures
        join_with_space(ws).len() + 1 == pieces_len(ws) + ws.len(),
    decreases ws.len(),
{
    if ws.len() == 1 {
        assert(ws.drop_last() =~= Seq::<Seq<char>>::empty());
    } else {
        lemma_join_len(ws.drop_last());
    }
}

/// Collapsing white space never makes a text longer.
proof fn lemma_collapse_len(s: Seq<char>)
    ensures
        collapse_white_space(s).len() <= s.len(),
{
    lemma_space_pieces_shape(s);
    let p = space_pieces(s);
    lemma_nonempty_pieces_shape(p);
    let w = nonempty_pieces(p);
    if w.len() > 0 {
        lemma_join_len(w);
    }
}

proof fn lemma_nonempty_pieces_of_words(ws: Seq<Seq<char>>)
    requires
        all_words(ws),
    ensures
        nonempty_pieces(ws) == ws,
    decreases ws.len(),
{
    if ws.len() > 0 {
        let rest = ws.drop_last();
        assert forall|j: int| 0 <= j < rest.len() implies #[trigger] rest[j].len() > 0
            && no_white_space(rest[j]) by {
            assert(rest[j] == ws[j]);
        }
        lemma_nonempty_pieces_of_words(rest);
        assert(ws.last() == ws[ws.len() - 1]);
        assert(rest.push(ws.last()) =~= ws);
    }
}

/// Appending text without white space extends the last piece.
proof fn lemma_space_pieces_append(s: Seq<char>, t: Seq<char>)
    requires
        no_white_space(t),
    ensures
        space_pieces(s + t) == space_pieces(s).update(
            space_pieces(s).len() - 1,
            space_pieces(s).last() + t,
        ),
    decreases t.len(),
{
    lemma_space_pieces_shape(s);
    let p = space_pieces(s);
    if t.len() == 0 {
        assert(s + t =~= s);
        assert(p.last() + t =~= p.last());
        assert(p.update(p.len() - 1, p.last() + t) =~= p);
    } else {
        let t0 = t.drop_last();
        assert forall|i: int| 0 <= i < t0.len() implies !is_white_space(#[trigger] t0[i]) by {
            assert(t0[i] == t[i]);
        }
        lemma_space_pieces_append(s, t0);
        assert((s + t).drop_last() =~= s + t0);
        assert((s + t).last() == t.last());
        assert(!is_white_space(t.last())) by {
            assert(t.last() == t[t.len() - 1]);
        }
        assert((p.last() + t0).push(t.last()) =~= p.last() + t);
        assert(space_pieces(s + t0).update(p.len() - 1, (p.last() + t0).push(t.last()))
            =~= p.update(p.len() - 1, p.last() + t));
    }
}

/// Words joined with single spaces split back into the same words.
proof fn lemma_words_round_trip(ws: Seq<Seq<char>>)
    requires
        ws.len() >= 1,
        all_words(ws),
    ensures
        space_pieces(join_with_space(ws)) == ws,
    decreases ws.len(),
{
    let w = ws.last();
    assert(ws.len() > 0 ==> w == ws[ws.len() - 1]);
    assert(no_white_space(w));
    if ws.len() == 1 {
        lemma_space_pieces_append(Seq::<char>::empty(), w);
        assert(Seq::<char>::empty() + w =~= w);
        assert(space_pieces(Seq::<char>::empty()) =~= seq![Seq::<char>::empty()]);
        assert(seq![Seq::<char>::empty()].update(0, Seq::<char>::empty() + w) =~= ws);
    } else {
        let rest = ws.drop_last();
        assert forall|j: int| 0 <= j < rest.len() implies #[trigger] rest[j].len() > 0
            && no_white_space(rest[j]) by {
            assert(rest[j] == ws[j]);
        }
        lemma_words_round_trip(rest);
        let head = join_with_space(rest) + seq![' '];
        assert(is_white_space(' '));
        assert(head.drop_last() =~= join_with_space(rest));
        assert(space_pieces(head) == rest.push(Seq::<char>::empty()));
        lemma_space_pieces_append(head, w);
        assert(join_with_space(ws) == head + w);
        let q = rest.push(Seq::<char>::empty());
        assert(q.update(q.len() - 1, q.last() + w) =~= ws);
    }
}

/// The only white space of the text is the plain space.
pub open spec fn spaces_only(s: Seq<char>) -> bool {
    forall|i: int| 0 <= i < s.len() && is_white_space(#[trigger] s[i]) ==> s[i] == ' '
}

/// A name as it would be announced: one to `MOTD_CHARS_MAX` name characters,
/// words separated by single plain spaces, no space at either end.
pub open spec fn is_clean_name(s: Seq<char>) -> bool {
    &&& 1 <= s.len() <= 64
    &&& all_name_chars(s)
    &&& spaces_only(s)
    &&& s[0] != ' ' && s.last() != ' '
    &&& forall|i: int| 0 <= i < s.len() - 1 && #[trigger] s[i] == ' ' ==> s[i + 1] != ' '
}

proof fn lemma_join_update_last(ws: Seq<Seq<char>>, c: char)
    requires
        ws.len() >= 1,
    ensures
        join_with_space(ws.update(ws.len() - 1, ws.last().push(c))) == join_with_space(ws).push(c),
{
    let u = ws.update(ws.len() - 1, ws.last().push(c));
    if ws.len() == 1 {
        assert(u[0] == ws[0].push(c));
    } else {
        assert(u.drop_last() =~= ws.drop_last());
        assert(u.last() == ws.last().push(c));
        assert(join_with_space(ws.drop_last()) + seq![' '] + ws.last().push(c) =~= (
        join_with_space(ws.drop_last()) + seq![' '] + ws.last()).push(c));
    }
}

/// Joining the pieces with plain spaces gives back a text whose only white
/// space is the plain space.
proof fn lemma_join_space_pieces(s: Seq<char>)
    requires
        spaces_only(s),
    ensures
        join_with_space(space_pieces(s)) == s,
    decreases s.len(),
{
    if s.len() == 0 {
        assert(space_pieces(s) =~= seq![Seq::<char>::empty()]);
    } else {
        let rest = s.drop_last();
        assert(spaces_only(rest)) by {
            assert forall|i: int| 0 <= i < rest.len() && is_white_space(#[trigger] rest[i])
                implies rest[i] == ' ' by {
                assert(rest[i] == s[i]);
            }
        }
        lemma_join_space_pieces(rest);
        lemma_space_pieces_shape(rest);
        let p = space_pieces(rest);
        let c = s.last();
        assert(c == s[s.len() - 1]);
        if is_white_space(c) {
            let q = p.push(Seq::<char>::empty());
            assert(q.drop_last() =~= p);
            assert(join_with_space(q) =~= rest + seq![' '] + Seq::<char>::empty());
            assert(s =~= rest + seq![' '] + Seq::<char>::empty());
        } else {
            lemma_join_update_last(p, c);
            assert(s =~= rest.push(c));
        }
    }
}

/// In a text that starts with no space and has no two spaces in a row,
/// every piece but the last holds something, and the last is empty exactly
/// when the text ends in a space.
proof fn lemma_space_pieces_filled(s: Seq<char>)
    requires
        spaces_only(s),
        s.len() > 0 ==> s[0] != ' ',
        forall|i: int| 0 <= i < s.len() - 1 && #[trigger] s[i] == ' ' ==> s[i + 1] != ' ',
    ensures
        forall|j: int|
            0 <= j < space_pieces(s).len() - 1 ==> #[trigger] space_pieces(s)[j].len() > 0,
        (space_pieces(s).last().len() == 0) == (s.len() == 0 || s.last() == ' '),
    decreases s.len(),
{
    lemma_space_pieces_shape(s);
    if s.len() > 0 {
        let rest = s.drop_last();
        assert(spaces_only(rest)) by {
            assert forall|i: int| 0 <= i < rest.len() && is_white_space(#[trigger] rest[i])
                implies rest[i] == ' ' by {
                assert(rest[i] == s[i]);
            }
        }
        assert forall|i: int| 0 <= i < rest.len() - 1 && #[trigger] rest[i] == ' ' implies rest[i
            + 1] != ' ' by {
            assert(rest[i] == s[i] && rest[i + 1] == s[i + 1]);
        }
        assert(rest.len() > 0 ==> rest[0] == s[0]);
        lemma_space_pieces_filled(rest);
        lemma_space_pieces_shape(rest);
        let p = space_pieces(rest);
        let c = s.last();
        assert(c == s[s.len() - 1]);
        if is_white_space(c) {
            assert(c == ' ');
            if rest.len() > 0 {
                assert(rest.last() == s[s.len() - 2]);
            }
            let q = p.push(Seq::<char>::empty());
            assert forall|j: int| 0 <= j < q.len() - 1 implies #[trigger] q[j].len() > 0 by {
                assert(q[j] == p[j]);
                if j == p.len() - 1 {
                    assert(p[j] == p.last());
                }
            }
        } else {
            let q = p.update(p.len() - 1, p.last().push(c));
            assert forall|j: int| 0 <= j < q.len() - 1 implies #[trigger] q[j].len() > 0 by {
                assert(q[j] == p[j]);
            }
            assert(q.last() == p.last().push(c));
        }
    }
}

/// A name that is already clean is announced as it is.
pub proof fn lemma_clean_name_kept(name: Seq<char>)
    requires
        is_clean_name(name),
    ensures
        sanitized_name(name) == name,
{
    assert(masked_name(name) =~= name) by {
        assert forall|i: int| 0 <= i < name.len() implies mask_char(#[trigger] name[i])
            == name[i] by {
            assert(is_name_char(name[i]));
        }
    }
    lemma_space_pieces_shape(name);
    lemma_space_pieces_filled(name);
    lemma_join_space_pieces(name);
    let p = space_pieces(name);
    assert(all_words(p)) by {
        assert forall|j: int| 0 <= j < p.len() implies #[trigger] p[j].len() > 0
            && no_white_space(p[j]) by {
            if j == p.len() - 1 {
                assert(p[j] == p.last());
            }
        }
    }
    lemma_nonempty_pieces_of_words(p);
}

/// Sanitizing an announced name again changes nothing.
pub proof fn lemma_sanitize_name_idempotent(name: Seq<char>)
    ensures
        sanitized_name(sanitized_name(name)) == sanitized_name(name),
{
    let r = sanitized_name(name);
    let m = masked_name(name);
    lemma_sanitized_name_chars(name);
    lemma_space_pieces_shape(m);
    lemma_nonempty_pieces_shape(space_pieces(m));
    let words = nonempty_pieces(space_pieces(m));
    // The name is short enough and holds only name characters, so masking
    // leaves it as it is.
    let cleaned = collapse_white_space(m);
    lemma_collapse_len(m);
    reveal_strlit("shrieker");
    let ws: Seq<Seq<char>> = if cleaned.len() == 0 {
        seq![motd_fallback()]
    } else {
        words
    };
    if cleaned.len() == 0 {
        assert(r == motd_fallback());
        assert forall|j: int| 0 <= j < ws.len() implies #[trigger] ws[j].len() > 0
            && no_white_space(ws[j]) by {
            assert(ws[j] == motd_fallback());
        }
        assert(join_with_space(ws) == r);
    } else {
        assert(words.len() > 0);
    }
    assert(r.len() <= 64);
    assert(masked_name(r) =~= r) by {
        assert forall|i: int| 0 <= i < r.len() implies mask_char(#[trigger] r[i]) == r[i] by {
            assert(is_name_char(r[i]));
        }
    }
    lemma_words_round_trip(ws);
    lemma_nonempty_pieces_of_words(ws);
    assert(collapse_white_space(r) == r);
}

/// The text of the announcement for a server with the given name and port.
pub open spec fn packet_text(name: Seq<char>, port: u16) -> Seq<char> {
    "[MOTD]"@ + sanitized_name(name) + "[/MOTD][AD]"@ + decimal(port as nat) + "[/AD]"@
}

/// The announcement datagram: the UTF-8 bytes of the announcement text.
pub fn build_packet(name: &str, port: u16) -> (r: Vec<u8>)
    ensures
        r@ == vstd::utf8::encode_utf8(packet_text(name@, port)),
{
    let mut text: Vec<char> = Vec::new();
    push_str(&mut text, "[MOTD]");
    let clean = sanitize_name(name);
    push_str(&mut text, clean.as_str());
    push_str(&mut text, "[/MOTD][AD]");
    let digits = decimal_chars(port as u64);
    push_all(&mut text, &digits);
    push_str(&mut text, "[/AD]");
    assert(text@ =~= packet_text(name@, port));
    let s = string_of(&text);
    let bytes = s.as_str().as_bytes();
    vstd::slice::slice_to_vec(bytes)
}

/// A client reads the announced name from `[MOTD]` up to the next `[`:
/// whatever name is given, that is exactly the sanitized name, followed by
/// `[/MOTD]`.
pub proof fn lemma_announced_name_field(name: Seq<char>, port: u16)
    ensures
        ({
            let t = packet_text(name, port);
            let s = sanitized_name(name);
            &&& t.take(6) == "[MOTD]"@
            &&& t.subrange(6, 6 + s.len() as int) == s
            &&& forall|i: int| 6 <= i < 6 + s.len() as int ==> t[i] != '['
            &&& t.subrange(6 + s.len() as int, 13 + s.len() as int) == "[/MOTD]"@
        }),
{
    reveal_strlit("[MOTD]");
    reveal_strlit("[/MOTD][AD]");
    reveal_strlit("[/MOTD]");
    let t = packet_text(name, port);
    let s = sanitized_name(name);
    lemma_sanitized_name_chars(name);
    let open = "[MOTD]"@;
    let close = "[/MOTD][AD]"@;
    assert(t.take(6) =~= open);
    assert(t.subrange(6, 6 + s.len() as int) =~= s);
    assert forall|i: int| 6 <= i < 6 + s.len() as int implies t[i] != '[' by {
        assert(t[i] == s[i - 6]);
        assert(is_name_char(s[i - 6]));
    }
    assert(t.subrange(6 + s.len() as int, 13 + s.len() as int) =~= close.take(7));
    assert(close.take(7) =~= "[/MOTD]"@);
}

/// A client reads the announced port between `[AD]` and `[/AD]`: whatever
/// name is given, that field holds only digits and reads back as the port.
pub proof fn lemma_announced_port_field(name: Seq<char>, port: u16)
    ensures
        ({
            let t = packet_text(name, port);
            let s = sanitized_name(name);
            let field = t.subrange(17 + s.len() as int, t.len() - 5);
            &&& t.subrange(13 + s.len() as int, 17 + s.len() as int) == "[AD]"@
            &&& t.subrange(t.len() - 5, t.len() as int) == "[/AD]"@
            &&& forall|i: int| 0 <= i < field.len() ==> is_digit(#[trigger] field[i])
            &&& parse_unsigned(field, u16::MAX as nat) == Ok::<nat, IntErrorKind>(port as nat)
        }),
{
    reveal_strlit("[MOTD]");
    reveal_strlit("[/MOTD][AD]");
    reveal_strlit("[AD]");
    reveal_strlit("[/AD]");
    let t = packet_text(name, port);
    let s = sanitized_name(name);
    let d = decimal(port as nat);
    lemma_decimal_digits(port as nat);
    lemma_decimal_round_trip(port as nat, u16::MAX as nat);
    assert(t.len() == 17 + s.len() + d.len() + 5);
    assert(t.subrange(17 + s.len() as int, t.len() - 5) =~= d);
    assert(t.subrange(13 + s.len() as int, 17 + s.len() as int) =~= "[AD]"@);
    assert(t.subrange(t.len() - 5, t.len() as int) =~= "[/AD]"@);
}

} // verus!
