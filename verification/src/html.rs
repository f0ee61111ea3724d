//! Escaping of text placed into HTML pages.

use vstd::prelude::*;

verus! {

/// Whether `c` is one of the characters that `html_escape` rewrites.
pub open spec fn is_html_special(c: char) -> bool {
    c == '&' || c == '<' || c == '>' || c == '"'
}

/// What one character becomes in escaped text.
pub open spec fn escape_char(c: char) -> Seq<char> {
    if c == '&' {
        seq!['&', 'a', 'm', 'p', ';']
    } else if c == '<' {
        seq!['&', 'l', 't', ';']
    } else if c == '>' {
        seq!['&', 'g', 't', ';']
    } else if c == '"' {
        seq!['&', 'q', 'u', 'o', 't', ';']
    } else {
        seq![c]
    }
}

/// The escaped form of `s`: each character replaced by its `escape_char`.
pub open spec fn escape_html(s: Seq<char>) -> Seq<char>
    decreases s.len(),
{
    if s.len() == 0 {
        Seq::empty()
    } else {
        escape_html(s.drop_last()) + escape_char(s.last())
    }
}

/// Escaping a concatenation escapes each part.
pub proof fn lemma_escape_concat(a: Seq<char>, b: Seq<char>)
    ensures
        escape_html(a + b) == escape_html(a) + escape_html(b),
    decreases b.len(),
{
    if b.len() == 0 {
        assert(a + b =~= a);
        assert(escape_html(b) =~= Seq::<char>::empty());
        assert(escape_html(a) + escape_html(b) =~= escape_html(a));
    } else {
        lemma_escape_concat(a, b.drop_last());
        assert((a + b).drop_last() =~= a + b.drop_last());
        assert((a + b).last() == b.last());
        assert(escape_html(a + b) =~= escape_html(a) + escape_html(b));
    }
}

/// Text without `&`, `<`, `>` or `"` is left as it is.
pub proof fn lemma_escape_plain(s: Seq<char>)
    requires
        forall|i: int| 0 <= i < s.len() ==> !is_html_special(#[trigger] s[i]),
    ensures
        escape_html(s) == s,
    decreases s.len(),
{
    if s.len() > 0 {
        lemma_escape_plain(s.drop_last());
        assert(escape_html(s) =~= s);
    }
}

/// Escaped text holds no `<`, `>` or `"`: no tag or attribute can be opened by it.
pub proof fn lemma_escape_no_markup(s: Seq<char>)
    ensures
        forall|i: int|
            0 <= i < escape_html(s).len() ==> {
                let c = #[trigger] escape_html(s)[i];
                c != '<' && c != '>' && c != '"'
            },
    decreases s.len(),
{
    if s.len() > 0 {
        lemma_escape_no_markup(s.drop_last());
        let t = escape_html(s);
        let pre = escape_html(s.drop_last());
        assert forall|i: int| 0 <= i < t.len() implies ({
            let c = #[trigger] t[i];
            c != '<' && c != '>' && c != '"'
        }) by {
            if i < pre.len() {
                assert(t[i] == pre[i]);
            } else {
                assert(t[i] == escape_char(s.last())[i - pre.len()]);
            }
        }
    }
}

/// Whether a whole entity written by `html_escape` starts at position `i` of `t`.
pub open spec fn entity_at(t: Seq<char>, i: int) -> bool {
    ||| (i + 5 <= t.len() && t.subrange(i, i + 5) == escape_char('&'))
    ||| (i + 4 <= t.len() && t.subrange(i, i + 4) == escape_char('<'))
    ||| (i + 4 <= t.len() && t.subrange(i, i + 4) == escape_char('>'))
    ||| (i + 6 <= t.len() && t.subrange(i, i + 6) == escape_char('"'))
}

/// In escaped text every `&` begins a whole entity.
pub proof fn lemma_escape_entities(s: Seq<char>)
    ensures
        forall|i: int|
            0 <= i < escape_html(s).len() && #[trigger] escape_html(s)[i] == '&' ==> entity_at(
                escape_html(s),
                i,
            ),
    decreases s.len(),
{
    if s.len() > 0 {
        lemma_escape_entities(s.drop_last());
        let t = escape_html(s);
        let pre = escape_html(s.drop_last());
        let e = escape_char(s.last());
        assert(t == pre + e);
        assert forall|i: int| 0 <= i < t.len() && #[trigger] t[i] == '&' implies entity_at(t, i) by {
            if i < pre.len() {
                assert(pre[i] == '&');
                assert(entity_at(pre, i));
                assert forall|k: int, m: int| i <= k <= m <= pre.len() implies #[trigger] t.subrange(k, m) == pre.subrange(k, m) by {
                    assert(t.subrange(k, m) =~= pre.subrange(k, m));
                }
            } else {
                assert(t[i] == e[i - pre.len()]);
                assert(i == pre.len());
                assert(t.subrange(i, i + e.len()) =~= e);
            }
        }
    }
}

/// Escaping loses nothing: two texts with the same escaped form are the same text.
pub proof fn lemma_escape_injective(a: Seq<char>, b: Seq<char>)
    requires
        escape_html(a) == escape_html(b),
    ensures
        a == b,
    decreases a.len() + b.len(),
{
    if a.len() == 0 && b.len() == 0 {
        assert(a =~= b);
    } else if a.len() == 0 {
        assert(escape_html(b).len() > 0);
    } else if b.len() == 0 {
        assert(escape_html(a).len() > 0);
    } else {
        let t = escape_html(a);
        let ca = a.last();
        let cb = b.last();
        let pa = escape_html(a.drop_last());
        let pb = escape_html(b.drop_last());
        let ea = escape_char(ca);
        let eb = escape_char(cb);
        assert(t == pa + ea);
        assert(t == pb + eb);
        lemma_escape_entities(a.drop_last());
        lemma_escape_entities(b.drop_last());
        assert(t.last() == ea.last());
        assert(t.last() == eb.last());
        lemma_last_escapes_agree(pa, pb, ca, cb);
        assert(ca == cb);
        assert(pa =~= t.subrange(0, t.len() - ea.len()));
        assert(pb =~= t.subrange(0, t.len() - eb.len()));
        lemma_escape_injective(a.drop_last(), b.drop_last());
        assert(a =~= a.drop_last().push(ca));
        assert(b =~= b.drop_last().push(cb));
    }
}

/// Two texts that end in the same escaped text end in the same character.
proof fn lemma_last_escapes_agree(pa: Seq<char>, pb: Seq<char>, ca: char, cb: char)
    requires
        pa + escape_char(ca) == pb + escape_char(cb),
        forall|i: int| 0 <= i < pa.len() && #[trigger] pa[i] == '&' ==> entity_at(pa, i),
        forall|i: int| 0 <= i < pb.len() && #[trigger] pb[i] == '&' ==> entity_at(pb, i),
    ensures
        escape_char(ca) == escape_char(cb),
{
    let t = pa + escape_char(ca);
    let ea = escape_char(ca);
    let eb = escape_char(cb);
    lemma_shorter_escape_impossible(pa, pb, ca, cb);
    lemma_shorter_escape_impossible(pb, pa, cb, ca);
    // both escapes end `t` and have the same length; their first two
    // characters tell them apart
    assert(t.subrange(t.len() - ea.len(), t.len() as int) =~= ea);
    assert(t.subrange(t.len() - eb.len(), t.len() as int) =~= eb);
    assert(ea =~= eb) by {
        assert(ea[0] == t[t.len() - ea.len()]);
        assert(eb[0] == t[t.len() - eb.len()]);
        if ea.len() > 1 {
            assert(ea[1] == t[t.len() - ea.len() + 1]);
            assert(eb[1] == t[t.len() - eb.len() + 1]);
        }
    }
}

/// The escape of a character cannot end text whose last character's escape is longer.
proof fn lemma_shorter_escape_impossible(pa: Seq<char>, pb: Seq<char>, ca: char, cb: char)
    requires
        pa + escape_char(ca) == pb + escape_char(cb),
        forall|i: int| 0 <= i < pa.len() && #[trigger] pa[i] == '&' ==> entity_at(pa, i),
    ensures
        escape_char(cb).len() <= escape_char(ca).len(),
{
    let t = pa + escape_char(ca);
    let ea = escape_char(ca);
    let eb = escape_char(cb);
    let n: int = t.len() as int;
    if ea.len() < eb.len() {
        let start = n - eb.len();
        assert(t.subrange(start, n) =~= eb);
        assert(t[start] == '&');
        assert(t[start + 1] == eb[1]);
        assert(0 <= start < pa.len());
        assert(pa[start] == '&');
        assert(entity_at(pa, start));
        assert(pa[start + 1] == t[start + 1]);
        assert(t[n - 1] == ';');
        assert(t[n - 2] == eb[eb.len() - 2]);
        if ea.len() == 1 {
            assert(ea[0] == ';');
        } else {
            assert(t[n - 2] == ea[ea.len() - 2]);
        }
        if pa.len() >= start + 5 && pa.subrange(start, start + 5) == escape_char('&') {
            assert(pa[start + 1] == pa.subrange(start, start + 5)[1]);
        } else if pa.len() >= start + 4 && pa.subrange(start, start + 4) == escape_char('<') {
            assert(pa[start + 1] == pa.subrange(start, start + 4)[1]);
        } else if pa.len() >= start + 4 && pa.subrange(start, start + 4) == escape_char('>') {
            assert(pa[start + 1] == pa.subrange(start, start + 4)[1]);
        } else {
            assert(pa[start + 1] == pa.subrange(start, start + 6)[1]);
        }
    }
}

/// Appends `c` to `s` with `String::push`, which std documents as appending
/// the character to the end of the string.
#[verifier::external_body]
fn push_char(s: &mut String, c: char)
    ensures
        final(s)@ == old(s)@.push(c),
{
    s.push(c);
}

/// Escapes `&`, `<`, `>` and `"` as the entities `&amp;`, `&lt;`, `&gt;` and
/// `&quot;`; every other character is kept.
pub fn html_escape(s: &str) -> (escaped: String)
    ensures
        escaped@ == escape_html(s@),
{
    broadcast use vstd::string::group_string_axioms;

    let mut out = String::new();
    for c in it: s.chars()
        invariant
            it.seq() == s@,
            out@ == escape_html(s@.take(it.index())),
    {
        let ghost before = out@;
        if c == '&' {
            out.append("&amp;");
            assert("&amp;"@ =~= escape_char(c)) by { reveal_strlit("&amp;"); }
        } else if c == '<' {
            out.append("&lt;");
            assert("&lt;"@ =~= escape_char(c)) by { reveal_strlit("&lt;"); }
        } else if c == '>' {
            out.append("&gt;");
            assert("&gt;"@ =~= escape_char(c)) by { reveal_strlit("&gt;"); }
        } else if c == '"' {
            out.append("&quot;");
            assert("&quot;"@ =~= escape_char(c)) by { reveal_strlit("&quot;"); }
        } else {
            push_char(&mut out, c);
            assert(before.push(c) =~= before + escape_char(c));
        }
        proof {
            let k = it.index();
            assert(s@.take(k + 1).drop_last() =~= s@.take(k));
            assert(s@.take(k + 1).last() == c);
        }
    }
    proof {
        assert(s@.take(s@.len() as int) =~= s@);
    }
    out
}

} // verus!
