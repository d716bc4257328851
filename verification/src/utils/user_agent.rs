//! The User-Agent string that every request carries.

use crate::utils::pattern::regex_remove_all;
use crate::utils::text::{ascii_lower, chars_of, concat, owned, string_from_chars};
use vstd::prelude::*;

verus! {

/// The lowercase of `s`, as std's `str::to_lowercase` computes it (Unicode lowercase mapping).
pub uninterp spec fn lowercase(s: Seq<char>) -> Seq<char>;

/// Every character of `s` is ASCII.
pub open spec fn all_ascii(s: Seq<char>) -> bool {
    forall|i: int| 0 <= i < s.len() ==> (s[i] as u32) < 128
}

/// Calls std's `str::to_lowercase`. The contract names the result `lowercase(s)`, a function of
/// `s` alone, and states the one fact std documents for ASCII text: on a string of ASCII
/// characters it maps `A`..`Z` to `a`..`z` and keeps every other character. What it does
/// to other Unicode characters is not stated.
#[verifier::external_body]
fn to_lowercase(s: &str) -> (r: String)
    ensures
        r@ == lowercase(s@),
        all_ascii(s@) ==> r@ == s@.map_values(|c: char| ascii_lower(c)),
{
    s.to_lowercase()
}

/// The characters a source tag may keep: `a`..`z`, `0`..`9`, `_`, `:` and the space.
pub open spec fn tag_char(c: char) -> bool {
    ('a' <= c && c <= 'z') || ('0' <= c && c <= '9') || c == '_' || c == ':' || c == ' '
}

/// The characters of `s` that a source tag may keep, in order.
pub open spec fn keep_tag_chars(s: Seq<char>) -> Seq<char>
    decreases s.len(),
{
    if s.len() == 0 {
        s
    } else if tag_char(s.last()) {
        keep_tag_chars(s.drop_last()).push(s.last())
    } else {
        keep_tag_chars(s.drop_last())
    }
}

/// The non-empty runs of non-space characters of `t`, in order: the pieces that
/// `t.split(' ')` yields, without the empty ones.
pub open spec fn words(t: Seq<char>) -> Seq<Seq<char>>
    decreases t.len(),
{
    if t.len() == 0 {
        Seq::empty()
    } else {
        let w = words(t.drop_last());
        let c = t.last();
        if c == ' ' {
            w
        } else if t.len() >= 2 && t[t.len() - 2] != ' ' {
            w.update(w.len() - 1, w.last().push(c))
        } else {
            w.push(seq![c])
        }
    }
}

/// The words of `ws` written one after the other with `sep` between each two.
pub open spec fn join_with(ws: Seq<Seq<char>>, sep: char) -> Seq<char>
    decreases ws.len(),
{
    if ws.len() == 0 {
        Seq::empty()
    } else if ws.len() == 1 {
        ws[0]
    } else {
        join_with(ws.drop_last(), sep).push(sep) + ws.last()
    }
}

/// The normal form of a source tag: lowercased, stripped of every character but `a`..`z`,
/// `0`..`9`, `_`, `:` and the space, and with its words joined by `_`.
pub open spec fn source_tag_text(tag: Seq<char>) -> Seq<char> {
    lowercase_tag_text(lowercase(tag))
}

/// The User-Agent that requests carry, for an optional source tag.
pub open spec fn user_agent_text(source_tag: Option<Seq<char>>) -> Seq<char> {
    match source_tag {
        None => "lang=rust; pinecone-rust-client=0.1.0"@,
        Some(tag) => "lang=rust; pinecone-rust-client=0.1.0"@ + "; source_tag="@ + source_tag_text(tag),
    }
}

proof fn lemma_words_nonempty(t: Seq<char>)
    ensures
        forall|k: int| 0 <= k < words(t).len() ==> #[trigger] words(t)[k].len() > 0,
        t.len() > 0 && t.last() != ' ' ==> words(t).len() > 0,
    decreases t.len(),
{
    if t.len() > 0 {
        let p = t.drop_last();
        lemma_words_nonempty(p);
        let w = words(p);
        let c = t.last();
        if c != ' ' && t.len() >= 2 && t[t.len() - 2] != ' ' {
            assert(p.last() == t[t.len() - 2]);
            assert(w.len() > 0);
            let w2 = w.update(w.len() - 1, w.last().push(c));
            assert(words(t) == w2);
            assert forall|k: int| 0 <= k < w2.len() implies #[trigger] w2[k].len() > 0 by {
                if k < w.len() - 1 {
                    assert(w2[k] == w[k]);
                }
            }
        } else if c != ' ' {
            let w2 = w.push(seq![c]);
            assert(words(t) == w2);
            assert forall|k: int| 0 <= k < w2.len() implies #[trigger] w2[k].len() > 0 by {
                if k < w.len() {
                    assert(w2[k] == w[k]);
                }
            }
        }
    }
}

proof fn lemma_join_empty(ws: Seq<Seq<char>>, sep: char)
    requires
        forall|k: int| 0 <= k < ws.len() ==> #[trigger] ws[k].len() > 0,
    ensures
        join_with(ws, sep).len() == 0 <==> ws.len() == 0,
    decreases ws.len(),
{
    if ws.len() > 1 {
        lemma_join_empty(ws.drop_last(), sep);
    }
}

proof fn lemma_join_extend_last(ws: Seq<Seq<char>>, sep: char, c: char)
    requires
        ws.len() > 0,
    ensures
        join_with(ws.update(ws.len() - 1, ws.last().push(c)), sep) == join_with(ws, sep).push(c),
{
    let ws2 = ws.update(ws.len() - 1, ws.last().push(c));
    if ws.len() > 1 {
        assert(ws2.drop_last() == ws.drop_last());
        assert(join_with(ws.drop_last(), sep).push(sep) + ws.last().push(c)
            == (join_with(ws.drop_last(), sep).push(sep) + ws.last()).push(c));
    }
}

proof fn lemma_join_push(ws: Seq<Seq<char>>, sep: char, w: Seq<char>)
    requires
        ws.len() > 0,
    ensures
        join_with(ws.push(w), sep) == join_with(ws, sep).push(sep) + w,
{
    assert(ws.push(w).drop_last() == ws);
}

/// A source tag in normal form: only `a`..`z`, `0`..`9`, `_` and `:`, no spaces.
pub open spec fn normal_tag(t: Seq<char>) -> bool {
    forall|i: int| 0 <= i < t.len() ==> tag_char(#[trigger] t[i]) && t[i] != ' '
}

proof fn lemma_keep_tag_chars(s: Seq<char>)
    ensures
        forall|i: int| 0 <= i < keep_tag_chars(s).len() ==> tag_char(#[trigger] keep_tag_chars(s)[i]),
        (forall|i: int| 0 <= i < s.len() ==> tag_char(#[trigger] s[i])) ==> keep_tag_chars(s) == s,
    decreases s.len(),
{
    if s.len() > 0 {
        lemma_keep_tag_chars(s.drop_last());
        let k = keep_tag_chars(s.drop_last());
        if tag_char(s.last()) {
            assert forall|i: int| 0 <= i < k.push(s.last()).len() implies tag_char(#[trigger] k.push(s.last())[i]) by {
                if i < k.len() {
                    assert(k.push(s.last())[i] == k[i]);
                }
            }
        }
        if forall|i: int| 0 <= i < s.len() ==> tag_char(#[trigger] s[i]) {
            assert(forall|i: int| 0 <= i < s.drop_last().len() ==> s.drop_last()[i] == s[i]);
            assert(s.drop_last().push(s.last()) == s);
        }
    }
}

proof fn lemma_words_chars(t: Seq<char>)
    requires
        forall|i: int| 0 <= i < t.len() ==> tag_char(#[trigger] t[i]),
    ensures
        forall|k: int, j: int|
            0 <= k < words(t).len() && 0 <= j < words(t)[k].len() ==> tag_char(#[trigger] words(t)[k][j])
                && words(t)[k][j] != ' ',
    decreases t.len(),
{
    if t.len() > 0 {
        let p = t.drop_last();
        assert forall|i: int| 0 <= i < p.len() implies tag_char(#[trigger] p[i]) by {
            assert(p[i] == t[i]);
        }
        lemma_words_chars(p);
        lemma_words_nonempty(p);
        let w = words(p);
        let c = t.last();
        assert(tag_char(t[t.len() - 1]));
        if c != ' ' && t.len() >= 2 && t[t.len() - 2] != ' ' {
            assert(p.last() == t[t.len() - 2]);
            let w2 = w.update(w.len() - 1, w.last().push(c));
            assert forall|k: int, j: int| 0 <= k < w2.len() && 0 <= j < w2[k].len() implies tag_char(
                #[trigger] w2[k][j],
            ) && w2[k][j] != ' ' by {
                if k < w.len() - 1 {
                    assert(w2[k] == w[k]);
                } else if j < w.last().len() {
                    assert(w2[k][j] == w[k][j]);
                }
            }
        } else if c != ' ' {
            let w2 = w.push(seq![c]);
            assert forall|k: int, j: int| 0 <= k < w2.len() && 0 <= j < w2[k].len() implies tag_char(
                #[trigger] w2[k][j],
            ) && w2[k][j] != ' ' by {
                if k < w.len() {
                    assert(w2[k] == w[k]);
                }
            }
        }
    }
}

proof fn lemma_join_chars(ws: Seq<Seq<char>>)
    requires
        forall|k: int, j: int|
            0 <= k < ws.len() && 0 <= j < ws[k].len() ==> tag_char(#[trigger] ws[k][j]) && ws[k][j] != ' ',
    ensures
        normal_tag(join_with(ws, '_')),
    decreases ws.len(),
{
    if ws.len() == 1 {
        assert forall|i: int| 0 <= i < ws[0].len() implies tag_char(#[trigger] ws[0][i]) && ws[0][i] != ' ' by {
        }
    } else if ws.len() > 1 {
        let p = ws.drop_last();
        assert forall|k: int, j: int| 0 <= k < p.len() && 0 <= j < p[k].len() implies tag_char(
            #[trigger] p[k][j],
        ) && p[k][j] != ' ' by {
            assert(p[k] == ws[k]);
        }
        lemma_join_chars(p);
        let a = join_with(p, '_').push('_');
        let b = ws.last();
        assert forall|i: int| 0 <= i < (a + b).len() implies tag_char(#[trigger] (a + b)[i]) && (a + b)[i] != ' ' by {
            if i < a.len() - 1 {
                assert((a + b)[i] == join_with(p, '_')[i]);
            } else if i >= a.len() {
                assert((a + b)[i] == ws[ws.len() - 1][i - a.len()]);
            }
        }
    }
}

proof fn lemma_words_of_word(t: Seq<char>)
    requires
        normal_tag(t),
    ensures
        t.len() == 0 ==> words(t) == Seq::<Seq<char>>::empty(),
        t.len() > 0 ==> words(t) == seq![t],
    decreases t.len(),
{
    if t.len() > 0 {
        let p = t.drop_last();
        assert(normal_tag(p)) by {
            assert forall|i: int| 0 <= i < p.len() implies tag_char(#[trigger] p[i]) && p[i] != ' ' by {
                assert(p[i] == t[i]);
            }
        }
        lemma_words_of_word(p);
        assert(t[t.len() - 1] != ' ');
        if t.len() >= 2 {
            assert(t[t.len() - 2] == p[p.len() - 1]);
            assert(p.push(t.last()) == t);
        } else {
            assert(t == seq![t.last()]);
        }
    }
}

/// The normal form of a source tag that is already lowercase: only `a`..`z`, `0`..`9`, `_`,
/// `:` and spaces are kept, and the remaining words are joined with `_`.
pub open spec fn lowercase_tag_text(lower: Seq<char>) -> Seq<char> {
    join_with(words(keep_tag_chars(lower)), '_')
}

/// The User-Agent names the language and the client's version, and then the normalized
/// source tag when one is given.
pub proof fn user_agent_names_client_then_tag(tag: Seq<char>)
    ensures
        user_agent_text(None) == "lang=rust; pinecone-rust-client=0.1.0"@,
        user_agent_text(Some(tag)) == "lang=rust; pinecone-rust-client=0.1.0; source_tag="@ + source_tag_text(tag),
{
    reveal_strlit("lang=rust; pinecone-rust-client=0.1.0");
    reveal_strlit("; source_tag=");
    reveal_strlit("lang=rust; pinecone-rust-client=0.1.0; source_tag=");
    assert("lang=rust; pinecone-rust-client=0.1.0"@ + "; source_tag="@
        =~= "lang=rust; pinecone-rust-client=0.1.0; source_tag="@);
}

proof fn lemma_keep_concat(x: Seq<char>, y: Seq<char>)
    ensures
        keep_tag_chars(x + y) == keep_tag_chars(x) + keep_tag_chars(y),
    decreases y.len(),
{
    if y.len() == 0 {
        assert(x + y =~= x);
        assert(keep_tag_chars(x) + keep_tag_chars(y) =~= keep_tag_chars(x));
    } else {
        let y0 = y.drop_last();
        lemma_keep_concat(x, y0);
        assert((x + y).drop_last() =~= x + y0);
        assert((x + y).last() == y.last());
        if tag_char(y.last()) {
            assert(keep_tag_chars(x) + keep_tag_chars(y0).push(y.last()) =~= (keep_tag_chars(x)
                + keep_tag_chars(y0)).push(y.last()));
        }
    }
}

proof fn lemma_words_split(p: Seq<char>, q: Seq<char>)
    ensures
        words(p + seq![' '] + q) == words(p) + words(q),
    decreases q.len(),
{
    let s = p + seq![' '] + q;
    if q.len() == 0 {
        assert(s.drop_last() =~= p);
        assert(s.last() == ' ');
        assert(words(p) + words(q) =~= words(p));
    } else {
        let q0 = q.drop_last();
        let c = q.last();
        lemma_words_split(p, q0);
        assert(s.drop_last() =~= p + seq![' '] + q0);
        assert(s.last() == c);
        let a = words(p);
        let b = words(q0);
        if c != ' ' {
            // the character before `c` in `s`, and in `q`
            if q0.len() > 0 {
                assert(s[s.len() - 2] == q0.last());
                assert(q[q.len() - 2] == q0.last());
            } else {
                assert(s[s.len() - 2] == ' ');
            }
            if q0.len() > 0 && q0.last() != ' ' {
                lemma_words_nonempty(q0);
                assert(b.len() > 0);
                assert((a + b).update((a + b).len() - 1, (a + b).last().push(c)) =~= a + b.update(
                    b.len() - 1,
                    b.last().push(c),
                ));
            } else {
                assert((a + b).push(seq![c]) =~= a + b.push(seq![c]));
            }
        }
    }
}

proof fn lemma_join_concat(a: Seq<Seq<char>>, b: Seq<Seq<char>>, sep: char)
    requires
        a.len() > 0,
        b.len() > 0,
    ensures
        join_with(a + b, sep) == join_with(a, sep).push(sep) + join_with(b, sep),
    decreases b.len(),
{
    if b.len() == 1 {
        assert((a + b).drop_last() =~= a);
        assert((a + b).last() == b[0]);
    } else {
        let b0 = b.drop_last();
        lemma_join_concat(a, b0, sep);
        assert((a + b).drop_last() =~= a + b0);
        assert((a + b).last() == b.last());
        assert((join_with(a, sep).push(sep) + join_with(b0, sep)).push(sep) + b.last() =~= join_with(a, sep).push(sep)
            + (join_with(b0, sep).push(sep) + b.last()));
    }
}

/// The tag of two texts put together with a space between them is the tag of the first and
/// the tag of the second, joined by `_` when both have one: the words of a source tag are all
/// kept, in order.
pub proof fn tag_of_texts_split_at_a_space(a: Seq<char>, b: Seq<char>)
    ensures
        lowercase_tag_text(a + seq![' '] + b) == if lowercase_tag_text(a).len() == 0 {
            lowercase_tag_text(b)
        } else if lowercase_tag_text(b).len() == 0 {
            lowercase_tag_text(a)
        } else {
            lowercase_tag_text(a).push('_') + lowercase_tag_text(b)
        },
{
    let ka = keep_tag_chars(a);
    let kb = keep_tag_chars(b);
    lemma_keep_concat(a, seq![' ']);
    lemma_keep_concat(a + seq![' '], b);
    assert(keep_tag_chars(seq![' ']) == seq![' ']) by {
        reveal_with_fuel(keep_tag_chars, 2);
        assert(seq![' '].drop_last() =~= Seq::<char>::empty());
        assert(seq![' '].last() == ' ');
        assert(Seq::<char>::empty().push(' ') =~= seq![' ']);
    }
    assert(keep_tag_chars(a + seq![' '] + b) =~= ka + seq![' '] + kb);
    lemma_words_split(ka, kb);
    let wa = words(ka);
    let wb = words(kb);
    lemma_words_nonempty(ka);
    lemma_words_nonempty(kb);
    lemma_join_empty(wa, '_');
    lemma_join_empty(wb, '_');
    if wa.len() == 0 {
        assert(wa + wb =~= wb);
    } else if wb.len() == 0 {
        assert(wa + wb =~= wa);
    } else {
        lemma_join_concat(wa, wb, '_');
    }
}

/// A character that a source tag may not hold is dropped, wherever it stands.
pub proof fn tag_drops_forbidden_chars(a: Seq<char>, c: char, b: Seq<char>)
    requires
        !tag_char(c),
    ensures
        lowercase_tag_text(a + seq![c] + b) == lowercase_tag_text(a + b),
{
    lemma_keep_concat(a, seq![c]);
    lemma_keep_concat(a + seq![c], b);
    lemma_keep_concat(a, b);
    assert(keep_tag_chars(seq![c]) == Seq::<char>::empty()) by {
        reveal_with_fuel(keep_tag_chars, 2);
        assert(seq![c].drop_last() =~= Seq::<char>::empty());
        assert(seq![c].last() == c);
    }
    assert(keep_tag_chars(a) + Seq::<char>::empty() =~= keep_tag_chars(a));
}

/// A single word of characters that a source tag may hold is its own tag.
pub proof fn tag_of_a_word(w: Seq<char>)
    requires
        normal_tag(w),
    ensures
        lowercase_tag_text(w) == w,
{
    lemma_keep_tag_chars(w);
    lemma_words_of_word(w);
}

/// Normalizes a lowercased source tag: keeps only `a`..`z`, `0`..`9`, `_`, `:` and spaces, and
/// joins the remaining words with `_`.
pub fn normalize_lowercase_tag(lower: &str) -> (r: String)
    ensures
        r@ == lowercase_tag_text(lower@),
        normal_tag(r@),
        normal_tag(lower@) ==> r@ == lower@,
{
    // drop every character a source tag may not hold
    let kept = regex_remove_all("[^a-z0-9_: ]", lower);
    let t = chars_of(kept.as_str());
    // join the words with '_'
    let mut out: Vec<char> = Vec::new();
    let mut j: usize = 0;
    while j < t.len()
        invariant
            j <= t.len(),
            t@ == keep_tag_chars(lower@),
            out@ == join_with(words(t@.take(j as int)), '_'),
        decreases t.len() - j,
    {
        let c = t[j];
        let ghost pre = t@.take(j as int);
        let ghost post = t@.take(j + 1);
        assert(post.drop_last() == pre);
        assert(post.last() == c);
        proof {
            lemma_words_nonempty(pre);
            lemma_join_empty(words(pre), '_');
        }
        if c != ' ' {
            if j > 0 && t[j - 1] != ' ' {
                assert(post[post.len() - 2] == t@[j - 1]);
                proof {
                    lemma_join_extend_last(words(pre), '_', c);
                }
                out.push(c);
            } else {
                if out.len() > 0 {
                    proof {
                        lemma_join_push(words(pre), '_', seq![c]);
                    }
                    out.push('_');
                    out.push(c);
                    assert(out@ == join_with(words(pre), '_').push('_') + seq![c]);
                } else {
                    assert(words(pre).len() == 0);
                    assert(words(post) == seq![seq![c]]);
                    out.push(c);
                    assert(out@ == seq![c]);
                }
            }
        }
        j = j + 1;
    }
    assert(t@.take(t.len() as int) == t@);
    proof {
        lemma_keep_tag_chars(lower@);
        lemma_words_chars(t@);
        lemma_join_chars(words(t@));
        if normal_tag(lower@) {
            lemma_words_of_word(lower@);
        }
    }
    string_from_chars(&out)
}

/// Normalizes a source tag: lowercases it, keeps only `a`..`z`, `0`..`9`, `_`, `:` and spaces,
/// and joins the remaining words with `_`.
pub fn build_source_tag(source_tag: &str) -> (r: String)
    ensures
        r@ == source_tag_text(source_tag@),
        all_ascii(source_tag@) ==> r@ == lowercase_tag_text(source_tag@.map_values(|c: char| ascii_lower(c))),
        normal_tag(r@),
        normal_tag(source_tag@) ==> r@ == source_tag@,
{
    let lower = to_lowercase(source_tag);
    proof {
        if normal_tag(source_tag@) {
            assert forall|i: int| 0 <= i < source_tag@.len() implies (source_tag@[i] as u32) < 128 by {
                assert(tag_char(source_tag@[i]));
            }
            assert(lower@ == source_tag@) by {
                assert forall|i: int| 0 <= i < source_tag@.len() implies lower@[i] == source_tag@[i] by {
                    assert(tag_char(source_tag@[i]));
                }
            }
        }
    }
    normalize_lowercase_tag(lower.as_str())
}

/// Gets the User-Agent string: `lang=rust; pinecone-rust-client=0.1.0`, followed by
/// `; source_tag=` and the normalized source tag when one is given.
pub fn get_user_agent(source_tag: Option<&str>) -> (r: String)
    ensures
        r@ == user_agent_text(
            match source_tag {
                Some(t) => Some(t@),
                None => None,
            },
        ),
{
    match source_tag {
        None => owned("lang=rust; pinecone-rust-client=0.1.0"),
        Some(tag) => {
            let ua = concat("lang=rust; pinecone-rust-client=0.1.0", "; source_tag=");
            let t = build_source_tag(tag);
            concat(ua.as_str(), t.as_str())
        },
    }
}

} // verus!
