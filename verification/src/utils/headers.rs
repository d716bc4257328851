//! A map of HTTP header names to values, with the checks that the HTTP client makes of them.

use crate::utils::text::{eq_ignore_ascii_case, eq_ignore_ascii_case_seq, owned, str_eq};
use vstd::prelude::*;

verus! {

/// The map that a sequence of (name, value) pairs makes when they are inserted in order:
/// a later pair replaces an earlier one with the same name.
pub open spec fn pairs_map(s: Seq<(Seq<char>, Seq<char>)>) -> Map<Seq<char>, Seq<char>>
    decreases s.len(),
{
    if s.len() == 0 {
        Map::empty()
    } else {
        pairs_map(s.drop_last()).insert(s.last().0, s.last().1)
    }
}

/// No two pairs have the same name.
pub open spec fn distinct_names(s: Seq<(Seq<char>, Seq<char>)>) -> bool {
    forall|i: int, j: int| 0 <= i < s.len() && 0 <= j < s.len() && i != j ==> s[i].0 != s[j].0
}

proof fn lemma_pairs_map(s: Seq<(Seq<char>, Seq<char>)>)
    requires
        distinct_names(s),
    ensures
        forall|k: Seq<char>| #[trigger] pairs_map(s).contains_key(k) <==> exists|i: int| 0 <= i < s.len() && s[i].0 == k,
        forall|i: int| 0 <= i < s.len() ==> pairs_map(s)[#[trigger] s[i].0] == s[i].1,
        pairs_map(s).dom().finite(),
        pairs_map(s).len() == s.len(),
    decreases s.len(),
{
    if s.len() > 0 {
        let p = s.drop_last();
        assert(distinct_names(p)) by {
            assert forall|i: int, j: int| 0 <= i < p.len() && 0 <= j < p.len() && i != j implies p[i].0 != p[j].0 by {
                assert(p[i] == s[i] && p[j] == s[j]);
            }
        }
        lemma_pairs_map(p);
        let m = pairs_map(p);
        assert forall|k: Seq<char>| #[trigger] pairs_map(s).contains_key(k) <==> exists|i: int| 0 <= i < s.len() && s[i].0 == k by {
            if pairs_map(s).contains_key(k) {
                if k == s.last().0 {
                    assert(s[s.len() - 1].0 == k);
                } else {
                    assert(m.contains_key(k));
                    let i = choose|i: int| 0 <= i < p.len() && p[i].0 == k;
                    assert(s[i] == p[i]);
                }
            }
            if exists|i: int| 0 <= i < s.len() && s[i].0 == k {
                let i = choose|i: int| 0 <= i < s.len() && s[i].0 == k;
                if i < s.len() - 1 {
                    assert(p[i] == s[i]);
                }
            }
        }
        assert forall|i: int| 0 <= i < s.len() implies pairs_map(s)[#[trigger] s[i].0] == s[i].1 by {
            if i < s.len() - 1 {
                assert(p[i] == s[i]);
                assert(s[i].0 != s[s.len() - 1].0);
            }
        }
        assert(!m.contains_key(s.last().0)) by {
            if m.contains_key(s.last().0) {
                let i = choose|i: int| 0 <= i < p.len() && p[i].0 == s.last().0;
                assert(p[i] == s[i]);
            }
        }
    }
}

/// A map of HTTP header names to values (names are compared exactly, as strings).
#[derive(Debug)]
pub struct Headers {
    entries: Vec<(String, String)>,
}

impl View for Headers {
    type V = Map<Seq<char>, Seq<char>>;

    closed spec fn view(&self) -> Map<Seq<char>, Seq<char>> {
        pairs_map(self.entries.deep_view())
    }
}

impl Headers {
    /// The headers as (name, value) pairs, in the order they were first inserted.
    pub closed spec fn pairs(&self) -> Seq<(Seq<char>, Seq<char>)> {
        self.entries.deep_view()
    }

    #[verifier::type_invariant]
    closed spec fn inv(self) -> bool {
        distinct_names(self.entries.deep_view())
    }

    /// The view is the map of the pairs, and the pairs have distinct names.
    proof fn lemma_pairs(&self)
        requires
            distinct_names(self.pairs()),
        ensures
            self@ == pairs_map(self.pairs()),
            distinct_names(self.pairs()),
            forall|k: Seq<char>| #[trigger] self@.contains_key(k) <==> exists|i: int| 0 <= i < self.pairs().len() && self.pairs()[i].0 == k,
            forall|i: int| 0 <= i < self.pairs().len() ==> self@[#[trigger] self.pairs()[i].0] == self.pairs()[i].1,
            self@.dom().finite(),
            self@.len() == self.pairs().len(),
    {
        lemma_pairs_map(self.entries.deep_view());
    }

    /// An empty map.
    pub fn new() -> (h: Headers)
        ensures
            h@ == Map::<Seq<char>, Seq<char>>::empty(),
    {
        let h = Headers { entries: Vec::new() };
        assert(h.entries.deep_view() =~= Seq::<(Seq<char>, Seq<char>)>::empty());
        h
    }

    /// The number of headers.
    pub fn len(&self) -> (n: usize)
        ensures
            n == self@.len(),
    {
        proof {
            use_type_invariant(self);
            self.lemma_pairs();
        }
        self.entries.len()
    }

    /// The headers as (name, value) pairs.
    pub fn entries(&self) -> (r: &Vec<(String, String)>)
        ensures
            r.deep_view() == self.pairs(),
            pairs_map(r.deep_view()) == self@,
            distinct_names(r.deep_view()),
    {
        proof {
            use_type_invariant(self);
        }
        &self.entries
    }

    /// Sets the value of the header `name`, replacing any value it had.
    pub fn insert(&mut self, name: String, value: String)
        ensures
            final(self)@ == old(self)@.insert(name@, value@),
    {
        proof {
            use_type_invariant(&*self);
            lemma_pairs_map(self.entries.deep_view());
        }
        let ghost old_pairs = self.entries.deep_view();
        let mut entries: Vec<(String, String)> = Vec::new();
        std::mem::swap(&mut entries, &mut self.entries);
        assert(entries.deep_view() == old_pairs);
        let mut i: usize = 0;
        while i < entries.len()
            invariant
                i <= entries.len(),
                entries.deep_view() == old_pairs,
                old_pairs == old(self).entries.deep_view(),
                distinct_names(old_pairs),
                forall|j: int| 0 <= j < i ==> old_pairs[j].0 != name@,
            decreases entries.len() - i,
        {
            if str_eq(entries[i].0.as_str(), name.as_str()) {
                let ghost k = i as int;
                assert(old_pairs[k].0 == name@);
                entries.set(i, (name, value));
                let ghost new_pairs = old_pairs.update(k, (name@, value@));
                assert(entries.deep_view() =~= new_pairs);
                assert(distinct_names(new_pairs)) by {
                    assert forall|a: int, b: int| 0 <= a < new_pairs.len() && 0 <= b < new_pairs.len() && a != b implies new_pairs[a].0 != new_pairs[b].0 by {
                        assert(new_pairs[a].0 == old_pairs[a].0);
                        assert(new_pairs[b].0 == old_pairs[b].0);
                    }
                }
                proof {
                    lemma_pairs_map(old_pairs);
                    lemma_pairs_map(new_pairs);
                    assert(pairs_map(new_pairs) =~= pairs_map(old_pairs).insert(name@, value@)) by {
                        assert forall|key: Seq<char>| #[trigger] pairs_map(new_pairs).contains_key(key) == pairs_map(old_pairs).insert(name@, value@).contains_key(key) by {
                            if pairs_map(old_pairs).contains_key(key) {
                                let w = choose|w: int| 0 <= w < old_pairs.len() && old_pairs[w].0 == key;
                                assert(new_pairs[w].0 == key);
                            }
                            if pairs_map(new_pairs).contains_key(key) {
                                let w = choose|w: int| 0 <= w < new_pairs.len() && new_pairs[w].0 == key;
                                assert(old_pairs[w].0 == key);
                            }
                            if key == name@ {
                                assert(new_pairs[k].0 == key);
                            }
                        }
                        assert forall|key: Seq<char>| #[trigger] pairs_map(new_pairs).contains_key(key) implies pairs_map(new_pairs)[key] == pairs_map(old_pairs).insert(name@, value@)[key] by {
                            let w = choose|w: int| 0 <= w < new_pairs.len() && new_pairs[w].0 == key;
                            assert(pairs_map(new_pairs)[new_pairs[w].0] == new_pairs[w].1);
                            if w != k {
                                assert(new_pairs[w] == old_pairs[w]);
                                assert(old_pairs[w].0 != old_pairs[k].0);
                                assert(pairs_map(old_pairs)[old_pairs[w].0] == old_pairs[w].1);
                            }
                        }
                    }
                }
                self.entries = entries;
                assert(self.entries.deep_view() == new_pairs);
                assert(self@ == pairs_map(old_pairs).insert(name@, value@));
                return;
            }
            i = i + 1;
        }
        entries.push((name, value));
        let ghost new_pairs = old_pairs.push((name@, value@));
        assert(entries.deep_view() =~= new_pairs);
        assert(distinct_names(new_pairs)) by {
            assert forall|a: int, b: int| 0 <= a < new_pairs.len() && 0 <= b < new_pairs.len() && a != b implies new_pairs[a].0 != new_pairs[b].0 by {
                if a < old_pairs.len() {
                    assert(new_pairs[a] == old_pairs[a]);
                }
                if b < old_pairs.len() {
                    assert(new_pairs[b] == old_pairs[b]);
                }
            }
        }
        assert(new_pairs.drop_last() == old_pairs);
        self.entries = entries;
    }

    /// The headers that the pairs make when inserted in order (a later pair replaces an earlier
    /// one with the same name).
    pub fn from_pairs(pairs: Vec<(String, String)>) -> (h: Headers)
        ensures
            h@ == pairs_map(pairs.deep_view()),
    {
        let ghost ps = pairs.deep_view();
        let mut h = Headers::new();
        let mut pairs = pairs;
        let mut rest: Vec<(String, String)> = Vec::new();
        // take the pairs from the back, so that they can be inserted from the front
        while pairs.len() > 0
            invariant
                pairs.deep_view() + rest.deep_view().reverse() == ps,
            decreases pairs.len(),
        {
            let ghost before = pairs.deep_view();
            let ghost rest_before = rest.deep_view();
            let p = pairs.pop().unwrap();
            rest.push(p);
            assert(pairs.deep_view() =~= before.drop_last());
            assert(rest.deep_view() =~= rest_before.push(before.last()));
            assert(rest.deep_view().reverse() =~= seq![before.last()] + rest_before.reverse());
            assert(pairs.deep_view() + rest.deep_view().reverse() =~= before + rest_before.reverse());
        }
        assert(rest.deep_view().reverse() =~= ps);
        let ghost n = rest.len();
        while rest.len() > 0
            invariant
                n == ps.len(),
                rest.len() <= n,
                rest.deep_view().reverse() == ps.subrange(n - rest.len(), n as int),
                h@ == pairs_map(ps.subrange(0, n - rest.len())),
            decreases rest.len(),
        {
            let ghost rest_before = rest.deep_view();
            let ghost done = n - rest.len();
            let (name, value) = rest.pop().unwrap();
            assert(rest.deep_view() =~= rest_before.drop_last());
            assert(ps[done] == (name@, value@)) by {
                assert(rest_before.reverse()[0] == rest_before.last());
            }
            assert(rest.deep_view().reverse() =~= ps.subrange(n - rest.len(), n as int)) by {
                assert forall|x: int| 0 <= x < rest.len() implies rest.deep_view().reverse()[x] == ps.subrange(n - rest.len(), n as int)[x] by {
                    assert(rest.deep_view().reverse()[x] == rest_before.reverse()[x + 1]);
                }
            }
            assert(ps.subrange(0, done + 1).drop_last() =~= ps.subrange(0, done));
            h.insert(name, value);
        }
        assert(ps.subrange(0, n as int) =~= ps);
        h
    }

    /// Whether some header name equals `name` when ASCII letters are compared without regard
    /// to case.
    pub fn contains_key_ignore_ascii_case(&self, name: &str) -> (b: bool)
        ensures
            b == exists|k: Seq<char>| #[trigger] self@.contains_key(k) && eq_ignore_ascii_case_seq(k, name@),
    {
        proof {
            use_type_invariant(self);
            self.lemma_pairs();
        }
        let mut i: usize = 0;
        while i < self.entries.len()
            invariant
                i <= self.entries.len(),
                self.entries.deep_view() == self.pairs(),
                forall|j: int| 0 <= j < i ==> !eq_ignore_ascii_case_seq(#[trigger] self.pairs()[j].0, name@),
            decreases self.entries.len() - i,
        {
            if eq_ignore_ascii_case(self.entries[i].0.as_str(), name) {
                proof {
                    use_type_invariant(self);
                    self.lemma_pairs();
                }
                assert(self@.contains_key(self.pairs()[i as int].0));
                return true;
            }
            i = i + 1;
        }
        assert forall|k: Seq<char>| #[trigger] self@.contains_key(k) implies !eq_ignore_ascii_case_seq(k, name@) by {
            let j = choose|j: int| 0 <= j < self.pairs().len() && self.pairs()[j].0 == k;
        }
        false
    }
}

/// The (name, value) pairs of a JSON object whose values are all strings, as serde_json
/// parses `text` into a `BTreeMap<String, String>` (names in ascending order, a repeated name
/// keeping its last value); `None` when `text` is not such an object.
pub uninterp spec fn json_string_map(text: Seq<char>) -> Option<Seq<(Seq<char>, Seq<char>)>>;

/// Calls `serde_json::from_str::<BTreeMap<String, String>>` on `text` and hands out the pairs of
/// the map. The contract claims only that the outcome is the one named `json_string_map(text)`,
/// a function of `text` alone; which texts parse, and to what, is not stated.
#[verifier::external_body]
fn parse_json_string_map(text: &str) -> (r: Option<Vec<(String, String)>>)
    ensures
        r.deep_view() == json_string_map(text@),
{
    serde_json::from_str::<std::collections::BTreeMap<String, String>>(text).ok().map(|m| m.into_iter().collect())
}

/// The headers that a JSON object of string values describes; `None` when `text` is not such an object.
pub open spec fn json_headers(text: Seq<char>) -> Option<Map<Seq<char>, Seq<char>>> {
    match json_string_map(text) {
        Some(ps) => Some(pairs_map(ps)),
        None => None,
    }
}

/// Parses headers from a JSON object whose values are all strings.
pub fn parse_json_headers(text: &str) -> (r: Option<Headers>)
    ensures
        match r {
            Some(h) => json_headers(text@) == Some(h@),
            None => json_headers(text@) is None,
        },
{
    match parse_json_string_map(text) {
        Some(pairs) => Some(Headers::from_pairs(pairs)),
        None => None,
    }
}

/// A character that HTTP allows in a header name (an RFC 7230 token character): an ASCII
/// letter or digit, or one of `!#$%&'*+-.^_`|~`.
pub open spec fn token_char(c: char) -> bool {
    ('a' <= c && c <= 'z') || ('A' <= c && c <= 'Z') || ('0' <= c && c <= '9') || c == '!' || c == '#'
        || c == '$' || c == '%' || c == '&' || c == '\'' || c == '*' || c == '+' || c == '-' || c == '.'
        || c == '^' || c == '_' || c == '`' || c == '|' || c == '~'
}

/// The HTTP client accepts `name` as a header name: 1 to 65535 token characters.
pub open spec fn valid_header_name(name: Seq<char>) -> bool {
    1 <= name.len() <= 65535 && forall|i: int| 0 <= i < name.len() ==> token_char(#[trigger] name[i])
}

/// Calls `HeaderName::try_from(&String)` of the `http` crate (re-exported by `reqwest`). The
/// contract claims what its source shows: a name is accepted exactly when it has 1 to 65535
/// bytes, each of which the table of token characters admits (ASCII letters, digits and
/// `!#$%&'*+-.^_`|~`; every other byte, non-ASCII ones included, is refused).
#[verifier::external_body]
fn header_name_is_valid(name: &String) -> (b: bool)
    ensures
        b == valid_header_name(name@),
{
    reqwest::header::HeaderName::try_from(name).is_ok()
}

/// The HTTP client accepts `value` as a header value: every byte of its UTF-8 encoding is a
/// tab or at least 32 and not 127, that is, every character is a tab or has a code of at
/// least 32 other than 127.
pub open spec fn valid_header_value(value: Seq<char>) -> bool {
    forall|i: int| 0 <= i < value.len() ==> (value[i] == '\t' || ((value[i] as u32) >= 32 && (value[i] as u32) != 127))
}

/// Calls `HeaderValue::try_from(&String)` of the `http` crate (re-exported by `reqwest`). The
/// contract claims what its source shows: the value is accepted exactly when every byte is a
/// tab or at least 32 and not 127.
#[verifier::external_body]
fn header_value_is_valid(value: &String) -> (b: bool)
    ensures
        b == valid_header_value(value@),
{
    reqwest::header::HeaderValue::try_from(value).is_ok()
}

/// Every header has a name and a value that the HTTP client accepts.
pub open spec fn valid_headers(h: Map<Seq<char>, Seq<char>>) -> bool {
    forall|k: Seq<char>| #[trigger] h.contains_key(k) ==> valid_header_name(k) && valid_header_value(h[k])
}

impl Headers {
    /// Whether every header has a name and a value that the HTTP client accepts.
    pub fn all_valid(&self) -> (b: bool)
        ensures
            b == valid_headers(self@),
    {
        proof {
            use_type_invariant(self);
            self.lemma_pairs();
        }
        let mut i: usize = 0;
        while i < self.entries.len()
            invariant
                i <= self.entries.len(),
                self.entries.deep_view() == self.pairs(),
                distinct_names(self.pairs()),
                forall|j: int| 0 <= j < i ==> valid_header_name(#[trigger] self.pairs()[j].0) && valid_header_value(self.pairs()[j].1),
            decreases self.entries.len() - i,
        {
            if !header_name_is_valid(&self.entries[i].0) || !header_value_is_valid(&self.entries[i].1) {
                proof {
                    self.lemma_pairs();
                }
                assert(self@.contains_key(self.pairs()[i as int].0));
                return false;
            }
            assert(self.pairs()[i as int].0 == self.entries@[i as int].0@);
            assert(self.pairs()[i as int].1 == self.entries@[i as int].1@);
            i = i + 1;
        }
        assert forall|k: Seq<char>| #[trigger] self@.contains_key(k) implies valid_header_name(k) && valid_header_value(self@[k]) by {
            let j = choose|j: int| 0 <= j < self.pairs().len() && self.pairs()[j].0 == k;
            assert(self@[self.pairs()[j].0] == self.pairs()[j].1);
        }
        true
    }
}

impl Clone for Headers {
    /// A copy of the headers.
    fn clone(&self) -> (r: Headers)
        ensures
            r@ == self@,
    {
        proof {
            use_type_invariant(self);
        }
        let mut entries: Vec<(String, String)> = Vec::new();
        let mut i: usize = 0;
        while i < self.entries.len()
            invariant
                i <= self.entries.len(),
                distinct_names(self.pairs()),
                self.entries.deep_view() == self.pairs(),
                entries.deep_view() == self.pairs().take(i as int),
            decreases self.entries.len() - i,
        {
            let name = owned(self.entries[i].0.as_str());
            let value = owned(self.entries[i].1.as_str());
            let ghost before = entries.deep_view();
            assert(self.pairs()[i as int] == (self.entries@[i as int].0@, self.entries@[i as int].1@));
            entries.push((name, value));
            assert(entries.deep_view() =~= before.push((name@, value@)));
            assert(entries.deep_view() =~= self.pairs().take(i + 1));
            i = i + 1;
        }
        assert(self.pairs().take(self.entries.len() as int) == self.pairs());
        Headers { entries }
    }
}

} // verus!
