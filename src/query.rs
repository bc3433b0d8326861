use vstd::prelude::*;

verus! {

/// The views of a sequence of name/value pairs.
pub open spec fn pairs_view(v: Seq<(String, String)>) -> Seq<(Seq<char>, Seq<char>)> {
    v.map_values(|p: (String, String)| (p.0@, p.1@))
}

/// The `application/x-www-form-urlencoded` serialization of `pairs`.
pub uninterp spec fn form_encoded(pairs: Seq<(Seq<char>, Seq<char>)>) -> Seq<char>;

/// The name/value pairs that an `application/x-www-form-urlencoded` parse of `query` yields.
pub uninterp spec fn form_decoded(query: Seq<char>) -> Seq<(Seq<char>, Seq<char>)>;

/// Relies on url::form_urlencoded::Serializer (append_pair for each pair, then finish):
/// the pairs serialized in order, names and values percent-encoded.
#[verifier::external_body]
pub(crate) fn encode_pairs(pairs: &Vec<(String, String)>) -> (r: String)
    ensures
        r@ == form_encoded(pairs_view(pairs@)),
{
    url::form_urlencoded::Serializer::new(String::new()).extend_pairs(pairs.iter()).finish()
}

/// Relies on url::form_urlencoded::parse: the decoded pairs of `query`, in order.
/// An empty input yields no pair.
#[verifier::external_body]
pub(crate) fn decode_pairs(query: &str) -> (r: Vec<(String, String)>)
    ensures
        pairs_view(r@) == form_decoded(query@),
        query@.len() == 0 ==> r@.len() == 0,
{
    url::form_urlencoded::parse(query.as_bytes()).into_owned().collect()
}

/// The first index at or after `start` where `s` holds `c`, or `s.len()` if there is none.
pub open spec fn index_from(s: Seq<char>, c: char, start: int) -> int
    decreases s.len() - start,
{
    if start >= s.len() {
        s.len() as int
    } else if s[start] == c {
        start
    } else {
        index_from(s, c, start + 1)
    }
}

/// The query of a request target: the text after the first `?` up to the next `?`
/// or the end; empty where the target has no `?`.
pub open spec fn query_part(target: Seq<char>) -> Seq<char> {
    let q = index_from(target, '?', 0);
    if q >= target.len() {
        Seq::empty()
    } else {
        target.subrange(q + 1, index_from(target, '?', q + 1))
    }
}

proof fn lemma_index_from_bounds(s: Seq<char>, c: char, start: int)
    requires
        0 <= start <= s.len(),
    ensures
        start <= index_from(s, c, start) <= s.len(),
        index_from(s, c, start) < s.len() ==> s[index_from(s, c, start)] == c,
    decreases s.len() - start,
{
    if start < s.len() && s[start] != c {
        lemma_index_from_bounds(s, c, start + 1);
    }
}

proof fn lemma_index_from_step(s: Seq<char>, c: char, start: int, i: int)
    requires
        0 <= start <= i <= s.len(),
        forall|j: int| start <= j < i ==> s[j] != c,
    ensures
        index_from(s, c, start) == index_from(s, c, i),
    decreases i - start,
{
    if start < i {
        lemma_index_from_step(s, c, start + 1, i);
    }
}

fn find_char(s: &str, c: char, start: usize) -> (r: usize)
    requires
        start <= s@.len(),
    ensures
        r == index_from(s@, c, start as int),
{
    let n = s.unicode_len();
    let mut i = start;
    while i < n
        invariant
            n == s@.len(),
            start <= i <= n,
            forall|j: int| start <= j < i ==> s@[j] != c,
        decreases n - i,
    {
        if s.get_char(i) == c {
            proof { lemma_index_from_step(s@, c, start as int, i as int); }
            return i;
        }
        i = i + 1;
    }
    proof { lemma_index_from_step(s@, c, start as int, i as int); }
    i
}

/// The query of the request target `target`.
pub fn request_query(target: &str) -> (r: &str)
    ensures
        r@ == query_part(target@),
{
    let n = target.unicode_len();
    let q = find_char(target, '?', 0);
    proof { lemma_index_from_bounds(target@, '?', 0); }
    if q >= n {
        proof { reveal_strlit(""); }
        ""
    } else {
        let end = find_char(target, '?', q + 1);
        proof { lemma_index_from_bounds(target@, '?', q + 1); }
        target.substring_char(q + 1, end)
    }
}

/// The value of the first pair in `pairs` whose name is `name`, if any.
pub open spec fn value_of(pairs: Seq<(Seq<char>, Seq<char>)>, name: Seq<char>) -> Option<Seq<char>>
    decreases pairs.len(),
{
    if pairs.len() == 0 {
        None
    } else if pairs[0].0 == name {
        Some(pairs[0].1)
    } else {
        value_of(pairs.drop_first(), name)
    }
}

/// The value of the first pair named `code`, if any.
pub open spec fn code_of(pairs: Seq<(Seq<char>, Seq<char>)>) -> Option<Seq<char>> {
    value_of(pairs, "code"@)
}

pub proof fn lemma_value_of_skip(pairs: Seq<(Seq<char>, Seq<char>)>, name: Seq<char>, i: int)
    requires
        0 <= i <= pairs.len(),
        forall|j: int| 0 <= j < i ==> pairs[j].0 != name,
    ensures
        value_of(pairs, name) == value_of(pairs.subrange(i, pairs.len() as int), name),
    decreases i,
{
    if i > 0 {
        assert(pairs.drop_first().subrange(i - 1, pairs.drop_first().len() as int)
            =~= pairs.subrange(i, pairs.len() as int));
        lemma_value_of_skip(pairs.drop_first(), name, i - 1);
    } else {
        assert(pairs.subrange(0, pairs.len() as int) =~= pairs);
    }
}

/// The value of the first pair in `pairs` whose name is `code`.
pub fn find_code(pairs: &Vec<(String, String)>) -> (r: Option<String>)
    ensures
        match r {
            Some(c) => code_of(pairs_view(pairs@)) == Some(c@),
            None => code_of(pairs_view(pairs@)) is None,
        },
{
    let key = String::from_str("code");
    let ghost pv = pairs_view(pairs@);
    let mut i: usize = 0;
    while i < pairs.len()
        invariant
            i <= pairs.len(),
            pv == pairs_view(pairs@),
            key@ == "code"@,
            forall|j: int| 0 <= j < i ==> pv[j].0 != "code"@,
        decreases pairs.len() - i,
    {
        if pairs[i].0 == key {
            proof {
                lemma_value_of_skip(pv, "code"@, i as int);
                assert(pv.subrange(i as int, pv.len() as int)[0] == pv[i as int]);
            }
            return Some(pairs[i].1.clone());
        }
        i = i + 1;
    }
    proof {
        lemma_value_of_skip(pv, "code"@, i as int);
        assert(pv.subrange(i as int, pv.len() as int).len() == 0);
    }
    None
}

/// The decoded name/value pairs of the query of the request target `target`.
pub fn query_pairs(target: &str) -> (r: Vec<(String, String)>)
    ensures
        pairs_view(r@) == form_decoded(query_part(target@)),
        query_part(target@).len() == 0 ==> r@.len() == 0,
{
    decode_pairs(request_query(target))
}

/// The authorization code that a callback to `target` carries, if any.
pub fn callback_code(target: &str) -> (r: Option<String>)
    ensures
        match r {
            Some(c) => code_of(form_decoded(query_part(target@))) == Some(c@),
            None => code_of(form_decoded(query_part(target@))) is None,
        },
{
    find_code(&query_pairs(target))
}

} // verus!
