//! The redirect that ends the browser's part of a login: how its target is
//! split and what it carries.

use vstd::prelude::*;
use vstd::string::*;
use crate::token::text;

verus! {

/// The index of the first `c` in `s` at or after `from`, or the length of
/// `s` where there is none.
pub open spec fn position(s: Seq<char>, c: char, from: int) -> int
    decreases s.len() - from,
{
    if from < 0 || from >= s.len() {
        s.len() as int
    } else if s[from] == c {
        from
    } else {
        position(s, c, from + 1)
    }
}

/// `position` lies between `from` and the end, no `c` stands before it, and
/// where it is inside `s` it points at a `c`.
pub proof fn lemma_position(s: Seq<char>, c: char, from: int)
    requires
        0 <= from <= s.len(),
    ensures
        from <= position(s, c, from) <= s.len(),
        forall|j: int| from <= j < position(s, c, from) ==> s[j] != c,
        position(s, c, from) < s.len() ==> s[position(s, c, from)] == c,
    decreases s.len() - from,
{
    if from < s.len() && s[from] != c {
        lemma_position(s, c, from + 1);
    }
}

/// The part of a request target before its first `?`.
pub open spec fn path_of(target: Seq<char>) -> Seq<char> {
    target.subrange(0, position(target, '?', 0))
}

/// The part of a request target after its first `?`; empty where it has none.
pub open spec fn query_of(target: Seq<char>) -> Seq<char> {
    let mark = position(target, '?', 0);
    if mark < target.len() {
        target.subrange(mark + 1, target.len() as int)
    } else {
        Seq::empty()
    }
}

/// The name and the value of one parameter: what stands before its first
/// `=` and what stands after it. A parameter without `=` has an empty value.
pub open spec fn pair_of(parameter: Seq<char>) -> (Seq<char>, Seq<char>) {
    let mark = position(parameter, '=', 0);
    (
        parameter.subrange(0, mark),
        if mark < parameter.len() {
            parameter.subrange(mark + 1, parameter.len() as int)
        } else {
            Seq::empty()
        },
    )
}

/// The parameters of `query` from index `from` on, in the order in which
/// they stand. Parameters are separated by `&`; an empty one is passed over.
/// Names and values are taken as they stand, without decoding.
pub open spec fn pairs_from(query: Seq<char>, from: int) -> Seq<(Seq<char>, Seq<char>)>
    decreases query.len() - from,
{
    if from < 0 || from >= query.len() {
        Seq::empty()
    } else {
        let end = position(query, '&', from);
        let head = if from < end <= query.len() {
            seq![pair_of(query.subrange(from, end))]
        } else {
            Seq::empty()
        };
        let tail = if from <= end < query.len() {
            pairs_from(query, end + 1)
        } else {
            Seq::empty()
        };
        head + tail
    }
}

/// All parameters of `query`.
pub open spec fn query_pairs(query: Seq<char>) -> Seq<(Seq<char>, Seq<char>)> {
    pairs_from(query, 0)
}

/// The value of the first parameter named `name`.
pub open spec fn lookup(pairs: Seq<(Seq<char>, Seq<char>)>, name: Seq<char>) -> Option<
    Seq<char>,
>
    decreases pairs.len(),
{
    if pairs.len() == 0 {
        None
    } else if pairs[0].0 == name {
        Some(pairs[0].1)
    } else {
        lookup(pairs.drop_first(), name)
    }
}

/// The parameters held by a vector of string pairs.
pub open spec fn pair_views(pairs: Seq<(String, String)>) -> Seq<(Seq<char>, Seq<char>)> {
    pairs.map_values(|p: (String, String)| (p.0@, p.1@))
}

/// The characters of `s`.
fn chars_of(s: &str) -> (chars: Vec<char>)
    ensures
        chars@ == s@,
{
    broadcast use vstd::string::group_string_axioms;

    let mut chars: Vec<char> = Vec::new();
    for c in it: s.chars()
        invariant
            it.seq() == s@,
            chars@ == s@.subrange(0, it.index() as int),
    {
        chars.push(c);
    }
    chars
}

/// Finds the first `c` at or after `from`.
fn find(chars: &Vec<char>, c: char, from: usize) -> (at: usize)
    requires
        from <= chars.len(),
    ensures
        at == position(chars@, c, from as int),
        from <= at <= chars.len(),
{
    let mut at = from;
    while at < chars.len() && chars[at] != c
        invariant
            from <= at <= chars.len(),
            position(chars@, c, at as int) == position(chars@, c, from as int),
        decreases chars.len() - at,
    {
        at += 1;
    }
    at
}

/// Splits a request target into its path and its query.
pub fn split_target(target: &str) -> (parts: (String, String))
    ensures
        parts.0@ == path_of(target@),
        parts.1@ == query_of(target@),
{
    let chars = chars_of(target);
    let mark = find(&chars, '?', 0);
    let path = String::from_str(target.substring_char(0, mark));
    let query = if mark < chars.len() {
        String::from_str(target.substring_char(mark + 1, chars.len()))
    } else {
        String::new()
    };
    (path, query)
}

/// Splits one parameter into its name and its value.
fn split_parameter(parameter: &str) -> (pair: (String, String))
    ensures
        (pair.0@, pair.1@) == pair_of(parameter@),
{
    let chars = chars_of(parameter);
    let mark = find(&chars, '=', 0);
    let name = String::from_str(parameter.substring_char(0, mark));
    let value = if mark < chars.len() {
        String::from_str(parameter.substring_char(mark + 1, chars.len()))
    } else {
        String::new()
    };
    (name, value)
}

/// Reads the parameters of a query string.
pub fn parse_query(query: &str) -> (pairs: Vec<(String, String)>)
    ensures
        pair_views(pairs@) == query_pairs(query@),
{
    let chars = chars_of(query);
    let mut pairs: Vec<(String, String)> = Vec::new();
    let mut from: usize = 0;
    while from < chars.len()
        invariant
            chars@ == query@,
            from <= chars.len(),
            pair_views(pairs@) + pairs_from(query@, from as int) == query_pairs(query@),
        decreases chars.len() - from,
    {
        let end = find(&chars, '&', from);
        let next = if end < chars.len() {
            end + 1
        } else {
            end
        };
        let ghost before = pair_views(pairs@);
        if end > from {
            let pair = split_parameter(query.substring_char(from, end));
            pairs.push(pair);
            assert(pair_views(pairs@) =~= before + seq![
                pair_of(query@.subrange(from as int, end as int)),
            ]);
        }
        assert(pair_views(pairs@) + pairs_from(query@, next as int) =~= before + pairs_from(
            query@,
            from as int,
        ));
        from = next;
    }
    pairs
}

/// Looks up the value of the first parameter named `name`.
pub fn find_value(pairs: &Vec<(String, String)>, name: &str) -> (value: Option<String>)
    ensures
        text(value) == lookup(pair_views(pairs@), name@),
{
    let wanted = String::from_str(name);
    let ghost all = pair_views(pairs@);
    let mut i: usize = 0;
    assert(all.subrange(0, all.len() as int) =~= all);
    while i < pairs.len()
        invariant
            i <= pairs.len(),
            all == pair_views(pairs@),
            wanted@ == name@,
            lookup(all.subrange(i as int, all.len() as int), name@) == lookup(all, name@),
        decreases pairs.len() - i,
    {
        let ghost rest = all.subrange(i as int, all.len() as int);
        assert(rest.drop_first() =~= all.subrange(i + 1, all.len() as int));
        if pairs[i].0 == wanted {
            return Some(pairs[i].1.clone());
        }
        i += 1;
    }
    None
}

/// What the redirect carried.
#[derive(Debug, PartialEq, Eq)]
pub struct CallbackRequest {
    pub code: Option<String>,
    pub error: Option<String>,
    pub raw_query: Vec<(String, String)>,
}

/// A [`CallbackRequest`] as a mathematical value.
pub struct CallbackRequestView {
    pub code: Option<Seq<char>>,
    pub error: Option<Seq<char>>,
    pub raw_query: Seq<(Seq<char>, Seq<char>)>,
}

impl View for CallbackRequest {
    type V = CallbackRequestView;

    open spec fn view(&self) -> CallbackRequestView {
        CallbackRequestView {
            code: text(self.code),
            error: text(self.error),
            raw_query: pair_views(self.raw_query@),
        }
    }
}

impl CallbackRequestView {
    /// What a redirect with the query string `query` carries: all its
    /// parameters, and of those named `code` and `error` the first each.
    pub open spec fn of_query(query: Seq<char>) -> CallbackRequestView {
        let pairs = query_pairs(query);
        CallbackRequestView {
            code: lookup(pairs, "code"@),
            error: lookup(pairs, "error"@),
            raw_query: pairs,
        }
    }
}

impl CallbackRequest {
    /// Reads a redirect's query string.
    pub fn from_query(query: &str) -> (request: Self)
        ensures
            request@ == CallbackRequestView::of_query(query@),
    {
        let raw_query = parse_query(query);
        let code = find_value(&raw_query, "code");
        let error = find_value(&raw_query, "error");
        CallbackRequest { code, error, raw_query }
    }
}

/// Where no `c` stands from `from` up to `to`, the search from `from` is the
/// search from `to`.
pub proof fn lemma_position_skips(s: Seq<char>, c: char, from: int, to: int)
    requires
        0 <= from <= to <= s.len(),
        forall|j: int| from <= j < to ==> s[j] != c,
    ensures
        position(s, c, from) == position(s, c, to),
    decreases to - from,
{
    if from < to {
        lemma_position_skips(s, c, from + 1, to);
    }
}

/// A target that is written as a path without `?`, a `?` and a query is
/// split into that path and that query; a path alone has an empty query.
pub proof fn lemma_target_split(path: Seq<char>, query: Seq<char>)
    requires
        !path.contains('?'),
    ensures
        path_of(path + seq!['?'] + query) == path,
        query_of(path + seq!['?'] + query) == query,
        path_of(path) == path,
        query_of(path) == Seq::<char>::empty(),
{
    let target = path + seq!['?'] + query;
    assert forall|j: int| 0 <= j < path.len() implies target[j] != '?' && path[j] != '?' by {}
    lemma_position_skips(target, '?', 0, path.len() as int);
    lemma_position_skips(path, '?', 0, path.len() as int);
}

/// A query that is written as one name without `=` or `&`, a `=` and a value
/// without `&` holds that one parameter.
pub proof fn lemma_single_parameter(name: Seq<char>, value: Seq<char>)
    requires
        !name.contains('='),
        !name.contains('&'),
        !value.contains('&'),
    ensures
        query_pairs(name + seq!['='] + value) == seq![(name, value)],
        forall|wanted: Seq<char>| #[trigger]
            lookup(query_pairs(name + seq!['='] + value), wanted) == if wanted == name {
                Some(value)
            } else {
                None
            },
{
    let query = name + seq!['='] + value;
    assert forall|j: int| 0 <= j < query.len() implies query[j] != '&' by {}
    lemma_position_skips(query, '&', 0, query.len() as int);
    assert(query.subrange(0, query.len() as int) =~= query);
    assert forall|j: int| 0 <= j < name.len() implies query[j] != '=' by {}
    lemma_position_skips(query, '=', 0, name.len() as int);
    assert(pair_of(query) == (name, value));
    let pairs = seq![(name, value)];
    assert forall|wanted: Seq<char>| #[trigger]
        lookup(pairs, wanted) == if wanted == name {
            Some(value)
        } else {
            None
        } by {
        assert(lookup(pairs.drop_first(), wanted) is None);
    }
}

/// A redirect whose query is `code=` and a code without `&` carries that
/// code and no error.
pub proof fn lemma_redirect_with_code(code: Seq<char>)
    requires
        !code.contains('&'),
    ensures
        CallbackRequestView::of_query("code"@ + seq!['='] + code) == (CallbackRequestView {
            code: Some(code),
            error: None,
            raw_query: seq![("code"@, code)],
        }),
{
    reveal_strlit("code");
    reveal_strlit("error");
    let name = "code"@;
    assert(!name.contains('=') && !name.contains('&')) by {
        assert forall|j: int| 0 <= j < name.len() implies name[j] != '=' && name[j] != '&' by {}
    }
    lemma_single_parameter(name, code);
}

/// A redirect whose query is `error=` and a reason without `&` carries that
/// reason as its error, and no code.
pub proof fn lemma_redirect_with_error(reason: Seq<char>)
    requires
        !reason.contains('&'),
    ensures
        CallbackRequestView::of_query("error"@ + seq!['='] + reason) == (CallbackRequestView {
            code: None,
            error: Some(reason),
            raw_query: seq![("error"@, reason)],
        }),
{
    reveal_strlit("code");
    reveal_strlit("error");
    let name = "error"@;
    assert(!name.contains('=') && !name.contains('&')) by {
        assert forall|j: int| 0 <= j < name.len() implies name[j] != '=' && name[j] != '&' by {}
    }
    lemma_single_parameter(name, reason);
}

} // verus!
