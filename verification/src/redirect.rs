use vstd::prelude::*;
use vstd::string::{StrSliceExecFns, StringExecFns};
use crate::models::text_of;

verus! {

/// The first position from `from` on at which `s` holds `c`, or the length
/// of `s` where it holds none.
pub open spec fn find_char(s: Seq<char>, c: char, from: int) -> int
    decreases s.len() - from,
{
    if from < 0 || from >= s.len() {
        s.len() as int
    } else if s[from] == c {
        from
    } else {
        find_char(s, c, from + 1)
    }
}

/// The name of a `name=value` pair: what stands before the first `=`, or the
/// whole pair where it holds none.
pub open spec fn pair_name(pair: Seq<char>) -> Seq<char> {
    pair.subrange(0, find_char(pair, '=', 0))
}

/// The value of a `name=value` pair: what stands after the first `=`, or
/// nothing where it holds none.
pub open spec fn pair_value(pair: Seq<char>) -> Seq<char> {
    let eq = find_char(pair, '=', 0);
    if eq < pair.len() {
        pair.subrange(eq + 1, pair.len() as int)
    } else {
        Seq::empty()
    }
}

/// The value that a query string gives to `name`, read from position `from`
/// on: pairs are parted by `&`, and the first pair with that name counts.
/// Names and values are taken as they stand, without decoding.
pub open spec fn query_value_from(query: Seq<char>, name: Seq<char>, from: int) -> Option<
    Seq<char>,
>
    decreases query.len() - from,
    via query_value_from_terminates
{
    if from < 0 || from > query.len() {
        None
    } else {
        let end = find_char(query, '&', from);
        let pair = query.subrange(from, end);
        if pair_name(pair) == name {
            Some(pair_value(pair))
        } else if end >= query.len() {
            None
        } else {
            query_value_from(query, name, end + 1)
        }
    }
}

#[via_fn]
proof fn query_value_from_terminates(query: Seq<char>, name: Seq<char>, from: int) {
    if 0 <= from <= query.len() {
        lemma_find_char_bounds(query, '&', from);
    }
}

/// The value that a query string gives to `name`.
pub open spec fn query_value_spec(query: Seq<char>, name: Seq<char>) -> Option<Seq<char>> {
    query_value_from(query, name, 0)
}

/// `find_char` stays within the string and behind its start.
pub proof fn lemma_find_char_bounds(s: Seq<char>, c: char, from: int)
    requires
        0 <= from <= s.len(),
    ensures
        from <= find_char(s, c, from) <= s.len(),
        find_char(s, c, from) < s.len() ==> s[find_char(s, c, from)] == c,
    decreases s.len() - from,
{
    if from < s.len() && s[from] != c {
        lemma_find_char_bounds(s, c, from + 1);
    }
}

fn find_char_in(s: &str, len: usize, c: char, from: usize) -> (at: usize)
    requires
        len == s@.len(),
        from <= len,
    ensures
        at as int == find_char(s@, c, from as int),
        from <= at <= len,
{
    let mut i: usize = from;
    while i < len && s.get_char(i) != c
        invariant
            from <= i <= len,
            len == s@.len(),
            find_char(s@, c, i as int) == find_char(s@, c, from as int),
        decreases len - i,
    {
        i += 1;
    }
    i
}

/// Reads the value of `name` out of a query string.
pub fn query_value(query: &str, name: &str) -> (r: Option<String>)
    ensures
        text_of(r) == query_value_spec(query@, name@),
{
    let n = query.unicode_len();
    let wanted = String::from_str(name);
    let mut from: usize = 0;
    loop
        invariant
            from <= n,
            n == query@.len(),
            wanted@ == name@,
            query_value_from(query@, name@, from as int) == query_value_spec(query@, name@),
        decreases n - from,
    {
        let end = find_char_in(query, n, '&', from);
        let pair = query.substring_char(from, end);
        let m = end - from;
        let eq = find_char_in(pair, m, '=', 0);
        let found = String::from_str(pair.substring_char(0, eq));
        if found == wanted {
            let value = if eq < m {
                pair.substring_char(eq + 1, m)
            } else {
                pair.substring_char(m, m)
            };
            proof {
                assert(pair@.subrange(m as int, m as int) =~= Seq::<char>::empty());
            }
            return Some(String::from_str(value));
        }
        if end >= n {
            return None;
        }
        from = end + 1;
    }
}

/// The parameters that a redirect request may bring.
#[derive(Clone, Debug, PartialEq, Eq)]
pub struct RedirectParams {
    pub code: Option<String>,
    pub state: Option<String>,
    pub error: Option<String>,
}

/// Reads `code`, `state` and `error` out of the query string of a redirect
/// request.
pub fn parse_redirect(query: &str) -> (p: RedirectParams)
    ensures
        text_of(p.code) == query_value_spec(query@, "code"@),
        text_of(p.state) == query_value_spec(query@, "state"@),
        text_of(p.error) == query_value_spec(query@, "error"@),
{
    RedirectParams {
        code: query_value(query, "code"),
        state: query_value(query, "state"),
        error: query_value(query, "error"),
    }
}

} // verus!
