//! The registry file format: a flat list of task names persisted as one
//! line of structured text, `tasks = ["a", "b"]` with a trailing newline.
//! Encoding and decoding are verified against one another: decoding an
//! encoded registry yields the registry back, element for element and in
//! order. The shell only moves these strings to and from disk.

use vstd::prelude::*;
use vstd::string::StrSliceExecFns;
use vstd::string::StringExecFns;

verus! {

/// A character that may appear in a task name: an ASCII letter, a digit,
/// `-`, `_` or `/`. This keeps every name usable as a multiplexer session
/// name and a version-control branch name (no whitespace, colons or dots),
/// and keeps the registry file unambiguous (no quotes, commas or line
/// breaks inside a name).
pub open spec fn valid_name_char(c: char) -> bool {
    ||| (97 <= c as u32 && c as u32 <= 122)  // 'a' ..= 'z'
    ||| (65 <= c as u32 && c as u32 <= 90)  // 'A' ..= 'Z'
    ||| (48 <= c as u32 && c as u32 <= 57)  // '0' ..= '9'
    ||| c as u32 == 45  // '-'
    ||| c as u32 == 95  // '_'
    ||| c as u32 == 47  // '/'
}

/// A usable task name: non-empty, made of valid name characters only.
pub open spec fn valid_task_name(s: Seq<char>) -> bool {
    &&& s.len() > 0
    &&& forall|k: int| 0 <= k < s.len() ==> valid_name_char(#[trigger] s[k])
}

/// No name occurs twice.
pub open spec fn unique_names(names: Seq<Seq<char>>) -> bool {
    forall|i: int, j: int| 0 <= i < j < names.len() ==> names[i] != names[j]
}

/// A well-formed registry content: usable names, none of them twice.
pub open spec fn wf_names(names: Seq<Seq<char>>) -> bool {
    &&& forall|i: int| 0 <= i < names.len() ==> valid_task_name(#[trigger] names[i])
    &&& unique_names(names)
}

/// Whether one character may appear in a task name.
pub fn is_valid_name_char(c: char) -> (r: bool)
    ensures
        r == valid_name_char(c),
{
    let u = c as u32;
    (97 <= u && u <= 122) || (65 <= u && u <= 90) || (48 <= u && u <= 57) || u == 45 || u == 95
        || u == 47
}

/// Whether a string is a usable task name.
pub fn is_valid_task_name(name: &str) -> (r: bool)
    ensures
        r == valid_task_name(name@),
{
    let n = name.unicode_len();
    if n == 0 {
        return false;
    }
    let mut i: usize = 0;
    while i < n
        invariant
            i <= n,
            n == name@.len(),
            forall|k: int| 0 <= k < i ==> valid_name_char(#[trigger] name@[k]),
        decreases n - i,
    {
        if !is_valid_name_char(name.get_char(i)) {
            return false;
        }
        i = i + 1;
    }
    true
}

/// A name as it stands in the file: wrapped in double quotes.
pub open spec fn spec_quoted(name: Seq<char>) -> Seq<char> {
    seq!['"'] + name + seq!['"']
}

/// The quoted names, separated by a comma and a space.
pub open spec fn spec_name_list(names: Seq<Seq<char>>) -> Seq<char>
    decreases names.len(),
{
    if names.len() == 0 {
        Seq::empty()
    } else if names.len() == 1 {
        spec_quoted(names[0])
    } else {
        spec_quoted(names[0]) + seq![',', ' '] + spec_name_list(names.drop_first())
    }
}

/// The whole registry file for a list of names.
pub open spec fn spec_encode(names: Seq<Seq<char>>) -> Seq<char> {
    "tasks = ["@ + spec_name_list(names) + "]\n"@
}

/// Appending one name to the list appends a separator (when the list was
/// non-empty) and the quoted name to its text.
proof fn lemma_name_list_snoc(names: Seq<Seq<char>>, x: Seq<char>)
    ensures
        names.len() == 0 ==> spec_name_list(names.push(x)) == spec_quoted(x),
        names.len() > 0 ==> spec_name_list(names.push(x)) == spec_name_list(names) + seq![
            ',',
            ' ',
        ] + spec_quoted(x),
    decreases names.len(),
{
    let p = names.push(x);
    if names.len() == 0 {
        assert(p.len() == 1);
        assert(p[0] == x);
    } else {
        assert(p.len() >= 2);
        assert(p[0] == names[0]);
        assert(p.drop_first() =~= names.drop_first().push(x));
        lemma_name_list_snoc(names.drop_first(), x);
        if names.len() == 1 {
            assert(names.drop_first().len() == 0);
            assert(spec_name_list(p) == spec_quoted(names[0]) + seq![',', ' '] + spec_quoted(x));
            assert(spec_name_list(names) == spec_quoted(names[0]));
        } else {
            assert(spec_name_list(p) == spec_quoted(p[0]) + seq![',', ' '] + spec_name_list(
                p.drop_first(),
            ));
            assert(spec_name_list(names.drop_first().push(x)) == spec_name_list(
                names.drop_first(),
            ) + seq![',', ' '] + spec_quoted(x));
            assert(spec_quoted(names[0]) + seq![',', ' '] + (spec_name_list(names.drop_first())
                + seq![',', ' '] + spec_quoted(x)) =~= (spec_quoted(names[0]) + seq![',', ' ']
                + spec_name_list(names.drop_first())) + seq![',', ' '] + spec_quoted(x));
        }
    }
}

/// Writes the registry file text for a list of names.
pub fn encode_names(names: &Vec<String>) -> (r: String)
    ensures
        r@ == spec_encode(names.deep_view()),
{
    let ghost all = names.deep_view();
    let mut out = String::from_str("tasks = [");
    proof {
        assert(all.take(0) =~= Seq::<Seq<char>>::empty());
        assert(out@ =~= "tasks = ["@ + spec_name_list(all.take(0)));
    }
    let mut i: usize = 0;
    while i < names.len()
        invariant
            i <= names.len(),
            all == names.deep_view(),
            out@ == "tasks = ["@ + spec_name_list(all.take(i as int)),
        decreases names.len() - i,
    {
        if i > 0 {
            out.append(", ");
        }
        out.append("\"");
        out.append(names[i].as_str());
        out.append("\"");
        proof {
            reveal_strlit(", ");
            reveal_strlit("\"");
            assert(all.take(i as int).push(all[i as int]) =~= all.take(i + 1));
            lemma_name_list_snoc(all.take(i as int), all[i as int]);
            assert(names[i as int].deep_view() == all[i as int]);
            assert(out@ =~= "tasks = ["@ + spec_name_list(all.take(i + 1)));
        }
        i = i + 1;
    }
    out.append("]\n");
    proof {
        assert(all.take(names@.len() as int) =~= all);
        assert(out@ =~= spec_encode(all));
    }
    out
}

/// The position of the first closing quote at or after `i`, looking no
/// further than `end`.
pub open spec fn spec_close_quote(s: Seq<char>, i: int, end: int) -> Option<int>
    decreases end - i,
{
    if i >= end {
        None
    } else if s[i] == '"' {
        Some(i)
    } else {
        spec_close_quote(s, i + 1, end)
    }
}

/// A found closing quote lies in the searched range and is a quote.
proof fn lemma_close_quote_bounds(s: Seq<char>, i: int, end: int)
    ensures
        match spec_close_quote(s, i, end) {
            Some(j) => i <= j < end && s[j] == '"',
            None => true,
        },
    decreases end - i,
{
    if i >= end {
    } else if s[i] == '"' {
    } else {
        lemma_close_quote_bounds(s, i + 1, end);
    }
}

/// The search finds exactly the first quote: a position whose predecessors
/// in the range are all non-quotes.
proof fn lemma_close_quote_finds(s: Seq<char>, i: int, m: int, end: int)
    requires
        i <= m < end,
        s[m] == '"',
        forall|k: int| i <= k < m ==> s[k] != '"',
    ensures
        spec_close_quote(s, i, end) == Some(m),
    decreases m - i,
{
    if i == m {
    } else {
        lemma_close_quote_finds(s, i + 1, m, end);
    }
}

/// Parses a non-empty run of quoted names separated by comma-space between
/// positions `i` and `end`: each name must be usable and must not recur.
pub open spec fn spec_parse_items(s: Seq<char>, i: int, end: int) -> Option<Seq<Seq<char>>>
    decreases end - i,
    via spec_parse_items_decreases
{
    if i >= end {
        None
    } else if s[i] != '"' {
        None
    } else {
        match spec_close_quote(s, i + 1, end) {
            None => None,
            Some(j) => {
                let name = s.subrange(i + 1, j);
                if !valid_task_name(name) {
                    None
                } else if j + 1 == end {
                    Some(seq![name])
                } else if j + 3 <= end && s[j + 1] == ',' && s[j + 2] == ' ' {
                    match spec_parse_items(s, j + 3, end) {
                        None => None,
                        Some(rest) => if rest.contains(name) {
                            None
                        } else {
                            Some(seq![name] + rest)
                        },
                    }
                } else {
                    None
                }
            },
        }
    }
}

#[via_fn]
proof fn spec_parse_items_decreases(s: Seq<char>, i: int, end: int) {
    if i < end && s[i] == '"' {
        lemma_close_quote_bounds(s, i + 1, end);
    }
}

/// Parses a whole registry file: the fixed frame around the name list.
pub open spec fn spec_decode(s: Seq<char>) -> Option<Seq<Seq<char>>> {
    let pre = "tasks = ["@;
    let suf = "]\n"@;
    if s.len() < pre.len() + suf.len() {
        None
    } else if s.subrange(0, pre.len() as int) != pre {
        None
    } else if s.subrange(s.len() - suf.len(), s.len() as int) != suf {
        None
    } else if s.len() == pre.len() + suf.len() {
        Some(Seq::empty())
    } else {
        spec_parse_items(s, pre.len() as int, s.len() - suf.len())
    }
}

/// Whatever a successful parse returns is a well-formed registry content.
pub(crate) proof fn lemma_parse_items_wf(s: Seq<char>, i: int, end: int)
    ensures
        match spec_parse_items(s, i, end) {
            Some(names) => wf_names(names) && names.len() > 0,
            None => true,
        },
    decreases end - i,
{
    if i < end && s[i] == '"' {
        lemma_close_quote_bounds(s, i + 1, end);
        match spec_close_quote(s, i + 1, end) {
            None => {},
            Some(j) => {
                let name = s.subrange(i + 1, j);
                if valid_task_name(name) && j + 1 != end && j + 3 <= end && s[j + 1] == ','
                    && s[j + 2] == ' ' {
                    lemma_parse_items_wf(s, j + 3, end);
                    match spec_parse_items(s, j + 3, end) {
                        None => {},
                        Some(rest) => {
                            if !rest.contains(name) {
                                let all = seq![name] + rest;
                                assert forall|a: int, b: int| 0 <= a < b < all.len() implies all[a]
                                    != all[b] by {
                                    if a == 0 {
                                        assert(rest[b - 1] == all[b]);
                                        if all[0] == all[b] {
                                            assert(rest.contains(name));
                                        }
                                    } else {
                                        assert(all[a] == rest[a - 1]);
                                        assert(all[b] == rest[b - 1]);
                                    }
                                }
                                assert(wf_names(all));
                            }
                        },
                    }
                }
            },
        }
    }
}

/// How a quoted name reads, character by character.
proof fn lemma_quoted_index(nm: Seq<char>)
    ensures
        spec_quoted(nm).len() == nm.len() + 2,
        spec_quoted(nm)[0] == '"',
        spec_quoted(nm)[nm.len() as int + 1] == '"',
        forall|k: int| 0 <= k < nm.len() ==> spec_quoted(nm)[k + 1] == nm[k],
{
}

/// Parsing reverses encoding for the name list: on a range that holds the
/// text of a well-formed, non-empty list, the parser returns that list.
proof fn lemma_parse_items_of_list(s: Seq<char>, i: int, end: int, names: Seq<Seq<char>>)
    requires
        0 <= i <= end <= s.len(),
        wf_names(names),
        names.len() > 0,
        s.subrange(i, end) == spec_name_list(names),
    ensures
        spec_parse_items(s, i, end) == Some(names),
    decreases names.len(),
{
    let sub = s.subrange(i, end);
    let nm = names[0];
    let l = nm.len() as int;
    assert(valid_task_name(nm));
    lemma_quoted_index(nm);
    assert forall|c: char| valid_name_char(c) implies c != '"' && c != ',' by {
        assert('"' as u32 == 34);
        assert(',' as u32 == 44);
    }
    if names.len() == 1 {
        assert(sub == spec_quoted(nm));
        assert(end - i == l + 2);
        assert(s[i] == sub[0]);
        assert(s[i] == '"');
        assert(s[i + 1 + l] == sub[l + 1]);
        assert(s[i + 1 + l] == '"');
        assert forall|k: int| i + 1 <= k < i + 1 + l implies s[k] != '"' by {
            assert(s[k] == sub[k - i]);
            assert(sub[k - i] == nm[k - i - 1]);
            assert(valid_name_char(nm[k - i - 1]));
        }
        lemma_close_quote_finds(s, i + 1, i + 1 + l, end);
        assert(s.subrange(i + 1, i + 1 + l) =~= nm);
        assert(spec_parse_items(s, i, end) == Some(seq![nm]));
        assert(seq![nm] =~= names);
    } else {
        let tail = names.drop_first();
        let rest_text = spec_name_list(tail);
        assert(sub == spec_quoted(nm) + seq![',', ' '] + rest_text);
        assert(end - i == l + 4 + rest_text.len());
        assert(s[i] == sub[0]);
        assert(sub[0] == spec_quoted(nm)[0]);
        assert(s[i] == '"');
        assert(s[i + 1 + l] == sub[l + 1]);
        assert(sub[l + 1] == spec_quoted(nm)[l + 1]);
        assert(s[i + 1 + l] == '"');
        assert forall|k: int| i + 1 <= k < i + 1 + l implies s[k] != '"' by {
            assert(s[k] == sub[k - i]);
            assert(sub[k - i] == spec_quoted(nm)[k - i]);
            assert(spec_quoted(nm)[k - i] == nm[k - i - 1]);
            assert(valid_name_char(nm[k - i - 1]));
        }
        lemma_close_quote_finds(s, i + 1, i + 1 + l, end);
        let j = i + 1 + l;
        assert(s.subrange(i + 1, j) =~= nm) by {
            assert forall|k: int| 0 <= k < l implies s.subrange(i + 1, j)[k] == nm[k] by {
                assert(s.subrange(i + 1, j)[k] == s[i + 1 + k]);
                assert(s[i + 1 + k] == sub[k + 1]);
                assert(sub[k + 1] == spec_quoted(nm)[k + 1]);
                assert(spec_quoted(nm)[k + 1] == nm[k]);
            }
        }
        assert(s[j + 1] == sub[l + 2]);
        assert(sub[l + 2] == ',');
        assert(s[j + 2] == sub[l + 3]);
        assert(sub[l + 3] == ' ');
        assert(j + 1 != end);
        assert(j + 3 <= end);
        assert(s.subrange(j + 3, end) =~= rest_text) by {
            assert forall|k: int| 0 <= k < end - (j + 3) implies s.subrange(j + 3, end)[k]
                == rest_text[k] by {
                assert(s.subrange(j + 3, end)[k] == s[j + 3 + k]);
                assert(s[j + 3 + k] == sub[l + 4 + k]);
                assert(sub[l + 4 + k] == rest_text[k]);
            }
        }
        assert forall|a: int| 0 <= a < tail.len() implies valid_task_name(#[trigger] tail[a]) by {
            assert(tail[a] == names[a + 1]);
        }
        assert forall|a: int, b: int| 0 <= a < b < tail.len() implies tail[a] != tail[b] by {
            assert(tail[a] == names[a + 1]);
            assert(tail[b] == names[b + 1]);
        }
        lemma_parse_items_of_list(s, j + 3, end, tail);
        assert(!tail.contains(nm)) by {
            if tail.contains(nm) {
                let t = choose|t: int| 0 <= t < tail.len() && tail[t] == nm;
                assert(names[t + 1] == nm);
                assert(names[0] != names[t + 1]);
            }
        }
        assert(spec_parse_items(s, i, end) == Some(seq![nm] + tail));
        assert(seq![nm] + tail =~= names);
    }
}

/// Round trip: decoding an encoded well-formed registry yields the same
/// names, element for element and in order.
pub proof fn lemma_decode_encode(names: Seq<Seq<char>>)
    requires
        wf_names(names),
    ensures
        spec_decode(spec_encode(names)) == Some(names),
{
    reveal_strlit("tasks = [");
    reveal_strlit("]\n");
    let pre = "tasks = ["@;
    let suf = "]\n"@;
    let body = spec_name_list(names);
    let s = spec_encode(names);
    assert(pre.len() == 9);
    assert(suf.len() == 2);
    assert(s.len() == 11 + body.len());
    assert(s.subrange(0, 9) =~= pre);
    assert(s.subrange(s.len() - 2, s.len() as int) =~= suf);
    if names.len() == 0 {
        assert(body =~= Seq::<char>::empty());
        assert(s.len() == 11);
        assert(spec_decode(s) == Some(Seq::<Seq<char>>::empty()));
        assert(Seq::<Seq<char>>::empty() =~= names);
    } else {
        lemma_quoted_index(names[0]);
        assert(valid_task_name(names[0]));
        assert(body.len() >= 3);
        assert(s.len() > 11);
        assert(s.subrange(9, s.len() - 2) =~= body);
        lemma_parse_items_of_list(s, 9, s.len() - 2, names);
    }
}

/// Whether two strings read the same.
fn str_eq(a: &str, b: &str) -> (r: bool)
    ensures
        r == (a@ == b@),
{
    let sa = String::from_str(a);
    let sb = String::from_str(b);
    sa == sb
}

/// Whether the list already holds this name.
pub(crate) fn contains_name(v: &Vec<String>, name: &String) -> (r: bool)
    ensures
        r == v.deep_view().contains(name@),
{
    let n = v.len();
    let mut k: usize = 0;
    while k < n
        invariant
            k <= n,
            n == v.len(),
            forall|t: int| 0 <= t < k ==> v.deep_view()[t] != name@,
        decreases n - k,
    {
        if v[k] == *name {
            proof {
                assert(v.deep_view()[k as int] == name@);
            }
            return true;
        }
        k = k + 1;
    }
    proof {
        if v.deep_view().contains(name@) {
            let t = choose|t: int| 0 <= t < v.deep_view().len() && v.deep_view()[t] == name@;
            assert(false);
        }
    }
    false
}

/// Finds the first closing quote at or after `i`, looking no further than
/// `end`.
fn close_quote(s: &str, i: usize, end: usize) -> (r: Option<usize>)
    requires
        i <= end,
        end <= s@.len(),
    ensures
        match r {
            Some(j) => spec_close_quote(s@, i as int, end as int) == Some(j as int) && i <= j
                < end,
            None => spec_close_quote(s@, i as int, end as int) is None,
        },
    decreases end - i,
{
    if i >= end {
        None
    } else if s.get_char(i) == '"' {
        Some(i)
    } else {
        close_quote(s, i + 1, end)
    }
}

/// Parses the run of quoted names between `i` and `end`, exactly as the
/// specification parser reads it.
fn parse_items(s: &str, i: usize, end: usize) -> (r: Option<Vec<String>>)
    requires
        i <= end,
        end <= s@.len(),
    ensures
        match r {
            Some(v) => spec_parse_items(s@, i as int, end as int) == Some(v.deep_view()),
            None => spec_parse_items(s@, i as int, end as int) is None,
        },
    decreases end - i,
{
    if i >= end {
        return None;
    }
    if s.get_char(i) != '"' {
        return None;
    }
    match close_quote(s, i + 1, end) {
        None => None,
        Some(j) => {
            let name_str = s.substring_char(i + 1, j);
            if !is_valid_task_name(name_str) {
                return None;
            }
            let name = String::from_str(name_str);
            if j + 1 == end {
                let mut v: Vec<String> = Vec::new();
                v.push(name);
                proof {
                    assert(v.deep_view() =~= seq![s@.subrange(i + 1, j as int)]);
                }
                Some(v)
            } else if end - j >= 3 && s.get_char(j + 1) == ',' && s.get_char(j + 2) == ' ' {
                match parse_items(s, j + 3, end) {
                    None => None,
                    Some(mut rest) => {
                        if contains_name(&rest, &name) {
                            None
                        } else {
                            let ghost old_rest = rest.deep_view();
                            rest.insert(0, name);
                            proof {
                                assert(rest.deep_view() =~= seq![
                                    s@.subrange(i + 1, j as int),
                                ] + old_rest);
                            }
                            Some(rest)
                        }
                    },
                }
            } else {
                None
            }
        },
    }
}

/// Reads a registry file back into its list of names, exactly as the
/// specification parser reads it; malformed text is refused.
pub fn decode_names(s: &str) -> (r: Option<Vec<String>>)
    ensures
        match r {
            Some(v) => spec_decode(s@) == Some(v.deep_view()),
            None => spec_decode(s@) is None,
        },
{
    proof {
        reveal_strlit("tasks = [");
        reveal_strlit("]\n");
    }
    let n = s.unicode_len();
    if n < 11 {
        return None;
    }
    let pre = s.substring_char(0, 9);
    if !str_eq(pre, "tasks = [") {
        return None;
    }
    let suf = s.substring_char(n - 2, n);
    if !str_eq(suf, "]\n") {
        return None;
    }
    if n == 11 {
        let v: Vec<String> = Vec::new();
        proof {
            assert(v.deep_view() =~= Seq::<Seq<char>>::empty());
        }
        return Some(v);
    }
    parse_items(s, 9, n - 2)
}

} // verus!
