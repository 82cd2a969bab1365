//! The license policy check of the build tasks: reading the allowed
//! licenses from `deny.toml` and splitting license expressions into atoms.
use vstd::prelude::*;
use vstd::string::*;
use crate::order::{insert_sorted, lemma_insert_at, stable_sort};
use crate::runtime::{set_insert, set_insert_exec};
use crate::strs::{
    chars_find_from, chars_sub, char_is_ws, find, find_from, from_chars, is_ws, lemma_find_sound, occurs_at, owned, str_eq, to_chars, views,
};

verus! {

/// Characters that separate the atoms of a license expression.
pub open spec fn boundary_char(c: char) -> bool {
    is_ws(c) || c == '(' || c == ')' || c == '/'
}

/// Whether a character separates license atoms.
pub fn is_boundary_char(character: char) -> (b: bool)
    ensures
        b == boundary_char(character),
{
    char_is_ws(character) || character == '(' || character == ')' || character == '/'
}

/// A position of `s` where an atom may start or end: either end of the
/// text, or next to a separator.
pub open spec fn license_boundary(s: Seq<char>, index: int) -> bool {
    index <= 0 || index >= s.len() || boundary_char(s[index - 1]) || boundary_char(s[index])
}

/// Whether an atom may start or end at the character position `index`.
pub fn is_license_boundary(input: &[char], index: usize) -> (b: bool)
    ensures
        b == license_boundary(input@, index as int),
{
    if index == 0 || index >= input.len() {
        return true;
    }
    is_boundary_char(input[index - 1]) || is_boundary_char(input[index])
}

/// Scanning for quoted strings: the set found so far, the text of the open
/// quote, and whether a quote is open.
pub open spec fn quote_scan(s: Seq<char>) -> (Seq<Seq<char>>, Seq<char>, bool)
    decreases s.len(),
{
    if s.len() == 0 {
        (Seq::empty(), Seq::empty(), false)
    } else {
        let (set, cur, open) = quote_scan(s.drop_last());
        let c = s.last();
        if c == '"' {
            if open {
                (set_insert(set, cur), Seq::empty(), false)
            } else {
                (set, cur, true)
            }
        } else if open {
            (set, cur.push(c), true)
        } else {
            (set, cur, false)
        }
    }
}

/// The number of double quotes in `s`.
pub open spec fn quote_count(s: Seq<char>) -> nat
    decreases s.len(),
{
    if s.len() == 0 {
        0
    } else {
        quote_count(s.drop_last()) + if s.last() == '"' {
            1nat
        } else {
            0nat
        }
    }
}

/// The position of the last double quote in `s`, or -1.
pub open spec fn last_quote(s: Seq<char>) -> int
    decreases s.len(),
{
    if s.len() == 0 {
        -1
    } else if s.last() == '"' {
        s.len() - 1
    } else {
        last_quote(s.drop_last())
    }
}

/// Quotes pair up in order, the first with the second, the third with the
/// fourth and so on: `s[a]` opens a pair (an even number of quotes comes
/// before it) and `s[b]` is the next quote, which closes it.
pub open spec fn quote_pair(s: Seq<char>, a: int, b: int) -> bool {
    &&& 0 <= a < b < s.len()
    &&& s[a] == '"'
    &&& s[b] == '"'
    &&& quote_count(s.take(a)) % 2 == 0
    &&& forall|k: int| a < k < b ==> s[k] != '"'
}

proof fn lemma_last_quote(s: Seq<char>)
    ensures
        -1 <= last_quote(s) < s.len(),
        last_quote(s) >= 0 ==> s[last_quote(s)] == '"',
        forall|k: int| last_quote(s) < k < s.len() ==> s[k] != '"',
        last_quote(s) >= 0 ==> quote_count(s) == quote_count(s.take(last_quote(s))) + 1,
        last_quote(s) < 0 ==> quote_count(s) == 0,
    decreases s.len(),
{
    if s.len() > 0 {
        let p = s.drop_last();
        lemma_last_quote(p);
        if s.last() == '"' {
            assert(s.take(s.len() - 1) =~= p);
        } else {
            if last_quote(p) >= 0 {
                assert(s.take(last_quote(p)) =~= p.take(last_quote(p)));
            }
            assert forall|k: int| last_quote(s) < k < s.len() implies s[k] != '"' by {
                if k < s.len() - 1 {
                    assert(s[k] == p[k]);
                }
            }
        }
    }
}

/// Adding a text to an ordered set keeps what was there and adds the text.
pub proof fn lemma_set_insert_contains(t: Seq<Seq<char>>, x: Seq<char>)
    ensures
        forall|y: Seq<char>| #[trigger] set_insert(t, x).contains(y) <==> (t.contains(y) || y == x),
    decreases t.len(),
{
    if t.len() == 0 {
        assert(seq![x][0] == x);
    } else if t[0] == x {
    } else if crate::order::text_lt(x, t[0]) {
        assert forall|y: Seq<char>| #[trigger] set_insert(t, x).contains(y) <==> (t.contains(y) || y == x) by {
            let r = seq![x] + t;
            if t.contains(y) {
                let k = choose|k: int| 0 <= k < t.len() && t[k] == y;
                assert(r[k + 1] == y);
            }
            if r.contains(y) {
                let k = choose|k: int| 0 <= k < r.len() && r[k] == y;
                if k > 0 {
                    assert(t[k - 1] == y);
                }
            }
            assert(r[0] == x);
        }
    } else {
        lemma_set_insert_contains(t.skip(1), x);
        assert forall|y: Seq<char>| #[trigger] set_insert(t, x).contains(y) <==> (t.contains(y) || y == x) by {
            let rest = set_insert(t.skip(1), x);
            let r = seq![t[0]] + rest;
            assert(r[0] == t[0]);
            if t.contains(y) {
                let k = choose|k: int| 0 <= k < t.len() && t[k] == y;
                if k > 0 {
                    assert(t.skip(1)[k - 1] == y);
                    assert(t.skip(1).contains(y));
                    assert(rest.contains(y));
                    let j = choose|j: int| 0 <= j < rest.len() && rest[j] == y;
                    assert(r[j + 1] == y);
                }
            }
            if y == x {
                assert(rest.contains(y));
                let j = choose|j: int| 0 <= j < rest.len() && rest[j] == y;
                assert(r[j + 1] == y);
            }
            if r.contains(y) {
                let k = choose|k: int| 0 <= k < r.len() && r[k] == y;
                if k > 0 {
                    assert(rest[k - 1] == y);
                    assert(rest.contains(y));
                    if t.skip(1).contains(y) {
                        let j = choose|j: int| 0 <= j < t.skip(1).len() && t.skip(1)[j] == y;
                        assert(t[j + 1] == y);
                    }
                }
            }
        }
    }
}

/// The quote pairs of `s` without its last character are pairs of `s`,
/// with the same text; pairs of `s` that close earlier are pairs of it.
proof fn lemma_prefix_pairs(s: Seq<char>)
    requires
        s.len() > 0,
    ensures
        forall|a: int, b: int|
            #[trigger] quote_pair(s.drop_last(), a, b) ==> quote_pair(s, a, b) && s.subrange(a + 1, b)
                == s.drop_last().subrange(a + 1, b),
        forall|a: int, b: int|
            #[trigger] quote_pair(s, a, b) && b < s.len() - 1 ==> quote_pair(s.drop_last(), a, b)
                && s.subrange(a + 1, b) == s.drop_last().subrange(a + 1, b),
{
    let p = s.drop_last();
    assert forall|a: int, b: int| #[trigger] quote_pair(p, a, b) implies quote_pair(s, a, b) && s.subrange(a + 1, b)
        == p.subrange(a + 1, b) by {
        assert(s.take(a) =~= p.take(a));
        assert(s.subrange(a + 1, b) =~= p.subrange(a + 1, b));
        assert forall|k: int| a < k < b implies s[k] != '"' by {
            assert(s[k] == p[k]);
        }
    }
    assert forall|a: int, b: int| #[trigger] quote_pair(s, a, b) && b < s.len() - 1 implies quote_pair(p, a, b)
        && s.subrange(a + 1, b) == p.subrange(a + 1, b) by {
        assert(s.take(a) =~= p.take(a));
        assert(s.subrange(a + 1, b) =~= p.subrange(a + 1, b));
        assert forall|k: int| a < k < b implies p[k] != '"' by {
            assert(s[k] == p[k]);
        }
    }
}

/// What the scan knows: whether a quote is open (an odd number of quotes
/// so far), the text since the opening quote, and that the texts found are
/// exactly those of the quote pairs so far.
#[verifier::rlimit(40)]
#[verifier::spinoff_prover]
proof fn lemma_quote_scan(s: Seq<char>)
    ensures
        quote_scan(s).2 == (quote_count(s) % 2 == 1),
        !quote_scan(s).2 ==> quote_scan(s).1 == Seq::<char>::empty(),
        quote_scan(s).2 ==> {
            let a = last_quote(s);
            &&& 0 <= a < s.len()
            &&& s[a] == '"'
            &&& quote_count(s.take(a)) % 2 == 0
            &&& forall|k: int| a < k < s.len() ==> s[k] != '"'
            &&& quote_scan(s).1 == s.subrange(a + 1, s.len() as int)
        },
        forall|x: Seq<char>|
            #[trigger] quote_scan(s).0.contains(x) ==> exists|a: int, b: int|
                #[trigger] quote_pair(s, a, b) && x == s.subrange(a + 1, b),
        forall|a: int, b: int| #[trigger] quote_pair(s, a, b) ==> quote_scan(s).0.contains(s.subrange(a + 1, b)),
    decreases s.len(),
{
    if s.len() == 0 {
        return;
    }
    let p = s.drop_last();
    let c = s.last();
    let n = s.len() - 1;
    lemma_quote_scan(p);
    lemma_last_quote(p);
    lemma_last_quote(s);
    let (set, cur, open) = quote_scan(p);
    assert(s.take(n) =~= p);
    lemma_prefix_pairs(s);
    let new_set = quote_scan(s).0;
    if c == '"' && open {
        let a = last_quote(p);
        let text = cur;
        assert(new_set == set_insert(set, cur));
        lemma_set_insert_contains(set, cur);
        assert(quote_pair(s, a, n)) by {
            assert(s.take(a) =~= p.take(a));
            assert forall|k: int| a < k < n implies s[k] != '"' by {
                assert(s[k] == p[k]);
            }
        }
        assert(cur =~= s.subrange(a + 1, n));
        assert forall|x: Seq<char>| #[trigger] new_set.contains(x) implies exists|a2: int, b2: int|
            #[trigger] quote_pair(s, a2, b2) && x == s.subrange(a2 + 1, b2) by {
            if x == cur {
                assert(quote_pair(s, a, n) && x == s.subrange(a + 1, n));
            } else {
                assert(set.contains(x));
                let (a2, b2) = choose|a2: int, b2: int| #[trigger] quote_pair(p, a2, b2) && x == p.subrange(a2 + 1, b2);
                assert(quote_pair(s, a2, b2));
                assert(s.subrange(a2 + 1, b2) =~= p.subrange(a2 + 1, b2));
            }
        }
        assert forall|a2: int, b2: int| #[trigger] quote_pair(s, a2, b2) implies new_set.contains(
            s.subrange(a2 + 1, b2),
        ) by {
            if b2 < n {
                assert(quote_pair(p, a2, b2));
                assert(s.subrange(a2 + 1, b2) =~= p.subrange(a2 + 1, b2));
            } else {
                if a2 != a {
                    if a2 < a {
                        assert(p[a] == '"');
                    } else {
                        assert(p[a2] == '"');
                    }
                }
            }
        }
    } else if c == '"' {
        assert(new_set == set);
        assert forall|x: Seq<char>| #[trigger] new_set.contains(x) implies exists|a2: int, b2: int|
            #[trigger] quote_pair(s, a2, b2) && x == s.subrange(a2 + 1, b2) by {
            let (a2, b2) = choose|a2: int, b2: int| #[trigger] quote_pair(p, a2, b2) && x == p.subrange(a2 + 1, b2);
            assert(quote_pair(s, a2, b2));
            assert(s.subrange(a2 + 1, b2) =~= p.subrange(a2 + 1, b2));
        }
        assert forall|a2: int, b2: int| #[trigger] quote_pair(s, a2, b2) implies new_set.contains(
            s.subrange(a2 + 1, b2),
        ) by {
            if b2 < n {
                assert(quote_pair(p, a2, b2));
                assert(s.subrange(a2 + 1, b2) =~= p.subrange(a2 + 1, b2));
            } else {
                let a = last_quote(p);
                if a2 != a {
                    if a2 < a {
                        assert(p[a] == '"');
                    } else {
                        assert(p[a2] == '"');
                    }
                }
                assert(a2 == a);
                assert(s.take(a2) =~= p.take(a2));
            }
        }
        assert(s.subrange(n + 1, s.len() as int) =~= Seq::<char>::empty());
        assert(quote_scan(s).2);
        assert(last_quote(s) == n);
        assert(quote_count(s.take(n)) % 2 == 0);
        assert(quote_scan(s).1 == s.subrange(n + 1, s.len() as int));
    } else {
        assert(new_set == set);
        assert forall|x: Seq<char>| #[trigger] new_set.contains(x) implies exists|a2: int, b2: int|
            #[trigger] quote_pair(s, a2, b2) && x == s.subrange(a2 + 1, b2) by {
            let (a2, b2) = choose|a2: int, b2: int| #[trigger] quote_pair(p, a2, b2) && x == p.subrange(a2 + 1, b2);
            assert(quote_pair(s, a2, b2));
            assert(s.subrange(a2 + 1, b2) =~= p.subrange(a2 + 1, b2));
        }
        assert forall|a2: int, b2: int| #[trigger] quote_pair(s, a2, b2) implies new_set.contains(
            s.subrange(a2 + 1, b2),
        ) by {
            assert(b2 < n);
            assert(quote_pair(p, a2, b2));
            assert(s.subrange(a2 + 1, b2) =~= p.subrange(a2 + 1, b2));
        }
        if open {
            let a = last_quote(p);
            assert(s.take(a) =~= p.take(a));
            assert(cur.push(c) =~= s.subrange(a + 1, s.len() as int));
            assert(last_quote(s) == a);
            assert(s[a] == p[a]);
            assert(quote_count(s.take(a)) % 2 == 0);
            assert(quote_scan(s).1 == s.subrange(a + 1, s.len() as int));
        }
    }
}

/// The texts read from a list are exactly the texts between quote pairs:
/// each lies strictly between an opening quote and the quote that closes
/// it (quotes pair up in order), and the text between a closing quote and
/// the next opening one is never taken.
pub proof fn law_quoted_strings_are_quote_pairs(s: Seq<char>)
    ensures
        forall|x: Seq<char>|
            #[trigger] quote_scan(s).0.contains(x) ==> exists|a: int, b: int|
                #[trigger] quote_pair(s, a, b) && x == s.subrange(a + 1, b),
        forall|a: int, b: int| #[trigger] quote_pair(s, a, b) ==> quote_scan(s).0.contains(s.subrange(a + 1, b)),
{
    lemma_quote_scan(s);
}

/// The texts between pairs of double quotes, as an ordered set.
pub fn quoted_strings(input: &str) -> (r: Vec<String>)
    ensures
        views(r@) == quote_scan(input@).0,
{
    let c = to_chars(input);
    let mut output: Vec<String> = Vec::new();
    let mut current: Vec<char> = Vec::new();
    let mut in_quote = false;
    let mut i: usize = 0;
    proof {
        assert(views(output@) =~= Seq::<Seq<char>>::empty());
    }
    while i < c.len()
        invariant
            i <= c.len(),
            c@ == input@,
            quote_scan(c@.take(i as int)) == (views(output@), current@, in_quote),
        decreases c.len() - i,
    {
        proof {
            assert(c@.take(i + 1).drop_last() =~= c@.take(i as int));
            assert(c@.take(i + 1).last() == c@[i as int]);
        }
        let ch = c[i];
        if ch == '"' {
            if in_quote {
                let text = from_chars(&current);
                set_insert_exec(&mut output, text.as_str());
                current = Vec::new();
                proof {
                    assert(current@ =~= Seq::<char>::empty());
                }
            }
            in_quote = !in_quote;
        } else if in_quote {
            current.push(ch);
        }
        i += 1;
    }
    proof {
        assert(c@.take(c.len() as int) =~= c@);
    }
    output
}

/// Where the allow list of `deny.toml` is, or why it cannot be read: the
/// `[licenses]` section (up to the next line that opens a section), its
/// `allow` key, and the brackets after it.
pub open spec fn allow_list_text(config: Seq<char>) -> Result<Seq<char>, Seq<char>> {
    match find(config, "[licenses]"@) {
        None => Err("deny.toml is missing [licenses]"@),
        Some(m) => {
            let rest = config.skip(m + 10);
            let section = match find(rest, "\n["@) {
                Some(e) => rest.take(e),
                None => rest,
            };
            match find(section, "allow"@) {
                None => Err("deny.toml [licenses] is missing allow list"@),
                Some(a) => match find(section.skip(a), "["@) {
                    None => Err("deny.toml [licenses].allow is missing opening bracket"@),
                    Some(o) => {
                        let list_rest = section.skip(a + o + 1);
                        match find(list_rest, "]"@) {
                            None => Err("deny.toml [licenses].allow is missing closing bracket"@),
                            Some(close) => Ok(list_rest.take(close)),
                        }
                    },
                },
            }
        },
    }
}

/// The allowed licenses of `deny.toml`, as an ordered set; an error when
/// the list cannot be found or is empty.
pub open spec fn allowed_licenses_of(config: Seq<char>) -> Result<Seq<Seq<char>>, Seq<char>> {
    match allow_list_text(config) {
        Err(e) => Err(e),
        Ok(list) => {
            let allowed = quote_scan(list).0;
            if allowed.len() == 0 {
                Err("deny.toml [licenses].allow is empty"@)
            } else {
                Ok(allowed)
            }
        },
    }
}

fn find_in(s: &Vec<char>, t: &str) -> (r: Option<usize>)
    ensures
        match r {
            Some(i) => find(s@, t@) == Some(i as int) && occurs_at(s@, t@, i as int),
            None => find(s@, t@) is None,
        },
{
    let tc = to_chars(t);
    let r = chars_find_from(s, &tc, 0);
    proof {
        lemma_find_sound(s@, t@, 0);
    }
    r
}

/// Reads the allowed licenses from the text of `deny.toml`.
pub fn extract_allowed_licenses(config: &str) -> (r: Result<Vec<String>, String>)
    ensures
        match r {
            Ok(v) => allowed_licenses_of(config@) == Ok::<Seq<Seq<char>>, Seq<char>>(views(v@)),
            Err(e) => allowed_licenses_of(config@) == Err::<Seq<Seq<char>>, Seq<char>>(e@),
        },
{
    let c = to_chars(config);
    proof {
        reveal_strlit("[licenses]");
    }
    let m = match find_in(&c, "[licenses]") {
        None => {
            return Err(owned("deny.toml is missing [licenses]"));
        },
        Some(m) => m,
    };
    let clen = c.len();
    assert(m + 10 <= clen);
    let rest = chars_sub(&c, m + 10, clen);
    proof {
        assert(rest@ =~= config@.skip(m + 10));
    }
    let section = match find_in(&rest, "\n[") {
        Some(e) => chars_sub(&rest, 0, e),
        None => rest,
    };
    let a = match find_in(&section, "allow") {
        None => {
            return Err(owned("deny.toml [licenses] is missing allow list"));
        },
        Some(a) => a,
    };
    proof {
        reveal_strlit("allow");
    }
    let after = chars_sub(&section, a, section.len());
    let o = match find_in(&after, "[") {
        None => {
            return Err(owned("deny.toml [licenses].allow is missing opening bracket"));
        },
        Some(o) => o,
    };
    proof {
        reveal_strlit("[");
        assert(o < after@.len());
    }
    let list_rest = chars_sub(&section, a + o + 1, section.len());
    proof {
        assert(list_rest@ =~= section@.skip(a + o + 1));
    }
    let close = match find_in(&list_rest, "]") {
        None => {
            return Err(owned("deny.toml [licenses].allow is missing closing bracket"));
        },
        Some(close) => close,
    };
    let list = from_chars(&chars_sub(&list_rest, 0, close));
    let allowed = quoted_strings(list.as_str());
    if allowed.len() == 0 {
        Err(owned("deny.toml [licenses].allow is empty"))
    } else {
        Ok(allowed)
    }
}

/// `s` with the positions `start..end` replaced by spaces.
pub open spec fn blank_out(s: Seq<char>, start: int, end: int) -> Seq<char> {
    Seq::new(s.len(), |i: int| if start <= i < end { ' ' } else { s[i] })
}

/// Finds each occurrence of `lic` from `from` on that stands between
/// boundaries, blanks it out, and says whether there was one.
pub open spec fn mask_license(s: Seq<char>, lic: Seq<char>, from: int) -> (Seq<char>, bool)
    decreases s.len() + 1 - from,
{
    if lic.len() == 0 || from < 0 {
        (s, false)
    } else {
        match find_from(s, lic, from) {
            None => (s, false),
            Some(start) => {
                let end = start + lic.len();
                if start >= from && end <= s.len() && license_boundary(s, start) && license_boundary(
                    s,
                    end,
                ) {
                    let next = mask_license(blank_out(s, start, end), lic, end);
                    (next.0, true)
                } else if start >= from && start <= s.len() {
                    mask_license(s, lic, start + 1)
                } else {
                    (s, false)
                }
            },
        }
    }
}

/// Longer licenses are matched first.
pub open spec fn longer_first() -> spec_fn(Seq<char>, Seq<char>) -> bool {
    |a: Seq<char>, b: Seq<char>| a.len() > b.len()
}

/// Masks each allowed license in turn, adding those found to the atoms.
pub open spec fn mask_all(s: Seq<char>, atoms: Seq<Seq<char>>, order: Seq<Seq<char>>) -> (
    Seq<char>,
    Seq<Seq<char>>,
)
    decreases order.len(),
{
    if order.len() == 0 {
        (s, atoms)
    } else {
        let prev = mask_all(s, atoms, order.drop_last());
        let m = mask_license(prev.0, order.last(), 0);
        (m.0, if m.1 {
            set_insert(prev.1, order.last())
        } else {
            prev.1
        })
    }
}

/// The pieces of `s` between separators, as (finished pieces, open piece).
pub open spec fn split_tokens(s: Seq<char>) -> (Seq<Seq<char>>, Seq<char>)
    decreases s.len(),
{
    if s.len() == 0 {
        (Seq::empty(), Seq::empty())
    } else {
        let (done, cur) = split_tokens(s.drop_last());
        if boundary_char(s.last()) {
            (done.push(cur), Seq::empty())
        } else {
            (done, cur.push(s.last()))
        }
    }
}

/// The pieces of `s` between separators.
pub open spec fn tokens(s: Seq<char>) -> Seq<Seq<char>> {
    split_tokens(s).0.push(split_tokens(s).1)
}

/// A piece that is an atom: not empty and not an operator.
pub open spec fn atom_token(t: Seq<char>) -> bool {
    t.len() > 0 && t != "AND"@ && t != "OR"@ && t != "WITH"@
}

/// The atom pieces added to the set in turn.
pub open spec fn add_tokens(atoms: Seq<Seq<char>>, ts: Seq<Seq<char>>) -> Seq<Seq<char>>
    decreases ts.len(),
{
    if ts.len() == 0 {
        atoms
    } else {
        let prev = add_tokens(atoms, ts.drop_last());
        if atom_token(ts.last()) {
            set_insert(prev, ts.last())
        } else {
            prev
        }
    }
}

/// The atoms of a license expression, as an ordered set: the allowed
/// licenses found in it (longest first, each only between separators),
/// then every other piece between separators except the operators.
pub open spec fn license_atoms_of(expression: Seq<char>, allowed: Seq<Seq<char>>) -> Seq<Seq<char>> {
    let order = stable_sort(allowed, longer_first());
    let masked = mask_all(expression, Seq::empty(), order);
    add_tokens(masked.1, tokens(masked.0))
}

fn blank_range(s: &mut Vec<char>, start: usize, end: usize)
    requires
        start <= end <= old(s)@.len(),
    ensures
        final(s)@ == blank_out(old(s)@, start as int, end as int),
{
    let ghost s0 = s@;
    let mut i = start;
    while i < end
        invariant
            start <= i <= end <= s@.len(),
            s@.len() == s0.len(),
            forall|k: int| 0 <= k < s0.len() ==> #[trigger] s@[k] == (if start <= k < i {
                ' '
            } else {
                s0[k]
            }),
        decreases end - i,
    {
        s.set(i, ' ');
        i += 1;
    }
    proof {
        assert(s@ =~= blank_out(s0, start as int, end as int));
    }
}

fn mask_exec(s: &mut Vec<char>, lic: &Vec<char>) -> (found: bool)
    requires
        lic@.len() > 0,
    ensures
        (final(s)@, found) == mask_license(old(s)@, lic@, 0),
{
    let ghost target = mask_license(s@, lic@, 0);
    let mut from: usize = 0;
    let mut found = false;
    while from <= s.len()
        invariant
            lic@.len() > 0,
            target == mask_license(old(s)@, lic@, 0),
            from <= s@.len() + 1,
            target == (mask_license(s@, lic@, from as int).0, found || mask_license(
                s@,
                lic@,
                from as int,
            ).1),
        decreases s.len() + 1 - from,
    {
        let r = chars_find_from(s, lic, from);
        proof {
            lemma_find_sound(s@, lic@, from as int);
        }
        match r {
            None => {
                return found;
            },
            Some(start) => {
                let end = start + lic.len();
                if is_license_boundary(s, start) && is_license_boundary(s, end) {
                    blank_range(s, start, end);
                    found = true;
                    from = end;
                } else {
                    from = start + 1;
                }
            },
        }
    }
    proof {
        assert(find_from(s@, lic@, from as int) is None);
    }
    found
}

fn longer_first_insert(order: &mut Vec<String>, x: String)
    ensures
        views(final(order)@) == insert_sorted(views(old(order)@), x@, longer_first()),
{
    let ghost s = views(order@);
    let xl = to_chars(x.as_str()).len();
    let mut j: usize = 0;
    while j < order.len() && !(xl > to_chars(order[j].as_str()).len())
        invariant
            j <= order.len(),
            s == views(order@),
            xl == x@.len(),
            forall|k: int| 0 <= k < j ==> !(longer_first())(x@, #[trigger] s[k]),
        decreases order.len() - j,
    {
        j += 1;
    }
    proof {
        lemma_insert_at(s, x@, longer_first(), j as int);
    }
    order.insert(j, x);
    proof {
        assert(views(order@) =~= s.insert(j as int, x@));
    }
}

/// Splits a license expression into atoms. Every allowed license must be
/// non-empty.
pub fn license_atoms(expression: &str, allowed_licenses: &Vec<String>) -> (r: Vec<String>)
    requires
        forall|k: int| 0 <= k < allowed_licenses@.len() ==> (#[trigger] allowed_licenses@[k])@.len() > 0,
    ensures
        views(r@) == license_atoms_of(expression@, views(allowed_licenses@)),
{
    let ghost allowed = views(allowed_licenses@);
    let mut order: Vec<String> = Vec::new();
    let mut i: usize = 0;
    proof {
        assert(views(order@) =~= stable_sort(allowed.take(0), longer_first()));
    }
    while i < allowed_licenses.len()
        invariant
            i <= allowed_licenses.len(),
            allowed == views(allowed_licenses@),
            views(order@) == stable_sort(allowed.take(i as int), longer_first()),
        decreases allowed_licenses.len() - i,
    {
        proof {
            assert(allowed.take(i + 1).drop_last() =~= allowed.take(i as int));
            assert(allowed.take(i + 1).last() == allowed_licenses@[i as int]@);
        }
        longer_first_insert(&mut order, owned(allowed_licenses[i].as_str()));
        i += 1;
    }
    proof {
        assert(allowed.take(allowed_licenses.len() as int) =~= allowed);
        crate::order::lemma_stable_sort_multiset(allowed, longer_first());
        broadcast use vstd::seq_lib::group_to_multiset_ensures;
        let om = views(order@);
        assert forall|m: int| 0 <= m < om.len() implies (#[trigger] om[m]).len() > 0 by {
            assert(om.contains(om[m]));
            assert(om.to_multiset().count(om[m]) > 0);
            assert(allowed.contains(om[m]));
            let k = choose|k: int| 0 <= k < allowed.len() && allowed[k] == om[m];
            assert(allowed_licenses@[k]@ == allowed[k]);
        }
    }
    let ghost order_model = views(order@);
    let mut remaining = to_chars(expression);
    let mut atoms: Vec<String> = Vec::new();
    proof {
        assert(views(atoms@) =~= Seq::<Seq<char>>::empty());
    }
    let mut k: usize = 0;
    while k < order.len()
        invariant
            k <= order.len(),
            order_model == views(order@),
            forall|m: int| 0 <= m < order_model.len() ==> (#[trigger] order_model[m]).len() > 0,
            mask_all(expression@, Seq::empty(), order_model.take(k as int)) == (
                remaining@,
                views(atoms@),
            ),
        decreases order.len() - k,
    {
        proof {
            assert(order_model.take(k + 1).drop_last() =~= order_model.take(k as int));
            assert(order_model.take(k + 1).last() == order@[k as int]@);
        }
        let lic = to_chars(order[k].as_str());
        let found = mask_exec(&mut remaining, &lic);
        if found {
            set_insert_exec(&mut atoms, order[k].as_str());
        }
        k += 1;
    }
    proof {
        assert(order_model.take(order.len() as int) =~= order_model);
    }
    let ghost masked = remaining@;
    let mut done: Vec<String> = Vec::new();
    let mut cur: Vec<char> = Vec::new();
    let mut p: usize = 0;
    proof {
        assert(views(done@) =~= Seq::<Seq<char>>::empty());
    }
    while p < remaining.len()
        invariant
            p <= remaining.len(),
            masked == remaining@,
            split_tokens(remaining@.take(p as int)) == (views(done@), cur@),
        decreases remaining.len() - p,
    {
        proof {
            assert(remaining@.take(p + 1).drop_last() =~= remaining@.take(p as int));
            assert(remaining@.take(p + 1).last() == remaining@[p as int]);
        }
        let ch = remaining[p];
        if is_boundary_char(ch) {
            let t = from_chars(&cur);
            let ghost before = done@;
            done.push(t);
            cur = Vec::new();
            proof {
                assert(views(done@) =~= views(before).push(t@));
                assert(cur@ =~= Seq::<char>::empty());
            }
        } else {
            cur.push(ch);
        }
        p += 1;
    }
    proof {
        assert(remaining@.take(remaining.len() as int) =~= remaining@);
    }
    let last = from_chars(&cur);
    let ghost before_last = done@;
    done.push(last);
    proof {
        assert(views(done@) =~= views(before_last).push(last@));
        assert(views(done@) == tokens(masked));
    }
    let ghost toks = views(done@);
    let mut q: usize = 0;
    while q < done.len()
        invariant
            q <= done.len(),
            toks == views(done@),
            views(atoms@) == add_tokens(mask_all(expression@, Seq::empty(), order_model).1, toks.take(q as int)),
        decreases done.len() - q,
    {
        proof {
            assert(toks.take(q + 1).drop_last() =~= toks.take(q as int));
            assert(toks.take(q + 1).last() == done@[q as int]@);
            reveal_strlit("AND");
            reveal_strlit("OR");
            reveal_strlit("WITH");
        }
        let t = done[q].as_str();
        if !text_is_empty(t) && !str_eq(t, "AND") && !str_eq(t, "OR") && !str_eq(t, "WITH") {
            set_insert_exec(&mut atoms, t);
        }
        q += 1;
    }
    proof {
        assert(toks.take(done.len() as int) =~= toks);
    }
    atoms
}

fn text_is_empty(s: &str) -> (b: bool)
    ensures
        b == (s@.len() == 0),
{
    to_chars(s).len() == 0
}

} // verus!
