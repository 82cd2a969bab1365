//! What redaction guarantees: no URL survives it, and terminal-safe text
//! holds no control character.
use vstd::prelude::*;
use vstd::string::*;
use crate::strs::{is_control, is_ws, lemma_find_sound, occurs_at};
use crate::text::{
    find_stop, http_scheme, https_scheme, lemma_find_stop_sound, lemma_next_url_sound, newline_marker,
    next_url, redact, safe_char, safe_text, url_resume,
};

verus! {

/// A URL scheme (`http://` or `https://`) starts at `i`.
pub open spec fn scheme_at(t: Seq<char>, i: int) -> bool {
    occurs_at(t, http_scheme(), i) || occurs_at(t, https_scheme(), i)
}

/// The length of the scheme that starts at `i`.
pub open spec fn scheme_len_at(t: Seq<char>, i: int) -> int {
    if occurs_at(t, http_scheme(), i) {
        7
    } else {
        8
    }
}

/// The scheme at `i` is bare: whitespace or the end of the text follows.
pub open spec fn bare_scheme(t: Seq<char>, i: int) -> bool {
    let e = i + scheme_len_at(t, i);
    e == t.len() || is_ws(t[e])
}

/// Every scheme in the text is bare: nothing there can be followed to a
/// server.
pub open spec fn url_free(t: Seq<char>) -> bool {
    forall|i: int| #[trigger] scheme_at(t, i) ==> bare_scheme(t, i)
}

/// A character that occurs in a scheme.
pub open spec fn scheme_char(c: char) -> bool {
    c == 'h' || c == 't' || c == 'p' || c == 's' || c == ':' || c == '/'
}

/// A replacement that cannot take part in a scheme.
pub open spec fn scheme_free(r: Seq<char>) -> bool {
    forall|k: int| 0 <= k < r.len() ==> !scheme_char(#[trigger] r[k])
}

/// A replacement without a slash, which every scheme ends with.
pub open spec fn slash_free(r: Seq<char>) -> bool {
    forall|k: int| 0 <= k < r.len() ==> #[trigger] r[k] != '/'
}

/// No character that ends a URL occurs in a scheme.
proof fn lemma_stop_not_scheme(c: char)
    requires
        crate::text::is_url_stop(c),
    ensures
        !scheme_char(c),
{
}

proof fn lemma_occurs_char(t: Seq<char>, p: Seq<char>, i: int, k: int)
    requires
        occurs_at(t, p, i),
        0 <= k < p.len(),
    ensures
        t[i + k] == p[k],
{
    assert(t.subrange(i, i + p.len())[k] == t[i + k]);
}

proof fn lemma_scheme_facts(t: Seq<char>, i: int)
    requires
        scheme_at(t, i),
    ensures
        0 <= i,
        i + scheme_len_at(t, i) <= t.len(),
        t[i] == 'h',
        t[i + scheme_len_at(t, i) - 1] == '/',
        forall|k: int| 1 <= k < scheme_len_at(t, i) ==> t[i + k] != 'h' && scheme_char(#[trigger] t[i + k]),
        !(occurs_at(t, http_scheme(), i) && occurs_at(t, https_scheme(), i)),
{
    if occurs_at(t, http_scheme(), i) {
        assert forall|k: int| 0 <= k < 7 implies t[i + k] == http_scheme()[k] by {
            lemma_occurs_char(t, http_scheme(), i, k);
        }
        if occurs_at(t, https_scheme(), i) {
            lemma_occurs_char(t, https_scheme(), i, 4);
        }
    } else {
        assert forall|k: int| 0 <= k < 8 implies t[i + k] == https_scheme()[k] by {
            lemma_occurs_char(t, https_scheme(), i, k);
        }
    }
}

proof fn lemma_occurs_left(a: Seq<char>, b: Seq<char>, p: Seq<char>, i: int)
    requires
        occurs_at(a + b, p, i),
        i + p.len() <= a.len(),
    ensures
        occurs_at(a, p, i),
{
    assert((a + b).subrange(i, i + p.len()) =~= a.subrange(i, i + p.len()));
}

proof fn lemma_occurs_right(a: Seq<char>, b: Seq<char>, p: Seq<char>, i: int)
    requires
        occurs_at(a + b, p, i),
        i >= a.len(),
    ensures
        occurs_at(b, p, i - a.len()),
{
    assert((a + b).subrange(i, i + p.len()) =~= b.subrange(i - a.len(), i - a.len() + p.len()));
}

proof fn lemma_occurs_prefix(s: Seq<char>, n: int, p: Seq<char>, i: int)
    requires
        0 <= n <= s.len(),
        occurs_at(s.take(n), p, i),
    ensures
        occurs_at(s, p, i),
{
    assert(s.take(n).subrange(i, i + p.len()) =~= s.subrange(i, i + p.len()));
}

/// Schemes at the left part of a concatenation stay schemes of the whole.
proof fn lemma_scheme_left(a: Seq<char>, b: Seq<char>, i: int)
    requires
        scheme_at(a + b, i),
        i + scheme_len_at(a + b, i) <= a.len(),
    ensures
        scheme_at(a, i),
        scheme_len_at(a, i) == scheme_len_at(a + b, i),
{
    if occurs_at(a + b, http_scheme(), i) {
        lemma_occurs_left(a, b, http_scheme(), i);
    } else {
        lemma_occurs_left(a, b, https_scheme(), i);
        if occurs_at(a, http_scheme(), i) {
            assert((a + b).subrange(i, i + 7) =~= a.subrange(i, i + 7));
        }
    }
}

proof fn lemma_scheme_right(a: Seq<char>, b: Seq<char>, i: int)
    requires
        scheme_at(a + b, i),
        i >= a.len(),
    ensures
        scheme_at(b, i - a.len()),
        scheme_len_at(b, i - a.len()) == scheme_len_at(a + b, i),
{
    if occurs_at(a + b, http_scheme(), i) {
        lemma_occurs_right(a, b, http_scheme(), i);
    } else {
        lemma_occurs_right(a, b, https_scheme(), i);
        if occurs_at(b, http_scheme(), i - a.len()) {
            assert((a + b).subrange(i, i + 7) =~= b.subrange(i - a.len(), i - a.len() + 7));
        }
    }
}

/// Redaction keeps the first character of a text that does not start a
/// scheme.
proof fn lemma_redact_first(t: Seq<char>, r: Seq<char>)
    requires
        t.len() > 0,
        t[0] != 'h',
    ensures
        redact(t, r).len() > 0,
        redact(t, r)[0] == t[0],
{
    lemma_next_url_sound(t);
    match next_url(t) {
        None => {},
        Some((o, sl)) => {
            if sl == 7 {
                lemma_occurs_char(t, http_scheme(), o, 0);
            } else {
                lemma_occurs_char(t, https_scheme(), o, 0);
            }
            assert(o >= 1);
        },
    }
}

/// No scheme occurs in `s` before the first URL that `next_url` finds.
proof fn lemma_no_scheme_before(s: Seq<char>, j: int)
    requires
        0 <= j,
        match next_url(s) {
            Some((o, _)) => j < o,
            None => true,
        },
    ensures
        !scheme_at(s, j),
{
    lemma_find_sound(s, http_scheme(), 0);
    lemma_find_sound(s, https_scheme(), 0);
}

/// Redacting with a replacement that holds no slash leaves no URL behind:
/// every `http://` or `https://` in the result is bare.
pub proof fn law_redact_leaves_no_url(s: Seq<char>, r: Seq<char>)
    requires
        r.len() > 0,
        slash_free(r),
    ensures
        url_free(redact(s, r)),
    decreases s.len(),
{
    lemma_next_url_sound(s);
    match next_url(s) {
        None => {
            assert forall|i: int| #[trigger] scheme_at(s, i) implies bare_scheme(s, i) by {
                lemma_scheme_facts(s, i);
                lemma_no_scheme_before(s, i);
            }
        },
        Some((o, sl)) => {
            let tail = s.skip(o + sl);
            lemma_find_stop_sound(tail, 0);
            assert(sl == 7 ==> occurs_at(s, http_scheme(), o));
            assert(sl == 8 ==> occurs_at(s, https_scheme(), o));
            assert(scheme_at(s, o));
            lemma_scheme_facts(s, o);
            if tail.len() == 0 || is_ws(tail[0]) {
                law_redact_leaves_no_url(tail, r);
                let a = s.take(o + sl);
                let b = redact(tail, r);
                let out = a + b;
                assert(redact(s, r) == out);
                if tail.len() > 0 {
                    lemma_redact_first(tail, r);
                }
                assert forall|i: int| #[trigger] scheme_at(out, i) implies bare_scheme(out, i) by {
                    lemma_scheme_facts(out, i);
                    let len = scheme_len_at(out, i);
                    if i + len <= a.len() {
                        lemma_scheme_left(a, b, i);
                        if occurs_at(a, http_scheme(), i) {
                            lemma_occurs_prefix(s, o + sl, http_scheme(), i);
                        } else {
                            lemma_occurs_prefix(s, o + sl, https_scheme(), i);
                        }
                        if i < o {
                            lemma_no_scheme_before(s, i);
                        } else if i > o {
                            assert(out[i] == s[i]);
                            assert(s[o + (i - o)] != 'h');
                        } else {
                            if occurs_at(s, http_scheme(), o) && occurs_at(out, https_scheme(), o) {
                                assert(occurs_at(s, https_scheme(), o));
                            }
                            if occurs_at(s, https_scheme(), o) && occurs_at(out, http_scheme(), o) {
                                assert(occurs_at(s, http_scheme(), o));
                            }
                            if tail.len() > 0 {
                                assert(out[a.len() as int] == b[0]);
                            }
                        }
                    } else if i < a.len() {
                        if i < o {
                            assert(out[o] == s[o]);
                            assert(out[i + (o - i)] != 'h');
                        } else if i > o {
                            assert(out[i] == s[i]);
                            assert(s[o + (i - o)] != 'h');
                        } else {
                            assert(out[o + 4] == s[o + 4]);
                            lemma_scheme_facts(s, o);
                            if occurs_at(out, https_scheme(), o) {
                                lemma_occurs_char(out, https_scheme(), o, 4);
                                lemma_occurs_char(s, http_scheme(), o, 4);
                            }
                        }
                    } else {
                        lemma_scheme_right(a, b, i);
                        assert(scheme_at(b, i - a.len()));
                        assert(bare_scheme(b, i - a.len()));
                        let e = i + len;
                        if e < out.len() {
                            assert(out[e] == b[e - a.len()]);
                        }
                    }
                }
            } else {
                let resume = url_resume(s, o, sl);
                let rest = s.skip(resume);
                law_redact_leaves_no_url(rest, r);
                let a = s.take(o);
                let b = redact(rest, r);
                let out = a + r + b;
                assert(redact(s, r) == out);
                assert forall|i: int| #[trigger] scheme_at(out, i) implies bare_scheme(out, i) by {
                    lemma_scheme_facts(out, i);
                    let len = scheme_len_at(out, i);
                    if i + len <= o {
                        assert(out == a + (r + b));
                        lemma_scheme_left(a, r + b, i);
                        if occurs_at(a, http_scheme(), i) {
                            lemma_occurs_prefix(s, o, http_scheme(), i);
                        } else {
                            lemma_occurs_prefix(s, o, https_scheme(), i);
                        }
                        lemma_no_scheme_before(s, i);
                    } else if i < o + r.len() {
                        let last = i + len - 1;
                        if last < o + r.len() {
                            assert(out[last] == r[last - o]);
                        } else {
                            let p = o + r.len();
                            assert(b.len() > 0);
                            assert(rest.len() > 0);
                            let tail = s.skip(o + sl);
                            match find_stop(tail, 0) {
                                Some(e) => {
                                    assert(rest[0] == tail[e]);
                                },
                                None => {},
                            }
                            lemma_stop_not_scheme(rest[0]);
                            lemma_redact_first(rest, r);
                            assert(out[p] == b[0]);
                            assert(out[i + (p - i)] == b[0]);
                        }
                    } else {
                        lemma_scheme_right(a + r, b, i);
                        assert(bare_scheme(b, i - (a + r).len()));
                        let e = i + len;
                        if e < out.len() {
                            assert(out[e] == b[e - (a + r).len()]);
                        }
                    }
                }
            }
        },
    }
}

/// Terminal-safe text holds no control character: no line break, no tab.
pub proof fn law_safe_text_has_no_control(s: Seq<char>)
    ensures
        forall|i: int| 0 <= i < safe_text(s).len() ==> !is_control(#[trigger] safe_text(s)[i]),
    decreases s.len(),
{
    if s.len() > 0 {
        law_safe_text_has_no_control(s.drop_last());
        let p = safe_text(s.drop_last());
        let c = safe_char(s.last());
        reveal_strlit(" <换行> ");
        assert forall|i: int| 0 <= i < c.len() implies !is_control(#[trigger] c[i]) by {
            if s.last() == '\n' || s.last() == '\r' {
                assert(c == newline_marker());
            }
        }
        assert forall|i: int| 0 <= i < safe_text(s).len() implies !is_control(#[trigger] safe_text(s)[i]) by {
            if i < p.len() {
                assert(safe_text(s)[i] == p[i]);
            } else {
                assert(safe_text(s)[i] == c[i - p.len()]);
            }
        }
    }
}

/// The markers that replace URLs hold no scheme character (so no slash
/// either): redacting with them leaves no URL behind.
pub proof fn law_markers_are_scheme_free()
    ensures
        scheme_free(crate::text::link_marker()),
        scheme_free(crate::text::subscription_link_marker()),
        slash_free(crate::text::link_marker()),
        slash_free(crate::text::subscription_link_marker()),
        crate::text::link_marker().len() > 0,
        crate::text::subscription_link_marker().len() > 0,
{
    reveal_strlit("[链接]");
    reveal_strlit("[订阅链接]");
}

} // verus!
