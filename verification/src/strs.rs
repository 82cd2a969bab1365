//! Character and text primitives shared by the rest of the library.
//!
//! Text is modelled as a `Seq<char>`; every function here states its result
//! over that model.
use vstd::prelude::*;
use vstd::string::*;

verus! {

/// `char::is_control`: the Unicode general category Cc.
pub open spec fn is_control(c: char) -> bool {
    (c as u32) <= 0x1f || (0x7f <= (c as u32) && (c as u32) <= 0x9f)
}

/// `char::is_whitespace`: the Unicode `White_Space` property.
pub open spec fn is_ws(c: char) -> bool {
    let u = c as u32;
    ||| 0x09 <= u <= 0x0d
    ||| u == 0x20
    ||| u == 0x85
    ||| u == 0xa0
    ||| u == 0x1680
    ||| 0x2000 <= u <= 0x200a
    ||| u == 0x2028
    ||| u == 0x2029
    ||| u == 0x202f
    ||| u == 0x205f
    ||| u == 0x3000
}

/// ASCII lower-casing of one character; every other character is unchanged.
pub open spec fn lower_char(c: char) -> char {
    if 'A' <= c && c <= 'Z' {
        ((c as u32) + 32) as char
    } else {
        c
    }
}

/// ASCII lower-casing of a text.
pub open spec fn lower(s: Seq<char>) -> Seq<char> {
    s.map_values(|c: char| lower_char(c))
}

/// `t` occurs in `s` starting at `i`.
pub open spec fn occurs_at(s: Seq<char>, t: Seq<char>, i: int) -> bool {
    0 <= i && i + t.len() <= s.len() && s.subrange(i, i + t.len()) == t
}

/// `t` is a substring of `s`.
pub open spec fn contains(s: Seq<char>, t: Seq<char>) -> bool {
    exists|i: int| occurs_at(s, t, i)
}

/// `i` is the first position at or after `from` where `t` occurs in `s`.
pub open spec fn first_occurrence_from(s: Seq<char>, t: Seq<char>, from: int, i: int) -> bool {
    &&& from <= i
    &&& occurs_at(s, t, i)
    &&& forall|j: int| from <= j < i ==> !occurs_at(s, t, j)
}

/// `t` does not occur in `s` at or after `from`.
pub open spec fn absent_from(s: Seq<char>, t: Seq<char>, from: int) -> bool {
    forall|j: int| from <= j ==> !occurs_at(s, t, j)
}

/// The first position at or after `i` where `t` occurs in `s` (`str::find` on a suffix).
pub open spec fn find_from(s: Seq<char>, t: Seq<char>, i: int) -> Option<int>
    decreases s.len() + 1 - i,
{
    if i < 0 || i > s.len() {
        None
    } else if occurs_at(s, t, i) {
        Some(i)
    } else {
        find_from(s, t, i + 1)
    }
}

/// `str::find`.
pub open spec fn find(s: Seq<char>, t: Seq<char>) -> Option<int> {
    find_from(s, t, 0)
}

pub proof fn lemma_find_first(s: Seq<char>, t: Seq<char>, from: int, i: int)
    requires
        0 <= from,
        first_occurrence_from(s, t, from, i),
    ensures
        find_from(s, t, from) == Some(i),
    decreases i - from,
{
    if from < i {
        lemma_find_first(s, t, from + 1, i);
    }
}

pub proof fn lemma_find_absent(s: Seq<char>, t: Seq<char>, from: int)
    requires
        0 <= from,
        absent_from(s, t, from),
    ensures
        find_from(s, t, from) is None,
    decreases s.len() + 1 - from,
{
    if from <= s.len() {
        lemma_find_absent(s, t, from + 1);
    }
}

/// What `find_from` returns is an occurrence, the first one.
pub proof fn lemma_find_sound(s: Seq<char>, t: Seq<char>, from: int)
    ensures
        match find_from(s, t, from) {
            Some(i) => from <= i && occurs_at(s, t, i) && forall|j: int|
                from <= j < i ==> !occurs_at(s, t, j),
            None => 0 <= from ==> forall|j: int| from <= j ==> !occurs_at(s, t, j),
        },
    decreases s.len() + 1 - from,
{
    if from < 0 || from > s.len() {
    } else if occurs_at(s, t, from) {
    } else {
        lemma_find_sound(s, t, from + 1);
    }
}

pub open spec fn starts_with(s: Seq<char>, t: Seq<char>) -> bool {
    occurs_at(s, t, 0)
}

pub open spec fn ends_with(s: Seq<char>, t: Seq<char>) -> bool {
    t.len() <= s.len() && occurs_at(s, t, s.len() - t.len())
}

/// Number of leading whitespace characters of `s`.
pub open spec fn lead_ws(s: Seq<char>) -> nat
    decreases s.len(),
{
    if s.len() > 0 && is_ws(s[0]) {
        1 + lead_ws(s.skip(1))
    } else {
        0
    }
}

/// Number of trailing whitespace characters of `s`.
pub open spec fn trail_ws(s: Seq<char>) -> nat
    decreases s.len(),
{
    if s.len() > 0 && is_ws(s.last()) {
        1 + trail_ws(s.drop_last())
    } else {
        0
    }
}

/// `str::trim_start`.
pub open spec fn trim_start(s: Seq<char>) -> Seq<char> {
    s.skip(lead_ws(s) as int)
}

/// `str::trim_end`.
pub open spec fn trim_end(s: Seq<char>) -> Seq<char> {
    s.take(s.len() - trail_ws(s))
}

/// `str::trim`.
pub open spec fn trim(s: Seq<char>) -> Seq<char> {
    trim_end(trim_start(s))
}

/// The text holds whitespace only (or nothing).
pub open spec fn blank(s: Seq<char>) -> bool {
    forall|i: int| 0 <= i < s.len() ==> is_ws(#[trigger] s[i])
}

/// The decimal digit for `d < 10`.
pub open spec fn digit(d: nat) -> char {
    ((d + 48) as u32) as char
}

/// Decimal representation of a natural number, as `u64::to_string` prints it.
pub open spec fn dec(n: nat) -> Seq<char>
    decreases n,
{
    if n < 10 {
        seq![digit(n)]
    } else {
        dec(n / 10).push(digit(n % 10))
    }
}

/// Decimal representation of a signed integer.
pub open spec fn dec_int(n: int) -> Seq<char> {
    if n < 0 {
        seq!['-'] + dec((-n) as nat)
    } else {
        dec(n as nat)
    }
}

/// Joins the texts of `parts` with `sep` between neighbours.
pub open spec fn join(parts: Seq<Seq<char>>, sep: Seq<char>) -> Seq<char>
    decreases parts.len(),
{
    if parts.len() == 0 {
        Seq::empty()
    } else if parts.len() == 1 {
        parts[0]
    } else {
        join(parts.drop_last(), sep) + sep + parts.last()
    }
}

/// The views of a vector of strings.
pub open spec fn views(v: Seq<String>) -> Seq<Seq<char>> {
    v.map_values(|s: String| s@)
}

pub proof fn lemma_trim_start_blank(s: Seq<char>)
    ensures
        lead_ws(s) <= s.len(),
        blank(s) <==> lead_ws(s) == s.len(),
        trim_start(s).len() == 0 <==> blank(s),
    decreases s.len(),
{
    if s.len() > 0 {
        lemma_trim_start_blank(s.skip(1));
        if is_ws(s[0]) {
            assert forall|i: int| 0 <= i < s.skip(1).len() implies is_ws(#[trigger] s.skip(1)[i]) <==> is_ws(s[i + 1]) by {}
            if blank(s.skip(1)) {
                assert forall|i: int| 0 <= i < s.len() implies is_ws(#[trigger] s[i]) by {
                    if i > 0 { assert(s[i] == s.skip(1)[i - 1]); }
                }
            }
            if blank(s) {
                assert forall|i: int| 0 <= i < s.skip(1).len() implies is_ws(#[trigger] s.skip(1)[i]) by {
                    assert(s.skip(1)[i] == s[i + 1]);
                }
            }
        } else {
            assert(!is_ws(s[0]));
        }
    } else {
        assert(s.skip(0) =~= s);
    }
}

pub proof fn lemma_trail_le(s: Seq<char>)
    ensures
        trail_ws(s) <= s.len(),
    decreases s.len(),
{
    if s.len() > 0 {
        lemma_trail_le(s.drop_last());
    }
}

/// A blank text trims to nothing and a text that is not blank does not.
pub proof fn lemma_trim_empty_iff_blank(s: Seq<char>)
    ensures
        trim(s).len() == 0 <==> blank(s),
{
    lemma_trim_start_blank(s);
    let t = trim_start(s);
    lemma_trail_le(t);
    if t.len() > 0 {
        // the first character of the trimmed start is not whitespace
        lemma_first_not_ws(s);
        lemma_trail_not_all(t);
    }
}

proof fn lemma_first_not_ws(s: Seq<char>)
    requires
        lead_ws(s) < s.len(),
    ensures
        !is_ws(s[lead_ws(s) as int]),
    decreases s.len(),
{
    if s.len() > 0 && is_ws(s[0]) {
        lemma_first_not_ws(s.skip(1));
        assert(s.skip(1)[lead_ws(s.skip(1)) as int] == s[lead_ws(s) as int]);
    }
}

proof fn lemma_trail_not_all(t: Seq<char>)
    requires
        t.len() > 0,
        !is_ws(t[0]),
    ensures
        trail_ws(t) < t.len(),
    decreases t.len(),
{
    if is_ws(t.last()) && t.len() > 1 {
        lemma_trail_not_all(t.drop_last());
    }
}

/// `String::push`.
#[verifier::external_body]
pub(crate) fn push_char(s: &mut String, c: char)
    ensures
        final(s)@ == old(s)@.push(c),
{
    s.push(c);
}

/// `char::from_u32`: `None` for surrogates and values above `0x10FFFF`.
#[verifier::external_body]
pub(crate) fn char_from_u32(v: u32) -> (c: Option<char>)
    ensures
        c == (if v <= 0x10ffff && !(0xd800 <= v <= 0xdfff) { Some(v as char) } else { None }),
{
    char::from_u32(v)
}

/// The characters of a text.
pub fn to_chars(s: &str) -> (out: Vec<char>)
    ensures
        out@ == s@,
{
    let mut out: Vec<char> = Vec::new();
    for c in it: s.chars()
        invariant
            it.seq() == s@,
            out@ == it.seq().take(it.index() as int),
    {
        out.push(c);
    }
    proof {
        assert(out@ =~= s@);
    }
    out
}

/// A string holding the given characters.
pub fn from_chars(v: &[char]) -> (s: String)
    ensures
        s@ == v@,
{
    let mut s = String::new();
    let mut i: usize = 0;
    while i < v.len()
        invariant
            i <= v.len(),
            s@ == v@.take(i as int),
        decreases v.len() - i,
    {
        push_char(&mut s, v[i]);
        i += 1;
        proof {
            assert(s@ =~= v@.take(i as int));
        }
    }
    proof {
        assert(v@.take(v.len() as int) =~= v@);
    }
    s
}

/// A fresh string equal to `s`.
pub fn owned(s: &str) -> (r: String)
    ensures
        r@ == s@,
{
    String::from_str(s)
}

/// Appends the characters of `t` to `v`.
pub fn push_str(v: &mut Vec<char>, t: &str)
    ensures
        final(v)@ == old(v)@ + t@,
{
    let cs = to_chars(t);
    push_all(v, &cs);
}

/// Appends the characters of `t` to `v`.
pub fn push_all(v: &mut Vec<char>, t: &[char])
    ensures
        final(v)@ == old(v)@ + t@,
{
    let ghost start = v@;
    let mut i: usize = 0;
    while i < t.len()
        invariant
            i <= t.len(),
            v@ == start + t@.take(i as int),
        decreases t.len() - i,
    {
        v.push(t[i]);
        i += 1;
        proof {
            assert(v@ =~= start + t@.take(i as int));
        }
    }
    proof {
        assert(t@.take(t.len() as int) =~= t@);
    }
}

/// Exec `is_ws`.
pub fn char_is_ws(c: char) -> (b: bool)
    ensures
        b == is_ws(c),
{
    let u = c as u32;
    (0x09 <= u && u <= 0x0d) || u == 0x20 || u == 0x85 || u == 0xa0 || u == 0x1680 || (0x2000 <= u
        && u <= 0x200a) || u == 0x2028 || u == 0x2029 || u == 0x202f || u == 0x205f || u == 0x3000
}

/// Exec `is_control`.
pub fn char_is_control(c: char) -> (b: bool)
    ensures
        b == is_control(c),
{
    let u = c as u32;
    u <= 0x1f || (0x7f <= u && u <= 0x9f)
}

/// Exec `lower_char`.
pub fn char_lower(c: char) -> (r: char)
    ensures
        r == lower_char(c),
{
    if 'A' <= c && c <= 'Z' {
        let u = (c as u32) + 32;
        match char_from_u32(u) {
            Some(r) => r,
            None => c,
        }
    } else {
        c
    }
}

/// ASCII lower-casing of a character vector.
pub fn chars_lower(s: &[char]) -> (r: Vec<char>)
    ensures
        r@ == lower(s@),
{
    let mut r: Vec<char> = Vec::new();
    let mut i: usize = 0;
    while i < s.len()
        invariant
            i <= s.len(),
            r@ == lower(s@.take(i as int)),
        decreases s.len() + 1 - i,
    {
        r.push(char_lower(s[i]));
        i += 1;
        proof {
            assert(r@ =~= lower(s@.take(i as int)));
        }
    }
    proof {
        assert(s@.take(s.len() as int) =~= s@);
    }
    r
}

/// Whether `t` occurs in `s` at position `i`.
pub fn chars_occur_at(s: &[char], t: &[char], i: usize) -> (b: bool)
    ensures
        b == occurs_at(s@, t@, i as int),
{
    if i > s.len() || t.len() > s.len() - i {
        return false;
    }
    let mut k: usize = 0;
    while k < t.len()
        invariant
            k <= t.len(),
            i + t.len() <= s.len(),
            forall|j: int| 0 <= j < k ==> s@[i + j] == t@[j],
        decreases t.len() - k,
    {
        if s[i + k] != t[k] {
            proof {
                assert(s@.subrange(i as int, i + t.len())[k as int] != t@[k as int]);
            }
            return false;
        }
        k += 1;
    }
    proof {
        assert(s@.subrange(i as int, i + t.len()) =~= t@);
    }
    true
}

/// The first position at or after `from` where `t` occurs in `s`.
pub fn chars_find_from(s: &[char], t: &[char], from: usize) -> (r: Option<usize>)
    ensures
        match r {
            Some(i) => first_occurrence_from(s@, t@, from as int, i as int),
            None => absent_from(s@, t@, from as int),
        },
        r matches Some(i) ==> find_from(s@, t@, from as int) == Some(i as int),
        r is None ==> find_from(s@, t@, from as int) is None,
{
    let r = chars_find_from_first(s, t, from);
    proof {
        match r {
            Some(i) => lemma_find_first(s@, t@, from as int, i as int),
            None => lemma_find_absent(s@, t@, from as int),
        }
    }
    r
}

fn chars_find_from_first(s: &[char], t: &[char], from: usize) -> (r: Option<usize>)
    ensures
        match r {
            Some(i) => first_occurrence_from(s@, t@, from as int, i as int),
            None => absent_from(s@, t@, from as int),
        },
{
    let mut i = from;
    while i <= s.len()
        invariant
            from <= i,
            forall|j: int| from <= j < i ==> !occurs_at(s@, t@, j),
        decreases s.len() + 1 - i,
    {
        if chars_occur_at(s, t, i) {
            return Some(i);
        }
        if i == s.len() {
            return None;
        }
        i += 1;
    }
    None
}

/// Whether `t` is a substring of `s`.
pub fn chars_contains(s: &[char], t: &[char]) -> (b: bool)
    ensures
        b == contains(s@, t@),
{
    match chars_find_from(s, t, 0) {
        Some(i) => {
            assert(occurs_at(s@, t@, i as int));
            true
        },
        None => false,
    }
}

/// Whether the text `t` is a substring of `s`.
pub fn chars_contains_str(s: &[char], t: &str) -> (b: bool)
    ensures
        b == contains(s@, t@),
{
    let tc = to_chars(t);
    chars_contains(s, &tc)
}

/// Whether `s` starts with the text `t`.
pub fn chars_starts_with(s: &[char], t: &str) -> (b: bool)
    ensures
        b == starts_with(s@, t@),
{
    let tc = to_chars(t);
    chars_occur_at(s, &tc, 0)
}

/// Whether `s` ends with the text `t`.
pub fn chars_ends_with(s: &[char], t: &str) -> (b: bool)
    ensures
        b == ends_with(s@, t@),
{
    let tc = to_chars(t);
    if tc.len() > s.len() {
        false
    } else {
        chars_occur_at(s, &tc, s.len() - tc.len())
    }
}

/// Whether two character sequences are equal.
pub fn chars_eq(a: &[char], b: &[char]) -> (r: bool)
    ensures
        r == (a@ == b@),
{
    if a.len() != b.len() {
        return false;
    }
    let r = chars_occur_at(a, b, 0);
    proof {
        assert(a@.subrange(0, b@.len() as int) =~= a@);
        if r {
            assert(a@ =~= b@);
        }
    }
    r
}

/// Whether the text `a` equals the text `b`.
pub fn str_eq(a: &str, b: &str) -> (r: bool)
    ensures
        r == (a@ == b@),
{
    let ac = to_chars(a);
    let bc = to_chars(b);
    chars_eq(&ac, &bc)
}

/// Whether the text is whitespace only.
pub fn chars_blank(s: &[char]) -> (b: bool)
    ensures
        b == blank(s@),
{
    let mut i: usize = 0;
    while i < s.len()
        invariant
            i <= s.len(),
            forall|j: int| 0 <= j < i ==> is_ws(#[trigger] s@[j]),
        decreases s.len() + 1 - i,
    {
        if !char_is_ws(s[i]) {
            return false;
        }
        i += 1;
    }
    true
}

/// Whether the text `s` is whitespace only.
pub fn str_blank(s: &str) -> (b: bool)
    ensures
        b == blank(s@),
        b == (trim(s@).len() == 0),
{
    proof {
        lemma_trim_empty_iff_blank(s@);
    }
    let c = to_chars(s);
    chars_blank(&c)
}

/// `str::trim` on a character vector.
pub fn chars_trim(s: &[char]) -> (r: Vec<char>)
    ensures
        r@ == trim(s@),
{
    let mut start: usize = 0;
    proof {
        assert(s@.skip(0) =~= s@);
    }
    while start < s.len() && char_is_ws(s[start])
        invariant
            start <= s.len(),
            lead_ws(s@) == start + lead_ws(s@.skip(start as int)),
        decreases s.len() - start,
    {
        proof {
            assert(s@.skip(start as int).skip(1) =~= s@.skip(start + 1));
        }
        start += 1;
    }
    proof {
        if start < s.len() {
            assert(lead_ws(s@.skip(start as int)) == 0);
        } else {
            assert(s@.skip(start as int).len() == 0);
        }
        assert(trim_start(s@) =~= s@.skip(start as int));
    }
    let ghost t = s@.skip(start as int);
    let mut end: usize = s.len();
    proof {
        assert(t.take(end - start) =~= t);
    }
    while end > start && char_is_ws(s[end - 1])
        invariant
            start <= end <= s.len(),
            t == s@.skip(start as int),
            trail_ws(t) == (s.len() - end) + trail_ws(t.take(end - start)),
        decreases end,
    {
        proof {
            let u = t.take(end - start);
            assert(u.last() == s@[end - 1]);
            assert(u.drop_last() =~= t.take(end - 1 - start));
        }
        end -= 1;
    }
    proof {
        let u = t.take(end - start);
        if end > start {
            assert(u.last() == s@[end - 1]);
            assert(trail_ws(u) == 0);
        } else {
            assert(u.len() == 0);
        }
        assert(t.take(t.len() - (s.len() - end)) =~= u);
        assert(t.take(end - start) =~= s@.subrange(start as int, end as int));
    }
    let mut r: Vec<char> = Vec::new();
    let mut i = start;
    while i < end
        invariant
            start <= i <= end <= s.len(),
            r@ == s@.subrange(start as int, i as int),
        decreases end - i,
    {
        r.push(s[i]);
        i += 1;
        proof {
            assert(r@ =~= s@.subrange(start as int, i as int));
        }
    }
    r
}

/// `str::trim`.
pub fn str_trim(s: &str) -> (r: Vec<char>)
    ensures
        r@ == trim(s@),
{
    let c = to_chars(s);
    chars_trim(&c)
}

/// Appends the decimal representation of `n` to `v`.
pub fn push_dec(v: &mut Vec<char>, n: u64)
    ensures
        final(v)@ == old(v)@ + dec(n as nat),
    decreases n,
{
    if n >= 10 {
        push_dec(v, n / 10);
    }
    let d = (n % 10) as u32 + 48;
    let c = match char_from_u32(d) {
        Some(c) => c,
        None => '0',
    };
    proof {
        assert(c == digit((n % 10) as nat));
    }
    v.push(c);
    proof {
        if n >= 10 {
            assert(old(v)@ + dec(n as nat) =~= old(v)@ + dec((n / 10) as nat) + seq![c]);
        } else {
            assert(old(v)@ + dec(n as nat) =~= old(v)@ + seq![c]);
        }
    }
}

/// Appends the decimal representation of a signed number to `v`.
pub fn push_dec_i64(v: &mut Vec<char>, n: i64)
    ensures
        final(v)@ == old(v)@ + dec_int(n as int),
{
    if n < 0 {
        v.push('-');
        let m: u64 = if n == i64::MIN {
            9223372036854775808u64
        } else {
            (-n) as u64
        };
        push_dec(v, m);
        proof {
            assert(old(v)@ + dec_int(n as int) =~= old(v)@ + seq!['-'] + dec(m as nat));
        }
    } else {
        push_dec(v, n as u64);
    }
}

/// The decimal representation of `n`.
pub fn dec_string(n: u64) -> (s: String)
    ensures
        s@ == dec(n as nat),
{
    let mut v: Vec<char> = Vec::new();
    push_dec(&mut v, n);
    proof {
        assert(v@ =~= dec(n as nat));
    }
    from_chars(&v)
}

/// The characters of `v` from position `a` up to `b`.
pub fn chars_sub(v: &[char], a: usize, b: usize) -> (r: Vec<char>)
    requires
        a <= b <= v.len(),
    ensures
        r@ == v@.subrange(a as int, b as int),
{
    let mut r: Vec<char> = Vec::new();
    let mut i = a;
    while i < b
        invariant
            a <= i <= b <= v.len(),
            r@ == v@.subrange(a as int, i as int),
        decreases b - i,
    {
        r.push(v[i]);
        i += 1;
        proof {
            assert(r@ =~= v@.subrange(a as int, i as int));
        }
    }
    r
}

/// Number of bytes of the UTF-8 encoding of one character.
pub open spec fn utf8_width(c: char) -> nat {
    let u = c as u32;
    if u < 0x80 {
        1
    } else if u < 0x800 {
        2
    } else if u < 0x10000 {
        3
    } else {
        4
    }
}

/// Number of bytes of the UTF-8 encoding of a text (`str::len`).
pub open spec fn byte_len(s: Seq<char>) -> nat
    decreases s.len(),
{
    if s.len() == 0 {
        0
    } else {
        byte_len(s.drop_last()) + utf8_width(s.last())
    }
}

/// A prefix takes no more bytes than a longer prefix.
pub proof fn lemma_byte_len_prefix_monotone(s: Seq<char>, i: int, j: int)
    requires
        0 <= i <= j <= s.len(),
    ensures
        byte_len(s.take(i)) <= byte_len(s.take(j)),
    decreases j - i,
{
    if i < j {
        assert(s.take(j).drop_last() =~= s.take(j - 1));
        lemma_byte_len_prefix_monotone(s, i, j - 1);
    }
}

/// The byte length of the first `n` characters of `s`.
pub fn chars_byte_len(s: &[char], n: usize) -> (r: usize)
    requires
        n <= s.len(),
        byte_len(s@.take(n as int)) <= usize::MAX,
    ensures
        r == byte_len(s@.take(n as int)),
{
    let mut r: usize = 0;
    let mut i: usize = 0;
    while i < n
        invariant
            i <= n <= s.len(),
            byte_len(s@.take(n as int)) <= usize::MAX,
            r == byte_len(s@.take(i as int)),
        decreases n - i,
    {
        let u = s[i] as u32;
        let w: usize = if u < 0x80 {
            1
        } else if u < 0x800 {
            2
        } else if u < 0x10000 {
            3
        } else {
            4
        };
        proof {
            assert(s@.take(i + 1).drop_last() =~= s@.take(i as int));
            lemma_byte_len_prefix_monotone(s@, i + 1, n as int);
        }
        r += w;
        i += 1;
    }
    r
}

/// Copies a string.
pub fn copy_string(s: &String) -> (r: String)
    ensures
        r@ == s@,
{
    owned(s.as_str())
}

/// `Option<&str>::unwrap_or("-")` followed by `to_owned`.
pub fn or_dash(s: &Option<String>) -> (r: String)
    ensures
        r@ == (match s {
            Some(t) => t@,
            None => "-"@,
        }),
{
    match s {
        Some(t) => copy_string(t),
        None => owned("-"),
    }
}

/// Joins the given strings with `sep` between neighbours (`[String]::join`).
pub fn join_strings(parts: &Vec<String>, sep: &str) -> (out: String)
    ensures
        out@ == join(views(parts@), sep@),
{
    let mut out: Vec<char> = Vec::new();
    let mut i: usize = 0;
    while i < parts.len()
        invariant
            i <= parts.len(),
            out@ == join(views(parts@.take(i as int)), sep@),
        decreases parts.len() - i,
    {
        proof {
            assert(views(parts@.take(i + 1)).drop_last() =~= views(parts@.take(i as int)));
            assert(views(parts@.take(i + 1)).last() == parts@[i as int]@);
        }
        if i > 0 {
            push_str(&mut out, sep);
        }
        push_str(&mut out, parts[i].as_str());
        i += 1;
        proof {
            if i == 1 {
                assert(views(parts@.take(0)).len() == 0);
                assert(out@ =~= join(views(parts@.take(i as int)), sep@));
            }
        }
    }
    proof {
        assert(parts@.take(parts.len() as int) =~= parts@);
    }
    from_chars(&out)
}

/// A string made of the given text followed by the decimal form of `n`.
pub fn text_dec(t: &str, n: u64) -> (s: String)
    ensures
        s@ == t@ + dec(n as nat),
{
    let mut v: Vec<char> = Vec::new();
    push_str(&mut v, t);
    push_dec(&mut v, n);
    from_chars(&v)
}

/// Appends the decimal representation of a `usize` to `v`.
pub fn push_usize(v: &mut Vec<char>, n: usize)
    ensures
        final(v)@ == old(v)@ + dec(n as nat),
{
    push_dec(v, n as u64);
}

} // verus!
