//! Decoding the raw bytes a terminal sends (keys, escape sequences,
//! bracketed paste, UTF-8 text) into input events.
use vstd::prelude::*;
use vstd::string::*;
use vstd::utf8::{
    decode_first_scalar, decode_utf8, encode_utf8, length_of_first_scalar, valid_first_scalar,
    valid_utf8,
};
use crate::strs::{char_from_u32, from_chars, push_str, push_usize, dec};

verus! {

/// The keys the client distinguishes.
#[derive(Debug, Clone, Copy, PartialEq, Eq, Structural)]
pub enum KeyCode {
    Backspace,
    Enter,
    Left,
    Right,
    Up,
    Down,
    Home,
    End,
    PageUp,
    PageDown,
    Tab,
    BackTab,
    Delete,
    Insert,
    F(u8),
    Char(char),
    Null,
    Esc,
    CapsLock,
    ScrollLock,
    NumLock,
    PrintScreen,
    Pause,
    Menu,
    KeypadBegin,
    Media,
    Modifier,
}

/// One input event.
#[derive(Debug, Clone, PartialEq, Eq)]
pub enum TuiInputEvent {
    Key(KeyCode),
    Paste(String),
}

/// The model of an input event: a key, or pasted text.
pub enum InputEventModel {
    Key(KeyCode),
    Paste(Seq<char>),
}

pub open spec fn event_model(e: TuiInputEvent) -> InputEventModel {
    match e {
        TuiInputEvent::Key(k) => InputEventModel::Key(k),
        TuiInputEvent::Paste(s) => InputEventModel::Paste(s@),
    }
}

pub open spec fn event_models(v: Seq<TuiInputEvent>) -> Seq<InputEventModel> {
    v.map_values(|e: TuiInputEvent| event_model(e))
}

/// What `String::from_utf8_lossy` makes of a byte sequence.
pub uninterp spec fn utf8_lossy(bytes: Seq<u8>) -> Seq<char>;

/// Calls `String::from_utf8_lossy`. Of its result the contract states only
/// the documented case: valid UTF-8 decodes to its characters. How invalid
/// sequences are replaced is left to the name `utf8_lossy`.
#[verifier::external_body]
pub(crate) fn lossy_string(bytes: &[u8]) -> (s: String)
    ensures
        s@ == utf8_lossy(bytes@),
        valid_utf8(bytes@) ==> s@ == decode_utf8(bytes@),
{
    String::from_utf8_lossy(bytes).into_owned()
}

pub open spec fn paste_start() -> Seq<u8> {
    seq![0x1bu8, 0x5bu8, 0x32u8, 0x30u8, 0x30u8, 0x7eu8]
}

pub open spec fn paste_end() -> Seq<u8> {
    seq![0x1bu8, 0x5bu8, 0x32u8, 0x30u8, 0x31u8, 0x7eu8]
}

/// `t` occurs in `s` at `i`.
pub open spec fn bytes_at(s: Seq<u8>, t: Seq<u8>, i: int) -> bool {
    0 <= i && i + t.len() <= s.len() && s.subrange(i, i + t.len()) == t
}

/// The first position of `t` in `s` (`windows(..).position(..)`).
pub open spec fn find_bytes_from(s: Seq<u8>, t: Seq<u8>, i: int) -> Option<int>
    decreases s.len() + 1 - i,
{
    if i < 0 || i + t.len() > s.len() {
        None
    } else if bytes_at(s, t, i) {
        Some(i)
    } else {
        find_bytes_from(s, t, i + 1)
    }
}

/// The escape sequences and the keys they stand for, in the order they are tried.
pub open spec fn escape_table() -> Seq<(Seq<u8>, KeyCode)> {
    seq![
        (seq![0x1bu8, 0x5bu8, 0x41u8], KeyCode::Up),
        (seq![0x1bu8, 0x5bu8, 0x42u8], KeyCode::Down),
        (seq![0x1bu8, 0x5bu8, 0x43u8], KeyCode::Right),
        (seq![0x1bu8, 0x5bu8, 0x44u8], KeyCode::Left),
        (seq![0x1bu8, 0x5bu8, 0x48u8], KeyCode::Home),
        (seq![0x1bu8, 0x5bu8, 0x46u8], KeyCode::End),
        (seq![0x1bu8, 0x5bu8, 0x5au8], KeyCode::BackTab),
        (seq![0x1bu8, 0x5bu8, 0x32u8, 0x7eu8], KeyCode::Insert),
        (seq![0x1bu8, 0x5bu8, 0x33u8, 0x7eu8], KeyCode::Delete),
        (seq![0x1bu8, 0x5bu8, 0x35u8, 0x7eu8], KeyCode::PageUp),
        (seq![0x1bu8, 0x5bu8, 0x36u8, 0x7eu8], KeyCode::PageDown),
        (seq![0x1bu8, 0x4fu8, 0x48u8], KeyCode::Home),
        (seq![0x1bu8, 0x4fu8, 0x46u8], KeyCode::End),
        (seq![0x1bu8, 0x4fu8, 0x41u8], KeyCode::Up),
        (seq![0x1bu8, 0x4fu8, 0x42u8], KeyCode::Down),
        (seq![0x1bu8, 0x4fu8, 0x43u8], KeyCode::Right),
        (seq![0x1bu8, 0x4fu8, 0x44u8], KeyCode::Left),
    ]
}

/// The key a cursor-key final byte names: `A` up, `B` down, `C` right,
/// `D` left, `H` home, `F` end (the ANSI/VT100 meanings).
pub open spec fn cursor_key_of(fin: u8) -> KeyCode {
    if fin == 0x41 {
        KeyCode::Up
    } else if fin == 0x42 {
        KeyCode::Down
    } else if fin == 0x43 {
        KeyCode::Right
    } else if fin == 0x44 {
        KeyCode::Left
    } else if fin == 0x48 {
        KeyCode::Home
    } else {
        KeyCode::End
    }
}

/// The first entry of the table from `i` on that `bytes` starts with.
pub open spec fn escape_from(bytes: Seq<u8>, i: int) -> Option<(KeyCode, int)>
    decreases escape_table().len() - i,
{
    if i < 0 || i >= escape_table().len() {
        None
    } else if bytes_at(bytes, escape_table()[i].0, 0) {
        Some((escape_table()[i].1, escape_table()[i].0.len() as int))
    } else {
        escape_from(bytes, i + 1)
    }
}

/// The key of the escape sequence `bytes` starts with, and its length.
pub open spec fn escape_key(bytes: Seq<u8>) -> Option<(KeyCode, int)> {
    escape_from(bytes, 0)
}

/// The first character of `bytes` and its length in bytes: the decoded
/// scalar when `bytes` starts with a well-formed UTF-8 encoding, the
/// replacement character for one byte when at least four bytes are there
/// and none forms a character, and `None` while a character may still be
/// incomplete.
pub open spec fn first_char(bytes: Seq<u8>) -> Option<(char, int)> {
    if valid_first_scalar(bytes) {
        Some((decode_first_scalar(bytes) as char, length_of_first_scalar(bytes)))
    } else if bytes.len() >= 4 || (bytes.len() > 0 && bytes[0] <= 0x7f) {
        Some(('\u{FFFD}', 1))
    } else {
        None
    }
}

/// One step of the decoder on non-empty pending bytes: `None` when it must
/// wait for more bytes, else the event it yields (if any) and how many bytes
/// it consumes.
/// The text of a paste: the characters its bytes encode when they are
/// valid UTF-8, else what lossy decoding makes of them.
pub open spec fn paste_text(bytes: Seq<u8>) -> Seq<char> {
    if valid_utf8(bytes) {
        decode_utf8(bytes)
    } else {
        utf8_lossy(bytes)
    }
}

pub open spec fn input_step(p: Seq<u8>) -> Option<(Option<InputEventModel>, int)> {
    if bytes_at(p, paste_start(), 0) {
        match find_bytes_from(p, paste_end(), 6) {
            None => None,
            Some(end) => Some(
                (Some(InputEventModel::Paste(paste_text(p.subrange(6, end)))), end + 6),
            ),
        }
    } else if let Some((code, n)) = escape_key(p) {
        Some((Some(InputEventModel::Key(code)), n))
    } else if p[0] == 0x03u8 || p[0] == 0x1bu8 {
        Some((Some(InputEventModel::Key(KeyCode::Esc)), 1))
    } else if p[0] == 0x0du8 || p[0] == 0x0au8 {
        Some((Some(InputEventModel::Key(KeyCode::Enter)), 1))
    } else if p[0] == 0x09u8 {
        Some((Some(InputEventModel::Key(KeyCode::Tab)), 1))
    } else if p[0] == 0x7fu8 || p[0] == 0x08u8 {
        Some((Some(InputEventModel::Key(KeyCode::Backspace)), 1))
    } else if p[0] < 0x20u8 {
        Some((None, 1))
    } else {
        match first_char(p) {
            None => None,
            Some((c, n)) => Some((Some(InputEventModel::Key(KeyCode::Char(c))), n)),
        }
    }
}

pub proof fn lemma_input_step_progress(p: Seq<u8>)
    requires
        p.len() > 0,
    ensures
        input_step(p) matches Some((_, n)) ==> 0 < n <= p.len(),
{
    if bytes_at(p, paste_start(), 0) {
        lemma_find_bytes_sound(p, paste_end(), 6);
    } else if escape_key(p) is Some {
        lemma_escape_sound(p, 0);
    }
}

pub proof fn lemma_find_bytes_sound(s: Seq<u8>, t: Seq<u8>, i: int)
    ensures
        find_bytes_from(s, t, i) matches Some(j) ==> i <= j && bytes_at(s, t, j) && forall|k: int|
            i <= k < j ==> !bytes_at(s, t, k),
        find_bytes_from(s, t, i) is None ==> 0 <= i ==> forall|k: int| i <= k ==> !bytes_at(s, t, k),
    decreases s.len() + 1 - i,
{
    if i < 0 || i + t.len() > s.len() {
    } else if bytes_at(s, t, i) {
    } else {
        lemma_find_bytes_sound(s, t, i + 1);
    }
}

pub proof fn lemma_escape_sound(p: Seq<u8>, i: int)
    ensures
        escape_from(p, i) matches Some((_, n)) ==> 3 <= n <= 4 && n <= p.len(),
    decreases escape_table().len() - i,
{
    if i < 0 || i >= escape_table().len() {
    } else if bytes_at(p, escape_table()[i].0, 0) {
    } else {
        lemma_escape_sound(p, i + 1);
    }
}

/// Decodes as many events as the pending bytes hold: the events, and the
/// bytes left for later.
pub open spec fn decode_input(p: Seq<u8>) -> (Seq<InputEventModel>, Seq<u8>)
    decreases p.len(),
{
    if p.len() == 0 {
        (Seq::empty(), p)
    } else {
        proof {
            lemma_input_step_progress(p);
        }
        match input_step(p) {
            None => (Seq::empty(), p),
            Some((e, n)) => if 0 < n <= p.len() {
                let rest = decode_input(p.skip(n));
                match e {
                    Some(ev) => (seq![ev] + rest.0, rest.1),
                    None => rest,
                }
            } else {
                (Seq::empty(), p)
            },
        }
    }
}

proof fn lemma_bytes_at_head(p: Seq<u8>, t: Seq<u8>)
    requires
        t.len() >= 3,
        p.len() >= 3,
        p[0] != t[0] || p[1] != t[1] || p[2] != t[2],
    ensures
        !bytes_at(p, t, 0),
{
    if bytes_at(p, t, 0) {
        assert(p.subrange(0, t.len() as int)[0] == p[0]);
        assert(p.subrange(0, t.len() as int)[1] == p[1]);
        assert(p.subrange(0, t.len() as int)[2] == p[2]);
    }
}

/// The cursor keys: `ESC [` or `ESC O` followed by `A`, `B`, `C`, `D`, `H`
/// or `F` is Up, Down, Right, Left, Home or End, three bytes long, whatever
/// follows.
pub proof fn law_cursor_keys(intro: u8, fin: u8, rest: Seq<u8>)
    requires
        intro == 0x5b || intro == 0x4f,
        fin == 0x41 || fin == 0x42 || fin == 0x43 || fin == 0x44 || fin == 0x48 || fin == 0x46,
    ensures
        input_step(seq![0x1bu8, intro, fin] + rest) == Some(
            (Some(InputEventModel::Key(cursor_key_of(fin))), 3int),
        ),
{
    let p = seq![0x1bu8, intro, fin] + rest;
    assert(p[0] == 0x1b && p[1] == intro && p[2] == fin);
    assert(p.subrange(0, 3) =~= seq![0x1bu8, intro, fin]);
    lemma_bytes_at_head(p, paste_start());
    reveal_with_fuel(escape_from, 18);
    let t = escape_table();
    assert forall|i: int| 0 <= i < t.len() && (t[i].0[1] != intro || t[i].0[2] != fin) implies !bytes_at(p, #[trigger] t[i].0, 0) by {
        lemma_bytes_at_head(p, t[i].0);
    }
    assert forall|i: int| 0 <= i < t.len() && t[i].0.len() == 3 && t[i].0[0] == 0x1b && t[i].0[1] == intro && t[i].0[2] == fin implies bytes_at(p, #[trigger] t[i].0, 0) by {
        assert(t[i].0 =~= seq![0x1bu8, intro, fin]);
    }
}

/// The editing keys: `ESC [` then `2`, `3`, `5` or `6` then `~` is Insert,
/// Delete, PageUp or PageDown, four bytes long, whatever follows; `ESC [ Z`
/// is BackTab.
pub proof fn law_tilde_keys(digit: u8, rest: Seq<u8>)
    requires
        digit == 0x32 || digit == 0x33 || digit == 0x35 || digit == 0x36,
    ensures
        input_step(
            seq![0x1bu8, 0x5bu8, digit, 0x7eu8] + rest,
        ) == Some(
            (
                Some(
                    InputEventModel::Key(
                        if digit == 0x32 {
                            KeyCode::Insert
                        } else if digit == 0x33 {
                            KeyCode::Delete
                        } else if digit == 0x35 {
                            KeyCode::PageUp
                        } else {
                            KeyCode::PageDown
                        },
                    ),
                ),
                4int,
            ),
        ),
        input_step(seq![0x1bu8, 0x5bu8, 0x5au8] + rest) == Some((Some(InputEventModel::Key(KeyCode::BackTab)), 3int)),
{
    let p = seq![0x1bu8, 0x5bu8, digit, 0x7eu8] + rest;
    assert(p[0] == 0x1b && p[1] == 0x5b && p[2] == digit && p[3] == 0x7e);
    assert(p.subrange(0, 4) =~= seq![0x1bu8, 0x5bu8, digit, 0x7eu8]);
    if bytes_at(p, paste_start(), 0) {
        assert(p.subrange(0, 6)[3] == p[3]);
        assert(paste_start()[3] == 0x30u8);
    }
    reveal_with_fuel(escape_from, 18);
    let t = escape_table();
    assert forall|i: int| 0 <= i < t.len() && (t[i].0[1] != 0x5b || t[i].0[2] != digit) implies !bytes_at(p, #[trigger] t[i].0, 0) by {
        lemma_bytes_at_head(p, t[i].0);
    }
    assert forall|i: int| 0 <= i < t.len() && t[i].0.len() == 4 && t[i].0[0] == 0x1b && t[i].0[1] == 0x5b && t[i].0[2] == digit && t[i].0[3] == 0x7e implies bytes_at(p, #[trigger] t[i].0, 0) by {
        assert(t[i].0 =~= seq![0x1bu8, 0x5bu8, digit, 0x7eu8]);
    }
    let q = seq![0x1bu8, 0x5bu8, 0x5au8] + rest;
    assert(q[0] == 0x1b && q[1] == 0x5b && q[2] == 0x5a);
    assert(q.subrange(0, 3) =~= seq![0x1bu8, 0x5bu8, 0x5au8]);
    lemma_bytes_at_head(q, paste_start());
    assert forall|i: int| 0 <= i < t.len() && (t[i].0[1] != 0x5b || t[i].0[2] != 0x5a) implies !bytes_at(q, #[trigger] t[i].0, 0) by {
        lemma_bytes_at_head(q, t[i].0);
    }
    assert(bytes_at(q, t[6].0, 0)) by {
        assert(t[6].0 =~= seq![0x1bu8, 0x5bu8, 0x5au8]);
    }
}

/// The decoder keeps only a tail of its input pending, and only when that
/// tail cannot be decoded yet (an unfinished paste, escape or character).
pub proof fn law_pending_is_unfinished_tail(p: Seq<u8>)
    ensures
        decode_input(p).1.len() <= p.len(),
        decode_input(p).1 == p.skip(p.len() - decode_input(p).1.len()),
        decode_input(p).1.len() > 0 ==> input_step(decode_input(p).1) is None,
    decreases p.len(),
{
    if p.len() == 0 {
        assert(p.skip(0) =~= p);
    } else {
        lemma_input_step_progress(p);
        match input_step(p) {
            None => {
                assert(p.skip(0) =~= p);
            },
            Some((e, n)) => {
                let rest = p.skip(n);
                law_pending_is_unfinished_tail(rest);
                let k = decode_input(rest).1.len();
                assert(rest.skip(rest.len() - k) =~= p.skip(p.len() - k));
            },
        }
    }
}

fn bytes_sub(v: &[u8], a: usize, b: usize) -> (r: Vec<u8>)
    requires
        a <= b <= v.len(),
    ensures
        r@ == v@.subrange(a as int, b as int),
{
    let mut r: Vec<u8> = Vec::new();
    let mut i = a;
    while i < b
        invariant
            a <= i <= b <= v.len(),
            r@ == v@.subrange(a as int, i as int),
        decreases b - i,
    {
        r.push(v[i]);
        i += 1;
        proof {
            assert(r@ =~= v@.subrange(a as int, i as int));
        }
    }
    r
}

fn bytes_starts_with(s: &[u8], t: &[u8], i: usize) -> (b: bool)
    ensures
        b == bytes_at(s@, t@, i as int),
{
    if i > s.len() || t.len() > s.len() - i {
        return false;
    }
    let mut k: usize = 0;
    while k < t.len()
        invariant
            k <= t.len(),
            i + t.len() <= s.len(),
            forall|j: int| 0 <= j < k ==> s@[i + j] == t@[j],
        decreases t.len() - k,
    {
        if s[i + k] != t[k] {
            proof {
                assert(s@.subrange(i as int, i + t.len())[k as int] != t@[k as int]);
            }
            return false;
        }
        k += 1;
    }
    proof {
        assert(s@.subrange(i as int, i + t.len()) =~= t@);
    }
    true
}

/// The first position at or after `from` where `needle` occurs in `haystack`.
fn find_bytes(haystack: &[u8], needle: &[u8], from: usize) -> (r: Option<usize>)
    ensures
        match r {
            Some(j) => find_bytes_from(haystack@, needle@, from as int) == Some(j as int),
            None => find_bytes_from(haystack@, needle@, from as int) is None,
        },
{
    if needle.len() > haystack.len() {
        return None;
    }
    let last = haystack.len() - needle.len();
    let mut i = from;
    while i <= last
        invariant
            from <= i,
            last + needle.len() == haystack.len(),
            find_bytes_from(haystack@, needle@, from as int) == find_bytes_from(
                haystack@,
                needle@,
                i as int,
            ),
        decreases last + 1 - i,
    {
        if bytes_starts_with(haystack, needle, i) {
            return Some(i);
        }
        if i == last {
            assert(find_bytes_from(haystack@, needle@, i + 1) is None);
            return None;
        }
        i += 1;
    }
    None
}

/// The position of the first occurrence of `needle` in `haystack`.
pub fn find_subslice(haystack: &[u8], needle: &[u8]) -> (r: Option<usize>)
    requires
        needle@.len() > 0,
    ensures
        match r {
            Some(j) => find_bytes_from(haystack@, needle@, 0) == Some(j as int),
            None => find_bytes_from(haystack@, needle@, 0) is None,
        },
{
    find_bytes(haystack, needle, 0)
}

fn escape_entry(i: usize) -> (r: (Vec<u8>, KeyCode))
    requires
        i < 17,
    ensures
        r.0@ == escape_table()[i as int].0,
        r.1 == escape_table()[i as int].1,
{
    let r = match i {
        0 => (vec![0x1bu8, 0x5bu8, 0x41u8], KeyCode::Up),
        1 => (vec![0x1bu8, 0x5bu8, 0x42u8], KeyCode::Down),
        2 => (vec![0x1bu8, 0x5bu8, 0x43u8], KeyCode::Right),
        3 => (vec![0x1bu8, 0x5bu8, 0x44u8], KeyCode::Left),
        4 => (vec![0x1bu8, 0x5bu8, 0x48u8], KeyCode::Home),
        5 => (vec![0x1bu8, 0x5bu8, 0x46u8], KeyCode::End),
        6 => (vec![0x1bu8, 0x5bu8, 0x5au8], KeyCode::BackTab),
        7 => (vec![0x1bu8, 0x5bu8, 0x32u8, 0x7eu8], KeyCode::Insert),
        8 => (vec![0x1bu8, 0x5bu8, 0x33u8, 0x7eu8], KeyCode::Delete),
        9 => (vec![0x1bu8, 0x5bu8, 0x35u8, 0x7eu8], KeyCode::PageUp),
        10 => (vec![0x1bu8, 0x5bu8, 0x36u8, 0x7eu8], KeyCode::PageDown),
        11 => (vec![0x1bu8, 0x4fu8, 0x48u8], KeyCode::Home),
        12 => (vec![0x1bu8, 0x4fu8, 0x46u8], KeyCode::End),
        13 => (vec![0x1bu8, 0x4fu8, 0x41u8], KeyCode::Up),
        14 => (vec![0x1bu8, 0x4fu8, 0x42u8], KeyCode::Down),
        15 => (vec![0x1bu8, 0x4fu8, 0x43u8], KeyCode::Right),
        _ => (vec![0x1bu8, 0x4fu8, 0x44u8], KeyCode::Left),
    };
    proof {
        assert(r.0@ =~= escape_table()[i as int].0);
    }
    r
}

/// The key of the escape sequence the bytes start with, and its length.
pub fn key_code_from_escape_sequence(bytes: &[u8]) -> (r: Option<(KeyCode, usize)>)
    ensures
        match r {
            Some((k, n)) => escape_key(bytes@) == Some((k, n as int)),
            None => escape_key(bytes@) is None,
        },
{
    let mut i: usize = 0;
    while i < 17
        invariant
            i <= 17,
            escape_key(bytes@) == escape_from(bytes@, i as int),
        decreases 17 - i,
    {
        let (seq, code) = escape_entry(i);
        if bytes_starts_with(bytes, &seq, 0) {
            return Some((code, seq.len()));
        }
        i += 1;
    }
    None
}

/// The first character of the bytes and its length in bytes, or `None`
/// while an incomplete character may still be completed.
pub fn first_utf8_char(bytes: &[u8]) -> (r: Option<(char, usize)>)
    requires
        bytes@.len() > 0,
    ensures
        match r {
            Some((c, n)) => first_char(bytes@) == Some((c, n as int)),
            None => first_char(bytes@) is None,
        },
{
    let n = bytes.len();
    let b0 = bytes[0];
    if b0 <= 0x7f {
        let cp = (b0 & 0x7f) as u32;
        assert(cp <= 0x7f) by (bit_vector)
            requires
                cp == (b0 & 0x7f) as u32,
        ;
        if let Some(c) = char_from_u32(cp) {
            return Some((c, 1));
        }
    } else if 0xc0 <= b0 && b0 <= 0xdf {
        if n >= 2 && 0x80 <= bytes[1] && bytes[1] <= 0xbf {
            let b1 = bytes[1];
            let cp = (((b0 & 0x1f) as u32) << 6) | ((b1 & 0x3f) as u32);
            assert(cp <= 0x7ff) by (bit_vector)
                requires
                    cp == (((b0 & 0x1f) as u32) << 6) | ((b1 & 0x3f) as u32),
            ;
            if 0x80 <= cp {
                if let Some(c) = char_from_u32(cp) {
                    return Some((c, 2));
                }
            }
        }
    } else if 0xe0 <= b0 && b0 <= 0xef {
        if n >= 3 && 0x80 <= bytes[1] && bytes[1] <= 0xbf && 0x80 <= bytes[2] && bytes[2] <= 0xbf {
            let b1 = bytes[1];
            let b2 = bytes[2];
            let cp = (((b0 & 0x0f) as u32) << 12) | (((b1 & 0x3f) as u32) << 6) | ((b2
                & 0x3f) as u32);
            assert(cp <= 0xffff) by (bit_vector)
                requires
                    cp == (((b0 & 0x0f) as u32) << 12) | (((b1 & 0x3f) as u32) << 6) | ((b2
                        & 0x3f) as u32),
            ;
            if 0x800 <= cp && !(0xd800 <= cp && cp <= 0xdfff) {
                if let Some(c) = char_from_u32(cp) {
                    return Some((c, 3));
                }
            }
        }
    } else if 0xf0 <= b0 && b0 <= 0xf7 {
        if n >= 4 && 0x80 <= bytes[1] && bytes[1] <= 0xbf && 0x80 <= bytes[2] && bytes[2] <= 0xbf
            && 0x80 <= bytes[3] && bytes[3] <= 0xbf {
            let cp = (((b0 & 0x07) as u32) << 18) | (((bytes[1] & 0x3f) as u32) << 12) | (((
            bytes[2] & 0x3f) as u32) << 6) | ((bytes[3] & 0x3f) as u32);
            if 0x10000 <= cp && cp <= 0x10ffff {
                if let Some(c) = char_from_u32(cp) {
                    return Some((c, 4));
                }
            }
        }
    }
    if n >= 4 {
        Some(('\u{FFFD}', 1))
    } else {
        None
    }
}

fn paste_marker(end: bool) -> (r: Vec<u8>)
    ensures
        r@ == (if end { paste_end() } else { paste_start() }),
{
    let last: u8 = if end { 0x31 } else { 0x30 };
    let r = vec![0x1bu8, 0x5bu8, 0x32u8, 0x30u8, last, 0x7eu8];
    proof {
        assert(r@ =~= (if end { paste_end() } else { paste_start() }));
    }
    r
}

fn bytes_concat(a: &[u8], b: &[u8]) -> (r: Vec<u8>)
    ensures
        r@ == a@ + b@,
{
    let mut r = bytes_sub(a, 0, a.len());
    let mut i: usize = 0;
    while i < b.len()
        invariant
            i <= b.len(),
            r@ == a@ + b@.take(i as int),
        decreases b.len() - i,
    {
        r.push(b[i]);
        i += 1;
        proof {
            assert(r@ =~= a@ + b@.take(i as int));
        }
    }
    proof {
        assert(a@.subrange(0, a@.len() as int) =~= a@);
        assert(b@.take(b.len() as int) =~= b@);
    }
    r
}

/// Appends the newly read bytes to the pending ones and decodes every event
/// they complete. Bytes that may still begin an unfinished event (a paste
/// without its end marker, a partial UTF-8 character) stay pending.
pub fn tui_input_events_from_bytes(pending: &mut Vec<u8>, bytes: &[u8]) -> (events: Vec<
    TuiInputEvent,
>)
    ensures
        event_models(events@) == decode_input(old(pending)@ + bytes@).0,
        final(pending)@ == decode_input(old(pending)@ + bytes@).1,
{
    let mut rest = bytes_concat(pending, bytes);
    let ghost full = rest@;
    let start = paste_marker(false);
    let end = paste_marker(true);
    let mut events: Vec<TuiInputEvent> = Vec::new();
    let mut done = false;
    while !done && rest.len() > 0
        invariant
            start@ == paste_start(),
            end@ == paste_end(),
            event_models(events@) + decode_input(rest@).0 == decode_input(full).0,
            decode_input(rest@).1 == decode_input(full).1,
            done ==> rest@.len() > 0 && input_step(rest@) is None,
        decreases rest.len() + (if done { 0int } else { 1int }),
    {
        proof {
            lemma_input_step_progress(rest@);
        }
        let ghost before = rest@;
        let mut event: Option<TuiInputEvent> = None;
        let mut used: usize = 0;
        if bytes_starts_with(&rest, &start, 0) {
            match find_bytes(&rest, &end, 6) {
                None => {
                    done = true;
                },
                Some(e) => {
                    proof {
                        lemma_find_bytes_sound(rest@, end@, 6);
                    }
                    let content = bytes_sub(&rest, 6, e);
                    event = Some(TuiInputEvent::Paste(lossy_string(&content)));
                    used = e + 6;
                },
            }
        } else if let Some((code, n)) = key_code_from_escape_sequence(&rest) {
            event = Some(TuiInputEvent::Key(code));
            used = n;
        } else {
            let b = rest[0];
            if b == 0x03 || b == 0x1b {
                event = Some(TuiInputEvent::Key(KeyCode::Esc));
                used = 1;
            } else if b == 0x0d || b == 0x0a {
                event = Some(TuiInputEvent::Key(KeyCode::Enter));
                used = 1;
            } else if b == 0x09 {
                event = Some(TuiInputEvent::Key(KeyCode::Tab));
                used = 1;
            } else if b == 0x7f || b == 0x08 {
                event = Some(TuiInputEvent::Key(KeyCode::Backspace));
                used = 1;
            } else if b < 0x20 {
                used = 1;
            } else {
                match first_utf8_char(&rest) {
                    None => {
                        done = true;
                    },
                    Some((c, n)) => {
                        event = Some(TuiInputEvent::Key(KeyCode::Char(c)));
                        used = n;
                    },
                }
            }
        }
        if !done {
            proof {
                assert(input_step(before) == Some(
                    (
                        match event {
                            Some(ev) => Some(event_model(ev)),
                            None => None,
                        },
                        used as int,
                    ),
                ));
            }
            let ghost old_events = events@;
            match event {
                Some(ev) => {
                    events.push(ev);
                    proof {
                        assert(event_models(events@) =~= event_models(old_events).push(
                            event_model(ev),
                        ));
                    }
                },
                None => {},
            }
            rest = bytes_sub(&rest, used, rest.len());
            proof {
                assert(rest@ =~= before.skip(used as int));
                assert(event_models(events@) + decode_input(rest@).0 =~= event_models(old_events)
                    + decode_input(before).0);
            }
        }
    }
    *pending = rest;
    events
}

/// The name the trace uses for a key.
pub fn key_code_trace_label(code: KeyCode) -> (r: &'static str)
    ensures
        r@ == key_code_trace_text(code),
{
    proof {
        reveal_strlit("backspace");
        reveal_strlit("enter");
        reveal_strlit("left");
        reveal_strlit("right");
        reveal_strlit("up");
        reveal_strlit("down");
        reveal_strlit("home");
        reveal_strlit("end");
        reveal_strlit("page-up");
        reveal_strlit("page-down");
        reveal_strlit("tab");
        reveal_strlit("back-tab");
        reveal_strlit("delete");
        reveal_strlit("insert");
        reveal_strlit("function");
        reveal_strlit("char");
        reveal_strlit("null");
        reveal_strlit("esc");
        reveal_strlit("caps-lock");
        reveal_strlit("scroll-lock");
        reveal_strlit("num-lock");
        reveal_strlit("print-screen");
        reveal_strlit("pause");
        reveal_strlit("menu");
        reveal_strlit("keypad-begin");
        reveal_strlit("media");
        reveal_strlit("modifier");
    }
    match code {
        KeyCode::Backspace => "backspace",
        KeyCode::Enter => "enter",
        KeyCode::Left => "left",
        KeyCode::Right => "right",
        KeyCode::Up => "up",
        KeyCode::Down => "down",
        KeyCode::Home => "home",
        KeyCode::End => "end",
        KeyCode::PageUp => "page-up",
        KeyCode::PageDown => "page-down",
        KeyCode::Tab => "tab",
        KeyCode::BackTab => "back-tab",
        KeyCode::Delete => "delete",
        KeyCode::Insert => "insert",
        KeyCode::F(_) => "function",
        KeyCode::Char(_) => "char",
        KeyCode::Null => "null",
        KeyCode::Esc => "esc",
        KeyCode::CapsLock => "caps-lock",
        KeyCode::ScrollLock => "scroll-lock",
        KeyCode::NumLock => "num-lock",
        KeyCode::PrintScreen => "print-screen",
        KeyCode::Pause => "pause",
        KeyCode::Menu => "menu",
        KeyCode::KeypadBegin => "keypad-begin",
        KeyCode::Media => "media",
        KeyCode::Modifier => "modifier",
    }
}

pub open spec fn key_code_trace_text(code: KeyCode) -> Seq<char> {
    match code {
        KeyCode::Backspace => "backspace"@,
        KeyCode::Enter => "enter"@,
        KeyCode::Left => "left"@,
        KeyCode::Right => "right"@,
        KeyCode::Up => "up"@,
        KeyCode::Down => "down"@,
        KeyCode::Home => "home"@,
        KeyCode::End => "end"@,
        KeyCode::PageUp => "page-up"@,
        KeyCode::PageDown => "page-down"@,
        KeyCode::Tab => "tab"@,
        KeyCode::BackTab => "back-tab"@,
        KeyCode::Delete => "delete"@,
        KeyCode::Insert => "insert"@,
        KeyCode::F(_) => "function"@,
        KeyCode::Char(_) => "char"@,
        KeyCode::Null => "null"@,
        KeyCode::Esc => "esc"@,
        KeyCode::CapsLock => "caps-lock"@,
        KeyCode::ScrollLock => "scroll-lock"@,
        KeyCode::NumLock => "num-lock"@,
        KeyCode::PrintScreen => "print-screen"@,
        KeyCode::Pause => "pause"@,
        KeyCode::Menu => "menu"@,
        KeyCode::KeypadBegin => "keypad-begin"@,
        KeyCode::Media => "media"@,
        KeyCode::Modifier => "modifier"@,
    }
}

/// The line the input trace records for an event: the key's name, or the
/// byte length of pasted text.
pub fn tui_input_event_trace_line(event: &TuiInputEvent) -> (r: String)
    ensures
        r@ == (match event {
            TuiInputEvent::Key(code) => "key code="@ + key_code_trace_text(*code) + " source=raw"@,
            TuiInputEvent::Paste(value) => "paste len="@ + dec(
                (encode_utf8(value@).len() as usize) as nat,
            ),
        }),
{
    let mut v: Vec<char> = Vec::new();
    match event {
        TuiInputEvent::Key(code) => {
            push_str(&mut v, "key code=");
            push_str(&mut v, key_code_trace_label(*code));
            push_str(&mut v, " source=raw");
        },
        TuiInputEvent::Paste(value) => {
            push_str(&mut v, "paste len=");
            push_usize(&mut v, value.as_str().len());
        },
    }
    from_chars(&v)
}

} // verus!
