//! Key names: the table of named keys and the parser of key specs such as
//! `"ctrl+s"`.
use vstd::prelude::*;
use vstd::string::StrSliceExecFns;

use crate::error::ControlError;

verus! {

/// `c` is an ASCII capital letter.
pub open spec fn is_ascii_upper(c: char) -> bool {
    'A' <= c && c <= 'Z'
}

/// Two characters are equal when ASCII letters are compared without case.
pub open spec fn chars_match(a: char, b: char) -> bool {
    ||| a == b
    ||| is_ascii_upper(a) && a as u32 + 32 == b as u32
    ||| is_ascii_upper(b) && b as u32 + 32 == a as u32
}

/// Two names are equal when ASCII letters are compared without case.
pub open spec fn names_match(a: Seq<char>, b: Seq<char>) -> bool {
    &&& a.len() == b.len()
    &&& forall|i: int| 0 <= i < a.len() ==> chars_match(#[trigger] a[i], b[i])
}

fn char_matches(a: char, b: char) -> (r: bool)
    ensures
        r == chars_match(a, b),
{
    let x = a as u32;
    let y = b as u32;
    x == y || ('A' <= a && a <= 'Z' && x + 32 == y) || ('A' <= b && b <= 'Z' && y + 32 == x)
}

/// Compares two names, ignoring the case of ASCII letters.
pub fn name_matches(a: &str, b: &str) -> (r: bool)
    ensures
        r == names_match(a@, b@),
{
    let n = a.unicode_len();
    if n != b.unicode_len() {
        return false;
    }
    let mut i: usize = 0;
    while i < n
        invariant
            n == a@.len(),
            n == b@.len(),
            i <= n,
            forall|j: int| 0 <= j < i ==> chars_match(#[trigger] a@[j], b@[j]),
        decreases n - i,
    {
        if !char_matches(a.get_char(i), b.get_char(i)) {
            return false;
        }
        i = i + 1;
    }
    true
}

/// An abstract key that the input-synthesis service can press.
#[derive(PartialEq, Eq, Structural, Clone, Copy, Debug)]
pub enum KeyId {
    Alt,
    Backspace,
    CapsLock,
    Control,
    Delete,
    DownArrow,
    End,
    Escape,
    F1,
    F2,
    F3,
    F4,
    F5,
    F6,
    F7,
    F8,
    F9,
    F10,
    F11,
    F12,
    Home,
    LeftArrow,
    Meta,
    PageDown,
    PageUp,
    Return,
    RightArrow,
    Shift,
    Space,
    Tab,
    UpArrow,
    /// The `option` key of Apple keyboards.
    OptionKey,
    /// A letter key, by the ASCII code of its capital (`b'A'` to `b'Z'`).
    Letter(u8),
    /// A digit key of the main row, by its value (0 to 9).
    Digit(u8),
    /// Any other character, to be typed as it is.
    Unicode(char),
}

/// The named keys of more than one character, with their aliases.
pub open spec fn named_key(n: Seq<char>) -> Option<KeyId> {
    if names_match(n, "alt"@) {
        Some(KeyId::Alt)
    } else if names_match(n, "backspace"@) {
        Some(KeyId::Backspace)
    } else if names_match(n, "capslock"@) {
        Some(KeyId::CapsLock)
    } else if names_match(n, "control"@) || names_match(n, "ctrl"@) {
        Some(KeyId::Control)
    } else if names_match(n, "delete"@) {
        Some(KeyId::Delete)
    } else if names_match(n, "downarrow"@) || names_match(n, "down"@) {
        Some(KeyId::DownArrow)
    } else if names_match(n, "end"@) {
        Some(KeyId::End)
    } else if names_match(n, "escape"@) || names_match(n, "esc"@) {
        Some(KeyId::Escape)
    } else if names_match(n, "f1"@) {
        Some(KeyId::F1)
    } else if names_match(n, "f2"@) {
        Some(KeyId::F2)
    } else if names_match(n, "f3"@) {
        Some(KeyId::F3)
    } else if names_match(n, "f4"@) {
        Some(KeyId::F4)
    } else if names_match(n, "f5"@) {
        Some(KeyId::F5)
    } else if names_match(n, "f6"@) {
        Some(KeyId::F6)
    } else if names_match(n, "f7"@) {
        Some(KeyId::F7)
    } else if names_match(n, "f8"@) {
        Some(KeyId::F8)
    } else if names_match(n, "f9"@) {
        Some(KeyId::F9)
    } else if names_match(n, "f10"@) {
        Some(KeyId::F10)
    } else if names_match(n, "f11"@) {
        Some(KeyId::F11)
    } else if names_match(n, "f12"@) {
        Some(KeyId::F12)
    } else if names_match(n, "home"@) {
        Some(KeyId::Home)
    } else if names_match(n, "leftarrow"@) || names_match(n, "left"@) {
        Some(KeyId::LeftArrow)
    } else if names_match(n, "meta"@) || names_match(n, "command"@) || names_match(n, "cmd"@) || names_match(n, "windows"@) || names_match(n, "super"@) {
        Some(KeyId::Meta)
    } else if names_match(n, "option"@) {
        Some(KeyId::OptionKey)
    } else if names_match(n, "pagedown"@) {
        Some(KeyId::PageDown)
    } else if names_match(n, "pageup"@) {
        Some(KeyId::PageUp)
    } else if names_match(n, "return"@) || names_match(n, "enter"@) {
        Some(KeyId::Return)
    } else if names_match(n, "rightarrow"@) || names_match(n, "right"@) {
        Some(KeyId::RightArrow)
    } else if names_match(n, "shift"@) {
        Some(KeyId::Shift)
    } else if names_match(n, "space"@) {
        Some(KeyId::Space)
    } else if names_match(n, "tab"@) {
        Some(KeyId::Tab)
    } else if names_match(n, "uparrow"@) || names_match(n, "up"@) {
        Some(KeyId::UpArrow)
    } else {
        None
    }
}

/// `c` is an ASCII letter of either case.
pub open spec fn is_ascii_letter(c: char) -> bool {
    is_ascii_upper(c) || ('a' <= c && c <= 'z')
}

/// `c` is an ASCII decimal digit.
pub open spec fn is_ascii_digit(c: char) -> bool {
    '0' <= c && c <= '9'
}

/// The ASCII code of the capital of a letter.
pub open spec fn capital_code(c: char) -> u8 {
    if is_ascii_upper(c) {
        c as u8
    } else {
        (c as u32 - 32) as u8
    }
}

/// What a key name stands for, if anything: a single letter or digit, then
/// a named key (case-insensitive), then any other single character.
pub open spec fn key_of(n: Seq<char>) -> Option<KeyId> {
    if n.len() == 1 && is_ascii_letter(n[0]) {
        Some(KeyId::Letter(capital_code(n[0])))
    } else if n.len() == 1 && is_ascii_digit(n[0]) {
        Some(KeyId::Digit((n[0] as u32 - '0' as u32) as u8))
    } else if named_key(n) is Some {
        named_key(n)
    } else if n.len() == 1 {
        Some(KeyId::Unicode(n[0]))
    } else {
        None
    }
}

/// Resolution of a key name; an error carries the name that matched nothing.
pub open spec fn resolve_spec(n: Seq<char>) -> Result<KeyId, Seq<char>> {
    match key_of(n) {
        Some(k) => Ok(k),
        None => Err(n),
    }
}

/// `r` is what the model `want` describes, an `Err(n)` of the model being
/// reported as an unknown key named `n`.
pub open spec fn reports<T>(r: Result<T, ControlError>, want: Result<T, Seq<char>>) -> bool {
    match want {
        Ok(v) => r == Ok::<T, ControlError>(v),
        Err(n) => r matches Err(ControlError::UnknownKey(s)) && s@ == n,
    }
}

fn named_key_of(name: &str) -> (r: Option<KeyId>)
    ensures
        r == named_key(name@),
{
    if name_matches(name, "alt") {
        Some(KeyId::Alt)
    } else if name_matches(name, "backspace") {
        Some(KeyId::Backspace)
    } else if name_matches(name, "capslock") {
        Some(KeyId::CapsLock)
    } else if name_matches(name, "control") || name_matches(name, "ctrl") {
        Some(KeyId::Control)
    } else if name_matches(name, "delete") {
        Some(KeyId::Delete)
    } else if name_matches(name, "downarrow") || name_matches(name, "down") {
        Some(KeyId::DownArrow)
    } else if name_matches(name, "end") {
        Some(KeyId::End)
    } else if name_matches(name, "escape") || name_matches(name, "esc") {
        Some(KeyId::Escape)
    } else if name_matches(name, "f1") {
        Some(KeyId::F1)
    } else if name_matches(name, "f2") {
        Some(KeyId::F2)
    } else if name_matches(name, "f3") {
        Some(KeyId::F3)
    } else if name_matches(name, "f4") {
        Some(KeyId::F4)
    } else if name_matches(name, "f5") {
        Some(KeyId::F5)
    } else if name_matches(name, "f6") {
        Some(KeyId::F6)
    } else if name_matches(name, "f7") {
        Some(KeyId::F7)
    } else if name_matches(name, "f8") {
        Some(KeyId::F8)
    } else if name_matches(name, "f9") {
        Some(KeyId::F9)
    } else if name_matches(name, "f10") {
        Some(KeyId::F10)
    } else if name_matches(name, "f11") {
        Some(KeyId::F11)
    } else if name_matches(name, "f12") {
        Some(KeyId::F12)
    } else if name_matches(name, "home") {
        Some(KeyId::Home)
    } else if name_matches(name, "leftarrow") || name_matches(name, "left") {
        Some(KeyId::LeftArrow)
    } else if name_matches(name, "meta") || name_matches(name, "command") || name_matches(name, "cmd") || name_matches(name, "windows") || name_matches(name, "super") {
        Some(KeyId::Meta)
    } else if name_matches(name, "option") {
        Some(KeyId::OptionKey)
    } else if name_matches(name, "pagedown") {
        Some(KeyId::PageDown)
    } else if name_matches(name, "pageup") {
        Some(KeyId::PageUp)
    } else if name_matches(name, "return") || name_matches(name, "enter") {
        Some(KeyId::Return)
    } else if name_matches(name, "rightarrow") || name_matches(name, "right") {
        Some(KeyId::RightArrow)
    } else if name_matches(name, "shift") {
        Some(KeyId::Shift)
    } else if name_matches(name, "space") {
        Some(KeyId::Space)
    } else if name_matches(name, "tab") {
        Some(KeyId::Tab)
    } else if name_matches(name, "uparrow") || name_matches(name, "up") {
        Some(KeyId::UpArrow)
    } else {
        None
    }
}

/// Resolves a key name: a single letter or digit, a named key compared
/// without case, or else any single character typed as it is.
pub fn resolve(name: &str) -> (r: Result<KeyId, ControlError>)
    ensures
        reports(r, resolve_spec(name@)),
{
    let n = name.unicode_len();
    if n == 1 {
        let c = name.get_char(0);
        if 'A' <= c && c <= 'Z' {
            return Ok(KeyId::Letter(c as u8));
        }
        if 'a' <= c && c <= 'z' {
            return Ok(KeyId::Letter((c as u32 - 32) as u8));
        }
        if '0' <= c && c <= '9' {
            return Ok(KeyId::Digit((c as u32 - '0' as u32) as u8));
        }
    }
    match named_key_of(name) {
        Some(k) => Ok(k),
        None => {
            if n == 1 {
                Ok(KeyId::Unicode(name.get_char(0)))
            } else {
                Err(ControlError::UnknownKey(name.to_string()))
            }
        },
    }
}


/// A parsed key spec: at most one modifier, and the key to press.
#[derive(PartialEq, Eq, Structural, Clone, Copy, Debug)]
pub struct KeySpec {
    pub modifier: Option<KeyId>,
    pub primary: KeyId,
}

/// `i` is the position of the first `+` of `s`.
pub open spec fn first_plus(s: Seq<char>, i: int) -> bool {
    &&& 0 <= i < s.len()
    &&& s[i] == '+'
    &&& forall|j: int| 0 <= j < i ==> #[trigger] s[j] != '+'
}

/// A key spec is split at its first `+` only: the left part is the
/// modifier, all of the right part (further `+` included) the key. Without
/// a `+` the whole spec is the key. The modifier's error comes first.
pub open spec fn parse_spec(s: Seq<char>) -> Result<KeySpec, Seq<char>> {
    if exists|i: int| first_plus(s, i) {
        let i = choose|i: int| first_plus(s, i);
        match resolve_spec(s.subrange(0, i)) {
            Err(n) => Err(n),
            Ok(m) => match resolve_spec(s.subrange(i + 1, s.len() as int)) {
                Err(n) => Err(n),
                Ok(k) => Ok(KeySpec { modifier: Some(m), primary: k }),
            },
        }
    } else {
        match resolve_spec(s) {
            Err(n) => Err(n),
            Ok(k) => Ok(KeySpec { modifier: None, primary: k }),
        }
    }
}

/// Parses a key spec such as `"a"`, `"Up"` or `"ctrl+s"`.
pub fn parse(spec: &str) -> (r: Result<KeySpec, ControlError>)
    ensures
        reports(r, parse_spec(spec@)),
{
    let n = spec.unicode_len();
    let mut i: usize = 0;
    while i < n
        invariant
            n == spec@.len(),
            i <= n,
            forall|j: int| 0 <= j < i ==> #[trigger] spec@[j] != '+',
        decreases n - i,
    {
        if spec.get_char(i) == '+' {
            assert(first_plus(spec@, i as int));
            assert forall|j: int| #[trigger] first_plus(spec@, j) implies j == i by {
                if j < i {
                    assert(spec@[j] != '+');
                } else if j > i {
                    assert(spec@[i as int] != '+');
                }
            }
            let modifier = resolve(spec.substring_char(0, i))?;
            let primary = resolve(spec.substring_char(i + 1, n))?;
            return Ok(KeySpec { modifier: Some(modifier), primary });
        }
        i = i + 1;
    }
    let primary = resolve(spec)?;
    Ok(KeySpec { modifier: None, primary })
}


/// A spec without `+` parses to the key that the whole spec names, with
/// no modifier; it fails exactly where that name is unknown.
pub proof fn lemma_parse_single_key(s: Seq<char>)
    requires
        forall|i: int| 0 <= i < s.len() ==> s[i] != '+',
    ensures
        parse_spec(s) == match resolve_spec(s) {
            Ok(k) => Ok(KeySpec { modifier: None, primary: k }),
            Err(n) => Err(n),
        },
{
}

/// A spec `a+b`, where `a` holds no `+`, parses to modifier `a` and key `b`,
/// all of `b` taken as one name even where it holds a `+` itself. An unknown
/// modifier is reported before an unknown key.
pub proof fn lemma_parse_modifier_and_key(a: Seq<char>, b: Seq<char>)
    requires
        forall|i: int| 0 <= i < a.len() ==> a[i] != '+',
    ensures
        parse_spec(a + seq!['+'] + b) == match (resolve_spec(a), resolve_spec(b)) {
            (Err(n), _) => Err(n),
            (Ok(_), Err(n)) => Err(n),
            (Ok(m), Ok(k)) => Ok(KeySpec { modifier: Some(m), primary: k }),
        },
{
    let s = a + seq!['+'] + b;
    let i = a.len() as int;
    assert(first_plus(s, i));
    assert forall|j: int| #[trigger] first_plus(s, j) implies j == i by {
        if j < i {
            assert(s[j] == a[j]);
        } else if j > i {
            assert(s[i] == '+');
        }
    }
    assert(s.subrange(0, i) =~= a);
    assert(s.subrange(i + 1, s.len() as int) =~= b);
}

} // verus!
