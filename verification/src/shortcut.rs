//! Global-shortcut strings such as `"Alt+Shift+3"`: syntax validation and
//! conversion into a modifier set plus a key code.
//!
//! Accepted modifiers (case-sensitive): `Alt`, `Option`, `Shift`, `Ctrl`,
//! `Control`, `Cmd`, `Command`, `Super`; at least one is required. Accepted
//! keys: one ASCII letter or digit, or `F1`..`F12`. `Cmd+Shift+3/4/5` are
//! rejected because macOS reserves them for its own screenshots.

use vstd::prelude::*;
use crate::text;
use crate::text::{chars_eq_str, chars_of, split_chars, string_from_chars, trim_chars};

verus! {

/// A modifier after aliases are folded together.
#[derive(PartialEq, Eq, Structural, Clone, Copy, Debug)]
pub enum ShortcutModifier {
    Alt,
    Shift,
    Ctrl,
    Cmd,
}

/// The key of a shortcut.
#[derive(PartialEq, Eq, Structural, Clone, Copy, Debug)]
pub enum KeyCode {
    /// A letter key, by its upper-case ASCII code (`b'A'..=b'Z'`).
    Letter(u8),
    /// A digit key `0..=9`.
    Digit(u8),
    /// A function key `F1..=F12`.
    Function(u8),
}

/// A parsed shortcut: which modifiers are held, and the key.
#[derive(PartialEq, Eq, Structural, Clone, Copy, Debug)]
pub struct ShortcutSpec {
    pub alt: bool,
    pub shift: bool,
    pub control: bool,
    pub super_key: bool,
    pub code: KeyCode,
}

// ---------------------------------------------------------------------------
// Specification
// ---------------------------------------------------------------------------

/// The canonical modifier a spelling stands for, if any.
pub open spec fn spec_canonical_modifier(raw: Seq<char>) -> Option<ShortcutModifier> {
    if raw == "Alt"@ || raw == "Option"@ {
        Some(ShortcutModifier::Alt)
    } else if raw == "Shift"@ {
        Some(ShortcutModifier::Shift)
    } else if raw == "Ctrl"@ || raw == "Control"@ {
        Some(ShortcutModifier::Ctrl)
    } else if raw == "Cmd"@ || raw == "Command"@ || raw == "Super"@ {
        Some(ShortcutModifier::Cmd)
    } else {
        None
    }
}

/// Each modifier is named by exactly its documented spellings, case
/// sensitively: `Alt` or `Option`; `Shift`; `Ctrl` or `Control`; `Cmd`,
/// `Command` or `Super`; nothing else names a modifier.
pub proof fn lemma_modifier_spellings(raw: Seq<char>)
    ensures
        spec_canonical_modifier(raw) == Some(ShortcutModifier::Alt) <==> (raw == "Alt"@ || raw
            == "Option"@),
        spec_canonical_modifier(raw) == Some(ShortcutModifier::Shift) <==> raw == "Shift"@,
        spec_canonical_modifier(raw) == Some(ShortcutModifier::Ctrl) <==> (raw == "Ctrl"@ || raw
            == "Control"@),
        spec_canonical_modifier(raw) == Some(ShortcutModifier::Cmd) <==> (raw == "Cmd"@ || raw
            == "Command"@ || raw == "Super"@),
        spec_canonical_modifier(raw) is None <==> !(raw == "Alt"@ || raw == "Option"@ || raw
            == "Shift"@ || raw == "Ctrl"@ || raw == "Control"@ || raw == "Cmd"@ || raw
            == "Command"@ || raw == "Super"@),
{
    reveal_strlit("Alt");
    reveal_strlit("Option");
    reveal_strlit("Shift");
    reveal_strlit("Ctrl");
    reveal_strlit("Control");
    reveal_strlit("Cmd");
    reveal_strlit("Command");
    reveal_strlit("Super");
    assert("Alt"@.len() == 3 && "Cmd"@.len() == 3 && "Ctrl"@.len() == 4);
    assert("Shift"@.len() == 5 && "Super"@.len() == 5 && "Option"@.len() == 6);
    assert("Control"@.len() == 7 && "Command"@.len() == 7);
    assert("Alt"@[0] != "Cmd"@[0]);
    assert("Shift"@[1] != "Super"@[1]);
    assert("Control"@[2] != "Command"@[2]);
}

/// A parsed shortcut holds a modifier exactly when one of its modifier
/// pieces spells it: `control` for `Ctrl` or `Control`, `alt` for `Alt` or
/// `Option`, `super_key` for `Cmd`, `Command` or `Super`, `shift` for
/// `Shift`.
pub proof fn lemma_modifier_pieces(mods: Seq<Seq<char>>)
    ensures
        has_modifier(mods, ShortcutModifier::Ctrl) <==> exists|i: int|
            0 <= i < mods.len() && (#[trigger] mods[i] == "Ctrl"@ || mods[i] == "Control"@),
        has_modifier(mods, ShortcutModifier::Alt) <==> exists|i: int|
            0 <= i < mods.len() && (#[trigger] mods[i] == "Alt"@ || mods[i] == "Option"@),
        has_modifier(mods, ShortcutModifier::Cmd) <==> exists|i: int|
            0 <= i < mods.len() && (#[trigger] mods[i] == "Cmd"@ || mods[i] == "Command"@ || mods[i]
                == "Super"@),
        has_modifier(mods, ShortcutModifier::Shift) <==> exists|i: int|
            0 <= i < mods.len() && #[trigger] mods[i] == "Shift"@,
{
    assert forall|i: int| 0 <= i < mods.len() implies {
        &&& (spec_canonical_modifier(#[trigger] mods[i]) == Some(ShortcutModifier::Ctrl) <==> (mods[i]
            == "Ctrl"@ || mods[i] == "Control"@))
        &&& (spec_canonical_modifier(mods[i]) == Some(ShortcutModifier::Alt) <==> (mods[i]
            == "Alt"@ || mods[i] == "Option"@))
        &&& (spec_canonical_modifier(mods[i]) == Some(ShortcutModifier::Cmd) <==> (mods[i]
            == "Cmd"@ || mods[i] == "Command"@ || mods[i] == "Super"@))
        &&& (spec_canonical_modifier(mods[i]) == Some(ShortcutModifier::Shift) <==> mods[i]
            == "Shift"@)
    } by {
        lemma_modifier_spellings(mods[i]);
    }
}

/// The canonical spelling of a modifier.
pub open spec fn modifier_name(m: ShortcutModifier) -> Seq<char> {
    match m {
        ShortcutModifier::Alt => "Alt"@,
        ShortcutModifier::Shift => "Shift"@,
        ShortcutModifier::Ctrl => "Ctrl"@,
        ShortcutModifier::Cmd => "Cmd"@,
    }
}

/// An ASCII letter or digit.
pub open spec fn is_ascii_alphanumeric(c: char) -> bool {
    ('0' <= c && c <= '9') || ('A' <= c && c <= 'Z') || ('a' <= c && c <= 'z')
}

/// Every character is an ASCII digit.
pub open spec fn all_ascii_digits(s: Seq<char>) -> bool {
    forall|i: int| 0 <= i < s.len() ==> '0' <= #[trigger] s[i] && s[i] <= '9'
}

/// The value of a string of decimal digits (leading zeros allowed).
pub open spec fn decimal_value(s: Seq<char>) -> nat
    decreases s.len(),
{
    if s.len() == 0 {
        0
    } else {
        decimal_value(s.drop_last()) * 10 + ((s.last() as u32) - 48) as nat
    }
}

/// One of the twelve function keys `F1`..`F12`: `F` followed by a decimal
/// number from 1 to 12 written without a leading zero.
pub open spec fn is_function_key(key: Seq<char>) -> bool {
    &&& key.len() >= 2
    &&& key[0] == 'F'
    &&& key[1] != '0'
    &&& all_ascii_digits(key.skip(1))
    &&& 1 <= decimal_value(key.skip(1)) <= 12
}

/// A key the shortcut syntax accepts: one ASCII letter or digit, or `F1`..`F12`.
pub open spec fn is_valid_key(key: Seq<char>) -> bool {
    (key.len() == 1 && is_ascii_alphanumeric(key[0])) || is_function_key(key)
}

/// The `+`-separated pieces of a shortcut, each trimmed.
pub open spec fn shortcut_parts(s: Seq<char>) -> Seq<Seq<char>> {
    text::split_on(s, '+').map_values(|p: Seq<char>| text::trim(p))
}

pub open spec fn msg_empty_segment(s: Seq<char>) -> Seq<char> {
    "Shortcut '"@ + s + "' has empty segments around '+'; expected e.g. 'Alt+Shift+3'"@
}

pub open spec fn msg_too_few_parts(s: Seq<char>) -> Seq<char> {
    "Shortcut '"@ + s + "' must have at least one modifier and one key (e.g. 'Alt+Shift+3')"@
}

pub open spec fn msg_unknown_modifier(raw: Seq<char>, s: Seq<char>) -> Seq<char> {
    "Unknown modifier '"@ + raw + "' in shortcut '"@ + s + "'"@
}

pub open spec fn msg_duplicate_modifier(m: ShortcutModifier, s: Seq<char>) -> Seq<char> {
    "Duplicate modifier '"@ + modifier_name(m) + "' in shortcut '"@ + s + "'"@
}

pub open spec fn msg_unsupported_key(key: Seq<char>) -> Seq<char> {
    "Unsupported key '"@ + key + "'; use a single ASCII letter, a digit, or F1-F12"@
}

pub open spec fn msg_reserved(key: Seq<char>) -> Seq<char> {
    "Cmd+Shift+"@ + key
        + " is reserved by macOS for system screenshots; pick a different combination"@
}

/// The first problem among the modifiers `mods` (given those already `seen`):
/// an unknown spelling, or a modifier given twice.
pub open spec fn modifier_problem(
    s: Seq<char>,
    mods: Seq<Seq<char>>,
    seen: Seq<ShortcutModifier>,
) -> Option<Seq<char>>
    decreases mods.len(),
{
    if mods.len() == 0 {
        None
    } else {
        match spec_canonical_modifier(mods[0]) {
            None => Some(msg_unknown_modifier(mods[0], s)),
            Some(m) => if seen.contains(m) {
                Some(msg_duplicate_modifier(m, s))
            } else {
                modifier_problem(s, mods.drop_first(), seen.push(m))
            },
        }
    }
}

/// Some modifier spelling in `mods` stands for `m`.
pub open spec fn has_modifier(mods: Seq<Seq<char>>, m: ShortcutModifier) -> bool {
    exists|i: int| 0 <= i < mods.len() && spec_canonical_modifier(#[trigger] mods[i]) == Some(m)
}

/// The outcome of validating a shortcut string, with the message of the
/// first problem found (empty pieces, too few pieces, modifiers in order,
/// the key, then the macOS-reserved combinations).
pub open spec fn spec_validate_shortcut(s: Seq<char>) -> Result<(), Seq<char>> {
    let parts = shortcut_parts(s);
    let mods = parts.drop_last();
    let key = parts.last();
    if exists|i: int| 0 <= i < parts.len() && (#[trigger] parts[i]).len() == 0 {
        Err(msg_empty_segment(s))
    } else if parts.len() < 2 {
        Err(msg_too_few_parts(s))
    } else if let Some(m) = modifier_problem(s, mods, Seq::empty()) {
        Err(m)
    } else if !is_valid_key(key) {
        Err(msg_unsupported_key(key) + " in shortcut '"@ + s + "'"@)
    } else if has_modifier(mods, ShortcutModifier::Cmd) && has_modifier(
        mods,
        ShortcutModifier::Shift,
    ) && (key == "3"@ || key == "4"@ || key == "5"@) {
        Err(msg_reserved(key))
    } else {
        Ok(())
    }
}

/// The key code a valid key stands for (letters are taken in upper case).
pub open spec fn spec_key_code(key: Seq<char>) -> Option<KeyCode> {
    if key.len() == 1 && 'A' <= key[0] && key[0] <= 'Z' {
        Some(KeyCode::Letter(key[0] as u8))
    } else if key.len() == 1 && 'a' <= key[0] && key[0] <= 'z' {
        Some(KeyCode::Letter(((key[0] as u32) - 32) as u8))
    } else if key.len() == 1 && '0' <= key[0] && key[0] <= '9' {
        Some(KeyCode::Digit(((key[0] as u32) - 48) as u8))
    } else if is_function_key(key) {
        Some(KeyCode::Function(decimal_value(key.skip(1)) as u8))
    } else {
        None
    }
}

// ---------------------------------------------------------------------------
// Implementation
// ---------------------------------------------------------------------------

/// Folds a modifier spelling to its canonical modifier.
fn canonical_modifier(raw: &Vec<char>) -> (r: Option<ShortcutModifier>)
    ensures
        r == spec_canonical_modifier(raw@),
{
    if chars_eq_str(raw, "Alt") || chars_eq_str(raw, "Option") {
        Some(ShortcutModifier::Alt)
    } else if chars_eq_str(raw, "Shift") {
        Some(ShortcutModifier::Shift)
    } else if chars_eq_str(raw, "Ctrl") || chars_eq_str(raw, "Control") {
        Some(ShortcutModifier::Ctrl)
    } else if chars_eq_str(raw, "Cmd") || chars_eq_str(raw, "Command") || chars_eq_str(
        raw,
        "Super",
    ) {
        Some(ShortcutModifier::Cmd)
    } else {
        None
    }
}

fn modifier_name_str(m: ShortcutModifier) -> (r: &'static str)
    ensures
        r@ == modifier_name(m),
{
    match m {
        ShortcutModifier::Alt => "Alt",
        ShortcutModifier::Shift => "Shift",
        ShortcutModifier::Ctrl => "Ctrl",
        ShortcutModifier::Cmd => "Cmd",
    }
}

proof fn lemma_decimal_value_step(s: Seq<char>, i: int)
    requires
        0 <= i < s.len(),
    ensures
        decimal_value(s.take(i + 1)) == decimal_value(s.take(i)) * 10 + ((s[i] as u32) - 48) as nat,
{
    assert(s.take(i + 1).drop_last() =~= s.take(i));
}

/// Parses the digits after `F`: the key number when `key` is `F1`..`F12`.
fn function_key_number(key: &Vec<char>) -> (r: Option<u8>)
    ensures
        r is Some <==> is_function_key(key@),
        r matches Some(n) ==> n as nat == decimal_value(key@.skip(1)),
{
    if key.len() < 2 || key[0] != 'F' || key[1] == '0' {
        return None;
    }
    let ghost digits = key@.skip(1);
    // value of the digits read so far, capped at 13 (the value only grows)
    let mut value: u8 = 0;
    let mut i: usize = 1;
    while i < key.len()
        invariant
            1 <= i <= key.len(),
            digits == key@.skip(1),
            all_ascii_digits(digits.take(i - 1)),
            value <= 13,
            value < 13 ==> value as nat == decimal_value(digits.take(i - 1)),
            value == 13 ==> decimal_value(digits.take(i - 1)) >= 13,
        decreases key.len() - i,
    {
        let c = key[i];
        if c < '0' || c > '9' {
            assert(digits[i - 1] == c);
            return None;
        }
        proof {
            lemma_decimal_value_step(digits, i - 1);
            assert(digits.take(i as int) =~= digits.take(i - 1).push(c));
        }
        let d: u8 = ((c as u32) - 48) as u8;
        if value >= 2 {
            value = 13;
        } else {
            let next = value * 10 + d;
            value = if next > 13 { 13 } else { next };
        }
        i = i + 1;
    }
    assert(digits.take(key.len() - 1) =~= digits);
    if 1 <= value && value <= 12 {
        Some(value)
    } else {
        None
    }
}

/// Checks a single key: one ASCII letter or digit, or `F1`..`F12`.
fn validate_key(key: &Vec<char>) -> (r: Result<(), String>)
    ensures
        r is Ok <==> is_valid_key(key@),
        r matches Err(m) ==> m@ == msg_unsupported_key(key@),
{
    if key.len() == 1 {
        let c = key[0];
        if ('0' <= c && c <= '9') || ('A' <= c && c <= 'Z') || ('a' <= c && c <= 'z') {
            return Ok(());
        }
    }
    if function_key_number(key).is_some() {
        return Ok(());
    }
    let mut msg = String::from_str("Unsupported key '");
    let key_text = string_from_chars(key);
    msg.append(key_text.as_str());
    msg.append("'; use a single ASCII letter, a digit, or F1-F12");
    Err(msg)
}

/// Splits a shortcut string into trimmed `+`-separated pieces.
fn split_shortcut(s: &str) -> (r: Vec<Vec<char>>)
    ensures
        r@.len() == shortcut_parts(s@).len(),
        forall|i: int| 0 <= i < r@.len() ==> #[trigger] r@[i]@ == shortcut_parts(s@)[i],
{
    let chars = chars_of(s);
    let raw = split_chars(&chars, '+');
    let mut parts: Vec<Vec<char>> = Vec::new();
    let mut i: usize = 0;
    while i < raw.len()
        invariant
            i <= raw.len(),
            raw@.len() == text::split_on(s@, '+').len(),
            forall|j: int| 0 <= j < raw@.len() ==> #[trigger] raw@[j]@ == text::split_on(s@, '+')[j],
            parts@.len() == i,
            forall|j: int| 0 <= j < i ==> #[trigger] parts@[j]@ == shortcut_parts(s@)[j],
        decreases raw.len() - i,
    {
        let piece = trim_chars(&raw[i]);
        parts.push(piece);
        i = i + 1;
    }
    parts
}

fn shortcut_message(prefix: &str, s: &str, suffix: &str) -> (r: String)
    ensures
        r@ == prefix@ + s@ + suffix@,
{
    let mut msg = String::from_str(prefix);
    msg.append(s);
    msg.append(suffix);
    msg
}

/// Validates a global-shortcut string like `"Alt+Shift+3"`.
///
/// Returns `Err` with a message naming the first problem: empty pieces around
/// `+`, no modifier, an unknown or repeated modifier (aliases count as the
/// same modifier), an unsupported key, or a combination macOS reserves
/// (`Cmd+Shift+3/4/5`). Whitespace around `+` is ignored.
pub fn validate_shortcut_str(s: &str) -> (r: Result<(), String>)
    ensures
        match r {
            Ok(()) => spec_validate_shortcut(s@) is Ok,
            Err(m) => spec_validate_shortcut(s@) == Err::<(), Seq<char>>(m@),
        },
{
    let parts = split_shortcut(s);
    let ghost sp = shortcut_parts(s@);
    let mut i: usize = 0;
    while i < parts.len()
        invariant
            i <= parts.len(),
            parts@.len() == sp.len(),
            sp == shortcut_parts(s@),
            forall|j: int| 0 <= j < parts@.len() ==> #[trigger] parts@[j]@ == sp[j],
            forall|j: int| 0 <= j < i ==> (#[trigger] sp[j]).len() != 0,
        decreases parts.len() - i,
    {
        if parts[i].len() == 0 {
            assert(sp[i as int].len() == 0);
            return Err(
                shortcut_message(
                    "Shortcut '",
                    s,
                    "' has empty segments around '+'; expected e.g. 'Alt+Shift+3'",
                ),
            );
        }
        i = i + 1;
    }
    if parts.len() < 2 {
        return Err(
            shortcut_message(
                "Shortcut '",
                s,
                "' must have at least one modifier and one key (e.g. 'Alt+Shift+3')",
            ),
        );
    }
    let n_mods = parts.len() - 1;
    let ghost mods = sp.drop_last();
    let mut has_cmd = false;
    let mut has_shift = false;
    let mut seen: Vec<ShortcutModifier> = Vec::new();
    let mut k: usize = 0;
    assert(mods.skip(0) =~= mods);
    assert(mods.take(0) =~= Seq::<Seq<char>>::empty());
    while k < n_mods
        invariant
            n_mods == parts.len() - 1,
            parts.len() >= 2,
            k <= n_mods,
            parts@.len() == sp.len(),
            sp == shortcut_parts(s@),
            mods == sp.drop_last(),
            forall|j: int| 0 <= j < sp.len() ==> (#[trigger] sp[j]).len() != 0,
            forall|j: int| 0 <= j < parts@.len() ==> #[trigger] parts@[j]@ == sp[j],
            modifier_problem(s@, mods, Seq::empty()) == modifier_problem(
                s@,
                mods.skip(k as int),
                seen@,
            ),
            seen@.len() == k,
            forall|j: int| 0 <= j < k ==> spec_canonical_modifier(#[trigger] mods[j]) == Some(seen@[j]),
            has_cmd == has_modifier(mods.take(k as int), ShortcutModifier::Cmd),
            has_shift == has_modifier(mods.take(k as int), ShortcutModifier::Shift),
            forall|x: ShortcutModifier| seen@.contains(x) <==> has_modifier(mods.take(k as int), x),
        decreases n_mods - k,
    {
        let raw = &parts[k];
        assert(mods.skip(k as int)[0] == mods[k as int]);
        assert(mods.skip(k as int).drop_first() =~= mods.skip(k + 1));
        match canonical_modifier(raw) {
            None => {
                let raw_text = string_from_chars(raw);
                let mut msg = String::from_str("Unknown modifier '");
                msg.append(raw_text.as_str());
                msg.append("' in shortcut '");
                msg.append(s);
                msg.append("'");
                return Err(msg);
            },
            Some(m) => {
                let mut dup = false;
                let mut t: usize = 0;
                while t < seen.len()
                    invariant
                        t <= seen.len(),
                        dup == (exists|j: int| 0 <= j < t && seen@[j] == m),
                    decreases seen.len() - t,
                {
                    if seen[t] == m {
                        dup = true;
                    }
                    t = t + 1;
                }
                assert(dup == seen@.contains(m));
                if dup {
                    let mut msg = String::from_str("Duplicate modifier '");
                    msg.append(modifier_name_str(m));
                    msg.append("' in shortcut '");
                    msg.append(s);
                    msg.append("'");
                    return Err(msg);
                }
                proof {
                    let nt = mods.take((k + 1) as int);
                    assert(nt =~= mods.take(k as int).push(mods[k as int]));
                    assert forall|x: ShortcutModifier|
                        seen@.push(m).contains(x) <==> has_modifier(nt, x) by {
                        if seen@.push(m).contains(x) {
                            if x == m {
                                assert(nt[k as int] == mods[k as int]);
                            } else {
                                let w = choose|w: int| 0 <= w < seen@.push(m).len() && seen@.push(m)[w] == x;
                                assert(seen@.contains(x)) by {
                                    assert(seen@[w] == x);
                                }
                                let v = choose|v: int|
                                    0 <= v < mods.take(k as int).len() && spec_canonical_modifier(
                                        #[trigger] mods.take(k as int)[v],
                                    ) == Some(x);
                                assert(nt[v] == mods.take(k as int)[v]);
                            }
                        }
                        if has_modifier(nt, x) {
                            let v = choose|v: int|
                                0 <= v < nt.len() && spec_canonical_modifier(#[trigger] nt[v]) == Some(x);
                            if v == k {
                                assert(seen@.push(m)[k as int] == m);
                            } else {
                                assert(nt[v] == mods.take(k as int)[v]);
                                assert(has_modifier(mods.take(k as int), x));
                                assert(seen@.contains(x));
                                let w = choose|w: int| 0 <= w < seen@.len() && seen@[w] == x;
                                assert(seen@.push(m)[w] == x);
                            }
                        }
                    }
                }
                if m == ShortcutModifier::Cmd {
                    has_cmd = true;
                }
                if m == ShortcutModifier::Shift {
                    has_shift = true;
                }
                seen.push(m);
            },
        }
        k = k + 1;
    }
    assert(mods.take(n_mods as int) =~= mods);
    assert(mods.skip(n_mods as int) =~= Seq::<Seq<char>>::empty());
    let key = &parts[n_mods];
    match validate_key(key) {
        Err(e) => {
            let mut msg = e;
            msg.append(" in shortcut '");
            msg.append(s);
            msg.append("'");
            return Err(msg);
        },
        Ok(()) => {},
    }
    if has_cmd && has_shift && key.len() == 1 && (key[0] == '3' || key[0] == '4' || key[0] == '5') {
        proof {
            reveal_strlit("3");
            reveal_strlit("4");
            reveal_strlit("5");
            assert(key@ == "3"@ || key@ == "4"@ || key@ == "5"@);
        }
        let key_text = string_from_chars(key);
        let mut msg = String::from_str("Cmd+Shift+");
        msg.append(key_text.as_str());
        msg.append(" is reserved by macOS for system screenshots; pick a different combination");
        return Err(msg);
    }
    proof {
        reveal_strlit("3");
        reveal_strlit("4");
        reveal_strlit("5");
    }
    Ok(())
}

/// The key code for a key piece: letters (either case) map to the
/// upper-case letter key, digits to digit keys, `F1`..`F12` to function keys.
fn code_from_str(raw: &Vec<char>) -> (r: Option<KeyCode>)
    ensures
        r == spec_key_code(raw@),
{
    if raw.len() == 1 {
        let c = raw[0];
        if 'A' <= c && c <= 'Z' {
            return Some(KeyCode::Letter(c as u8));
        } else if 'a' <= c && c <= 'z' {
            return Some(KeyCode::Letter(((c as u32) - 32) as u8));
        } else if '0' <= c && c <= '9' {
            return Some(KeyCode::Digit(((c as u32) - 48) as u8));
        }
    }
    match function_key_number(raw) {
        Some(n) => Some(KeyCode::Function(n)),
        None => None,
    }
}

/// Parses a shortcut string into modifiers and key, after validating it
/// with [`validate_shortcut_str`] (whose error is returned unchanged).
pub fn parse_shortcut(s: &str) -> (r: Result<ShortcutSpec, String>)
    ensures
        match r {
            Ok(spec) => {
                &&& spec_validate_shortcut(s@) is Ok
                &&& spec.alt == has_modifier(shortcut_parts(s@).drop_last(), ShortcutModifier::Alt)
                &&& spec.shift == has_modifier(shortcut_parts(s@).drop_last(), ShortcutModifier::Shift)
                &&& spec.control == has_modifier(shortcut_parts(s@).drop_last(), ShortcutModifier::Ctrl)
                &&& spec.super_key == has_modifier(shortcut_parts(s@).drop_last(), ShortcutModifier::Cmd)
                &&& spec_key_code(shortcut_parts(s@).last()) == Some(spec.code)
            },
            Err(m) => spec_validate_shortcut(s@) == Err::<(), Seq<char>>(m@),
        },
{
    match validate_shortcut_str(s) {
        Err(e) => return Err(e),
        Ok(()) => {},
    }
    let parts = split_shortcut(s);
    let ghost sp = shortcut_parts(s@);
    proof {
        lemma_split_parts_nonempty(s@);
    }
    let n_mods = parts.len() - 1;
    let ghost mods = sp.drop_last();
    let mut alt = false;
    let mut shift = false;
    let mut control = false;
    let mut super_key = false;
    let mut k: usize = 0;
    while k < n_mods
        invariant
            n_mods == parts.len() - 1,
            k <= n_mods,
            parts@.len() == sp.len(),
            sp == shortcut_parts(s@),
            mods == sp.drop_last(),
            spec_validate_shortcut(s@) is Ok,
            forall|j: int| 0 <= j < parts@.len() ==> #[trigger] parts@[j]@ == sp[j],
            alt == has_modifier(mods.take(k as int), ShortcutModifier::Alt),
            shift == has_modifier(mods.take(k as int), ShortcutModifier::Shift),
            control == has_modifier(mods.take(k as int), ShortcutModifier::Ctrl),
            super_key == has_modifier(mods.take(k as int), ShortcutModifier::Cmd),
        decreases n_mods - k,
    {
        let ghost nt = mods.take((k + 1) as int);
        assert(nt =~= mods.take(k as int).push(mods[k as int]));
        let m = canonical_modifier(&parts[k]);
        proof {
            assert forall|x: ShortcutModifier|
                has_modifier(nt, x) <==> (has_modifier(mods.take(k as int), x) || m == Some(x)) by {
                if has_modifier(nt, x) {
                    let v = choose|v: int| 0 <= v < nt.len() && spec_canonical_modifier(#[trigger] nt[v]) == Some(x);
                    if v < k {
                        assert(nt[v] == mods.take(k as int)[v]);
                    }
                }
                if has_modifier(mods.take(k as int), x) {
                    let v = choose|v: int|
                        0 <= v < mods.take(k as int).len() && spec_canonical_modifier(
                            #[trigger] mods.take(k as int)[v],
                        ) == Some(x);
                    assert(nt[v] == mods.take(k as int)[v]);
                }
                if m == Some(x) {
                    assert(nt[k as int] == mods[k as int]);
                }
            }
        }
        match m {
            Some(ShortcutModifier::Alt) => alt = true,
            Some(ShortcutModifier::Shift) => shift = true,
            Some(ShortcutModifier::Ctrl) => control = true,
            Some(ShortcutModifier::Cmd) => super_key = true,
            None => {},
        }
        k = k + 1;
    }
    assert(mods.take(n_mods as int) =~= mods);
    match code_from_str(&parts[n_mods]) {
        Some(code) => Ok(ShortcutSpec { alt, shift, control, super_key, code }),
        None => {
            proof {
                assert(is_valid_key(sp.last()));
                assert(parts@[n_mods as int]@ == sp.last());
                assert(false);
            }
            let mut msg = String::from_str("Unsupported key '");
            msg.append(s);
            msg.append("'");
            Err(msg)
        },
    }
}

proof fn lemma_split_parts_nonempty(s: Seq<char>)
    requires
        spec_validate_shortcut(s) is Ok,
    ensures
        shortcut_parts(s).len() >= 2,
{
}

} // verus!
