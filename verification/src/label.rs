//! Labels of surfaces: the character class they are restricted to, and how a
//! caller-supplied label is made safe.

use crate::text::{append_decimal, decimal, lemma_decimal_shape, push_char};
use vstd::prelude::*;

verus! {

/// The label a game surface gets when the caller asks for none that is usable.
pub const DEFAULT_GAME_LABEL: &'static str = "game-webview";

/// The characters a label may hold: ASCII letters, ASCII digits, `-` and `_`.
pub open spec fn is_label_char(c: char) -> bool {
    ||| 'a' <= c <= 'z'
    ||| 'A' <= c <= 'Z'
    ||| '0' <= c <= '9'
    ||| c == '-'
    ||| c == '_'
}

/// A text made of label characters only.
pub open spec fn is_label_text(s: Seq<char>) -> bool {
    forall|i: int| 0 <= i < s.len() ==> is_label_char(#[trigger] s[i])
}

/// A label: not empty, and made of label characters only.
pub open spec fn is_label(s: Seq<char>) -> bool {
    s.len() > 0 && is_label_text(s)
}

/// What a single character becomes when a label is made safe.
pub open spec fn sanitized_char(c: char) -> char {
    if is_label_char(c) {
        c
    } else {
        '-'
    }
}

/// A raw label made safe: every character outside the label class becomes `-`;
/// length and order are kept.
pub open spec fn sanitized(raw: Seq<char>) -> Seq<char> {
    Seq::new(raw.len(), |i: int| sanitized_char(raw[i]))
}

/// Tells whether `c` belongs to the label class.
pub fn is_label_character(c: char) -> (r: bool)
    ensures
        r == is_label_char(c),
{
    ('a' <= c && c <= 'z') || ('A' <= c && c <= 'Z') || ('0' <= c && c <= '9') || c == '-'
        || c == '_'
}

/// Replaces every character of `raw` that a label may not hold by `-`.
pub fn sanitize_label(raw: &str) -> (label: String)
    ensures
        label@ == sanitized(raw@),
        label@.len() == raw@.len(),
        is_label_text(label@),
{
    let mut label = String::new();
    for c in it: raw.chars()
        invariant
            it.seq() == raw@,
            label@ == sanitized(raw@.take(it.index())),
    {
        let safe = if is_label_character(c) { c } else { '-' };
        push_char(&mut label, safe);
        assert(label@ =~= sanitized(raw@.take(it.index() + 1)));
    }
    assert(raw@.take(raw@.len() as int) =~= raw@);
    label
}

/// What the caller asked for, as a plain text.
pub open spec fn requested_text(requested: Option<&str>) -> Option<Seq<char>> {
    match requested {
        Some(raw) => Some(raw@),
        None => None,
    }
}

/// The label a game surface is first looked up under: the requested label made
/// safe, or the default where none was requested or nothing of it is left.
pub open spec fn base_label_of(requested: Option<Seq<char>>) -> Seq<char> {
    match requested {
        Some(raw) => if sanitized(raw).len() > 0 {
            sanitized(raw)
        } else {
            DEFAULT_GAME_LABEL@
        },
        None => DEFAULT_GAME_LABEL@,
    }
}

/// `base`, a hyphen, and the decimal numeral of `token`.
pub open spec fn disambiguated(base: Seq<char>, token: nat) -> Seq<char> {
    base + seq!['-'] + decimal(token)
}

/// The label a surface is created under: `base` where no live surface carries
/// it, else `base` with the disambiguator appended.
pub open spec fn resolved_label(base: Seq<char>, in_use: bool, token: nat) -> Seq<char> {
    if in_use {
        disambiguated(base, token)
    } else {
        base
    }
}

/// The default label is a label.
pub proof fn lemma_default_is_label()
    ensures
        is_label(DEFAULT_GAME_LABEL@),
{
    reveal_strlit("game-webview");
}

/// Making a label safe leaves label characters only.
pub proof fn lemma_sanitized_is_label_text(raw: Seq<char>)
    ensures
        sanitized(raw).len() == raw.len(),
        is_label_text(sanitized(raw)),
{
}

/// Making a label safe twice changes nothing more: the first pass left only
/// characters that the second one keeps.
pub proof fn lemma_sanitize_idempotent(raw: Seq<char>)
    ensures
        sanitized(sanitized(raw)) == sanitized(raw),
{
    assert(sanitized(sanitized(raw)) =~= sanitized(raw));
}

/// A text that is already made of label characters is left as it is.
pub proof fn lemma_sanitize_keeps_label_text(raw: Seq<char>)
    requires
        is_label_text(raw),
    ensures
        sanitized(raw) == raw,
{
    assert(sanitized(raw) =~= raw);
}

/// Whatever was requested, the base label is a label.
pub proof fn lemma_base_label_is_label(requested: Option<Seq<char>>)
    ensures
        is_label(base_label_of(requested)),
{
    lemma_default_is_label();
}

/// Where no label was requested, or nothing of the request is left once it is
/// made safe, the surface gets the default label, provided that label is free.
pub proof fn lemma_default_label_when_free(requested: Option<Seq<char>>, token: nat)
    requires
        requested matches Some(raw) ==> sanitized(raw).len() == 0,
    ensures
        resolved_label(base_label_of(requested), false, token) == DEFAULT_GAME_LABEL@,
{
}

/// Where the base label is in use, the surface gets another label, which
/// starts with the base label and a hyphen.
pub proof fn lemma_busy_label_is_distinct(base: Seq<char>, token: nat)
    ensures
        resolved_label(base, true, token) != base,
        (base + seq!['-']).is_prefix_of(resolved_label(base, true, token)),
        resolved_label(base, true, token).len() >= base.len() + 2,
{
    lemma_decimal_shape(token);
    let label = resolved_label(base, true, token);
    assert(label.len() == base.len() + 1 + decimal(token).len());
    assert(label.subrange(0, (base + seq!['-']).len() as int) =~= base + seq!['-']);
}

/// A disambiguated label is a label where its base is made of label characters.
pub proof fn lemma_resolved_is_label(base: Seq<char>, in_use: bool, token: nat)
    requires
        is_label(base),
    ensures
        is_label(resolved_label(base, in_use, token)),
{
    lemma_decimal_shape(token);
    let label = resolved_label(base, in_use, token);
    if in_use {
        assert forall|i: int| 0 <= i < label.len() implies is_label_char(#[trigger] label[i]) by {
            if i < base.len() {
                assert(label[i] == base[i]);
            } else if i == base.len() {
                assert(label[i] == '-');
            } else {
                assert(label[i] == decimal(token)[i - base.len() - 1]);
            }
        }
    }
}

/// The label a game surface is first looked up under.
pub fn base_label(requested: Option<&str>) -> (base: String)
    ensures
        base@ == base_label_of(requested_text(requested)),
        is_label(base@),
{
    proof {
        lemma_base_label_is_label(requested_text(requested));
    }
    match requested {
        Some(raw) => {
            let safe = sanitize_label(raw);
            if safe.as_str().is_empty() {
                DEFAULT_GAME_LABEL.to_owned()
            } else {
                safe
            }
        },
        None => DEFAULT_GAME_LABEL.to_owned(),
    }
}

/// The label a surface is created under, once it is known whether a live
/// surface carries `base` already. `token` is the disambiguator, taken from a
/// clock or a counter; it is used only where `in_use` holds.
pub fn resolve_label(base: String, in_use: bool, token: u128) -> (label: String)
    ensures
        label@ == resolved_label(base@, in_use, token as nat),
        is_label(base@) ==> is_label(label@),
{
    proof {
        if is_label(base@) {
            lemma_resolved_is_label(base@, in_use, token as nat);
        }
    }
    if in_use {
        let mut label = base;
        push_char(&mut label, '-');
        append_decimal(&mut label, token);
        assert(label@ =~= disambiguated(base@, token as nat));
        label
    } else {
        base
    }
}

/// Allocates the label of a game surface: the base label for `requested`
/// where `is_in_use` says that it is free, else the base label with `token`
/// appended. `is_in_use` is asked once, about the base label; the
/// disambiguated label is not looked up again.
pub fn allocate<F: Fn(&str) -> bool>(requested: Option<&str>, is_in_use: F, token: u128) -> (label:
    String)
    requires
        forall|probe: &str| call_requires(is_in_use, (probe,)),
    ensures
        is_label(label@),
        exists|probe: &str, in_use: bool|
            {
                &&& probe@ == base_label_of(requested_text(requested))
                &&& #[trigger] call_ensures(is_in_use, (probe,), in_use)
                &&& label@ == resolved_label(probe@, in_use, token as nat)
            },
{
    let base = base_label(requested);
    let in_use = is_in_use(base.as_str());
    resolve_label(base, in_use, token)
}

} // verus!
