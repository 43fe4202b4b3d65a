//! Checks on a shortcut string before it is registered as a global hotkey.
use vstd::prelude::*;
use vstd::string::*;
use crate::text::{same_text, trim_text, trimmed};

verus! {

/// What `str::to_lowercase` makes of a text.
pub uninterp spec fn lowercase_of(s: Seq<char>) -> Seq<char>;

/// Relies on `str::to_lowercase`: the result depends on the characters
/// alone.
#[verifier::external_body]
fn lowercase(s: &str) -> (r: String)
    ensures
        r@ == lowercase_of(s@),
{
    s.to_lowercase()
}

/// The pieces of `s` between `+` signs, in order; there is always at least
/// one, and each `+` adds one.
pub open spec fn split_plus(s: Seq<char>) -> Seq<Seq<char>>
    decreases s.len(),
{
    if s.len() == 0 {
        seq![Seq::<char>::empty()]
    } else {
        let rest = split_plus(s.drop_last());
        if s.last() == '+' {
            rest.push(Seq::<char>::empty())
        } else {
            rest.update(rest.len() - 1, rest.last().push(s.last()))
        }
    }
}

/// A key name as it is compared: trimmed, then lower-cased.
pub open spec fn normalized_key(p: Seq<char>) -> Seq<char> {
    lowercase_of(trimmed(p))
}

/// The modifier key names.
pub open spec fn is_modifier(p: Seq<char>) -> bool {
    p == "ctrl"@ || p == "control"@ || p == "shift"@ || p == "alt"@ || p == "option"@ || p
        == "meta"@ || p == "command"@ || p == "cmd"@ || p == "super"@ || p == "win"@ || p
        == "windows"@
}

/// Names of the function key, which global shortcuts cannot use.
pub open spec fn is_function_key(p: Seq<char>) -> bool {
    p == "fn"@ || p == "function"@
}

/// The verdict on a shortcut string: blank strings are refused first, then
/// any part naming the function key, then strings made of modifiers only.
pub open spec fn shortcut_verdict(raw: Seq<char>) -> Result<(), Seq<char>> {
    let parts = split_plus(raw);
    if trimmed(raw).len() == 0 {
        Err("Shortcut cannot be empty"@)
    } else if exists|i: int| 0 <= i < parts.len() && is_function_key(normalized_key(#[trigger] parts[i])) {
        Err("The 'fn' key is not supported by Tauri global shortcuts"@)
    } else if exists|i: int| 0 <= i < parts.len() && !is_modifier(normalized_key(#[trigger] parts[i])) {
        Ok(())
    } else {
        Err(
            "Tauri shortcuts must include a main key (letter, number, F-key, etc.) in addition to modifiers"@,
        )
    }
}

/// The normalized pieces of `raw` between `+` signs.
fn key_parts(raw: &str) -> (r: Vec<String>)
    ensures
        r@.len() == split_plus(raw@).len(),
        forall|k: int| 0 <= k < r@.len() ==> r@[k]@ == normalized_key(#[trigger] split_plus(raw@)[k]),
{
    let n = raw.unicode_len();
    let mut parts: Vec<String> = Vec::new();
    let mut start: usize = 0;
    let mut i: usize = 0;
    let ghost mut done: Seq<Seq<char>> = Seq::empty();
    assert(raw@.subrange(0, 0) =~= Seq::<char>::empty());
    assert(split_plus(raw@.subrange(0, 0)) =~= done.push(raw@.subrange(0, 0)));
    while i < n
        invariant
            n == raw@.len(),
            start <= i <= n,
            split_plus(raw@.subrange(0, i as int)) == done.push(raw@.subrange(start as int, i as int)),
            parts@.len() == done.len(),
            forall|k: int| 0 <= k < done.len() ==> parts@[k]@ == normalized_key(#[trigger] done[k]),
        decreases n - i,
    {
        let c = raw.get_char(i);
        let ghost prefix = raw@.subrange(0, i + 1);
        assert(prefix.drop_last() =~= raw@.subrange(0, i as int));
        assert(prefix.last() == c);
        if c == '+' {
            let piece = raw.substring_char(start, i);
            let key = lowercase(trim_text(piece));
            parts.push(key);
            proof {
                done = done.push(raw@.subrange(start as int, i as int));
            }
            start = i + 1;
            assert(raw@.subrange(start as int, i + 1) =~= Seq::<char>::empty());
        } else {
            assert(raw@.subrange(start as int, i + 1) =~= raw@.subrange(start as int, i as int).push(c));
            assert(done.push(raw@.subrange(start as int, i as int)).update(
                done.len() as int,
                raw@.subrange(start as int, i + 1),
            ) =~= done.push(raw@.subrange(start as int, i + 1)));
        }
        i = i + 1;
    }
    assert(raw@.subrange(0, n as int) =~= raw@);
    let piece = raw.substring_char(start, n);
    parts.push(lowercase(trim_text(piece)));
    proof {
        done = done.push(raw@.subrange(start as int, n as int));
    }
    parts
}

/// Whether a normalized key name is a modifier.
fn modifier_key(p: &str) -> (r: bool)
    ensures
        r == is_modifier(p@),
{
    same_text(p, "ctrl") || same_text(p, "control") || same_text(p, "shift") || same_text(p, "alt")
        || same_text(p, "option") || same_text(p, "meta") || same_text(p, "command") || same_text(
        p,
        "cmd",
    ) || same_text(p, "super") || same_text(p, "win") || same_text(p, "windows")
}

/// Checks that a shortcut string can be registered as a global shortcut: it
/// is not blank, names no function key, and has at least one key that is no
/// modifier. The error says which check failed.
pub fn validate_shortcut(raw: &str) -> (r: Result<(), String>)
    ensures
        r is Ok <==> shortcut_verdict(raw@) is Ok,
        r matches Err(m) ==> shortcut_verdict(raw@) == Err::<(), Seq<char>>(m@),
{
    if trim_text(raw).unicode_len() == 0 {
        return Err(String::from_str("Shortcut cannot be empty"));
    }
    let parts = key_parts(raw);
    let ghost pieces = split_plus(raw@);
    let n = parts.len();
    let mut i: usize = 0;
    while i < n
        invariant
            n == parts@.len(),
            n == pieces.len(),
            pieces == split_plus(raw@),
            trimmed(raw@).len() != 0,
            forall|k: int| 0 <= k < n ==> parts@[k]@ == normalized_key(#[trigger] pieces[k]),
            i <= n,
            forall|k: int| 0 <= k < i ==> !is_function_key(normalized_key(#[trigger] pieces[k])),
        decreases n - i,
    {
        let p = parts[i].as_str();
        assert(parts@[i as int]@ == normalized_key(pieces[i as int]));
        if same_text(p, "fn") || same_text(p, "function") {
            assert(is_function_key(normalized_key(pieces[i as int])));
            return Err(String::from_str("The 'fn' key is not supported by Tauri global shortcuts"));
        }
        i = i + 1;
    }
    let mut j: usize = 0;
    while j < n
        invariant
            n == parts@.len(),
            n == pieces.len(),
            pieces == split_plus(raw@),
            trimmed(raw@).len() != 0,
            forall|k: int| 0 <= k < n ==> parts@[k]@ == normalized_key(#[trigger] pieces[k]),
            forall|k: int| 0 <= k < n ==> !is_function_key(normalized_key(#[trigger] pieces[k])),
            j <= n,
            forall|k: int| 0 <= k < j ==> is_modifier(normalized_key(#[trigger] pieces[k])),
        decreases n - j,
    {
        assert(parts@[j as int]@ == normalized_key(pieces[j as int]));
        if !modifier_key(parts[j].as_str()) {
            assert(!is_modifier(normalized_key(pieces[j as int])));
            return Ok(());
        }
        j = j + 1;
    }
    Err(
        String::from_str(
            "Tauri shortcuts must include a main key (letter, number, F-key, etc.) in addition to modifiers",
        ),
    )
}

/// Whether a binding's shortcut is registered when the application starts:
/// the cancel shortcut is registered only while recording, and the
/// post-processing shortcut only when post-processing is enabled.
pub fn registered_at_startup(binding_id: &str, post_process_enabled: bool) -> (r: bool)
    ensures
        r == !(binding_id@ == "cancel"@ || (binding_id@ == "transcribe_with_post_process"@
            && !post_process_enabled)),
{
    if same_text(binding_id, "cancel") {
        return false;
    }
    !(same_text(binding_id, "transcribe_with_post_process") && !post_process_enabled)
}

} // verus!
