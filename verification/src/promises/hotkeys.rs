//! Keyboard shortcuts.
use vstd::prelude::*;

use crate::config::ConfigView;
use crate::hotkey::{
    ascii_shortcut, code_name, code_named, hotkey_of, lowered, names_alt, names_command,
    names_control, names_shift, shortcut_of, startup_shortcut, system_hotkey, Key, Shortcut,
};
use crate::text::{ascii_lowered, lowercase, split_on};

verus! {

/// The last word names the key: a letter by itself, and a function key from the first to
/// the sixth by `f` and its number. Nothing else names a key.
pub proof fn lemma_last_word_is_the_key(words: Seq<Seq<char>>, last: Seq<char>)
    ensures
        ({
            let r = shortcut_of(words.push(last));
            &&& last.len() == 1 && 'a' <= last[0] <= 'z' ==> (r matches Some(s) && s.key
                == Key::Letter(last[0]))
            &&& last.len() == 2 && last[0] == 'f' && last[1] == '1' ==> (r matches Some(s) && s.key
                == Key::Function(1))
            &&& last.len() == 2 && last[0] == 'f' && last[1] == '2' ==> (r matches Some(s) && s.key
                == Key::Function(2))
            &&& last.len() == 2 && last[0] == 'f' && last[1] == '3' ==> (r matches Some(s) && s.key
                == Key::Function(3))
            &&& last.len() == 2 && last[0] == 'f' && last[1] == '4' ==> (r matches Some(s) && s.key
                == Key::Function(4))
            &&& last.len() == 2 && last[0] == 'f' && last[1] == '5' ==> (r matches Some(s) && s.key
                == Key::Function(5))
            &&& last.len() == 2 && last[0] == 'f' && last[1] == '6' ==> (r matches Some(s) && s.key
                == Key::Function(6))
            &&& r is Some ==> (last.len() == 1 && 'a' <= last[0] <= 'z') || (last.len() == 2
                && last[0] == 'f' && '1' <= last[1] <= '6')
        }),
        shortcut_of(Seq::empty()) is None,
{
    assert(words.push(last).last() == last);
}

/// Each modifier is held exactly where some word before the last is one of its names,
/// whatever the other words are and whatever the key is.
pub proof fn lemma_when_a_modifier_is_held(words: Seq<Seq<char>>, last: Seq<char>)
    ensures
        shortcut_of(words.push(last)) matches Some(s) ==> {
            &&& s.control <==> words.contains("ctrl"@) || words.contains("control"@)
            &&& s.shift <==> words.contains("shift"@)
            &&& s.alt <==> words.contains("alt"@) || words.contains("option"@)
            &&& s.command <==> words.contains("super"@) || words.contains("meta"@)
                || words.contains("cmd"@) || words.contains("command"@)
        },
{
    let parts = words.push(last);
    assert(parts.last() == last);
    assert(parts.drop_last() =~= words);
    if let Some(s) = shortcut_of(parts) {
        let c = seq!["ctrl"@, "control"@];
        assert(c[0] == "ctrl"@ && c[1] == "control"@);
        let t = seq!["shift"@];
        assert(t[0] == "shift"@);
        let a = seq!["alt"@, "option"@];
        assert(a[0] == "alt"@ && a[1] == "option"@);
        let m = seq!["super"@, "meta"@, "cmd"@, "command"@];
        assert(m[0] == "super"@ && m[1] == "meta"@ && m[2] == "cmd"@ && m[3] == "command"@);
        lemma_held(words, |w: Seq<char>| names_control(w), c);
        lemma_held(words, |w: Seq<char>| names_shift(w), t);
        lemma_held(words, |w: Seq<char>| names_alt(w), a);
        lemma_held(words, |w: Seq<char>| names_command(w), m);
    }
}

/// Some word passes a test exactly where one of the words that pass it is there.
proof fn lemma_held(
    words: Seq<Seq<char>>,
    pred: spec_fn(Seq<char>) -> bool,
    names: Seq<Seq<char>>,
)
    requires
        forall|w: Seq<char>| #[trigger] pred(w) <==> exists|k: int|
            0 <= k < names.len() && w == #[trigger] names[k],
    ensures
        (exists|i: int| 0 <= i < words.len() && pred(#[trigger] words[i])) <==> exists|k: int|
            0 <= k < names.len() && words.contains(#[trigger] names[k]),
{
    if exists|i: int| 0 <= i < words.len() && pred(#[trigger] words[i]) {
        let i = choose|i: int| 0 <= i < words.len() && pred(#[trigger] words[i]);
        let k = choose|k: int| 0 <= k < names.len() && words[i] == #[trigger] names[k];
        assert(words.contains(names[k]));
    }
    if exists|k: int| 0 <= k < names.len() && words.contains(#[trigger] names[k]) {
        let k = choose|k: int| 0 <= k < names.len() && words.contains(#[trigger] names[k]);
        let i = choose|i: int| 0 <= i < words.len() && words[i] == names[k];
        assert(pred(names[k]));
        assert(pred(words[i]));
    }
}

/// A word more in front takes no modifier away and leaves the key as it is; what it adds
/// is the modifier that it names, and no other.
pub proof fn lemma_word_more(word: Seq<char>, words: Seq<Seq<char>>, last: Seq<char>)
    ensures
        ({
            let before = shortcut_of(words.push(last));
            let after = shortcut_of((seq![word] + words).push(last));
            &&& before is Some <==> after is Some
            &&& before is Some ==> {
                &&& after->0.key == before->0.key
                &&& after->0.control <==> before->0.control || word == "ctrl"@ || word == "control"@
                &&& after->0.shift <==> before->0.shift || word == "shift"@
                &&& after->0.alt <==> before->0.alt || word == "alt"@ || word == "option"@
                &&& after->0.command <==> before->0.command || word == "super"@ || word == "meta"@
                    || word == "cmd"@ || word == "command"@
            }
        }),
{
    let more = seq![word] + words;
    assert(words.push(last).last() == last);
    assert(more.push(last).last() == last);
    lemma_when_a_modifier_is_held(words, last);
    lemma_when_a_modifier_is_held(more, last);
    assert forall|w: Seq<char>| #[trigger] more.contains(w) <==> words.contains(w) || w == word by {
        if words.contains(w) {
            let i = choose|i: int| 0 <= i < words.len() && words[i] == w;
            assert(more[i + 1] == w);
        }
        assert(more[0] == word);
        if more.contains(w) && w != word {
            let i = choose|i: int| 0 <= i < more.len() && more[i] == w;
            assert(words[i - 1] == w);
        }
    }
}

/// Each part is taken in lower case by itself, and a text of ASCII characters is split
/// at its plus signs after its letters are taken in lower case.
pub proof fn lemma_parts_in_lower_case(parts: Seq<Seq<char>>, i: int, s: Seq<char>)
    requires
        0 <= i < parts.len(),
    ensures
        lowered(parts).len() == parts.len(),
        lowered(parts)[i] == lowercase(parts[i]),
        ascii_shortcut(s) == shortcut_of(split_on(ascii_lowered(s), '+')),
{
}

/// The system gets the key by its own name for it, `Key` and the capital letter or `F`
/// and the number, and each modifier just where the shortcut has it.
pub proof fn lemma_what_the_system_gets(s: Shortcut)
    ensures
        hotkey_of(None) is None,
        ({
            let name = match s.key {
                Key::Letter(c) => seq!['K', 'e', 'y', (c as int - 32) as char],
                Key::Function(n) => seq!['F', (n + 48) as char],
            };
            match code_named(name) {
                Some(code) => hotkey_of(Some(s)) == Some(
                    system_hotkey(s.control, s.shift, s.alt, s.command, code),
                ),
                None => hotkey_of(Some(s)) is None,
            }
        }),
{
    match s.key {
        Key::Letter(c) => {
            assert(code_name(s.key) =~= seq!['K', 'e', 'y', (c as int - 32) as char]);
        },
        Key::Function(n) => {
            assert(code_name(s.key) =~= seq!['F', (n + 48) as char]);
        },
    }
}

/// At the start the setting is read as any other shortcut is; an absent or empty one
/// registers nothing.
pub proof fn lemma_shortcut_at_start(cfg: ConfigView, s: Seq<char>)
    ensures
        cfg.hotkey is None ==> startup_shortcut(cfg) is None,
        cfg.hotkey == Some(Seq::<char>::empty()) ==> startup_shortcut(cfg) is None,
        cfg.hotkey == Some(s) && s.len() > 0 ==> startup_shortcut(cfg) == shortcut_of(
            lowered(split_on(s, '+')),
        ),
{
}

} // verus!
