//! Keyboard shortcuts written as text, such as `ctrl+shift+u`.
use vstd::prelude::*;
use vstd::utf8::is_ascii_chars;

use global_hotkey::hotkey::{Code, HotKey, Modifiers};

use crate::config::{Config, ConfigView};
use crate::text::{
    ascii_lower, ascii_lowered, chars_of, lemma_split_join, lowercase, same_text, split, split_on,
    texts,
};

verus! {

/// The type of a shortcut that the system knows.
#[verifier::external_type_specification]
#[verifier::external_body]
pub struct ExHotKey(HotKey);

/// The type of a key that the system knows.
#[verifier::external_type_specification]
#[verifier::external_body]
pub struct ExCode(Code);

/// The key of a shortcut.
#[derive(Debug, Clone, Copy, PartialEq, Eq, Structural)]
pub enum Key {
    /// One of the letters `a` to `z`.
    Letter(char),
    /// One of the function keys, from 1 to 6.
    Function(u8),
}

/// A key and the modifiers to hold with it.
#[derive(Debug, Clone, Copy, PartialEq, Eq, Structural)]
pub struct Shortcut {
    pub control: bool,
    pub shift: bool,
    pub alt: bool,
    pub command: bool,
    pub key: Key,
}

/// The key of that name, in lower case.
pub open spec fn key_named(name: Seq<char>) -> Option<Key> {
    if name.len() == 1 && 'a' <= name[0] <= 'z' {
        Some(Key::Letter(name[0]))
    } else if name.len() == 2 && name[0] == 'f' && '1' <= name[1] <= '6' {
        Some(Key::Function((name[1] as int - '0' as int) as u8))
    } else {
        None
    }
}

/// A name of the control key.
pub open spec fn names_control(name: Seq<char>) -> bool {
    name == "ctrl"@ || name == "control"@
}

/// A name of the shift key.
pub open spec fn names_shift(name: Seq<char>) -> bool {
    name == "shift"@
}

/// A name of the alt key.
pub open spec fn names_alt(name: Seq<char>) -> bool {
    name == "alt"@ || name == "option"@
}

/// A name of the command key.
pub open spec fn names_command(name: Seq<char>) -> bool {
    name == "super"@ || name == "meta"@ || name == "cmd"@ || name == "command"@
}

/// The shortcut that its parts, in lower case, stand for: the last names the key,
/// the others name modifiers, and a word that names none is passed over.
pub open spec fn shortcut_of(parts: Seq<Seq<char>>) -> Option<Shortcut> {
    if parts.len() == 0 {
        None
    } else {
        let mods = parts.drop_last();
        match key_named(parts.last()) {
            Some(key) => Some(
                Shortcut {
                    control: exists|i: int| 0 <= i < mods.len() && names_control(#[trigger] mods[i]),
                    shift: exists|i: int| 0 <= i < mods.len() && names_shift(#[trigger] mods[i]),
                    alt: exists|i: int| 0 <= i < mods.len() && names_alt(#[trigger] mods[i]),
                    command: exists|i: int| 0 <= i < mods.len() && names_command(#[trigger] mods[i]),
                    key,
                },
            ),
            None => None,
        }
    }
}

/// The parts in lower case.
pub open spec fn lowered(parts: Seq<Seq<char>>) -> Seq<Seq<char>> {
    Seq::new(parts.len(), |i: int| lowercase(parts[i]))
}

/// The shortcut that a text of ASCII characters stands for.
pub open spec fn ascii_shortcut(s: Seq<char>) -> Option<Shortcut> {
    shortcut_of(split_on(ascii_lowered(s), '+'))
}

/// Reads the name of a key.
fn key_from_name(name: &str) -> (r: Option<Key>)
    ensures
        r == key_named(name@),
{
    let v = chars_of(name);
    if v.len() == 1 && 'a' <= v[0] && v[0] <= 'z' {
        Some(Key::Letter(v[0]))
    } else if v.len() == 2 && v[0] == 'f' && '1' <= v[1] && v[1] <= '6' {
        let n: u8 = v[1] as u8;
        Some(Key::Function(n - 48))
    } else {
        None
    }
}

/// Reads a shortcut from its parts in lower case.
pub fn shortcut_from_parts(parts: &Vec<String>) -> (r: Option<Shortcut>)
    ensures
        r == shortcut_of(texts(parts@)),
{
    if parts.len() == 0 {
        return None;
    }
    let last: usize = parts.len() - 1;
    let ghost mods = texts(parts@).drop_last();
    assert(texts(parts@).last() == parts@[last as int]@);
    let key = match key_from_name(parts[last].as_str()) {
        Some(k) => k,
        None => {
            return None;
        },
    };
    let mut control = false;
    let mut shift = false;
    let mut alt = false;
    let mut command = false;
    let mut i: usize = 0;
    while i < last
        invariant
            i <= last,
            last == parts.len() - 1,
            mods == texts(parts@).drop_last(),
            control == exists|k: int| 0 <= k < i && names_control(#[trigger] mods[k]),
            shift == exists|k: int| 0 <= k < i && names_shift(#[trigger] mods[k]),
            alt == exists|k: int| 0 <= k < i && names_alt(#[trigger] mods[k]),
            command == exists|k: int| 0 <= k < i && names_command(#[trigger] mods[k]),
        decreases last - i,
    {
        let part = parts[i].as_str();
        assert(mods[i as int] == part@);
        proof {
            reveal_strlit("ctrl");
            reveal_strlit("control");
            reveal_strlit("shift");
            reveal_strlit("alt");
            reveal_strlit("option");
            reveal_strlit("super");
            reveal_strlit("meta");
            reveal_strlit("cmd");
            reveal_strlit("command");
        }
        if same_text(part, "ctrl") || same_text(part, "control") {
            control = true;
            assert(names_control(mods[i as int]));
        }
        if same_text(part, "shift") {
            shift = true;
            assert(names_shift(mods[i as int]));
        }
        if same_text(part, "alt") || same_text(part, "option") {
            alt = true;
            assert(names_alt(mods[i as int]));
        }
        if same_text(part, "super") || same_text(part, "meta") || same_text(part, "cmd")
            || same_text(part, "command") {
            command = true;
            assert(names_command(mods[i as int]));
        }
        i += 1;
    }
    Some(Shortcut { control, shift, alt, command, key })
}

/// Lower case passes into the pieces: splitting a text in lower case is splitting
/// it first and taking each piece in lower case.
proof fn lemma_split_lowered(s: Seq<char>)
    ensures
        split_on(ascii_lowered(s), '+') =~= Seq::new(
            split_on(s, '+').len(),
            |i: int| ascii_lowered(split_on(s, '+')[i]),
        ),
    decreases s.len(),
{
    let low = ascii_lowered(s);
    if s.len() == 0 {
        assert(low =~= s);
        assert(ascii_lowered(Seq::empty()) =~= Seq::<char>::empty());
    } else {
        let head = s.drop_last();
        lemma_split_lowered(head);
        lemma_split_join(head, '+');
        assert(low.drop_last() =~= ascii_lowered(head));
        assert(low.last() == ascii_lower(s.last()));
        assert((ascii_lower(s.last()) == '+') == (s.last() == '+'));
        let before = split_on(head, '+');
        if s.last() == '+' {
            assert(ascii_lowered(Seq::empty()) =~= Seq::<char>::empty());
        } else {
            let piece = before.last();
            assert(ascii_lowered(piece.push(s.last())) =~= ascii_lowered(piece).push(
                ascii_lower(s.last()),
            ));
        }
    }
}

/// Every piece of a text of ASCII characters is one.
proof fn lemma_split_ascii(s: Seq<char>)
    requires
        is_ascii_chars(s),
    ensures
        forall|i: int|
            0 <= i < split_on(s, '+').len() ==> is_ascii_chars(#[trigger] split_on(s, '+')[i]),
    decreases s.len(),
{
    if s.len() > 0 {
        let head = s.drop_last();
        assert forall|i: int| 0 <= i < head.len() implies 0 <= #[trigger] head[i] < 128 by {
            assert(head[i] == s[i]);
        }
        lemma_split_ascii(head);
        lemma_split_join(head, '+');
        let before = split_on(head, '+');
        assert(s.last() == s[s.len() - 1]);
        let piece = before[before.len() - 1];
        assert(is_ascii_chars(piece));
        assert(is_ascii_chars(piece.push(s.last())));
    }
}

/// Reads a shortcut: modifiers and a key with plus signs between them, in upper or
/// lower case. There is none where the last word names no key.
pub fn parse_shortcut(s: &str) -> (r: Option<Shortcut>)
    ensures
        r == shortcut_of(lowered(split_on(s@, '+'))),
        is_ascii_chars(s@) ==> r == ascii_shortcut(s@),
{
    let parts = split(s, '+');
    let ghost pieces = split_on(s@, '+');
    let mut low: Vec<String> = Vec::new();
    let mut i: usize = 0;
    proof {
        if is_ascii_chars(s@) {
            lemma_split_ascii(s@);
        }
    }
    while i < parts.len()
        invariant
            i <= parts.len(),
            low.len() == i,
            pieces == texts(parts@),
            is_ascii_chars(s@) ==> forall|k: int|
                0 <= k < pieces.len() ==> is_ascii_chars(#[trigger] pieces[k]),
            forall|k: int| 0 <= k < i ==> (#[trigger] low@[k])@ == lowercase(pieces[k]),
            is_ascii_chars(s@) ==> forall|k: int|
                0 <= k < i ==> (#[trigger] low@[k])@ == ascii_lowered(pieces[k]),
        decreases parts.len() - i,
    {
        assert(pieces[i as int] == parts@[i as int]@);
        low.push(parts[i].as_str().to_lowercase());
        i += 1;
    }
    assert(texts(low@) =~= lowered(pieces));
    proof {
        if is_ascii_chars(s@) {
            lemma_split_lowered(s@);
            assert(texts(low@) =~= split_on(ascii_lowered(s@), '+'));
        }
    }
    shortcut_from_parts(&low)
}

/// What the system calls a key: `Key` and the letter in upper case, or `F` and the
/// number.
pub open spec fn code_name(key: Key) -> Seq<char> {
    match key {
        Key::Letter(c) => seq!['K', 'e', 'y', (c as int - 32) as char],
        Key::Function(n) => seq!['F', (n + '0' as int) as char],
    }
}

/// Whether a text is what the system calls a letter or one of the first six function
/// keys.
pub open spec fn is_code_name(name: Seq<char>) -> bool {
    ||| name.len() == 4 && name[0] == 'K' && name[1] == 'e' && name[2] == 'y' && 'A' <= name[3]
        <= 'Z'
    ||| name.len() == 2 && name[0] == 'F' && '1' <= name[1] <= '6'
}

/// Writes what the system calls a key.
fn code_text(key: Key) -> (r: String)
    requires
        match key {
            Key::Letter(c) => 'a' <= c <= 'z',
            Key::Function(n) => 1 <= n <= 6,
        },
    ensures
        r@ == code_name(key),
        is_code_name(r@),
{
    let mut r = String::new();
    match key {
        Key::Letter(c) => {
            r.push('K');
            r.push('e');
            r.push('y');
            let upper: u8 = c as u8 - 32;
            r.push(upper as char);
        },
        Key::Function(n) => {
            r.push('F');
            let digit: u8 = n + 48;
            r.push(digit as char);
        },
    }
    assert(r@ =~= code_name(key));
    r
}

/// The key that the system calls by this name, if there is one.
pub uninterp spec fn code_named(name: Seq<char>) -> Option<Code>;

/// Looks up a key by the name that the system has for it, by `keyboard_types`'s
/// `Code::from_str`. What it finds depends on the name alone, and it finds a key for
/// each of the names of letters and of the first six function keys.
#[verifier::external_body]
fn find_code(name: &str) -> (r: Option<Code>)
    ensures
        r == code_named(name@),
        is_code_name(name@) ==> r is Some,
{
    name.parse().ok()
}

/// The shortcut made of these modifiers and this key, as the system knows it.
pub uninterp spec fn system_hotkey(
    control: bool,
    shift: bool,
    alt: bool,
    command: bool,
    code: Code,
) -> HotKey;

/// Makes a shortcut that the system knows, by `global_hotkey`'s `HotKey::new`. The
/// shortcut depends on the four modifiers and the key alone.
#[verifier::external_body]
fn new_hotkey(control: bool, shift: bool, alt: bool, command: bool, code: Code) -> (r: HotKey)
    ensures
        r == system_hotkey(control, shift, alt, command, code),
{
    let mut mods = Modifiers::empty();
    mods.set(Modifiers::CONTROL, control);
    mods.set(Modifiers::SHIFT, shift);
    mods.set(Modifiers::ALT, alt);
    mods.set(Modifiers::SUPER, command);
    HotKey::new(Some(mods), code)
}

/// The shortcut of the system that a shortcut stands for.
pub open spec fn hotkey_of(shortcut: Option<Shortcut>) -> Option<HotKey> {
    match shortcut {
        Some(s) => match code_named(code_name(s.key)) {
            Some(code) => Some(system_hotkey(s.control, s.shift, s.alt, s.command, code)),
            None => None,
        },
        None => None,
    }
}

/// Reads a shortcut as the system knows it. There is one exactly where the text names
/// a shortcut.
pub fn parse_hotkey(s: &str) -> (r: Option<HotKey>)
    ensures
        r == hotkey_of(shortcut_of(lowered(split_on(s@, '+')))),
        is_ascii_chars(s@) ==> r == hotkey_of(ascii_shortcut(s@)),
        is_ascii_chars(s@) ==> (r is Some <==> ascii_shortcut(s@) is Some),
        r is Some <==> shortcut_of(lowered(split_on(s@, '+'))) is Some,
{
    match parse_shortcut(s) {
        Some(shortcut) => match find_code(code_text(shortcut.key).as_str()) {
            Some(code) => Some(
                new_hotkey(
                    shortcut.control,
                    shortcut.shift,
                    shortcut.alt,
                    shortcut.command,
                    code,
                ),
            ),
            None => None,
        },
        None => None,
    }
}

/// The shortcut to register at the start: none where the setting is absent or empty.
pub open spec fn startup_shortcut(cfg: ConfigView) -> Option<Shortcut> {
    match cfg.hotkey {
        Some(s) => if s.len() == 0 {
            None
        } else {
            shortcut_of(lowered(split_on(s, '+')))
        },
        None => None,
    }
}

/// Reads the shortcut to register at the start.
pub fn startup_hotkey(cfg: &Config) -> (r: Option<HotKey>)
    ensures
        r == hotkey_of(startup_shortcut(cfg@)),
        r is Some <==> startup_shortcut(cfg@) is Some,
{
    match &cfg.hotkey {
        Some(s) => if s.as_str().is_empty() {
            None
        } else {
            parse_hotkey(s.as_str())
        },
        None => None,
    }
}

/// Texts that differ only in the case of their letters stand for the same shortcut.
pub proof fn lemma_case_does_not_matter(a: Seq<char>, b: Seq<char>)
    requires
        ascii_lowered(a) == ascii_lowered(b),
    ensures
        ascii_shortcut(a) == ascii_shortcut(b),
{
}

/// The order of the modifiers does not matter: parts with the same key whose
/// modifier words are the same ones, in any order and number, stand for the same
/// shortcut.
pub proof fn lemma_modifier_order_does_not_matter(
    a: Seq<Seq<char>>,
    b: Seq<Seq<char>>,
    key: Seq<char>,
)
    requires
        forall|w: Seq<char>| a.contains(w) <==> b.contains(w),
    ensures
        shortcut_of(a.push(key)) == shortcut_of(b.push(key)),
{
    assert(a.push(key).drop_last() =~= a);
    assert(b.push(key).drop_last() =~= b);
    lemma_words_match(a, b, |w: Seq<char>| names_control(w));
    lemma_words_match(a, b, |w: Seq<char>| names_shift(w));
    lemma_words_match(a, b, |w: Seq<char>| names_alt(w));
    lemma_words_match(a, b, |w: Seq<char>| names_command(w));
    if key_named(key) is Some {
        let x = shortcut_of(a.push(key))->0;
        let y = shortcut_of(b.push(key))->0;
        assert(x.control == y.control);
        assert(x.shift == y.shift);
        assert(x.alt == y.alt);
        assert(x.command == y.command);
    }
}

/// Some word of the one passes the test exactly where some word of the other does.
proof fn lemma_words_match(
    a: Seq<Seq<char>>,
    b: Seq<Seq<char>>,
    pred: spec_fn(Seq<char>) -> bool,
)
    requires
        forall|w: Seq<char>| a.contains(w) <==> b.contains(w),
    ensures
        (exists|i: int| 0 <= i < a.len() && pred(#[trigger] a[i])) == (exists|i: int|
            0 <= i < b.len() && pred(#[trigger] b[i])),
{
    if exists|i: int| 0 <= i < a.len() && pred(#[trigger] a[i]) {
        let i = choose|i: int| 0 <= i < a.len() && pred(#[trigger] a[i]);
        assert(a.contains(a[i]));
        let k = choose|k: int| 0 <= k < b.len() && b[k] == a[i];
        assert(pred(b[k]));
    }
    if exists|i: int| 0 <= i < b.len() && pred(#[trigger] b[i]) {
        let i = choose|i: int| 0 <= i < b.len() && pred(#[trigger] b[i]);
        assert(b.contains(b[i]));
        let k = choose|k: int| 0 <= k < a.len() && a[k] == b[i];
        assert(pred(a[k]));
    }
}

} // verus!
