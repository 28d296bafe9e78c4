//! Texts and numbers.
use vstd::prelude::*;

use crate::digits::{after_plus, all_digits, decimal, digits_value, hex16, is_digit, parsed_usize};
use crate::text::{
    ascii_lowered, begins_with, join_with, lemma_split_append, lemma_split_single, split_on, texts,
    trim_end, trim_start, trimmed, white_space,
};

verus! {

/// Trimming in front drops white space and nothing else, and all of it.
proof fn lemma_trim_start(s: Seq<char>) -> (a: int)
    ensures
        0 <= a <= s.len(),
        trim_start(s) == s.skip(a),
        forall|k: int| 0 <= k < a ==> white_space(#[trigger] s[k]),
        a < s.len() ==> !white_space(s[a]),
    decreases s.len(),
{
    if s.len() > 0 && white_space(s[0]) {
        let rest = s.drop_first();
        let b = lemma_trim_start(rest);
        assert forall|k: int| 0 <= k < b + 1 implies white_space(#[trigger] s[k]) by {
            if k > 0 {
                assert(rest[k - 1] == s[k]);
            }
        }
        assert(rest.skip(b) =~= s.skip(b + 1));
        b + 1
    } else {
        assert(s.skip(0) =~= s);
        0
    }
}

/// Trimming behind drops white space and nothing else, and all of it.
proof fn lemma_trim_end(s: Seq<char>) -> (b: int)
    ensures
        0 <= b <= s.len(),
        trim_end(s) == s.take(b),
        forall|k: int| b <= k < s.len() ==> white_space(#[trigger] s[k]),
        b > 0 ==> !white_space(s[b - 1]),
    decreases s.len(),
{
    if s.len() > 0 && white_space(s.last()) {
        let rest = s.drop_last();
        let b = lemma_trim_end(rest);
        assert forall|k: int| b <= k < s.len() implies white_space(#[trigger] s[k]) by {
            if k < rest.len() {
                assert(rest[k] == s[k]);
            }
        }
        assert(rest.take(b) =~= s.take(b));
        b
    } else {
        assert(s.take(s.len() as int) =~= s);
        s.len() as int
    }
}

/// A trimmed text is a part of the text: only white space stands around that part, and
/// the part itself neither begins nor ends with white space.
pub proof fn lemma_trimmed_part(s: Seq<char>)
    ensures
        exists|a: int, b: int|
            0 <= a <= b <= s.len() && trimmed(s) == #[trigger] s.subrange(a, b) && (forall|k: int|
                0 <= k < a ==> white_space(#[trigger] s[k])) && (forall|k: int|
                b <= k < s.len() ==> white_space(#[trigger] s[k])),
        trimmed(s).len() > 0 ==> !white_space(trimmed(s)[0]) && !white_space(trimmed(s).last()),
{
    let a = lemma_trim_start(s);
    let rest = s.skip(a);
    let n = lemma_trim_end(rest);
    let b = a + n;
    assert(rest.take(n) =~= s.subrange(a, b));
    assert forall|k: int| b <= k < s.len() implies white_space(#[trigger] s[k]) by {
        assert(rest[k - a] == s[k]);
    }
    assert(trimmed(s) == s.subrange(a, b));
    if n > 0 {
        assert(trimmed(s).last() == rest[n - 1]);
        assert(trimmed(s)[0] == s[a]);
    }
}

/// White space around a text does not matter: a text that neither begins nor ends with
/// white space is what is left of it with any white space in front and behind.
pub proof fn lemma_trimmed_core(front: Seq<char>, core: Seq<char>, back: Seq<char>)
    requires
        forall|k: int| 0 <= k < front.len() ==> white_space(#[trigger] front[k]),
        forall|k: int| 0 <= k < back.len() ==> white_space(#[trigger] back[k]),
        core.len() > 0 ==> !white_space(core[0]) && !white_space(core.last()),
    ensures
        trimmed(front + core + back) == core,
{
    let s = front + core + back;
    let f = front.len() as int;
    let c = core.len() as int;
    assert forall|k: int| 0 <= k < f implies white_space(#[trigger] s[k]) by {
        assert(s[k] == front[k]);
    }
    assert forall|k: int| f + c <= k < s.len() implies white_space(#[trigger] s[k]) by {
        assert(s[k] == back[k - f - c]);
    }
    let a = lemma_trim_start(s);
    let rest = s.skip(a);
    let n = lemma_trim_end(rest);
    if c > 0 {
        assert(s[f] == core[0]);
        assert(s[f + c - 1] == core.last());
        assert(a == f);
        assert(rest[c - 1] == s[f + c - 1]);
        if n > c {
            assert(rest[n - 1] == s[a + n - 1]);
        }
        assert(n == c);
        assert(rest.take(n) =~= core);
    } else {
        if a < s.len() {
            assert(white_space(s[a]));
        }
        assert(rest.take(n) =~= core);
    }
}

/// A text begins with another exactly where it is that one and something behind it.
pub proof fn lemma_beginning(s: Seq<char>, prefix: Seq<char>)
    ensures
        begins_with(s, prefix) <==> exists|rest: Seq<char>| s == #[trigger] (prefix + rest),
{
    if begins_with(s, prefix) {
        let rest = s.skip(prefix.len() as int);
        assert(s =~= prefix + rest) by {
            assert forall|k: int| 0 <= k < s.len() implies s[k] == (prefix + rest)[k] by {
                if k < prefix.len() {
                    assert(s.take(prefix.len() as int)[k] == s[k]);
                }
            }
        }
    }
    if exists|rest: Seq<char>| s == #[trigger] (prefix + rest) {
        let rest = choose|rest: Seq<char>| s == #[trigger] (prefix + rest);
        assert(s.take(prefix.len() as int) =~= prefix);
    }
}

/// Joining puts one separator between two pieces and none elsewhere.
pub proof fn lemma_joined_pieces(pieces: Seq<Seq<char>>, piece: Seq<char>, sep: char)
    ensures
        join_with(seq![piece], sep) == piece,
        pieces.len() > 0 ==> join_with(pieces.push(piece), sep) == join_with(pieces, sep) + seq![
            sep,
        ] + piece,
{
    if pieces.len() > 0 {
        assert(pieces.push(piece).drop_last() =~= pieces);
        assert(join_with(pieces, sep).push(sep) + piece =~= join_with(pieces, sep) + seq![sep]
            + piece);
    }
}

/// Lower case changes the letters `A` to `Z` to the ones 32 places on, and no other.
pub proof fn lemma_lower_case(s: Seq<char>, i: int)
    requires
        0 <= i < s.len(),
    ensures
        ascii_lowered(s).len() == s.len(),
        65 <= s[i] as u32 <= 90 ==> ascii_lowered(s)[i] as u32 == s[i] as u32 + 32,
        !(65 <= s[i] as u32 <= 90) ==> ascii_lowered(s)[i] == s[i],
{
}

/// The texts of strings are those of each, in their order.
pub proof fn lemma_texts_of_strings(v: Seq<String>, i: int)
    requires
        0 <= i < v.len(),
    ensures
        texts(v).len() == v.len(),
        texts(v)[i] == v[i]@,
{
}

/// One digit more is ten times the number and the digit; a single digit is itself.
pub proof fn lemma_one_digit_more(d: Seq<char>, c: char)
    requires
        '0' <= c <= '9',
        forall|k: int| 0 <= k < d.len() ==> '0' <= #[trigger] d[k] <= '9',
    ensures
        parsed_usize(seq![c]) == Some((c as u32 - '0' as u32) as usize),
        d.len() > 0 ==> (match parsed_usize(d) {
            Some(n) => if 10 * n + (c as u32 - '0' as u32) <= usize::MAX {
                parsed_usize(d.push(c)) == Some((10 * n + (c as u32 - '0' as u32)) as usize)
            } else {
                parsed_usize(d.push(c)) is None
            },
            None => parsed_usize(d.push(c)) is None,
        }),
{
    let one = seq![c];
    assert(one.drop_last() =~= Seq::<char>::empty());
    assert(digits_value(one.drop_last()) == 0);
    assert(is_digit(one[0]));
    assert(all_digits(one));
    if d.len() > 0 {
        let e = d.push(c);
        assert(e.drop_last() =~= d);
        assert(is_digit(d[0]));
        assert(after_plus(d) == d);
        assert(after_plus(e) == e);
        assert forall|k: int| 0 <= k < d.len() implies is_digit(#[trigger] d[k]) by {}
        assert forall|k: int| 0 <= k < e.len() implies is_digit(#[trigger] e[k]) by {
            if k < d.len() {
                assert(e[k] == d[k]);
            }
        }
        assert(all_digits(d) && all_digits(e));
    }
}

/// A plus sign in front of digits changes nothing; a text without digits, and one with
/// any other character, is no number.
pub proof fn lemma_what_is_a_number(s: Seq<char>)
    ensures
        parsed_usize(Seq::empty()) is None,
        parsed_usize(seq!['+']) is None,
        s.len() > 0 && s[0] != '+' ==> parsed_usize(seq!['+'] + s) == parsed_usize(s),
        (exists|k: int| 0 < k < s.len() && !('0' <= #[trigger] s[k] <= '9')) ==> parsed_usize(
            s,
        ) is None,
        s.len() > 0 && s[0] != '+' && !('0' <= s[0] <= '9') ==> parsed_usize(s) is None,
{
    assert(after_plus(seq!['+']) =~= Seq::<char>::empty());
    if s.len() > 0 && s[0] != '+' {
        assert((seq!['+'] + s).drop_first() =~= s);
    }
    if exists|k: int| 0 < k < s.len() && !('0' <= #[trigger] s[k] <= '9') {
        let k = choose|k: int| 0 < k < s.len() && !('0' <= #[trigger] s[k] <= '9');
        let d = after_plus(s);
        if s[0] == '+' {
            assert(d[k - 1] == s[k]);
            assert(!is_digit(d[k - 1]));
        } else {
            assert(!is_digit(d[k]));
        }
    }
    if s.len() > 0 && s[0] != '+' && !('0' <= s[0] <= '9') {
        assert(!is_digit(s[0]));
    }
}

/// A number is written digit by digit, without leading zeros.
pub proof fn lemma_written_digits(n: nat, d: nat)
    requires
        d < 10,
    ensures
        decimal(d).len() == 1,
        decimal(d)[0] as u32 == '0' as u32 + d,
        n > 0 ==> decimal(10 * n + d) == decimal(n) + decimal(d),
{
    if n > 0 {
        assert((10 * n + d) / 10 == n);
        assert((10 * n + d) % 10 == d);
        assert(decimal(10 * n + d) =~= decimal(n) + decimal(d));
    }
}

/// Each of the sixteen hexadecimal digits stands for its four bits, the highest first.
pub proof fn lemma_hex_digits(n: u64, i: int)
    requires
        0 <= i < 16,
    ensures
        hex16(n).len() == 16,
        ({
            let bits = (n >> ((60 - 4 * i) as u64)) & 0xf;
            let c = hex16(n)[i] as u32;
            &&& bits < 16
            &&& bits < 10 ==> c == '0' as u32 + bits
            &&& bits >= 10 ==> c == 'a' as u32 + bits - 10
        }),
{
    let shift = (60 - 4 * i) as u64;
    assert((n >> shift) & 0xf < 16) by (bit_vector);
}

/// Splitting a text and joining the pieces gives the text back, and so does joining
/// pieces that hold no separator and splitting what comes out.
pub proof fn lemma_pieces_come_back(pieces: Seq<Seq<char>>, sep: char)
    requires
        pieces.len() > 0,
        forall|i: int| 0 <= i < pieces.len() ==> !(#[trigger] pieces[i]).contains(sep),
    ensures
        split_on(join_with(pieces, sep), sep) == pieces,
    decreases pieces.len(),
{
    let last = pieces.last();
    assert(last == pieces[pieces.len() - 1]);
    lemma_split_single(last, sep);
    if pieces.len() == 1 {
        assert(pieces =~= seq![last]);
    } else {
        let front = pieces.drop_last();
        assert forall|i: int| 0 <= i < front.len() implies !(#[trigger] front[i]).contains(sep) by {
            assert(front[i] == pieces[i]);
        }
        lemma_pieces_come_back(front, sep);
        lemma_split_append(join_with(front, sep), last, sep);
        assert(pieces =~= front + seq![last]);
    }
}

} // verus!
