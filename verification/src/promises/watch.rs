//! The fingerprints of images and the watch over the clipboard.
use vstd::arithmetic::div_mod::{lemma_mul_mod_noop_left, lemma_mul_mod_noop_right};
use vstd::prelude::*;

use crate::clipboard::{
    finds, fingerprint, looked, mixed, mixed_len, pause_of, round_begun, round_finds, watch_after,
    Round, Watch, FINGERPRINT_SPREAD,
};

verus! {

/// What is left of a fingerprint once the length is taken out of it and the spreading is
/// undone: the number that undoes it is the inverse of the one that spreads.
pub open spec fn unspread(fp: u64, len: nat) -> u64 {
    (((fp ^ (len as u64)) as int * 0xf1de83e19937733d) % 0x10000000000000000) as u64
}

/// Undoing the spreading gives back the mixed bytes.
proof fn lemma_unspread(data: Seq<u8>)
    ensures
        unspread(fingerprint(data), data.len()) == mixed(data, mixed_len(data)),
{
    let m = mixed(data, mixed_len(data));
    let n = data.len() as u64;
    let w = vstd::wrapping::u64_specs::wrapping_mul(m, FINGERPRINT_SPREAD);
    assert((n ^ w) ^ n == w) by (bit_vector);
    let k: int = 0x9e3779b97f4a7c15;
    let inv: int = 0xf1de83e19937733d;
    let range: int = 0x10000000000000000;
    assert(w as int == (m * k) % range);
    lemma_mul_mod_noop_left(m * k, inv, range);
    assert((m * k) * inv == m * (k * inv)) by (nonlinear_arith);
    lemma_mul_mod_noop_right(m as int, k * inv, range);
    assert(k * inv == 10771413168148108919 * range + 1);
    assert((k * inv) % range == 1);
    assert(m * 1 == m);
    assert(w as int * inv % range == m as int);
}

/// Changing one of the mixed bytes changes the mix by that change, at its place.
proof fn lemma_mixed_update(data: Seq<u8>, i: int, b: u8, n: int)
    requires
        0 <= i < data.len(),
        0 <= n <= data.len(),
    ensures
        i >= n ==> mixed(data.update(i, b), n) == mixed(data, n),
        i < n ==> mixed(data.update(i, b), n) ^ mixed(data, n) == ((data[i] ^ b) as u64) << ((i % 8
            * 8) as u64),
    decreases n,
{
    if n > 0 {
        lemma_mixed_update(data, i, b, n - 1);
        let place = ((n - 1) % 8 * 8) as u64;
        let x = mixed(data, n - 1);
        let y = mixed(data.update(i, b), n - 1);
        let c = data[n - 1];
        let t = (c as u64) << place;
        if i == n - 1 {
            let u = (b as u64) << place;
            let d = ((c ^ b) as u64) << place;
            assert(place < 64);
            assert(d == t ^ u) by (bit_vector)
                requires
                    place < 64,
                    t == (c as u64) << place,
                    u == (b as u64) << place,
                    d == ((c ^ b) as u64) << place,
            ;
            assert((x ^ u) ^ (x ^ t) == t ^ u) by (bit_vector);
        } else if i < n - 1 {
            assert((y ^ t) ^ (x ^ t) == y ^ x) by (bit_vector);
        }
    }
}

/// Without any bits in the first bytes the fingerprint is the length.
pub proof fn lemma_blank_image(data: Seq<u8>)
    requires
        forall|k: int| 0 <= k < data.len() && k < 64 ==> #[trigger] data[k] == 0,
    ensures
        fingerprint(data) == data.len() as u64,
{
    lemma_mixed_of_blank(data, mixed_len(data));
    let n = data.len() as u64;
    assert(n ^ 0 == n) by (bit_vector);
}

/// Bytes without bits mix to nothing.
proof fn lemma_mixed_of_blank(data: Seq<u8>, n: int)
    requires
        n <= data.len(),
        forall|k: int| 0 <= k < n ==> #[trigger] data[k] == 0,
    ensures
        mixed(data, n) == 0,
    decreases n,
{
    if n > 0 {
        lemma_mixed_of_blank(data, n - 1);
        let place = ((n - 1) % 8 * 8) as u64;
        assert(data[n - 1] == 0);
        assert(0u64 ^ (0u64 << place) == 0) by (bit_vector);
    }
}

/// Every one of the first sixty-four bytes counts, however long the image is: with
/// another byte in its place the fingerprint is another one. Beneath the spreading it
/// differs in the bits of that byte alone, at one of eight places in turn.
pub proof fn lemma_early_byte_counts(data: Seq<u8>, i: int, b: u8)
    requires
        0 <= i < data.len(),
        i < 64,
    ensures
        b != data[i] ==> fingerprint(data.update(i, b)) != fingerprint(data),
        unspread(fingerprint(data.update(i, b)), data.len()) ^ unspread(
            fingerprint(data),
            data.len(),
        ) == ((data[i] ^ b) as u64) << ((i % 8 * 8) as u64),
{
    let other = data.update(i, b);
    lemma_mixed_update(data, i, b, mixed_len(data));
    lemma_unspread(data);
    lemma_unspread(other);
    if b != data[i] {
        let c = data[i];
        let place = (i % 8 * 8) as u64;
        let x = mixed(data, mixed_len(data));
        assert(place <= 56);
        assert(((c ^ b) as u64) << place != 0) by (bit_vector)
            requires
                c != b,
                place <= 56,
        ;
        assert(x ^ x == 0) by (bit_vector);
    }
}

/// No byte after the first sixty-four counts.
pub proof fn lemma_late_byte_does_not_count(data: Seq<u8>, i: int, b: u8)
    requires
        64 <= i < data.len(),
    ensures
        fingerprint(data.update(i, b)) == fingerprint(data),
{
    lemma_mixed_update(data, i, b, mixed_len(data));
}

/// The watch begins with nothing seen, and sleeps half a second where it is on and two
/// seconds where it is off; being told to stop stops it and changes nothing else.
pub proof fn lemma_round_begins(w: Watch, stop: bool)
    ensures
        pause_of(true) == 500,
        pause_of(false) == 2000,
        round_begun(w, stop).stopped <==> w.stopped || stop,
        round_begun(w, stop).last == w.last,
        watch_after(Seq::empty()) == (Watch { last: 0, stopped: false }),
{
}

/// A look finds an image exactly where the watch goes on, the setting is on, and there
/// is an image other than the last one. After a look the last one is the one that was
/// found, or the one from before.
pub proof fn lemma_one_look(w: Watch, auto_watch: bool, seen: Option<u64>)
    ensures
        finds(w, auto_watch, seen) <==> !w.stopped && auto_watch && seen is Some && seen->0
            != w.last,
        finds(w, auto_watch, seen) ==> looked(w, auto_watch, seen).last == seen->0,
        !finds(w, auto_watch, seen) ==> looked(w, auto_watch, seen).last == w.last,
        looked(w, auto_watch, seen).stopped == w.stopped,
{
}

/// A watch that was never told to stop goes on.
proof fn lemma_goes_on(rounds: Seq<Round>, i: int)
    requires
        0 <= i <= rounds.len(),
        forall|k: int| 0 <= k < i ==> !(#[trigger] rounds[k]).stop,
    ensures
        !watch_after(rounds.take(i)).stopped,
    decreases i,
{
    if i > 0 {
        assert(rounds.take(i).drop_last() =~= rounds.take(i - 1));
        assert(rounds.take(i).last() == rounds[i - 1]);
        lemma_goes_on(rounds, i - 1);
    }
}

/// What the watch has seen last stays the last until it sees something again.
proof fn lemma_last_seen(rounds: Seq<Round>, j: int, i: int)
    requires
        0 <= j < i <= rounds.len(),
        forall|k: int| 0 <= k < i ==> !(#[trigger] rounds[k]).stop,
        rounds[j].auto_watch && rounds[j].seen is Some,
        forall|k: int|
            j < k < i ==> !((#[trigger] rounds[k]).auto_watch && rounds[k].seen is Some),
    ensures
        watch_after(rounds.take(i)).last == rounds[j].seen->0,
    decreases i,
{
    assert(rounds.take(i).drop_last() =~= rounds.take(i - 1));
    assert(rounds.take(i).last() == rounds[i - 1]);
    lemma_goes_on(rounds, i - 1);
    assert(!rounds[i - 1].stop);
    if i - 1 > j {
        lemma_last_seen(rounds, j, i - 1);
        assert(!(rounds[i - 1].auto_watch && rounds[i - 1].seen is Some));
    }
}

/// As long as the watch is not told to stop, a round finds an image exactly where the
/// setting is on and there is an image other than the one at the last look that was
/// taken with the setting on and met one.
pub proof fn lemma_other_image_is_found(rounds: Seq<Round>, j: int, i: int)
    requires
        0 <= j < i < rounds.len(),
        forall|k: int| 0 <= k <= i ==> !(#[trigger] rounds[k]).stop,
        rounds[j].auto_watch && rounds[j].seen is Some,
        forall|k: int|
            j < k < i ==> !((#[trigger] rounds[k]).auto_watch && rounds[k].seen is Some),
    ensures
        round_finds(rounds, i) <==> rounds[i].auto_watch && rounds[i].seen is Some && rounds[i].seen
            != rounds[j].seen,
{
    lemma_goes_on(rounds, i);
    lemma_last_seen(rounds, j, i);
    assert(!rounds[i].stop);
}

/// The watch that has seen nothing yet remembers nothing.
proof fn lemma_nothing_seen(rounds: Seq<Round>, i: int)
    requires
        0 <= i <= rounds.len(),
        forall|k: int|
            0 <= k < i ==> !((#[trigger] rounds[k]).auto_watch && rounds[k].seen is Some),
    ensures
        watch_after(rounds.take(i)).last == 0,
    decreases i,
{
    if i > 0 {
        assert(rounds.take(i).drop_last() =~= rounds.take(i - 1));
        assert(rounds.take(i).last() == rounds[i - 1]);
        lemma_nothing_seen(rounds, i - 1);
        assert(!(rounds[i - 1].auto_watch && rounds[i - 1].seen is Some));
    }
}

/// The first image that the watch meets is found, unless its fingerprint is zero.
pub proof fn lemma_first_image_is_found(rounds: Seq<Round>, i: int)
    requires
        0 <= i < rounds.len(),
        forall|k: int| 0 <= k <= i ==> !(#[trigger] rounds[k]).stop,
        forall|k: int|
            0 <= k < i ==> !((#[trigger] rounds[k]).auto_watch && rounds[k].seen is Some),
    ensures
        round_finds(rounds, i) <==> rounds[i].auto_watch && rounds[i].seen is Some && rounds[i].seen
            != Some(0u64),
{
    lemma_goes_on(rounds, i);
    lemma_nothing_seen(rounds, i);
    assert(!rounds[i].stop);
}

} // verus!
