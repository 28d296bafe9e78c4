//! Images taken from the clipboard: fingerprints, encoding and the watch.
use image::{ExtendedColorType, ImageEncoder};
use vstd::prelude::*;

verus! {

/// The multiplier that spreads the mixed bytes over the fingerprint.
pub const FINGERPRINT_SPREAD: u64 = 0x9e3779b97f4a7c15;

/// How many bytes at the front of an image go into its fingerprint.
pub const FINGERPRINT_BYTES: usize = 64;

/// The first `n` bytes mixed into one number: each is moved to its place among eight
/// and joined to the others by exclusive or.
pub open spec fn mixed(data: Seq<u8>, n: int) -> u64
    decreases n,
{
    if n <= 0 {
        0
    } else {
        mixed(data, n - 1) ^ ((data[n - 1] as u64) << (((n - 1) % 8 * 8) as u64))
    }
}

/// How many bytes of an image go into its fingerprint.
pub open spec fn mixed_len(data: Seq<u8>) -> int {
    if data.len() < FINGERPRINT_BYTES {
        data.len() as int
    } else {
        FINGERPRINT_BYTES as int
    }
}

/// The fingerprint of an image: its length joined with its first bytes, mixed and
/// spread.
pub open spec fn fingerprint(data: Seq<u8>) -> u64 {
    (data.len() as u64) ^ vstd::wrapping::u64_specs::wrapping_mul(
        mixed(data, mixed_len(data)),
        FINGERPRINT_SPREAD,
    )
}

/// Computes the fingerprint of an image.
pub fn image_fingerprint(data: &[u8]) -> (r: u64)
    ensures
        r == fingerprint(data@),
{
    let len: u64 = data.len() as u64;
    let n: usize = if data.len() < FINGERPRINT_BYTES {
        data.len()
    } else {
        FINGERPRINT_BYTES
    };
    let mut prefix: u64 = 0;
    let mut i: usize = 0;
    while i < n
        invariant
            i <= n <= data.len(),
            prefix == mixed(data@, i as int),
        decreases n - i,
    {
        let b: u64 = data[i] as u64;
        let place: u64 = (i % 8 * 8) as u64;
        prefix = prefix ^ (b << place);
        i += 1;
    }
    len ^ prefix.wrapping_mul(FINGERPRINT_SPREAD)
}

/// The fingerprint rests on nothing but the length and the first bytes: of two images
/// with the same first bytes the fingerprints differ exactly as the lengths do.
pub proof fn lemma_fingerprint_rests_on_prefix(a: Seq<u8>, b: Seq<u8>)
    requires
        a.take(mixed_len(a)) == b.take(mixed_len(b)),
    ensures
        fingerprint(a) ^ fingerprint(b) == (a.len() as u64) ^ (b.len() as u64),
        fingerprint(a) == fingerprint(b) <==> a.len() as u64 == b.len() as u64,
{
    assert(mixed_len(a) == a.take(mixed_len(a)).len());
    assert(mixed_len(b) == b.take(mixed_len(b)).len());
    assert forall|k: int| 0 <= k < mixed_len(a) implies a[k] == b[k] by {
        assert(a.take(mixed_len(a))[k] == a[k]);
        assert(b.take(mixed_len(b))[k] == b[k]);
    }
    lemma_mixed_rests_on_prefix(a, b, mixed_len(a));
    let x = a.len() as u64;
    let y = b.len() as u64;
    let m = vstd::wrapping::u64_specs::wrapping_mul(mixed(a, mixed_len(a)), FINGERPRINT_SPREAD);
    assert((x ^ m) ^ (y ^ m) == x ^ y) by (bit_vector);
    assert((x ^ m) == (y ^ m) <==> x == y) by (bit_vector);
}

/// The same bytes in front mix to the same number.
proof fn lemma_mixed_rests_on_prefix(a: Seq<u8>, b: Seq<u8>, n: int)
    requires
        n <= a.len(),
        n <= b.len(),
        forall|k: int| 0 <= k < n ==> a[k] == b[k],
    ensures
        mixed(a, n) == mixed(b, n),
    decreases n,
{
    if n > 0 {
        lemma_mixed_rests_on_prefix(a, b, n - 1);
        assert(a[n - 1] == b[n - 1]);
    }
}

/// The PNG file that `PngEncoder` makes of pixels of four bytes each, if it makes one.
pub uninterp spec fn png_of(pixels: Seq<u8>, width: u32, height: u32) -> Option<Seq<u8>>;

/// Calls `image::codecs::png::PngEncoder::write_image` on pixels of four bytes each:
/// the file is what the encoder makes of them, and an image without width or height
/// gives none.
#[verifier::external_body]
fn encode_png(pixels: &[u8], width: u32, height: u32) -> (r: Option<Vec<u8>>)
    requires
        pixels@.len() == width * height * 4,
    ensures
        match r {
            Some(file) => png_of(pixels@, width, height) == Some(file@),
            None => png_of(pixels@, width, height) is None,
        },
        width == 0 || height == 0 ==> r is None,
{
    let mut out = Vec::new();
    let encoder = image::codecs::png::PngEncoder::new(&mut out);
    let written = encoder.write_image(pixels, width, height, ExtendedColorType::Rgba8);
    written.ok().map(|_| out)
}

/// The PNG file of an image as the clipboard hands it out.
pub fn clipboard_png(pixels: &[u8], width: u32, height: u32) -> (r: Option<Vec<u8>>)
    requires
        pixels@.len() == width * height * 4,
    ensures
        match r {
            Some(file) => png_of(pixels@, width, height) == Some(file@),
            None => png_of(pixels@, width, height) is None,
        },
        width == 0 || height == 0 ==> r is None,
{
    encode_png(pixels, width, height)
}

/// How many milliseconds the watch sleeps between two looks at the clipboard.
pub open spec fn pause_of(auto_watch: bool) -> u64 {
    if auto_watch {
        500
    } else {
        2000
    }
}

/// How many milliseconds the watch sleeps between two looks at the clipboard.
pub fn watch_pause_millis(auto_watch: bool) -> (r: u64)
    ensures
        r == pause_of(auto_watch),
{
    if auto_watch {
        500
    } else {
        2000
    }
}

/// Whether a look at the clipboard finds a new image: the watch is on, there is an
/// image, and its fingerprint is not the one seen last.
pub open spec fn is_new_image(last: u64, auto_watch: bool, seen: Option<u64>) -> bool {
    auto_watch && seen is Some && seen->0 != last
}

/// The fingerprint to remember after a look.
pub open spec fn remembered(last: u64, auto_watch: bool, seen: Option<u64>) -> u64 {
    if is_new_image(last, auto_watch, seen) {
        seen->0
    } else {
        last
    }
}

/// What the watch remembers: the fingerprint of the last image it saw, and whether it
/// was told to stop.
#[derive(Debug, Clone, Copy, PartialEq, Eq, Structural)]
pub struct Watch {
    pub last: u64,
    pub stopped: bool,
}

/// One round of the watch: whether it is told to stop, whether the setting is on, and
/// the fingerprint of the image on the clipboard, if there is one.
pub struct Round {
    pub stop: bool,
    pub auto_watch: bool,
    pub seen: Option<u64>,
}

/// The watch after the beginning of a round.
pub open spec fn round_begun(w: Watch, stop: bool) -> Watch {
    Watch { stopped: w.stopped || stop, ..w }
}

/// Whether a look of the watch finds a new image.
pub open spec fn finds(w: Watch, auto_watch: bool, seen: Option<u64>) -> bool {
    !w.stopped && is_new_image(w.last, auto_watch, seen)
}

/// The watch after a look.
pub open spec fn looked(w: Watch, auto_watch: bool, seen: Option<u64>) -> Watch {
    if w.stopped {
        w
    } else {
        Watch { last: remembered(w.last, auto_watch, seen), ..w }
    }
}

/// The watch after a number of rounds from its start.
pub open spec fn watch_after(rounds: Seq<Round>) -> Watch
    decreases rounds.len(),
{
    if rounds.len() == 0 {
        Watch { last: 0, stopped: false }
    } else {
        let r = rounds.last();
        looked(round_begun(watch_after(rounds.drop_last()), r.stop), r.auto_watch, r.seen)
    }
}

/// Whether a round of a run of the watch finds a new image.
pub open spec fn round_finds(rounds: Seq<Round>, i: int) -> bool {
    let r = rounds[i];
    finds(round_begun(watch_after(rounds.take(i)), r.stop), r.auto_watch, r.seen)
}

impl Watch {
    /// A watch that has seen nothing.
    pub fn new() -> (w: Watch)
        ensures
            w == watch_after(Seq::empty()),
    {
        Watch { last: 0, stopped: false }
    }

    /// Begins a round, and tells how many milliseconds to sleep before the look. Once the
    /// watch is told to stop there are no more rounds.
    pub fn begin_round(&mut self, stop: bool, auto_watch: bool) -> (pause: Option<u64>)
        ensures
            *final(self) == round_begun(*old(self), stop),
            pause == (if final(self).stopped {
                None
            } else {
                Some(pause_of(auto_watch))
            }),
    {
        if stop {
            self.stopped = true;
        }
        if self.stopped {
            None
        } else {
            Some(watch_pause_millis(auto_watch))
        }
    }

    /// Takes one look: `seen` is the fingerprint of the image on the clipboard, if
    /// there is one. Tells whether the image is new and has to be uploaded.
    pub fn look(&mut self, auto_watch: bool, seen: Option<u64>) -> (is_new: bool)
        ensures
            is_new == finds(*old(self), auto_watch, seen),
            *final(self) == looked(*old(self), auto_watch, seen),
    {
        if self.stopped || !auto_watch {
            return false;
        }
        match seen {
            Some(fp) => {
                if fp != self.last {
                    self.last = fp;
                    true
                } else {
                    false
                }
            },
            None => false,
        }
    }
}

/// A watch that was told to stop stays so.
proof fn lemma_stays_stopped(rounds: Seq<Round>, i: int, j: int)
    requires
        0 <= i < j <= rounds.len(),
        rounds[i].stop,
    ensures
        watch_after(rounds.take(j)).stopped,
    decreases j,
{
    assert(rounds.take(j).drop_last() =~= rounds.take(j - 1));
    assert(rounds.take(j).last() == rounds[j - 1]);
    if i < j - 1 {
        lemma_stays_stopped(rounds, i, j - 1);
    }
}

/// Once the watch is told to stop no round begins any more: neither that one nor a
/// later one finds an image, and none has a pause to wait for.
pub proof fn lemma_stop_ends_the_watch(rounds: Seq<Round>, i: int, j: int)
    requires
        0 <= i <= j < rounds.len(),
        rounds[i].stop,
    ensures
        !round_finds(rounds, j),
        round_begun(watch_after(rounds.take(j)), rounds[j].stop).stopped,
{
    if i < j {
        lemma_stays_stopped(rounds, i, j);
    }
}

/// A round finds an image only where the setting is on, there is an image, and its
/// fingerprint is not the one that the watch has seen last, or zero where it has seen
/// none yet.
pub proof fn lemma_what_a_round_finds(rounds: Seq<Round>, i: int)
    requires
        0 <= i < rounds.len(),
        round_finds(rounds, i),
    ensures
        rounds[i].auto_watch,
        rounds[i].seen is Some,
        rounds[i].seen != Some(watch_after(rounds.take(i)).last),
        watch_after(rounds.take(0)).last == 0,
        watch_after(rounds.take(i + 1)).last == rounds[i].seen->0,
{
    assert(rounds.take(i + 1).drop_last() =~= rounds.take(i));
    assert(rounds.take(i + 1).last() == rounds[i]);
}

/// A clipboard that does not change is found at most once: after a round has found an
/// image, no later round finds one as long as every look meets that image or none.
pub proof fn lemma_unchanged_clipboard_found_once(rounds: Seq<Round>, i: int, j: int)
    requires
        0 <= i < j < rounds.len(),
        round_finds(rounds, i),
        forall|k: int|
            i < k <= j ==> (#[trigger] rounds[k]).seen is None || rounds[k].seen == rounds[i].seen,
    ensures
        !round_finds(rounds, j),
        watch_after(rounds.take(j)).last == rounds[i].seen->0,
    decreases j,
{
    assert(rounds.take(j).drop_last() =~= rounds.take(j - 1));
    assert(rounds.take(j).last() == rounds[j - 1]);
    assert(rounds[j].seen is None || rounds[j].seen == rounds[i].seen);
    if i < j - 1 {
        lemma_unchanged_clipboard_found_once(rounds, i, j - 1);
    }
}

} // verus!
