use vstd::prelude::*;
use crate::canvas::{canvas_matches, decode_gif_frames, decode_still, gif_frames, still_image, RgbaCanvas};
use crate::chars::{ascii_lower, to_ascii_lower};

verus! {

/// How often a GIF asks to be repeated after its first play, as its
/// looping extension states it.
#[derive(Debug, Clone, Copy, PartialEq, Eq, Structural)]
pub enum Repeat {
    /// Repeated this many more times.
    Finite(u16),
    /// Repeated forever.
    Infinite,
}

/// How an image file is loaded.
#[derive(Debug, Clone, Copy, PartialEq, Eq, Structural)]
pub enum ImageKind {
    /// An animated GIF, decoded frame by frame.
    Gif,
    /// Any other image, decoded as one still frame.
    Still,
}

/// Display time of a GIF frame whose delay is `numer / denom` milliseconds:
/// 100 ms when the delay has no denominator, otherwise the whole number of
/// milliseconds, but at least 20.
pub open spec fn delay_ms(numer: u32, denom: u32) -> u64 {
    if denom == 0 {
        100
    } else if numer / denom >= 20 {
        (numer / denom) as u64
    } else {
        20
    }
}

/// The display time of a frame with delay `numer / denom` milliseconds.
pub fn frame_delay_ms(numer: u32, denom: u32) -> (ms: u64)
    ensures
        ms == delay_ms(numer, denom),
        ms >= 20,
{
    if denom == 0 {
        100
    } else {
        let q = numer / denom;
        if q >= 20 {
            q as u64
        } else {
            20
        }
    }
}

/// Number of times a GIF is played in all, or `None` for a GIF that loops
/// forever.
pub open spec fn plays_of(repeat: Repeat) -> Option<u32> {
    match repeat {
        Repeat::Infinite => None,
        Repeat::Finite(n) => Some((n + 1) as u32),
    }
}

/// Number of times a GIF with the given looping extension is played.
pub fn total_plays(repeat: Repeat) -> (plays: Option<u32>)
    ensures
        plays == plays_of(repeat),
{
    match repeat {
        Repeat::Infinite => None,
        Repeat::Finite(0) => Some(1),
        Repeat::Finite(n) => Some(n as u32 + 1),
    }
}

/// A path names a GIF when, ignoring ASCII case, it ends in `.gif`.
pub open spec fn names_gif(path: Seq<char>) -> bool {
    &&& path.len() >= 4
    &&& path.subrange(path.len() - 4, path.len() as int).map_values(|c: char| ascii_lower(c)) == ".gif"@
}

/// How the image at `path` is loaded; `None` for the empty path, which
/// names no image.
pub fn image_kind(path: &str) -> (kind: Option<ImageKind>)
    ensures
        kind == (if path@.len() == 0 {
            None
        } else if names_gif(path@) {
            Some(ImageKind::Gif)
        } else {
            Some(ImageKind::Still)
        }),
{
    let n = path.unicode_len();
    if n == 0 {
        return None;
    }
    proof {
        reveal_strlit(".gif");
    }
    if n < 4 {
        return Some(ImageKind::Still);
    }
    let a = to_ascii_lower(path.get_char(n - 4));
    let b = to_ascii_lower(path.get_char(n - 3));
    let c = to_ascii_lower(path.get_char(n - 2));
    let d = to_ascii_lower(path.get_char(n - 1));
    let ghost tail = path@.subrange(n - 4, n as int).map_values(|c: char| ascii_lower(c));
    if a == '.' && b == 'g' && c == 'i' && d == 'f' {
        assert(tail =~= ".gif"@);
        Some(ImageKind::Gif)
    } else {
        assert(tail[0] == a && tail[1] == b && tail[2] == c && tail[3] == d);
        Some(ImageKind::Still)
    }
}

/// Total display time of frames with the given delays.
pub open spec fn delay_total(delays: Seq<(u32, u32)>) -> nat
    decreases delays.len(),
{
    if delays.len() == 0 {
        0
    } else {
        delay_total(delays.drop_last()) + delay_ms(delays.last().0, delays.last().1) as nat
    }
}

/// A timeline of frame end times is well formed: it has at least one
/// frame, its end times strictly increase, and the last one is the total
/// duration.
pub open spec fn timeline_wf(ends: Seq<u64>, total: u64) -> bool {
    &&& ends.len() >= 1
    &&& forall|i: int, j: int| 0 <= i < j < ends.len() ==> ends[i] < ends[j]
    &&& ends.last() == total
}

/// The point of a single play, in milliseconds, that is shown after
/// `elapsed` milliseconds: the last moment once all plays have ended,
/// otherwise the elapsed time wrapped around the duration of one play.
pub open spec fn clock_ms(total: u64, plays: Option<u32>, elapsed: u64) -> int {
    if plays is Some && elapsed >= total * plays->0 {
        total - 1
    } else {
        elapsed as int % total as int
    }
}

/// Index of the first frame that ends after moment `t`, or 0 when none
/// does.
pub open spec fn first_end_after(ends: Seq<u64>, t: int) -> int {
    if exists|i: int| 0 <= i < ends.len() && t < ends[i] {
        choose|i: int|
            0 <= i < ends.len() && t < ends[i] && forall|j: int| 0 <= j < i ==> ends[j] <= t
    } else {
        0
    }
}

/// Index of the frame shown after `elapsed` milliseconds: the only frame
/// of a still image or of an animation without duration, otherwise the
/// frame whose display span holds the current moment of the play.
pub open spec fn frame_index(ends: Seq<u64>, total: u64, plays: Option<u32>, elapsed: u64) -> int {
    if ends.len() == 1 || total == 0 {
        0
    } else {
        first_end_after(ends, clock_ms(total, plays, elapsed))
    }
}

/// A still image or an animation, as frames with their display times.
pub struct ImageAsset<F> {
    frames: Vec<F>,
    cumulative_ms: Vec<u64>,
    total_ms: u64,
    total_plays: Option<u32>,
}

impl<F> ImageAsset<F> {
    #[verifier::type_invariant]
    spec fn inv(self) -> bool {
        &&& self.cumulative_ms.len() == self.frames.len()
        &&& timeline_wf(self.cumulative_ms@, self.total_ms)
    }

    /// The frames, in display order.
    pub closed spec fn frames_view(self) -> Seq<F> {
        self.frames@
    }

    /// The moment, in milliseconds from the start of a play, at which each
    /// frame stops being shown.
    pub closed spec fn ends_view(self) -> Seq<u64> {
        self.cumulative_ms@
    }

    /// The duration of one play, in milliseconds; 0 for a still image.
    pub closed spec fn total_ms_view(self) -> u64 {
        self.total_ms
    }

    /// How often the animation is played, or `None` when it loops forever.
    pub closed spec fn plays_view(self) -> Option<u32> {
        self.total_plays
    }

    /// A still image of one frame; `None` when the image has no pixels.
    pub fn still(frame: F, width: u32, height: u32) -> (asset: Option<ImageAsset<F>>)
        ensures
            asset is None <==> width == 0 || height == 0,
            asset matches Some(a) ==> {
                &&& a.frames_view() == seq![frame]
                &&& a.ends_view() == seq![0u64]
                &&& a.total_ms_view() == 0
                &&& a.plays_view() is None
            },
    {
        if width == 0 || height == 0 {
            return None;
        }
        let frames = vec![frame];
        let cumulative_ms = vec![0u64];
        Some(ImageAsset { frames, cumulative_ms, total_ms: 0, total_plays: None })
    }

    /// An animation whose frame `i` is shown for the delay
    /// `delays[i].0 / delays[i].1` milliseconds (see `frame_delay_ms`),
    /// played `total_plays` times in all or forever when that is `None`;
    /// `None` when there are no frames.
    pub fn animated(frames: Vec<F>, delays: Vec<(u32, u32)>, total_plays: Option<u32>) -> (asset: Option<
        ImageAsset<F>,
    >)
        requires
            frames.len() == delays.len(),
            delay_total(delays@) <= u64::MAX,
        ensures
            asset is None <==> frames.len() == 0,
            asset matches Some(a) ==> {
                &&& a.frames_view() == frames@
                &&& a.ends_view().len() == frames.len()
                &&& forall|i: int|
                    0 <= i < frames.len() ==> #[trigger] a.ends_view()[i] == delay_total(
                        delays@.take(i + 1),
                    )
                &&& a.total_ms_view() == delay_total(delays@)
                &&& a.plays_view() == total_plays
            },
    {
        if frames.len() == 0 {
            return None;
        }
        let n = delays.len();
        let mut cumulative_ms: Vec<u64> = Vec::new();
        let mut total_ms: u64 = 0;
        let mut i: usize = 0;
        while i < n
            invariant
                n == delays.len(),
                n == frames.len(),
                n >= 1,
                i <= n,
                delay_total(delays@) <= u64::MAX,
                cumulative_ms.len() == i,
                total_ms == delay_total(delays@.take(i as int)),
                forall|k: int| 0 <= k < i ==> #[trigger] cumulative_ms@[k] == delay_total(delays@.take(k + 1)),
                forall|k: int, l: int| 0 <= k < l < i ==> cumulative_ms@[k] < cumulative_ms@[l],
                i > 0 ==> cumulative_ms@[i - 1] == total_ms,
            decreases n - i,
        {
            let (numer, denom) = delays[i];
            let ms = frame_delay_ms(numer, denom);
            proof {
                lemma_delay_total_prefix(delays@, i + 1);
                lemma_delay_total_monotone(delays@, i + 1);
            }
            total_ms = total_ms + ms;
            cumulative_ms.push(total_ms);
            i = i + 1;
        }
        assert(delays@.take(n as int) =~= delays@);
        Some(ImageAsset { frames, cumulative_ms, total_ms, total_plays })
    }

    /// The frame shown after `elapsed_ms` milliseconds, counted from the
    /// start of the animation and cut to 64 bits.
    pub fn current_texture(&self, elapsed_ms: u128) -> (frame: &F)
        ensures
            timeline_wf(self.ends_view(), self.total_ms_view()),
            self.frames_view().len() == self.ends_view().len(),
            0 <= frame_index(self.ends_view(), self.total_ms_view(), self.plays_view(), elapsed_ms as u64)
                < self.frames_view().len(),
            *frame == self.frames_view()[frame_index(
                self.ends_view(),
                self.total_ms_view(),
                self.plays_view(),
                elapsed_ms as u64,
            )],
    {
        proof {
            use_type_invariant(self);
        }
        if self.frames.len() == 1 || self.total_ms == 0 {
            return &self.frames[0];
        }
        let elapsed = #[verifier::truncate] (elapsed_ms as u64);
        proof {
            if self.total_plays is Some {
                let p = self.total_plays->0;
                assert(self.total_ms * p <= u64::MAX * u32::MAX) by (nonlinear_arith)
                    requires
                        self.total_ms <= u64::MAX,
                        p <= u32::MAX,
                ;
            }
        }
        let t: u64 = match self.total_plays {
            Some(plays) if elapsed as u128 >= self.total_ms as u128 * plays as u128 => self.total_ms - 1,
            _ => elapsed % self.total_ms,
        };
        let ghost ends = self.cumulative_ms@;
        assert(t == clock_ms(self.total_ms, self.total_plays, elapsed));
        assert(t < ends.last());
        let n = self.cumulative_ms.len();
        let mut i: usize = 0;
        while i < n
            invariant
                n == ends.len(),
                ends == self.cumulative_ms@,
                n == self.frames.len(),
                timeline_wf(ends, self.total_ms),
                t == clock_ms(self.total_ms, self.total_plays, elapsed_ms as u64),
                self.frames.len() != 1 && self.total_ms != 0,
                i <= n,
                t < ends.last(),
                n >= 1,
                forall|j: int| 0 <= j < i ==> ends[j] <= t,
            decreases n - i,
        {
            if t < self.cumulative_ms[i] {
                assert(first_end_after(ends, t as int) == i) by {
                    let k = choose|k: int|
                        0 <= k < ends.len() && t < ends[k] && forall|j: int| 0 <= j < k ==> ends[j] <= t;
                    if k < i {
                        assert(ends[k] <= t);
                    }
                    if k > i {
                        assert(ends[i as int] <= t);
                    }
                }
                return &self.frames[i];
            }
            i = i + 1;
        }
        assert(ends[n - 1] <= t);
        &self.frames[0]
    }

    /// The same animation with each frame replaced by what `f` makes of it.
    pub fn map_frames<G, M: Fn(F) -> G>(self, f: M) -> (mapped: ImageAsset<G>)
        requires
            forall|x: F| #[trigger] f.requires((x,)),
        ensures
            mapped.ends_view() == self.ends_view(),
            mapped.total_ms_view() == self.total_ms_view(),
            mapped.plays_view() == self.plays_view(),
            mapped.frames_view().len() == self.frames_view().len(),
            forall|i: int|
                0 <= i < self.frames_view().len() ==> f.ensures(
                    (self.frames_view()[i],),
                    #[trigger] mapped.frames_view()[i],
                ),
    {
        proof {
            use_type_invariant(&self);
        }
        let ghost old_frames = self.frames@;
        let ImageAsset { frames, cumulative_ms, total_ms, total_plays } = self;
        let n = frames.len();
        let mut pending = frames;
        let mut reversed: Vec<F> = Vec::new();
        while pending.len() > 0
            invariant
                n == old_frames.len(),
                pending@ == old_frames.take(n - reversed.len()),
                reversed.len() <= n,
                forall|m: int| 0 <= m < reversed.len() ==> #[trigger] reversed@[m] == old_frames[n - 1 - m],
            decreases pending.len(),
        {
            let item = pending.pop().unwrap();
            reversed.push(item);
        }
        let mut out: Vec<G> = Vec::new();
        while reversed.len() > 0
            invariant
                n == old_frames.len(),
                reversed.len() + out.len() == n,
                forall|m: int| 0 <= m < reversed.len() ==> #[trigger] reversed@[m] == old_frames[n - 1 - m],
                forall|x: F| #[trigger] f.requires((x,)),
                forall|k: int| 0 <= k < out.len() ==> f.ensures((old_frames[k],), #[trigger] out@[k]),
            decreases reversed.len(),
        {
            let item = reversed.pop().unwrap();
            let made = f(item);
            out.push(made);
        }
        ImageAsset { frames: out, cumulative_ms, total_ms, total_plays }
    }
}

/// A prefix of the delays lasts no longer than all of them.
proof fn lemma_delay_total_monotone(delays: Seq<(u32, u32)>, k: int)
    requires
        0 <= k <= delays.len(),
    ensures
        delay_total(delays.take(k)) <= delay_total(delays),
    decreases delays.len(),
{
    if k < delays.len() {
        assert(delays.drop_last().take(k) =~= delays.take(k));
        lemma_delay_total_monotone(delays.drop_last(), k);
    } else {
        assert(delays.take(k) =~= delays);
    }
}

/// Adding one more delay adds its display time to the total.
proof fn lemma_delay_total_prefix(delays: Seq<(u32, u32)>, k: int)
    requires
        1 <= k <= delays.len(),
    ensures
        delay_total(delays.take(k)) == delay_total(delays.take(k - 1)) + delay_ms(
            delays[k - 1].0,
            delays[k - 1].1,
        ),
{
    assert(delays.take(k).drop_last() =~= delays.take(k - 1));
}

/// Some frame of a well-formed timeline ends after any moment before the
/// end, and the first such frame is the one whose span holds the moment.
proof fn lemma_first_end_after_from(ends: Seq<u64>, t: int, k: int)
    requires
        ends.len() >= 1,
        0 <= k < ends.len(),
        t < ends.last(),
        forall|j: int| 0 <= j < k ==> ends[j] <= t,
    ensures
        exists|i: int|
            0 <= i < ends.len() && t < ends[i] && forall|j: int| 0 <= j < i ==> ends[j] <= t,
    decreases ends.len() - k,
{
    if t < ends[k] {
        assert(0 <= k < ends.len() && t < ends[k] && forall|j: int| 0 <= j < k ==> ends[j] <= t);
    } else {
        lemma_first_end_after_from(ends, t, k + 1);
    }
}

/// In a well-formed timeline, the frame shown at moment `t` of a play,
/// `0 <= t < total`, is the one whose display span `[end of the frame
/// before, own end)` holds `t`.
pub proof fn lemma_frame_span(ends: Seq<u64>, total: u64, t: int)
    requires
        timeline_wf(ends, total),
        0 <= t < total,
    ensures
        0 <= first_end_after(ends, t) < ends.len(),
        t < ends[first_end_after(ends, t)],
        first_end_after(ends, t) == 0 || ends[first_end_after(ends, t) - 1] <= t,
{
    lemma_first_end_after_from(ends, t, 0);
    let i = first_end_after(ends, t);
    assert(0 <= i < ends.len() && t < ends[i] && forall|j: int| 0 <= j < i ==> ends[j] <= t);
    if i > 0 {
        assert(ends[i - 1] <= t);
    }
}

/// The moment of a play that is shown lies within one play.
proof fn lemma_clock_in_play(total: u64, plays: Option<u32>, elapsed: u64)
    requires
        total > 0,
    ensures
        0 <= clock_ms(total, plays, elapsed) < total,
{
}

/// Whatever the elapsed time, the frame shown is one of the frames.
pub proof fn lemma_frame_index_in_range(ends: Seq<u64>, total: u64, plays: Option<u32>, elapsed: u64)
    requires
        timeline_wf(ends, total),
    ensures
        0 <= frame_index(ends, total, plays, elapsed) < ends.len(),
{
    if ends.len() != 1 && total != 0 {
        lemma_clock_in_play(total, plays, elapsed);
        lemma_frame_span(ends, total, clock_ms(total, plays, elapsed));
    }
}

/// An animation that loops forever shows the same frame one play later.
pub proof fn lemma_loops_forever(ends: Seq<u64>, total: u64, elapsed: u64)
    requires
        timeline_wf(ends, total),
        elapsed + total <= u64::MAX,
    ensures
        frame_index(ends, total, None, elapsed) == frame_index(ends, total, None, (elapsed + total) as u64),
{
    if total > 0 {
        assert((elapsed + total) as int % total as int == elapsed as int % total as int) by (nonlinear_arith)
            requires
                total > 0,
        ;
    }
}

/// Once all of its plays are over, an animation keeps showing its last
/// frame.
pub proof fn lemma_finished_shows_last(ends: Seq<u64>, total: u64, plays: u32, elapsed: u64)
    requires
        timeline_wf(ends, total),
        ends.len() > 1,
        elapsed >= total * plays,
    ensures
        frame_index(ends, total, Some(plays), elapsed) == ends.len() - 1,
{
    let n = ends.len();
    assert(ends[0] < ends[n - 1]);
    assert(total > 0);
    let t = clock_ms(total, Some(plays), elapsed);
    assert(t == total - 1);
    lemma_frame_span(ends, total, t);
    let i = first_end_after(ends, t);
    if i < n - 1 {
        assert(ends[i] < ends[n - 1]);
    }
}

/// The looping extension the `gif` crate's decoder reads from a file's
/// bytes: `Some(Some(n))` for `n` repetitions after the first play,
/// `Some(None)` for looping forever, `None` when the header cannot be read.
pub uninterp spec fn gif_loop(bytes: Seq<u8>) -> Option<Option<u16>>;

/// `gif::Decoder::new` and `Decoder::repeat`: reads a GIF's header and
/// reports its looping extension.
#[verifier::external_body]
pub(crate) fn decode_gif_loop(bytes: &[u8]) -> (repeat: Option<Repeat>)
    ensures
        repeat == (match gif_loop(bytes@) {
            Some(Some(n)) => Some(Repeat::Finite(n)),
            Some(None) => Some(Repeat::Infinite),
            None => None,
        }),
{
    match gif::Decoder::new(std::io::Cursor::new(bytes)).ok()?.repeat() {
        gif::Repeat::Finite(n) => Some(Repeat::Finite(n)),
        gif::Repeat::Infinite => Some(Repeat::Infinite),
    }
}

/// The delays of decoded GIF frames.
pub open spec fn frame_delays(frames: Seq<(u32, u32, Seq<u8>, u32, u32)>) -> Seq<(u32, u32)> {
    frames.map_values(|f: (u32, u32, Seq<u8>, u32, u32)| (f.3, f.4))
}

/// How often the GIF with these bytes is played: once more than it asks
/// to be repeated, or forever when it loops forever or its header cannot
/// be read.
pub open spec fn gif_plays(bytes: Seq<u8>) -> Option<u32> {
    match gif_loop(bytes) {
        Some(Some(n)) => Some((n + 1) as u32),
        _ => None,
    }
}

/// Decodes the animation in a GIF file's bytes. `None` when the frames do
/// not decode, when there are none, or when their display times add up to
/// more milliseconds than 64 bits hold.
pub fn load_gif_bytes(bytes: &[u8]) -> (asset: Option<ImageAsset<RgbaCanvas>>)
    ensures
        asset is Some <==> ({
            &&& gif_frames(bytes@) is Some
            &&& gif_frames(bytes@)->0.len() > 0
            &&& delay_total(frame_delays(gif_frames(bytes@)->0)) <= u64::MAX
        }),
        asset matches Some(a) ==> {
            let fs = gif_frames(bytes@)->0;
            &&& a.frames_view().len() == fs.len()
            &&& forall|i: int|
                0 <= i < fs.len() ==> canvas_matches(#[trigger] a.frames_view()[i], fs[i].0, fs[i].1, fs[i].2)
            &&& a.ends_view().len() == fs.len()
            &&& forall|i: int|
                0 <= i < fs.len() ==> #[trigger] a.ends_view()[i] == delay_total(
                    frame_delays(fs).take(i + 1),
                )
            &&& a.total_ms_view() == delay_total(frame_delays(fs))
            &&& a.plays_view() == gif_plays(bytes@)
            &&& gif_loop(bytes@) matches Some(Some(n)) ==> a.plays_view() == Some((n + 1) as u32)
            &&& !(gif_loop(bytes@) matches Some(Some(_))) ==> a.plays_view() is None
        },
{
    let plays = match decode_gif_loop(bytes) {
        Some(repeat) => total_plays(repeat),
        None => None,
    };
    let mut pending = match decode_gif_frames(bytes) {
        Some(decoded) => decoded,
        None => return None,
    };
    let ghost fs = gif_frames(bytes@)->0;
    let ghost decoded = pending@;
    let ghost ds = frame_delays(fs);
    let n = pending.len();
    // Reverse the decoded frames, so that popping hands them out in order.
    let mut reversed: Vec<(RgbaCanvas, (u32, u32))> = Vec::new();
    while pending.len() > 0
        invariant
            n == decoded.len(),
            pending@ == decoded.take(n - reversed.len()),
            reversed.len() <= n,
            forall|m: int| 0 <= m < reversed.len() ==> #[trigger] reversed@[m] == decoded[n - 1 - m],
        decreases pending.len(),
    {
        let item = pending.pop().unwrap();
        reversed.push(item);
    }
    let mut frames: Vec<RgbaCanvas> = Vec::new();
    let mut delays: Vec<(u32, u32)> = Vec::new();
    let mut total: u64 = 0;
    while reversed.len() > 0
        invariant
            n == decoded.len(),
            n == fs.len(),
            fs == gif_frames(bytes@)->0,
            ds == frame_delays(fs),
            reversed.len() + frames.len() == n,
            forall|m: int| 0 <= m < reversed.len() ==> #[trigger] reversed@[m] == decoded[n - 1 - m],
            forall|i: int|
                0 <= i < fs.len() ==> canvas_matches(#[trigger] decoded[i].0, fs[i].0, fs[i].1, fs[i].2)
                    && decoded[i].1 == (fs[i].3, fs[i].4),
            frames.len() == delays.len(),
            forall|k: int| 0 <= k < frames.len() ==> #[trigger] frames@[k] == decoded[k].0,
            delays@ == ds.take(frames.len() as int),
            total == delay_total(delays@),
        decreases reversed.len(),
    {
        let (canvas, (numer, denom)) = reversed.pop().unwrap();
        let ghost t = frames.len() as int;
        assert(ds[t] == (numer, denom));
        assert(ds.take(t + 1).drop_last() =~= ds.take(t));
        let ms = frame_delay_ms(numer, denom);
        if total > u64::MAX - ms {
            proof {
                lemma_delay_total_prefix(ds, t + 1);
                lemma_delay_total_monotone(ds, t + 1);
            }
            return None;
        }
        total = total + ms;
        frames.push(canvas);
        delays.push((numer, denom));
        proof {
            assert(delays@ =~= ds.take(t + 1));
            lemma_delay_total_prefix(ds, t + 1);
        }
    }
    assert(ds.take(n as int) =~= ds);
    if frames.len() == 0 {
        return None;
    }
    ImageAsset::animated(frames, delays, plays)
}

/// Decodes the still image in a file's bytes, in the format its path's
/// extension names. `None` when it does not decode or has no pixels.
pub fn load_still_bytes(bytes: &[u8], path: &str) -> (asset: Option<ImageAsset<RgbaCanvas>>)
    ensures
        asset is Some <==> (still_image(bytes@, path@) matches Some(s) && s.0 > 0 && s.1 > 0),
        asset matches Some(a) ==> {
            let s = still_image(bytes@, path@)->0;
            &&& a.frames_view().len() == 1
            &&& canvas_matches(a.frames_view()[0], s.0, s.1, s.2)
            &&& a.ends_view() == seq![0u64]
            &&& a.total_ms_view() == 0
            &&& a.plays_view() is None
        },
{
    let canvas = match decode_still(bytes, path) {
        Some(c) => c,
        None => return None,
    };
    let width = canvas.width();
    let height = canvas.height();
    ImageAsset::still(canvas, width, height)
}

/// A GIF that asks for `n` repetitions is played `n + 1` times in all, so
/// at least once and never forever; only looping forever plays forever.
pub proof fn lemma_plays_count_repetitions(repeat: Repeat)
    ensures
        repeat matches Repeat::Finite(n) ==> plays_of(repeat) == Some((n + 1) as u32) && plays_of(repeat)->0 >= 1
            && plays_of(repeat)->0 == n as int + 1,
        repeat is Infinite ==> plays_of(repeat) is None,
{
}

/// A loaded GIF is played once more than its looping extension asks it to
/// be repeated: one that asks for no repetition plays once and then holds
/// its last frame. It loops forever only when the extension says so or
/// cannot be read.
pub proof fn lemma_gif_plays_follow_loop(bytes: Seq<u8>)
    ensures
        gif_loop(bytes) matches Some(Some(n)) ==> gif_plays(bytes) == Some((n + 1) as u32)
            && gif_plays(bytes)->0 == n as int + 1 && gif_plays(bytes) == plays_of(Repeat::Finite(n)),
        gif_loop(bytes) == Some(Some(0u16)) ==> gif_plays(bytes) == Some(1u32),
        !(gif_loop(bytes) matches Some(Some(_))) ==> gif_plays(bytes) is None,
{
}

/// A frame is shown for its delay in whole milliseconds when that is at
/// least 20, for 20 ms when it is shorter, and for 100 ms when its delay has
/// no denominator.
pub proof fn lemma_delay_rules(numer: u32, denom: u32)
    ensures
        delay_ms(numer, denom) >= 20,
        denom == 0 ==> delay_ms(numer, denom) == 100,
        denom != 0 && numer / denom >= 20 ==> delay_ms(numer, denom) == numer / denom,
        denom != 0 && numer / denom < 20 ==> delay_ms(numer, denom) == 20,
        denom != 0 ==> delay_ms(numer, denom) <= if numer / denom >= 20 { numer / denom } else { 20 },
{
}

/// A path names a GIF exactly when its last four characters are `.`,
/// `g`, `i`, `f`, each in either ASCII case.
pub proof fn lemma_gif_suffix(path: Seq<char>)
    ensures
        names_gif(path) <==> (path.len() >= 4 && path[path.len() - 4] == '.' && (path[path.len() - 3]
            == 'g' || path[path.len() - 3] == 'G') && (path[path.len() - 2] == 'i' || path[path.len()
            - 2] == 'I') && (path[path.len() - 1] == 'f' || path[path.len() - 1] == 'F')),
{
    reveal_strlit(".gif");
    if path.len() >= 4 {
        let tail = path.subrange(path.len() - 4, path.len() as int).map_values(|c: char| ascii_lower(c));
        if path[path.len() - 4] == '.' && (path[path.len() - 3] == 'g' || path[path.len() - 3] == 'G')
            && (path[path.len() - 2] == 'i' || path[path.len() - 2] == 'I') && (path[path.len() - 1] == 'f'
            || path[path.len() - 1] == 'F') {
            assert(tail =~= ".gif"@);
        }
        if tail == ".gif"@ {
            assert(tail[0] == '.' && tail[1] == 'g' && tail[2] == 'i' && tail[3] == 'f');
        }
    }
}

} // verus!
