use vstd::prelude::*;
use crate::chars::str_eq;

verus! {

/// Number of samples analysed at once for vowels.
pub const FFT_SIZE: usize = 2048;

/// Collects audio samples until a full analysis window is available.
pub struct SampleWindow<T> {
    buffer: Vec<T>,
    size: usize,
}

impl<T: Copy> SampleWindow<T> {
    /// The samples collected so far.
    pub closed spec fn pending(self) -> Seq<T> {
        self.buffer@
    }

    /// The number of samples in a window.
    pub closed spec fn window_size(self) -> nat {
        self.size as nat
    }

    /// An empty collector of windows of `size` samples.
    pub fn new(size: usize) -> (w: SampleWindow<T>)
        ensures
            w.pending() == Seq::<T>::empty(),
            w.window_size() == size,
    {
        SampleWindow { buffer: Vec::new(), size }
    }

    /// The number of samples in a window.
    pub fn size(&self) -> (n: usize)
        ensures
            n == self.window_size(),
    {
        self.size
    }

    /// Drops the samples collected so far.
    pub fn clear(&mut self)
        ensures
            final(self).pending() == Seq::<T>::empty(),
            final(self).window_size() == old(self).window_size(),
    {
        self.buffer.clear();
    }

    /// Adds `samples` to those collected. Once at least a window's worth is
    /// collected, returns the last `window_size` samples and starts over
    /// empty; otherwise keeps them all and returns `None`.
    pub fn push(&mut self, samples: &[T]) -> (window: Option<Vec<T>>)
        ensures
            final(self).window_size() == old(self).window_size(),
            ({
                let all = old(self).pending() + samples@;
                if all.len() >= old(self).window_size() {
                    &&& window is Some
                    &&& window->0@ == all.subrange(
                        all.len() - old(self).window_size(),
                        all.len() as int,
                    )
                    &&& final(self).pending() == Seq::<T>::empty()
                } else {
                    &&& window is None
                    &&& final(self).pending() == all
                }
            }),
    {
        let ghost all = self.buffer@ + samples@;
        let n = samples.len();
        let mut i: usize = 0;
        while i < n
            invariant
                n == samples@.len(),
                i <= n,
                all == old(self).buffer@ + samples@,
                self.size == old(self).size,
                self.buffer@ == old(self).buffer@ + samples@.take(i as int),
            decreases n - i,
        {
            self.buffer.push(samples[i]);
            i = i + 1;
        }
        assert(samples@.take(n as int) =~= samples@);
        let len = self.buffer.len();
        if len >= self.size {
            let excess = len - self.size;
            let mut window: Vec<T> = Vec::new();
            let mut j: usize = excess;
            while j < len
                invariant
                    excess <= j <= len,
                    len == self.buffer@.len(),
                    self.buffer@ == all,
                    window@ == all.subrange(excess as int, j as int),
                decreases len - j,
            {
                window.push(self.buffer[j]);
                j = j + 1;
            }
            self.buffer.clear();
            Some(window)
        } else {
            None
        }
    }
}

/// Whether the audio capture callback of a microphone source is attached.
pub struct CaptureLink {
    attached: bool,
}

impl CaptureLink {
    /// The callback is attached.
    pub closed spec fn is_attached(self) -> bool {
        self.attached
    }

    /// A link whose callback was just attached.
    pub fn attached() -> (link: CaptureLink)
        ensures
            link.is_attached(),
    {
        CaptureLink { attached: true }
    }

    /// Whether the callback is attached.
    pub fn attached_now(&self) -> (r: bool)
        ensures
            r == self.is_attached(),
    {
        self.attached
    }

    /// Stops listening. Returns whether the callback has to be removed
    /// now, which is when it was attached.
    pub fn pause(&mut self) -> (detach: bool)
        ensures
            detach == old(self).is_attached(),
            !final(self).is_attached(),
    {
        if !self.attached {
            return false;
        }
        self.attached = false;
        true
    }

    /// Listens again. Returns whether the callback has to be added now,
    /// which is when it was not attached.
    pub fn resume(&mut self) -> (attach: bool)
        ensures
            attach == !old(self).is_attached(),
            final(self).is_attached(),
    {
        if self.attached {
            return false;
        }
        self.attached = true;
        true
    }
}

/// A microphone can be looked up by this name: it is not empty and, as
/// the name is handed on as a C string, holds no NUL character.
pub open spec fn nameable_source(name: Seq<char>) -> bool {
    name.len() > 0 && !name.contains('\0')
}

/// Whether a microphone can be looked up by `name`.
pub fn can_name_source(name: &str) -> (r: bool)
    ensures
        r == nameable_source(name@),
{
    let n = name.unicode_len();
    if n == 0 {
        return false;
    }
    let mut i: usize = 0;
    while i < n
        invariant
            n == name@.len(),
            i <= n,
            forall|j: int| 0 <= j < i ==> name@[j] != '\0',
        decreases n - i,
    {
        if name.get_char(i) == '\0' {
            return false;
        }
        i = i + 1;
    }
    true
}

/// Whether the microphone must be subscribed to anew: the `mic_source`
/// setting now names another source than the one subscribed to.
pub fn needs_resubscribe(current: &String, requested: &String) -> (r: bool)
    ensures
        r == (requested@ != current@),
{
    !str_eq(requested.as_str(), current.as_str())
}

} // verus!
