//! State of the debug overlay: the frame-rate history and the light switch.
use vstd::prelude::*;

verus! {

/// How many frame-rate samples the overlay keeps.
pub const FPS_HISTORY_LEN: usize = 60;

/// The history after recording sample `v`: `v` is appended, and the oldest
/// sample is dropped when the history would grow past `FPS_HISTORY_LEN`.
pub open spec fn history_after(h: Seq<u64>, v: u64) -> Seq<u64> {
    if h.len() + 1 > FPS_HISTORY_LEN {
        h.push(v).drop_first()
    } else {
        h.push(v)
    }
}

/// The history after recording `samples`, in order, into an empty one.
pub open spec fn history_of(samples: Seq<u64>) -> Seq<u64>
    decreases samples.len(),
{
    if samples.len() == 0 {
        Seq::empty()
    } else {
        history_after(history_of(samples.drop_last()), samples.last())
    }
}

/// The last `FPS_HISTORY_LEN` of `samples`, or all of them when there are fewer.
pub open spec fn last_samples(samples: Seq<u64>) -> Seq<u64> {
    if samples.len() <= FPS_HISTORY_LEN {
        samples
    } else {
        samples.subrange(samples.len() - FPS_HISTORY_LEN, samples.len() as int)
    }
}

/// Recording one more sample into the history of `samples` gives the history
/// of `samples` with that sample appended.
pub proof fn lemma_record_extends_history(samples: Seq<u64>, v: u64)
    ensures
        history_after(history_of(samples), v) == history_of(samples.push(v)),
{
    assert(samples.push(v).drop_last() =~= samples);
}

/// Whatever samples a fresh overlay records, in whatever number, its history
/// holds the last `FPS_HISTORY_LEN` of them (all of them while there are
/// fewer), oldest first, and never more than `FPS_HISTORY_LEN`.
pub proof fn lemma_history_of_samples(samples: Seq<u64>)
    ensures
        history_of(samples) == last_samples(samples),
        history_of(samples).len() <= FPS_HISTORY_LEN,
    decreases samples.len(),
{
    if samples.len() > 0 {
        let before = samples.drop_last();
        let v = samples.last();
        lemma_history_of_samples(before);
        if before.len() < FPS_HISTORY_LEN {
            assert(before.push(v) =~= samples);
        } else {
            let n = samples.len() as int;
            assert(history_of(before) == before.subrange(n - 1 - 60, n - 1));
            assert(history_of(before).push(v).drop_first() =~= samples.subrange(n - 60, n));
        }
    }
}

/// State of the debug overlay. Frame rates are IEEE-754 binary64 bit patterns.
#[derive(Debug)]
pub struct DebugUiSystem {
    pub fps: u64,
    pub fps_history: Vec<u64>,
    pub show_light_toggle: bool,
    pub light_enabled: bool,
}

impl DebugUiSystem {
    /// A fresh overlay: frame rate `0.0`, no history, light switch shown and on.
    pub fn new() -> (s: DebugUiSystem)
        ensures
            s.fps == 0,
            s.fps_history@ == Seq::<u64>::empty(),
            s.show_light_toggle,
            s.light_enabled,
    {
        DebugUiSystem {
            fps: 0,
            fps_history: Vec::with_capacity(FPS_HISTORY_LEN),
            show_light_toggle: true,
            light_enabled: true,
        }
    }

    /// Records the frame rate of the last frame.
    pub fn record_fps(&mut self, fps: u64)
        ensures
            final(self).fps == fps,
            final(self).fps_history@ == history_after(old(self).fps_history@, fps),
            old(self).fps_history@.len() <= FPS_HISTORY_LEN ==> final(self).fps_history@.len()
                <= FPS_HISTORY_LEN,
            final(self).show_light_toggle == old(self).show_light_toggle,
            final(self).light_enabled == old(self).light_enabled,
    {
        self.fps = fps;
        self.fps_history.push(fps);
        if self.fps_history.len() > FPS_HISTORY_LEN {
            self.fps_history.remove(0);
        }
    }

    /// Whether the main light is switched on.
    pub fn is_light_enabled(&self) -> (r: bool)
        ensures
            r == self.light_enabled,
    {
        self.light_enabled
    }

    /// Switches the main light over.
    pub fn toggle_light(&mut self)
        ensures
            final(self).light_enabled == !old(self).light_enabled,
            final(self).fps == old(self).fps,
            final(self).fps_history@ == old(self).fps_history@,
            final(self).show_light_toggle == old(self).show_light_toggle,
    {
        self.light_enabled = !self.light_enabled;
    }
}

impl Default for DebugUiSystem {
    /// Same as `DebugUiSystem::new`.
    fn default() -> (s: DebugUiSystem)
        ensures
            s.fps == 0,
            s.fps_history@ == Seq::<u64>::empty(),
            s.show_light_toggle,
            s.light_enabled,
    {
        DebugUiSystem::new()
    }
}

/// A history kept within `FPS_HISTORY_LEN` samples stays within it, ends with
/// the newest sample, and keeps every older sample while there is room.
pub proof fn lemma_history_window(h: Seq<u64>, v: u64)
    requires
        h.len() <= FPS_HISTORY_LEN,
    ensures
        history_after(h, v).len() <= FPS_HISTORY_LEN,
        history_after(h, v).last() == v,
        h.len() < FPS_HISTORY_LEN ==> history_after(h, v) == h.push(v),
        h.len() == FPS_HISTORY_LEN ==> history_after(h, v) == h.subrange(1, h.len() as int).push(v),
{
    if h.len() == FPS_HISTORY_LEN {
        assert(h.push(v).drop_first() =~= h.subrange(1, h.len() as int).push(v));
    }
}

/// Switching the main light over twice leaves the overlay as it was.
pub proof fn lemma_toggle_light_twice(a: DebugUiSystem, b: DebugUiSystem, c: DebugUiSystem)
    requires
        b.light_enabled == !a.light_enabled,
        b.fps == a.fps,
        b.fps_history@ == a.fps_history@,
        b.show_light_toggle == a.show_light_toggle,
        c.light_enabled == !b.light_enabled,
        c.fps == b.fps,
        c.fps_history@ == b.fps_history@,
        c.show_light_toggle == b.show_light_toggle,
    ensures
        c.light_enabled == a.light_enabled,
        c.fps == a.fps,
        c.fps_history@ == a.fps_history@,
        c.show_light_toggle == a.show_light_toggle,
{
}

} // verus!
