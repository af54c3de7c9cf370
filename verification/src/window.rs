use vstd::prelude::*;

verus! {

/// Descriptor of a sliding window: how many samples each sub-window spans,
/// plus a warm-up count that is carried for callers and never consumed by the
/// sliding computation itself.
pub struct Window {
    size: usize,
    ramp_up: usize,
}

impl Window {
    /// The number of samples a sub-window spans.
    pub closed spec fn size_spec(&self) -> usize {
        self.size
    }

    /// The number of leading output values a caller may treat as warm-up.
    pub closed spec fn ramp_up_spec(&self) -> usize {
        self.ramp_up
    }

    /// Every window spans at least one sample; construction enforces this.
    pub open spec fn wf(&self) -> bool {
        self.size_spec() >= 1
    }

    pub fn new(size: usize, ramp_up: usize) -> (w: Window)
        requires
            size >= 1,
        ensures
            w.wf(),
            w.size_spec() == size,
            w.ramp_up_spec() == ramp_up,
    {
        Window { size, ramp_up }
    }

    pub fn size(&self) -> (s: usize)
        ensures
            s == self.size_spec(),
    {
        self.size
    }

    pub fn ramp_up(&self) -> (r: usize)
        ensures
            r == self.ramp_up_spec(),
    {
        self.ramp_up
    }
}

/// The half-open bounds `[start, end)` of every contiguous sub-window of
/// `window` over a series of `len` samples, in left-to-right order. The
/// window is left-aligned: output position `i` corresponds exactly to the
/// sub-window starting at input index `i`, and there is one position for
/// every start index from `0` through `len - size`, so the output holds
/// `len - size + 1` entries.
pub fn window_bounds(len: usize, window: &Window) -> (bounds: Vec<(usize, usize)>)
    requires
        window.wf(),
        window.size_spec() <= len,
    ensures
        bounds.len() == len - window.size_spec() + 1,
        forall|i: int|
            0 <= i < bounds.len() ==> (#[trigger] bounds[i]).0 == i
                && bounds[i].1 == i + window.size_spec() && bounds[i].1 <= len,
{
    let size = window.size();
    let count = len - size + 1;
    let mut bounds: Vec<(usize, usize)> = Vec::new();
    let mut i: usize = 0;
    while i < count
        invariant
            size == window.size_spec(),
            1 <= size <= len,
            count == len - size + 1,
            i <= count,
            bounds.len() == i,
            forall|j: int|
                0 <= j < i ==> (#[trigger] bounds[j]).0 == j && bounds[j].1 == j + size
                    && bounds[j].1 <= len,
        decreases count - i,
    {
        bounds.push((i, i + size));
        i = i + 1;
    }
    bounds
}

} // verus!
