//! The mode catalog: the `(width, height, frame_interval)` tuples a device
//! supports, the rule that picks one interval per reported entry, and the
//! display form of a mode.

use vstd::prelude::*;

use crate::digits::{dec_rep, push_decimal};
use crate::fraction::Fraction;

verus! {

/// One operating mode of a camera: frame size and frame interval.
#[derive(Clone, Copy, Debug, PartialEq, Eq, Structural)]
pub struct CameraMode {
    pub width: u32,
    pub height: u32,
    pub frame_interval: Fraction,
}

/// A frame interval as the device enumerates it: either one discrete value,
/// or a stepwise range.
#[derive(Clone, Copy, Debug, PartialEq, Eq, Structural)]
pub enum FrameIntervalKind {
    Discrete(Fraction),
    Stepwise { min: Fraction, max: Fraction, step: Fraction },
}

/// Everything the device reports for one discrete frame size: the size and
/// the frame intervals available at that size, in the device's own order.
#[derive(Clone, Debug)]
pub struct FrameSizeIntervals {
    pub width: u32,
    pub height: u32,
    pub intervals: Vec<FrameIntervalKind>,
}

/// The interval taken from one enumerated entry: a discrete value as-is,
/// the minimum of a stepwise range.
pub open spec fn chosen_interval(k: FrameIntervalKind) -> Fraction {
    match k {
        FrameIntervalKind::Discrete(f) => f,
        FrameIntervalKind::Stepwise { min, max, step } => min,
    }
}

/// The modes contributed by one frame size, in the device's interval order.
pub open spec fn size_modes(s: FrameSizeIntervals) -> Seq<CameraMode> {
    s.intervals@.map_values(
        |k: FrameIntervalKind|
            CameraMode { width: s.width, height: s.height, frame_interval: chosen_interval(k) },
    )
}

/// The whole catalog: the modes of each frame size, concatenated in the
/// device's size order.
pub open spec fn catalog_spec(sizes: Seq<FrameSizeIntervals>) -> Seq<CameraMode>
    decreases sizes.len(),
{
    if sizes.len() == 0 {
        Seq::empty()
    } else {
        catalog_spec(sizes.drop_last()) + size_modes(sizes.last())
    }
}

/// The display form of a mode: `"{width}x{height} @{fps}fps"`, where the
/// printed rate is the interval's denominator (the frame rate whenever the
/// numerator is 1).
pub open spec fn mode_display_spec(m: CameraMode) -> Seq<char> {
    dec_rep(m.width as nat) + seq!['x'] + dec_rep(m.height as nat) + seq![' ', '@'] + dec_rep(
        m.frame_interval.denominator as nat,
    ) + seq!['f', 'p', 's']
}

/// Picks the interval of one enumerated entry.
pub fn interval_fraction(k: &FrameIntervalKind) -> (f: Fraction)
    ensures
        f == chosen_interval(*k),
{
    match k {
        FrameIntervalKind::Discrete(f) => *f,
        FrameIntervalKind::Stepwise { min, max, step } => *min,
    }
}

impl CameraMode {
    /// Builds the full mode catalog from the device's enumeration, keeping
    /// the device's native order. The last entry is by convention the
    /// highest-capability mode and serves as the default at worker start.
    pub fn fetch_all(sizes: &Vec<FrameSizeIntervals>) -> (modes: Vec<CameraMode>)
        ensures
            modes@ == catalog_spec(sizes@),
    {
        let mut modes: Vec<CameraMode> = Vec::new();
        let mut i: usize = 0;
        while i < sizes.len()
            invariant
                i <= sizes@.len(),
                modes@ == catalog_spec(sizes@.take(i as int)),
            decreases sizes@.len() - i,
        {
            let s = &sizes[i];
            let ghost base = modes@;
            let mut j: usize = 0;
            while j < s.intervals.len()
                invariant
                    j <= s.intervals@.len(),
                    modes@ == base + size_modes(*s).take(j as int),
                decreases s.intervals@.len() - j,
            {
                let f = interval_fraction(&s.intervals[j]);
                modes.push(CameraMode { width: s.width, height: s.height, frame_interval: f });
                proof {
                    assert(modes@ =~= base + size_modes(*s).take(j as int + 1));
                }
                j += 1;
            }
            proof {
                assert(size_modes(*s).take(s.intervals@.len() as int) =~= size_modes(*s));
                assert(sizes@.take(i as int + 1).drop_last() =~= sizes@.take(i as int));
                assert(sizes@.take(i as int + 1).last() == sizes@[i as int]);
                assert(modes@ =~= catalog_spec(sizes@.take(i as int + 1)));
            }
            i += 1;
        }
        proof {
            assert(sizes@.take(sizes@.len() as int) =~= sizes@);
        }
        modes
    }

    /// Renders the mode for display, digit by digit.
    pub fn to_string(&self) -> (s: String)
        ensures
            s@ == mode_display_spec(*self),
    {
        proof {
            reveal_strlit("x");
            reveal_strlit(" @");
            reveal_strlit("fps");
        }
        let mut s = String::new();
        push_decimal(&mut s, self.width);
        s.append("x");
        push_decimal(&mut s, self.height);
        s.append(" @");
        push_decimal(&mut s, self.frame_interval.denominator);
        s.append("fps");
        proof {
            assert("x"@ =~= seq!['x']);
            assert(" @"@ =~= seq![' ', '@']);
            assert("fps"@ =~= seq!['f', 'p', 's']);
            assert(s@ =~= mode_display_spec(*self));
        }
        s
    }
}

/// The mode a fresh worker starts in: the last catalog entry, which the
/// enumerator places as the highest-capability mode.
pub fn default_mode(modes: &Vec<CameraMode>) -> (r: Option<CameraMode>)
    ensures
        match r {
            Some(m) => modes@.len() > 0 && m == modes@.last(),
            None => modes@.len() == 0,
        },
{
    if modes.len() == 0 {
        None
    } else {
        Some(modes[modes.len() - 1])
    }
}

/// The display form of every mode, index-aligned with the catalog.
pub fn display_all(modes: &Vec<CameraMode>) -> (out: Vec<String>)
    ensures
        out@.len() == modes@.len(),
        forall|i: int| 0 <= i < modes@.len() ==> (#[trigger] out@[i])@ == mode_display_spec(modes@[i]),
{
    let mut out: Vec<String> = Vec::new();
    let mut i: usize = 0;
    while i < modes.len()
        invariant
            i <= modes@.len(),
            out@.len() == i,
            forall|k: int| 0 <= k < i ==> (#[trigger] out@[k])@ == mode_display_spec(modes@[k]),
        decreases modes@.len() - i,
    {
        out.push(modes[i].to_string());
        i += 1;
    }
    out
}

} // verus!
