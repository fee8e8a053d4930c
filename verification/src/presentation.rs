//! What the compositor tells a window about time: when input happened, when
//! a frame reached the screen and how, and at what scale it would like the
//! window drawn.
//!
//! Surfaces are known by the numeric id that the display protocol gives
//! them.

use crate::timing::NANOS_PER_SECOND;
use vstd::prelude::*;
use wayland_protocols::wp::presentation_time::client::wp_presentation_feedback::Kind;

verus! {

/// The 64-bit number whose upper half is `hi` and whose lower half is `lo`.
pub open spec fn joined(hi: u32, lo: u32) -> int {
    hi * 0x1_0000_0000 + lo
}

/// The instant, in nanoseconds, that is written as whole seconds in two
/// halves plus a nanosecond part.
pub open spec fn instant_nanos(tv_sec_hi: u32, tv_sec_lo: u32, tv_nsec: u32) -> int {
    joined(tv_sec_hi, tv_sec_lo) * NANOS_PER_SECOND + tv_nsec
}

/// How a frame reached the screen.
#[derive(Debug, Clone, Copy, PartialEq, Eq, Structural)]
pub struct PresentationKind {
    /// The presentation was synchronised to the display's vertical retrace.
    pub vsync: bool,
    /// The display hardware provided the timestamp.
    pub hw_clock: bool,
    /// The display hardware signalled the start of the presentation.
    pub hw_completion: bool,
    /// The buffer went to the display without being copied.
    pub zero_copy: bool,
}

impl PresentationKind {
    /// The kind that a bit mask of presentation flags stands for. Bits other
    /// than the four lowest have no meaning.
    pub open spec fn of_flags(flags: u32) -> PresentationKind {
        PresentationKind {
            vsync: flags & 0x1 != 0,
            hw_clock: flags & 0x2 != 0,
            hw_completion: flags & 0x4 != 0,
            zero_copy: flags & 0x8 != 0,
        }
    }
}

/// What the compositor reported of one presented frame.
#[derive(Debug, Clone, Copy, PartialEq, Eq, Structural)]
pub struct PresentationFeedback {
    /// Instant at which the frame turned into light, in nanoseconds.
    pub time_nanos: u64,
    /// Nanoseconds until the display refreshes next.
    pub refresh: u32,
    /// The display's refresh counter at the presentation.
    pub msc: u64,
    /// How the frame was presented.
    pub kind: PresentationKind,
}

/// What is known of one window's surface from the compositor's reports.
#[derive(Debug, Clone, Copy, PartialEq, Eq, Structural)]
pub struct SurfaceTiming {
    /// Id of the surface.
    pub surface: u32,
    /// Instant at which its most recent frame was presented.
    pub last_presentation_time: Option<u64>,
    /// The scale that the compositor prefers for it, in 120ths.
    pub current_fractional_scale: Option<u32>,
}

/// Index of the first entry at or after `from` that belongs to `surface`, if
/// there is one.
pub open spec fn find_from(windows: Seq<SurfaceTiming>, surface: u32, from: int) -> Option<int>
    decreases windows.len() - from,
{
    if from < 0 || from >= windows.len() {
        None
    } else if windows[from].surface == surface {
        Some(from)
    } else {
        find_from(windows, surface, from + 1)
    }
}

/// Reads a mask of presentation flags with `Kind::from_bits_truncate` and
/// `Kind::contains` of the `wayland-protocols` crate.
///
/// Not proved: that `Kind` gives `Vsync`, `HwClock`, `HwCompletion` and
/// `ZeroCopy` the bits 0x1, 0x2, 0x4 and 0x8, as the presentation-time
/// protocol defines them, and that `contains` tests exactly that bit.
#[verifier::external_body]
fn decode_kind(flags: u32) -> (kind: PresentationKind)
    ensures
        kind == PresentationKind::of_flags(flags),
{
    let kind = Kind::from_bits_truncate(flags);
    PresentationKind {
        vsync: kind.contains(Kind::Vsync),
        hw_clock: kind.contains(Kind::HwClock),
        hw_completion: kind.contains(Kind::HwCompletion),
        zero_copy: kind.contains(Kind::ZeroCopy),
    }
}

/// Joins the two halves of a 64-bit number.
pub fn join_halves(hi: u32, lo: u32) -> (whole: u64)
    ensures
        whole == joined(hi, lo),
{
    let upper: u64 = (hi as u64) << 32;
    let whole: u64 = upper | (lo as u64);
    assert(whole == hi * 0x1_0000_0000 + lo) by (bit_vector)
        requires
            upper == (hi as u64) << 32,
            whole == upper | (lo as u64),
    ;
    whole
}

/// The instant of a compositor timestamp, in nanoseconds.
pub fn timestamp_nanos(tv_sec_hi: u32, tv_sec_lo: u32, tv_nsec: u32) -> (nanos: u64)
    requires
        instant_nanos(tv_sec_hi, tv_sec_lo, tv_nsec) <= u64::MAX,
    ensures
        nanos == instant_nanos(tv_sec_hi, tv_sec_lo, tv_nsec),
{
    let tv_sec: u64 = join_halves(tv_sec_hi, tv_sec_lo);
    assert(tv_sec * NANOS_PER_SECOND <= instant_nanos(tv_sec_hi, tv_sec_lo, tv_nsec));
    tv_sec * NANOS_PER_SECOND + tv_nsec as u64
}

/// Whether a compositor timestamp can be held in 64 bits of nanoseconds.
pub fn timestamp_fits(tv_sec_hi: u32, tv_sec_lo: u32, tv_nsec: u32) -> (fits: bool)
    ensures
        fits == (instant_nanos(tv_sec_hi, tv_sec_lo, tv_nsec) <= u64::MAX),
{
    let tv_sec: u64 = join_halves(tv_sec_hi, tv_sec_lo);
    match tv_sec.checked_mul(NANOS_PER_SECOND) {
        Some(whole) => whole.checked_add(tv_nsec as u64).is_some(),
        None => false,
    }
}

/// Puts together the report of a presented frame from the fields of the
/// compositor's event.
pub fn presented(
    tv_sec_hi: u32,
    tv_sec_lo: u32,
    tv_nsec: u32,
    refresh: u32,
    seq_hi: u32,
    seq_lo: u32,
    flags: u32,
) -> (feedback: PresentationFeedback)
    requires
        instant_nanos(tv_sec_hi, tv_sec_lo, tv_nsec) <= u64::MAX,
    ensures
        feedback.time_nanos == instant_nanos(tv_sec_hi, tv_sec_lo, tv_nsec),
        feedback.refresh == refresh,
        feedback.msc == joined(seq_hi, seq_lo),
        feedback.kind == PresentationKind::of_flags(flags),
{
    let time_nanos = timestamp_nanos(tv_sec_hi, tv_sec_lo, tv_nsec);
    let kind = decode_kind(flags);
    let msc = join_halves(seq_hi, seq_lo);
    PresentationFeedback { time_nanos, refresh, msc, kind }
}

/// Finds the first entry that belongs to `surface`.
pub fn find_surface(windows: &Vec<SurfaceTiming>, surface: u32) -> (found: Option<usize>)
    ensures
        found is Some <==> find_from(windows@, surface, 0) is Some,
        found matches Some(index) ==> find_from(windows@, surface, 0) == Some(index as int)
            && index < windows.len() && windows[index as int].surface == surface,
        found is None <==> forall|i: int|
            0 <= i < windows.len() ==> (#[trigger] windows[i]).surface != surface,
{
    let mut index: usize = 0;
    while index < windows.len()
        invariant
            index <= windows.len(),
            find_from(windows@, surface, 0) == find_from(windows@, surface, index as int),
            forall|i: int| 0 <= i < index ==> (#[trigger] windows[i]).surface != surface,
        decreases windows.len() - index,
    {
        if windows[index].surface == surface {
            return Some(index);
        }
        index = index + 1;
    }
    None
}

/// Notes the instant at which the frame on `surface` was presented.
///
/// The first entry that belongs to the surface takes the instant; nothing
/// else changes. Returns whether there was such an entry.
pub fn record_presentation(
    windows: &mut Vec<SurfaceTiming>,
    surface: u32,
    time_nanos: u64,
) -> (known: bool)
    ensures
        known == find_from(old(windows)@, surface, 0) is Some,
        match find_from(old(windows)@, surface, 0) {
            Some(index) => final(windows)@ == old(windows)@.update(
                index,
                SurfaceTiming { last_presentation_time: Some(time_nanos), ..old(windows)@[index] },
            ),
            None => final(windows)@ == old(windows)@,
        },
{
    match find_surface(windows, surface) {
        Some(index) => {
            let entry = windows[index];
            windows.set(
                index,
                SurfaceTiming { last_presentation_time: Some(time_nanos), ..entry },
            );
            true
        },
        None => false,
    }
}

/// Notes the scale, in 120ths, that the compositor prefers for `surface`.
///
/// The first entry that belongs to the surface takes the scale; nothing else
/// changes. Returns whether there was such an entry.
pub fn record_fractional_scale(
    windows: &mut Vec<SurfaceTiming>,
    surface: u32,
    scale: u32,
) -> (known: bool)
    ensures
        known == find_from(old(windows)@, surface, 0) is Some,
        match find_from(old(windows)@, surface, 0) {
            Some(index) => final(windows)@ == old(windows)@.update(
                index,
                SurfaceTiming { current_fractional_scale: Some(scale), ..old(windows)@[index] },
            ),
            None => final(windows)@ == old(windows)@,
        },
{
    match find_surface(windows, surface) {
        Some(index) => {
            let entry = windows[index];
            windows.set(index, SurfaceTiming { current_fractional_scale: Some(scale), ..entry });
            true
        },
        None => false,
    }
}

} // verus!
