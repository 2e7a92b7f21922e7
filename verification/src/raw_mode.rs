//! Deriving the raw-mode attributes from a snapshot.
//!
//! Raw mode switches off six things and fixes two control-character slots.
//! Which bit stands for which switch, and which slot holds which value, is the
//! platform's business: `libc` knows it. The derivation itself is written for
//! any layout and proved for every one of them.

use vstd::prelude::*;
use crate::attributes::{copy_slots, AttributesView, TerminalAttributes};

verus! {

/// Where a platform keeps the switches and slots that raw mode touches.
///
/// The first six fields are bit masks: two in the input flags, one in the
/// output flags, three in the local flags. The last two are positions among
/// the control-character slots.
#[derive(Clone, Copy, Debug, PartialEq, Eq)]
pub struct FlagLayout {
    /// Input flag: carriage return is translated to newline.
    pub carriage_return_to_newline: u64,
    /// Input flag: start/stop flow control of output.
    pub flow_control: u64,
    /// Output flag: output is post-processed.
    pub post_processing: u64,
    /// Local flag: input is echoed.
    pub echo: u64,
    /// Local flag: input is delivered line by line.
    pub canonical: u64,
    /// Local flag: interrupt, quit and suspend characters raise signals.
    pub signals: u64,
    /// Slot of the minimum number of bytes a read waits for.
    pub min_slot: usize,
    /// Slot of the read timeout.
    pub time_slot: usize,
}

/// No platform keeps either of its two slots at this position or beyond it.
pub const SLOT_BOUND: usize = 18;

impl FlagLayout {
    /// Whether the two slots are two different slots below `SLOT_BOUND`, as
    /// they are on every platform.
    pub open spec fn has_platform_slots(self) -> bool {
        &&& self.min_slot != self.time_slot
        &&& self.min_slot < SLOT_BOUND
        &&& self.time_slot < SLOT_BOUND
    }

    /// The input flag bits that raw mode clears.
    pub open spec fn input_mask(self) -> u64 {
        self.carriage_return_to_newline | self.flow_control
    }

    /// The output flag bits that raw mode clears.
    pub open spec fn output_mask(self) -> u64 {
        self.post_processing
    }

    /// The local flag bits that raw mode clears.
    pub open spec fn local_mask(self) -> u64 {
        self.echo | self.canonical | self.signals
    }

    /// Whether both slots exist in the snapshot and are two different slots.
    pub open spec fn fits(self, attrs: AttributesView) -> bool {
        &&& self.min_slot < attrs.control_chars.len()
        &&& self.time_slot < attrs.control_chars.len()
        &&& self.min_slot != self.time_slot
    }
}

/// The raw-mode variant of a snapshot under a layout: the masked flag bits
/// cleared, the minimum read count 1, the read timeout 0, all else as it was.
pub open spec fn raw_mode_of(original: AttributesView, layout: FlagLayout) -> AttributesView {
    AttributesView {
        input_flags: original.input_flags & !layout.input_mask(),
        output_flags: original.output_flags & !layout.output_mask(),
        local_flags: original.local_flags & !layout.local_mask(),
        control_chars: original.control_chars.update(layout.min_slot as int, 1u8).update(
            layout.time_slot as int,
            0u8,
        ),
        ..original
    }
}

/// Whether bit number `bit` of a flag word is set.
pub open spec fn flag_at(word: u64, bit: u64) -> bool {
    (word >> bit) & 1 == 1
}

/// Derives the raw-mode attributes from a snapshot under a given layout.
///
/// Returns `None` exactly when the layout does not fit the snapshot, that is
/// when one of its slots lies beyond the snapshot's control characters or the
/// two slots coincide.
pub fn raw_attributes(original: &TerminalAttributes, layout: &FlagLayout) -> (raw: Option<
    TerminalAttributes,
>)
    ensures
        match raw {
            Some(r) => layout.fits(original@) && r@ == raw_mode_of(original@, *layout),
            None => !layout.fits(original@),
        },
{
    let slots = original.control_chars.len();
    if layout.min_slot >= slots || layout.time_slot >= slots || layout.min_slot
        == layout.time_slot {
        return None;
    }
    let mut control_chars = copy_slots(&original.control_chars);
    control_chars.set(layout.min_slot, 1);
    control_chars.set(layout.time_slot, 0);
    Some(
        TerminalAttributes {
            input_flags: original.input_flags & !(layout.carriage_return_to_newline
                | layout.flow_control),
            output_flags: original.output_flags & !layout.post_processing,
            control_flags: original.control_flags,
            local_flags: original.local_flags & !(layout.echo | layout.canonical | layout.signals),
            line_discipline: original.line_discipline,
            control_chars,
            input_speed: original.input_speed,
            output_speed: original.output_speed,
        },
    )
}

/// `libc::ICRNL`, widened to `u64`. Its value differs between platforms, so
/// nothing is claimed of it.
#[verifier::external_body]
fn platform_icrnl() -> u64 {
    libc::ICRNL as u64
}

/// `libc::IXON`, widened to `u64`. Nothing is claimed of its value.
#[verifier::external_body]
fn platform_ixon() -> u64 {
    libc::IXON as u64
}

/// `libc::OPOST`, widened to `u64`. Nothing is claimed of its value.
#[verifier::external_body]
fn platform_opost() -> u64 {
    libc::OPOST as u64
}

/// `libc::ECHO`, widened to `u64`. Nothing is claimed of its value.
#[verifier::external_body]
fn platform_echo() -> u64 {
    libc::ECHO as u64
}

/// `libc::ICANON`, widened to `u64`. Nothing is claimed of its value.
#[verifier::external_body]
fn platform_icanon() -> u64 {
    libc::ICANON as u64
}

/// `libc::ISIG`, widened to `u64`. Nothing is claimed of its value.
#[verifier::external_body]
fn platform_isig() -> u64 {
    libc::ISIG as u64
}

/// `libc::VMIN` and `libc::VTIME` as a pair of `usize`, in that order. Their
/// values differ between platforms. Claimed is what holds on every platform
/// that `libc` knows: the two are different, and both are below 18 (the
/// greatest `VMIN` is 16, the greatest `VTIME` 17).
#[verifier::external_body]
fn platform_slots() -> (slots: (usize, usize))
    ensures
        slots.0 != slots.1,
        slots.0 < SLOT_BOUND,
        slots.1 < SLOT_BOUND,
{
    (libc::VMIN as usize, libc::VTIME as usize)
}

/// The layout of the platform this crate was built for, as `libc` gives it.
///
/// Its two slots are different slots below `SLOT_BOUND`, so it fits every
/// snapshot of that many slots or more. Nothing is known of its masks before
/// the program runs: a caller who wants to hold attributes against the layout
/// asks for it here and hands it to `raw_attributes`.
pub fn platform_layout() -> (layout: FlagLayout)
    ensures
        layout.has_platform_slots(),
{
    let slots = platform_slots();
    FlagLayout {
        carriage_return_to_newline: platform_icrnl(),
        flow_control: platform_ixon(),
        post_processing: platform_opost(),
        echo: platform_echo(),
        canonical: platform_icanon(),
        signals: platform_isig(),
        min_slot: slots.0,
        time_slot: slots.1,
    }
}

/// Derives the raw-mode attributes from a freshly captured snapshot, under the
/// layout of the platform this crate was built for.
///
/// A snapshot of `SLOT_BOUND` slots or more always has a raw-mode variant: no
/// platform keeps its two slots beyond that, or both in one. A snapshot with
/// fewer than two slots has none. The result, where there is one, is the
/// raw-mode variant of the snapshot under a layout that fits it and has a
/// platform's slots. Which masks that layout has is not known before the
/// program runs; `raw_attributes` states the same for a layout given, and
/// `platform_layout` gives the layout. Whatever the layout, the result keeps
/// the control flags, the line discipline, the speeds and the number of
/// slots, and sets no flag bit that the snapshot did not hold.
pub fn enable_raw_mode(original: &TerminalAttributes) -> (raw: Option<TerminalAttributes>)
    ensures
        original.control_chars.len() >= SLOT_BOUND ==> raw is Some,
        raw matches Some(r) ==> exists|layout: FlagLayout|
            #[trigger] layout.fits(original@) && layout.has_platform_slots() && r@ == raw_mode_of(
                original@,
                layout,
            ),
        raw matches Some(r) ==> r.control_flags == original.control_flags && r.line_discipline
            == original.line_discipline && r.input_speed == original.input_speed && r.output_speed
            == original.output_speed && r.control_chars.len() == original.control_chars.len(),
        raw matches Some(r) ==> r.input_flags & !original.input_flags == 0 && r.output_flags
            & !original.output_flags == 0 && r.local_flags & !original.local_flags == 0,
        original.control_chars.len() < 2 ==> raw is None,
{
    let layout = platform_layout();
    proof {
        lemma_raw_mode_sets_no_bit(original@, layout);
    }
    raw_attributes(original, &layout)
}

/// Raw mode clears exactly the bits of the layout's masks. In each of the
/// three flag words it touches, a bit of the result is set if and only if it
/// was set in the snapshot and the word's mask does not hold it.
pub proof fn lemma_raw_mode_clears_exactly(original: AttributesView, layout: FlagLayout, bit: u64)
    requires
        bit < 64,
    ensures
        flag_at(raw_mode_of(original, layout).input_flags, bit) == (flag_at(
            original.input_flags,
            bit,
        ) && !flag_at(layout.input_mask(), bit)),
        flag_at(raw_mode_of(original, layout).output_flags, bit) == (flag_at(
            original.output_flags,
            bit,
        ) && !flag_at(layout.output_mask(), bit)),
        flag_at(raw_mode_of(original, layout).local_flags, bit) == (flag_at(
            original.local_flags,
            bit,
        ) && !flag_at(layout.local_mask(), bit)),
{
    lemma_cleared_bit(original.input_flags, layout.input_mask(), bit);
    lemma_cleared_bit(original.output_flags, layout.output_mask(), bit);
    lemma_cleared_bit(original.local_flags, layout.local_mask(), bit);
}

/// A mask of raw mode holds a bit if and only if one of the switches that the
/// mask is made of holds it.
pub proof fn lemma_masks_hold_the_switches(layout: FlagLayout, bit: u64)
    requires
        bit < 64,
    ensures
        flag_at(layout.input_mask(), bit) == (flag_at(layout.carriage_return_to_newline, bit)
            || flag_at(layout.flow_control, bit)),
        flag_at(layout.output_mask(), bit) == flag_at(layout.post_processing, bit),
        flag_at(layout.local_mask(), bit) == (flag_at(layout.echo, bit) || flag_at(
            layout.canonical,
            bit,
        ) || flag_at(layout.signals, bit)),
{
    let a = layout.carriage_return_to_newline;
    let b = layout.flow_control;
    assert((((a | b) >> bit) & 1 == 1) == (((a >> bit) & 1 == 1) || ((b >> bit) & 1 == 1)))
        by (bit_vector)
        requires
            bit < 64,
    ;
    let e = layout.echo;
    let c = layout.canonical;
    let s = layout.signals;
    assert((((e | c | s) >> bit) & 1 == 1) == (((e >> bit) & 1 == 1) || ((c >> bit) & 1 == 1) || ((
    s >> bit) & 1 == 1))) by (bit_vector)
        requires
            bit < 64,
    ;
}

/// Raw mode leaves alone what it does not own: the control flags, the line
/// discipline, both speeds, and every control-character slot but the two of
/// the layout. Those two hold 1, the minimum read count, and 0, the timeout.
pub proof fn lemma_raw_mode_keeps_the_rest(original: AttributesView, layout: FlagLayout)
    requires
        layout.fits(original),
    ensures
        raw_mode_of(original, layout).control_flags == original.control_flags,
        raw_mode_of(original, layout).line_discipline == original.line_discipline,
        raw_mode_of(original, layout).input_speed == original.input_speed,
        raw_mode_of(original, layout).output_speed == original.output_speed,
        raw_mode_of(original, layout).control_chars.len() == original.control_chars.len(),
        raw_mode_of(original, layout).control_chars[layout.min_slot as int] == 1,
        raw_mode_of(original, layout).control_chars[layout.time_slot as int] == 0,
        forall|i: int|
            0 <= i < original.control_chars.len() && i != layout.min_slot && i != layout.time_slot
                ==> raw_mode_of(original, layout).control_chars[i] == original.control_chars[i],
{
}

/// Raw mode sets no bit. Each flag word of the result holds only bits that
/// the snapshot's word held, so as a number it is no greater, and it fits
/// into whatever width the snapshot's word came from.
pub proof fn lemma_raw_mode_sets_no_bit(original: AttributesView, layout: FlagLayout)
    ensures
        raw_mode_of(original, layout).input_flags & !original.input_flags == 0,
        raw_mode_of(original, layout).output_flags & !original.output_flags == 0,
        raw_mode_of(original, layout).local_flags & !original.local_flags == 0,
        raw_mode_of(original, layout).input_flags <= original.input_flags,
        raw_mode_of(original, layout).output_flags <= original.output_flags,
        raw_mode_of(original, layout).local_flags <= original.local_flags,
{
    lemma_cleared_word(original.input_flags, layout.input_mask());
    lemma_cleared_word(original.output_flags, layout.output_mask());
    lemma_cleared_word(original.local_flags, layout.local_mask());
}

/// Raw mode of raw mode is raw mode: deriving it a second time, under the same
/// layout, changes nothing.
pub proof fn lemma_raw_mode_is_idempotent(original: AttributesView, layout: FlagLayout)
    requires
        layout.fits(original),
    ensures
        layout.fits(raw_mode_of(original, layout)),
        raw_mode_of(raw_mode_of(original, layout), layout) == raw_mode_of(original, layout),
{
    let once = raw_mode_of(original, layout);
    let twice = raw_mode_of(once, layout);
    lemma_cleared_twice(original.input_flags, layout.input_mask());
    lemma_cleared_twice(original.output_flags, layout.output_mask());
    lemma_cleared_twice(original.local_flags, layout.local_mask());
    assert(twice.control_chars =~= once.control_chars);
}

/// Clearing a mask from a word a second time changes nothing.
proof fn lemma_cleared_twice(word: u64, mask: u64)
    ensures
        (word & !mask) & !mask == word & !mask,
{
    assert((word & !mask) & !mask == word & !mask) by (bit_vector);
}

/// `word & !mask` holds no bit that `word` lacks, and is no greater.
proof fn lemma_cleared_word(word: u64, mask: u64)
    ensures
        (word & !mask) & !word == 0,
        word & !mask <= word,
{
    assert((word & !mask) & !word == 0) by (bit_vector);
    assert(word & !mask <= word) by (bit_vector);
}

/// Bit `bit` of `word & !mask` is set if and only if it is set in `word` and
/// not in `mask`.
proof fn lemma_cleared_bit(word: u64, mask: u64, bit: u64)
    requires
        bit < 64,
    ensures
        flag_at(word & !mask, bit) == (flag_at(word, bit) && !flag_at(mask, bit)),
{
    assert((((word & !mask) >> bit) & 1 == 1) == (((word >> bit) & 1 == 1) && !((mask >> bit) & 1
        == 1))) by (bit_vector)
        requires
            bit < 64,
    ;
}

} // verus!
