use vstd::prelude::*;

verus! {

// The hidden-input scope mutates a terminal's mode flags and restores them on
// every exit path.  The flag arithmetic and the scope discipline are what can
// go wrong, and both are proved here over a terminal's flags held as a plain
// word; the surrounding application copies these words into and out of the
// platform's own mode structure.

/// A terminal's mode flags, as one word.  On a POSIX system this stands for
/// the local-mode word of the terminal attributes; the platform layer moves
/// the word between this model and the real device.
pub struct TermState {
    pub flags: u64,
}

/// The snapshot taken when a hidden-input scope is entered.  Releasing it
/// restores exactly the flags captured at entry; at most one guard should be
/// live per underlying stream at a time, and nested guards must be released
/// in reverse order of acquisition.
pub struct ModeGuard {
    saved: u64,
}

impl ModeGuard {
    /// The flags captured when this guard was created.
    pub closed spec fn saved_flags(&self) -> u64 {
        self.saved
    }
}

/// The mode a terminal is put into while a secret is typed: echo off, but the
/// newline still echoed so the cursor advances when the user hits enter.
pub open spec fn hidden_flags(flags: u64, echo_mask: u64, echonl_mask: u64) -> u64 {
    (flags & !echo_mask) | echonl_mask
}

/// Computes the hidden-input mode word from the current one.  The platform
/// layer applies this to the real terminal with its own mask values.
pub fn hidden_mode_value(flags: u64, echo_mask: u64, echonl_mask: u64) -> (r: u64)
    ensures
        r == hidden_flags(flags, echo_mask, echonl_mask),
        echo_mask & echonl_mask == 0 ==> r & echo_mask == 0,
        r & echonl_mask == echonl_mask,
{
    proof {
        assert(echo_mask & echonl_mask == 0 ==> ((flags & !echo_mask) | echonl_mask) & echo_mask
            == 0) by (bit_vector);
        assert(((flags & !echo_mask) | echonl_mask) & echonl_mask == echonl_mask) by (bit_vector);
    }
    (flags & !echo_mask) | echonl_mask
}

/// Enters the hidden-input scope on `term`: captures the current flags in the
/// returned guard and applies the hidden mode, which suppresses echo and
/// keeps the newline echoed.
pub fn enter_hidden(term: &mut TermState, echo_mask: u64, echonl_mask: u64) -> (g: ModeGuard)
    ensures
        g.saved_flags() == old(term).flags,
        final(term).flags == hidden_flags(old(term).flags, echo_mask, echonl_mask),
        echo_mask & echonl_mask == 0 ==> final(term).flags & echo_mask == 0,
        final(term).flags & echonl_mask == echonl_mask,
{
    let g = ModeGuard { saved: term.flags };
    term.flags = hidden_mode_value(term.flags, echo_mask, echonl_mask);
    g
}

/// Leaves the hidden-input scope: reapplies the captured snapshot exactly,
/// whatever the flags are at that moment.  The guard is consumed, so one
/// acquisition is released at most once.
pub fn release_hidden(term: &mut TermState, g: ModeGuard)
    ensures
        final(term).flags == g.saved_flags(),
{
    term.flags = g.saved;
}

/// A second acquisition on a stream already in the hidden mode does not move
/// the mode any further, and releasing the two guards in reverse order of
/// acquisition leaves the flags exactly as they were before the first
/// acquisition: nesting cannot corrupt the restored mode.
pub proof fn lemma_nested_acquisition_restores(flags: u64, echo_mask: u64, echonl_mask: u64)
    requires
        echo_mask & echonl_mask == 0,
    ensures
        hidden_flags(hidden_flags(flags, echo_mask, echonl_mask), echo_mask, echonl_mask)
            == hidden_flags(flags, echo_mask, echonl_mask),
{
    assert((((flags & !echo_mask) | echonl_mask) & !echo_mask) | echonl_mask == (flags
        & !echo_mask) | echonl_mask) by (bit_vector)
        requires
            echo_mask & echonl_mask == 0,
    ;
}

} // verus!
