//! The state of one overlay session, updated by the display server's events.
use vstd::prelude::*;
use crate::hints::HintMap;
use crate::keyboard::{KeyDecoder, KeyPress};
use crate::selection::{after_press, initial_selection, verdict_of, Selection, Verdict};

verus! {

/// Everything one overlay session keeps between events: whether the surface
/// has been configured, the decoder's state and the selection.
pub struct SessionState {
    pub configured: bool,
    pub decoder: KeyDecoder,
    pub selection: Selection,
}

impl SessionState {
    /// A session before any event: not configured, no keymap, nothing typed.
    pub fn new() -> (r: SessionState)
        ensures
            !r.configured,
            !r.decoder.keymap_loaded,
            r.selection@ == initial_selection(),
    {
        SessionState { configured: false, decoder: KeyDecoder::new(), selection: Selection::new() }
    }

    /// Handles a configure request of the overlay surface: marks the surface
    /// configured and returns the serial to acknowledge, which is the one
    /// received.
    pub fn on_configure(&mut self, serial: u32) -> (ack: u32)
        ensures
            ack == serial,
            final(self).configured,
            final(self).decoder == old(self).decoder,
            final(self).selection == old(self).selection,
    {
        self.configured = true;
        serial
    }

    /// Whether a buffer may be attached: only after the first configure.
    pub fn may_attach(&self) -> (r: bool)
        ensures
            r == self.configured,
    {
        self.configured
    }

    /// Applies a decoded key press to the selection.
    pub fn on_key_press(&mut self, p: &KeyPress)
        ensures
            final(self).selection@ == after_press(old(self).selection@, *p),
            final(self).configured == old(self).configured,
            final(self).decoder == old(self).decoder,
    {
        self.selection.press(p);
    }

    /// The test made after each dispatched batch of events.
    pub fn after_dispatch(&self, hints: &HintMap) -> (r: Verdict)
        ensures
            r == verdict_of(hints@, self.selection@),
    {
        self.selection.verdict(hints)
    }
}

} // verus!
