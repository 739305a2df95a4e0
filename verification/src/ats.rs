//! The panel and the sounds that a safety device writes to.
use vstd::prelude::*;
use crate::structure::PanelId;
use crate::structure::SoundControl;
use crate::structure::SoundId;

verus! {

/// The panel values and sound instructions of one frame, borrowed from the
/// simulator for the time it takes to fill them in.
pub struct PanelSound<'a> {
    pub panel: &'a mut [i32; 256],
    pub sound: &'a mut [SoundControl; 256],
}

impl<'a> PanelSound<'a> {
    /// Takes the two arrays on loan: what they hold stays, and what is
    /// written through the loan is what the lender finds afterwards.
    pub fn new(panel: &'a mut [i32; 256], sound: &'a mut [SoundControl; 256]) -> (r: Self)
        ensures
            *r.panel == *old(panel),
            *r.sound == *old(sound),
            *final(r.panel) == *final(panel),
            *final(r.sound) == *final(sound),
    {
        Self { panel, sound }
    }

    /// Sets the panel value at `panel` to `value` and leaves the rest alone.
    pub fn set_panel(&mut self, panel: PanelId, value: i32)
        ensures
            (*final(self).panel)@ == (*old(self).panel)@.update(panel.0 as int, value),
            *final(self).sound == *old(self).sound,
            *final(final(self).panel) == *final(old(self).panel),
            *final(final(self).sound) == *final(old(self).sound),
    {
        self.panel[panel.0 as usize] = value;
    }

    /// Sets the sound instruction at `sound` to `value` and leaves the rest
    /// alone.
    pub fn set_sound(&mut self, sound: SoundId, value: SoundControl)
        ensures
            (*final(self).sound)@ == (*old(self).sound)@.update(sound.0 as int, value),
            *final(self).panel == *old(self).panel,
            *final(final(self).panel) == *final(old(self).panel),
            *final(final(self).sound) == *final(old(self).sound),
    {
        self.sound[sound.0 as usize] = value;
    }
}

} // verus!
