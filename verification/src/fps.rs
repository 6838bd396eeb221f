//! The count of frames from which the frame rate is shown.

use vstd::prelude::*;

verus! {

/// Counts the frames drawn since the frame rate was last shown.
pub struct FPSHandler {
    images: usize,
}

impl View for FPSHandler {
    type V = nat;

    closed spec fn view(&self) -> nat {
        self.images as nat
    }
}

impl FPSHandler {
    /// A count of no frames.
    pub fn new() -> (handler: FPSHandler)
        ensures
            handler@ == 0,
    {
        FPSHandler { images: 0 }
    }

    /// The frames counted since the frame rate was last shown.
    pub fn images(&self) -> (images: usize)
        ensures
            images == self@,
    {
        self.images
    }

    /// Counts one frame. Where a third of a second has passed since the
    /// frame rate was last shown (`third_elapsed`), the rate to show now comes
    /// back: three times the frames counted before this one, and the count
    /// starts again.
    pub fn update(&mut self, third_elapsed: bool) -> (shown: Option<usize>)
        requires
            third_elapsed ==> old(self)@ * 3 <= usize::MAX,
            !third_elapsed ==> old(self)@ + 1 <= usize::MAX,
        ensures
            third_elapsed ==> shown == Some((old(self)@ * 3) as usize) && final(self)@ == 1,
            !third_elapsed ==> shown is None && final(self)@ == old(self)@ + 1,
    {
        let mut shown = None;
        if third_elapsed {
            shown = Some(self.images * 3);
            self.images = 0;
        }
        self.images += 1;
        shown
    }
}

} // verus!
