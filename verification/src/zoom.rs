//! Display-scale model for the zoom menu commands.
//!
//! The rendered page's zoom factor moves in fixed steps of one tenth, with a
//! lower bound of one tenth and a reset value of one. The factor is modelled
//! in tenths of a unit so the arithmetic stays exact.

use vstd::prelude::*;

use crate::strutil::spec_decimal;
use crate::strutil::decimal_string;

verus! {

/// The zoom factor that the reset command restores, in tenths of a unit.
pub const BASELINE_TENTHS: u32 = 10;

/// The smallest zoom factor a command can produce, in tenths of a unit.
pub const MIN_TENTHS: u32 = 1;

/// The display-scale factor of the rendered content, in tenths of a unit.
///
/// A value of 10 means a scale of 1.0; 13 means 1.3.
#[derive(Clone, Copy, PartialEq, Eq, Structural, Debug)]
pub struct ZoomLevel {
    pub tenths: u32,
}

impl ZoomLevel {
    /// A zoom level is meaningful when it respects the lower bound.
    pub open spec fn wf(self) -> bool {
        self.tenths >= MIN_TENTHS
    }

    /// The baseline level: a scale of one.
    pub fn baseline() -> (z: ZoomLevel)
        ensures
            z.wf(),
            z.tenths == BASELINE_TENTHS,
    {
        ZoomLevel { tenths: BASELINE_TENTHS }
    }

    /// Raise the scale by one tenth; the level saturates at the largest
    /// representable value rather than wrapping.
    pub fn zoom_in(&mut self)
        requires
            old(self).wf(),
        ensures
            final(self).wf(),
            old(self).tenths < u32::MAX ==> final(self).tenths == old(self).tenths + 1,
            old(self).tenths == u32::MAX ==> final(self).tenths == u32::MAX,
    {
        if self.tenths < u32::MAX {
            self.tenths = self.tenths + 1;
        }
    }

    /// Lower the scale by one tenth, never below the lower bound.
    pub fn zoom_out(&mut self)
        requires
            old(self).wf(),
        ensures
            final(self).wf(),
            old(self).tenths > MIN_TENTHS ==> final(self).tenths == old(self).tenths - 1,
            old(self).tenths == MIN_TENTHS ==> final(self).tenths == MIN_TENTHS,
    {
        if self.tenths > MIN_TENTHS {
            self.tenths = self.tenths - 1;
        }
    }

    /// Restore the baseline scale of one, whatever the prior state.
    pub fn zoom_reset(&mut self)
        ensures
            final(self).wf(),
            final(self).tenths == BASELINE_TENTHS,
    {
        self.tenths = BASELINE_TENTHS;
    }

    /// The decimal rendering of the scale factor: the whole units, and the
    /// tenths digit after a point only when it is not zero — `13` tenths
    /// render as `1.3`, `10` tenths as `1`.
    pub open spec fn spec_scale_text(self) -> Seq<char> {
        if self.tenths % 10 == 0 {
            spec_decimal((self.tenths / 10) as nat)
        } else {
            spec_decimal((self.tenths / 10) as nat) + "."@ + spec_decimal(
                (self.tenths % 10) as nat,
            )
        }
    }

    /// Render the scale factor as decimal text.
    pub fn scale_text(&self) -> (s: String)
        ensures
            s@ == self.spec_scale_text(),
    {
        let units = self.tenths / 10;
        let frac = self.tenths % 10;
        if frac == 0 {
            decimal_string(units as u64)
        } else {
            let mut s = decimal_string(units as u64);
            s.append(".");
            s.append(decimal_string(frac as u64).as_str());
            assert(s@ =~= self.spec_scale_text());
            s
        }
    }

    /// The scripted expression the host evaluates in the rendered page to
    /// set the display scale to this level.
    pub open spec fn spec_scale_script(self) -> Seq<char> {
        "document.body.style.zoom = '"@ + self.spec_scale_text() + "'"@
    }

    /// Render the scripted expression that applies this scale.
    pub fn scale_script(&self) -> (s: String)
        ensures
            s@ == self.spec_scale_script(),
    {
        let mut s = "document.body.style.zoom = '".to_owned();
        s.append(self.scale_text().as_str());
        s.append("'");
        assert(s@ =~= self.spec_scale_script());
        s
    }
}

} // verus!
