//! Widget identities, in layout and paint order. The rectangles themselves are
//! computed by the host in device-independent pixels.

use vstd::prelude::*;
use vstd::std_specs::cmp::PartialEqSpecImpl;

verus! {

#[derive(Copy, Clone, Debug, Eq, Hash)]
pub enum WidgetId {
    StartStop,
    ModeToggle,
    RateSlider,
    IntervalField,
    CpsReadout,
}

impl WidgetId {
    /// A dense slot number, one per widget, for per-widget tables.
    pub open spec fn spec_slot(self) -> int {
        match self {
            WidgetId::StartStop => 0,
            WidgetId::ModeToggle => 1,
            WidgetId::RateSlider => 2,
            WidgetId::IntervalField => 3,
            WidgetId::CpsReadout => 4,
        }
    }

    pub fn slot(self) -> (r: usize)
        ensures
            r == self.spec_slot(),
            r < 5,
    {
        match self {
            WidgetId::StartStop => 0,
            WidgetId::ModeToggle => 1,
            WidgetId::RateSlider => 2,
            WidgetId::IntervalField => 3,
            WidgetId::CpsReadout => 4,
        }
    }
}

impl PartialEq for WidgetId {
    fn eq(&self, other: &Self) -> (r: bool) {
        self.slot() == other.slot()
    }
}

impl PartialEqSpecImpl for WidgetId {
    open spec fn obeys_eq_spec() -> bool {
        true
    }

    open spec fn eq_spec(&self, other: &Self) -> bool {
        *self == *other
    }
}

/// Every widget id in layout/paint order.
pub const ALL_WIDGETS: [WidgetId; 5] = [
    WidgetId::CpsReadout,
    WidgetId::IntervalField,
    WidgetId::RateSlider,
    WidgetId::ModeToggle,
    WidgetId::StartStop,
];

} // verus!
