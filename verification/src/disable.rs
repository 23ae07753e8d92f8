//! A wrapper that switches a part of the interface off.
//!
//! [`DisableIf`] describes some inner view together with the wish to have it
//! disabled or not; [`DisableIfWidget`] is the lasting flag behind it.

use vstd::prelude::*;

verus! {

/// The inner view `1`, to be shown disabled exactly if `0` is set.
pub struct DisableIf<V>(pub bool, pub V);

/// The lasting state of a [`DisableIf`]: whether its content is disabled.
#[derive(Clone, Copy, Debug, PartialEq, Eq)]
pub struct DisableIfWidget(pub bool);

/// Wraps `inner` so that it is shown disabled exactly if `disabled` is set.
pub fn disable_if<V>(disabled: bool, inner: V) -> (view: DisableIf<V>)
    ensures
        view.0 == disabled,
        view.1 == inner,
{
    DisableIf(disabled, inner)
}

impl<V> DisableIf<V> {
    /// The widget state that a new wrapper starts with.
    pub fn build(&self) -> (widget: DisableIfWidget)
        ensures
            widget.0 == self.0,
    {
        DisableIfWidget(self.0)
    }

    /// Brings `widget` up to date with this description, given the previous
    /// description `prev`. Where the wish has changed, the widget takes it
    /// over and the result is the flag to set on screen; where it has not,
    /// nothing changes and the result is `None`.
    pub fn rebuild(&self, prev: &DisableIf<V>, widget: &mut DisableIfWidget) -> (set_disabled:
        Option<bool>)
        ensures
            set_disabled == if self.0 != prev.0 {
                Some(self.0)
            } else {
                None
            },
            final(widget).0 == if self.0 != prev.0 {
                self.0
            } else {
                old(widget).0
            },
    {
        if self.0 != prev.0 {
            widget.0 = self.0;
            Some(self.0)
        } else {
            None
        }
    }
}

impl DisableIfWidget {
    /// What the widget asks of the screen at a stage of its life: when it
    /// has just been added (`added`), that its flag be applied; otherwise
    /// nothing.
    pub fn lifecycle(&self, added: bool) -> (set_disabled: Option<bool>)
        ensures
            set_disabled == if added {
                Some(self.0)
            } else {
                None
            },
    {
        if added {
            Some(self.0)
        } else {
            None
        }
    }
}

} // verus!
