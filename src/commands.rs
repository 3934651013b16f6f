//! The decisions of the resize and zoom operations. The caller reads the
//! window and its display, hands the readings over, and applies what comes
//! back.
use crate::platform::WindowError;
use crate::sizing::{
    below_floor, fit_spec, fit_to_screen, scaled, zoom_below_floor, zoom_refused, zoomed_size,
    Dimensions, Extent, ZoomFactor,
};
use vstd::prelude::*;

verus! {

/// The size to apply for a resize request of `requested`, given the outcome
/// of reading the window's display (`Ok(None)`: the window is on no display).
/// A failed reading is passed on; no display gives `NoMonitorFound`.
pub fn resize_target(requested: Dimensions, screen: Result<Option<Dimensions>, WindowError>) -> (r:
    Result<Extent, WindowError>)
    ensures
        match screen {
            Ok(Some(s)) => r is Ok && r.unwrap()@ == fit_spec(requested@, s@),
            Ok(None) => r matches Err(WindowError::NoMonitorFound),
            Err(e) => r == Err::<Extent, WindowError>(e),
        },
{
    match screen {
        Ok(Some(s)) => Ok(fit_to_screen(requested, s)),
        Ok(None) => Err(WindowError::NoMonitorFound),
        Err(e) => Err(e),
    }
}

/// The size to apply for a zoom of `current` by `factor`, given the outcome
/// of reading the window's display; `Ok(None)` when the zoom is refused and
/// the window keeps its size. A zoom under the floor is refused whatever the
/// display reading was; otherwise a failed reading is passed on, and no
/// display gives `NoMonitorFound`.
pub fn zoom_target(
    current: Dimensions,
    factor: ZoomFactor,
    screen: Result<Option<Dimensions>, WindowError>,
) -> (r: Result<Option<Extent>, WindowError>)
    ensures
        below_floor(current@, factor) ==> r == Ok::<Option<Extent>, WindowError>(None),
        !below_floor(current@, factor) ==> match screen {
            Ok(Some(s)) => if zoom_refused(current@, factor, s@) {
                r == Ok::<Option<Extent>, WindowError>(None)
            } else {
                r is Ok && r.unwrap() is Some && r.unwrap().unwrap()@ == scaled(current@, factor)
            },
            Ok(None) => r matches Err(WindowError::NoMonitorFound),
            Err(e) => r == Err::<Option<Extent>, WindowError>(e),
        },
{
    if zoom_below_floor(current, factor) {
        return Ok(None);
    }
    match screen {
        Ok(Some(s)) => Ok(zoomed_size(current, factor, s)),
        Ok(None) => Err(WindowError::NoMonitorFound),
        Err(e) => Err(e),
    }
}

/// The always-on-top state after the pin entry is chosen: the negation of the
/// current state, where a state that could not be read counts as unpinned.
pub fn pin_after_toggle(current: Option<bool>) -> (r: bool)
    ensures
        r == !(current == Some(true)),
{
    match current {
        Some(pinned) => !pinned,
        None => true,
    }
}

} // verus!
