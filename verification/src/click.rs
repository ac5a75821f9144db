use vstd::prelude::*;

use crate::ai::Point;

verus! {

/// Why a click is not made.
pub enum ClickError {
    /// The point lies outside the screenshot.
    Outside,
    /// The process may not control the mouse.
    NotTrusted,
    /// The displays changed since the screenshot was taken.
    DisplayChanged,
    /// The mouse events could not be created.
    NoEvents,
}

impl ClickError {
    pub open spec fn message_spec(&self) -> Seq<char> {
        match self {
            ClickError::Outside => "Click coordinates are outside the screenshot."@,
            ClickError::NotTrusted =>
                "Allow Accessibility in System Settings > Privacy & Security, then restart the app or terminal."@,
            ClickError::DisplayChanged =>
                "Display layout changed; take another screenshot before clicking."@,
            ClickError::NoEvents => "Could not create mouse events."@,
        }
    }

    /// The message shown for the error.
    pub fn message(&self) -> (m: &str)
        ensures
            m@ == self.message_spec(),
    {
        match self {
            ClickError::Outside => "Click coordinates are outside the screenshot.",
            ClickError::NotTrusted =>
                "Allow Accessibility in System Settings > Privacy & Security, then restart the app or terminal.",
            ClickError::DisplayChanged =>
                "Display layout changed; take another screenshot before clicking.",
            ClickError::NoEvents => "Could not create mouse events.",
        }
    }
}

/// A point may be clicked only where it lies on the screenshot of
/// `width` by `height` pixels.
pub fn check_click(point: &Point, width: u32, height: u32) -> (r: Result<(), ClickError>)
    ensures
        r is Ok <==> point.x < width && point.y < height,
        r matches Err(e) ==> e == ClickError::Outside,
{
    if point.x >= width || point.y >= height {
        Err(ClickError::Outside)
    } else {
        Ok(())
    }
}

} // verus!
