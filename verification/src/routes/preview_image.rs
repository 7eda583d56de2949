//! Resized images: what a request has to say, and which side of the image
//! it fixes.

use vstd::prelude::*;
use vstd::string::StringExecFns;

verus! {

/// The image that is asked for, and the size it is wanted in.
#[derive(Debug)]
pub struct PreviewImageQuery {
    pub width: Option<u32>,
    pub height: Option<u32>,
    pub url: String,
}

/// The status of the answer to a request that names no size.
pub const BAD_REQUEST: u16 = 400;

/// What a request that names no size is told.
pub open spec fn missing_dimension_text() -> Seq<char> {
    "At least one dimension (width or height) must be specified"@
}

/// Which sides of the resized image a request fixes.
#[derive(Clone, Copy, Debug, PartialEq, Eq, Structural)]
pub enum ResizeMode {
    /// Both sides are given.
    Exact(u32, u32),
    /// The width is given; the height follows from the image's proportions.
    FromWidth(u32),
    /// The height is given; the width follows from the image's proportions.
    FromHeight(u32),
    /// Nothing is given: the image keeps its size.
    Unchanged,
}

/// The sides that a wanted width and height fix.
pub open spec fn mode_of(width: Option<u32>, height: Option<u32>) -> ResizeMode {
    match (width, height) {
        (Some(w), Some(h)) => ResizeMode::Exact(w, h),
        (Some(w), None) => ResizeMode::FromWidth(w),
        (None, Some(h)) => ResizeMode::FromHeight(h),
        (None, None) => ResizeMode::Unchanged,
    }
}

/// Tells which sides a wanted width and height fix.
pub fn resize_mode(width: Option<u32>, height: Option<u32>) -> (mode: ResizeMode)
    ensures
        mode == mode_of(width, height),
{
    match (width, height) {
        (Some(w), Some(h)) => ResizeMode::Exact(w, h),
        (Some(w), None) => ResizeMode::FromWidth(w),
        (None, Some(h)) => ResizeMode::FromHeight(h),
        (None, None) => ResizeMode::Unchanged,
    }
}

impl PreviewImageQuery {
    /// Whether the request names a width or a height. One that names
    /// neither is turned down.
    pub fn has_dimension(&self) -> (named: bool)
        ensures
            named == (self.width is Some || self.height is Some),
            named == !(mode_of(self.width, self.height) is Unchanged),
    {
        self.width.is_some() || self.height.is_some()
    }

    /// What a request that names no size is told.
    pub fn missing_dimension_message() -> (text: String)
        ensures
            text@ == missing_dimension_text(),
    {
        String::from_str("At least one dimension (width or height) must be specified")
    }
}

} // verus!
