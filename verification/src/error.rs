//! The fatal causes that end the viewer before or while a window is shown.

use vstd::prelude::*;

verus! {

/// One variant per fatal cause. The variants that stand for a failure of a
/// collaborator (decoder, windowing, surface) carry its description.
#[derive(Debug, Clone, PartialEq, Eq)]
pub enum ViewError {
    /// A window id did not name a live window.
    OsWindowError(String),
    /// The window could not be created.
    ShowImageWindowError(String),
    /// The image could not be handed to the window.
    SetImageWindowError(String),
    /// The file could not be found or read.
    FileError(String),
    /// The file could not be decoded as an image.
    ImageError(String),
    /// The image's channel arrangement is neither 8-bit RGB nor 8-bit RGBA.
    UnsupportedImageType,
    /// The geometry of the primary display is not available.
    NoPrimaryDisplay,
}

impl ViewError {
    /// The human-readable message of each cause.
    pub open spec fn message_text(&self) -> Seq<char> {
        match self {
            ViewError::OsWindowError(_) => "Error occured: invalid window id"@,
            ViewError::ShowImageWindowError(_) => "Unable to create a window"@,
            ViewError::SetImageWindowError(_) => "Unable to set the image"@,
            ViewError::FileError(_) => "Unable to find or open a file"@,
            ViewError::ImageError(_) => "Unable to open an image"@,
            ViewError::UnsupportedImageType => "Unsupported image type"@,
            ViewError::NoPrimaryDisplay => "No primary display found"@,
        }
    }

    /// The description of the originating failure, where the cause has one.
    pub open spec fn cause_text(&self) -> Option<Seq<char>> {
        match self {
            ViewError::OsWindowError(c) => Some(c@),
            ViewError::ShowImageWindowError(c) => Some(c@),
            ViewError::SetImageWindowError(c) => Some(c@),
            ViewError::FileError(c) => Some(c@),
            ViewError::ImageError(c) => Some(c@),
            ViewError::UnsupportedImageType => None,
            ViewError::NoPrimaryDisplay => None,
        }
    }

    /// The message shown to the user for this cause.
    pub fn message(&self) -> (text: String)
        ensures
            text@ == self.message_text(),
    {
        match self {
            ViewError::OsWindowError(_) => "Error occured: invalid window id".to_owned(),
            ViewError::ShowImageWindowError(_) => "Unable to create a window".to_owned(),
            ViewError::SetImageWindowError(_) => "Unable to set the image".to_owned(),
            ViewError::FileError(_) => "Unable to find or open a file".to_owned(),
            ViewError::ImageError(_) => "Unable to open an image".to_owned(),
            ViewError::UnsupportedImageType => "Unsupported image type".to_owned(),
            ViewError::NoPrimaryDisplay => "No primary display found".to_owned(),
        }
    }

    /// The originating failure's description, if this cause carries one.
    pub fn cause(&self) -> (text: Option<&str>)
        ensures
            match text {
                Some(t) => self.cause_text() == Some(t@),
                None => self.cause_text().is_none(),
            },
    {
        match self {
            ViewError::OsWindowError(c) => Some(c.as_str()),
            ViewError::ShowImageWindowError(c) => Some(c.as_str()),
            ViewError::SetImageWindowError(c) => Some(c.as_str()),
            ViewError::FileError(c) => Some(c.as_str()),
            ViewError::ImageError(c) => Some(c.as_str()),
            ViewError::UnsupportedImageType => None,
            ViewError::NoPrimaryDisplay => None,
        }
    }
}

} // verus!
