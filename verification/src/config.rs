//! The settings a window is created from. Reading them from a file is the
//! embedding program's business; here they are plain values.

use vstd::prelude::*;
use crate::geometry::LogicalSize;

verus! {

/// The settings of the scene viewer's window, in logical units.
#[derive(Clone, Debug, PartialEq, Eq)]
pub struct AppConfig {
    pub title: String,
    pub width: u32,
    pub height: u32,
    pub min_width: u32,
    pub min_height: u32,
}

/// The settings of a plain main window, in logical units.
#[derive(Debug, PartialEq, Eq)]
pub struct MainWindowConfig {
    pub title: String,
    pub width: u32,
    pub height: u32,
}

/// What a window is asked of the platform with.
#[derive(Debug, PartialEq, Eq)]
pub struct WindowAttributes {
    pub title: String,
    /// The size the window is to start with, if any is asked for.
    pub inner_size: Option<LogicalSize>,
    /// The size the window may not shrink below, if any is asked for.
    pub min_inner_size: Option<LogicalSize>,
}

impl WindowAttributes {
    /// Attributes that ask for a title and nothing else.
    pub fn titled(title: String) -> (attributes: WindowAttributes)
        ensures
            attributes.title == title,
            attributes.inner_size is None,
            attributes.min_inner_size is None,
    {
        WindowAttributes { title, inner_size: None, min_inner_size: None }
    }

    /// The same attributes with this initial size.
    pub fn with_inner_size(self, size: LogicalSize) -> (attributes: WindowAttributes)
        ensures
            attributes.title == self.title,
            attributes.inner_size == Some(size),
            attributes.min_inner_size == self.min_inner_size,
    {
        WindowAttributes {
            title: self.title,
            inner_size: Some(size),
            min_inner_size: self.min_inner_size,
        }
    }

    /// The same attributes with this smallest size.
    pub fn with_min_inner_size(self, size: LogicalSize) -> (attributes: WindowAttributes)
        ensures
            attributes.title == self.title,
            attributes.inner_size == self.inner_size,
            attributes.min_inner_size == Some(size),
    {
        WindowAttributes {
            title: self.title,
            inner_size: self.inner_size,
            min_inner_size: Some(size),
        }
    }
}

} // verus!
