//! The configuration surface the core consumes: an optional document path,
//! the color mode, and an optional one-shot render command.
use vstd::prelude::*;

use crate::pmu::PlantUmlExtensions;

verus! {

/// A one-shot command given on the command line instead of opening the
/// editor.
pub enum Command {
    /// Render the input document into a directory, in a chosen format.
    Render { output: String, extension: PlantUmlExtensions },
}

/// The parsed command-line configuration.
pub struct Args {
    pub command: Option<Command>,
    /// The document to edit; `None` means the default working file.
    pub input: Option<String>,
    /// Light mode wins over dark mode when both are given.
    pub light_mode: bool,
    pub dark_mode: bool,
}

impl Args {
    /// Whether the editor session runs in dark mode: dark unless light mode
    /// was asked for.
    pub fn session_dark_mode(&self) -> (r: bool)
        ensures
            r == !self.light_mode,
    {
        !self.light_mode
    }
}

} // verus!
