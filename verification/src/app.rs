//! What the viewer remembers between two key presses, as far as it is told
//! in whole numbers.

use vstd::prelude::*;
use crate::utils::colors::ColorMap;

verus! {

/// What the main area shows.
#[derive(Debug, Clone, Copy, PartialEq, Eq, Structural)]
pub enum AppMode {
    /// The three slices.
    Xyz,
    /// The list of the header's entries.
    MetaData,
}

impl AppMode {
    /// The other mode.
    pub open spec fn spec_toggled(self) -> AppMode {
        match self {
            AppMode::Xyz => AppMode::MetaData,
            AppMode::MetaData => AppMode::Xyz,
        }
    }

    /// The other mode.
    pub fn toggled(&self) -> (mode: AppMode)
        ensures
            mode == self.spec_toggled(),
    {
        match self {
            AppMode::Xyz => AppMode::MetaData,
            AppMode::MetaData => AppMode::Xyz,
        }
    }

    /// The place of the mode's title in the title bar.
    pub fn index(&self) -> (i: usize)
        ensures
            *self == AppMode::Xyz ==> i == 0,
            *self == AppMode::MetaData ==> i == 1,
    {
        match self {
            AppMode::Xyz => 0,
            AppMode::MetaData => 1,
        }
    }

    /// The title of the mode.
    pub fn title(&self) -> (s: &'static str)
        ensures
            *self == AppMode::Xyz ==> s@ == "Voxel"@,
            *self == AppMode::MetaData ==> s@ == "Metadata"@,
    {
        match self {
            AppMode::Xyz => "Voxel",
            AppMode::MetaData => "Metadata",
        }
    }
}

/// The state of the viewer apart from the volume and the place in it.
#[derive(Debug, Clone, Copy, PartialEq, Eq, Structural)]
pub struct App {
    /// Is the application running?
    pub running: bool,
    pub verbose: bool,
    pub mode: AppMode,
    pub color_map: ColorMap,
    /// The number of entries in the list of the header's entries.
    pub metadata_len: usize,
    /// The entry with which the shown part of that list starts.
    pub metadata_index: usize,
}

impl App {
    /// The viewer as it starts: running, on the three slices, at the top of
    /// the list of the header's entries.
    pub fn new(verbose: bool, color_map: ColorMap, metadata_len: usize) -> (app: App)
        ensures
            app == (App {
                running: true,
                verbose,
                mode: AppMode::Xyz,
                color_map,
                metadata_len,
                metadata_index: 0,
            }),
    {
        App {
            running: true,
            verbose,
            mode: AppMode::Xyz,
            color_map,
            metadata_len,
            metadata_index: 0,
        }
    }

    /// Handles the tick event of the terminal: nothing changes.
    pub fn tick(&self) {
    }

    /// Set running to false to quit the application.
    pub fn quit(&mut self)
        ensures
            *final(self) == (App { running: false, ..*old(self) }),
    {
        self.running = false;
    }

    /// Switches between the slices and the list of the header's entries.
    pub fn toggle_tab(&mut self)
        ensures
            *final(self) == (App { mode: old(self).mode.spec_toggled(), ..*old(self) }),
    {
        self.mode = self.mode.toggled();
    }

    /// Moves on to the next colour map.
    pub fn toggle_color_map(&mut self)
        ensures
            *final(self) == (App { color_map: old(self).color_map.spec_next(), ..*old(self) }),
    {
        self.color_map = self.color_map.next();
    }

    /// The start of the shown part of the list after a step down: one entry
    /// further, as long as two entries then still follow it.
    pub open spec fn spec_incremented(self) -> usize {
        if self.metadata_index + 2 < self.metadata_len {
            (self.metadata_index + 1) as usize
        } else {
            self.metadata_index
        }
    }

    /// The start of the shown part of the list after a step up.
    pub open spec fn spec_decremented(self) -> usize {
        if self.metadata_index > 0 {
            (self.metadata_index - 1) as usize
        } else {
            0
        }
    }

    /// Moves the list of the header's entries one entry down, unless its
    /// end is reached.
    pub fn increment_metadata_index(&mut self)
        ensures
            *final(self) == (App { metadata_index: old(self).spec_incremented(), ..*old(self) }),
    {
        if self.metadata_len >= 2 && self.metadata_index < self.metadata_len - 2 {
            self.metadata_index += 1;
        }
    }

    /// Moves the list of the header's entries one entry up, unless it is at
    /// its start.
    pub fn decrement_metadata_index(&mut self)
        ensures
            *final(self) == (App { metadata_index: old(self).spec_decremented(), ..*old(self) }),
    {
        if self.metadata_index > 0 {
            self.metadata_index -= 1;
        }
    }
}

} // verus!
