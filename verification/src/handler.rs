//! What a key press asks of the viewer.

use vstd::prelude::*;
use crate::app::{App, AppMode};

verus! {

/// A key, as far as the viewer tells keys apart.
#[derive(Debug, Clone, Copy, PartialEq, Eq, Structural)]
pub enum Key {
    Esc,
    Tab,
    Left,
    Right,
    Up,
    Down,
    Char(char),
    Other,
}

/// What the viewer does in answer to a key, beyond its own state: a step
/// along one of the three axes.
#[derive(Debug, Clone, Copy, PartialEq, Eq, Structural)]
pub enum Step {
    /// One step up along the axis with the given index.
    Increment(usize),
    /// One step down along the axis with the given index.
    Decrement(usize),
}

/// Whether the key ends the viewer: escape, `q`, or `c` with the control key
/// and no other modifier.
pub open spec fn spec_quits(key: Key, control: bool) -> bool {
    match key {
        Key::Esc => true,
        Key::Char(c) => c == 'q' || ((c == 'c' || c == 'C') && control),
        _ => false,
    }
}

/// The step through the volume that the key asks for while the slices are
/// shown.
pub open spec fn spec_step(key: Key) -> Option<Step> {
    match key {
        Key::Right => Some(Step::Increment(2)),
        Key::Left => Some(Step::Decrement(2)),
        Key::Up => Some(Step::Increment(1)),
        Key::Down => Some(Step::Decrement(1)),
        Key::Char(c) => if c == 'd' {
            Some(Step::Increment(2))
        } else if c == 'a' {
            Some(Step::Decrement(2))
        } else if c == 'w' {
            Some(Step::Increment(1))
        } else if c == 's' {
            Some(Step::Decrement(1))
        } else if c == 'x' {
            Some(Step::Decrement(0))
        } else if c == 'z' || c == 'y' {
            Some(Step::Increment(0))
        } else {
            None
        },
        _ => None,
    }
}

/// Whether the key moves the list of the header's entries down.
pub open spec fn spec_list_down(key: Key) -> bool {
    match key {
        Key::Right => true,
        Key::Down => true,
        Key::Char(c) => c == 'd' || c == 's',
        _ => false,
    }
}

/// Whether the key moves the list of the header's entries up.
pub open spec fn spec_list_up(key: Key) -> bool {
    match key {
        Key::Left => true,
        Key::Up => true,
        Key::Char(c) => c == 'a' || c == 'w',
        _ => false,
    }
}

/// The state after a key press.
pub open spec fn spec_after_key(app: App, key: Key, control: bool) -> App {
    let running = app.running && !spec_quits(key, control);
    match app.mode {
        AppMode::Xyz => App {
            running,
            mode: if key == Key::Tab {
                app.mode.spec_toggled()
            } else {
                app.mode
            },
            color_map: if key == Key::Char('c') || key == Key::Char('C') {
                app.color_map.spec_next()
            } else {
                app.color_map
            },
            ..app
        },
        AppMode::MetaData => App {
            running,
            mode: if key == Key::Tab {
                app.mode.spec_toggled()
            } else {
                app.mode
            },
            metadata_index: if spec_list_down(key) {
                app.spec_incremented()
            } else if spec_list_up(key) {
                app.spec_decremented()
            } else {
                app.metadata_index
            },
            ..app
        },
    }
}

/// Handles a key press: updates the state and tells which step through the
/// volume, if any, the key asks for. `control` says that the control key,
/// and no other modifier, was held.
///
/// Escape, `q` and control with `c` end the viewer. While the slices are
/// shown, the arrow keys and `w`, `a`, `s`, `d` step along the second and
/// third axis, `x` and `z` or `y` along the first, the tabulator switches to
/// the list and `c` to the next colour map. While the list is shown, the
/// same keys move it up and down, and the tabulator switches back.
pub fn handle_key_events(key: Key, control: bool, app: &mut App) -> (step: Option<Step>)
    ensures
        *final(app) == spec_after_key(*old(app), key, control),
        step == if old(app).mode == AppMode::Xyz {
            spec_step(key)
        } else {
            None
        },
{
    match key {
        Key::Esc => {
            app.quit();
        },
        Key::Char(c) => {
            if c == 'q' {
                app.quit();
            } else if (c == 'c' || c == 'C') && control {
                app.quit();
            }
        },
        _ => {},
    }
    match app.mode {
        AppMode::Xyz => {
            match key {
                Key::Right => Some(Step::Increment(2)),
                Key::Left => Some(Step::Decrement(2)),
                Key::Up => Some(Step::Increment(1)),
                Key::Down => Some(Step::Decrement(1)),
                Key::Tab => {
                    app.toggle_tab();
                    None
                },
                Key::Char(c) => {
                    if c == 'd' {
                        Some(Step::Increment(2))
                    } else if c == 'a' {
                        Some(Step::Decrement(2))
                    } else if c == 'w' {
                        Some(Step::Increment(1))
                    } else if c == 's' {
                        Some(Step::Decrement(1))
                    } else if c == 'x' {
                        Some(Step::Decrement(0))
                    } else if c == 'z' || c == 'y' {
                        Some(Step::Increment(0))
                    } else if c == 'c' || c == 'C' {
                        app.toggle_color_map();
                        None
                    } else {
                        None
                    }
                },
                _ => None,
            }
        },
        AppMode::MetaData => {
            match key {
                Key::Right | Key::Down => {
                    app.increment_metadata_index();
                },
                Key::Left | Key::Up => {
                    app.decrement_metadata_index();
                },
                Key::Tab => {
                    app.toggle_tab();
                },
                Key::Char(c) => {
                    if c == 'd' || c == 's' {
                        app.increment_metadata_index();
                    } else if c == 'a' || c == 'w' {
                        app.decrement_metadata_index();
                    }
                },
                _ => {},
            }
            None
        },
    }
}

/// Handles a mouse event: the viewer does not react to the mouse.
pub fn handle_mouse_events(app: &mut App)
    ensures
        *final(app) == *old(app),
{
}

/// A key never restarts a viewer that has stopped, and changes nothing
/// but the running flag, the mode, the colour map and the place in the list.
pub proof fn lemma_key_keeps_the_rest(app: App, key: Key, control: bool)
    ensures
        spec_after_key(app, key, control).running ==> app.running,
        spec_after_key(app, key, control).verbose == app.verbose,
        spec_after_key(app, key, control).metadata_len == app.metadata_len,
        app.metadata_index < app.metadata_len ==> spec_after_key(app, key, control).metadata_index
            < app.metadata_len,
{
}

} // verus!
