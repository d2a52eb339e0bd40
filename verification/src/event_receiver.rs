use std::path::PathBuf;
use vstd::prelude::*;

verus! {

/// `std::path::PathBuf`, a path of a file dropped on the window; carried
/// along unread.
#[verifier::external_type_specification]
#[verifier::external_body]
pub struct ExPathBuf(PathBuf);

/// A source of actions that is polled each time a reducer updates.
pub trait EventReceiver<T: Clone> {
    /// The next action, if one has arrived.
    fn receive(&self) -> Option<T>;
}

/// Events of the application window.
pub enum AppEvent {
    FocusChange(bool),
    FileEvent(FileEvent),
    ClosingWindow,
}

/// What happens to files dragged onto the window.
pub enum FileEvent {
    /// Files hover over the window; whether there are any.
    Hovering(bool),
    /// Files were dropped on the window.
    Dropped(Vec<PathBuf>),
    /// The drag left the window.
    Cancelled,
}

/// What the window reports of a drag and drop.
pub enum DropEvent {
    Hovered(Vec<PathBuf>),
    Dropped(Vec<PathBuf>),
    Cancelled,
    /// Any other report of the window.
    Other,
}

/// The application event that a drag-and-drop report turns into, if any:
/// hovering tells whether files hover, a drop is passed on only when it
/// holds files, a cancel is passed on, anything else is ignored. The window
/// is redrawn exactly when an event is sent.
pub fn file_event_for(event: DropEvent) -> (r: Option<AppEvent>)
    ensures
        match event {
            DropEvent::Hovered(files) => r == Some(
                AppEvent::FileEvent(FileEvent::Hovering(files@.len() > 0)),
            ),
            DropEvent::Dropped(files) => if files@.len() > 0 {
                r == Some(AppEvent::FileEvent(FileEvent::Dropped(files)))
            } else {
                r is None
            },
            DropEvent::Cancelled => r == Some(AppEvent::FileEvent(FileEvent::Cancelled)),
            DropEvent::Other => r is None,
        },
{
    match event {
        DropEvent::Hovered(files) => {
            let allowed = !files.is_empty();
            Some(AppEvent::FileEvent(FileEvent::Hovering(allowed)))
        },
        DropEvent::Dropped(files) => {
            if !files.is_empty() {
                Some(AppEvent::FileEvent(FileEvent::Dropped(files)))
            } else {
                None
            }
        },
        DropEvent::Cancelled => Some(AppEvent::FileEvent(FileEvent::Cancelled)),
        DropEvent::Other => None,
    }
}

} // verus!
