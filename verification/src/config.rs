//! Session configuration and menu decisions.
//!
//! The host parses its command line and environment into these plain
//! enums and reacts to the state transitions the core decides on.

use vstd::prelude::*;

verus! {

/// The top-level session state: title screen, playing, end screen.
#[derive(Clone, Copy, PartialEq, Eq, Structural, Debug)]
pub enum AppState {
    Title,
    InGame,
    End,
}

/// Which rendering path the host should take; the simulation itself is
/// unaffected by it.
#[derive(Clone, Copy, PartialEq, Eq, Structural, Debug)]
pub enum RenderMode {
    Cpu,
    Gpu,
}

impl RenderMode {
    /// Whether the software path was selected.
    pub fn is_cpu(self) -> (r: bool)
        ensures
            r == (self == RenderMode::Cpu),
    {
        match self {
            RenderMode::Cpu => true,
            RenderMode::Gpu => false,
        }
    }
}

/// Which graphics backend the host should ask its renderer for.
#[derive(Clone, Copy, PartialEq, Eq, Structural, Debug)]
pub enum RenderBackend {
    Auto,
    Gl,
    Vulkan,
}

/// A concrete backend choice, for the non-automatic cases.
#[derive(Clone, Copy, PartialEq, Eq, Structural, Debug)]
pub enum BackendKind {
    Gl,
    Vulkan,
}

impl RenderBackend {
    /// The forced backend, or `None` to let the host pick.
    pub fn backends(self) -> (r: Option<BackendKind>)
        ensures
            r == (match self {
                RenderBackend::Auto => None::<BackendKind>,
                RenderBackend::Gl => Some(BackendKind::Gl),
                RenderBackend::Vulkan => Some(BackendKind::Vulkan),
            }),
    {
        match self {
            RenderBackend::Auto => None,
            RenderBackend::Gl => Some(BackendKind::Gl),
            RenderBackend::Vulkan => Some(BackendKind::Vulkan),
        }
    }
}

/// On the title screen a confirm press starts the game.
pub fn title_input(confirm_pressed: bool) -> (next: Option<AppState>)
    ensures
        next == (if confirm_pressed {
            Some(AppState::InGame)
        } else {
            None::<AppState>
        }),
{
    if confirm_pressed {
        Some(AppState::InGame)
    } else {
        None
    }
}

/// On the end screen a confirm press returns to the title.
pub fn end_input(confirm_pressed: bool) -> (next: Option<AppState>)
    ensures
        next == (if confirm_pressed {
            Some(AppState::Title)
        } else {
            None::<AppState>
        }),
{
    if confirm_pressed {
        Some(AppState::Title)
    } else {
        None
    }
}

} // verus!
