//! The state of the terminal application.

use vstd::prelude::*;

verus! {

/// The views that the application can show.
#[derive(Debug, Clone, Copy, PartialEq, Eq, Structural)]
pub enum ViewMode {
    /// The splash screen.
    Splash,
}

/// The terminal application: whether it is about to quit, and what it
/// shows.
#[derive(Debug)]
pub struct App {
    should_quit: bool,
    view_mode: ViewMode,
}

impl App {
    /// Whether the application is about to quit.
    pub closed spec fn quitting(&self) -> bool {
        self.should_quit
    }

    /// The view that is shown.
    pub closed spec fn shown(&self) -> ViewMode {
        self.view_mode
    }

    /// An application that shows the splash screen and is not about to
    /// quit.
    pub fn new() -> (r: Self)
        ensures
            !r.quitting(),
            r.shown() == ViewMode::Splash,
    {
        App { should_quit: false, view_mode: ViewMode::Splash }
    }

    /// Whether the application is about to quit.
    pub fn should_quit(&self) -> (r: bool)
        ensures
            r == self.quitting(),
    {
        self.should_quit
    }

    /// The view that is shown.
    pub fn view_mode(&self) -> (r: ViewMode)
        ensures
            r == self.shown(),
    {
        self.view_mode
    }

    /// Asks the application to quit, as a key press does.
    pub fn quit(&mut self)
        ensures
            final(self).quitting(),
            final(self).shown() == old(self).shown(),
    {
        self.should_quit = true;
    }
}

impl Default for App {
    fn default() -> (r: Self)
        ensures
            !r.quitting(),
            r.shown() == ViewMode::Splash,
    {
        App::new()
    }
}

} // verus!
