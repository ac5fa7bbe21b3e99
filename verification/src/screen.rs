//! What each screen shows: the decisions of drawing, without the drawing.
use vstd::prelude::*;
use crate::app::{App, CurrentScreen, IpInputStatus, Mode, METRIC_COUNT};

verus! {

/// The body of the screen.
#[derive(PartialEq, Eq, Structural, Clone, Copy, Debug)]
pub enum ScreenBody {
    /// The node table; with the input box for a typed address below it.
    Table { input_box: bool },
    /// The grid of radio metrics.
    Metrics,
    /// Nothing.
    Blank,
    /// The list of network interfaces, without borders.
    InterfaceMenu,
    /// The start menu, with borders.
    HomeMenu,
    /// The help text.
    Help,
}

/// A key hint of the footer.
#[derive(PartialEq, Eq, Structural, Clone, Copy, Debug)]
pub enum Hint {
    /// "[q - quit]"
    Quit,
    /// "[press q again to exit]"
    ConfirmExit,
    /// "[p - start ping test]"
    StartPing,
    /// "[enter - to edit node]"
    EditNode,
}

/// The body shown on `screen` while `options_idx` is highlighted in the start menu.
pub open spec fn view_of(screen: CurrentScreen, options_idx: u32) -> ScreenBody {
    match screen {
        CurrentScreen::NodeView(m) => ScreenBody::Table { input_box: m == Mode::Edit || m == Mode::Push },
        CurrentScreen::Main => if options_idx == 1 {
            ScreenBody::Metrics
        } else {
            ScreenBody::Blank
        },
        CurrentScreen::InterfaceView => ScreenBody::InterfaceMenu,
        CurrentScreen::Home => ScreenBody::HomeMenu,
        CurrentScreen::Exiting => ScreenBody::HomeMenu,
        CurrentScreen::Help => ScreenBody::Help,
    }
}

/// The footer's key hints on `screen`, left to right.
pub open spec fn hints_of(screen: CurrentScreen) -> Seq<Hint> {
    let first = if screen == CurrentScreen::Exiting {
        Hint::ConfirmExit
    } else {
        Hint::Quit
    };
    if screen is NodeView {
        seq![first, Hint::StartPing, Hint::EditNode]
    } else {
        seq![first]
    }
}

impl App {
    /// The body of the current screen.
    pub fn screen_view(&self) -> (r: ScreenBody)
        ensures
            r == view_of(self.current_screen, self.options_idx),
    {
        match self.current_screen {
            CurrentScreen::NodeView(m) => ScreenBody::Table {
                input_box: m == Mode::Edit || m == Mode::Push,
            },
            CurrentScreen::Main => {
                if self.options_idx == 1 {
                    ScreenBody::Metrics
                } else {
                    ScreenBody::Blank
                }
            },
            CurrentScreen::InterfaceView => ScreenBody::InterfaceMenu,
            CurrentScreen::Home | CurrentScreen::Exiting => ScreenBody::HomeMenu,
            CurrentScreen::Help => ScreenBody::Help,
        }
    }

    /// The footer's key hints on the current screen, left to right.
    pub fn navigation_hints(&self) -> (r: Vec<Hint>)
        ensures
            r@ == hints_of(self.current_screen),
    {
        let mut hints: Vec<Hint> = Vec::new();
        if self.current_screen == CurrentScreen::Exiting {
            hints.push(Hint::ConfirmExit);
        } else {
            hints.push(Hint::Quit);
        }
        match self.current_screen {
            CurrentScreen::NodeView(_) => {
                hints.push(Hint::StartPing);
                hints.push(Hint::EditNode);
            },
            _ => {},
        }
        assert(hints@ =~= hints_of(self.current_screen));
        hints
    }

    /// Whether the input box is drawn as refusing the typed address.
    pub fn input_refused(&self) -> (r: bool)
        ensures
            r == (self.ip_input_status == IpInputStatus::Error),
    {
        self.ip_input_status == IpInputStatus::Error
    }
}

/// The (row, column) of the metric at `idx` in the grid of two rows of three.
pub fn metric_cell(idx: usize) -> (r: (usize, usize))
    requires
        idx < METRIC_COUNT,
    ensures
        r.0 == idx / 3,
        r.1 == idx % 3,
        r.0 < 2 && r.1 < 3,
{
    (idx / 3, idx % 3)
}

} // verus!
