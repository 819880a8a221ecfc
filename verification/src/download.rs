//! A download with a progress bar, as a state machine.
//!
//! Percentages are single-precision floating-point numbers. They are only
//! carried here, never computed with, so they are held as their IEEE 754 bit
//! patterns.

use vstd::prelude::*;

verus! {

/// The bit pattern of `0.0`, the percentage at which a download starts.
pub const ZERO_PERCENT: u32 = 0;

/// Where a download stands.
#[derive(Debug, Clone, Copy, PartialEq, Eq, Structural)]
pub enum State {
    Idle,
    Downloading { progress: u32 },
    Finished,
    Errored,
}

/// A report from the transfer that a download follows.
#[derive(Debug, Clone, Copy, PartialEq, Eq, Structural)]
pub enum Progress {
    Started,
    Advanced(u32),
    Finished,
    Errored,
}

/// How far the progress bar is filled.
#[derive(Debug, Clone, Copy, PartialEq, Eq, Structural)]
pub enum BarLevel {
    /// At zero percent.
    Empty,
    /// At the percentage with these bits.
    At(u32),
    /// At one hundred percent.
    Full,
}

/// What is shown below the progress bar.
#[derive(Debug, Clone, Copy, PartialEq, Eq, Structural)]
pub enum Control {
    /// A button that starts the download.
    Start,
    /// The percentage, as text.
    Percentage,
    /// A note that the download finished, with a button to start again.
    StartAgain,
    /// A note that something went wrong, with a button to try again.
    TryAgain,
}

/// What to draw for a download.
#[derive(Debug, Clone, Copy, PartialEq, Eq, Structural)]
pub struct DownloadView {
    /// The download that the buttons speak of.
    pub id: usize,
    pub bar: BarLevel,
    pub control: Control,
}

/// One download: the id of its transfer and where it stands.
#[derive(Debug, Clone, Copy, PartialEq, Eq, Structural)]
pub struct Download {
    pub id: usize,
    pub state: State,
}

/// The state after `start`: a download that is not running starts at zero
/// percent, a running one goes on.
pub open spec fn started(state: State) -> State {
    match state {
        State::Downloading { progress } => state,
        _ => State::Downloading { progress: ZERO_PERCENT },
    }
}

/// The state after a report. Only a running download listens to reports.
pub open spec fn reported(state: State, report: Progress) -> State {
    match state {
        State::Downloading { progress } => match report {
            Progress::Started => State::Downloading { progress: ZERO_PERCENT },
            Progress::Advanced(percentage) => State::Downloading { progress: percentage },
            Progress::Finished => State::Finished,
            Progress::Errored => State::Errored,
        },
        _ => state,
    }
}

/// The fill of the progress bar in a state.
pub open spec fn bar_of(state: State) -> BarLevel {
    match state {
        State::Idle => BarLevel::Empty,
        State::Downloading { progress } => BarLevel::At(progress),
        State::Finished => BarLevel::Full,
        State::Errored => BarLevel::Empty,
    }
}

/// The control shown in a state.
pub open spec fn control_of(state: State) -> Control {
    match state {
        State::Idle => Control::Start,
        State::Downloading { progress } => Control::Percentage,
        State::Finished => Control::StartAgain,
        State::Errored => Control::TryAgain,
    }
}

impl Default for Download {
    /// The idle download with id 0.
    fn default() -> (download: Download)
        ensures
            download == (Download { id: 0, state: State::Idle }),
    {
        Download { id: 0, state: State::Idle }
    }
}

impl Download {
    /// Makes the default download: idle, with id 0. The id asked for is not
    /// kept.
    pub fn new(_id: usize) -> (download: Download)
        ensures
            download == (Download { id: 0, state: State::Idle }),
    {
        Download::default()
    }

    /// Starts the download unless it is running.
    pub fn start(&mut self)
        ensures
            final(self).id == old(self).id,
            final(self).state == started(old(self).state),
    {
        match self.state {
            State::Downloading { .. } => {},
            _ => {
                self.state = State::Downloading { progress: ZERO_PERCENT };
            },
        }
    }

    /// Takes a report from the transfer. A download that is not running
    /// ignores it.
    pub fn progress(&mut self, new_progress: Progress)
        ensures
            final(self).id == old(self).id,
            final(self).state == reported(old(self).state, new_progress),
    {
        match self.state {
            State::Downloading { .. } => {
                match new_progress {
                    Progress::Started => {
                        self.state = State::Downloading { progress: ZERO_PERCENT };
                    },
                    Progress::Advanced(percentage) => {
                        self.state = State::Downloading { progress: percentage };
                    },
                    Progress::Finished => {
                        self.state = State::Finished;
                    },
                    Progress::Errored => {
                        self.state = State::Errored;
                    },
                }
            },
            _ => {},
        }
    }

    /// The transfer to listen to: that of this download's id while it is
    /// running, none otherwise.
    pub fn subscription(&self) -> (transfer: Option<usize>)
        ensures
            transfer == (match self.state {
                State::Downloading { progress } => Some(self.id),
                _ => None::<usize>,
            }),
    {
        match self.state {
            State::Downloading { .. } => Some(self.id),
            _ => None,
        }
    }

    /// What to draw: the fill of the bar and the control below it.
    pub fn view(&self) -> (drawn: DownloadView)
        ensures
            drawn == (DownloadView {
                id: self.id,
                bar: bar_of(self.state),
                control: control_of(self.state),
            }),
    {
        let bar = match self.state {
            State::Idle => BarLevel::Empty,
            State::Downloading { progress } => BarLevel::At(progress),
            State::Finished => BarLevel::Full,
            State::Errored => BarLevel::Empty,
        };
        let control = match self.state {
            State::Idle => Control::Start,
            State::Finished => Control::StartAgain,
            State::Downloading { .. } => Control::Percentage,
            State::Errored => Control::TryAgain,
        };
        DownloadView { id: self.id, bar, control }
    }
}

} // verus!
