//! The editor session: the record set, the label of the save button, and the
//! step that each event of the user interface causes.
//!
//! The session never touches a dialog or a file itself. When the user asks to
//! save, `update` answers with `Action::Save`; the shell around the library
//! then resolves a destination, writes the file and reports how that went with
//! `Message::SaveFinished`.

use vstd::prelude::*;
use crate::record_set::{ContractViolation, RecordSet, RecordSetView, RowField};

verus! {

/// How an attempt to save ended.
#[derive(Debug, Clone, Copy, PartialEq, Eq, Structural)]
pub enum SaveOutcome {
    /// The file was written.
    Saved,
    /// The user picked no destination; nothing was written.
    Cancelled,
    /// A destination was picked, but writing to it failed.
    WriteFailed,
}

/// An event that the session reacts to.
#[derive(Debug, Clone)]
pub enum Message {
    PCBFilenameInputChanged(String),
    PCBNameInputChanged(String),
    SaveClicked,
    AddComponent,
    CountInputChanged { value: String, id: usize },
    ThresholdInputChanged { value: String, id: usize },
    FilenameInputChanged { value: String, id: usize },
    /// The shell reports the end of the save that `Action::Save` asked for.
    SaveFinished(SaveOutcome),
}

/// What the shell has to do after a step.
#[derive(Debug, Clone, Copy, PartialEq, Eq, Structural)]
pub enum Action {
    /// Nothing but to draw the state again.
    Nothing,
    /// Ask for a destination, write the configuration of the current snapshot
    /// there, and report the outcome.
    Save,
    /// Tell the user that the save did not complete.
    ReportWriteFailure,
}

/// The content of a session.
pub struct CreatorView {
    pub records: RecordSetView,
    pub save_button_text: Seq<char>,
}

/// The label of the save button before anything was saved.
pub open spec fn save_label() -> Seq<char> {
    "Save"@
}

/// The label of the save button once a file was written.
pub open spec fn saved_label() -> Seq<char> {
    "Saved"@
}

/// Whether a message edits a row that the record set does not have.
pub open spec fn names_missing_row(records: RecordSetView, message: Message) -> bool {
    match message {
        Message::CountInputChanged { id, .. } => !records.has_row(id as int),
        Message::ThresholdInputChanged { id, .. } => !records.has_row(id as int),
        Message::FilenameInputChanged { id, .. } => !records.has_row(id as int),
        _ => false,
    }
}

/// The session after a step. An edit goes to the field it names, a request
/// for a row appends one, a completed save relabels the button; a request to
/// save and a save that did not complete leave the session as it is.
pub open spec fn next_state(state: CreatorView, message: Message) -> CreatorView {
    match message {
        Message::PCBFilenameInputChanged(text) => CreatorView {
            records: state.records.set_descriptor_image(text@),
            ..state
        },
        Message::PCBNameInputChanged(text) => CreatorView {
            records: state.records.set_descriptor_name(text@),
            ..state
        },
        Message::SaveClicked => state,
        Message::AddComponent => CreatorView { records: state.records.add_row(), ..state },
        Message::CountInputChanged { value, id } => CreatorView {
            records: state.records.set_row_field(id as int, RowField::CountText, value@),
            ..state
        },
        Message::ThresholdInputChanged { value, id } => CreatorView {
            records: state.records.set_row_field(id as int, RowField::ThresholdText, value@),
            ..state
        },
        Message::FilenameInputChanged { value, id } => CreatorView {
            records: state.records.set_row_field(id as int, RowField::ImagePath, value@),
            ..state
        },
        Message::SaveFinished(outcome) => match outcome {
            SaveOutcome::Saved => CreatorView { save_button_text: saved_label(), ..state },
            SaveOutcome::Cancelled => state,
            SaveOutcome::WriteFailed => state,
        },
    }
}

/// Whether a message is one that never changes the session: a request to
/// save, or the report of a save that was cancelled or failed.
pub open spec fn keeps_session(message: Message) -> bool {
    match message {
        Message::SaveClicked => true,
        Message::SaveFinished(SaveOutcome::Cancelled) => true,
        Message::SaveFinished(SaveOutcome::WriteFailed) => true,
        _ => false,
    }
}

/// What a message asks of the shell.
pub open spec fn action_for(message: Message) -> Action {
    match message {
        Message::SaveClicked => Action::Save,
        Message::SaveFinished(SaveOutcome::WriteFailed) => Action::ReportWriteFailure,
        _ => Action::Nothing,
    }
}

/// One editing session.
pub struct Creator {
    records: RecordSet,
    save_button_text: String,
}

impl View for Creator {
    type V = CreatorView;

    closed spec fn view(&self) -> CreatorView {
        CreatorView { records: self.records@, save_button_text: self.save_button_text@ }
    }
}

impl Creator {
    /// Whether the record set of the session is well formed.
    pub closed spec fn wf(&self) -> bool {
        self.records.wf()
    }

    /// A session with an empty record set and a button that reads "Save".
    pub fn new() -> (creator: Creator)
        ensures
            creator.wf(),
            creator@.records == RecordSetView::empty(),
            creator@.save_button_text == save_label(),
    {
        Creator { records: RecordSet::new(), save_button_text: String::from_str("Save") }
    }

    /// The title of the editor's window.
    pub fn title(&self) -> (title: String)
        ensures
            title@ == "Configuration Creator"@,
    {
        String::from_str("Configuration Creator")
    }

    /// The record set of the session, to read from.
    pub fn records(&self) -> (records: &RecordSet)
        ensures
            records@ == self@.records,
            self.wf() ==> records.wf(),
    {
        &self.records
    }

    /// The current label of the save button.
    pub fn save_button_text(&self) -> (text: &str)
        ensures
            text@ == self@.save_button_text,
    {
        self.save_button_text.as_str()
    }

    /// Takes one step.
    ///
    /// An edit of a row that does not exist is refused with
    /// `IndexOutOfRange` and changes nothing. Every other message is accepted:
    /// the session becomes `next_state` and the shell is told `action_for`.
    pub fn update(&mut self, message: Message) -> (outcome: Result<Action, ContractViolation>)
        requires
            old(self).wf(),
        ensures
            final(self).wf(),
            !names_missing_row(old(self)@.records, message) ==> outcome == Ok::<Action, ContractViolation>(
                action_for(message),
            ) && final(self)@ == next_state(old(self)@, message),
            names_missing_row(old(self)@.records, message) ==> outcome == Err::<Action, ContractViolation>(
                ContractViolation::IndexOutOfRange,
            ) && *final(self) == *old(self),
            keeps_session(message) ==> *final(self) == *old(self),
    {
        match message {
            Message::PCBFilenameInputChanged(text) => {
                self.records.set_descriptor_image(text);
                Ok(Action::Nothing)
            },
            Message::PCBNameInputChanged(text) => {
                self.records.set_descriptor_name(text);
                Ok(Action::Nothing)
            },
            Message::SaveClicked => Ok(Action::Save),
            Message::AddComponent => {
                add_component(self);
                Ok(Action::Nothing)
            },
            Message::CountInputChanged { value, id } => {
                match self.records.set_row_field(id, RowField::CountText, value) {
                    Ok(()) => Ok(Action::Nothing),
                    Err(violation) => Err(violation),
                }
            },
            Message::ThresholdInputChanged { value, id } => {
                match self.records.set_row_field(id, RowField::ThresholdText, value) {
                    Ok(()) => Ok(Action::Nothing),
                    Err(violation) => Err(violation),
                }
            },
            Message::FilenameInputChanged { value, id } => {
                match self.records.set_row_field(id, RowField::ImagePath, value) {
                    Ok(()) => Ok(Action::Nothing),
                    Err(violation) => Err(violation),
                }
            },
            Message::SaveFinished(outcome) => {
                match outcome {
                    SaveOutcome::Saved => {
                        self.save_button_text = String::from_str("Saved");
                        Ok(Action::Nothing)
                    },
                    SaveOutcome::Cancelled => Ok(Action::Nothing),
                    SaveOutcome::WriteFailed => Ok(Action::ReportWriteFailure),
                }
            },
        }
    }
}

/// Appends a blank row to the session's record set.
pub fn add_component(app: &mut Creator)
    requires
        old(app).wf(),
    ensures
        final(app).wf(),
        final(app)@ == (CreatorView { records: old(app)@.records.add_row(), ..old(app)@ }),
{
    app.records.add_row();
}

} // verus!
