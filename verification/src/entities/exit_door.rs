use vstd::prelude::*;

use crate::entities::util::HorizontalDir;

verus! {

/// Where an exit door is in its opening.
#[derive(Debug, Clone, Copy, PartialEq, Eq, Structural)]
pub enum DoorMode {
    Closed,
    Opening,
    Open,
}

/// The messages an exit door answers.
#[derive(Debug, Clone, Copy, PartialEq, Eq, Structural)]
pub enum DoorMessage {
    OpenExitDoor,
    ResetState,
    Other,
}

/// What an exit door broadcasts on one update.
#[derive(Debug, Clone, Copy, PartialEq, Eq, Structural)]
pub struct DoorAction {
    /// The door has just opened all the way.
    pub opened: bool,
    /// Firebrand has just walked through the open door.
    pub passed_through: bool,
}

/// The decisions of an exit door. The level has two doors, and only the west one reports that
/// Firebrand passed through; it does so once, until the door is closed again. How far the door
/// has slid, and where Firebrand stands, are measured by the game world.
#[derive(Debug, Clone, Copy, PartialEq, Eq, Structural)]
pub struct DoorState {
    pub mode: DoorMode,
    pub open_dir: HorizontalDir,
    pub should_send_exit_message: bool,
}

pub open spec fn sends_exit_message(open_dir: HorizontalDir) -> bool {
    open_dir == HorizontalDir::West
}

impl DoorState {
    pub open spec fn new_spec(open_dir: HorizontalDir) -> DoorState {
        DoorState { mode: DoorMode::Closed, open_dir, should_send_exit_message: sends_exit_message(open_dir) }
    }

    /// A closed door; only a west door will report Firebrand passing through.
    pub fn new(open_dir: HorizontalDir) -> (r: DoorState)
        ensures
            r == DoorState::new_spec(open_dir),
    {
        DoorState {
            mode: DoorMode::Closed,
            open_dir,
            should_send_exit_message: matches!(open_dir, HorizontalDir::West),
        }
    }

    pub open spec fn spec_handle_message(self, message: DoorMessage) -> DoorState {
        match message {
            DoorMessage::OpenExitDoor => DoorState { mode: DoorMode::Opening, ..self },
            DoorMessage::ResetState => DoorState { mode: DoorMode::Closed, ..self },
            DoorMessage::Other => self,
        }
    }

    /// Opens the door on `OpenExitDoor`, closes it on `ResetState`.
    pub fn handle_message(&mut self, message: DoorMessage)
        ensures
            *final(self) == old(self).spec_handle_message(message),
    {
        match message {
            DoorMessage::OpenExitDoor => self.mode = DoorMode::Opening,
            DoorMessage::ResetState => self.mode = DoorMode::Closed,
            DoorMessage::Other => {},
        }
    }

    pub open spec fn spec_update(self, fully_open: bool, crossed_threshold: bool) -> (DoorState, DoorAction) {
        let quiet = DoorAction { opened: false, passed_through: false };
        match self.mode {
            DoorMode::Closed => (DoorState { should_send_exit_message: sends_exit_message(self.open_dir), ..self }, quiet),
            DoorMode::Opening => if fully_open {
                (DoorState { mode: DoorMode::Open, ..self }, DoorAction { opened: true, passed_through: false })
            } else {
                (self, quiet)
            },
            DoorMode::Open => if self.should_send_exit_message && crossed_threshold {
                (DoorState { should_send_exit_message: false, ..self }, DoorAction { opened: false, passed_through: true })
            } else {
                (self, quiet)
            },
        }
    }

    /// One update. `fully_open` says whether the sliding door has reached its open position this
    /// frame; `crossed_threshold` whether Firebrand crossed the middle of the doorway since the
    /// last frame, either way.
    pub fn update(&mut self, fully_open: bool, crossed_threshold: bool) -> (action: DoorAction)
        ensures
            (*final(self), action) == old(self).spec_update(fully_open, crossed_threshold),
    {
        match self.mode {
            DoorMode::Closed => {
                self.should_send_exit_message = matches!(self.open_dir, HorizontalDir::West);
                DoorAction { opened: false, passed_through: false }
            },
            DoorMode::Opening => {
                if fully_open {
                    self.mode = DoorMode::Open;
                    DoorAction { opened: true, passed_through: false }
                } else {
                    DoorAction { opened: false, passed_through: false }
                }
            },
            DoorMode::Open => {
                if self.should_send_exit_message && crossed_threshold {
                    self.should_send_exit_message = false;
                    DoorAction { opened: false, passed_through: true }
                } else {
                    DoorAction { opened: false, passed_through: false }
                }
            },
        }
    }
}

/// Once a door has reported Firebrand passing through, it stays silent about it until it is
/// closed again: no update reports it, and no message but `ResetState` closes the door.
pub proof fn lemma_exit_reported_once(s: DoorState, fully_open: bool, crossed: bool, message: DoorMessage)
    requires
        !s.should_send_exit_message,
        s.mode != DoorMode::Closed,
    ensures
        !s.spec_update(fully_open, crossed).1.passed_through,
        !s.spec_update(fully_open, crossed).0.should_send_exit_message,
        s.spec_update(fully_open, crossed).0.mode != DoorMode::Closed,
        message != DoorMessage::ResetState ==> s.spec_handle_message(message).mode != DoorMode::Closed,
{
}

/// An east door never reports a passage: it starts without the duty, and nothing gives it one.
pub proof fn lemma_east_door_silent(s: DoorState, fully_open: bool, crossed: bool, message: DoorMessage)
    requires
        s.open_dir == HorizontalDir::East,
        !s.should_send_exit_message,
    ensures
        !DoorState::new_spec(HorizontalDir::East).should_send_exit_message,
        !s.spec_update(fully_open, crossed).1.passed_through,
        !s.spec_update(fully_open, crossed).0.should_send_exit_message,
        !s.spec_handle_message(message).should_send_exit_message,
{
}

/// An open door reports each passage at most once: right after it does, it is silent.
pub proof fn lemma_report_silences_door(s: DoorState, fully_open: bool, crossed: bool)
    requires
        s.spec_update(fully_open, crossed).1.passed_through,
    ensures
        !s.spec_update(fully_open, crossed).0.should_send_exit_message,
        s.spec_update(fully_open, crossed).0.mode == DoorMode::Open,
{
}

} // verus!
