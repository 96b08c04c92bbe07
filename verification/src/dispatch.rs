use vstd::prelude::*;
use crate::timer::TimerDuration;

verus! {

/// What the event loop must do after the state owner has handled an event.
pub enum Action {
    /// No observable effect: no sleep, no spawn, no window change.
    Nothing,
    /// Hide the main window, wait `seconds` wall-clock seconds, then open
    /// `path` with the default-open mechanism.
    HideAndCountdown { seconds: u64, path: String },
    /// Re-show the main window, interactive again for a new countdown.
    ShowWindow,
}

/// The application's mutable state: the selected file, if any, and whether a
/// countdown is currently running (Armed) or not (Idle).  Event-loop closures
/// send events here instead of sharing a mutable cell; this single owner
/// applies them serially and answers with the `Action` to perform.
pub struct AlarmState {
    pub selected: Option<String>,
    pub armed: bool,
}

impl AlarmState {
    /// The selected path as a mathematical value.
    pub open spec fn selected_view(self) -> Option<Seq<char>> {
        match self.selected {
            Some(path) => Some(path@),
            None => None,
        }
    }

    /// The initial state: Idle, no file selected.
    pub fn new() -> (r: AlarmState)
        ensures
            r.selected_view() is None,
            !r.armed,
    {
        AlarmState { selected: None, armed: false }
    }

    /// Apply the outcome of the file-selection dialog: `Some(path)` on
    /// confirmation, `None` on cancellation.  Confirmation replaces the
    /// selection; cancellation leaves any prior selection unchanged.
    pub fn select_file(&mut self, choice: Option<String>)
        ensures
            choice matches Some(path) ==> final(self).selected_view() == Some(path@),
            choice is None ==> final(self).selected_view() == old(self).selected_view(),
            final(self).armed == old(self).armed,
    {
        match choice {
            Some(path) => {
                self.selected = Some(path);
            },
            None => {},
        }
    }

    /// Handle a press of the dispatch button.  With no file selected this is
    /// a no-op: the state is unchanged and nothing observable happens, for
    /// any timer value.  With a file selected, the state becomes Armed and
    /// the event loop is told to hide the window, wait exactly
    /// `timer.total_spec()` seconds and open the selected path.
    pub fn request_dispatch(&mut self, timer: &TimerDuration) -> (a: Action)
        requires
            timer.wf(),
            !old(self).armed,
        ensures
            old(self).selected_view() is None ==> {
                &&& *final(self) == *old(self)
                &&& a is Nothing
            },
            old(self).selected_view() matches Some(path) ==> {
                &&& final(self).armed
                &&& final(self).selected_view() == old(self).selected_view()
                &&& (a matches Action::HideAndCountdown { seconds, path: p }
                    && seconds == timer.total_spec() && p@ == path)
            },
    {
        match &self.selected {
            None => Action::Nothing,
            Some(path) => {
                let path = path.clone();
                let seconds = timer.total_seconds();
                self.armed = true;
                Action::HideAndCountdown { seconds, path }
            },
        }
    }

    /// Handle the end of a countdown: back to Idle, with the selection kept,
    /// and the main window is to be shown again.
    pub fn countdown_finished(&mut self) -> (a: Action)
        requires
            old(self).armed,
        ensures
            !final(self).armed,
            final(self).selected_view() == old(self).selected_view(),
            a is ShowWindow,
    {
        self.armed = false;
        Action::ShowWindow
    }
}

/// One tick of the fixed-interval poll that watches for a completed file
/// selection: once a selection is visible the control's icon is updated and
/// the poll cancels itself; until then it continues.
pub fn poll_selection(selection_visible: bool) -> (r: PollAction)
    ensures
        selection_visible <==> r is MarkSelectedAndStop,
        !selection_visible <==> r is ContinuePolling,
{
    if selection_visible {
        PollAction::MarkSelectedAndStop
    } else {
        PollAction::ContinuePolling
    }
}

/// What one poll tick asks of the GUI.
pub enum PollAction {
    /// Swap the icon on the selection control and cancel the poll.
    MarkSelectedAndStop,
    /// Keep polling.
    ContinuePolling,
}

} // verus!
