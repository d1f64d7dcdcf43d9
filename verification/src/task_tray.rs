//! The tray actor: owns the status-area icon and its two-item context menu
//! ("show", "quit") and maps menu selections to controller-bound events.
//!
//! The icon, the menu and the message pumping are the runtime's business; the
//! decision logic here maps a selected menu-item identifier to the event it
//! stands for, forwards it, and leaves the polling loop when the controller
//! sends `Finish`.

use vstd::prelude::*;
use crate::channel::{send, try_recv};
use crate::endpoint::{TrayCmd, TrayEndpoint, TrayEvent};

verus! {

/// What a menu selection stands for, in the tray actor's own vocabulary.
#[derive(Clone, Copy, Debug, PartialEq, Eq, Structural)]
pub enum TrayCommand {
    /// The "show" item: bring the window back.
    Show,
    /// The "quit" item: end the process.
    Quit,
}

/// The controller-bound event a tray command stands for.
pub open spec fn command_event(cmd: TrayCommand) -> TrayEvent {
    match cmd {
        TrayCommand::Show => TrayEvent::ShowWindow,
        TrayCommand::Quit => TrayEvent::Quit,
    }
}

/// The command a selected menu-item identifier stands for: the "show" item
/// maps to `Show`, the "quit" item to `Quit`, anything else to nothing.
pub open spec fn selection_command(show_id: u32, quit_id: u32, selected: u32) -> Option<
    TrayCommand,
> {
    if selected == show_id {
        Some(TrayCommand::Show)
    } else if selected == quit_id {
        Some(TrayCommand::Quit)
    } else {
        None
    }
}

/// The event a selected menu-item identifier is forwarded as.
pub open spec fn selection_event(show_id: u32, quit_id: u32, selected: u32) -> Option<TrayEvent> {
    match selection_command(show_id, quit_id, selected) {
        Some(cmd) => Some(command_event(cmd)),
        None => None,
    }
}

/// The tray actor: its endpoint half, the identifiers of its two menu items,
/// the window handle it may wake, and whether `Finish` has been processed.
/// The icon and menu objects themselves belong to the runtime.
pub struct TaskTray {
    pub endpoint: TrayEndpoint,
    pub show_id: u32,
    pub quit_id: u32,
    pub hwnd: Option<isize>,
    pub finished: bool,
}

impl TaskTray {
    /// The two menu items are distinct.
    pub open spec fn wf(&self) -> bool {
        self.show_id != self.quit_id
    }

    pub fn new(endpoint: TrayEndpoint, show_id: u32, quit_id: u32) -> (tray: TaskTray)
        requires
            show_id != quit_id,
        ensures
            tray.wf(),
            tray.show_id == show_id,
            tray.quit_id == quit_id,
            tray.hwnd is None,
            !tray.finished,
    {
        TaskTray { endpoint, show_id, quit_id, hwnd: None, finished: false }
    }

    /// Map a selected menu-item identifier to the command it stands for.
    pub fn map_selection(&self, selected: u32) -> (cmd: Option<TrayCommand>)
        ensures
            cmd == selection_command(self.show_id, self.quit_id, selected),
    {
        if selected == self.show_id {
            Some(TrayCommand::Show)
        } else if selected == self.quit_id {
            Some(TrayCommand::Quit)
        } else {
            None
        }
    }

    /// Map a selection and forward the event it stands for to the controller.
    /// Exactly the returned event is sent — one event per selection of a
    /// known item, none for an unknown one.
    pub fn handle_selection(&mut self, selected: u32) -> (event: Option<TrayEvent>)
        ensures
            *final(self) == *old(self),
            event == selection_event(old(self).show_id, old(self).quit_id, selected),
    {
        match self.map_selection(selected) {
            Some(TrayCommand::Show) => {
                send(&self.endpoint.tx, TrayEvent::ShowWindow);
                Some(TrayEvent::ShowWindow)
            },
            Some(TrayCommand::Quit) => {
                send(&self.endpoint.tx, TrayEvent::Quit);
                Some(TrayEvent::Quit)
            },
            None => None,
        }
    }

    /// Drain one command from the controller. On `Finish` the loop is over
    /// and the runtime releases the icon and menu; nothing else ever changes
    /// the actor.
    pub fn poll_command(&mut self) -> (stop: bool)
        ensures
            final(self).show_id == old(self).show_id,
            final(self).quit_id == old(self).quit_id,
            final(self).hwnd == old(self).hwnd,
            stop ==> final(self).finished,
            !stop ==> *final(self) == *old(self),
    {
        match try_recv(&self.endpoint.rx) {
            Some(TrayCmd::Finish) => {
                self.finished = true;
                true
            },
            None => false,
        }
    }

    /// Remember the window handle, so the runtime can wake the hidden window
    /// after forwarding an event.
    pub fn set_hwnd(&mut self, hwnd: isize)
        ensures
            final(self).hwnd == Some(hwnd),
            final(self).show_id == old(self).show_id,
            final(self).quit_id == old(self).quit_id,
            final(self).finished == old(self).finished,
    {
        self.hwnd = Some(hwnd);
    }
}

/// Law: round-trip menu mapping. With distinct menu items, selecting the
/// "show" item yields exactly a `ShowWindow` event and never a `Quit`, and
/// selecting the "quit" item yields exactly a `Quit` event and never a
/// `ShowWindow`; no other selection yields anything.
pub proof fn lemma_menu_mapping_exclusive(show_id: u32, quit_id: u32, selected: u32)
    requires
        show_id != quit_id,
    ensures
        selection_event(show_id, quit_id, selected) == Some(TrayEvent::ShowWindow) <==> selected
            == show_id,
        selection_event(show_id, quit_id, selected) == Some(TrayEvent::Quit) <==> selected
            == quit_id,
        selected != show_id && selected != quit_id ==> selection_event(
            show_id,
            quit_id,
            selected,
        ) is None,
{
}

} // verus!
