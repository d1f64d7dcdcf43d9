//! The controller: the single arbitration thread of the coordination core.
//!
//! The controller polls the hotkey, tray and UI endpoints in a fixed cycle,
//! keeps a small state record (the window handle and the outcome of the last
//! hotkey registration), and decides which operating-system calls to make on
//! the window and which commands to send back to its peers. The decisions are
//! pure functions of the state, the event and the observed window visibility;
//! the runtime around the controller performs the returned [`WindowAction`]s
//! and supplies the visibility it observed.

use vstd::prelude::*;
use std::sync::mpsc::Receiver;
use crate::channel::{send, try_recv};
use crate::endpoint::{
    HotkeyCmd, HotkeyEvent, HotkeyHandle, TrayCmd, TrayEvent, TrayHandle, UiCommand, UiEvent,
    UiHandle,
};

verus! {

/// Operating-system call the controller asks its runtime to make on the
/// window whose handle it holds.
#[derive(Clone, Copy, Debug, PartialEq, Eq, Structural)]
pub enum WindowAction {
    /// Make the window visible.
    Show(isize),
    /// Hide the window.
    Hide(isize),
    /// Bring the window to the foreground.
    Foreground(isize),
    /// Post a graceful close request, letting the UI run its own teardown.
    PostClose(isize),
}

impl WindowAction {
    /// The window handle this action touches.
    pub open spec fn handle(self) -> isize {
        match self {
            WindowAction::Show(h) => h,
            WindowAction::Hide(h) => h,
            WindowAction::Foreground(h) => h,
            WindowAction::PostClose(h) => h,
        }
    }
}

/// Window visibility after a sequence of actions is performed, starting from
/// the given visibility. Only `Show` and `Hide` change it.
pub open spec fn visibility_after(actions: Seq<WindowAction>, visible: bool) -> bool
    decreases actions.len(),
{
    if actions.len() == 0 {
        visible
    } else {
        let next = match actions[0] {
            WindowAction::Show(_) => true,
            WindowAction::Hide(_) => false,
            WindowAction::Foreground(_) => visible,
            WindowAction::PostClose(_) => visible,
        };
        visibility_after(actions.drop_first(), next)
    }
}

/// The controller's state record. The window handle is set by the first
/// `HwndReady` event and never cleared or replaced afterwards; the
/// registration flag mirrors the outcome of the most recent hotkey
/// registration attempt and is kept for diagnostics only.
#[derive(Clone, Copy, Debug, PartialEq, Eq, Structural)]
pub struct ControllerState {
    pub hwnd: Option<isize>,
    pub hotkey_registered: bool,
}

/// Everything one controller decision asks of the outside world: window
/// actions to perform and at most one command to each peer.
pub struct Effects {
    pub window: Vec<WindowAction>,
    pub to_hotkey: Option<HotkeyCmd>,
    pub to_tray: Option<TrayCmd>,
    pub to_ui: Option<UiCommand>,
}

/// Mathematical model of [`Effects`].
pub ghost struct EffectsModel {
    pub window: Seq<WindowAction>,
    pub to_hotkey: Option<HotkeyCmd>,
    pub to_tray: Option<TrayCmd>,
    pub to_ui: Option<UiCommand>,
}

impl View for Effects {
    type V = EffectsModel;

    open spec fn view(&self) -> EffectsModel {
        EffectsModel {
            window: self.window@,
            to_hotkey: self.to_hotkey,
            to_tray: self.to_tray,
            to_ui: self.to_ui,
        }
    }
}

/// No actions and no commands.
pub open spec fn no_effects() -> EffectsModel {
    EffectsModel { window: Seq::empty(), to_hotkey: None, to_tray: None, to_ui: None }
}

/// Show the window, bring it to the foreground and hint the UI to focus its
/// input field.
pub open spec fn show_effects(h: isize) -> EffectsModel {
    EffectsModel {
        window: seq![WindowAction::Show(h), WindowAction::Foreground(h)],
        to_hotkey: None,
        to_tray: None,
        to_ui: Some(UiCommand::FocusInput),
    }
}

/// Hide the window.
pub open spec fn hide_effects(h: isize) -> EffectsModel {
    EffectsModel {
        window: seq![WindowAction::Hide(h)],
        to_hotkey: None,
        to_tray: None,
        to_ui: None,
    }
}

/// What a `Toggle` asks for: hide a visible window, show and foreground a
/// hidden one; a no-op while no handle is held.
pub open spec fn toggle_effects(s: ControllerState, visible: bool) -> EffectsModel {
    match s.hwnd {
        Some(h) => if visible {
            hide_effects(h)
        } else {
            show_effects(h)
        },
        None => no_effects(),
    }
}

/// State after a hotkey event: only `RegisterResult` changes anything, and it
/// changes only the registration flag.
pub open spec fn hotkey_next(s: ControllerState, event: HotkeyEvent, visible: bool)
    -> ControllerState {
    match event {
        HotkeyEvent::Toggle => s,
        HotkeyEvent::RegisterResult(ok) => ControllerState { hotkey_registered: ok, hwnd: s.hwnd },
    }
}

/// Effects of a hotkey event.
pub open spec fn hotkey_effects(s: ControllerState, event: HotkeyEvent, visible: bool)
    -> EffectsModel {
    match event {
        HotkeyEvent::Toggle => toggle_effects(s, visible),
        HotkeyEvent::RegisterResult(ok) => no_effects(),
    }
}

/// Effects of a tray event. `ShowWindow` shows a hidden window and leaves a
/// visible one alone; `Quit` posts a graceful close request to the window.
/// Tray events never change the controller's state.
pub open spec fn tray_effects(s: ControllerState, event: TrayEvent, visible: bool)
    -> EffectsModel {
    match event {
        TrayEvent::ShowWindow => match s.hwnd {
            Some(h) => if visible {
                no_effects()
            } else {
                show_effects(h)
            },
            None => no_effects(),
        },
        TrayEvent::Quit => match s.hwnd {
            Some(h) => EffectsModel {
                window: seq![WindowAction::PostClose(h)],
                to_hotkey: None,
                to_tray: None,
                to_ui: None,
            },
            None => no_effects(),
        },
    }
}

/// State after a UI event: the first `HwndReady` stores the handle, any later
/// one is accepted idempotently and changes nothing.
pub open spec fn ui_next(s: ControllerState, event: UiEvent) -> ControllerState {
    match event {
        UiEvent::HwndReady(h) => if s.hwnd is None {
            ControllerState { hwnd: Some(h), hotkey_registered: s.hotkey_registered }
        } else {
            s
        },
    }
}

/// Effects of a UI event: the first `HwndReady` relays the handle to the
/// hotkey actor as a `Register` command; later arrivals ask for nothing.
pub open spec fn ui_effects(s: ControllerState, event: UiEvent) -> EffectsModel {
    match event {
        UiEvent::HwndReady(h) => if s.hwnd is None {
            EffectsModel {
                window: Seq::empty(),
                to_hotkey: Some(HotkeyCmd::Register(h)),
                to_tray: None,
                to_ui: None,
            }
        } else {
            no_effects()
        },
    }
}

/// Effects of the shutdown signal: `Finish` fans out to both actors before
/// the controller leaves its loop.
pub open spec fn shutdown_effects() -> EffectsModel {
    EffectsModel {
        window: Seq::empty(),
        to_hotkey: Some(HotkeyCmd::Finish),
        to_tray: Some(TrayCmd::Finish),
        to_ui: None,
    }
}

/// Every window action in the effects touches the handle the state holds;
/// in particular a state without a handle asks for no window action at all.
pub open spec fn effects_wf(s: ControllerState, e: EffectsModel) -> bool {
    forall|i: int| 0 <= i < e.window.len() ==> s.hwnd == Some(#[trigger] e.window[i].handle())
}

impl Effects {
    fn none() -> (e: Effects)
        ensures
            e@ == no_effects(),
    {
        let e = Effects { window: Vec::new(), to_hotkey: None, to_tray: None, to_ui: None };
        proof {
            assert(e@.window =~= no_effects().window);
            assert(e@ == no_effects());
        }
        e
    }

    fn show(h: isize) -> (e: Effects)
        ensures
            e@ == show_effects(h),
    {
        let mut window: Vec<WindowAction> = Vec::new();
        window.push(WindowAction::Show(h));
        window.push(WindowAction::Foreground(h));
        let e = Effects { window, to_hotkey: None, to_tray: None, to_ui: Some(UiCommand::FocusInput) };
        proof {
            assert(e@.window =~= show_effects(h).window);
            assert(e@ == show_effects(h));
        }
        e
    }

    fn hide_only(h: isize) -> (e: Effects)
        ensures
            e@ == hide_effects(h),
    {
        let mut window: Vec<WindowAction> = Vec::new();
        window.push(WindowAction::Hide(h));
        let e = Effects { window, to_hotkey: None, to_tray: None, to_ui: None };
        proof {
            assert(e@.window =~= hide_effects(h).window);
            assert(e@ == hide_effects(h));
        }
        e
    }

    fn post_close(h: isize) -> (e: Effects)
        ensures
            e@.window == seq![WindowAction::PostClose(h)],
            e@.to_hotkey is None && e@.to_tray is None && e@.to_ui is None,
    {
        let mut window: Vec<WindowAction> = Vec::new();
        window.push(WindowAction::PostClose(h));
        let e = Effects { window, to_hotkey: None, to_tray: None, to_ui: None };
        proof {
            assert(e@.window =~= seq![WindowAction::PostClose(h)]);
        }
        e
    }
}

impl ControllerState {
    /// A fresh controller state: no window handle, no registration reported.
    pub fn new() -> (s: Self)
        ensures
            s.hwnd is None,
            !s.hotkey_registered,
    {
        ControllerState { hwnd: None, hotkey_registered: false }
    }

    /// Decide on one event from the hotkey actor, given the window visibility
    /// the runtime observed.
    pub fn on_hotkey_event(&mut self, event: HotkeyEvent, visible: bool) -> (effects: Effects)
        ensures
            *final(self) == hotkey_next(*old(self), event, visible),
            effects@ == hotkey_effects(*old(self), event, visible),
    {
        match event {
            HotkeyEvent::Toggle => self.toggle_window(visible),
            HotkeyEvent::RegisterResult(ok) => {
                self.hotkey_registered = ok;
                Effects::none()
            },
        }
    }

    /// Decide on one event from the tray actor.
    pub fn on_tray_event(&mut self, event: TrayEvent, visible: bool) -> (effects: Effects)
        ensures
            *final(self) == *old(self),
            effects@ == tray_effects(*old(self), event, visible),
    {
        match event {
            TrayEvent::ShowWindow => self.request_show_window(visible),
            TrayEvent::Quit => self.request_ui_exit(),
        }
    }

    /// Decide on one event from the UI thread.
    pub fn on_ui_event(&mut self, event: UiEvent) -> (effects: Effects)
        ensures
            *final(self) == ui_next(*old(self), event),
            effects@ == ui_effects(*old(self), event),
    {
        match event {
            UiEvent::HwndReady(h) => {
                if self.hwnd.is_none() {
                    self.hwnd = Some(h);
                    let mut e = Effects::none();
                    e.to_hotkey = Some(HotkeyCmd::Register(h));
                    e
                } else {
                    Effects::none()
                }
            },
        }
    }

    /// Decide on the shutdown signal.
    pub fn on_shutdown(&mut self) -> (effects: Effects)
        ensures
            *final(self) == *old(self),
            effects@ == shutdown_effects(),
    {
        let mut e = Effects::none();
        e.to_hotkey = Some(HotkeyCmd::Finish);
        e.to_tray = Some(TrayCmd::Finish);
        e
    }

    /// Hide a visible window, show and foreground a hidden one; without a
    /// handle this is a no-op.
    fn toggle_window(&mut self, visible: bool) -> (effects: Effects)
        ensures
            *final(self) == *old(self),
            effects@ == toggle_effects(*old(self), visible),
    {
        match self.hwnd {
            Some(h) => if visible {
                Effects::hide_only(h)
            } else {
                Effects::show(h)
            },
            None => Effects::none(),
        }
    }

    /// Show and foreground the window only when it is hidden.
    fn request_show_window(&mut self, visible: bool) -> (effects: Effects)
        ensures
            *final(self) == *old(self),
            effects@ == tray_effects(*old(self), TrayEvent::ShowWindow, visible),
    {
        match self.hwnd {
            Some(h) => if visible {
                Effects::none()
            } else {
                Effects::show(h)
            },
            None => Effects::none(),
        }
    }

    /// Ask the window to close gracefully rather than killing the UI.
    fn request_ui_exit(&mut self) -> (effects: Effects)
        ensures
            *final(self) == *old(self),
            effects@ == tray_effects(*old(self), TrayEvent::Quit, true),
    {
        match self.hwnd {
            Some(h) => Effects::post_close(h),
            None => Effects::none(),
        }
    }
}

/// The arbitration thread's working set: the state record, the controller
/// half of each endpoint pair, and the process-wide shutdown channel. The
/// runtime drives it by calling the four `recv`/`poll` methods in a fixed
/// cycle, performing the returned window actions, and sleeping briefly
/// between cycles.
pub struct Controller {
    pub state: ControllerState,
    pub ui: UiHandle,
    pub hotkey: HotkeyHandle,
    pub tray: TrayHandle,
    pub finish_rx: Receiver<()>,
}

impl Controller {
    pub fn new(
        ui: UiHandle,
        hotkey: HotkeyHandle,
        tray: TrayHandle,
        finish_rx: Receiver<()>,
    ) -> (c: Controller)
        ensures
            c.state.hwnd is None,
            !c.state.hotkey_registered,
    {
        Controller { state: ControllerState::new(), ui, hotkey, tray, finish_rx }
    }

    /// Send each queued command to its peer and hand the window actions back
    /// to the caller. A send to a peer that is already gone fails benignly
    /// and is ignored: that happens naturally during shutdown races.
    fn dispatch(&self, effects: Effects) -> (actions: Vec<WindowAction>)
        ensures
            actions@ == effects@.window,
    {
        let Effects { window, to_hotkey, to_tray, to_ui } = effects;
        if let Some(cmd) = to_hotkey {
            send(&self.hotkey.tx, cmd);
        }
        if let Some(cmd) = to_tray {
            send(&self.tray.tx, cmd);
        }
        if let Some(cmd) = to_ui {
            send(&self.ui.tx, cmd);
        }
        window
    }

    /// Poll the hotkey endpoint once, given the window visibility the caller
    /// observed: either nothing had arrived and nothing changes, or one event
    /// was taken and its decision was applied and dispatched. Whatever
    /// arrives, the window handle is untouched and every returned action
    /// touches only the held handle; in particular, without a handle nothing
    /// is asked for.
    pub fn recv_hotkey(&mut self, visible: bool) -> (actions: Vec<WindowAction>)
        ensures
            final(self).state.hwnd == old(self).state.hwnd,
            forall|i: int|
                0 <= i < actions@.len() ==> old(self).state.hwnd == Some(
                    #[trigger] actions@[i].handle(),
                ),
            (final(self).state == old(self).state && actions@ == Seq::<WindowAction>::empty())
                || exists|event: HotkeyEvent|
                {
                    &&& final(self).state == #[trigger] hotkey_next(
                        old(self).state,
                        event,
                        visible,
                    )
                    &&& actions@ == hotkey_effects(old(self).state, event, visible).window
                },
    {
        match try_recv(&self.hotkey.rx) {
            Some(event) => {
                let effects = self.state.on_hotkey_event(event, visible);
                self.dispatch(effects)
            },
            None => Vec::new(),
        }
    }

    /// Poll the tray endpoint once. Tray events never change the state, and
    /// every returned action touches only the held handle.
    pub fn recv_tasktray(&mut self, visible: bool) -> (actions: Vec<WindowAction>)
        ensures
            final(self).state == old(self).state,
            forall|i: int|
                0 <= i < actions@.len() ==> old(self).state.hwnd == Some(
                    #[trigger] actions@[i].handle(),
                ),
            actions@ == Seq::<WindowAction>::empty() || exists|event: TrayEvent|
                actions@ == #[trigger] tray_effects(old(self).state, event, visible).window,
    {
        match try_recv(&self.tray.rx) {
            Some(event) => {
                let effects = self.state.on_tray_event(event, visible);
                self.dispatch(effects)
            },
            None => Vec::new(),
        }
    }

    /// Poll the UI endpoint once. The first `HwndReady` stores the handle and
    /// relays it to the hotkey actor as a `Register` command; once a handle
    /// is held, the state never changes again on this path, and the
    /// registration flag is never touched by it.
    pub fn recv_ui(&mut self)
        ensures
            final(self).state.hotkey_registered == old(self).state.hotkey_registered,
            old(self).state.hwnd is Some ==> final(self).state == old(self).state,
            final(self).state == old(self).state || exists|event: UiEvent|
                final(self).state == #[trigger] ui_next(old(self).state, event),
    {
        match try_recv(&self.ui.rx) {
            Some(event) => {
                let effects = self.state.on_ui_event(event);
                let _actions = self.dispatch(effects);
            },
            None => {},
        }
    }

    /// Poll the shutdown channel once. On the signal, `Finish` fans out to
    /// the hotkey and tray actors — both sends happen before the caller may
    /// join either thread — and the result tells the caller to leave its
    /// loop. The state itself is never changed by shutdown.
    pub fn poll_shutdown(&mut self) -> (stop: bool)
        ensures
            final(self).state == old(self).state,
    {
        match try_recv(&self.finish_rx) {
            Some(()) => {
                let effects = self.state.on_shutdown();
                let _actions = self.dispatch(effects);
                true
            },
            None => false,
        }
    }
}

/// Law: handle registration is idempotent. Once a `HwndReady` event has set
/// the window handle, delivering any further `HwndReady` leaves the state
/// exactly as it was and asks for nothing — in particular no second
/// `Register` command reaches the hotkey actor.
pub proof fn lemma_hwnd_ready_idempotent(s: ControllerState, first: isize, second: isize)
    ensures
        ui_next(ui_next(s, UiEvent::HwndReady(first)), UiEvent::HwndReady(second)) == ui_next(
            s,
            UiEvent::HwndReady(first),
        ),
        ui_effects(ui_next(s, UiEvent::HwndReady(first)), UiEvent::HwndReady(second))
            == no_effects(),
{
}

/// Law: toggling is correct and involutive. With a handle held, a `Toggle`
/// leaves the state unchanged; it hides a visible window and shows a hidden
/// one; and performing the actions of two consecutive `Toggle`s restores the
/// original visibility, whatever it was.
pub proof fn lemma_toggle_flips(s: ControllerState, visible: bool)
    requires
        s.hwnd is Some,
    ensures
        hotkey_next(s, HotkeyEvent::Toggle, visible) == s,
        visibility_after(hotkey_effects(s, HotkeyEvent::Toggle, visible).window, visible)
            == !visible,
{
    let h = s.hwnd->0;
    assert(visibility_after(Seq::<WindowAction>::empty(), false) == false);
    assert(visibility_after(Seq::<WindowAction>::empty(), true) == true);
    if visible {
        let w = hide_effects(h).window;
        assert(w.drop_first() =~= Seq::<WindowAction>::empty());
        assert(visibility_after(w, true) == visibility_after(w.drop_first(), false));
    } else {
        let w = show_effects(h).window;
        assert(w.drop_first() =~= seq![WindowAction::Foreground(h)]);
        assert(w.drop_first().drop_first() =~= Seq::<WindowAction>::empty());
        assert(visibility_after(w.drop_first(), true) == visibility_after(
            w.drop_first().drop_first(),
            true,
        ));
        assert(visibility_after(w, false) == visibility_after(w.drop_first(), true));
    }
}

/// Law: applying `Toggle` twice returns the window to its original
/// visibility.
pub proof fn lemma_toggle_twice_restores(s: ControllerState, visible: bool)
    requires
        s.hwnd is Some,
    ensures
        ({
            let once = visibility_after(
                hotkey_effects(s, HotkeyEvent::Toggle, visible).window,
                visible,
            );
            visibility_after(hotkey_effects(s, HotkeyEvent::Toggle, once).window, once) == visible
        }),
{
    lemma_toggle_flips(s, visible);
    lemma_toggle_flips(s, !visible);
}

/// Law: no handle, no side effect. Before a handle is registered, a `Toggle`
/// from the hotkey and a `ShowWindow` or `Quit` from the tray all leave the
/// state unchanged and ask for no window action and no command.
pub proof fn lemma_no_handle_is_noop(s: ControllerState, visible: bool)
    requires
        s.hwnd is None,
    ensures
        hotkey_next(s, HotkeyEvent::Toggle, visible) == s,
        hotkey_effects(s, HotkeyEvent::Toggle, visible) == no_effects(),
        tray_effects(s, TrayEvent::ShowWindow, visible) == no_effects(),
        tray_effects(s, TrayEvent::Quit, visible) == no_effects(),
{
}

/// Law: the controller never touches an operating-system handle it does not
/// itself hold. Every decision's window actions carry exactly the held
/// handle, whatever event arrives.
pub proof fn lemma_actions_touch_only_held_handle(
    s: ControllerState,
    hk: HotkeyEvent,
    tr: TrayEvent,
    ui: UiEvent,
    visible: bool,
)
    ensures
        effects_wf(s, hotkey_effects(s, hk, visible)),
        effects_wf(s, tray_effects(s, tr, visible)),
        effects_wf(s, ui_effects(s, ui)),
        effects_wf(s, shutdown_effects()),
{
}

} // verus!
