//! The Windows tray backend as a state machine.
//!
//! The backend owns one notification icon, the hidden message window the shell
//! reports icon interaction to, and the popup menu attached to that window.
//! For each requested configuration it plans the native calls that bring the
//! shell to that state; the host performs them in order, hands each outcome
//! back, and stops at the first failure.
use crate::descriptor::PlatformConfig;
use crate::error::TrayError;
use crate::native_menu::{build_menu, menu_for, NativeMenu};
use crate::wide::{tip_buffer, tooltip_buffer};
use vstd::prelude::*;

verus! {

/// The verbs of the shell's notification-icon call.
#[derive(Clone, Copy, Debug, PartialEq, Eq, Structural)]
pub enum ShellVerb {
    /// Register the icon with the shell.
    Add,
    /// Update the registered icon in place (tooltip, callback).
    Modify,
    /// Remove the icon from the shell.
    Delete,
}

/// One native call the host performs for the backend.
#[derive(Clone, Copy, Debug, PartialEq, Eq, Structural)]
pub enum NativeCall {
    /// Create the hidden message window; its outcome is the window handle.
    CreateWindow,
    /// Call the shell with the tray's window, identifier and tooltip.
    Notify(ShellVerb),
    /// Build the popup menu and attach it to the window; its outcome is the
    /// menu handle.
    AttachMenu,
}

/// The state of a Windows tray, as plain values.
pub struct TrayModel {
    /// Identifier of the icon within its window; kept for the tray's lifetime.
    pub tray_id: u32,
    /// Handle of the message window, once created.
    pub window: Option<isize>,
    /// Handle of the popup menu attached to the window.
    pub menu: Option<isize>,
    /// Whether the icon is registered with the shell.
    pub visible: bool,
}

/// A registered icon and an attached menu both need the window.
pub open spec fn model_wf(s: TrayModel) -> bool {
    &&& s.visible ==> s.window is Some
    &&& s.menu is Some ==> s.window is Some
}

/// The state of a tray that has made no native call yet.
pub open spec fn fresh_model(tray_id: u32) -> TrayModel {
    TrayModel { tray_id, window: None, menu: None, visible: false }
}

/// The native calls that bring a tray in state `s` to the requested
/// visibility, in order. Hiding deletes a registered icon. Showing creates the
/// window if there is none, then adds the icon when it is not registered and
/// modifies it in place when it is, then attaches the menu if one is given.
pub open spec fn planned_calls(s: TrayModel, visible: bool, with_menu: bool) -> Seq<NativeCall> {
    if !visible {
        if s.visible {
            seq![NativeCall::Notify(ShellVerb::Delete)]
        } else {
            seq![]
        }
    } else {
        let window = if s.window is None {
            seq![NativeCall::CreateWindow]
        } else {
            seq![]
        };
        let icon = if s.visible {
            NativeCall::Notify(ShellVerb::Modify)
        } else {
            NativeCall::Notify(ShellVerb::Add)
        };
        let menu = if with_menu {
            seq![NativeCall::AttachMenu]
        } else {
            seq![]
        };
        window + seq![icon] + menu
    }
}

/// Whether the backend can take the outcome of `call` in state `s`: the window
/// is created once, and the icon is added and the menu attached only to an
/// existing window.
pub open spec fn can_record(s: TrayModel, call: NativeCall) -> bool {
    match call {
        NativeCall::CreateWindow => s.window is None,
        NativeCall::Notify(ShellVerb::Add) => s.window is Some,
        NativeCall::AttachMenu => s.window is Some,
        _ => true,
    }
}

/// The state after `call`: unchanged when it failed; otherwise the window or
/// menu handle is taken, or the icon is registered or removed.
pub open spec fn after_call(s: TrayModel, call: NativeCall, ok: bool, handle: isize) -> TrayModel {
    if !ok {
        s
    } else {
        match call {
            NativeCall::CreateWindow => TrayModel { window: Some(handle), ..s },
            NativeCall::Notify(ShellVerb::Add) => TrayModel { visible: true, ..s },
            NativeCall::Notify(ShellVerb::Delete) => TrayModel { visible: false, ..s },
            NativeCall::Notify(ShellVerb::Modify) => s,
            NativeCall::AttachMenu => TrayModel { menu: Some(handle), ..s },
        }
    }
}

/// The menu handle that a successful `call` takes out of the tray's hands,
/// for the host to destroy: attaching a menu releases the previous one.
pub open spec fn released_by(s: TrayModel, call: NativeCall) -> Option<isize> {
    if call == NativeCall::AttachMenu {
        s.menu
    } else {
        None
    }
}

/// The error reported when `call` fails.
pub open spec fn call_error(call: NativeCall) -> TrayError {
    match call {
        NativeCall::CreateWindow => TrayError::WindowCreationFailed,
        NativeCall::Notify(_) => TrayError::IconRegistrationFailed,
        NativeCall::AttachMenu => TrayError::MenuBuildFailed,
    }
}

/// The native calls of one update, with what they need.
pub struct TrayUpdate {
    /// The calls to perform, in order.
    pub calls: Vec<NativeCall>,
    /// The shell's tooltip buffer, when a tooltip is set.
    pub tip: Option<Vec<u16>>,
    /// The popup menu to attach, when the update attaches one.
    pub menu: Option<NativeMenu>,
}

/// Whether `u` is the update for a tray in state `s` and configuration `config`.
pub open spec fn update_for(u: TrayUpdate, s: TrayModel, config: PlatformConfig) -> bool {
    let with_menu = config.visible && config.menu_items is Some;
    &&& u.calls@ == planned_calls(s, config.visible, with_menu)
    &&& match config.tooltip {
        Some(t) => u.tip matches Some(b) && b@ == tip_buffer(t@),
        None => u.tip is None,
    }
    &&& if with_menu {
        u.menu matches Some(m) && menu_for(m, config.menu_items->0@)
    } else {
        u.menu is None
    }
}

/// The Windows tray backend.
pub struct WindowsTray {
    tray_id: u32,
    window: Option<isize>,
    menu: Option<isize>,
    visible: bool,
}

impl View for WindowsTray {
    type V = TrayModel;

    closed spec fn view(&self) -> TrayModel {
        TrayModel {
            tray_id: self.tray_id,
            window: self.window,
            menu: self.menu,
            visible: self.visible,
        }
    }
}

impl WindowsTray {
    pub open spec fn wf(&self) -> bool {
        model_wf(self@)
    }

    /// A tray with identifier 0 that has made no native call yet. The shell
    /// tells icons apart by window and identifier, and each tray creates its
    /// own window, so the identifier is never shared with another tray.
    pub fn new() -> (r: Self)
        ensures
            r@ == fresh_model(0),
            r.wf(),
    {
        WindowsTray { tray_id: 0, window: None, menu: None, visible: false }
    }

    pub fn tray_id(&self) -> (r: u32)
        ensures
            r == self@.tray_id,
    {
        self.tray_id
    }

    pub fn window(&self) -> (r: Option<isize>)
        ensures
            r == self@.window,
    {
        self.window
    }

    pub fn menu(&self) -> (r: Option<isize>)
        ensures
            r == self@.menu,
    {
        self.menu
    }

    pub fn visible(&self) -> (r: bool)
        ensures
            r == self@.visible,
    {
        self.visible
    }

    /// Plans the native calls that bring the tray to `config`.
    pub fn plan_update(&self, config: &PlatformConfig) -> (u: TrayUpdate)
        ensures
            update_for(u, self@, *config),
    {
        let mut calls: Vec<NativeCall> = Vec::new();
        let mut menu: Option<NativeMenu> = None;
        if !config.visible {
            if self.visible {
                calls.push(NativeCall::Notify(ShellVerb::Delete));
            }
        } else {
            if self.window.is_none() {
                calls.push(NativeCall::CreateWindow);
            }
            if self.visible {
                calls.push(NativeCall::Notify(ShellVerb::Modify));
            } else {
                calls.push(NativeCall::Notify(ShellVerb::Add));
            }
            if let Some(items) = &config.menu_items {
                calls.push(NativeCall::AttachMenu);
                menu = Some(build_menu(items));
            }
        }
        let tip = match &config.tooltip {
            Some(t) => Some(tooltip_buffer(t.as_str())),
            None => None,
        };
        let u = TrayUpdate { calls, tip, menu };
        assert(u.calls@ == planned_calls(
            self@,
            config.visible,
            config.visible && config.menu_items is Some,
        ));
        u
    }

    /// Whether the outcome of `call` can be recorded now.
    pub fn can_record(&self, call: NativeCall) -> (r: bool)
        ensures
            r == can_record(self@, call),
    {
        match call {
            NativeCall::CreateWindow => self.window.is_none(),
            NativeCall::Notify(ShellVerb::Add) => self.window.is_some(),
            NativeCall::AttachMenu => self.window.is_some(),
            _ => true,
        }
    }

    /// Records the outcome of a native call: whether it succeeded, and the
    /// window or menu handle it produced. On success returns the menu handle
    /// the tray no longer holds, which the host must destroy; on failure the
    /// state is unchanged and the call's error is returned.
    pub fn record(&mut self, call: NativeCall, ok: bool, handle: isize) -> (r: Result<
        Option<isize>,
        TrayError,
    >)
        requires
            old(self).wf(),
            can_record(old(self)@, call),
        ensures
            final(self).wf(),
            final(self)@ == after_call(old(self)@, call, ok, handle),
            r == (if ok {
                Ok(released_by(old(self)@, call))
            } else {
                Err(call_error(call))
            }),
    {
        if !ok {
            return Err(match call {
                NativeCall::CreateWindow => TrayError::WindowCreationFailed,
                NativeCall::Notify(_) => TrayError::IconRegistrationFailed,
                NativeCall::AttachMenu => TrayError::MenuBuildFailed,
            });
        }
        match call {
            NativeCall::CreateWindow => {
                self.window = Some(handle);
                Ok(None)
            },
            NativeCall::Notify(ShellVerb::Add) => {
                self.visible = true;
                Ok(None)
            },
            NativeCall::Notify(ShellVerb::Delete) => {
                self.visible = false;
                Ok(None)
            },
            NativeCall::Notify(ShellVerb::Modify) => Ok(None),
            NativeCall::AttachMenu => {
                let previous = self.menu;
                self.menu = Some(handle);
                Ok(previous)
            },
        }
    }
}

/// The process's Windows backend: no tray until the first update, then the
/// one tray that every later update changes in place.
pub struct WindowsTrayState {
    tray: Option<WindowsTray>,
}

impl View for WindowsTrayState {
    type V = Option<TrayModel>;

    closed spec fn view(&self) -> Option<TrayModel> {
        match self.tray {
            Some(t) => Some(t@),
            None => None,
        }
    }
}

impl WindowsTrayState {
    pub open spec fn wf(&self) -> bool {
        self@ matches Some(s) ==> model_wf(s)
    }

    /// A backend with no tray yet.
    pub fn new() -> (r: Self)
        ensures
            r@ is None,
            r.wf(),
    {
        WindowsTrayState { tray: None }
    }

    /// The tray, once the first update has created it.
    pub fn tray(&self) -> (r: Option<&WindowsTray>)
        ensures
            match r {
                Some(t) => self@ == Some(t@),
                None => self@ is None,
            },
    {
        self.tray.as_ref()
    }

    /// Creates the tray on the first update, with identifier 0 and no native
    /// resources, and plans the native calls that bring it to `config`.
    pub fn update_tray(&mut self, config: &PlatformConfig) -> (u: TrayUpdate)
        requires
            old(self).wf(),
        ensures
            final(self).wf(),
            final(self)@ == Some(
                match old(self)@ {
                    Some(s) => s,
                    None => fresh_model(0),
                },
            ),
            update_for(u, final(self)@->0, *config),
    {
        match &self.tray {
            Some(t) => t.plan_update(config),
            None => {
                let t = WindowsTray::new();
                let u = t.plan_update(config);
                self.tray = Some(t);
                u
            },
        }
    }

    /// Whether the outcome of `call` can be recorded now.
    pub fn can_record(&self, call: NativeCall) -> (r: bool)
        ensures
            r == (self@ matches Some(s) && can_record(s, call)),
    {
        match &self.tray {
            Some(t) => t.can_record(call),
            None => false,
        }
    }

    /// Records the outcome of a native call on the tray; see `WindowsTray::record`.
    pub fn record(&mut self, call: NativeCall, ok: bool, handle: isize) -> (r: Result<
        Option<isize>,
        TrayError,
    >)
        requires
            old(self).wf(),
            old(self)@ matches Some(s) && can_record(s, call),
        ensures
            final(self).wf(),
            final(self)@ == Some(after_call(old(self)@->0, call, ok, handle)),
            r == (if ok {
                Ok(released_by(old(self)@->0, call))
            } else {
                Err(call_error(call))
            }),
    {
        let mut t = self.tray.take().unwrap();
        let r = t.record(call, ok, handle);
        self.tray = Some(t);
        r
    }
}

} // verus!
