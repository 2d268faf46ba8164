//! Properties of the Windows backend over whole sessions of updates.
use crate::windows_tray::{
    after_call, can_record, model_wf, planned_calls, released_by, NativeCall, ShellVerb,
    TrayModel,
};
use vstd::prelude::*;

verus! {

/// One `set_tray` call as the host carries it out: the requested visibility,
/// whether menu items came with it, and the outcome of each planned call in
/// order (whether it succeeded, and the handle it produced). The host stops at
/// the first failure; missing outcomes count as failures.
pub struct Round {
    pub visible: bool,
    pub with_menu: bool,
    pub outcomes: Seq<(bool, isize)>,
}

/// A tray together with the shell's side of it: how many icons the shell holds
/// for the tray now, the most it held at any point, and whether every call
/// made so far was one the tray could record.
pub struct ShellRun {
    pub tray: TrayModel,
    pub icons: int,
    pub peak: int,
    pub recordable: bool,
}

/// Icons the shell holds after a call: a successful add registers one, a
/// successful delete removes one.
pub open spec fn icons_after(icons: int, call: NativeCall, ok: bool) -> int {
    if ok && call == NativeCall::Notify(ShellVerb::Add) {
        icons + 1
    } else if ok && call == NativeCall::Notify(ShellVerb::Delete) {
        icons - 1
    } else {
        icons
    }
}

/// Carries out `calls` with their outcomes, stopping at the first failure.
pub open spec fn run_calls(r: ShellRun, calls: Seq<NativeCall>, outcomes: Seq<(bool, isize)>) -> ShellRun
    decreases calls.len(),
{
    if calls.len() == 0 || outcomes.len() == 0 || !outcomes[0].0 {
        r
    } else {
        let call = calls[0];
        let icons = icons_after(r.icons, call, true);
        let next = ShellRun {
            tray: after_call(r.tray, call, true, outcomes[0].1),
            icons,
            peak: if icons > r.peak {
                icons
            } else {
                r.peak
            },
            recordable: r.recordable && can_record(r.tray, call),
        };
        run_calls(next, calls.drop_first(), outcomes.drop_first())
    }
}

/// Carries out one `set_tray` call: plans it from the current state, then runs
/// the planned calls.
pub open spec fn run_round(r: ShellRun, round: Round) -> ShellRun {
    run_calls(r, planned_calls(r.tray, round.visible, round.visible && round.with_menu), round.outcomes)
}

/// Carries out a sequence of `set_tray` calls.
pub open spec fn run_rounds(r: ShellRun, rounds: Seq<Round>) -> ShellRun
    decreases rounds.len(),
{
    if rounds.len() == 0 {
        r
    } else {
        run_rounds(run_round(r, rounds[0]), rounds.drop_first())
    }
}

/// Icons the shell holds for a tray in state `s`.
pub open spec fn registered(s: TrayModel) -> int {
    if s.visible {
        1
    } else {
        0
    }
}

/// The shell's side agrees with the tray, and never held two icons.
pub open spec fn consistent(r: ShellRun) -> bool {
    &&& model_wf(r.tray)
    &&& r.icons == registered(r.tray)
    &&& r.peak <= 1
    &&& r.recordable
}

proof fn lemma_round_consistent(r: ShellRun, round: Round)
    requires
        consistent(r),
    ensures
        consistent(run_round(r, round)),
{
    reveal_with_fuel(run_calls, 4);
    let calls = planned_calls(r.tray, round.visible, round.visible && round.with_menu);
    let o = round.outcomes;
    if calls.len() > 0 && o.len() > 0 && o[0].0 {
        assert(calls.drop_first().len() + 1 == calls.len());
        if calls.len() > 1 && o.len() > 1 && o[1].0 {
            assert(calls.drop_first()[0] == calls[1]);
            assert(o.drop_first()[0] == o[1]);
            if calls.len() > 2 && o.len() > 2 && o[2].0 {
                assert(calls.drop_first().drop_first()[0] == calls[2]);
                assert(o.drop_first().drop_first()[0] == o[2]);
                assert(calls.drop_first().drop_first().drop_first().len() == 0);
            }
        }
    }
}

/// However the host's `set_tray` calls and the native outcomes go, the shell
/// never holds two icons of the tray at once: the number it holds always
/// matches the tray's own state, so it is 0 or 1 at every point, and every
/// planned call is one the tray can record.
pub proof fn lemma_single_registration(s: TrayModel, rounds: Seq<Round>)
    requires
        model_wf(s),
    ensures
        ({
            let r = run_rounds(
                ShellRun { tray: s, icons: registered(s), peak: registered(s), recordable: true },
                rounds,
            );
            &&& r.icons == registered(r.tray)
            &&& 0 <= r.icons <= 1
            &&& r.peak <= 1
            &&& r.recordable
        }),
{
    let start = ShellRun { tray: s, icons: registered(s), peak: registered(s), recordable: true };
    lemma_rounds_consistent(start, rounds);
}

proof fn lemma_rounds_consistent(r: ShellRun, rounds: Seq<Round>)
    requires
        consistent(r),
    ensures
        consistent(run_rounds(r, rounds)),
    decreases rounds.len(),
{
    if rounds.len() > 0 {
        lemma_round_consistent(r, rounds[0]);
        lemma_rounds_consistent(run_round(r, rounds[0]), rounds.drop_first());
    }
}

/// Whether every outcome in `outcomes` is a success.
pub open spec fn all_succeed(outcomes: Seq<(bool, isize)>) -> bool {
    forall|i: int| 0 <= i < outcomes.len() ==> (#[trigger] outcomes[i]).0
}

/// Hiding a shown tray and then showing it again: hiding deletes the icon;
/// showing registers it anew with the add verb, not modify, and attaches the
/// menu if one is given. The tray keeps its identifier and its window, and
/// ends shown, with one icon in the shell.
pub proof fn lemma_hide_then_show(
    s: TrayModel,
    with_menu: bool,
    hide: Seq<(bool, isize)>,
    show: Seq<(bool, isize)>,
)
    requires
        model_wf(s),
        s.visible,
        hide.len() >= 1,
        show.len() >= 2,
        all_succeed(hide),
        all_succeed(show),
    ensures
        planned_calls(s, false, with_menu) == seq![NativeCall::Notify(ShellVerb::Delete)],
        ({
            let start = ShellRun { tray: s, icons: 1, peak: 1, recordable: true };
            let hidden = run_round(start, Round { visible: false, with_menu, outcomes: hide });
            let shown = run_round(hidden, Round { visible: true, with_menu, outcomes: show });
            &&& !hidden.tray.visible
            &&& hidden.icons == 0
            &&& planned_calls(hidden.tray, true, with_menu) == seq![
                NativeCall::Notify(ShellVerb::Add),
            ] + if with_menu {
                seq![NativeCall::AttachMenu]
            } else {
                seq![]
            }
            &&& shown.tray.visible
            &&& shown.icons == 1
            &&& shown.tray.tray_id == s.tray_id
            &&& shown.tray.window == s.window
        }),
{
    reveal_with_fuel(run_calls, 3);
    let start = ShellRun { tray: s, icons: 1, peak: 1, recordable: true };
    let hidden = run_round(start, Round { visible: false, with_menu, outcomes: hide });
    assert(hide[0].0);
    let calls = planned_calls(hidden.tray, true, with_menu);
    assert(show[0].0);
    assert(show[1].0);
    if with_menu {
        assert(calls.drop_first()[0] == calls[1]);
        assert(show.drop_first()[0] == show[1]);
    }
}

/// Attaches the menus `handles` one after another; gives the final state and
/// the menu handles handed back for destruction, in order.
pub open spec fn attach_menus(s: TrayModel, handles: Seq<isize>) -> (TrayModel, Seq<isize>)
    decreases handles.len(),
{
    if handles.len() == 0 {
        (s, seq![])
    } else {
        let released = match released_by(s, NativeCall::AttachMenu) {
            Some(h) => seq![h],
            None => seq![],
        };
        let next = after_call(s, NativeCall::AttachMenu, true, handles[0]);
        let rest = attach_menus(next, handles.drop_first());
        (rest.0, released + rest.1)
    }
}

/// The menu handles a tray holds, as a sequence of at most one.
pub open spec fn held_menu(s: TrayModel) -> Seq<isize> {
    match s.menu {
        Some(h) => seq![h],
        None => seq![],
    }
}

/// Attaching menus leaks none: across any number of consecutive menu updates,
/// every menu the tray held or was given, but the one it holds at the end, is
/// handed back for destruction, exactly once and in order.
pub proof fn lemma_menus_released(s: TrayModel, handles: Seq<isize>)
    requires
        model_wf(s),
        s.window is Some,
    ensures
        ({
            let (t, released) = attach_menus(s, handles);
            &&& released + held_menu(t) == held_menu(s) + handles
            &&& handles.len() > 0 ==> t.menu == Some(handles.last())
            &&& t.window == s.window
            &&& t.visible == s.visible
            &&& t.tray_id == s.tray_id
        }),
    decreases handles.len(),
{
    if handles.len() > 0 {
        let next = after_call(s, NativeCall::AttachMenu, true, handles[0]);
        lemma_menus_released(next, handles.drop_first());
        let (t, released) = attach_menus(s, handles);
        let rest = attach_menus(next, handles.drop_first());
        assert(held_menu(next) == seq![handles[0]]);
        assert(held_menu(next) + handles.drop_first() == handles);
        assert(released + held_menu(t) == held_menu(s) + (rest.1 + held_menu(t)));
        if handles.len() == 1 {
            assert(handles.drop_first().len() == 0);
        } else {
            assert(handles.drop_first().last() == handles.last());
        }
    }
}

} // verus!
