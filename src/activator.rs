use vstd::prelude::*;

verus! {

/// Where one popup cycle of the anchor window stands.
#[derive(Clone, Copy, Debug, PartialEq, Eq, Structural)]
pub enum ActivatorState {
    /// No popup in progress; the anchor window is hidden.
    Idle,
    /// The window is shown and a direct foreground raise was asked for.
    Raising,
    /// The direct raise failed; attaching this thread's input to the foreground thread.
    Attaching,
    /// Input is attached; the raise is being retried.
    Attached,
    /// The menu is on screen; the loop is blocked until it is dismissed.
    Visible,
}

/// What the operating system reported, or what the event loop asks for.
#[derive(Clone, Copy, Debug, PartialEq, Eq, Structural)]
pub enum ActivatorEvent {
    /// A shortcut press was accepted.
    Start,
    /// Result of the direct raise, and whether this thread owns the foreground window.
    DirectRaise { ok: bool, on_foreground_thread: bool },
    /// Result of attaching input to the foreground thread.
    AttachInput { ok: bool },
    /// Result of the raise retried while attached.
    AttachedRaise { ok: bool },
    /// The user dismissed the menu.
    MenuClosed,
}

/// A call to make on the operating system, in order.
#[derive(Clone, Copy, Debug, PartialEq, Eq, Structural)]
pub enum OsCall {
    ShowWindow,
    SetForeground,
    BringToTop,
    AttachInput,
    DetachInput,
    SetActive,
    SetFocus,
    CancelMode,
    ShowMenu,
    HideWindow,
}

/// The calls that end the raising phase: bring the window to the top, reset menu state,
/// show the menu.
pub open spec fn finish_raise() -> Seq<OsCall> {
    seq![OsCall::BringToTop, OsCall::CancelMode, OsCall::ShowMenu]
}

/// The transition of the activator: the next state and the calls to make. Events that do
/// not belong to the current state change nothing.
pub open spec fn step_spec(s: ActivatorState, e: ActivatorEvent) -> (ActivatorState, Seq<OsCall>) {
    match (s, e) {
        (ActivatorState::Idle, ActivatorEvent::Start) =>
            (ActivatorState::Raising, seq![OsCall::ShowWindow, OsCall::SetForeground]),
        (ActivatorState::Raising, ActivatorEvent::DirectRaise { ok, on_foreground_thread }) =>
            if ok {
                (ActivatorState::Visible, finish_raise())
            } else if !on_foreground_thread {
                (ActivatorState::Attaching, seq![OsCall::AttachInput])
            } else {
                (ActivatorState::Visible,
                    seq![OsCall::SetForeground, OsCall::SetActive, OsCall::SetFocus] + finish_raise())
            },
        (ActivatorState::Attaching, ActivatorEvent::AttachInput { ok }) =>
            if ok {
                (ActivatorState::Attached, seq![OsCall::SetForeground])
            } else {
                (ActivatorState::Visible, seq![OsCall::SetForeground] + finish_raise())
            },
        (ActivatorState::Attached, ActivatorEvent::AttachedRaise { ok }) =>
            if ok {
                (ActivatorState::Visible,
                    seq![OsCall::SetActive, OsCall::SetFocus, OsCall::DetachInput] + finish_raise())
            } else {
                (ActivatorState::Visible, seq![OsCall::DetachInput] + finish_raise())
            },
        (ActivatorState::Visible, ActivatorEvent::MenuClosed) =>
            (ActivatorState::Idle, seq![OsCall::HideWindow]),
        _ => (s, Seq::empty()),
    }
}

fn finish_raise_into(calls: &mut Vec<OsCall>)
    ensures
        final(calls)@ == old(calls)@ + finish_raise(),
{
    calls.push(OsCall::BringToTop);
    calls.push(OsCall::CancelMode);
    calls.push(OsCall::ShowMenu);
}

/// Advances the activator by one event and says which calls to make, in order.
pub fn step(s: ActivatorState, e: ActivatorEvent) -> (r: (ActivatorState, Vec<OsCall>))
    ensures
        (r.0, r.1@) == step_spec(s, e),
{
    let mut calls: Vec<OsCall> = Vec::new();
    let next = match (s, e) {
        (ActivatorState::Idle, ActivatorEvent::Start) => {
            calls.push(OsCall::ShowWindow);
            calls.push(OsCall::SetForeground);
            ActivatorState::Raising
        },
        (ActivatorState::Raising, ActivatorEvent::DirectRaise { ok, on_foreground_thread }) => {
            if ok {
                finish_raise_into(&mut calls);
            } else if !on_foreground_thread {
                calls.push(OsCall::AttachInput);
            } else {
                calls.push(OsCall::SetForeground);
                calls.push(OsCall::SetActive);
                calls.push(OsCall::SetFocus);
                finish_raise_into(&mut calls);
            }
            if !ok && !on_foreground_thread {
                ActivatorState::Attaching
            } else {
                ActivatorState::Visible
            }
        },
        (ActivatorState::Attaching, ActivatorEvent::AttachInput { ok }) => {
            calls.push(OsCall::SetForeground);
            if ok {
                ActivatorState::Attached
            } else {
                finish_raise_into(&mut calls);
                ActivatorState::Visible
            }
        },
        (ActivatorState::Attached, ActivatorEvent::AttachedRaise { ok }) => {
            if ok {
                calls.push(OsCall::SetActive);
                calls.push(OsCall::SetFocus);
            }
            calls.push(OsCall::DetachInput);
            finish_raise_into(&mut calls);
            ActivatorState::Visible
        },
        (ActivatorState::Visible, ActivatorEvent::MenuClosed) => {
            calls.push(OsCall::HideWindow);
            ActivatorState::Idle
        },
        _ => s,
    };
    (next, calls)
}

/// Whether `calls` contains `c`.
pub open spec fn has_call(calls: Seq<OsCall>, c: OsCall) -> bool {
    exists|i: int| 0 <= i < calls.len() && calls[i] == c
}

/// Input is attached exactly while the activator is in `Attached`: the only step that
/// attaches leads into it, every step that leaves it detaches, and no other step detaches.
pub proof fn lemma_attach_detach(s: ActivatorState, e: ActivatorEvent)
    ensures
        ({
            let (n, calls) = step_spec(s, e);
            &&& (s != ActivatorState::Attached && n == ActivatorState::Attached)
                ==> s == ActivatorState::Attaching && e == (ActivatorEvent::AttachInput { ok: true })
            &&& (s == ActivatorState::Attached && n != ActivatorState::Attached)
                ==> has_call(calls, OsCall::DetachInput)
            &&& has_call(calls, OsCall::DetachInput) ==> s == ActivatorState::Attached
            &&& has_call(calls, OsCall::AttachInput) ==> n == ActivatorState::Attaching
        }),
{
    let (n, calls) = step_spec(s, e);
    if s == ActivatorState::Attached && n != ActivatorState::Attached {
        match e {
            ActivatorEvent::AttachedRaise { ok } => {
                if ok {
                    assert(calls[2] == OsCall::DetachInput);
                } else {
                    assert(calls[0] == OsCall::DetachInput);
                }
            },
            _ => {},
        }
    }
}

} // verus!
