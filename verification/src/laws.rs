use vstd::prelude::*;
use crate::shell::ConfigModel;
use crate::shell::Phase;
use crate::shell::ShellAction;
use crate::shell::ShellEvent;
use crate::shell::ShellModel;
use crate::shell::WindowEventKind;
use crate::shell::step;

verus! {

/// The state the shell is in after a whole sequence of events has been
/// delivered, one by one, starting from `m`.
pub open spec fn run(m: ShellModel, evs: Seq<ShellEvent>) -> ShellModel
    decreases evs.len(),
{
    if evs.len() == 0 {
        m
    } else {
        run(step(m, evs[0]).0, evs.subrange(1, evs.len() as int))
    }
}

/// How many times the action `a` is handed to the platform layer while the
/// events `evs` are delivered, one by one, starting from `m`.
pub open spec fn action_count(m: ShellModel, evs: Seq<ShellEvent>, a: ShellAction) -> nat
    decreases evs.len(),
{
    if evs.len() == 0 {
        0
    } else {
        (if step(m, evs[0]).1 == a {
            1nat
        } else {
            0nat
        }) + action_count(step(m, evs[0]).0, evs.subrange(1, evs.len() as int), a)
    }
}

/// The close-request event.
pub open spec fn close_requested() -> ShellEvent {
    ShellEvent::Window(WindowEventKind::CloseRequested)
}

/// Whether a close request occurs somewhere in `evs`.
pub open spec fn has_close(evs: Seq<ShellEvent>) -> bool
    decreases evs.len(),
{
    if evs.len() == 0 {
        false
    } else {
        evs[0] == close_requested() || has_close(evs.subrange(1, evs.len() as int))
    }
}

/// Every event keeps the shell well formed.
pub proof fn lemma_step_preserves_inv(m: ShellModel, e: ShellEvent)
    requires
        m.inv(),
    ensures
        step(m, e).0.inv(),
{
}

/// A fresh shell that receives a resume event creates exactly one window —
/// not zero — and constructs the backend stub referencing exactly that
/// window.
pub proof fn lemma_first_resume_creates_one_window(config: ConfigModel)
    ensures
        step(ShellModel::init(config), ShellEvent::Resumed).0.windows_created == 1,
        step(ShellModel::init(config), ShellEvent::Resumed).0.window == Some(0nat),
        step(ShellModel::init(config), ShellEvent::Resumed).0.backend matches Some(b)
            && b.window == 0 && b.redraw_requests == 0,
        step(ShellModel::init(config), ShellEvent::Resumed).1 == ShellAction::CreateWindow,
{
}

/// Each resume event delivered before the shell has exited creates exactly
/// one window: one more than existed before, never zero and never two.
pub proof fn lemma_resume_creates_one_window(m: ShellModel)
    requires
        !(m.phase is Exited),
    ensures
        step(m, ShellEvent::Resumed).0.windows_created == m.windows_created + 1,
        step(m, ShellEvent::Resumed).0.window == Some(m.windows_created),
        step(m, ShellEvent::Resumed).1 == ShellAction::CreateWindow,
{
}

/// After the shell has exited, nothing happens any more: however many events
/// are still delivered, the state does not change, no window is created and
/// no further exit is signalled — every action is `Ignore`.
pub proof fn lemma_exited_shell_is_inert(m: ShellModel, evs: Seq<ShellEvent>)
    requires
        m.phase is Exited,
    ensures
        run(m, evs) == m,
        action_count(m, evs, ShellAction::ExitLoop) == 0,
        action_count(m, evs, ShellAction::CreateWindow) == 0,
    decreases evs.len(),
{
    if evs.len() > 0 {
        lemma_exited_shell_is_inert(m, evs.subrange(1, evs.len() as int));
    }
}

/// The loop-exit signal is given exactly once: delivering any sequence of
/// events to a shell that has not yet exited signals `ExitLoop` exactly once
/// if the sequence contains a close request, and never otherwise — in which
/// case the shell still has not exited.
pub proof fn lemma_exit_signalled_exactly_once(m: ShellModel, evs: Seq<ShellEvent>)
    requires
        !(m.phase is Exited),
    ensures
        has_close(evs) ==> action_count(m, evs, ShellAction::ExitLoop) == 1,
        !has_close(evs) ==> action_count(m, evs, ShellAction::ExitLoop) == 0
            && !(run(m, evs).phase is Exited),
    decreases evs.len(),
{
    if evs.len() > 0 {
        let rest = evs.subrange(1, evs.len() as int);
        if evs[0] == close_requested() {
            lemma_exited_shell_is_inert(step(m, evs[0]).0, rest);
        } else {
            lemma_exit_signalled_exactly_once(step(m, evs[0]).0, rest);
        }
    }
}

} // verus!
