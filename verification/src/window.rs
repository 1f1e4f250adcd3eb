//! What happens to the window when the user shows, hides, closes or resizes it.
use crate::ipc::WebResponse;
use vstd::prelude::*;

verus! {

/// One thing that is done to the window.
#[derive(Debug, Clone, Copy, PartialEq, Eq, Structural)]
pub enum WindowStep {
    /// Show the window, or hide it.
    SetVisible(bool),
    /// Restore the window, which is minimized.
    Restore,
    /// Bring the window to the front.
    Activate,
    /// Mark in the tray's menu whether the window is shown.
    MarkShown,
    /// Save the place of the window, unless the window fills the screen.
    SavePlacement,
    /// Tell the web interface the state of the window.
    SendState,
    /// Tell the web interface whether the window is to be seen.
    SendVisibility,
    /// End the shell.
    Stop,
}

/// What is known of the window when it is shown: nothing while it has no handle or its style is in
/// use, or else whether it is minimized.
pub open spec fn shown(minimized: Option<bool>) -> Seq<WindowStep> {
    let raised = match minimized {
        Some(true) => seq![WindowStep::Restore, WindowStep::Activate],
        Some(false) => seq![WindowStep::Activate],
        None => Seq::empty(),
    };
    seq![WindowStep::SetVisible(true)] + raised + seq![
        WindowStep::MarkShown,
        WindowStep::SendState,
        WindowStep::SendVisibility,
    ]
}

/// What is done to hide the window.
pub open spec fn hidden() -> Seq<WindowStep> {
    seq![
        WindowStep::SetVisible(false),
        WindowStep::MarkShown,
        WindowStep::SendState,
        WindowStep::SendVisibility,
    ]
}

/// Whether the window is shown after some steps, given whether it was before them.
pub open spec fn visible_after(visible: bool, steps: Seq<WindowStep>) -> bool
    decreases steps.len(),
{
    if steps.len() == 0 {
        visible
    } else {
        match steps.last() {
            WindowStep::SetVisible(shown) => shown,
            _ => visible_after(visible, steps.drop_last()),
        }
    }
}

/// Shows the window.
pub fn on_show(minimized: Option<bool>) -> (steps: Vec<WindowStep>)
    ensures
        steps@ == shown(minimized),
{
    let mut steps = vec![WindowStep::SetVisible(true)];
    if let Some(minimized) = minimized {
        if minimized {
            steps.push(WindowStep::Restore);
        }
        steps.push(WindowStep::Activate);
    }
    steps.push(WindowStep::MarkShown);
    steps.push(WindowStep::SendState);
    steps.push(WindowStep::SendVisibility);
    assert(steps@ =~= shown(minimized));
    steps
}

/// Hides the window if it is shown, or else shows it.
pub fn on_show_hide(visible: bool, minimized: Option<bool>) -> (steps: Vec<WindowStep>)
    ensures
        steps@ == if visible {
            hidden()
        } else {
            shown(minimized)
        },
{
    if visible {
        vec![
            WindowStep::SetVisible(false),
            WindowStep::MarkShown,
            WindowStep::SendState,
            WindowStep::SendVisibility,
        ]
    } else {
        on_show(minimized)
    }
}

/// Closes the window, which hides it: the shell goes on in the tray.
pub fn on_quit() -> (steps: Vec<WindowStep>)
    ensures
        steps@ == seq![
            WindowStep::SavePlacement,
            WindowStep::SetVisible(false),
            WindowStep::MarkShown,
            WindowStep::SendVisibility,
        ],
{
    vec![
        WindowStep::SavePlacement,
        WindowStep::SetVisible(false),
        WindowStep::MarkShown,
        WindowStep::SendVisibility,
    ]
}

/// Ends the shell.
pub fn on_exit() -> (steps: Vec<WindowStep>)
    ensures
        steps@ == seq![WindowStep::SavePlacement, WindowStep::Stop],
{
    vec![WindowStep::SavePlacement, WindowStep::Stop]
}

/// Takes note that the window was maximized.
pub fn on_window_state_changed() -> (steps: Vec<WindowStep>)
    ensures
        steps@ == seq![WindowStep::SavePlacement, WindowStep::SendState],
{
    vec![WindowStep::SavePlacement, WindowStep::SendState]
}

/// Brings the window to the front, where it can be.
pub fn on_focus(can_activate: bool) -> (steps: Vec<WindowStep>)
    ensures
        steps@ == if can_activate {
            seq![WindowStep::SetVisible(true), WindowStep::Activate]
        } else {
            seq![WindowStep::SetVisible(true)]
        },
{
    let mut steps = vec![WindowStep::SetVisible(true)];
    if can_activate {
        steps.push(WindowStep::Activate);
    }
    assert(steps@ =~= if can_activate {
        seq![WindowStep::SetVisible(true), WindowStep::Activate]
    } else {
        seq![WindowStep::SetVisible(true)]
    });
    steps
}

/// The message that the window is to be seen or not, and fills the screen or not.
pub fn visibility_change(visible: bool, full_screen: bool) -> (response: WebResponse)
    ensures
        response == (WebResponse::VisibilityChange {
            visible,
            visibility: if full_screen {
                1
            } else {
                0
            },
            full_screen,
        }),
{
    WebResponse::VisibilityChange {
        visible,
        visibility: if full_screen {
            1
        } else {
            0
        },
        full_screen,
    }
}

/// Whether the place of the window is saved: not while it is known to fill the screen.
pub fn saves_placement(full_screen: Option<bool>) -> (saves: bool)
    ensures
        saves == (full_screen != Some(true)),
{
    !full_screen.unwrap_or(false)
}

/// The bit of a window's extended style that keeps the window in front of all others.
pub const WS_EX_TOPMOST: u32 = 8;

/// Whether a window with this extended style stays in front of all others.
pub fn is_topmost(ex_style: u32) -> (topmost: bool)
    ensures
        topmost == (ex_style / 8 % 2 == 1),
{
    assert((ex_style & 8 == 8) == (ex_style / 8 % 2 == 1)) by (bit_vector);
    (ex_style & WS_EX_TOPMOST) == WS_EX_TOPMOST
}

/// The menu entry that shows and hides the window turns its visibility over, and the last thing
/// that it does is to tell the web interface.
pub proof fn law_show_hide_turns_over(visible: bool, minimized: Option<bool>)
    ensures
        ({
            let steps = if visible {
                hidden()
            } else {
                shown(minimized)
            };
            &&& visible_after(visible, steps) == !visible
            &&& steps.last() == WindowStep::SendVisibility
        }),
{
    reveal_with_fuel(visible_after, 8);
}

/// A window that is shown is made visible first, restored exactly if it is minimized, brought to the
/// front wherever it can be, and at last its entry is marked and its state and visibility are told.
pub proof fn law_shown_window_is_brought_to_the_front(minimized: Option<bool>)
    ensures
        ({
            let steps = shown(minimized);
            let n = steps.len() as int;
            &&& steps[0] == WindowStep::SetVisible(true)
            &&& minimized == Some(true) ==> n == 6 && steps[1] == WindowStep::Restore && steps[2]
                == WindowStep::Activate
            &&& minimized == Some(false) ==> n == 5 && steps[1] == WindowStep::Activate
            &&& minimized is None ==> n == 4
            &&& steps[n - 3] == WindowStep::MarkShown
            &&& steps[n - 2] == WindowStep::SendState
            &&& steps[n - 1] == WindowStep::SendVisibility
        }),
        hidden().len() == 4,
        hidden()[0] == WindowStep::SetVisible(false),
        hidden()[1] == WindowStep::MarkShown,
        hidden()[2] == WindowStep::SendState,
        hidden()[3] == WindowStep::SendVisibility,
{
}

} // verus!
