//! The commands that the title bar and the window buttons give the window.
use vstd::prelude::*;

verus! {

/// A command to the native window.
#[derive(Clone, Copy, Debug, PartialEq, Eq, Structural)]
pub enum WindowCommand {
    /// Close the window.
    Close,
    /// Maximise the window, or restore it with `false`.
    SetMaximized(bool),
    /// Minimise the window.
    SetMinimized(bool),
    /// Move the window with the pointer.
    DragWindow,
}

/// What the title bar does: a double click toggles between maximised and
/// restored; holding the pointer down on it drags the window.
pub fn title_bar_command(double_clicked: bool, pointer_down: bool, maximized: bool) -> (r: Option<
    WindowCommand,
>)
    ensures
        r == (if double_clicked {
            Some(WindowCommand::SetMaximized(!maximized))
        } else if pointer_down {
            Some(WindowCommand::DragWindow)
        } else {
            None::<WindowCommand>
        }),
{
    if double_clicked {
        Some(WindowCommand::SetMaximized(!maximized))
    } else if pointer_down {
        Some(WindowCommand::DragWindow)
    } else {
        None
    }
}

/// What the close, maximise and minimise buttons do, in that order: close;
/// restore a maximised window or maximise another; minimise.
pub fn window_button_commands(
    close_clicked: bool,
    maximized: bool,
    maximize_clicked: bool,
    minimize_clicked: bool,
) -> (r: Vec<WindowCommand>)
    ensures
        r@ == (if close_clicked {
            seq![WindowCommand::Close]
        } else {
            Seq::<WindowCommand>::empty()
        }) + (if maximize_clicked {
            seq![WindowCommand::SetMaximized(!maximized)]
        } else {
            Seq::<WindowCommand>::empty()
        }) + (if minimize_clicked {
            seq![WindowCommand::SetMinimized(true)]
        } else {
            Seq::<WindowCommand>::empty()
        }),
{
    let mut commands: Vec<WindowCommand> = Vec::new();
    if close_clicked {
        commands.push(WindowCommand::Close);
    }
    if maximize_clicked {
        if maximized {
            commands.push(WindowCommand::SetMaximized(false));
        } else {
            commands.push(WindowCommand::SetMaximized(true));
        }
    }
    if minimize_clicked {
        commands.push(WindowCommand::SetMinimized(true));
    }
    assert(commands@ =~= (if close_clicked {
        seq![WindowCommand::Close]
    } else {
        Seq::<WindowCommand>::empty()
    }) + (if maximize_clicked {
        seq![WindowCommand::SetMaximized(!maximized)]
    } else {
        Seq::<WindowCommand>::empty()
    }) + (if minimize_clicked {
        seq![WindowCommand::SetMinimized(true)]
    } else {
        Seq::<WindowCommand>::empty()
    }));
    commands
}

/// The hover text of the maximise button.
pub fn maximize_hover_text(maximized: bool) -> (r: String)
    ensures
        r@ == (if maximized {
            "Restore window"@
        } else {
            "Maximize window"@
        }),
{
    if maximized {
        String::from_str("Restore window")
    } else {
        String::from_str("Maximize window")
    }
}

} // verus!
