use vstd::prelude::*;
use vstd::string::StringExecFns;
use crate::tray::{menu_action, menu_action_of, MenuAction};

verus! {

/// Name of the signal that tells the front-end to navigate to its main view.
pub const NAVIGATE_TO_MAIN_EVENT: &'static str = "navigate_to_main";

/// Label of the main window.
pub const MAIN_WINDOW_LABEL: &'static str = "main";

/// Exit code of the process when the user quits from the tray.
pub const QUIT_EXIT_CODE: i32 = 0;

/// What the shell reacts to.
pub enum ShellEvent {
    /// A tray menu item was clicked; it carries the item's id.
    MenuClicked(String),
    /// The user asked to close the main window.
    CloseRequested,
}

/// One thing for the host framework to do, in the order handed out.
#[derive(Clone, Copy, Debug, PartialEq, Eq, Structural)]
pub enum Effect {
    /// End the process with this exit code.
    Exit(i32),
    HideMainWindow,
    ShowMainWindow,
    /// Report that the clicked menu item has no handler.
    ReportUnhandledMenuItem,
    /// Keep the window from closing.
    PreventClose,
    /// Send the front-end the signal named by `NAVIGATE_TO_MAIN_EVENT`.
    EmitNavigateToMain,
    /// Show the notice of `background_notice`.
    NotifyRunningInBackground,
}

/// A native notification.
pub struct Notification {
    pub title: String,
    pub body: String,
}

/// Whether the main window is on screen.
pub struct Shell {
    pub window_visible: bool,
}

/// Whether the main window is on screen after `e`, when it was `visible` before.
pub open spec fn next_visible(visible: bool, e: ShellEvent) -> bool {
    match e {
        ShellEvent::MenuClicked(id) => match menu_action_of(id@) {
            MenuAction::Hide => false,
            MenuAction::Open => true,
            _ => visible,
        },
        ShellEvent::CloseRequested => false,
    }
}

/// The effects that `e` calls for, in order.
pub open spec fn effects_of(e: ShellEvent) -> Seq<Effect> {
    match e {
        ShellEvent::MenuClicked(id) => match menu_action_of(id@) {
            MenuAction::Quit => seq![Effect::Exit(QUIT_EXIT_CODE)],
            MenuAction::Hide => seq![Effect::HideMainWindow],
            MenuAction::Open => seq![Effect::ShowMainWindow],
            MenuAction::Unhandled => seq![Effect::ReportUnhandledMenuItem],
        },
        ShellEvent::CloseRequested => seq![
            Effect::PreventClose,
            Effect::EmitNavigateToMain,
            Effect::HideMainWindow,
            Effect::NotifyRunningInBackground,
        ],
    }
}

/// Title of the notice shown when closing the window leaves the application running.
pub open spec fn background_title() -> Seq<char> {
    "Praydo Running in the Background"@
}

/// Body of the notice shown when closing the window leaves the application running.
pub open spec fn background_body() -> Seq<char> {
    "Click the tray icon to restore."@
}

/// The notice that tells the user the application keeps running in the tray.
pub fn background_notice() -> (r: Notification)
    ensures
        r.title@ == background_title(),
        r.body@ == background_body(),
{
    Notification {
        title: String::from_str("Praydo Running in the Background"),
        body: String::from_str("Click the tray icon to restore."),
    }
}

impl Shell {
    /// A shell whose main window is on screen, as it is at start-up.
    pub fn new() -> (r: Shell)
        ensures
            r.window_visible,
    {
        Shell { window_visible: true }
    }

    /// Decides the effects of `e` and records the main window's visibility after them.
    pub fn handle(&mut self, e: &ShellEvent) -> (r: Vec<Effect>)
        ensures
            final(self).window_visible == next_visible(old(self).window_visible, *e),
            r@ == effects_of(*e),
    {
        let mut r: Vec<Effect> = Vec::new();
        match e {
            ShellEvent::MenuClicked(id) => {
                match menu_action(id.as_str()) {
                    MenuAction::Quit => {
                        r.push(Effect::Exit(QUIT_EXIT_CODE));
                    },
                    MenuAction::Hide => {
                        r.push(Effect::HideMainWindow);
                        self.window_visible = false;
                    },
                    MenuAction::Open => {
                        r.push(Effect::ShowMainWindow);
                        self.window_visible = true;
                    },
                    MenuAction::Unhandled => {
                        r.push(Effect::ReportUnhandledMenuItem);
                    },
                }
            },
            ShellEvent::CloseRequested => {
                r.push(Effect::PreventClose);
                r.push(Effect::EmitNavigateToMain);
                r.push(Effect::HideMainWindow);
                r.push(Effect::NotifyRunningInBackground);
                self.window_visible = false;
            },
        }
        assert(r@ =~= effects_of(*e));
        r
    }
}

/// The main window is hidden only by a close request or the tray's Hide item,
/// and shown only by the tray's Open item; every other event leaves it as it was.
pub proof fn lemma_visibility_transitions(visible: bool, e: ShellEvent)
    ensures
        visible && !next_visible(visible, e) ==> (e is CloseRequested || (e matches
            ShellEvent::MenuClicked(id) && menu_action_of(id@) == MenuAction::Hide)),
        !visible && next_visible(visible, e) ==> (e matches ShellEvent::MenuClicked(id)
            && menu_action_of(id@) == MenuAction::Open),
        effects_of(e).contains(Effect::HideMainWindow) ==> !next_visible(visible, e),
        effects_of(e).contains(Effect::ShowMainWindow) ==> next_visible(visible, e),
{
    match e {
        ShellEvent::MenuClicked(id) => {
            let a = menu_action_of(id@);
            assert(effects_of(e).contains(Effect::HideMainWindow) ==> a == MenuAction::Hide) by {
                if effects_of(e).contains(Effect::HideMainWindow) {
                    let k = choose|k: int| 0 <= k < effects_of(e).len()
                        && effects_of(e)[k] == Effect::HideMainWindow;
                    assert(effects_of(e)[k] == Effect::HideMainWindow);
                }
            }
            assert(effects_of(e).contains(Effect::ShowMainWindow) ==> a == MenuAction::Open) by {
                if effects_of(e).contains(Effect::ShowMainWindow) {
                    let k = choose|k: int| 0 <= k < effects_of(e).len()
                        && effects_of(e)[k] == Effect::ShowMainWindow;
                    assert(effects_of(e)[k] == Effect::ShowMainWindow);
                }
            }
        },
        ShellEvent::CloseRequested => {
            if effects_of(e).contains(Effect::ShowMainWindow) {
                let k = choose|k: int| 0 <= k < effects_of(e).len()
                    && effects_of(e)[k] == Effect::ShowMainWindow;
                assert(effects_of(e)[k] == Effect::ShowMainWindow);
            }
        },
    }
}

} // verus!
