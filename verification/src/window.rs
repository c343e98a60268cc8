//! The two commands that the host window can be given: go to the backend, or
//! show that startup has failed.

use vstd::prelude::*;

verus! {

/// How long the window is left to settle before it is redirected, in
/// milliseconds.
pub const SETTLE_DELAY_MS: u64 = 500;

/// A command to the host window.
#[derive(Clone, Debug, PartialEq, Eq)]
pub enum WindowCommand {
    /// Wait for `settle_ms`, then send the window to `url`.
    Redirect { url: String, settle_ms: u64 },
    /// Replace what the window shows with the startup diagnostic.
    Fallback,
}

/// A window command as a plain value.
pub enum WindowCommandView {
    Redirect { url: Seq<char>, settle_ms: u64 },
    Fallback,
}

impl View for WindowCommand {
    type V = WindowCommandView;

    open spec fn view(&self) -> WindowCommandView {
        match self {
            WindowCommand::Redirect { url, settle_ms } => WindowCommandView::Redirect {
                url: url@,
                settle_ms: *settle_ms,
            },
            WindowCommand::Fallback => WindowCommandView::Fallback,
        }
    }
}

/// Where the logs of the application are kept.
pub open spec fn log_location() -> Seq<char> {
    "~/Library/Logs/com.todoerr.desktop/"@
}

/// The script that sends the window to `url`.
pub open spec fn redirect_script(url: Seq<char>) -> Seq<char> {
    "window.location.replace('"@ + url + "')"@
}

/// The script that shows the startup diagnostic: what has failed, and where
/// the logs are.
pub open spec fn fallback_script() -> Seq<char> {
    "document.body.innerHTML = '<div style=\"font-family:sans-serif;padding:24px\"><h1>Startup Error</h1><p>Failed to start Phoenix server.</p><p>Check logs at: "@
        + log_location() + "</p></div>'"@
}

/// The script of a command.
pub open spec fn script_of(command: WindowCommandView) -> Seq<char> {
    match command {
        WindowCommandView::Redirect { url, .. } => redirect_script(url),
        WindowCommandView::Fallback => fallback_script(),
    }
}

impl WindowCommand {
    /// The script that carries this command out in the window.
    pub fn script(&self) -> (script: String)
        ensures
            script@ == script_of(self@),
    {
        match self {
            WindowCommand::Redirect { url, .. } => {
                let mut script = String::from_str("window.location.replace('");
                script.append(url.as_str());
                script.append("')");
                script
            },
            WindowCommand::Fallback => {
                let mut script = String::from_str(
                    "document.body.innerHTML = '<div style=\"font-family:sans-serif;padding:24px\"><h1>Startup Error</h1><p>Failed to start Phoenix server.</p><p>Check logs at: ",
                );
                script.append("~/Library/Logs/com.todoerr.desktop/");
                script.append("</p></div>'");
                script
            },
        }
    }

    /// Tells whether this command redirects the window.
    pub fn is_redirect(&self) -> (redirect: bool)
        ensures
            redirect == (self@ is Redirect),
    {
        match self {
            WindowCommand::Redirect { .. } => true,
            WindowCommand::Fallback => false,
        }
    }
}

} // verus!
