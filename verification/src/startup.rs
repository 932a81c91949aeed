//! From the command line to a session, or to the help text.

use crate::config::{parse_args, parsed, usage, usage_text, EXIT_FAILURE};
use crate::session::{Session, SessionView};
use crate::text::Text;
use vstd::prelude::*;
use vstd::string::*;

verus! {

/// A start as the contracts see it.
pub enum StartupView {
    Trace(SessionView),
    Usage { text: Text, exit_code: i32 },
}

/// What a command line leads to.
#[derive(Debug)]
pub enum Startup {
    /// A session to run, not yet started.
    Trace(Session),
    /// No session: this help text is to be printed, and the program is to
    /// leave with this exit status. Nothing is looked up and no probe is
    /// sent.
    Usage { text: String, exit_code: i32 },
}

impl View for Startup {
    type V = StartupView;

    open spec fn view(&self) -> StartupView {
        match self {
            Startup::Trace(session) => StartupView::Trace(session@),
            Startup::Usage { text, exit_code } => StartupView::Usage {
                text: text@,
                exit_code: *exit_code,
            },
        }
    }
}

/// The name that the program was called by: the first argument, if there
/// is one.
pub open spec fn program_name(args: Seq<Text>) -> Text {
    if args.len() > 0 {
        args[0]
    } else {
        Seq::empty()
    }
}

/// What the command line `args` leads to: a session with the settings it
/// asks for; or, where it names no host or cannot be read, the help text
/// and the exit status of a failure.
pub open spec fn started(args: Seq<Text>) -> StartupView {
    match parsed(args) {
        Ok(config) => StartupView::Trace(SessionView::fresh(config)),
        Err(_) => StartupView::Usage {
            text: usage_text(program_name(args)),
            exit_code: EXIT_FAILURE,
        },
    }
}

/// Decides what to do with a command line: see [`started`].
pub fn startup(args: Vec<String>) -> (outcome: Startup)
    ensures
        outcome@ == started(args.deep_view()),
{
    let name: String = if args.len() > 0 {
        assert(args.deep_view()[0] == args[0]@);
        args[0].clone()
    } else {
        String::new()
    };
    match parse_args(args) {
        Ok(config) => Startup::Trace(Session::new(config)),
        Err(_) => Startup::Usage { text: usage(&name), exit_code: EXIT_FAILURE },
    }
}

} // verus!
