//! What the process supervisor is told and what it reports: the launch
//! configuration of the backend, and the events of its output.

use vstd::prelude::*;
use crate::text::ascii_chars;
use crate::text::decimal;
use crate::text::decimal_digits;
use crate::text::push_digits;

verus! {

/// How the port of the backend becomes known.
#[derive(Clone, Copy, Debug, PartialEq, Eq)]
pub enum PortMode {
    /// The backend is told to listen on this port.
    Static(u16),
    /// The backend picks a free port and announces it on its output.
    Discover,
}

/// What is fixed at startup about the backend to launch.
#[derive(Clone, Debug, PartialEq, Eq)]
pub struct LaunchConfig {
    /// Where the backend's executable is found.
    pub executable: String,
    /// The database file that the backend works on.
    pub database_path: String,
    /// How the port becomes known.
    pub mode: PortMode,
}

/// One event of the backend's output, in the order in which it was produced.
#[derive(Clone, Debug, PartialEq, Eq)]
pub enum OutputEvent {
    /// A line of standard output.
    Stdout(Vec<u8>),
    /// A line of standard error.
    Stderr(Vec<u8>),
    /// The backend could not be started.
    SpawnError(String),
    /// The backend has exited. This is the last event of its output.
    Terminated { code: Option<i32>, signal: Option<i32> },
}

impl OutputEvent {
    /// Whether this event closes the output: nothing follows it.
    pub open spec fn is_last(&self) -> bool {
        self is Terminated
    }

    /// Tells whether this event closes the output.
    pub fn ends_output(&self) -> (last: bool)
        ensures
            last == self.is_last(),
    {
        match self {
            OutputEvent::Terminated { .. } => true,
            _ => false,
        }
    }
}

/// The value of `PORT` for a mode: `0` lets the backend pick a port, a
/// decimal numeral fixes it.
pub open spec fn port_directive_of(mode: PortMode) -> Seq<char> {
    match mode {
        PortMode::Static(port) => ascii_chars(decimal(port as nat)),
        PortMode::Discover => "0"@,
    }
}

impl LaunchConfig {
    /// Puts a configuration together.
    pub fn new(executable: String, database_path: String, mode: PortMode) -> (config: LaunchConfig)
        ensures
            config.executable == executable,
            config.database_path == database_path,
            config.mode == mode,
    {
        LaunchConfig { executable, database_path, mode }
    }

    /// The value of `PORT` in the backend's environment.
    pub fn port_directive(&self) -> (directive: String)
        ensures
            directive@ == port_directive_of(self.mode),
    {
        match self.mode {
            PortMode::Static(port) => {
                let digits = decimal_digits(port);
                let mut directive = String::new();
                push_digits(&mut directive, digits.as_slice());
                assert(directive@ =~= ascii_chars(decimal(port as nat)));
                directive
            },
            PortMode::Discover => String::from_str("0"),
        }
    }

    /// The arguments of the backend: `start` where it is run directly and
    /// announces its port, none where it is run with a fixed port.
    pub fn arguments(&self) -> (args: Vec<String>)
        ensures
            match self.mode {
                PortMode::Static(_) => args@.len() == 0,
                PortMode::Discover => args@.len() == 1 && args@[0]@ == "start"@,
            },
    {
        let mut args: Vec<String> = Vec::new();
        match self.mode {
            PortMode::Static(_) => {},
            PortMode::Discover => {
                args.push(String::from_str("start"));
            },
        }
        args
    }

    /// The three variables that the backend's environment is given, in this
    /// order: the database path, the switch that makes it serve, and the
    /// port directive.
    pub fn environment(&self) -> (vars: Vec<(String, String)>)
        ensures
            vars@.len() == 3,
            vars@[0].0@ == "DATABASE_PATH"@,
            vars@[0].1@ == self.database_path@,
            vars@[1].0@ == "PHX_SERVER"@,
            vars@[1].1@ == "true"@,
            vars@[2].0@ == "PORT"@,
            vars@[2].1@ == port_directive_of(self.mode),
    {
        let mut vars: Vec<(String, String)> = Vec::new();
        vars.push((String::from_str("DATABASE_PATH"), self.database_path.clone()));
        vars.push((String::from_str("PHX_SERVER"), String::from_str("true")));
        vars.push((String::from_str("PORT"), self.port_directive()));
        vars
    }
}

} // verus!
