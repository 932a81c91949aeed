//! What a session is asked to do, and how the command line says it.

use crate::text::{count_of, parse_count, Text};
use vstd::prelude::*;
use vstd::string::*;

verus! {

/// How many hops a session probes when the command line does not say.
pub const DEFAULT_MAX_HOPS: u32 = 30;

/// How long a session listens for the answer to one probe, in milliseconds.
pub const DEFAULT_WINDOW_MS: u64 = 3000;

/// How long a session sleeps between two looks at the socket, in milliseconds.
pub const DEFAULT_POLL_INTERVAL_MS: u64 = 5;

/// The exit status of a session that probed every hop.
pub const EXIT_SUCCESS: i32 = 0;

/// The exit status of a run that could not start or had to stop.
pub const EXIT_FAILURE: i32 = 1;

/// A configuration as the contracts see it.
pub struct ConfigView {
    pub hostname: Text,
    pub max_hops: u32,
    pub window_ms: u64,
    pub poll_interval_ms: u64,
}

impl ConfigView {
    /// The configuration of a session that traces the way to `hostname`
    /// with nothing else said.
    pub open spec fn standard(hostname: Text) -> ConfigView {
        ConfigView {
            hostname,
            max_hops: DEFAULT_MAX_HOPS,
            window_ms: DEFAULT_WINDOW_MS,
            poll_interval_ms: DEFAULT_POLL_INTERVAL_MS,
        }
    }

    /// Whether these are settings that a session can have: it probes at
    /// least one hop.
    pub open spec fn valid(self) -> bool {
        self.max_hops >= 1
    }
}

/// The settings of one session. They are fixed before the session starts
/// and never change; the hop limit is at least one.
#[derive(Debug)]
pub struct SessionConfig {
    hostname: String,
    max_hops: u32,
    window_ms: u64,
    poll_interval_ms: u64,
}

impl View for SessionConfig {
    type V = ConfigView;

    closed spec fn view(&self) -> ConfigView {
        ConfigView {
            hostname: self.hostname@,
            max_hops: self.max_hops,
            window_ms: self.window_ms,
            poll_interval_ms: self.poll_interval_ms,
        }
    }
}

impl SessionConfig {
    #[verifier::type_invariant]
    spec fn hop_limit_is_positive(&self) -> bool {
        self.max_hops >= 1
    }

    /// The standard settings for a trace to `hostname`.
    pub fn new(hostname: String) -> (config: SessionConfig)
        ensures
            config@ == ConfigView::standard(hostname@),
            config@.valid(),
    {
        SessionConfig {
            hostname,
            max_hops: DEFAULT_MAX_HOPS,
            window_ms: DEFAULT_WINDOW_MS,
            poll_interval_ms: DEFAULT_POLL_INTERVAL_MS,
        }
    }

    /// The same settings with another hop limit. A limit of zero is refused.
    pub fn with_max_hops(self, max_hops: u32) -> (changed: Option<SessionConfig>)
        ensures
            max_hops == 0 ==> changed is None,
            max_hops >= 1 ==> changed is Some && changed->0@ == (ConfigView {
                max_hops,
                ..self@
            }),
    {
        if max_hops == 0 {
            None
        } else {
            Some(
                SessionConfig {
                    hostname: self.hostname,
                    max_hops,
                    window_ms: self.window_ms,
                    poll_interval_ms: self.poll_interval_ms,
                },
            )
        }
    }

    /// The same settings with another window for each hop and another pause
    /// between two looks at the socket, both in milliseconds.
    pub fn with_timing(self, window_ms: u64, poll_interval_ms: u64) -> (changed: SessionConfig)
        ensures
            changed@ == (ConfigView { window_ms, poll_interval_ms, ..self@ }),
    {
        proof {
            use_type_invariant(&self);
        }
        SessionConfig {
            hostname: self.hostname,
            max_hops: self.max_hops,
            window_ms,
            poll_interval_ms,
        }
    }

    /// The name of the host to trace.
    pub fn hostname(&self) -> (hostname: &String)
        ensures
            hostname@ == self@.hostname,
    {
        &self.hostname
    }

    /// The number of hops to probe: at least one.
    pub fn max_hops(&self) -> (max_hops: u32)
        ensures
            max_hops == self@.max_hops,
            max_hops >= 1,
    {
        proof {
            use_type_invariant(self);
        }
        self.max_hops
    }

    /// The time to listen for the answer to one probe, in milliseconds.
    pub fn window_ms(&self) -> (window_ms: u64)
        ensures
            window_ms == self@.window_ms,
    {
        self.window_ms
    }

    /// The pause between two looks at the socket, in milliseconds.
    pub fn poll_interval_ms(&self) -> (poll_interval_ms: u64)
        ensures
            poll_interval_ms == self@.poll_interval_ms,
    {
        self.poll_interval_ms
    }
}

/// Why a command line was refused.
#[derive(Clone, Copy, Debug, PartialEq, Eq, Structural)]
pub enum ArgError {
    /// No host was named.
    MissingHostname,
    /// An argument after the host is not an option of this program.
    UnknownOption,
    /// The last argument is `-h`, with no number behind it.
    MissingValue,
    /// The argument behind `-h` is not a number from 1 to 4294967295.
    InvalidHopCount,
}

/// What the options from position `from` on say of the hop limit, given that
/// the options before them left it at `max_hops`. The only option is `-h`
/// followed by a count; where it is given more than once, the last one holds.
pub open spec fn parsed_options(args: Seq<Text>, from: int, max_hops: u32) -> Result<u32, ArgError>
    decreases args.len() - from,
{
    if from < 0 || from >= args.len() {
        Ok(max_hops)
    } else if args[from] != "-h"@ {
        Err(ArgError::UnknownOption)
    } else if from + 1 >= args.len() {
        Err(ArgError::MissingValue)
    } else {
        match count_of(args[from + 1]) {
            Some(count) => parsed_options(args, from + 2, count),
            None => Err(ArgError::InvalidHopCount),
        }
    }
}

/// What a command line says: the program's name, then the host to trace,
/// then options.
pub open spec fn parsed(args: Seq<Text>) -> Result<ConfigView, ArgError> {
    if args.len() < 2 {
        Err(ArgError::MissingHostname)
    } else {
        match parsed_options(args, 2, DEFAULT_MAX_HOPS) {
            Ok(max_hops) => Ok(ConfigView { max_hops, ..ConfigView::standard(args[1]) }),
            Err(error) => Err(error),
        }
    }
}

/// Reads the command line: see [`parsed`]. What it gives are settings
/// that a session can have.
pub fn parse_args(args: Vec<String>) -> (outcome: Result<SessionConfig, ArgError>)
    ensures
        match parsed(args.deep_view()) {
            Ok(config) => outcome is Ok && outcome->Ok_0@ == config && config.valid(),
            Err(error) => outcome == Err::<SessionConfig, ArgError>(error),
        },
{
    let ghost texts: Seq<Text> = args.deep_view();
    if args.len() < 2 {
        return Err(ArgError::MissingHostname);
    }
    let flag: String = String::from_str("-h");
    let mut max_hops: u32 = DEFAULT_MAX_HOPS;
    let mut i: usize = 2;
    while i < args.len()
        invariant
            texts == args.deep_view(),
            flag@ == "-h"@,
            2 <= i <= args.len(),
            max_hops >= 1,
            parsed_options(texts, i as int, max_hops) == parsed_options(texts, 2, DEFAULT_MAX_HOPS),
        decreases args.len() - i,
    {
        assert(texts[i as int] == args[i as int]@);
        if args[i] != flag {
            return Err(ArgError::UnknownOption);
        }
        if i + 1 >= args.len() {
            return Err(ArgError::MissingValue);
        }
        assert(texts[i + 1] == args[i + 1]@);
        match parse_count(args[i + 1].as_str()) {
            Some(count) => {
                max_hops = count;
            },
            None => {
                return Err(ArgError::InvalidHopCount);
            },
        }
        i = i + 2;
    }
    let config: SessionConfig = SessionConfig {
        hostname: args[1].clone(),
        max_hops,
        window_ms: DEFAULT_WINDOW_MS,
        poll_interval_ms: DEFAULT_POLL_INTERVAL_MS,
    };
    assert(texts[1] == args[1]@);
    Ok(config)
}

/// The help text for a program called `name`.
pub open spec fn usage_text(name: Text) -> Text {
    "Usage: ./"@ + name + " address/host\n  Options:\n  -h num: Set max hops"@
}

/// The help text for a program called `name`: three lines, without a line
/// break after the last.
pub fn usage(name: &String) -> (text: String)
    ensures
        text@ == usage_text(name@),
{
    let mut text: String = String::from_str("Usage: ./");
    text.append(name.as_str());
    text.append(" address/host\n  Options:\n  -h num: Set max hops");
    text
}

} // verus!
