//! The command line of the parse service.

use vstd::prelude::*;
use vstd::string::StringExecFns;
use crate::address::same_text;

verus! {

/// What `str::parse::<u16>` makes of a text: the number it spells in base
/// ten, or nothing where it spells none that fits.
pub uninterp spec fn decimal_u16(text: Seq<char>) -> Option<u16>;

/// Calls `str::parse::<u16>`, which reads a whole text as a number in base
/// ten. The result depends on the text alone.
#[verifier::external_body]
fn parse_port(text: &str) -> (port: Option<u16>)
    ensures
        port == decimal_u16(text@),
{
    text.parse::<u16>().ok()
}

/// The port that a value of `--port` gives, where it reads as one; else the
/// fault that names the value.
pub fn port_from_parts(value: &str, port: Option<u16>) -> (result: Result<u16, ArgsError>)
    ensures
        match port {
            Some(number) => result matches Ok(given) && given == number,
            None => result matches Err(ArgsError::InvalidPort(text)) && text@ == value@,
        },
{
    match port {
        Some(number) => Ok(number),
        None => Err(ArgsError::InvalidPort(String::from_str(value))),
    }
}

/// Port on which the parse service listens unless told otherwise.
pub const DEFAULT_PORT: u16 = 6002;

/// How the parse service is set up.
#[derive(Clone, Debug)]
pub struct ParseConfig {
    pub host: String,
    pub port: u16,
    pub broker_address: String,
    pub register_with_broker: bool,
}

/// A setup, as contracts speak of it.
pub struct ParseConfigView {
    pub host: Seq<char>,
    pub port: u16,
    pub broker_address: Seq<char>,
    pub register_with_broker: bool,
}

impl View for ParseConfig {
    type V = ParseConfigView;

    open spec fn view(&self) -> ParseConfigView {
        ParseConfigView {
            host: self.host@,
            port: self.port,
            broker_address: self.broker_address@,
            register_with_broker: self.register_with_broker,
        }
    }
}

/// The setup of a service that is given no argument.
pub open spec fn default_config() -> ParseConfigView {
    ParseConfigView {
        host: "127.0.0.1"@,
        port: DEFAULT_PORT,
        broker_address: "127.0.0.1:50051"@,
        register_with_broker: true,
    }
}

/// What the command line asks for.
#[derive(Clone, Debug)]
pub enum ParseCommand {
    /// Run the service with this setup.
    Run(ParseConfig),
    /// Print the usage and exit.
    Help,
}

/// Why the command line was refused.
#[derive(Clone, Debug)]
pub enum ArgsError {
    /// The option, which stands last, needs a value.
    MissingValue(String),
    /// The text given as port is no port number.
    InvalidPort(String),
    /// The argument is no option of the service.
    UnknownArgument(String),
}

/// A command or an error, as contracts speak of them.
pub enum ArgsOutcome {
    Run(ParseConfigView),
    Help,
    MissingValue(Seq<char>),
    InvalidPort(Seq<char>),
    UnknownArgument(Seq<char>),
}

/// What the arguments from `at` on make of `config`, read from left to
/// right: an option that takes a value consumes the argument after it, the
/// first request for help ends the reading, and so does the first fault.
pub open spec fn outcome_from(args: Seq<Seq<char>>, at: int, config: ParseConfigView)
    -> ArgsOutcome
    decreases args.len() - at,
{
    if at < 0 || at >= args.len() {
        ArgsOutcome::Run(config)
    } else if args[at] == "--host"@ {
        if at + 1 < args.len() {
            outcome_from(args, at + 2, ParseConfigView { host: args[at + 1], ..config })
        } else {
            ArgsOutcome::MissingValue(args[at])
        }
    } else if args[at] == "--port"@ {
        if at + 1 < args.len() {
            match decimal_u16(args[at + 1]) {
                Some(port) => outcome_from(args, at + 2, ParseConfigView { port, ..config }),
                None => ArgsOutcome::InvalidPort(args[at + 1]),
            }
        } else {
            ArgsOutcome::MissingValue(args[at])
        }
    } else if args[at] == "--broker"@ {
        if at + 1 < args.len() {
            outcome_from(args, at + 2, ParseConfigView { broker_address: args[at + 1], ..config })
        } else {
            ArgsOutcome::MissingValue(args[at])
        }
    } else if args[at] == "--no-broker"@ {
        outcome_from(args, at + 1, ParseConfigView { register_with_broker: false, ..config })
    } else if args[at] == "-h"@ || args[at] == "--help"@ {
        ArgsOutcome::Help
    } else {
        ArgsOutcome::UnknownArgument(args[at])
    }
}

/// The texts of a run of arguments.
pub open spec fn texts_of(args: Seq<String>) -> Seq<Seq<char>> {
    args.map_values(|arg: String| arg@)
}

/// The outcome that a result of `parse_args` stands for.
pub open spec fn outcome_of(result: Result<ParseCommand, ArgsError>) -> ArgsOutcome {
    match result {
        Ok(ParseCommand::Run(config)) => ArgsOutcome::Run(config@),
        Ok(ParseCommand::Help) => ArgsOutcome::Help,
        Err(ArgsError::MissingValue(option)) => ArgsOutcome::MissingValue(option@),
        Err(ArgsError::InvalidPort(text)) => ArgsOutcome::InvalidPort(text@),
        Err(ArgsError::UnknownArgument(argument)) => ArgsOutcome::UnknownArgument(argument@),
    }
}

/// Reads the arguments of the parse service, the program's name left out.
pub fn parse_args(args: &Vec<String>) -> (result: Result<ParseCommand, ArgsError>)
    ensures
        outcome_of(result) == outcome_from(texts_of(args@), 0, default_config()),
{
    let mut config = ParseConfig {
        host: String::from_str("127.0.0.1"),
        port: DEFAULT_PORT,
        broker_address: String::from_str("127.0.0.1:50051"),
        register_with_broker: true,
    };
    let ghost texts = texts_of(args@);
    let mut at: usize = 0;
    while at < args.len()
        invariant
            at <= args@.len(),
            texts == texts_of(args@),
            outcome_from(texts, at as int, config@) == outcome_from(texts, 0, default_config()),
        decreases args@.len() - at,
    {
        let arg = args[at].as_str();
        let takes_value = same_text(arg, "--host") || same_text(arg, "--port") || same_text(
            arg,
            "--broker",
        );
        if takes_value {
            if at + 1 >= args.len() {
                return Err(ArgsError::MissingValue(args[at].clone()));
            }
            let value = &args[at + 1];
            if same_text(arg, "--host") {
                config.host = value.clone();
            } else if same_text(arg, "--port") {
                match port_from_parts(value.as_str(), parse_port(value.as_str())) {
                    Ok(port) => {
                        config.port = port;
                    },
                    Err(fault) => {
                        return Err(fault);
                    },
                }
            } else {
                config.broker_address = value.clone();
            }
            at += 2;
        } else if same_text(arg, "--no-broker") {
            config.register_with_broker = false;
            at += 1;
        } else if same_text(arg, "-h") || same_text(arg, "--help") {
            return Ok(ParseCommand::Help);
        } else {
            return Err(ArgsError::UnknownArgument(args[at].clone()));
        }
    }
    Ok(ParseCommand::Run(config))
}

} // verus!
