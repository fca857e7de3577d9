//! The command line the tool accepts.

use vstd::prelude::*;

verus! {

/// What the user asked for on the command line.
#[derive(Debug, PartialEq, Eq, Structural, Clone, Copy)]
pub enum Commands {
    /// Scan for build artifacts in the current directory.
    Scan,
    /// Clean all build artifacts in the current directory.
    Clean,
}

/// The parsed command line.
#[derive(Debug, PartialEq, Eq, Structural, Clone, Copy)]
pub struct Cli {
    pub command: Commands,
}

/// The command an argument vector names: after the program name there must
/// be exactly one argument, either `scan` or `clean`.
pub open spec fn parsed_command(args: Seq<Seq<char>>) -> Option<Commands> {
    if args.len() == 2 && args[1] == "scan"@ {
        Some(Commands::Scan)
    } else if args.len() == 2 && args[1] == "clean"@ {
        Some(Commands::Clean)
    } else {
        None
    }
}

impl Cli {
    /// Parses an argument vector whose first element is the program name and
    /// whose second names the subcommand; anything else is rejected.
    pub fn parse_from(args: Vec<String>) -> (r: Option<Cli>)
        ensures
            (r matches Some(c) ==> parsed_command(args.deep_view()) == Some(c.command)),
            (r is None ==> parsed_command(args.deep_view()) is None),
    {
        proof {
            assert(args.deep_view().len() == args@.len());
        }
        if args.len() != 2 {
            return None;
        }
        let scan_word: String = "scan".to_owned();
        let clean_word: String = "clean".to_owned();
        if args[1] == scan_word {
            Some(Cli { command: Commands::Scan })
        } else if args[1] == clean_word {
            Some(Cli { command: Commands::Clean })
        } else {
            None
        }
    }
}

} // verus!
