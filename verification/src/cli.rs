use vstd::prelude::*;
use vstd::string::StringExecFns;
use crate::selection::Mode;

verus! {

/// What the command line asks for: the short usage hint, the help text,
/// or a browsing session in one of the two modes.
#[derive(Clone, Copy, PartialEq, Eq, Structural, Debug)]
pub enum Action {
    Usage,
    Help,
    Run(Mode),
}

/// The action for a full argument list (program name included): exactly
/// one argument is expected, and it must be one of the recognized flags;
/// anything else asks for the usage hint.
pub open spec fn action_for(args: Seq<Seq<char>>) -> Action {
    if args.len() != 2 {
        Action::Usage
    } else if args[1] == "-d"@ {
        Action::Run(Mode::Partitions)
    } else if args[1] == "-f"@ {
        Action::Run(Mode::Files)
    } else if args[1] == "-h"@ {
        Action::Help
    } else {
        Action::Usage
    }
}

/// Decides what to do from the process arguments.
pub fn parse_args(args: &Vec<String>) -> (a: Action)
    ensures
        a == action_for(args@.map_values(|s: String| s@)),
{
    if args.len() != 2 {
        return Action::Usage;
    }
    let d = String::from_str("-d");
    let f = String::from_str("-f");
    let h = String::from_str("-h");
    if args[1] == d {
        Action::Run(Mode::Partitions)
    } else if args[1] == f {
        Action::Run(Mode::Files)
    } else if args[1] == h {
        Action::Help
    } else {
        Action::Usage
    }
}

/// The short usage hint printed for a wrong or missing flag.
pub fn usage_text() -> (r: String)
    ensures
        r@ == "Help: ./diskg -h"@,
{
    String::from_str("Help: ./diskg -h")
}

/// The help text printed for the help flag.
pub fn help_text() -> (r: String)
    ensures
        r@
            == "Usage: ./diskg [option]\n-d -> Show information about partitions\n-f -> Show information about files and folders in the directory the utility was started from\nPress Q to quit"@,
{
    String::from_str(
        "Usage: ./diskg [option]\n-d -> Show information about partitions\n-f -> Show information about files and folders in the directory the utility was started from\nPress Q to quit",
    )
}

} // verus!
