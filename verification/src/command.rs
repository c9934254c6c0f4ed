//! The command line: which of the two commands the arguments ask for.

use vstd::prelude::*;

verus! {

/// What the program was asked to do.
#[derive(Clone, Copy, Debug, PartialEq, Eq, Structural)]
pub enum Command {
    /// Train a classifier and write its checkpoint.
    Train,
    /// Classify one held-out sample with the checkpoint.
    Infer,
    /// No command was given: say how the program is used.
    Usage,
    /// The command is none that the program knows.
    Invalid,
}

/// The command that the arguments ask for. The first argument is the
/// program's name and the second the command; what follows is not looked at.
pub open spec fn command_of(args: Seq<Seq<char>>) -> Command {
    if args.len() < 2 {
        Command::Usage
    } else if args[1] == "train"@ {
        Command::Train
    } else if args[1] == "infer"@ {
        Command::Infer
    } else {
        Command::Invalid
    }
}

/// The arguments, each as its characters.
pub open spec fn texts(args: Seq<String>) -> Seq<Seq<char>> {
    Seq::new(args.len(), |i: int| args[i]@)
}

/// Reads the command off the arguments.
pub fn parse_command(args: &Vec<String>) -> (command: Command)
    ensures
        command == command_of(texts(args@)),
{
    if args.len() < 2 {
        return Command::Usage;
    }
    let train = "train".to_owned();
    let infer = "infer".to_owned();
    if args[1] == train {
        Command::Train
    } else if args[1] == infer {
        Command::Infer
    } else {
        Command::Invalid
    }
}

impl Command {
    /// Whether the command trains or classifies; the other two only print.
    pub open spec fn acts(&self) -> bool {
        *self == Command::Train || *self == Command::Infer
    }

    /// Tests `acts`.
    pub fn is_action(&self) -> (b: bool)
        ensures
            b == self.acts(),
    {
        match self {
            Command::Train | Command::Infer => true,
            Command::Usage | Command::Invalid => false,
        }
    }

    /// What the program prints in place of acting: how it is used, where no
    /// command was given, and that the command is invalid, where it is not
    /// known. A command that acts has no such message.
    pub fn message(&self) -> (text: Option<&'static str>)
        ensures
            text is None <==> self.acts(),
            text matches Some(t) ==> t@ == (if *self == Command::Usage {
                "Usage: cargo run --release train | infer"@
            } else {
                "Invalid command! Use 'train' or 'infer'."@
            }),
    {
        match self {
            Command::Train | Command::Infer => None,
            Command::Usage => Some("Usage: cargo run --release train | infer"),
            Command::Invalid => Some("Invalid command! Use 'train' or 'infer'."),
        }
    }
}

/// The program acts only on the command `train` or `infer`: without a
/// command, or with any other, it trains nothing and classifies nothing.
pub proof fn lemma_only_known_commands_act(args: Seq<Seq<char>>)
    ensures
        command_of(args).acts() <==> args.len() >= 2 && (args[1] == "train"@ || args[1]
            == "infer"@),
        args.len() < 2 ==> command_of(args) == Command::Usage,
        args.len() >= 2 && !command_of(args).acts() ==> command_of(args) == Command::Invalid,
{
}

} // verus!
