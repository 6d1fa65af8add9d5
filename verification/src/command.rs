//! The chat commands: a raw command word is matched by prefix against the
//! known keywords, in a fixed order, with help as the fallback for
//! anything unrecognized.

use vstd::prelude::*;

use vstd::string::StrSliceExecFns;

verus! {

/// One of the nine operations a command resolves to.
#[derive(Clone, Copy, PartialEq, Eq, Structural, Debug)]
pub enum Command {
    Init,
    Add,
    Remove,
    Status,
    Commit,
    Reset,
    Log,
    Push,
    Help,
}

/// The text begins with the given prefix.
pub open spec fn spec_starts_with(s: Seq<char>, p: Seq<char>) -> bool {
    s.len() >= p.len() && s.subrange(0, p.len() as int) == p
}

/// Whether the text begins with the given prefix.
pub fn str_starts_with(s: &str, p: &str) -> (r: bool)
    ensures
        r == spec_starts_with(s@, p@),
{
    let sl = s.unicode_len();
    let pl = p.unicode_len();
    if sl < pl {
        return false;
    }
    let mut i: usize = 0;
    while i < pl
        invariant
            i <= pl,
            pl == p@.len(),
            sl == s@.len(),
            pl <= sl,
            forall|j: int| 0 <= j < i ==> s@[j] == p@[j],
        decreases pl - i,
    {
        if s.get_char(i) != p.get_char(i) {
            proof {
                assert(s@.subrange(0, p@.len() as int)[i as int] == s@[i as int]);
            }
            return false;
        }
        i = i + 1;
    }
    proof {
        assert(s@.subrange(0, p@.len() as int) =~= p@);
    }
    true
}

/// Which operation a raw command word resolves to.
pub open spec fn spec_parse_command(s: Seq<char>) -> Command {
    if spec_starts_with(s, "init"@) {
        Command::Init
    } else if spec_starts_with(s, "add"@) {
        Command::Add
    } else if spec_starts_with(s, "rm"@) {
        Command::Remove
    } else if spec_starts_with(s, "status"@) {
        Command::Status
    } else if spec_starts_with(s, "commit"@) {
        Command::Commit
    } else if spec_starts_with(s, "reset"@) {
        Command::Reset
    } else if spec_starts_with(s, "log"@) {
        Command::Log
    } else if spec_starts_with(s, "push"@) {
        Command::Push
    } else {
        Command::Help
    }
}

/// The keyword of each operation.
pub open spec fn spec_command_str(c: Command) -> Seq<char> {
    match c {
        Command::Init => "init"@,
        Command::Add => "add"@,
        Command::Remove => "rm"@,
        Command::Status => "status"@,
        Command::Commit => "commit"@,
        Command::Reset => "reset"@,
        Command::Log => "log"@,
        Command::Push => "push"@,
        Command::Help => "help"@,
    }
}

impl Command {
    /// Resolve a raw command word by keyword prefix; anything that
    /// matches no keyword asks for help.
    pub fn from_text(text: &str) -> (c: Command)
        ensures
            c == spec_parse_command(text@),
    {
        if str_starts_with(text, "init") {
            Command::Init
        } else if str_starts_with(text, "add") {
            Command::Add
        } else if str_starts_with(text, "rm") {
            Command::Remove
        } else if str_starts_with(text, "status") {
            Command::Status
        } else if str_starts_with(text, "commit") {
            Command::Commit
        } else if str_starts_with(text, "reset") {
            Command::Reset
        } else if str_starts_with(text, "log") {
            Command::Log
        } else if str_starts_with(text, "push") {
            Command::Push
        } else {
            Command::Help
        }
    }

    /// The operation's keyword.
    pub fn into_str(self) -> (r: String)
        ensures
            r@ == spec_command_str(self),
    {
        match self {
            Command::Init => "init".to_owned(),
            Command::Add => "add".to_owned(),
            Command::Remove => "rm".to_owned(),
            Command::Status => "status".to_owned(),
            Command::Commit => "commit".to_owned(),
            Command::Reset => "reset".to_owned(),
            Command::Log => "log".to_owned(),
            Command::Push => "push".to_owned(),
            Command::Help => "help".to_owned(),
        }
    }
}

} // verus!
