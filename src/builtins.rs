use vstd::prelude::*;

use crate::text::same_text;

verus! {

/// The builtin commands of the shell. Only some of them have an effect yet;
/// the others are refused as not implemented.
#[derive(Debug, Clone, Copy, PartialEq, Eq, Hash, Structural)]
pub enum Builtin {
    Colon,
    Dot,
    Alias,
    Bind,
    Builtin,
    Caller,
    Command,
    Declare,
    Echo,
    Enable,
    Help,
    Let,
    Local,
    Logout,
    Mapfile,
    Printf,
    Readarray,
    Source,
    Shopt,
    Bg,
    Break,
    Cd,
    Continue,
    Eval,
    Exec,
    Exit,
    Export,
    Fc,
    Fg,
    Getopts,
    Hash,
    Jobs,
    Kill,
    Pwd,
    Read,
    Readonly,
    Return,
    SetOpts,
    Shift,
    Test,
    Times,
    Trap,
    Type,
    Ulimit,
    Umask,
    Unalias,
    Unset,
    Wait,
}

/// The builtin that a command word names, if any.
pub open spec fn builtin_named(s: Seq<char>) -> Option<Builtin> {
    if s == ":"@ {
        Some(Builtin::Colon)
    } else if s == "."@ {
        Some(Builtin::Dot)
    } else if s == "alias"@ {
        Some(Builtin::Alias)
    } else if s == "command"@ {
        Some(Builtin::Command)
    } else if s == "bg"@ {
        Some(Builtin::Bg)
    } else if s == "break"@ {
        Some(Builtin::Break)
    } else if s == "cd"@ {
        Some(Builtin::Cd)
    } else if s == "continue"@ {
        Some(Builtin::Continue)
    } else if s == "eval"@ {
        Some(Builtin::Eval)
    } else if s == "exec"@ {
        Some(Builtin::Exec)
    } else if s == "exit"@ {
        Some(Builtin::Exit)
    } else if s == "export"@ {
        Some(Builtin::Export)
    } else if s == "fc"@ {
        Some(Builtin::Fc)
    } else if s == "fg"@ {
        Some(Builtin::Fg)
    } else if s == "getopts"@ {
        Some(Builtin::Getopts)
    } else if s == "hash"@ {
        Some(Builtin::Hash)
    } else if s == "jobs"@ {
        Some(Builtin::Jobs)
    } else if s == "kill"@ {
        Some(Builtin::Kill)
    } else if s == "pwd"@ {
        Some(Builtin::Pwd)
    } else if s == "read"@ {
        Some(Builtin::Read)
    } else if s == "readonly"@ {
        Some(Builtin::Readonly)
    } else if s == "return"@ {
        Some(Builtin::Return)
    } else if s == "set"@ {
        Some(Builtin::SetOpts)
    } else if s == "shift"@ {
        Some(Builtin::Shift)
    } else if s == "test"@ {
        Some(Builtin::Test)
    } else if s == "times"@ {
        Some(Builtin::Times)
    } else if s == "trap"@ {
        Some(Builtin::Trap)
    } else if s == "type"@ {
        Some(Builtin::Type)
    } else if s == "ulimit"@ {
        Some(Builtin::Ulimit)
    } else if s == "umask"@ {
        Some(Builtin::Umask)
    } else if s == "unalias"@ {
        Some(Builtin::Unalias)
    } else if s == "unset"@ {
        Some(Builtin::Unset)
    } else if s == "wait"@ {
        Some(Builtin::Wait)
    } else {
        None
    }
}

impl Builtin {
    /// The builtin that the command word `name` names, if any.
    pub fn new(name: &str) -> (r: Option<Self>)
        ensures
            r == builtin_named(name@),
    {
        if same_text(name, ":") {
            Some(Builtin::Colon)
        } else if same_text(name, ".") {
            Some(Builtin::Dot)
        } else if same_text(name, "alias") {
            Some(Builtin::Alias)
        } else if same_text(name, "command") {
            Some(Builtin::Command)
        } else if same_text(name, "bg") {
            Some(Builtin::Bg)
        } else if same_text(name, "break") {
            Some(Builtin::Break)
        } else if same_text(name, "cd") {
            Some(Builtin::Cd)
        } else if same_text(name, "continue") {
            Some(Builtin::Continue)
        } else if same_text(name, "eval") {
            Some(Builtin::Eval)
        } else if same_text(name, "exec") {
            Some(Builtin::Exec)
        } else if same_text(name, "exit") {
            Some(Builtin::Exit)
        } else if same_text(name, "export") {
            Some(Builtin::Export)
        } else if same_text(name, "fc") {
            Some(Builtin::Fc)
        } else if same_text(name, "fg") {
            Some(Builtin::Fg)
        } else if same_text(name, "getopts") {
            Some(Builtin::Getopts)
        } else if same_text(name, "hash") {
            Some(Builtin::Hash)
        } else if same_text(name, "jobs") {
            Some(Builtin::Jobs)
        } else if same_text(name, "kill") {
            Some(Builtin::Kill)
        } else if same_text(name, "pwd") {
            Some(Builtin::Pwd)
        } else if same_text(name, "read") {
            Some(Builtin::Read)
        } else if same_text(name, "readonly") {
            Some(Builtin::Readonly)
        } else if same_text(name, "return") {
            Some(Builtin::Return)
        } else if same_text(name, "set") {
            Some(Builtin::SetOpts)
        } else if same_text(name, "shift") {
            Some(Builtin::Shift)
        } else if same_text(name, "test") {
            Some(Builtin::Test)
        } else if same_text(name, "times") {
            Some(Builtin::Times)
        } else if same_text(name, "trap") {
            Some(Builtin::Trap)
        } else if same_text(name, "type") {
            Some(Builtin::Type)
        } else if same_text(name, "ulimit") {
            Some(Builtin::Ulimit)
        } else if same_text(name, "umask") {
            Some(Builtin::Umask)
        } else if same_text(name, "unalias") {
            Some(Builtin::Unalias)
        } else if same_text(name, "unset") {
            Some(Builtin::Unset)
        } else if same_text(name, "wait") {
            Some(Builtin::Wait)
        } else {
            None
        }
    }

    /// The name under which the builtin is reported.
    pub(crate) fn name(&self) -> (r: &'static str) {
        match self {
            Builtin::Colon => ":",
            Builtin::Dot => ".",
            Builtin::Alias => "alias",
            Builtin::Bind => "bind",
            Builtin::Builtin => "builtin",
            Builtin::Caller => "caller",
            Builtin::Command => "command",
            Builtin::Declare => "declare",
            Builtin::Echo => "echo",
            Builtin::Enable => "enable",
            Builtin::Help => "help",
            Builtin::Let => "let",
            Builtin::Local => "local",
            Builtin::Logout => "logout",
            Builtin::Mapfile => "mapfile",
            Builtin::Printf => "printf",
            Builtin::Readarray => "readarray",
            Builtin::Source => "source",
            Builtin::Shopt => "shopt",
            Builtin::Bg => "bg",
            Builtin::Break => "break",
            Builtin::Cd => "cd",
            Builtin::Continue => "continue",
            Builtin::Eval => "eval",
            Builtin::Exec => "exec",
            Builtin::Exit => "exit",
            Builtin::Export => "export",
            Builtin::Fc => "fc",
            Builtin::Fg => "fg",
            Builtin::Getopts => "getopts",
            Builtin::Hash => "hash",
            Builtin::Jobs => "jobs",
            Builtin::Kill => "kill",
            Builtin::Pwd => "pwd",
            Builtin::Read => "read",
            Builtin::Readonly => "readonly",
            Builtin::Return => "return",
            Builtin::SetOpts => "set",
            Builtin::Shift => "shift",
            Builtin::Test => "test",
            Builtin::Times => "times",
            Builtin::Trap => "trap",
            Builtin::Type => "type",
            Builtin::Ulimit => "ulimit",
            Builtin::Umask => "umask",
            Builtin::Unalias => "unalias",
            Builtin::Unset => "unset",
            Builtin::Wait => "wait",
        }
    }
}

/// What a command word was found to name when the tree was built.
#[derive(Debug, Clone, PartialEq, Eq)]
pub enum CmdName {
    Builtin(Builtin),
    /// A word with a path separator: a file to run.
    Path(String),
    /// An alias, with the text it stands for.
    Alias(String),
    /// A function, with its body.
    Function(String),
    /// Any other word: a program to look up on the search path.
    Unknown(String),
}

} // verus!
