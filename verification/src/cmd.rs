//! The command to run after a certificate has been written.

use vstd::prelude::*;

verus! {

/// A program and its arguments.
#[derive(Debug, PartialEq, Eq)]
pub struct Cmd {
    cmd: String,
    args: Vec<String>,
}

/// Why a command line gives no command.
#[derive(Clone, Copy, Debug, PartialEq, Eq, Structural)]
pub enum CmdError {
    /// A quote is opened and never closed.
    MissingClosingQuote,
    /// The line holds no word at all.
    NoProgram,
}

/// What a `Cmd` holds.
pub struct CmdView {
    pub program: Seq<char>,
    pub args: Seq<Seq<char>>,
}

/// The command that a list of words is: the first word is the program, the
/// others are its arguments. A list without words is no command.
pub open spec fn command_of_words(words: Seq<Seq<char>>) -> Result<CmdView, CmdError> {
    if words.len() == 0 {
        Err(CmdError::NoProgram)
    } else {
        Ok(CmdView { program: words[0], args: words.skip(1) })
    }
}

/// The command that a line is, given the words that it splits into.
pub open spec fn command_of_split(split: Option<Seq<Seq<char>>>) -> Result<CmdView, CmdError> {
    match split {
        Some(words) => command_of_words(words),
        None => Err(CmdError::MissingClosingQuote),
    }
}

impl CmdError {
    /// The message for the log.
    pub open spec fn text(self) -> Seq<char> {
        match self {
            CmdError::MissingClosingQuote => "missing closing quote"@,
            CmdError::NoProgram => "Unable to parse requested subcommand after certificate fetch."@,
        }
    }

    /// The message for the log.
    pub fn message(&self) -> (m: String)
        ensures
            m@ == self.text(),
    {
        match self {
            CmdError::MissingClosingQuote => "missing closing quote".to_owned(),
            CmdError::NoProgram => "Unable to parse requested subcommand after certificate fetch.".to_owned(),
        }
    }
}

impl View for Cmd {
    type V = CmdView;

    closed spec fn view(&self) -> CmdView {
        CmdView { program: self.cmd@, args: self.args.deep_view() }
    }
}

impl Cmd {
    /// The command that `input` is when it is split as a shell splits a
    /// line into words.
    pub fn new(input: String) -> (command: Result<Cmd, CmdError>)
        ensures
            match command {
                Ok(c) => command_of_split(split_line(input@)) == Ok::<CmdView, CmdError>(c@),
                Err(e) => command_of_split(split_line(input@)) == Err::<CmdView, CmdError>(e),
            },
    {
        match split_words(input.as_str()) {
            Ok(words) => Cmd::from_words(words),
            Err(_) => Err(CmdError::MissingClosingQuote),
        }
    }

    /// The command that `words` are: the program, then its arguments.
    pub fn from_words(words: Vec<String>) -> (command: Result<Cmd, CmdError>)
        ensures
            match command {
                Ok(c) => command_of_words(words.deep_view()) == Ok::<CmdView, CmdError>(c@),
                Err(e) => command_of_words(words.deep_view()) == Err::<CmdView, CmdError>(e),
            },
    {
        if words.len() == 0 {
            return Err(CmdError::NoProgram);
        }
        let cmd = words[0].clone();
        let mut args: Vec<String> = Vec::new();
        let mut i: usize = 1;
        while i < words.len()
            invariant
                1 <= i <= words.len(),
                args.len() == i - 1,
                forall|j: int| 0 <= j < args.len() ==> (#[trigger] args@[j])@ == words@[j + 1]@,
            decreases words.len() - i,
        {
            args.push(words[i].clone());
            i += 1;
        }
        proof {
            assert(args.deep_view() =~= words.deep_view().skip(1));
        }
        Ok(Cmd { cmd, args })
    }

    /// A copy of the command.
    pub fn duplicate(&self) -> (copy: Cmd)
        ensures
            copy@ == self@,
    {
        let mut args: Vec<String> = Vec::new();
        let mut i: usize = 0;
        while i < self.args.len()
            invariant
                i <= self.args.len(),
                args.len() == i,
                forall|j: int| 0 <= j < i ==> (#[trigger] args@[j])@ == self.args@[j]@,
            decreases self.args.len() - i,
        {
            args.push(self.args[i].clone());
            i += 1;
        }
        proof {
            assert(args.deep_view() =~= self.args.deep_view());
        }
        Cmd { cmd: self.cmd.clone(), args }
    }

    /// The program to start.
    pub fn program(&self) -> (program: &String)
        ensures
            program@ == self@.program,
    {
        &self.cmd
    }

    /// The arguments to hand to the program.
    pub fn args(&self) -> (args: &Vec<String>)
        ensures
            args.deep_view() == self@.args,
    {
        &self.args
    }
}

#[verifier::external_type_specification]
#[verifier::external_body]
pub struct ExSplitError(shell_words::ParseError);

/// The words that `shell_words::split` makes of `line`, where it makes any.
pub uninterp spec fn split_line(line: Seq<char>) -> Option<Seq<Seq<char>>>;

/// Calls `shell_words::split`, which splits a line into words by the quoting
/// rules of a Unix shell and fails on a quote that is never closed. The
/// contract only names the outcome: the line either splits into the words
/// returned or does not split.
#[verifier::external_body]
fn split_words(line: &str) -> (r: Result<Vec<String>, shell_words::ParseError>)
    ensures
        match r {
            Ok(words) => split_line(line@) == Some(words.deep_view()),
            Err(_) => split_line(line@) is None,
        },
{
    shell_words::split(line)
}

} // verus!
