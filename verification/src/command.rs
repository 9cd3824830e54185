//! Programs that the engine asks its caller to run, and what came of them.

use vstd::prelude::*;
use crate::error::{EngineError, ErrorView, Tool};
use crate::text::{text_of, utf8_text};

verus! {

/// A program to launch: its name, its arguments, what is added to its
/// environment, and the descriptors that are handed down to it.
#[derive(Debug, Clone, PartialEq, Eq)]
pub struct Invocation {
    pub program: String,
    pub args: Vec<String>,
    /// Variables set in the child's environment, each as name and value.
    pub env: Vec<(String, String)>,
    /// Descriptors duplicated in the child before it starts the program:
    /// the first of each pair onto the second.
    pub inherit: Vec<(i32, i32)>,
}

/// What an [`Invocation`] stands for.
pub struct InvocationView {
    pub program: Seq<char>,
    pub args: Seq<Seq<char>>,
    pub env: Seq<(Seq<char>, Seq<char>)>,
    pub inherit: Seq<(i32, i32)>,
}

/// The strings of `words`, each by its view.
pub open spec fn words_view(words: Seq<String>) -> Seq<Seq<char>> {
    words.map_values(|w: String| w@)
}

/// The pairs of `pairs`, each string by its view.
pub open spec fn pairs_view(pairs: Seq<(String, String)>) -> Seq<(Seq<char>, Seq<char>)> {
    pairs.map_values(|p: (String, String)| (p.0@, p.1@))
}

impl View for Invocation {
    type V = InvocationView;

    open spec fn view(&self) -> InvocationView {
        InvocationView {
            program: self.program@,
            args: words_view(self.args@),
            env: pairs_view(self.env@),
            inherit: self.inherit@,
        }
    }
}

/// A launch of `program` with `args`, with nothing added to the environment
/// and no descriptor handed down.
pub open spec fn plain_call(program: Seq<char>, args: Seq<Seq<char>>) -> InvocationView {
    InvocationView { program, args, env: Seq::empty(), inherit: Seq::empty() }
}

/// The words of a command line, joined by single spaces after the program's
/// name.
pub open spec fn joined(words: Seq<Seq<char>>) -> Seq<char>
    decreases words.len(),
{
    if words.len() == 0 {
        Seq::empty()
    } else {
        joined(words.drop_last()) + seq![' '] + words.last()
    }
}

/// A command as it is shown in messages: the program, then each argument
/// after a space.
pub open spec fn command_line(call: InvocationView) -> Seq<char> {
    call.program + joined(call.args)
}

/// Appends a copy of `word` to `words`.
pub fn push_word(words: &mut Vec<String>, word: &str)
    ensures
        words_view(final(words)@) == words_view(old(words)@).push(word@),
{
    words.push(String::from_str(word));
    assert(words_view(words@) =~= words_view(old(words)@).push(word@));
}

impl Invocation {
    /// A launch of `program` without arguments.
    pub fn new(program: &str) -> (r: Invocation)
        ensures
            r@ == plain_call(program@, Seq::empty()),
    {
        let r = Invocation {
            program: String::from_str(program),
            args: Vec::new(),
            env: Vec::new(),
            inherit: Vec::new(),
        };
        assert(words_view(r.args@) =~= Seq::empty());
        assert(pairs_view(r.env@) =~= Seq::empty());
        assert(r.inherit@ =~= Seq::empty());
        r
    }

    /// Adds one argument.
    pub fn arg(&mut self, word: &str)
        ensures
            final(self)@ == (InvocationView { args: old(self)@.args.push(word@), ..old(self)@ }),
    {
        push_word(&mut self.args, word);
    }

    /// The command as it is shown in messages.
    pub fn display(&self) -> (r: String)
        ensures
            r@ == command_line(self@),
    {
        let mut line = self.program.clone();
        let mut i: usize = 0;
        proof {
            reveal_strlit(" ");
        }
        while i < self.args.len()
            invariant
                i <= self.args.len(),
                line@ == self.program@ + joined(words_view(self.args@).take(i as int)),
            decreases self.args.len() - i,
        {
            line.append(" ");
            line.append(self.args[i].as_str());
            proof {
                reveal_strlit(" ");
                let words = words_view(self.args@);
                assert(words.take(i + 1).drop_last() =~= words.take(i as int));
                assert(words.take(i + 1).last() == self.args@[i as int]@);
                assert(line@ =~= self.program@ + joined(words.take(i + 1)));
            }
            i += 1;
        }
        assert(words_view(self.args@).take(i as int) =~= words_view(self.args@));
        line
    }
}

/// How a program that was run to its end came out.
#[derive(Debug, Clone, PartialEq, Eq)]
pub struct Output {
    /// Whether it exited with status zero.
    pub success: bool,
    pub stdout: Vec<u8>,
    pub stderr: Vec<u8>,
}

/// How the failure of `tool` is told: with the command line of `call` and
/// with what the tool wrote to its standard error, or, where that is not
/// text, by saying that it is not.
pub open spec fn tool_failure(tool: Tool, call: InvocationView, stderr: Seq<u8>) -> ErrorView {
    match text_of(stderr) {
        Some(text) => ErrorView::ToolFailed { tool, command: command_line(call), stderr: text },
        None => ErrorView::InvalidUtf8,
    }
}

/// What came of running `call`: what the program wrote to its standard
/// output if it exited with success, and the failure of `tool` if it did not.
pub fn exec_command(tool: Tool, call: &Invocation, output: Output) -> (r: Result<
    Vec<u8>,
    EngineError,
>)
    ensures
        output.success <==> r is Ok,
        r matches Ok(stdout) ==> stdout@ == output.stdout@,
        r matches Err(e) ==> e@ == tool_failure(tool, call@, output.stderr@),
{
    if output.success {
        Ok(output.stdout)
    } else {
        match utf8_text(output.stderr.as_slice()) {
            Some(stderr) => Err(EngineError::ToolFailed { tool, command: call.display(), stderr }),
            None => Err(EngineError::InvalidUtf8),
        }
    }
}

} // verus!
