//! The command line as a shell would have to be given it: what verbose mode
//! shows before an installer is run.

use vstd::prelude::*;
use vstd::string::StringExecFns;

verus! {

/// The line in which `shell_words::join` quotes and joins `words`, so that a
/// Unix shell reading the line would split it into `words` again. How a word
/// is quoted is the choice of that crate, and is not stated here.
pub uninterp spec fn shell_joined(words: Seq<Seq<char>>) -> Seq<char>;

/// Calls `shell_words::join` on `words`. The call quotes each word with
/// `shell_words::quote` and puts single spaces between them; its result
/// depends on the words alone. Nothing of this was proved: the contract
/// gives the result its name and claims no more.
#[verifier::external_body]
fn shell_join(words: &Vec<String>) -> (line: String)
    ensures
        line@ == shell_joined(words.deep_view()),
{
    shell_words::join(words)
}

/// A program's name, a space, and its arguments already joined.
pub open spec fn command_text(program: Seq<char>, joined: Seq<char>) -> Seq<char> {
    program + seq![' '] + joined
}

/// The line that shows `program` called with arguments that were joined into
/// `joined`.
pub fn command_line(program: &str, joined: &str) -> (line: String)
    ensures
        line@ == command_text(program@, joined@),
{
    let mut line = String::from_str(program);
    proof {
        reveal_strlit(" ");
    }
    line.append(" ");
    line.append(joined);
    assert(line@ =~= command_text(program@, joined@));
    line
}

/// The line that shows `program` called with `args`, each quoted for the
/// shell where it needs to be.
pub fn invocation_line(program: &str, args: &Vec<String>) -> (line: String)
    ensures
        line@ == command_text(program@, shell_joined(args.deep_view())),
{
    let joined = shell_join(args);
    command_line(program, joined.as_str())
}

} // verus!
