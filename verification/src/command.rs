//! The command lines that the program runs, and the text that a finished command leaves.
use vstd::prelude::*;
use vstd::utf8::{decode_utf8, valid_utf8};

verus! {

/// A command line as the specification sees it.
pub struct CommandModel {
    pub program: Seq<char>,
    pub args: Seq<Seq<char>>,
}

/// A program to run and the arguments to hand it.
#[derive(Debug, Clone)]
pub struct CommandLine {
    pub program: String,
    pub args: Vec<String>,
}

impl View for CommandLine {
    type V = CommandModel;

    open spec fn view(&self) -> CommandModel {
        CommandModel { program: self.program@, args: self.args.deep_view() }
    }
}

/// A command line that runs `program` with the arguments `args`.
pub open spec fn command_model(program: Seq<char>, args: Seq<Seq<char>>) -> CommandModel {
    CommandModel { program, args }
}

/// `program --version`.
pub fn version_query(program: &str) -> (r: CommandLine)
    ensures
        r@ == command_model(program@, seq!["--version"@]),
{
    let mut args: Vec<String> = Vec::new();
    args.push(String::from_str("--version"));
    let r = CommandLine { program: String::from_str(program), args };
    assert(r@.args =~= seq!["--version"@]);
    r
}

/// `program profile list`.
pub fn profile_list(program: &str) -> (r: CommandLine)
    ensures
        r@ == command_model(program@, seq!["profile"@, "list"@]),
{
    let mut args: Vec<String> = Vec::new();
    args.push(String::from_str("profile"));
    args.push(String::from_str("list"));
    let r = CommandLine { program: String::from_str(program), args };
    assert(r@.args =~= seq!["profile"@, "list"@]);
    r
}

/// `program profile select name`.
pub fn profile_select(program: &str, name: &str) -> (r: CommandLine)
    ensures
        r@ == command_model(program@, seq!["profile"@, "select"@, name@]),
{
    let mut args: Vec<String> = Vec::new();
    args.push(String::from_str("profile"));
    args.push(String::from_str("select"));
    args.push(String::from_str(name));
    let r = CommandLine { program: String::from_str(program), args };
    assert(r@.args =~= seq!["profile"@, "select"@, name@]);
    r
}

/// The text that `String::from_utf8_lossy` makes of `bytes`.
pub uninterp spec fn utf8_lossy(bytes: Seq<u8>) -> Seq<char>;

/// Decodes bytes as UTF-8, with U+FFFD for what is not (`String::from_utf8_lossy`).
///
/// Of the result this states its name, and that valid UTF-8 decodes exactly as the
/// documentation says; what replaces an invalid sequence is left unsaid.
#[verifier::external_body]
fn decode_lossy(bytes: &[u8]) -> (r: String)
    ensures
        r@ == utf8_lossy(bytes@),
        valid_utf8(bytes@) ==> r@ == decode_utf8(bytes@),
{
    String::from_utf8_lossy(bytes).into_owned()
}

/// What a finished command printed: its standard output, then its standard error.
pub fn command_output_text(stdout: &[u8], stderr: &[u8]) -> (r: String)
    ensures
        r@ == utf8_lossy(stdout@) + utf8_lossy(stderr@),
        valid_utf8(stdout@) && valid_utf8(stderr@) ==> r@ == decode_utf8(stdout@) + decode_utf8(
            stderr@,
        ),
{
    let mut out = decode_lossy(stdout);
    let err = decode_lossy(stderr);
    out.append(err.as_str());
    out
}

/// What is reported when a command could not be started: `command failed: ` and the reason.
pub fn command_failure_text(reason: &str) -> (r: String)
    ensures
        r@ == "command failed: "@ + reason@,
{
    let mut out = String::from_str("command failed: ");
    out.append(reason);
    out
}

} // verus!
