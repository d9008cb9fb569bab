//! The source resolver, without the process: how a source command becomes a
//! program with arguments, and what the finished process means.
//!
//! The caller starts the program that [`invocation`] names, waits for it and
//! hands what it left to [`fetch_result`].

use crate::error::{ErrorView, HemliError};
use crate::model::SourceType;
use crate::text::{split_whitespace, texts, trim, trimmed, words};
use vstd::prelude::*;
use vstd::string::*;

verus! {

/// A program and the arguments to start it with.
#[derive(Debug, Clone, PartialEq, Eq)]
pub struct Invocation {
    pub program: String,
    pub args: Vec<String>,
}

/// An [`Invocation`] as mathematical values.
pub struct InvocationView {
    pub program: Seq<char>,
    pub args: Seq<Seq<char>>,
}

impl View for Invocation {
    type V = InvocationView;

    open spec fn view(&self) -> InvocationView {
        InvocationView { program: self.program@, args: texts(self.args@) }
    }
}

/// The view of a result that carries an invocation.
pub open spec fn invocation_view(r: Result<Invocation, HemliError>) -> Result<
    InvocationView,
    ErrorView,
> {
    match r {
        Ok(i) => Ok(i@),
        Err(e) => Err(e@),
    }
}

/// The view of a result that carries text.
pub open spec fn text_result_view(r: Result<String, HemliError>) -> Result<Seq<char>, ErrorView> {
    match r {
        Ok(s) => Ok(s@),
        Err(e) => Err(e@),
    }
}

/// How `command` is run. As a shell line it is the one argument of `sh -c`,
/// untouched. As a direct command its first word is the program and the other
/// words are the arguments; a command without words fails.
pub open spec fn invoked(command: Seq<char>, source_type: SourceType) -> Result<
    InvocationView,
    ErrorView,
> {
    match source_type {
        SourceType::Sh => Ok(InvocationView { program: "sh"@, args: seq!["-c"@, command] }),
        SourceType::Cmd => {
            let parts = words(command);
            if parts.len() == 0 {
                Err(ErrorView::SourceFailed("empty command"@))
            } else {
                Ok(InvocationView { program: parts[0], args: parts.skip(1) })
            }
        },
    }
}

/// What a finished source command gives: its output without the whitespace
/// around it where it succeeded; otherwise a failure that carries the exit
/// status and what the command wrote to standard error, trimmed the same way.
pub open spec fn fetched(
    success: bool,
    status: Seq<char>,
    stdout: Seq<char>,
    stderr: Seq<char>,
) -> Result<Seq<char>, ErrorView> {
    if success {
        Ok(trimmed(stdout))
    } else {
        Err(ErrorView::SourceFailed("command exited with "@ + status + ": "@ + trimmed(stderr)))
    }
}

/// The text that `String::from_utf8_lossy` reads in `bytes`.
pub uninterp spec fn lossy_text(bytes: Seq<u8>) -> Seq<char>;

/// Reads bytes as text with `String::from_utf8_lossy`.
///
/// Trusted: the text depends on the bytes alone.
#[verifier::external_body]
fn utf8_lossy(bytes: &[u8]) -> (r: String)
    ensures
        r@ == lossy_text(bytes@),
{
    String::from_utf8_lossy(bytes).into_owned()
}

/// The program to start for `command`, and its arguments.
pub fn invocation(command: &str, source_type: &SourceType) -> (r: Result<Invocation, HemliError>)
    ensures
        invocation_view(r) == invoked(command@, *source_type),
{
    match source_type {
        SourceType::Sh => {
            let mut args: Vec<String> = Vec::new();
            args.push(String::from_str("-c"));
            args.push(command.to_owned());
            proof {
                assert(texts(args@) =~= seq!["-c"@, command@]);
            }
            Ok(Invocation { program: String::from_str("sh"), args })
        },
        SourceType::Cmd => {
            let mut parts = split_whitespace(command);
            if parts.len() == 0 {
                return Err(HemliError::SourceFailed(String::from_str("empty command")));
            }
            let ghost all = parts@;
            let program = parts.remove(0);
            proof {
                assert(texts(parts@) =~= texts(all).skip(1));
            }
            Ok(Invocation { program, args: parts })
        },
    }
}

/// What a finished source command gives, from text: whether it succeeded,
/// its exit status as shown to the user, and what it wrote to standard output
/// and standard error.
pub fn fetch_result_text(success: bool, status: &str, stdout: &str, stderr: &str) -> (r: Result<
    String,
    HemliError,
>)
    ensures
        text_result_view(r) == fetched(success, status@, stdout@, stderr@),
{
    if !success {
        let mut m = String::from_str("command exited with ");
        m.append(status);
        m.append(": ");
        let err = trim(stderr);
        m.append(err.as_str());
        return Err(HemliError::SourceFailed(m));
    }
    Ok(trim(stdout))
}

/// What a finished source command gives, from the bytes it wrote. Bytes that
/// are no valid UTF-8 are read as `String::from_utf8_lossy` reads them.
pub fn fetch_result(success: bool, status: &str, stdout: &[u8], stderr: &[u8]) -> (r: Result<
    String,
    HemliError,
>)
    ensures
        text_result_view(r) == fetched(success, status@, lossy_text(stdout@), lossy_text(stderr@)),
{
    if success {
        let out = utf8_lossy(stdout);
        fetch_result_text(true, status, out.as_str(), "")
    } else {
        let err = utf8_lossy(stderr);
        fetch_result_text(false, status, "", err.as_str())
    }
}

} // verus!
