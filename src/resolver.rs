//! Maps a language-server identifier to the command that starts it.

use vstd::prelude::*;
use crate::command::{CommandDescriptor, CommandView, UnknownServerError, unknown_server_message};

verus! {

/// The one identifier this extension serves.
pub const TJS_SERVER_ID: &'static str = "tjs";

/// Where the `tjs` language server binary is expected.
///
/// This is an absolute path on one developer's machine, not a location the
/// server is installed to in general; elsewhere the editor will fail to
/// start it. Reading the location from settings, or finding the binary on
/// `PATH`, would remove that dependency.
pub const TJS_SERVER_PATH: &'static str = "/Users/manne/dev/tjs/lang-server";

/// The flag that makes the server speak the protocol over stdin and stdout.
pub const STDIO_FLAG: &'static str = "--stdio";

/// The command that starts the `tjs` server: its binary, `--stdio`, and no
/// environment variables.
pub open spec fn tjs_command() -> CommandView {
    CommandView { command: TJS_SERVER_PATH@, args: seq![STDIO_FLAG@], env: seq![] }
}

/// What resolving `id` gives: the `tjs` command for `"tjs"`, and for every
/// other identifier an error that carries it.
pub open spec fn resolve(id: Seq<char>) -> Result<CommandView, Seq<char>> {
    if id == TJS_SERVER_ID@ {
        Ok(tjs_command())
    } else {
        Err(id)
    }
}

/// A resolver result seen through the views of its descriptor and its error.
pub open spec fn result_view(r: Result<CommandDescriptor, UnknownServerError>) -> Result<
    CommandView,
    Seq<char>,
> {
    match r {
        Ok(c) => Ok(c@),
        Err(e) => Err(e@),
    }
}

/// The extension: stateless, it answers each request on its own.
#[derive(Clone, Copy, Debug, PartialEq, Eq, Structural)]
pub struct TjsTypecheckerExtension;

impl TjsTypecheckerExtension {
    /// A new extension; it holds no state.
    pub fn new() -> (r: Self) {
        TjsTypecheckerExtension
    }

    /// The command that starts the language server named `language_server_id`.
    ///
    /// For `"tjs"` this is the server binary with the single argument
    /// `--stdio` and an empty environment; any other identifier is an
    /// [`UnknownServerError`] that carries it.
    pub fn language_server_command(&mut self, language_server_id: &str) -> (r: Result<
        CommandDescriptor,
        UnknownServerError,
    >)
        ensures
            result_view(r) == resolve(language_server_id@),
            *final(self) == *old(self),
    {
        let id = language_server_id.to_owned();
        let known = TJS_SERVER_ID.to_owned();
        if id == known {
            let mut args: Vec<String> = Vec::new();
            args.push(STDIO_FLAG.to_owned());
            let env: Vec<(String, String)> = Vec::new();
            let r = CommandDescriptor { command: TJS_SERVER_PATH.to_owned(), args, env };
            assert(r@.args =~= seq![STDIO_FLAG@]);
            assert(r@.env =~= Seq::<(Seq<char>, Seq<char>)>::empty());
            Ok(r)
        } else {
            Err(UnknownServerError::new(language_server_id))
        }
    }
}

/// For `"tjs"` the result is always the same command: the fixed binary, the
/// one argument `--stdio`, and no environment variables.
pub proof fn lemma_tjs_resolves_to_fixed_command()
    ensures
        resolve(TJS_SERVER_ID@) == Ok::<CommandView, Seq<char>>(tjs_command()),
        tjs_command().command == TJS_SERVER_PATH@,
        tjs_command().args == seq![STDIO_FLAG@],
        tjs_command().args.len() == 1,
        tjs_command().env.len() == 0,
{
}

/// Every identifier but `"tjs"` fails, and the failure message holds the
/// identifier verbatim.
pub proof fn lemma_unknown_identifier_fails(id: Seq<char>)
    requires
        id != TJS_SERVER_ID@,
    ensures
        resolve(id) == Err::<CommandView, Seq<char>>(id),
        exists|i: int|
            0 <= i && i + id.len() <= unknown_server_message(id).len()
                && #[trigger] unknown_server_message(id).subrange(i, i + id.len()) == id,
{
    crate::command::lemma_message_contains_identifier(id);
}

/// Two requests for the same identifier get equal answers.
pub proof fn lemma_repeated_requests_agree(
    id: Seq<char>,
    first: Result<CommandDescriptor, UnknownServerError>,
    second: Result<CommandDescriptor, UnknownServerError>,
)
    requires
        result_view(first) == resolve(id),
        result_view(second) == resolve(id),
    ensures
        result_view(first) == result_view(second),
{
}

/// Every identifier, whatever its text, is answered: with the `tjs` command
/// exactly when it is `"tjs"`, and otherwise with an error carrying it.
pub proof fn lemma_every_identifier_answered(id: Seq<char>)
    ensures
        resolve(id) is Ok <==> id == TJS_SERVER_ID@,
        resolve(id) is Ok ==> resolve(id) == Ok::<CommandView, Seq<char>>(tjs_command()),
        resolve(id) is Err ==> resolve(id) == Err::<CommandView, Seq<char>>(id),
{
}

} // verus!
