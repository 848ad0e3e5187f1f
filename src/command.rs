//! The values handed back to the editor: a launch command, or the error that
//! says no server is known under an identifier.

use vstd::prelude::*;
use vstd::string::StringExecFns;

verus! {

/// The text that opens the message of an unknown-server error.
pub const UNKNOWN_SERVER_PREFIX: &'static str = "unknown language server: ";

/// What a launch command denotes: the program to run, its arguments in
/// order, and the environment variables set for it, in order.
pub struct CommandView {
    pub command: Seq<char>,
    pub args: Seq<Seq<char>>,
    pub env: Seq<(Seq<char>, Seq<char>)>,
}

/// How the editor is to start a language server process.
#[derive(Clone, Debug, PartialEq, Eq)]
pub struct CommandDescriptor {
    /// Path of the executable.
    pub command: String,
    /// Arguments passed to the executable, in order.
    pub args: Vec<String>,
    /// Environment variables set for the process, as (name, value) pairs.
    pub env: Vec<(String, String)>,
}

impl View for CommandDescriptor {
    type V = CommandView;

    open spec fn view(&self) -> CommandView {
        CommandView { command: self.command@, args: self.args.deep_view(), env: self.env.deep_view() }
    }
}

/// The message shown to the user when no server is known as `id`.
pub open spec fn unknown_server_message(id: Seq<char>) -> Seq<char> {
    UNKNOWN_SERVER_PREFIX@ + id
}

/// No language server is known under the identifier that it carries.
#[derive(Clone, Debug, PartialEq, Eq)]
pub struct UnknownServerError {
    pub server_id: String,
}

impl View for UnknownServerError {
    type V = Seq<char>;

    /// The identifier that was asked for.
    open spec fn view(&self) -> Seq<char> {
        self.server_id@
    }
}

impl UnknownServerError {
    /// The error for the identifier `server_id`.
    pub fn new(server_id: &str) -> (r: Self)
        ensures
            r@ == server_id@,
    {
        UnknownServerError { server_id: server_id.to_owned() }
    }

    /// The human-readable message for the editor to display.
    pub fn message(&self) -> (r: String)
        ensures
            r@ == unknown_server_message(self@),
    {
        UNKNOWN_SERVER_PREFIX.to_owned().concat(self.server_id.as_str())
    }
}

/// The message names the identifier verbatim, right after the prefix.
pub proof fn lemma_message_contains_identifier(id: Seq<char>)
    ensures
        unknown_server_message(id).subrange(
            UNKNOWN_SERVER_PREFIX@.len() as int,
            unknown_server_message(id).len() as int,
        ) == id,
        exists|i: int|
            0 <= i && i + id.len() <= unknown_server_message(id).len()
                && #[trigger] unknown_server_message(id).subrange(i, i + id.len()) == id,
{
    let m = unknown_server_message(id);
    let p = UNKNOWN_SERVER_PREFIX@.len() as int;
    assert(m.subrange(p, m.len() as int) =~= id);
    assert(m.subrange(p, p + id.len()) == id);
}

} // verus!
