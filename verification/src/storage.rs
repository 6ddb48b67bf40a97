//! Where the client keeps its token: one system-keyring entry per server.

use vstd::prelude::*;
use crate::text::{push_text, string_of};

verus! {

/// The keyring service the client's entries belong to.
pub const SERVICE_NAME: &'static str = "wingbird-cli";

/// The prefix of an entry's user name.
pub const TOKEN_KEY: &'static str = "auth_token";

/// The user name of the entry holding the token for `server`.
pub open spec fn entry_user(server: Seq<char>) -> Seq<char> {
    TOKEN_KEY@ + "-"@ + server
}

/// A keyring entry: its service and user name.
#[derive(Debug)]
pub struct KeyringEntry {
    pub service: String,
    pub user: String,
}

/// What to do with a keyring entry.
#[derive(Debug)]
pub enum KeyringOp {
    /// Store this secret.
    Store { secret: String },
    /// Read the secret.
    Get,
    /// Remove the entry, ignoring whether that succeeds.
    Delete,
}

/// An operation on the entry of one server.
#[derive(Debug)]
pub struct KeyringRequest {
    pub entry: KeyringEntry,
    pub op: KeyringOp,
}

/// What reading an entry gave.
#[derive(Debug)]
pub enum KeyringOutcome {
    /// The stored secret.
    Found(String),
    /// No such entry.
    NoEntry,
    /// The keyring failed, with its message.
    Failed(String),
}

/// A keyring failure, with the keyring's message.
#[derive(Debug)]
pub struct StorageError {
    pub message: String,
}

/// Whether `e` is the entry for `server`.
pub open spec fn entry_of(e: KeyringEntry, server: Seq<char>) -> bool {
    e.service@ == SERVICE_NAME@ && e.user@ == entry_user(server)
}

/// The entry for `server`.
pub fn entry(server: &str) -> (res: KeyringEntry)
    ensures
        entry_of(res, server@),
{
    let mut user = string_of(TOKEN_KEY);
    push_text(&mut user, "-");
    push_text(&mut user, server);
    KeyringEntry { service: string_of(SERVICE_NAME), user }
}

/// Storing `token` as the token for `server`.
pub fn save_token(server: &str, token: &str) -> (res: KeyringRequest)
    ensures
        entry_of(res.entry, server@),
        res.op matches KeyringOp::Store { secret } && secret@ == token@,
{
    KeyringRequest { entry: entry(server), op: KeyringOp::Store { secret: string_of(token) } }
}

/// Reading the token for `server`.
pub fn get_token(server: &str) -> (res: KeyringRequest)
    ensures
        entry_of(res.entry, server@),
        res.op is Get,
{
    KeyringRequest { entry: entry(server), op: KeyringOp::Get }
}

/// Removing the token for `server`.
pub fn delete_token(server: &str) -> (res: KeyringRequest)
    ensures
        entry_of(res.entry, server@),
        res.op is Delete,
{
    KeyringRequest { entry: entry(server), op: KeyringOp::Delete }
}

/// The stored token, `None` when there is none, or the keyring's failure.
pub fn stored_token(outcome: KeyringOutcome) -> (res: Result<Option<String>, StorageError>)
    ensures
        match outcome {
            KeyringOutcome::Found(t) => res == Ok::<Option<String>, StorageError>(Some(t)),
            KeyringOutcome::NoEntry => res == Ok::<Option<String>, StorageError>(None),
            KeyringOutcome::Failed(m) => (res matches Err(e) && e.message == m),
        },
{
    match outcome {
        KeyringOutcome::Found(t) => Ok(Some(t)),
        KeyringOutcome::NoEntry => Ok(None),
        KeyringOutcome::Failed(message) => Err(StorageError { message }),
    }
}

/// Saving, reading and removing the token of one server all address the same
/// keyring entry.
pub proof fn lemma_one_entry_per_server(server: Seq<char>, a: KeyringEntry, b: KeyringEntry)
    requires
        entry_of(a, server),
        entry_of(b, server),
    ensures
        a.service@ == b.service@,
        a.user@ == b.user@,
{
}

/// Different servers have different keyring entries, so one server's token
/// never stands for another's.
pub proof fn lemma_entries_distinct(s1: Seq<char>, s2: Seq<char>)
    requires
        s1 != s2,
    ensures
        entry_user(s1) != entry_user(s2),
{
    let p = TOKEN_KEY@ + "-"@;
    assert(entry_user(s1) == p + s1);
    assert(entry_user(s2) == p + s2);
    if entry_user(s1) == entry_user(s2) {
        assert((p + s1).subrange(p.len() as int, (p + s1).len() as int) =~= s1);
        assert((p + s2).subrange(p.len() as int, (p + s2).len() as int) =~= s2);
    }
}

} // verus!
