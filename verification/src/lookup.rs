//! The user lookup operation: derives the per-user storage location from the
//! base and the username, opens a connection to it, runs one fixed query with
//! the username bound as a parameter, and decodes the row into a `User`.

use vstd::prelude::*;
use vstd::string::StringExecFns;

use crate::metadata::User;

verus! {

#[verifier::external_type_specification]
#[verifier::external_body]
pub struct ExConnection(rusqlite::Connection);

#[verifier::external_type_specification]
#[verifier::external_body]
pub struct ExSqlError(rusqlite::Error);

/// A recoverable failure of one lookup. Unlike a configuration failure, none
/// of these is fatal: each is returned to the caller.
#[derive(Clone, Copy, Debug, PartialEq, Eq)]
pub enum LookupError {
    /// The per-user storage unit could not be opened.
    ConnectionFailed,
    /// The lookup statement could not be prepared or executed there.
    QueryFailed,
    /// A row was found, but its identifier column is negative and so outside
    /// the unsigned identifier space; the offending value is carried along.
    InvalidId(i64),
}

impl LookupError {
    /// The diagnostic text for this failure.
    pub fn message(&self) -> (r: &'static str)
        ensures
            *self is ConnectionFailed ==> r@ == "Unable to open user database"@,
            *self is QueryFailed ==> r@ == "Unable to prepare SQL"@,
            *self is InvalidId ==> r@ == "User ID is negative"@,
    {
        match self {
            LookupError::ConnectionFailed => "Unable to open user database",
            LookupError::QueryFailed => "Unable to prepare SQL",
            LookupError::InvalidId(_) => "User ID is negative",
        }
    }
}

/// The storage location of one user's unit: the base location with the
/// username appended.
pub fn user_db_path(base: &str, name: &str) -> (r: String)
    ensures
        r@ == base@ + name@,
{
    String::from_str(base).concat(name)
}

/// The one statement a lookup executes. The username is not part of it: it
/// travels only as the value bound to the single placeholder.
pub open spec fn user_query_sql_spec() -> Seq<char> {
    "SELECT user_id, username, avatar FROM Users WHERE username = ?1;"@
}

/// The lookup statement as text.
pub fn user_query_sql() -> (r: &'static str)
    ensures
        r@ == user_query_sql_spec(),
{
    "SELECT user_id, username, avatar FROM Users WHERE username = ?1;"
}

/// The statement a lookup prepares is one fixed text holding a single bound
/// placeholder and no quote character, whatever the username: caller-supplied
/// characters are never part of the SQL the store executes.
pub proof fn lemma_query_text_fixed()
    ensures
        user_query_sql_spec().len() == 64,
        forall|i: int|
            0 <= i < user_query_sql_spec().len() ==> user_query_sql_spec()[i] != '\'',
{
    reveal_strlit("SELECT user_id, username, avatar FROM Users WHERE username = ?1;");
}

/// Relies on rusqlite::Connection::open: opens (creating it when absent) the
/// database at the given path, with rusqlite's default flags.
#[verifier::external_body]
fn open_connection(path: &str) -> (r: Result<rusqlite::Connection, rusqlite::Error>) {
    rusqlite::Connection::open(path)
}

/// Relies on rusqlite::Connection::query_row: prepares the given statement,
/// binds the username as its single parameter (never splicing it into the
/// text), and maps the first resulting row. Hands back the identifier and
/// avatar columns of that row, `None` when no row matches, and the error when
/// preparation or execution fails.
#[verifier::external_body]
fn query_user_row(conn: &rusqlite::Connection, sql: &str, name: &str) -> (r: Result<
    Option<(i64, String)>,
    rusqlite::Error,
>)
    requires
        sql@ == user_query_sql_spec(),
{
    let row = conn.query_row(sql, (name,), |row| Ok((row.get(0)?, row.get(2)?)));
    match row {
        Ok(columns) => Ok(Some(columns)),
        Err(rusqlite::Error::QueryReturnedNoRows) => Ok(None),
        Err(e) => Err(e),
    }
}

/// Maps one raw result row to a `User`: the name is the caller's own input,
/// the identifier is the row's 64-bit signed identifier widened to unsigned —
/// rejected as a typed decode failure when negative — and the avatar is taken
/// verbatim.
pub fn decode_user_row<'a>(name: &'a str, id: i64, avatar: String) -> (r: Result<
    User<'a>,
    LookupError,
>)
    ensures
        match r {
            Ok(u) => id >= 0 && u.name@ == name@ && u.id == id as u64 && u.avatar@ == avatar@,
            Err(e) => id < 0 && e == LookupError::InvalidId(id),
        },
{
    if id < 0 {
        Err(LookupError::InvalidId(id))
    } else {
        Ok(User { name, id: id as u64, avatar })
    }
}

/// Resolves a username against the per-user storage unit at `<base><name>`:
/// `Ok(Some)` with the decoded record of the first matching row, `Ok(None)`
/// when no row matches, and a typed error when the unit cannot be opened, the
/// statement fails, or the row's identifier does not decode.
pub fn get_user<'a>(base: &str, name: &'a str) -> (r: Result<Option<User<'a>>, LookupError>)
    ensures
        match r {
            Ok(Some(u)) => u.name@ == name@ && u.id <= i64::MAX as u64,
            Ok(None) => true,
            Err(e) => e matches LookupError::InvalidId(id) ==> id < 0,
        },
{
    let path = user_db_path(base, name);
    let connection = match open_connection(path.as_str()) {
        Ok(c) => c,
        Err(_) => {
            return Err(LookupError::ConnectionFailed);
        },
    };
    match query_user_row(&connection, user_query_sql(), name) {
        Ok(Some((id, avatar))) => match decode_user_row(name, id, avatar) {
            Ok(user) => Ok(Some(user)),
            Err(e) => Err(e),
        },
        Ok(None) => Ok(None),
        Err(_) => Err(LookupError::QueryFailed),
    }
}

} // verus!
