//! The persistent store: a single SQLite table mapping each key (`channel`)
//! to at most one value (`msg`). The table is reached through a few trusted
//! calls into `rusqlite`; everything layered on them is verified against the
//! abstract view [`stored`], a map from key to value.

use vstd::prelude::*;

verus! {

#[verifier::external_type_specification]
#[verifier::external_body]
pub struct ExConnection(rusqlite::Connection);

/// The rows of the `msgs` table reachable through a connection, as a map
/// from key to value. An absent table holds no rows, so it is the empty map.
/// The model reads the rows as belonging to the connection, so it relies on
/// the process holding a single connection to a given database, as the
/// server does: a second handle on the same file would not see writes made
/// through the first.
pub uninterp spec fn stored(conn: rusqlite::Connection) -> Map<Seq<char>, Seq<char>>;

/// What can go wrong when touching the store: the key has no row, or the
/// engine failed (disk or connection trouble).
#[derive(Clone, Copy, Debug, PartialEq, Eq, Structural)]
pub enum StoreError {
    NotFound,
    Io,
}

/// Relies on `rusqlite::Connection::open`: opens the SQLite database at
/// `path`, creating the file if it is absent. A database holds finitely
/// many rows.
#[verifier::external_body]
fn open_connection(path: &str) -> (r: Result<rusqlite::Connection, StoreError>)
    ensures
        r matches Ok(conn) ==> stored(conn).dom().finite(),
        r matches Err(e) ==> e == StoreError::Io,
{
    match rusqlite::Connection::open(path) {
        Ok(c) => Ok(c),
        Err(_) => Err(StoreError::Io),
    }
}

/// Relies on `rusqlite::Connection::execute` running
/// `CREATE TABLE IF NOT EXISTS`: the statement makes the `msgs` table when
/// it is missing and never touches existing rows.
#[verifier::external_body]
fn create_table(conn: &mut rusqlite::Connection) -> (r: Result<(), StoreError>)
    ensures
        stored(*final(conn)) == stored(*old(conn)),
        r matches Err(e) ==> e == StoreError::Io,
{
    match conn.execute(
        "CREATE TABLE IF NOT EXISTS msgs (
            channel TEXT PRIMARY KEY,
            msg TEXT
        )",
        (),
    ) {
        Ok(_) => Ok(()),
        Err(_) => Err(StoreError::Io),
    }
}

/// Relies on `rusqlite::Connection::execute` running `INSERT OR REPLACE`
/// keyed by the primary key `channel`: on success the table holds exactly
/// one row for the key, carrying the new value; a failed statement is rolled
/// back by SQLite and leaves the table as it was.
#[verifier::external_body]
fn insert_or_replace(conn: &mut rusqlite::Connection, key: &str, value: &str) -> (r: Result<
    (),
    StoreError,
>)
    ensures
        r is Ok ==> stored(*final(conn)) == stored(*old(conn)).insert(key@, value@),
        r is Err ==> stored(*final(conn)) == stored(*old(conn)),
        r matches Err(e) ==> e == StoreError::Io,
{
    match conn.execute(
        "INSERT OR REPLACE INTO msgs (channel, msg) VALUES (?1, ?2)",
        (key, value),
    ) {
        Ok(_) => Ok(()),
        Err(_) => Err(StoreError::Io),
    }
}

/// Relies on `rusqlite::Connection::query_row` running `SELECT` by the
/// primary key: it hands back the row's value when the key has one, and
/// fails with `QueryReturnedNoRows` exactly when it has none.
#[verifier::external_body]
fn select_value(conn: &rusqlite::Connection, key: &str) -> (r: Result<String, StoreError>)
    ensures
        r matches Ok(v) ==> stored(*conn).contains_key(key@) && v@ == stored(*conn)[key@],
        r matches Err(e) && e == StoreError::NotFound ==> !stored(*conn).contains_key(key@),
        !stored(*conn).contains_key(key@) ==> !(r is Ok),
        r matches Err(e) ==> (stored(*conn).contains_key(key@) ==> e == StoreError::Io),
{
    match conn.query_row("SELECT msg FROM msgs WHERE channel = ?", [key], |row| row.get(0)) {
        Ok(v) => Ok(v),
        Err(rusqlite::Error::QueryReturnedNoRows) => Err(StoreError::NotFound),
        Err(_) => Err(StoreError::Io),
    }
}

/// Relies on `rusqlite::Connection::query_row` running `SELECT COUNT(*)`:
/// the number of rows of the `msgs` table, which holds one row per stored
/// key.
#[verifier::external_body]
fn count_rows(conn: &rusqlite::Connection) -> (r: Result<i64, StoreError>)
    ensures
        r matches Ok(n) ==> stored(*conn).dom().finite() && n == stored(*conn).dom().len() as int,
        r matches Err(e) ==> e == StoreError::Io,
{
    match conn.query_row("SELECT COUNT(*) FROM msgs", [], |row| row.get(0)) {
        Ok(n) => Ok(n),
        Err(_) => Err(StoreError::Io),
    }
}

/// Relies on `rusqlite::Connection::query_row` running `PRAGMA PAGE_COUNT`:
/// the number of pages in the database file, which SQLite keeps between 0
/// and its hard page limit of 4294967294.
#[verifier::external_body]
fn page_count(conn: &rusqlite::Connection) -> (r: Result<i64, StoreError>)
    ensures
        r matches Ok(n) ==> 0 <= n <= 4294967294,
        r matches Err(e) ==> e == StoreError::Io,
{
    match conn.query_row("PRAGMA PAGE_COUNT", [], |row| row.get(0)) {
        Ok(n) => Ok(n),
        Err(_) => Err(StoreError::Io),
    }
}

/// Relies on `rusqlite::Connection::query_row` running `PRAGMA PAGE_SIZE`:
/// the page size in bytes, which SQLite keeps between 512 and 65536.
#[verifier::external_body]
fn page_size(conn: &rusqlite::Connection) -> (r: Result<i64, StoreError>)
    ensures
        r matches Ok(n) ==> 512 <= n <= 65536,
        r matches Err(e) ==> e == StoreError::Io,
{
    match conn.query_row("PRAGMA PAGE_SIZE", [], |row| row.get(0)) {
        Ok(n) => Ok(n),
        Err(_) => Err(StoreError::Io),
    }
}

/// The bytes that a store of `count` pages of `size` bytes each occupies on
/// disk: exactly their product, which SQLite's own bounds keep inside `i64`.
pub fn size_of_pages(count: i64, size: i64) -> (r: i64)
    requires
        0 <= count <= 4294967294,
        512 <= size <= 65536,
    ensures
        r == count * size,
{
    assert(count * size <= 4294967294int * 65536int) by (nonlinear_arith)
        requires
            0 <= count <= 4294967294,
            512 <= size <= 65536,
    ;
    assert(count * size >= 0) by (nonlinear_arith)
        requires
            0 <= count,
            512 <= size,
    ;
    count * size
}

/// A handle on the store. Its view is the map of stored entries.
pub struct DB {
    conn: rusqlite::Connection,
}

impl View for DB {
    type V = Map<Seq<char>, Seq<char>>;

    closed spec fn view(&self) -> Map<Seq<char>, Seq<char>> {
        stored(self.conn)
    }
}

impl DB {
    /// Opens the store at `path` (SQLite treats the path `:memory:` as a
    /// fresh in-memory database) and makes sure the `msgs` table exists.
    /// Open each database once per process and share the handle, as the
    /// server does: the contracts read the stored rows as belonging to the
    /// connection (see [`stored`]), which a second handle on the same file
    /// would not honor.
    pub fn new(path: &str) -> (r: Result<DB, StoreError>)
        ensures
            r matches Ok(db) ==> db@.dom().finite(),
            r matches Err(e) ==> e == StoreError::Io,
    {
        let mut conn = match open_connection(path) {
            Ok(c) => c,
            Err(e) => {
                return Err(e);
            },
        };
        match create_table(&mut conn) {
            Ok(()) => Ok(DB { conn }),
            Err(e) => Err(e),
        }
    }

    /// Stores `msg` under `channel`, replacing any earlier value. On failure
    /// the store is unchanged.
    pub fn write(&mut self, channel: &str, msg: &str) -> (r: Result<(), StoreError>)
        ensures
            r is Ok ==> final(self)@ == old(self)@.insert(channel@, msg@),
            r is Err ==> final(self)@ == old(self)@,
            r matches Err(e) ==> e == StoreError::Io,
    {
        insert_or_replace(&mut self.conn, channel, msg)
    }

    /// The value stored under `channel`; `NotFound` exactly when the key has
    /// never been written (or its row is gone), `Io` when the engine failed.
    pub fn read(&self, channel: &str) -> (r: Result<String, StoreError>)
        ensures
            r matches Ok(v) ==> self@.contains_key(channel@) && v@ == self@[channel@],
            r matches Err(e) && e == StoreError::NotFound ==> !self@.contains_key(channel@),
            !self@.contains_key(channel@) ==> !(r is Ok),
            r matches Err(e) ==> (self@.contains_key(channel@) ==> e == StoreError::Io),
    {
        select_value(&self.conn, channel)
    }

    /// How many distinct keys hold a value.
    pub fn num_rows(&self) -> (r: Result<i64, StoreError>)
        ensures
            r matches Ok(n) ==> self@.dom().finite() && n == self@.dom().len() as int,
            r matches Err(e) ==> e == StoreError::Io,
    {
        count_rows(&self.conn)
    }

    /// The store's size on disk in bytes: exactly the page count times the
    /// page size, both as SQLite reports them and within SQLite's own
    /// bounds. The exact product of the two reported values is the contract
    /// of [`size_of_pages`], which this calls.
    pub fn database_size(&self) -> (r: Result<i64, StoreError>)
        ensures
            r matches Ok(n) ==> 0 <= n && exists|pc: int, ps: int|
                0 <= pc <= 4294967294 && 512 <= ps <= 65536 && n == #[trigger] (pc * ps),
            r matches Err(e) ==> e == StoreError::Io,
    {
        let count = match page_count(&self.conn) {
            Ok(n) => n,
            Err(e) => {
                return Err(e);
            },
        };
        let size = match page_size(&self.conn) {
            Ok(n) => n,
            Err(e) => {
                return Err(e);
            },
        };
        let product = size_of_pages(count, size);
        proof {
            let pc = count as int;
            let ps = size as int;
            assert(exists|a: int, b: int|
                0 <= a <= 4294967294 && 512 <= b <= 65536 && product == #[trigger] (a * b)) by {
                assert(0 <= pc <= 4294967294 && 512 <= ps <= 65536 && product == pc * ps);
            }
        }
        Ok(product)
    }
}

} // verus!
