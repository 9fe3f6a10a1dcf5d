//! The profile store: a SQLite table of server profiles, keyed by the unique
//! server name.
//!
//! The table lives behind a `rusqlite::Connection`. Its contents are modeled
//! by the two uninterpreted functions [`db_rows`] and [`db_ready`], and every
//! statement the store runs goes through one small trusted wrapper whose
//! contract states, over that model, what the statement does. Everything
//! above the wrappers is verified.

use vstd::prelude::*;

use rusqlite::Connection;

use crate::errors::JumpError;
use crate::method::{decode_spec, encode_spec};
use crate::profile::{RowModel, ServerProfile, StoredRow};

verus! {

/// Declares rusqlite's `Connection` so that it can stand in signatures and
/// fields; the verifier sees nothing inside a value of it.
#[verifier::external_type_specification]
#[verifier::external_body]
pub struct ExConnection(Connection);

/// The contents of the `jump_servers` table behind a connection: each stored
/// server name, mapped to the rest of its row (username, address, port,
/// method token).
pub uninterp spec fn db_rows(c: Connection) -> Map<Seq<char>, RowModel>;

/// Whether the `jump_servers` table exists behind the connection.
pub uninterp spec fn db_ready(c: Connection) -> bool;

/// The model of a table with nothing in it.
pub open spec fn empty_rows() -> Map<Seq<char>, RowModel> {
    Map::empty()
}

/// Relies on rusqlite's `Connection::execute` running `CREATE TABLE IF NOT
/// EXISTS`: when the table is absent it is created empty, when it is present
/// it is left untouched, and `server_name` carries a UNIQUE constraint.
#[verifier::external_body]
fn db_create_table(conn: &mut Connection) -> (r: Result<(), JumpError>)
    ensures
        r is Ok ==> db_ready(*final(conn)) && db_rows(*final(conn)) == if db_ready(*old(conn)) {
            db_rows(*old(conn))
        } else {
            empty_rows()
        },
        r is Err ==> (r matches Err(JumpError::StorageUnavailable)) && db_ready(*final(conn))
            == db_ready(*old(conn)) && db_rows(*final(conn)) == db_rows(*old(conn)),
{
    let outcome = conn.execute(
        "create table if not exists jump_servers (id integer primary key, server_name text not null unique, username text not null, server_address text not null, port integer not null, method text not null)",
        [],
    );
    match outcome {
        Ok(_) => Ok(()),
        Err(_) => Err(JumpError::StorageUnavailable),
    }
}

/// Relies on rusqlite's `Connection::execute` running an `INSERT` into
/// `jump_servers`: on success exactly the given row is added; a UNIQUE
/// violation (the only constraint bound values can violate) means the name
/// was already stored and nothing changed; any other failure changes nothing.
#[verifier::external_body]
fn db_insert(conn: &mut Connection, row: &StoredRow) -> (r: Result<(), JumpError>)
    ensures
        r is Ok ==> db_ready(*old(conn)) && !db_rows(*old(conn)).contains_key(row.server_name@)
            && db_ready(*final(conn)) && db_rows(*final(conn)) == db_rows(*old(conn)).insert(
            row.server_name@,
            row.val(),
        ),
        r matches Err(JumpError::DuplicateServerName) ==> db_ready(*old(conn)) && db_rows(
            *old(conn),
        ).contains_key(row.server_name@),
        r is Err ==> (r matches Err(JumpError::DuplicateServerName) || r matches Err(
            JumpError::StorageUnavailable,
        )) && db_ready(*final(conn)) == db_ready(*old(conn)) && db_rows(*final(conn)) == db_rows(
            *old(conn),
        ),
{
    let outcome = conn.execute(
        "INSERT INTO jump_servers (server_name, username, server_address, port, method) values (?1, ?2, ?3, ?4, ?5)",
        (&row.server_name, &row.username, &row.server_address, row.port, &row.method),
    );
    match outcome {
        Ok(_) => Ok(()),
        Err(e) if e.sqlite_error_code() == Some(rusqlite::ErrorCode::ConstraintViolation) => Err(
            JumpError::DuplicateServerName,
        ),
        Err(_) => Err(JumpError::StorageUnavailable),
    }
}

/// Relies on rusqlite's `Connection::execute` running a `DELETE` keyed by
/// `server_name`: on success the named row, if there was one, is gone and the
/// count of deleted rows is returned; on failure nothing changed.
#[verifier::external_body]
fn db_delete(conn: &mut Connection, name: &String) -> (r: Result<usize, JumpError>)
    ensures
        r matches Ok(n) ==> db_ready(*old(conn)) && db_ready(*final(conn)) && db_rows(
            *final(conn),
        ) == db_rows(*old(conn)).remove(name@) && n == if db_rows(*old(conn)).contains_key(name@) {
            1usize
        } else {
            0usize
        },
        r is Err ==> (r matches Err(JumpError::StorageUnavailable)) && db_ready(*final(conn))
            == db_ready(*old(conn)) && db_rows(*final(conn)) == db_rows(*old(conn)),
{
    let outcome = conn.execute("DELETE FROM jump_servers WHERE server_name = ?1", (&name,));
    match outcome {
        Ok(n) => Ok(n),
        Err(_) => Err(JumpError::StorageUnavailable),
    }
}

/// Relies on rusqlite's `Connection::query_row` running a `SELECT` keyed by
/// `server_name`: it returns the stored row when one matches, reports a miss
/// when none does, and changes nothing either way.
#[verifier::external_body]
fn db_select_one(conn: &Connection, name: &String) -> (r: Result<StoredRow, JumpError>)
    ensures
        r matches Ok(row) ==> db_ready(*conn) && db_rows(*conn).contains_key(name@)
            && row.server_name@ == name@ && db_rows(*conn)[name@] == row.val(),
        r matches Err(JumpError::ServerNotFound) ==> db_ready(*conn) && !db_rows(
            *conn,
        ).contains_key(name@),
        r is Err ==> r matches Err(JumpError::ServerNotFound) || r matches Err(
            JumpError::StorageUnavailable,
        ),
{
    let outcome = conn.query_row(
        "SELECT server_name, username, server_address, port, method FROM jump_servers where server_name = ?1",
        (&name,),
        |rw| Ok(StoredRow { server_name: rw.get(0)?, username: rw.get(1)?, server_address: rw.get(2)?, port: rw.get(3)?, method: rw.get(4)? }),
    );
    match outcome {
        Ok(row) => Ok(row),
        Err(rusqlite::Error::QueryReturnedNoRows) => Err(JumpError::ServerNotFound),
        Err(_) => Err(JumpError::StorageUnavailable),
    }
}

/// Relies on rusqlite's `Statement::query_map` running a full `SELECT` over
/// `jump_servers`: on success it returns every stored row exactly once, in
/// some storage-defined order, and changes nothing.
#[verifier::external_body]
fn db_select_all(conn: &Connection) -> (r: Result<Vec<StoredRow>, JumpError>)
    ensures
        r matches Ok(v) ==> db_ready(*conn) && db_rows(*conn).dom().finite() && v@.len() == db_rows(
            *conn,
        ).dom().len() && (forall|k: int|
            0 <= k < v@.len() ==> db_rows(*conn).contains_key((#[trigger] v@[k]).server_name@)
                && db_rows(*conn)[v@[k].server_name@] == v@[k].val()) && (forall|k1: int, k2: int|
            0 <= k1 < k2 < v@.len() ==> v@[k1].server_name@ != v@[k2].server_name@),
        r is Err ==> r matches Err(JumpError::StorageUnavailable),
{
    let run = || -> Result<Vec<StoredRow>, rusqlite::Error> {
        let mut stmt = conn.prepare("SELECT server_name, username, server_address, port, method FROM jump_servers")?;
        let rows = stmt.query_map([], |rw| Ok(StoredRow { server_name: rw.get(0)?, username: rw.get(1)?, server_address: rw.get(2)?, port: rw.get(3)?, method: rw.get(4)? }))?;
        rows.collect()
    };
    run().map_err(|_| JumpError::StorageUnavailable)
}

/// The registry of server profiles, over one open database connection.
pub struct JumpStore {
    conn: Connection,
}

impl JumpStore {
    /// The stored table, modeled as a map from server name to the rest of the
    /// row (username, address, port, method token).
    pub closed spec fn rows(self) -> Map<Seq<char>, RowModel> {
        db_rows(self.conn)
    }

    /// Whether the backing table has been created.
    pub closed spec fn ready(self) -> bool {
        db_ready(self.conn)
    }

    /// Wraps an open database connection as a profile store.
    pub fn attach(conn: Connection) -> (s: JumpStore)
        ensures
            s.rows() == db_rows(conn),
            s.ready() == db_ready(conn),
    {
        JumpStore { conn }
    }

    /// Idempotently creates the backing table. Calling it on an initialized
    /// store changes nothing; on a fresh one it leaves an empty table.
    pub fn initialize(&mut self) -> (r: Result<(), JumpError>)
        ensures
            r is Ok ==> final(self).ready() && final(self).rows() == if old(self).ready() {
                old(self).rows()
            } else {
                empty_rows()
            },
            r is Err ==> (r matches Err(JumpError::StorageUnavailable)) && final(self).ready()
                == old(self).ready() && final(self).rows() == old(self).rows(),
    {
        db_create_table(&mut self.conn)
    }

    /// Adds a new profile. A name that is already stored is rejected with
    /// `DuplicateServerName`, and a rejected add changes nothing.
    pub fn add(&mut self, profile: &ServerProfile) -> (r: Result<(), JumpError>)
        requires
            profile.wf(),
        ensures
            r is Ok ==> old(self).ready() && !old(self).rows().contains_key(profile.server_name@)
                && final(self).ready() && final(self).rows() == old(self).rows().insert(
                profile.server_name@,
                (profile.username@, profile.server_address@, profile.port, encode_spec(
                    profile.method@,
                )),
            ),
            r matches Err(JumpError::DuplicateServerName) ==> old(self).rows().contains_key(
                profile.server_name@,
            ),
            old(self).rows().contains_key(profile.server_name@) ==> r matches Err(
                JumpError::DuplicateServerName,
            ) || r matches Err(JumpError::StorageUnavailable),
            r is Err ==> (r matches Err(JumpError::DuplicateServerName) || r matches Err(
                JumpError::StorageUnavailable,
            )) && final(self).ready() == old(self).ready() && final(self).rows() == old(
                self,
            ).rows(),
    {
        let row = profile.to_row();
        db_insert(&mut self.conn, &row)
    }

    /// Removes the named profile. Removing an absent name succeeds and is
    /// observably a no-op, so deleting is idempotent.
    pub fn remove(&mut self, server_name: &String) -> (r: Result<(), JumpError>)
        ensures
            r is Ok ==> old(self).ready() && final(self).ready() && final(self).rows() == old(
                self,
            ).rows().remove(server_name@),
            r is Ok && !old(self).rows().contains_key(server_name@) ==> final(self).rows() == old(
                self,
            ).rows(),
            r is Err ==> (r matches Err(JumpError::StorageUnavailable)) && final(self).ready()
                == old(self).ready() && final(self).rows() == old(self).rows(),
    {
        match db_delete(&mut self.conn, server_name) {
            Ok(_) => {
                proof {
                    if !old(self).rows().contains_key(server_name@) {
                        assert(old(self).rows().remove(server_name@) =~= old(self).rows());
                    }
                }
                Ok(())
            },
            Err(e) => Err(e),
        }
    }

    /// Looks up the named profile and decodes its stored method token. An
    /// absent name is reported as `ServerNotFound`; a stored token with no
    /// colon as `MalformedCredentialToken`.
    pub fn get(&self, server_name: &String) -> (r: Result<ServerProfile, JumpError>)
        ensures
            r matches Ok(p) ==> self.rows().contains_key(server_name@) && p.server_name@
                == server_name@ && p.username@ == self.rows()[server_name@].0 && p.server_address@
                == self.rows()[server_name@].1 && p.port == self.rows()[server_name@].2
                && decode_spec(self.rows()[server_name@].3) == Some(p.method@),
            r matches Err(JumpError::ServerNotFound) ==> self.ready() && !self.rows().contains_key(
                server_name@,
            ),
            !self.rows().contains_key(server_name@) ==> r matches Err(JumpError::ServerNotFound)
                || r matches Err(JumpError::StorageUnavailable),
            r matches Err(JumpError::MalformedCredentialToken) ==> self.rows().contains_key(
                server_name@,
            ) && decode_spec(self.rows()[server_name@].3) is None,
            r is Err ==> r matches Err(JumpError::ServerNotFound) || r matches Err(
                JumpError::MalformedCredentialToken,
            ) || r matches Err(JumpError::StorageUnavailable),
    {
        match db_select_one(&self.conn, server_name) {
            Ok(row) => ServerProfile::from_row(&row),
            Err(e) => Err(e),
        }
    }

    /// Returns every stored profile, decoded, in storage order. A single
    /// malformed stored token fails the whole listing.
    pub fn list(&self) -> (r: Result<Vec<ServerProfile>, JumpError>)
        ensures
            r matches Ok(v) ==> self.ready() && self.rows().dom().finite() && v@.len()
                == self.rows().dom().len() && (forall|k: int|
                0 <= k < v@.len() ==> self.rows().contains_key((#[trigger] v@[k]).server_name@)
                    && v@[k].username@ == self.rows()[v@[k].server_name@].0
                    && v@[k].server_address@ == self.rows()[v@[k].server_name@].1 && v@[k].port
                    == self.rows()[v@[k].server_name@].2 && decode_spec(
                    self.rows()[v@[k].server_name@].3,
                ) == Some(v@[k].method@)) && (forall|k1: int, k2: int|
                0 <= k1 < k2 < v@.len() ==> v@[k1].server_name@ != v@[k2].server_name@),
            r matches Err(JumpError::MalformedCredentialToken) ==> exists|name: Seq<char>|
                self.rows().contains_key(name) && decode_spec(#[trigger] self.rows()[name].3)
                    is None,
            r is Err ==> r matches Err(JumpError::MalformedCredentialToken) || r matches Err(
                JumpError::StorageUnavailable,
            ),
    {
        let raw = match db_select_all(&self.conn) {
            Ok(raw) => raw,
            Err(e) => {
                return Err(e);
            },
        };
        let mut decoded: Vec<ServerProfile> = Vec::new();
        let mut i: usize = 0;
        while i < raw.len()
            invariant
                i <= raw.len(),
                decoded@.len() == i,
                db_ready(self.conn),
                db_rows(self.conn).dom().finite(),
                raw@.len() == db_rows(self.conn).dom().len(),
                forall|k: int|
                    0 <= k < raw@.len() ==> db_rows(self.conn).contains_key(
                        (#[trigger] raw@[k]).server_name@,
                    ) && db_rows(self.conn)[raw@[k].server_name@] == raw@[k].val(),
                forall|k1: int, k2: int|
                    0 <= k1 < k2 < raw@.len() ==> raw@[k1].server_name@ != raw@[k2].server_name@,
                forall|k: int|
                    0 <= k < i ==> (#[trigger] decoded@[k]).server_name@ == raw@[k].server_name@
                        && decoded@[k].username@ == raw@[k].username@ && decoded@[k].server_address@
                        == raw@[k].server_address@ && decoded@[k].port == raw@[k].port
                        && decode_spec(raw@[k].method@) == Some(decoded@[k].method@),
            decreases raw.len() - i,
        {
            match ServerProfile::from_row(&raw[i]) {
                Ok(p) => {
                    decoded.push(p);
                },
                Err(_) => {
                    proof {
                        let witness = raw@[i as int].server_name@;
                        assert(self.rows().contains_key(witness) && decode_spec(
                            self.rows()[witness].3,
                        ) is None);
                    }
                    return Err(JumpError::MalformedCredentialToken);
                },
            }
            i = i + 1;
        }
        Ok(decoded)
    }
}

/// The idempotent-delete law over the store model: removing a name that is
/// not stored changes nothing, and removing a name twice leaves exactly what
/// removing it once leaves.
pub proof fn lemma_remove_idempotent(rows: Map<Seq<char>, RowModel>, name: Seq<char>)
    ensures
        !rows.contains_key(name) ==> rows.remove(name) == rows,
        rows.remove(name).remove(name) == rows.remove(name),
{
    if !rows.contains_key(name) {
        assert(rows.remove(name) =~= rows);
    }
    assert(rows.remove(name).remove(name) =~= rows.remove(name));
}

} // verus!
