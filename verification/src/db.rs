//! The persistence layer: named presets and the setting catalog in an
//! embedded SQLite database, reached through rusqlite.
//!
//! The store is modelled by three maps: the preset header rows, the
//! preset key/value rows, and the catalog rows. Each names the contents
//! of one table of the connection's database, the empty map where the
//! table does not exist. Every SQL statement the layer issues sits in one
//! trusted wrapper whose contract states the statement's effect on these
//! maps; everything above the wrappers is verified.

use vstd::prelude::*;
use rusqlite::OptionalExtension;
use crate::models::{Setting, SettingValueType, ValueTypeView, SettingsPreset};
use crate::strutil::{pairs_to_map, distinct_keys, seq_char_le, upsert_pair};

verus! {

#[verifier::external_type_specification]
#[verifier::external_body]
pub struct ExConnection(rusqlite::Connection);

#[verifier::external_type_specification]
#[verifier::external_body]
pub struct ExSqlError(rusqlite::Error);

/// The header rows of the presets table: id to (name, description,
/// created_at); empty where the table does not exist.
pub uninterp spec fn preset_rows(c: rusqlite::Connection) -> Map<
    i64,
    (Seq<char>, Seq<char>, Seq<char>),
>;

/// The rows of the preset_settings table: (preset id, setting name) to
/// value; empty where the table does not exist.
pub uninterp spec fn preset_setting_rows(c: rusqlite::Connection) -> Map<
    (i64, Seq<char>),
    Seq<char>,
>;

/// One stored catalog row's columns: description, value-type tag, default
/// value, minimum, maximum, impact, serialized options.
pub type CatalogRowV = (
    Seq<char>,
    Seq<char>,
    Seq<char>,
    Option<Seq<char>>,
    Option<Seq<char>>,
    Seq<char>,
    Option<Seq<char>>,
);

/// The rows of the settings catalog table, keyed by (section, name);
/// empty where the table does not exist.
pub uninterp spec fn catalog_rows(c: rusqlite::Connection) -> Map<
    (Seq<char>, Seq<char>),
    CatalogRowV,
>;

/// The presets table as it stood when the connection's open transaction
/// began; where no transaction is open it equals the current rows, since
/// there is nothing to roll back to.
pub uninterp spec fn tx_preset_rows(c: rusqlite::Connection) -> Map<
    i64,
    (Seq<char>, Seq<char>, Seq<char>),
>;

/// The preset_settings table at the open transaction's start; the
/// current rows where no transaction is open.
pub uninterp spec fn tx_preset_setting_rows(c: rusqlite::Connection) -> Map<
    (i64, Seq<char>),
    Seq<char>,
>;

/// The settings catalog table at the open transaction's start; the
/// current rows where no transaction is open.
pub uninterp spec fn tx_catalog_rows(c: rusqlite::Connection) -> Map<
    (Seq<char>, Seq<char>),
    CatalogRowV,
>;

/// The settings map a preset id holds in the store.
pub open spec fn preset_settings_of(c: rusqlite::Connection, id: i64) -> Map<Seq<char>, Seq<char>> {
    Map::new(
        |k: Seq<char>| preset_setting_rows(c).dom().contains((id, k)),
        |k: Seq<char>| preset_setting_rows(c)[(id, k)],
    )
}

/// The preset key/value rows with the rows of one preset id replaced by
/// a given settings map.
pub open spec fn with_preset_settings(
    m: Map<(i64, Seq<char>), Seq<char>>,
    id: i64,
    sm: Map<Seq<char>, Seq<char>>,
) -> Map<(i64, Seq<char>), Seq<char>> {
    Map::new(
        |p: (i64, Seq<char>)|
            if p.0 == id {
                sm.dom().contains(p.1)
            } else {
                m.dom().contains(p)
            },
        |p: (i64, Seq<char>)|
            if p.0 == id {
                sm[p.1]
            } else {
                m[p]
            },
    )
}

/// An error of the persistence layer.
#[derive(Debug)]
pub enum DbError {
    /// No row matches the requested id.
    NotFound,
    /// The underlying database reported an error.
    Sqlite(rusqlite::Error),
}

// ------------------------------------------------------------------
// Trusted wrappers, one SQL statement each.
// ------------------------------------------------------------------

/// Relies on rusqlite's Connection::execute_batch running `BEGIN`:
/// opening a transaction changes no rows and fixes the snapshot a later
/// rollback returns to; a failed `BEGIN` changes no rows either.
#[verifier::external_body]
fn begin_tx(conn: &mut rusqlite::Connection) -> (r: Result<(), rusqlite::Error>)
    ensures
        preset_rows(*final(conn)) == preset_rows(*old(conn)),
        preset_setting_rows(*final(conn)) == preset_setting_rows(*old(conn)),
        catalog_rows(*final(conn)) == catalog_rows(*old(conn)),
        r is Ok ==> {
            &&& tx_preset_rows(*final(conn)) == preset_rows(*old(conn))
            &&& tx_preset_setting_rows(*final(conn)) == preset_setting_rows(*old(conn))
            &&& tx_catalog_rows(*final(conn)) == catalog_rows(*old(conn))
        },
{
    conn.execute_batch("BEGIN;")
}

/// Relies on rusqlite's Connection::execute_batch running `COMMIT`: a
/// successful commit keeps the rows this connection already sees. A
/// failed one may leave the transaction rolled back, so nothing is
/// claimed of the rows then; the snapshot stands, for either the
/// transaction is still open at the same start point, or it was rolled
/// back and the rows themselves reverted to it.
#[verifier::external_body]
fn commit_tx(conn: &mut rusqlite::Connection) -> (r: Result<(), rusqlite::Error>)
    ensures
        r is Ok ==> {
            &&& preset_rows(*final(conn)) == preset_rows(*old(conn))
            &&& preset_setting_rows(*final(conn)) == preset_setting_rows(*old(conn))
            &&& catalog_rows(*final(conn)) == catalog_rows(*old(conn))
        },
        r is Err ==> {
            &&& tx_preset_rows(*final(conn)) == tx_preset_rows(*old(conn))
            &&& tx_preset_setting_rows(*final(conn)) == tx_preset_setting_rows(*old(conn))
            &&& tx_catalog_rows(*final(conn)) == tx_catalog_rows(*old(conn))
        },
{
    conn.execute_batch("COMMIT;")
}

/// Relies on rusqlite's Connection::execute_batch running `ROLLBACK`:
/// an open transaction's writes are undone, leaving each table as it
/// stood when the transaction began; without an open transaction the
/// statement fails and changes nothing, and the rows already equal that
/// snapshot.
#[verifier::external_body]
fn rollback_tx(conn: &mut rusqlite::Connection)
    ensures
        preset_rows(*final(conn)) == tx_preset_rows(*old(conn)),
        preset_setting_rows(*final(conn)) == tx_preset_setting_rows(*old(conn)),
        catalog_rows(*final(conn)) == tx_catalog_rows(*old(conn)),
{
    let _ = conn.execute_batch("ROLLBACK;");
}

/// Relies on rusqlite's Connection::execute running one
/// `CREATE TABLE IF NOT EXISTS presets ...`: an existing table is kept,
/// a new one is empty, and no other table is touched.
#[verifier::external_body]
fn create_presets_table(conn: &mut rusqlite::Connection) -> (r: Result<usize, rusqlite::Error>)
    ensures
        preset_rows(*final(conn)) == preset_rows(*old(conn)),
        preset_setting_rows(*final(conn)) == preset_setting_rows(*old(conn)),
        catalog_rows(*final(conn)) == catalog_rows(*old(conn)),
        tx_preset_rows(*final(conn)) == tx_preset_rows(*old(conn)),
        tx_preset_setting_rows(*final(conn)) == tx_preset_setting_rows(*old(conn)),
        tx_catalog_rows(*final(conn)) == tx_catalog_rows(*old(conn)),
{
    let sql = "CREATE TABLE IF NOT EXISTS presets (id INTEGER PRIMARY KEY, name TEXT NOT NULL, description TEXT, created_at TEXT NOT NULL)";
    conn.execute(sql, ())
}

/// Relies on rusqlite's Connection::execute running one
/// `CREATE TABLE IF NOT EXISTS preset_settings ...`: an existing table is
/// kept, a new one is empty, and no other table is touched.
#[verifier::external_body]
fn create_preset_settings_table(conn: &mut rusqlite::Connection) -> (r: Result<
    usize,
    rusqlite::Error,
>)
    ensures
        preset_rows(*final(conn)) == preset_rows(*old(conn)),
        preset_setting_rows(*final(conn)) == preset_setting_rows(*old(conn)),
        catalog_rows(*final(conn)) == catalog_rows(*old(conn)),
        tx_preset_rows(*final(conn)) == tx_preset_rows(*old(conn)),
        tx_preset_setting_rows(*final(conn)) == tx_preset_setting_rows(*old(conn)),
        tx_catalog_rows(*final(conn)) == tx_catalog_rows(*old(conn)),
{
    let sql = "CREATE TABLE IF NOT EXISTS preset_settings (preset_id INTEGER, setting_name TEXT NOT NULL, setting_value TEXT NOT NULL, PRIMARY KEY (preset_id, setting_name), FOREIGN KEY (preset_id) REFERENCES presets(id) ON DELETE CASCADE)";
    conn.execute(sql, ())
}

/// Relies on rusqlite's Connection::query_row running one
/// `INSERT INTO presets ... RETURNING id`: SQLite assigns a rowid no
/// existing row holds, inserts exactly the given row under it, and
/// returns it; no other table is touched.
#[verifier::external_body]
fn insert_preset_returning_id(
    conn: &mut rusqlite::Connection,
    name: &str,
    description: &str,
    created_at: &str,
) -> (r: Result<i64, rusqlite::Error>)
    ensures
        match r {
            Ok(id) => !preset_rows(*old(conn)).dom().contains(id) && preset_rows(*final(conn))
                == preset_rows(*old(conn)).insert(id, (name@, description@, created_at@)),
            Err(_) => preset_rows(*final(conn)) == preset_rows(*old(conn)),
        },
        preset_setting_rows(*final(conn)) == preset_setting_rows(*old(conn)),
        catalog_rows(*final(conn)) == catalog_rows(*old(conn)),
        tx_preset_rows(*final(conn)) == tx_preset_rows(*old(conn)),
        tx_preset_setting_rows(*final(conn)) == tx_preset_setting_rows(*old(conn)),
        tx_catalog_rows(*final(conn)) == tx_catalog_rows(*old(conn)),
{
    let sql = "INSERT INTO presets (name, description, created_at) VALUES (?1, ?2, ?3) RETURNING id";
    conn.query_row(sql, (name, description, created_at), |row| row.get(0))
}

/// Relies on rusqlite's Connection::execute running one
/// `UPDATE presets SET name, description WHERE id`: the matched row keeps
/// its created_at; a missing id changes nothing; no other table is
/// touched.
#[verifier::external_body]
fn update_preset_row(
    conn: &mut rusqlite::Connection,
    id: i64,
    name: &str,
    description: &str,
) -> (r: Result<usize, rusqlite::Error>)
    ensures
        match r {
            Ok(_) => preset_rows(*final(conn)) == (if preset_rows(*old(conn)).dom().contains(id) {
                preset_rows(*old(conn)).insert(
                    id,
                    (name@, description@, preset_rows(*old(conn))[id].2),
                )
            } else {
                preset_rows(*old(conn))
            }),
            Err(_) => preset_rows(*final(conn)) == preset_rows(*old(conn)),
        },
        preset_setting_rows(*final(conn)) == preset_setting_rows(*old(conn)),
        catalog_rows(*final(conn)) == catalog_rows(*old(conn)),
        tx_preset_rows(*final(conn)) == tx_preset_rows(*old(conn)),
        tx_preset_setting_rows(*final(conn)) == tx_preset_setting_rows(*old(conn)),
        tx_catalog_rows(*final(conn)) == tx_catalog_rows(*old(conn)),
{
    conn.execute("UPDATE presets SET name = ?1, description = ?2 WHERE id = ?3", (name, description, id))
}

/// Relies on rusqlite's Connection::execute running one
/// `DELETE FROM preset_settings WHERE preset_id`: exactly that preset's
/// key/value rows go; no other table is touched.
#[verifier::external_body]
fn delete_preset_settings_rows(conn: &mut rusqlite::Connection, id: i64) -> (r: Result<
    usize,
    rusqlite::Error,
>)
    ensures
        match r {
            Ok(_) => preset_setting_rows(*final(conn)) == with_preset_settings(
                preset_setting_rows(*old(conn)),
                id,
                Map::empty(),
            ),
            Err(_) => preset_setting_rows(*final(conn)) == preset_setting_rows(*old(conn)),
        },
        preset_rows(*final(conn)) == preset_rows(*old(conn)),
        catalog_rows(*final(conn)) == catalog_rows(*old(conn)),
        tx_preset_rows(*final(conn)) == tx_preset_rows(*old(conn)),
        tx_preset_setting_rows(*final(conn)) == tx_preset_setting_rows(*old(conn)),
        tx_catalog_rows(*final(conn)) == tx_catalog_rows(*old(conn)),
{
    conn.execute("DELETE FROM preset_settings WHERE preset_id = ?1", (id,))
}

/// Relies on rusqlite's Connection::execute running one
/// `INSERT INTO preset_settings ...`: on success exactly the given row is
/// added; no other table is touched.
#[verifier::external_body]
fn insert_preset_setting_row(
    conn: &mut rusqlite::Connection,
    id: i64,
    name: &str,
    value: &str,
) -> (r: Result<usize, rusqlite::Error>)
    ensures
        match r {
            Ok(_) => preset_setting_rows(*final(conn)) == preset_setting_rows(*old(conn)).insert(
                (id, name@),
                value@,
            ),
            Err(_) => preset_setting_rows(*final(conn)) == preset_setting_rows(*old(conn)),
        },
        preset_rows(*final(conn)) == preset_rows(*old(conn)),
        catalog_rows(*final(conn)) == catalog_rows(*old(conn)),
        tx_preset_rows(*final(conn)) == tx_preset_rows(*old(conn)),
        tx_preset_setting_rows(*final(conn)) == tx_preset_setting_rows(*old(conn)),
        tx_catalog_rows(*final(conn)) == tx_catalog_rows(*old(conn)),
{
    let sql = "INSERT INTO preset_settings (preset_id, setting_name, setting_value) VALUES (?1, ?2, ?3)";
    conn.execute(sql, (id, name, value))
}

/// Relies on rusqlite's Connection::execute running one
/// `DELETE FROM presets WHERE id`: exactly that header row goes; no other
/// table is touched.
#[verifier::external_body]
fn delete_preset_row(conn: &mut rusqlite::Connection, id: i64) -> (r: Result<
    usize,
    rusqlite::Error,
>)
    ensures
        match r {
            Ok(_) => preset_rows(*final(conn)) == preset_rows(*old(conn)).remove(id),
            Err(_) => preset_rows(*final(conn)) == preset_rows(*old(conn)),
        },
        preset_setting_rows(*final(conn)) == preset_setting_rows(*old(conn)),
        catalog_rows(*final(conn)) == catalog_rows(*old(conn)),
        tx_preset_rows(*final(conn)) == tx_preset_rows(*old(conn)),
        tx_preset_setting_rows(*final(conn)) == tx_preset_setting_rows(*old(conn)),
        tx_catalog_rows(*final(conn)) == tx_catalog_rows(*old(conn)),
{
    conn.execute("DELETE FROM presets WHERE id = ?1", (id,))
}

/// Relies on rusqlite's Connection::query_row with `.optional()` running
/// one `SELECT ... FROM presets WHERE id`: the row returned is the stored
/// one, and none comes back exactly when the id is absent.
#[verifier::external_body]
fn select_preset_row(conn: &rusqlite::Connection, id: i64) -> (r: Result<
    Option<(String, String, String)>,
    rusqlite::Error,
>)
    ensures
        match r {
            Ok(Some(t)) => preset_rows(*conn).dom().contains(id) && preset_rows(*conn)[id] == (
                t.0@,
                t.1@,
                t.2@,
            ),
            Ok(None) => !preset_rows(*conn).dom().contains(id),
            Err(_) => true,
        },
{
    let sql = "SELECT name, description, created_at FROM presets WHERE id = ?1";
    conn.query_row(sql, (id,), |row| Ok((row.get(0)?, row.get(1)?, row.get(2)?))).optional()
}

/// Relies on rusqlite's Statement::query_map over one
/// `SELECT setting_name, setting_value FROM preset_settings WHERE
/// preset_id`: the pairs returned are exactly that preset's rows, each
/// name once, in no promised order.
#[verifier::external_body]
fn select_preset_setting_pairs(conn: &rusqlite::Connection, id: i64) -> (r: Result<
    Vec<(String, String)>,
    rusqlite::Error,
>)
    ensures
        match r {
            Ok(v) => distinct_keys(v.deep_view()) && pairs_to_map(v.deep_view())
                == preset_settings_of(*conn, id),
            Err(_) => true,
        },
{
    let sql = "SELECT setting_name, setting_value FROM preset_settings WHERE preset_id = ?1";
    let mut stmt = conn.prepare(sql)?;
    let rows = stmt.query_map((id,), |row| Ok((row.get(0)?, row.get(1)?)))?;
    rows.collect()
}

/// Relies on rusqlite's Statement::query_map over one
/// `SELECT id, name, description, created_at FROM presets ORDER BY name`:
/// every header row comes back once, as stored, sorted by name in
/// SQLite's byte order, which on UTF-8 text is the code-point order.
#[verifier::external_body]
fn select_preset_headers(conn: &rusqlite::Connection) -> (r: Result<
    Vec<(i64, String, String, String)>,
    rusqlite::Error,
>)
    ensures
        match r {
            Ok(v) => {
                &&& forall|i: int, j: int|
                    0 <= i < j < v.deep_view().len() ==> v.deep_view()[i].0 != v.deep_view()[j].0
                &&& forall|i: int|
                    0 <= i < v.deep_view().len() ==> preset_rows(*conn).dom().contains(
                        #[trigger] v.deep_view()[i].0,
                    ) && preset_rows(*conn)[v.deep_view()[i].0] == (
                        v.deep_view()[i].1,
                        v.deep_view()[i].2,
                        v.deep_view()[i].3,
                    )
                &&& forall|id: i64|
                    preset_rows(*conn).dom().contains(id) ==> exists|i: int|
                        0 <= i < v.deep_view().len() && #[trigger] v.deep_view()[i].0 == id
                &&& forall|i: int, j: int|
                    0 <= i < j < v.deep_view().len() ==> seq_char_le(
                        v.deep_view()[i].1,
                        v.deep_view()[j].1,
                    )
            },
            Err(_) => true,
        },
{
    let sql = "SELECT id, name, description, created_at FROM presets ORDER BY name";
    let mut stmt = conn.prepare(sql)?;
    let rows = stmt.query_map((), |row| Ok((row.get(0)?, row.get(1)?, row.get(2)?, row.get(3)?)))?;
    rows.collect()
}


/// One catalog row as fetched from the store.
pub struct CatalogRowData {
    pub name: String,
    pub section: String,
    pub description: String,
    pub value_type: String,
    pub default_value: String,
    pub min_value: Option<String>,
    pub max_value: Option<String>,
    pub impact: String,
    pub possible_values: Option<String>,
}

/// The (section, name) key of a fetched catalog row.
pub open spec fn key_of(r: CatalogRowData) -> (Seq<char>, Seq<char>) {
    (r.section@, r.name@)
}

/// The stored columns of a fetched catalog row.
pub open spec fn columns_of(r: CatalogRowData) -> CatalogRowV {
    (
        r.description@,
        r.value_type@,
        r.default_value@,
        r.min_value.deep_view(),
        r.max_value.deep_view(),
        r.impact@,
        r.possible_values.deep_view(),
    )
}

/// The order of catalog keys: by section, then by name.
pub open spec fn catalog_key_le(a: (Seq<char>, Seq<char>), b: (Seq<char>, Seq<char>)) -> bool {
    if a.0 == b.0 {
        seq_char_le(a.1, b.1)
    } else {
        seq_char_le(a.0, b.0)
    }
}

/// Relies on rusqlite's Statement::query_map over one
/// `SELECT ... FROM settings ORDER BY section, name`: every catalog row
/// comes back once, as stored, sorted by section then name in SQLite's
/// byte order, which on UTF-8 text is the code-point order.
#[verifier::external_body]
fn select_catalog_rows(conn: &rusqlite::Connection) -> (r: Result<
    Vec<CatalogRowData>,
    rusqlite::Error,
>)
    ensures
        match r {
            Ok(v) => {
                &&& forall|i: int, j: int|
                    0 <= i < j < v@.len() ==> key_of(v@[i]) !== key_of(v@[j])
                &&& forall|i: int|
                    0 <= i < v@.len() ==> catalog_rows(*conn).dom().contains(
                        #[trigger] key_of(v@[i]),
                    ) && catalog_rows(*conn)[key_of(v@[i])] == columns_of(v@[i])
                &&& forall|key: (Seq<char>, Seq<char>)|
                    catalog_rows(*conn).dom().contains(key) ==> exists|i: int|
                        0 <= i < v@.len() && #[trigger] key_of(v@[i]) == key
                &&& forall|i: int, j: int|
                    0 <= i < j < v@.len() ==> catalog_key_le(key_of(v@[i]), key_of(v@[j]))
            },
            Err(_) => true,
        },
{
    let sql = "SELECT name, section, description, value_type, default_value, min_value, max_value, impact, possible_values FROM settings ORDER BY section, name";
    let mut stmt = conn.prepare(sql)?;
    let rows = stmt.query_map((), |row| {
        Ok(CatalogRowData { name: row.get(0)?, section: row.get(1)?, description: row.get(2)?, value_type: row.get(3)?, default_value: row.get(4)?, min_value: row.get(5)?, max_value: row.get(6)?, impact: row.get(7)?, possible_values: row.get(8)? })
    })?;
    rows.collect()
}

/// Relies on rusqlite's Connection::execute running one
/// `UPDATE settings SET ... WHERE section AND name`: the matched row is
/// rewritten, a missing key changes nothing, and (section, name) being
/// unique at most one row matches; no other table is touched.
#[verifier::external_body]
fn update_catalog_row(
    conn: &mut rusqlite::Connection,
    section: &str,
    name: &str,
    description: &str,
    value_type: &str,
    default_value: &str,
    min_value: &Option<String>,
    max_value: &Option<String>,
    impact: &str,
    possible_values: &Option<String>,
) -> (r: Result<usize, rusqlite::Error>)
    ensures
        match r {
            Ok(count) => {
                if catalog_rows(*old(conn)).dom().contains((section@, name@)) {
                    count == 1 && catalog_rows(*final(conn)) == catalog_rows(*old(conn)).insert(
                        (section@, name@),
                        (
                            description@,
                            value_type@,
                            default_value@,
                            min_value.deep_view(),
                            max_value.deep_view(),
                            impact@,
                            possible_values.deep_view(),
                        ),
                    )
                } else {
                    count == 0 && catalog_rows(*final(conn)) == catalog_rows(*old(conn))
                }
            },
            Err(_) => catalog_rows(*final(conn)) == catalog_rows(*old(conn)),
        },
        preset_rows(*final(conn)) == preset_rows(*old(conn)),
        preset_setting_rows(*final(conn)) == preset_setting_rows(*old(conn)),
        tx_preset_rows(*final(conn)) == tx_preset_rows(*old(conn)),
        tx_preset_setting_rows(*final(conn)) == tx_preset_setting_rows(*old(conn)),
        tx_catalog_rows(*final(conn)) == tx_catalog_rows(*old(conn)),
{
    let sql = "UPDATE settings SET description = ?3, value_type = ?4, default_value = ?5, min_value = ?6, max_value = ?7, impact = ?8, possible_values = ?9 WHERE section = ?1 AND name = ?2";
    conn.execute(sql, (section, name, description, value_type, default_value, min_value, max_value, impact, possible_values))
}

/// Relies on rusqlite's Connection::execute running one
/// `INSERT OR REPLACE INTO settings ...` keyed by the unique
/// (section, name): the row is written whether or not one was there; no
/// other table is touched.
#[verifier::external_body]
pub(crate) fn upsert_catalog_row(
    conn: &mut rusqlite::Connection,
    section: &str,
    name: &str,
    description: &str,
    value_type: &str,
    default_value: &str,
    min_value: &Option<String>,
    max_value: &Option<String>,
    impact: &str,
    possible_values: &Option<String>,
) -> (r: Result<usize, rusqlite::Error>)
    ensures
        match r {
            Ok(_) => catalog_rows(*final(conn)) == catalog_rows(*old(conn)).insert(
                (section@, name@),
                (
                    description@,
                    value_type@,
                    default_value@,
                    min_value.deep_view(),
                    max_value.deep_view(),
                    impact@,
                    possible_values.deep_view(),
                ),
            ),
            Err(_) => catalog_rows(*final(conn)) == catalog_rows(*old(conn)),
        },
        preset_rows(*final(conn)) == preset_rows(*old(conn)),
        preset_setting_rows(*final(conn)) == preset_setting_rows(*old(conn)),
        tx_preset_rows(*final(conn)) == tx_preset_rows(*old(conn)),
        tx_preset_setting_rows(*final(conn)) == tx_preset_setting_rows(*old(conn)),
        tx_catalog_rows(*final(conn)) == tx_catalog_rows(*old(conn)),
{
    let sql = "INSERT OR REPLACE INTO settings (name, section, description, value_type, default_value, min_value, max_value, impact, possible_values) VALUES (?2, ?1, ?3, ?4, ?5, ?6, ?7, ?8, ?9)";
    conn.execute(sql, (section, name, description, value_type, default_value, min_value, max_value, impact, possible_values))
}


/// Relies on rusqlite's Connection::execute running one
/// `CREATE TABLE IF NOT EXISTS settings ...`: an existing catalog table
/// is kept, a new one is empty, and no other table is touched.
#[verifier::external_body]
pub(crate) fn create_catalog_table(conn: &mut rusqlite::Connection) -> (r: Result<usize, rusqlite::Error>)
    ensures
        preset_rows(*final(conn)) == preset_rows(*old(conn)),
        preset_setting_rows(*final(conn)) == preset_setting_rows(*old(conn)),
        catalog_rows(*final(conn)) == catalog_rows(*old(conn)),
        tx_preset_rows(*final(conn)) == tx_preset_rows(*old(conn)),
        tx_preset_setting_rows(*final(conn)) == tx_preset_setting_rows(*old(conn)),
        tx_catalog_rows(*final(conn)) == tx_catalog_rows(*old(conn)),
{
    let sql = "CREATE TABLE IF NOT EXISTS settings (id INTEGER PRIMARY KEY, name TEXT NOT NULL, section TEXT NOT NULL, description TEXT NOT NULL, value_type TEXT NOT NULL, default_value TEXT NOT NULL, min_value TEXT, max_value TEXT, impact TEXT NOT NULL, possible_values TEXT, UNIQUE(section, name))";
    conn.execute(sql, ())
}

/// Opens a transaction; the rows this connection sees do not change,
/// and on success they become the snapshot a rollback returns to.
pub(crate) fn begin_transaction(conn: &mut rusqlite::Connection) -> (r: Result<(), DbError>)
    ensures
        preset_rows(*final(conn)) == preset_rows(*old(conn)),
        preset_setting_rows(*final(conn)) == preset_setting_rows(*old(conn)),
        catalog_rows(*final(conn)) == catalog_rows(*old(conn)),
        r is Ok ==> {
            &&& tx_preset_rows(*final(conn)) == preset_rows(*old(conn))
            &&& tx_preset_setting_rows(*final(conn)) == preset_setting_rows(*old(conn))
            &&& tx_catalog_rows(*final(conn)) == catalog_rows(*old(conn))
        },
{
    match begin_tx(conn) {
        Ok(_) => Ok(()),
        Err(e) => Err(DbError::Sqlite(e)),
    }
}

/// Commits a transaction; on success the rows this connection sees do
/// not change, and on failure the rollback snapshot stands.
pub(crate) fn commit_transaction(conn: &mut rusqlite::Connection) -> (r: Result<(), DbError>)
    ensures
        r is Ok ==> {
            &&& preset_rows(*final(conn)) == preset_rows(*old(conn))
            &&& preset_setting_rows(*final(conn)) == preset_setting_rows(*old(conn))
            &&& catalog_rows(*final(conn)) == catalog_rows(*old(conn))
        },
        r is Err ==> {
            &&& tx_preset_rows(*final(conn)) == tx_preset_rows(*old(conn))
            &&& tx_preset_setting_rows(*final(conn)) == tx_preset_setting_rows(*old(conn))
            &&& tx_catalog_rows(*final(conn)) == tx_catalog_rows(*old(conn))
        },
{
    match commit_tx(conn) {
        Ok(_) => Ok(()),
        Err(e) => Err(DbError::Sqlite(e)),
    }
}

/// Rolls a transaction back: each table reverts to the snapshot taken
/// when the transaction began.
pub(crate) fn rollback_transaction(conn: &mut rusqlite::Connection)
    ensures
        preset_rows(*final(conn)) == tx_preset_rows(*old(conn)),
        preset_setting_rows(*final(conn)) == tx_preset_setting_rows(*old(conn)),
        catalog_rows(*final(conn)) == tx_catalog_rows(*old(conn)),
{
    rollback_tx(conn);
}

// ------------------------------------------------------------------
// JSON for an enumeration's option list, and the current time.
// ------------------------------------------------------------------

/// The JSON array text serde_json writes for a list of strings.
pub uninterp spec fn json_of_strings(v: Seq<Seq<char>>) -> Seq<char>;

/// The list of strings serde_json reads back from a text, where it is
/// a valid JSON array of strings.
pub uninterp spec fn strings_of_json(s: Seq<char>) -> Option<Seq<Seq<char>>>;

/// Relies on serde_json::to_string: serializing a list of strings cannot
/// fail, depends on the list alone, and deserializes back to it.
#[verifier::external_body]
pub(crate) fn json_encode_strings(v: &Vec<String>) -> (r: String)
    ensures
        r@ == json_of_strings(v.deep_view()),
        strings_of_json(r@) == Some(v.deep_view()),
{
    serde_json::to_string(v).unwrap_or_default()
}

/// Relies on serde_json::from_str for `Vec<String>`: the value read
/// depends on the text alone.
#[verifier::external_body]
pub(crate) fn json_decode_strings(s: &str) -> (r: Option<Vec<String>>)
    ensures
        match r {
            Some(v) => strings_of_json(s@) == Some(v.deep_view()),
            None => strings_of_json(s@) is None,
        },
{
    serde_json::from_str::<Vec<String>>(s).ok()
}


// ------------------------------------------------------------------
// The stored form of a value type.
// ------------------------------------------------------------------

/// The tag under which a value type is stored.
pub open spec fn vt_tag(t: ValueTypeView) -> Seq<char> {
    match t {
        ValueTypeView::Boolean => "Boolean"@,
        ValueTypeView::Integer => "Integer"@,
        ValueTypeView::Float => "Float"@,
        ValueTypeView::String => "String"@,
        ValueTypeView::Enum(_) => "Enum"@,
    }
}

/// The serialized option list stored beside the tag: only an
/// enumeration has one.
pub open spec fn vt_possible(t: ValueTypeView) -> Option<Seq<char>> {
    match t {
        ValueTypeView::Enum(options) => Some(json_of_strings(options)),
        _ => Option::None,
    }
}

/// The value type read back from a stored tag and option list: an
/// unknown tag falls back to String, as does an Enum tag without a
/// stored list; an Enum list that fails to decode yields an empty
/// enumeration.
pub open spec fn vt_of_row(tag: Seq<char>, possible: Option<Seq<char>>) -> ValueTypeView {
    if tag == "Boolean"@ {
        ValueTypeView::Boolean
    } else if tag == "Integer"@ {
        ValueTypeView::Integer
    } else if tag == "Float"@ {
        ValueTypeView::Float
    } else if tag == "Enum"@ {
        match possible {
            Some(j) => match strings_of_json(j) {
                Some(options) => ValueTypeView::Enum(options),
                Option::None => ValueTypeView::Enum(Seq::empty()),
            },
            Option::None => ValueTypeView::String,
        }
    } else {
        ValueTypeView::String
    }
}

/// The catalog columns a setting is stored under; the current value is
/// not persisted.
pub open spec fn setting_columns(s: crate::models::SettingView) -> CatalogRowV {
    (
        s.description,
        vt_tag(s.value_type),
        s.default_value,
        s.min_value,
        s.max_value,
        s.impact,
        vt_possible(s.value_type),
    )
}

/// The tag string of a setting's value type.
pub fn value_type_tag(t: &SettingValueType) -> (r: &'static str)
    ensures
        r@ == vt_tag(t.deep_view()),
{
    match t {
        SettingValueType::Boolean => "Boolean",
        SettingValueType::Integer => "Integer",
        SettingValueType::Float => "Float",
        SettingValueType::String => "String",
        SettingValueType::Enum(_) => "Enum",
    }
}

/// The serialized option list of a setting's value type.
pub fn value_type_possible(t: &SettingValueType) -> (r: Option<String>)
    ensures
        r.deep_view() == vt_possible(t.deep_view()),
{
    match t {
        SettingValueType::Enum(options) => Some(json_encode_strings(options)),
        _ => None,
    }
}

/// The value type read back from a stored tag and option list.
pub fn value_type_from_row(tag: &str, possible: &Option<String>) -> (r: SettingValueType)
    ensures
        r.deep_view() == vt_of_row(tag@, possible.deep_view()),
{
    if crate::strutil::str_eq(tag, "Boolean") {
        SettingValueType::Boolean
    } else if crate::strutil::str_eq(tag, "Integer") {
        SettingValueType::Integer
    } else if crate::strutil::str_eq(tag, "Float") {
        SettingValueType::Float
    } else if crate::strutil::str_eq(tag, "Enum") {
        match possible {
            Some(j) => match json_decode_strings(j.as_str()) {
                Some(options) => SettingValueType::Enum(options),
                None => {
                    let empty: Vec<String> = Vec::new();
                    proof {
                        assert(empty.deep_view() =~= Seq::<Seq<char>>::empty());
                    }
                    SettingValueType::Enum(empty)
                },
            },
            None => SettingValueType::String,
        }
    } else {
        SettingValueType::String
    }
}

// ------------------------------------------------------------------
// The verified operations.
// ------------------------------------------------------------------

/// The header row a preset is stored under, given its assigned id.
pub open spec fn preset_header(p: SettingsPreset) -> (Seq<char>, Seq<char>, Seq<char>) {
    (p.name@, p.description@, p.created_at@)
}

/// A loaded preset agrees with what the store holds under an id.
pub open spec fn preset_matches_store(p: SettingsPreset, c: rusqlite::Connection, id: i64) -> bool {
    &&& p.id == Some(id)
    &&& p.wf()
    &&& preset_rows(c).dom().contains(id)
    &&& preset_header(p) == preset_rows(c)[id]
    &&& p.settings_map() == preset_settings_of(c, id)
}

/// What a stored preset leaves in the header and key/value tables: a
/// preset with an id keeps its stored creation time and a missing id
/// changes no header; one without an id sits under the fresh id; either
/// way its key/value rows replace whatever the store held for that id.
pub open spec fn preset_saved(
    before: rusqlite::Connection,
    after: rusqlite::Connection,
    preset: SettingsPreset,
    id: i64,
) -> bool {
    &&& (match preset.id {
        Some(pid) => id == pid && preset_rows(after) == (
        if preset_rows(before).dom().contains(pid) {
            preset_rows(before).insert(
                pid,
                (preset.name@, preset.description@, preset_rows(before)[pid].2),
            )
        } else {
            preset_rows(before)
        }),
        None => !preset_rows(before).dom().contains(id) && preset_rows(after) == preset_rows(
            before,
        ).insert(id, preset_header(preset)),
    })
    &&& preset_setting_rows(after) == with_preset_settings(
        preset_setting_rows(before),
        id,
        preset.settings_map(),
    )
}

/// Writes a preset's header and key/value rows inside the caller's open
/// transaction; it opens none of its own, so a failure leaves the
/// rollback snapshot for the caller.
fn save_preset_rows(conn: &mut rusqlite::Connection, preset: &SettingsPreset) -> (r: Result<
    i64,
    DbError,
>)
    requires
        preset.wf(),
    ensures
        catalog_rows(*final(conn)) == catalog_rows(*old(conn)),
        tx_preset_rows(*final(conn)) == tx_preset_rows(*old(conn)),
        tx_preset_setting_rows(*final(conn)) == tx_preset_setting_rows(*old(conn)),
        tx_catalog_rows(*final(conn)) == tx_catalog_rows(*old(conn)),
        r matches Ok(id) ==> preset_saved(*old(conn), *final(conn), *preset, id),
{
    let id: i64 = match preset.id {
        Some(pid) => {
            match update_preset_row(conn, pid, preset.name.as_str(), preset.description.as_str()) {
                Ok(_) => pid,
                Err(e) => {
                    return Err(DbError::Sqlite(e));
                },
            }
        },
        None => {
            match insert_preset_returning_id(
                conn,
                preset.name.as_str(),
                preset.description.as_str(),
                preset.created_at.as_str(),
            ) {
                Ok(new_id) => new_id,
                Err(e) => {
                    return Err(DbError::Sqlite(e));
                },
            }
        },
    };
    let ghost header_rows = preset_rows(*conn);
    let ghost psr0 = preset_setting_rows(*conn);
    if let Err(e) = delete_preset_settings_rows(conn, id) {
        return Err(DbError::Sqlite(e));
    }
    let ghost pairs = preset.settings.deep_view();
    let n = preset.settings.len();
    let mut i: usize = 0;
    proof {
        assert(pairs_to_map(pairs.subrange(0, 0)) =~= Map::<Seq<char>, Seq<char>>::empty());
        assert(preset_setting_rows(*conn) == with_preset_settings(
            psr0,
            id,
            pairs_to_map(pairs.subrange(0, 0)),
        ));
    }
    while i < n
        invariant
            0 <= i <= n,
            n == preset.settings.len(),
            pairs == preset.settings.deep_view(),
            preset_rows(*conn) == header_rows,
            catalog_rows(*conn) == catalog_rows(*old(conn)),
            tx_preset_rows(*conn) == tx_preset_rows(*old(conn)),
            tx_preset_setting_rows(*conn) == tx_preset_setting_rows(*old(conn)),
            tx_catalog_rows(*conn) == tx_catalog_rows(*old(conn)),
            preset_setting_rows(*conn) == with_preset_settings(
                psr0,
                id,
                pairs_to_map(pairs.subrange(0, i as int)),
            ),
        decreases n - i,
    {
        let name = preset.settings[i].0.as_str();
        let value = preset.settings[i].1.as_str();
        match insert_preset_setting_row(conn, id, name, value) {
            Ok(_) => {
                proof {
                    assert(pairs.subrange(0, i + 1).drop_last() =~= pairs.subrange(0, i as int));
                    assert(pairs.subrange(0, i + 1).last() == pairs[i as int]);
                    assert(with_preset_settings(
                        psr0,
                        id,
                        pairs_to_map(pairs.subrange(0, i as int)),
                    ).insert((id, name@), value@) =~= with_preset_settings(
                        psr0,
                        id,
                        pairs_to_map(pairs.subrange(0, i + 1)),
                    ));
                }
            },
            Err(e) => {
                return Err(DbError::Sqlite(e));
            },
        }
        i += 1;
    }
    proof {
        assert(pairs.subrange(0, n as int) =~= pairs);
    }
    Ok(id)
}

/// Stores a preset: a preset with an id has its name and description
/// rewritten in place, one without is inserted under a fresh id; either
/// way its key/value rows replace whatever the store held for that id,
/// all in one transaction. On an error the transaction is rolled back
/// and every table is exactly as before the call.
pub fn save_preset(conn: &mut rusqlite::Connection, preset: &SettingsPreset) -> (r: Result<
    i64,
    DbError,
>)
    requires
        preset.wf(),
    ensures
        match r {
            Ok(id) => preset_saved(*old(conn), *final(conn), *preset, id) && catalog_rows(
                *final(conn),
            ) == catalog_rows(*old(conn)),
            Err(_) => {
                &&& preset_rows(*final(conn)) == preset_rows(*old(conn))
                &&& preset_setting_rows(*final(conn)) == preset_setting_rows(*old(conn))
                &&& catalog_rows(*final(conn)) == catalog_rows(*old(conn))
            },
        },
{
    if let Err(e) = begin_tx(conn) {
        return Err(DbError::Sqlite(e));
    }
    match save_preset_rows(conn, preset) {
        Ok(id) => {
            if let Err(e) = commit_tx(conn) {
                rollback_tx(conn);
                return Err(DbError::Sqlite(e));
            }
            Ok(id)
        },
        Err(e) => {
            rollback_tx(conn);
            Err(e)
        },
    }
}

/// Loads the preset stored under an id, with its settings map; an id no
/// row matches yields NotFound.
pub fn load_preset_by_id(conn: &rusqlite::Connection, id: i64) -> (r: Result<
    SettingsPreset,
    DbError,
>)
    ensures
        match r {
            Ok(p) => preset_matches_store(p, *conn, id),
            Err(e) => e is NotFound ==> !preset_rows(*conn).dom().contains(id),
        },
{
    let header = match select_preset_row(conn, id) {
        Ok(Some(t)) => t,
        Ok(None) => {
            return Err(DbError::NotFound);
        },
        Err(e) => {
            return Err(DbError::Sqlite(e));
        },
    };
    let pairs = match select_preset_setting_pairs(conn, id) {
        Ok(v) => v,
        Err(e) => {
            return Err(DbError::Sqlite(e));
        },
    };
    let p = SettingsPreset {
        id: Some(id),
        name: header.0,
        description: header.1,
        created_at: header.2,
        settings: pairs,
    };
    Ok(p)
}

/// Loads every stored preset, fully hydrated, sorted by name.
pub fn get_all_presets(conn: &rusqlite::Connection) -> (r: Result<Vec<SettingsPreset>, DbError>)
    ensures
        match r {
            Ok(v) => {
                &&& forall|t: int|
                    0 <= t < v@.len() ==> (#[trigger] v@[t].id matches Some(pid)
                        && preset_matches_store(v@[t], *conn, pid))
                &&& forall|t: int, u: int| 0 <= t < u < v@.len() ==> v@[t].id !== v@[u].id
                &&& forall|id: i64|
                    preset_rows(*conn).dom().contains(id) ==> exists|t: int|
                        0 <= t < v@.len() && #[trigger] v@[t].id == Some(id)
                &&& forall|t: int, u: int|
                    0 <= t < u < v@.len() ==> seq_char_le(v@[t].name@, v@[u].name@)
            },
            Err(_) => true,
        },
{
    let headers = match select_preset_headers(conn) {
        Ok(h) => h,
        Err(e) => {
            return Err(DbError::Sqlite(e));
        },
    };
    let mut out: Vec<SettingsPreset> = Vec::new();
    let n = headers.len();
    let mut i: usize = 0;
    while i < n
        invariant
            0 <= i <= n,
            n == headers.len(),
            out@.len() == i,
            forall|t: int, u: int|
                0 <= t < u < headers.deep_view().len() ==> headers.deep_view()[t].0
                    != headers.deep_view()[u].0,
            forall|t: int|
                0 <= t < headers.deep_view().len() ==> preset_rows(*conn).dom().contains(
                    #[trigger] headers.deep_view()[t].0,
                ) && preset_rows(*conn)[headers.deep_view()[t].0] == (
                    headers.deep_view()[t].1,
                    headers.deep_view()[t].2,
                    headers.deep_view()[t].3,
                ),
            forall|id: i64|
                preset_rows(*conn).dom().contains(id) ==> exists|t: int|
                    0 <= t < headers.deep_view().len() && #[trigger] headers.deep_view()[t].0 == id,
            forall|t: int, u: int|
                0 <= t < u < headers.deep_view().len() ==> seq_char_le(
                    headers.deep_view()[t].1,
                    headers.deep_view()[u].1,
                ),
            forall|t: int|
                0 <= t < i ==> #[trigger] out@[t].id == Some(headers.deep_view()[t].0),
            forall|t: int|
                0 <= t < i ==> (#[trigger] out@[t].id matches Some(pid) && preset_matches_store(
                    out@[t],
                    *conn,
                    pid,
                )),
        decreases n - i,
    {
        let id = headers[i].0;
        match load_preset_by_id(conn, id) {
            Ok(p) => {
                proof {
                    assert(headers.deep_view()[i as int].0 == id);
                }
                out.push(p);
            },
            Err(e) => {
                return Err(
                    match e {
                        DbError::NotFound => DbError::NotFound,
                        DbError::Sqlite(err) => DbError::Sqlite(err),
                    },
                );
            },
        }
        i += 1;
    }
    proof {
        assert forall|t: int, u: int| 0 <= t < u < out@.len() implies seq_char_le(
            out@[t].name@,
            out@[u].name@,
        ) by {
            assert(out@[t].id == Some(headers.deep_view()[t].0));
            assert(preset_matches_store(out@[t], *conn, headers.deep_view()[t].0));
            assert(preset_header(out@[t]) == preset_rows(*conn)[headers.deep_view()[t].0]);
            assert(out@[t].name@ == headers.deep_view()[t].1);
            assert(out@[u].id == Some(headers.deep_view()[u].0));
            assert(preset_matches_store(out@[u], *conn, headers.deep_view()[u].0));
            assert(preset_header(out@[u]) == preset_rows(*conn)[headers.deep_view()[u].0]);
            assert(out@[u].name@ == headers.deep_view()[u].1);
        }
        assert forall|id: i64| preset_rows(*conn).dom().contains(id) implies exists|t: int|
            0 <= t < out@.len() && #[trigger] out@[t].id == Some(id) by {
            let t = choose|t: int|
                0 <= t < headers.deep_view().len() && #[trigger] headers.deep_view()[t].0 == id;
            assert(out@[t].id == Some(id));
        }
    }
    Ok(out)
}

/// Removes a preset and its key/value rows, in one transaction; on an
/// error every table is exactly as before the call.
pub fn delete_preset(conn: &mut rusqlite::Connection, id: i64) -> (r: Result<(), DbError>)
    ensures
        match r {
            Ok(_) => {
                &&& preset_rows(*final(conn)) == preset_rows(*old(conn)).remove(id)
                &&& preset_setting_rows(*final(conn)) == with_preset_settings(
                    preset_setting_rows(*old(conn)),
                    id,
                    Map::empty(),
                )
                &&& catalog_rows(*final(conn)) == catalog_rows(*old(conn))
            },
            Err(_) => {
                &&& preset_rows(*final(conn)) == preset_rows(*old(conn))
                &&& preset_setting_rows(*final(conn)) == preset_setting_rows(*old(conn))
                &&& catalog_rows(*final(conn)) == catalog_rows(*old(conn))
            },
        },
{
    if let Err(e) = begin_tx(conn) {
        return Err(DbError::Sqlite(e));
    }
    if let Err(e) = delete_preset_settings_rows(conn, id) {
        rollback_tx(conn);
        return Err(DbError::Sqlite(e));
    }
    if let Err(e) = delete_preset_row(conn, id) {
        rollback_tx(conn);
        return Err(DbError::Sqlite(e));
    }
    if let Err(e) = commit_tx(conn) {
        rollback_tx(conn);
        return Err(DbError::Sqlite(e));
    }
    Ok(())
}

/// Creates the two preset tables where they are missing; existing rows
/// are kept.
pub fn setup_schema(conn: &mut rusqlite::Connection) -> (r: Result<(), DbError>)
    ensures
        preset_rows(*final(conn)) == preset_rows(*old(conn)),
        preset_setting_rows(*final(conn)) == preset_setting_rows(*old(conn)),
        catalog_rows(*final(conn)) == catalog_rows(*old(conn)),
{
    if let Err(e) = create_presets_table(conn) {
        return Err(DbError::Sqlite(e));
    }
    if let Err(e) = create_preset_settings_table(conn) {
        return Err(DbError::Sqlite(e));
    }
    Ok(())
}

/// A fetched setting agrees with a stored catalog row: its value type is
/// decoded from the stored tag and option list, and its current value is
/// the stored default.
pub open spec fn setting_matches_row(
    s: crate::models::SettingView,
    key: (Seq<char>, Seq<char>),
    row: CatalogRowV,
) -> bool {
    &&& s.section == key.0
    &&& s.name == key.1
    &&& s.description == row.0
    &&& s.value_type == vt_of_row(row.1, row.6)
    &&& s.current_value == row.2
    &&& s.default_value == row.2
    &&& s.min_value == row.3
    &&& s.max_value == row.4
    &&& s.impact == row.5
}

/// Loads the whole catalog, ordered by section then name, each row's
/// value type decoded from its stored tag, and each current value set to
/// the stored default.
pub fn get_all_settings(conn: &rusqlite::Connection) -> (r: Result<Vec<Setting>, DbError>)
    ensures
        match r {
            Ok(v) => {
                &&& forall|t: int, u: int|
                    0 <= t < u < v@.len() ==> v_key(v@[t]) !== v_key(v@[u])
                &&& forall|t: int|
                    0 <= t < v@.len() ==> catalog_rows(*conn).dom().contains(
                        #[trigger] v_key(v@[t]),
                    ) && setting_matches_row(
                        v@[t].deep_view(),
                        v_key(v@[t]),
                        catalog_rows(*conn)[v_key(v@[t])],
                    )
                &&& forall|key: (Seq<char>, Seq<char>)|
                    catalog_rows(*conn).dom().contains(key) ==> exists|t: int|
                        0 <= t < v@.len() && #[trigger] v_key(v@[t]) == key
                &&& forall|t: int, u: int|
                    0 <= t < u < v@.len() ==> catalog_key_le(v_key(v@[t]), v_key(v@[u]))
            },
            Err(_) => true,
        },
{
    let raw = match select_catalog_rows(conn) {
        Ok(v) => v,
        Err(e) => {
            return Err(DbError::Sqlite(e));
        },
    };
    let mut out: Vec<Setting> = Vec::new();
    let n = raw.len();
    let mut i: usize = 0;
    while i < n
        invariant
            0 <= i <= n,
            n == raw.len(),
            out@.len() == i,
            forall|t: int, u: int| 0 <= t < u < raw@.len() ==> key_of(raw@[t]) !== key_of(raw@[u]),
            forall|t: int|
                0 <= t < raw@.len() ==> catalog_rows(*conn).dom().contains(
                    #[trigger] key_of(raw@[t]),
                ) && catalog_rows(*conn)[key_of(raw@[t])] == columns_of(raw@[t]),
            forall|key: (Seq<char>, Seq<char>)|
                catalog_rows(*conn).dom().contains(key) ==> exists|t: int|
                    0 <= t < raw@.len() && #[trigger] key_of(raw@[t]) == key,
            forall|t: int, u: int|
                0 <= t < u < raw@.len() ==> catalog_key_le(key_of(raw@[t]), key_of(raw@[u])),
            forall|t: int| 0 <= t < i ==> #[trigger] v_key(out@[t]) == key_of(raw@[t]),
            forall|t: int|
                0 <= t < i ==> setting_matches_row(
                    #[trigger] out@[t].deep_view(),
                    key_of(raw@[t]),
                    columns_of(raw@[t]),
                ),
        decreases n - i,
    {
        let row = &raw[i];
        let value_type = value_type_from_row(row.value_type.as_str(), &row.possible_values);
        let setting = Setting {
            name: row.name.clone(),
            section: row.section.clone(),
            description: row.description.clone(),
            value_type,
            current_value: row.default_value.clone(),
            default_value: row.default_value.clone(),
            min_value: clone_opt_string(&row.min_value),
            max_value: clone_opt_string(&row.max_value),
            impact: row.impact.clone(),
        };
        out.push(setting);
        i += 1;
    }
    proof {
        assert forall|key: (Seq<char>, Seq<char>)|
            catalog_rows(*conn).dom().contains(key) implies exists|t: int|
            0 <= t < out@.len() && #[trigger] v_key(out@[t]) == key by {
            let t = choose|t: int| 0 <= t < raw@.len() && #[trigger] key_of(raw@[t]) == key;
            assert(v_key(out@[t]) == key);
        }
        assert forall|t: int, u: int| 0 <= t < u < out@.len() implies (
            v_key(out@[t]) !== v_key(out@[u]) && catalog_key_le(v_key(out@[t]), v_key(out@[u]))
        ) by {
            assert(v_key(out@[t]) == key_of(raw@[t]));
            assert(v_key(out@[u]) == key_of(raw@[u]));
        }
    }
    Ok(out)
}

/// The (section, name) key of a setting.
pub open spec fn v_key(s: Setting) -> (Seq<char>, Seq<char>) {
    (s.section@, s.name@)
}

/// Clones an optional string.
fn clone_opt_string(o: &Option<String>) -> (r: Option<String>)
    ensures
        r.deep_view() == o.deep_view(),
{
    match o {
        Some(s) => Some(s.clone()),
        None => None,
    }
}

/// Rewrites the catalog row matched by the setting's (section, name);
/// an unknown key leaves the catalog unchanged, as the row count says,
/// and a failed statement changes nothing.
pub fn save_setting(conn: &mut rusqlite::Connection, setting: &Setting) -> (r: Result<(), DbError>)
    ensures
        match r {
            Ok(_) => {
                &&& catalog_rows(*final(conn)) == (if catalog_rows(*old(conn)).dom().contains(
                    v_key(*setting),
                ) {
                    catalog_rows(*old(conn)).insert(
                        v_key(*setting),
                        setting_columns(setting.deep_view()),
                    )
                } else {
                    catalog_rows(*old(conn))
                })
                &&& preset_rows(*final(conn)) == preset_rows(*old(conn))
                &&& preset_setting_rows(*final(conn)) == preset_setting_rows(*old(conn))
            },
            Err(_) => {
                &&& preset_rows(*final(conn)) == preset_rows(*old(conn))
                &&& preset_setting_rows(*final(conn)) == preset_setting_rows(*old(conn))
                &&& catalog_rows(*final(conn)) == catalog_rows(*old(conn))
            },
        },
{
    let tag = value_type_tag(&setting.value_type);
    let possible = value_type_possible(&setting.value_type);
    match update_catalog_row(
        conn,
        setting.section.as_str(),
        setting.name.as_str(),
        setting.description.as_str(),
        tag,
        setting.default_value.as_str(),
        &setting.min_value,
        &setting.max_value,
        setting.impact.as_str(),
        &possible,
    ) {
        Ok(_) => Ok(()),
        Err(e) => Err(DbError::Sqlite(e)),
    }
}

// ------------------------------------------------------------------
// Laws of the store.
// ------------------------------------------------------------------

/// Saving a new preset and loading the returned id reads back the same
/// name, description, creation time and settings map: the requires are
/// what save_preset ensures of the store it leaves and what
/// load_preset_by_id ensures of a preset it returns from that store.
pub proof fn lemma_save_then_load_roundtrip(
    c0: rusqlite::Connection,
    c1: rusqlite::Connection,
    p: SettingsPreset,
    id: i64,
    q: SettingsPreset,
)
    requires
        p.wf(),
        preset_rows(c1) == preset_rows(c0).insert(id, preset_header(p)),
        preset_setting_rows(c1) == with_preset_settings(
            preset_setting_rows(c0),
            id,
            p.settings_map(),
        ),
        preset_matches_store(q, c1, id),
    ensures
        q.name@ == p.name@,
        q.description@ == p.description@,
        q.created_at@ == p.created_at@,
        q.settings_map() == p.settings_map(),
{
    assert(preset_rows(c1)[id] == preset_header(p));
    assert(preset_settings_of(c1, id) =~= p.settings_map());
}

/// After a delete, the preset's header row and every one of its
/// key/value rows are gone, so a load of that id can only fail: by
/// load_preset_by_id's contract no returned preset matches a store
/// without the row.
pub proof fn lemma_delete_removes_preset(c0: rusqlite::Connection, c1: rusqlite::Connection, id: i64)
    requires
        preset_rows(c1) == preset_rows(c0).remove(id),
        preset_setting_rows(c1) == with_preset_settings(
            preset_setting_rows(c0),
            id,
            Map::empty(),
        ),
    ensures
        !preset_rows(c1).dom().contains(id),
        forall|k: Seq<char>| !preset_setting_rows(c1).dom().contains((id, k)),
        preset_settings_of(c1, id) =~= Map::<Seq<char>, Seq<char>>::empty(),
        forall|q: SettingsPreset| !preset_matches_store(q, c1, id),
{
}


// ------------------------------------------------------------------
// The default presets a fresh store is seeded with.
// ------------------------------------------------------------------

/// The common settings every seeded performance preset carries.
pub open spec fn common_preset_overrides(m: Map<Seq<char>, Seq<char>>) -> Map<Seq<char>, Seq<char>> {
    m.insert("SystemSettings.r.VSync"@, "0"@).insert("RenderingThread.bAllowThreadedRendering"@, "True"@).insert("RenderingThread.bAllowAsyncRenderThreadUpdates"@, "True"@).insert("Engine.InputSettings.RawMouseInputEnabled"@, "1"@).insert("Engine.InputSettings.bEnableMouseSmoothing"@, "False"@)
}

/// The low-tier settings laid over the defaults.
pub open spec fn low_preset_map(m: Map<Seq<char>, Seq<char>>) -> Map<Seq<char>, Seq<char>> {
    common_preset_overrides(m.insert("SystemSettings.r.Streaming.PoolSize"@, "2048"@).insert("SystemSettings.r.AllowMultiThreadedShaderCreation"@, "1"@).insert("SystemSettings.r.TemporalAACurrentFrameWeight"@, "0.1"@).insert("SystemSettings.r.TemporalAASamples"@, "4"@).insert("SystemSettings.r.TemporalAASharpness"@, "0.7"@).insert("SystemSettings.r.Tonemapper.Sharpen"@, "0.5"@).insert("SystemSettings.r.RayTracing"@, "0"@).insert("SystemSettings.r.Lumen"@, "0"@).insert("SystemSettings.r.SSR"@, "0"@).insert("SystemSettings.r.AmbientOcclusionLevels"@, "0"@).insert("SystemSettings.r.ShadowQuality"@, "1"@).insert("SystemSettings.r.VolumetricFog"@, "0"@).insert("SystemSettings.r.MotionBlurQuality"@, "0"@).insert("SystemSettings.r.DepthOfFieldQuality"@, "0"@).insert("SystemSettings.r.BloomQuality"@, "0"@))
}

/// Builds the low-tier preset settings over the given defaults.
fn build_low_settings(defaults: &Vec<(String, String)>) -> (r: Vec<(String, String)>)
    requires
        distinct_keys(defaults.deep_view()),
    ensures
        distinct_keys(r.deep_view()),
        pairs_to_map(r.deep_view()) == low_preset_map(pairs_to_map(defaults.deep_view())),
{
    let mut v = crate::strutil::clone_pairs(defaults);
    upsert_pair(&mut v, "SystemSettings.r.Streaming.PoolSize".to_owned(), "2048".to_owned());
    upsert_pair(&mut v, "SystemSettings.r.AllowMultiThreadedShaderCreation".to_owned(), "1".to_owned());
    upsert_pair(&mut v, "SystemSettings.r.TemporalAACurrentFrameWeight".to_owned(), "0.1".to_owned());
    upsert_pair(&mut v, "SystemSettings.r.TemporalAASamples".to_owned(), "4".to_owned());
    upsert_pair(&mut v, "SystemSettings.r.TemporalAASharpness".to_owned(), "0.7".to_owned());
    upsert_pair(&mut v, "SystemSettings.r.Tonemapper.Sharpen".to_owned(), "0.5".to_owned());
    upsert_pair(&mut v, "SystemSettings.r.RayTracing".to_owned(), "0".to_owned());
    upsert_pair(&mut v, "SystemSettings.r.Lumen".to_owned(), "0".to_owned());
    upsert_pair(&mut v, "SystemSettings.r.SSR".to_owned(), "0".to_owned());
    upsert_pair(&mut v, "SystemSettings.r.AmbientOcclusionLevels".to_owned(), "0".to_owned());
    upsert_pair(&mut v, "SystemSettings.r.ShadowQuality".to_owned(), "1".to_owned());
    upsert_pair(&mut v, "SystemSettings.r.VolumetricFog".to_owned(), "0".to_owned());
    upsert_pair(&mut v, "SystemSettings.r.MotionBlurQuality".to_owned(), "0".to_owned());
    upsert_pair(&mut v, "SystemSettings.r.DepthOfFieldQuality".to_owned(), "0".to_owned());
    upsert_pair(&mut v, "SystemSettings.r.BloomQuality".to_owned(), "0".to_owned());
    upsert_pair(&mut v, "SystemSettings.r.VSync".to_owned(), "0".to_owned());
    upsert_pair(&mut v, "RenderingThread.bAllowThreadedRendering".to_owned(), "True".to_owned());
    upsert_pair(&mut v, "RenderingThread.bAllowAsyncRenderThreadUpdates".to_owned(), "True".to_owned());
    upsert_pair(&mut v, "Engine.InputSettings.RawMouseInputEnabled".to_owned(), "1".to_owned());
    upsert_pair(&mut v, "Engine.InputSettings.bEnableMouseSmoothing".to_owned(), "False".to_owned());
    v
}

/// The medium-tier settings laid over the defaults.
pub open spec fn medium_preset_map(m: Map<Seq<char>, Seq<char>>) -> Map<Seq<char>, Seq<char>> {
    common_preset_overrides(m.insert("SystemSettings.r.Streaming.PoolSize"@, "4096"@).insert("SystemSettings.r.AllowMultiThreadedShaderCreation"@, "1"@).insert("SystemSettings.r.TemporalAACurrentFrameWeight"@, "0.12"@).insert("SystemSettings.r.TemporalAASamples"@, "6"@).insert("SystemSettings.r.TemporalAASharpness"@, "0.8"@).insert("SystemSettings.r.Tonemapper.Sharpen"@, "0.6"@).insert("SystemSettings.r.RayTracing"@, "0"@).insert("SystemSettings.r.Lumen"@, "0"@).insert("SystemSettings.r.SSR"@, "0"@).insert("SystemSettings.r.AmbientOcclusionLevels"@, "1"@).insert("SystemSettings.r.ShadowQuality"@, "2"@).insert("SystemSettings.r.VolumetricFog"@, "0"@).insert("SystemSettings.r.MotionBlurQuality"@, "0"@).insert("SystemSettings.r.DepthOfFieldQuality"@, "1"@).insert("SystemSettings.r.BloomQuality"@, "1"@))
}

/// Builds the medium-tier preset settings over the given defaults.
fn build_medium_settings(defaults: &Vec<(String, String)>) -> (r: Vec<(String, String)>)
    requires
        distinct_keys(defaults.deep_view()),
    ensures
        distinct_keys(r.deep_view()),
        pairs_to_map(r.deep_view()) == medium_preset_map(pairs_to_map(defaults.deep_view())),
{
    let mut v = crate::strutil::clone_pairs(defaults);
    upsert_pair(&mut v, "SystemSettings.r.Streaming.PoolSize".to_owned(), "4096".to_owned());
    upsert_pair(&mut v, "SystemSettings.r.AllowMultiThreadedShaderCreation".to_owned(), "1".to_owned());
    upsert_pair(&mut v, "SystemSettings.r.TemporalAACurrentFrameWeight".to_owned(), "0.12".to_owned());
    upsert_pair(&mut v, "SystemSettings.r.TemporalAASamples".to_owned(), "6".to_owned());
    upsert_pair(&mut v, "SystemSettings.r.TemporalAASharpness".to_owned(), "0.8".to_owned());
    upsert_pair(&mut v, "SystemSettings.r.Tonemapper.Sharpen".to_owned(), "0.6".to_owned());
    upsert_pair(&mut v, "SystemSettings.r.RayTracing".to_owned(), "0".to_owned());
    upsert_pair(&mut v, "SystemSettings.r.Lumen".to_owned(), "0".to_owned());
    upsert_pair(&mut v, "SystemSettings.r.SSR".to_owned(), "0".to_owned());
    upsert_pair(&mut v, "SystemSettings.r.AmbientOcclusionLevels".to_owned(), "1".to_owned());
    upsert_pair(&mut v, "SystemSettings.r.ShadowQuality".to_owned(), "2".to_owned());
    upsert_pair(&mut v, "SystemSettings.r.VolumetricFog".to_owned(), "0".to_owned());
    upsert_pair(&mut v, "SystemSettings.r.MotionBlurQuality".to_owned(), "0".to_owned());
    upsert_pair(&mut v, "SystemSettings.r.DepthOfFieldQuality".to_owned(), "1".to_owned());
    upsert_pair(&mut v, "SystemSettings.r.BloomQuality".to_owned(), "1".to_owned());
    upsert_pair(&mut v, "SystemSettings.r.VSync".to_owned(), "0".to_owned());
    upsert_pair(&mut v, "RenderingThread.bAllowThreadedRendering".to_owned(), "True".to_owned());
    upsert_pair(&mut v, "RenderingThread.bAllowAsyncRenderThreadUpdates".to_owned(), "True".to_owned());
    upsert_pair(&mut v, "Engine.InputSettings.RawMouseInputEnabled".to_owned(), "1".to_owned());
    upsert_pair(&mut v, "Engine.InputSettings.bEnableMouseSmoothing".to_owned(), "False".to_owned());
    v
}

/// The high-tier settings laid over the defaults.
pub open spec fn high_preset_map(m: Map<Seq<char>, Seq<char>>) -> Map<Seq<char>, Seq<char>> {
    common_preset_overrides(m.insert("SystemSettings.r.Streaming.PoolSize"@, "8192"@).insert("SystemSettings.r.AllowMultiThreadedShaderCreation"@, "1"@).insert("SystemSettings.r.TemporalAACurrentFrameWeight"@, "0.15"@).insert("SystemSettings.r.TemporalAASamples"@, "8"@).insert("SystemSettings.r.TemporalAASharpness"@, "0.9"@).insert("SystemSettings.r.Tonemapper.Sharpen"@, "0.7"@).insert("SystemSettings.r.RayTracing"@, "0"@).insert("SystemSettings.r.Lumen"@, "0"@).insert("SystemSettings.r.SSR"@, "1"@).insert("SystemSettings.r.AmbientOcclusionLevels"@, "2"@).insert("SystemSettings.r.ShadowQuality"@, "3"@).insert("SystemSettings.r.VolumetricFog"@, "1"@).insert("SystemSettings.r.MotionBlurQuality"@, "1"@).insert("SystemSettings.r.DepthOfFieldQuality"@, "2"@).insert("SystemSettings.r.BloomQuality"@, "2"@))
}

/// Builds the high-tier preset settings over the given defaults.
fn build_high_settings(defaults: &Vec<(String, String)>) -> (r: Vec<(String, String)>)
    requires
        distinct_keys(defaults.deep_view()),
    ensures
        distinct_keys(r.deep_view()),
        pairs_to_map(r.deep_view()) == high_preset_map(pairs_to_map(defaults.deep_view())),
{
    let mut v = crate::strutil::clone_pairs(defaults);
    upsert_pair(&mut v, "SystemSettings.r.Streaming.PoolSize".to_owned(), "8192".to_owned());
    upsert_pair(&mut v, "SystemSettings.r.AllowMultiThreadedShaderCreation".to_owned(), "1".to_owned());
    upsert_pair(&mut v, "SystemSettings.r.TemporalAACurrentFrameWeight".to_owned(), "0.15".to_owned());
    upsert_pair(&mut v, "SystemSettings.r.TemporalAASamples".to_owned(), "8".to_owned());
    upsert_pair(&mut v, "SystemSettings.r.TemporalAASharpness".to_owned(), "0.9".to_owned());
    upsert_pair(&mut v, "SystemSettings.r.Tonemapper.Sharpen".to_owned(), "0.7".to_owned());
    upsert_pair(&mut v, "SystemSettings.r.RayTracing".to_owned(), "0".to_owned());
    upsert_pair(&mut v, "SystemSettings.r.Lumen".to_owned(), "0".to_owned());
    upsert_pair(&mut v, "SystemSettings.r.SSR".to_owned(), "1".to_owned());
    upsert_pair(&mut v, "SystemSettings.r.AmbientOcclusionLevels".to_owned(), "2".to_owned());
    upsert_pair(&mut v, "SystemSettings.r.ShadowQuality".to_owned(), "3".to_owned());
    upsert_pair(&mut v, "SystemSettings.r.VolumetricFog".to_owned(), "1".to_owned());
    upsert_pair(&mut v, "SystemSettings.r.MotionBlurQuality".to_owned(), "1".to_owned());
    upsert_pair(&mut v, "SystemSettings.r.DepthOfFieldQuality".to_owned(), "2".to_owned());
    upsert_pair(&mut v, "SystemSettings.r.BloomQuality".to_owned(), "2".to_owned());
    upsert_pair(&mut v, "SystemSettings.r.VSync".to_owned(), "0".to_owned());
    upsert_pair(&mut v, "RenderingThread.bAllowThreadedRendering".to_owned(), "True".to_owned());
    upsert_pair(&mut v, "RenderingThread.bAllowAsyncRenderThreadUpdates".to_owned(), "True".to_owned());
    upsert_pair(&mut v, "Engine.InputSettings.RawMouseInputEnabled".to_owned(), "1".to_owned());
    upsert_pair(&mut v, "Engine.InputSettings.bEnableMouseSmoothing".to_owned(), "False".to_owned());
    v
}

/// The ultra-tier settings laid over the defaults.
pub open spec fn ultra_preset_map(m: Map<Seq<char>, Seq<char>>) -> Map<Seq<char>, Seq<char>> {
    common_preset_overrides(m.insert("SystemSettings.r.Streaming.PoolSize"@, "12288"@).insert("SystemSettings.r.AllowMultiThreadedShaderCreation"@, "1"@).insert("SystemSettings.r.TemporalAACurrentFrameWeight"@, "0.15"@).insert("SystemSettings.r.TemporalAASamples"@, "8"@).insert("SystemSettings.r.TemporalAASharpness"@, "0.9"@).insert("SystemSettings.r.Tonemapper.Sharpen"@, "0.8"@).insert("SystemSettings.r.RayTracing"@, "1"@).insert("SystemSettings.r.RayTracing.Reflections"@, "1"@).insert("SystemSettings.r.RayTracing.AmbientOcclusion"@, "1"@).insert("SystemSettings.r.Lumen"@, "1"@).insert("SystemSettings.r.Lumen.Reflections"@, "1"@).insert("SystemSettings.r.SSR"@, "1"@).insert("SystemSettings.r.AmbientOcclusionLevels"@, "3"@).insert("SystemSettings.r.ShadowQuality"@, "5"@).insert("SystemSettings.r.VolumetricFog"@, "1"@).insert("SystemSettings.r.MotionBlurQuality"@, "2"@).insert("SystemSettings.r.DepthOfFieldQuality"@, "3"@).insert("SystemSettings.r.BloomQuality"@, "3"@))
}

/// Builds the ultra-tier preset settings over the given defaults.
fn build_ultra_settings(defaults: &Vec<(String, String)>) -> (r: Vec<(String, String)>)
    requires
        distinct_keys(defaults.deep_view()),
    ensures
        distinct_keys(r.deep_view()),
        pairs_to_map(r.deep_view()) == ultra_preset_map(pairs_to_map(defaults.deep_view())),
{
    let mut v = crate::strutil::clone_pairs(defaults);
    upsert_pair(&mut v, "SystemSettings.r.Streaming.PoolSize".to_owned(), "12288".to_owned());
    upsert_pair(&mut v, "SystemSettings.r.AllowMultiThreadedShaderCreation".to_owned(), "1".to_owned());
    upsert_pair(&mut v, "SystemSettings.r.TemporalAACurrentFrameWeight".to_owned(), "0.15".to_owned());
    upsert_pair(&mut v, "SystemSettings.r.TemporalAASamples".to_owned(), "8".to_owned());
    upsert_pair(&mut v, "SystemSettings.r.TemporalAASharpness".to_owned(), "0.9".to_owned());
    upsert_pair(&mut v, "SystemSettings.r.Tonemapper.Sharpen".to_owned(), "0.8".to_owned());
    upsert_pair(&mut v, "SystemSettings.r.RayTracing".to_owned(), "1".to_owned());
    upsert_pair(&mut v, "SystemSettings.r.RayTracing.Reflections".to_owned(), "1".to_owned());
    upsert_pair(&mut v, "SystemSettings.r.RayTracing.AmbientOcclusion".to_owned(), "1".to_owned());
    upsert_pair(&mut v, "SystemSettings.r.Lumen".to_owned(), "1".to_owned());
    upsert_pair(&mut v, "SystemSettings.r.Lumen.Reflections".to_owned(), "1".to_owned());
    upsert_pair(&mut v, "SystemSettings.r.SSR".to_owned(), "1".to_owned());
    upsert_pair(&mut v, "SystemSettings.r.AmbientOcclusionLevels".to_owned(), "3".to_owned());
    upsert_pair(&mut v, "SystemSettings.r.ShadowQuality".to_owned(), "5".to_owned());
    upsert_pair(&mut v, "SystemSettings.r.VolumetricFog".to_owned(), "1".to_owned());
    upsert_pair(&mut v, "SystemSettings.r.MotionBlurQuality".to_owned(), "2".to_owned());
    upsert_pair(&mut v, "SystemSettings.r.DepthOfFieldQuality".to_owned(), "3".to_owned());
    upsert_pair(&mut v, "SystemSettings.r.BloomQuality".to_owned(), "3".to_owned());
    upsert_pair(&mut v, "SystemSettings.r.VSync".to_owned(), "0".to_owned());
    upsert_pair(&mut v, "RenderingThread.bAllowThreadedRendering".to_owned(), "True".to_owned());
    upsert_pair(&mut v, "RenderingThread.bAllowAsyncRenderThreadUpdates".to_owned(), "True".to_owned());
    upsert_pair(&mut v, "Engine.InputSettings.RawMouseInputEnabled".to_owned(), "1".to_owned());
    upsert_pair(&mut v, "Engine.InputSettings.bEnableMouseSmoothing".to_owned(), "False".to_owned());
    v
}

/// A preset with this name, description and settings map is in the store.
pub open spec fn stored_named(
    c: rusqlite::Connection,
    name: Seq<char>,
    desc: Seq<char>,
    sm: Map<Seq<char>, Seq<char>>,
) -> bool {
    exists|id: i64|
        {
            &&& #[trigger] preset_rows(c).dom().contains(id)
            &&& preset_rows(c)[id].0 == name
            &&& preset_rows(c)[id].1 == desc
            &&& preset_settings_of(c, id) == sm
        }
}

/// A stored preset survives the insertion of a fresh one.
proof fn lemma_stored_named_preserved(
    c0: rusqlite::Connection,
    c1: rusqlite::Connection,
    name: Seq<char>,
    desc: Seq<char>,
    sm: Map<Seq<char>, Seq<char>>,
    id2: i64,
    header2: (Seq<char>, Seq<char>, Seq<char>),
    sm2: Map<Seq<char>, Seq<char>>,
)
    requires
        stored_named(c0, name, desc, sm),
        !preset_rows(c0).dom().contains(id2),
        preset_rows(c1) == preset_rows(c0).insert(id2, header2),
        preset_setting_rows(c1) == with_preset_settings(preset_setting_rows(c0), id2, sm2),
    ensures
        stored_named(c1, name, desc, sm),
{
    let id = choose|id: i64|
        {
            &&& #[trigger] preset_rows(c0).dom().contains(id)
            &&& preset_rows(c0)[id].0 == name
            &&& preset_rows(c0)[id].1 == desc
            &&& preset_settings_of(c0, id) == sm
        };
    assert(id != id2);
    assert(preset_rows(c1).dom().contains(id));
    assert(preset_rows(c1)[id].0 == name && preset_rows(c1)[id].1 == desc);
    assert(preset_settings_of(c1, id) =~= preset_settings_of(c0, id));
}

/// Writes one fresh named preset inside the caller's open transaction
/// and reports what now stands in the store.
fn save_seed_preset(
    conn: &mut rusqlite::Connection,
    name: &str,
    desc: &str,
    settings: Vec<(String, String)>,
) -> (r: Result<(), DbError>)
    requires
        distinct_keys(settings.deep_view()),
    ensures
        catalog_rows(*final(conn)) == catalog_rows(*old(conn)),
        tx_preset_rows(*final(conn)) == tx_preset_rows(*old(conn)),
        tx_preset_setting_rows(*final(conn)) == tx_preset_setting_rows(*old(conn)),
        tx_catalog_rows(*final(conn)) == tx_catalog_rows(*old(conn)),
        r is Ok ==> {
            &&& stored_named(*final(conn), name@, desc@, pairs_to_map(settings.deep_view()))
            &&& exists|id: i64, sm: Map<Seq<char>, Seq<char>>|
                {
                    &&& !preset_rows(*old(conn)).dom().contains(id)
                    &&& #[trigger] preset_rows(*final(conn)) == preset_rows(*old(conn)).insert(
                        id,
                        (name@, desc@, preset_rows(*final(conn))[id].2),
                    )
                    &&& #[trigger] preset_setting_rows(*final(conn)) == with_preset_settings(
                        preset_setting_rows(*old(conn)),
                        id,
                        sm,
                    )
                }
        },
{
    let p = SettingsPreset {
        id: None,
        name: name.to_owned(),
        description: desc.to_owned(),
        created_at: crate::clock::local_now_rfc3339(),
        settings,
    };
    match save_preset_rows(conn, &p) {
        Ok(id) => {
            proof {
                assert(preset_rows(*conn).dom().contains(id));
                assert(preset_rows(*conn)[id].0 == name@ && preset_rows(*conn)[id].1 == desc@);
                assert(preset_settings_of(*conn, id) =~= p.settings_map());
                assert(stored_named(*conn, name@, desc@, p.settings_map())) by {
                    assert(preset_rows(*conn).dom().contains(id) && preset_rows(*conn)[id].0
                        == name@ && preset_rows(*conn)[id].1 == desc@ && preset_settings_of(
                        *conn,
                        id,
                    ) == p.settings_map());
                }
                assert(preset_rows(*conn) == preset_rows(*old(conn)).insert(
                    id,
                    (name@, desc@, preset_rows(*conn)[id].2),
                )) by {
                    assert(preset_rows(*conn)[id].2 == p.created_at@);
                }
            }
            Ok(())
        },
        Err(e) => Err(e),
    }
}

/// Seeds a fresh store with the Default preset, holding the parsed
/// Engine.ini defaults as they are, and the four performance presets,
/// each the defaults under its tier's overrides and the common switches,
/// all in one transaction: on an error every table is exactly as before
/// the call.
pub fn create_default_presets(
    conn: &mut rusqlite::Connection,
    default_settings: &Vec<(String, String)>,
) -> (r: Result<(), DbError>)
    requires
        distinct_keys(default_settings.deep_view()),
    ensures
        r is Err ==> {
            &&& preset_rows(*final(conn)) == preset_rows(*old(conn))
            &&& preset_setting_rows(*final(conn)) == preset_setting_rows(*old(conn))
            &&& catalog_rows(*final(conn)) == catalog_rows(*old(conn))
        },
        r is Ok ==> {
            let base = pairs_to_map(default_settings.deep_view());
            &&& stored_named(*final(conn), "Default"@, "Default settings from Engine.ini"@, base)
            &&& stored_named(
                *final(conn),
                "Low"@,
                "Optimized for low-end systems"@,
                low_preset_map(base),
            )
            &&& stored_named(
                *final(conn),
                "Medium"@,
                "Balanced performance and quality"@,
                medium_preset_map(base),
            )
            &&& stored_named(
                *final(conn),
                "High"@,
                "High quality for powerful systems"@,
                high_preset_map(base),
            )
            &&& stored_named(
                *final(conn),
                "Ultra"@,
                "Maximum quality for high-end systems"@,
                ultra_preset_map(base),
            )
            &&& catalog_rows(*final(conn)) == catalog_rows(*old(conn))
        },
{
    let ghost base = pairs_to_map(default_settings.deep_view());
    if let Err(e) = begin_tx(conn) {
        return Err(DbError::Sqlite(e));
    }
    if let Err(e) = save_seed_preset(
        conn,
        "Default",
        "Default settings from Engine.ini",
        crate::strutil::clone_pairs(default_settings),
    ) {
        rollback_tx(conn);
        return Err(e);
    }
    let ghost c1 = *conn;
    if let Err(e) = save_seed_preset(
        conn,
        "Low",
        "Optimized for low-end systems",
        build_low_settings(default_settings),
    ) {
        rollback_tx(conn);
        return Err(e);
    }
    proof {
        preserve_seeds(c1, *conn);
    }
    let ghost c2 = *conn;
    if let Err(e) = save_seed_preset(
        conn,
        "Medium",
        "Balanced performance and quality",
        build_medium_settings(default_settings),
    ) {
        rollback_tx(conn);
        return Err(e);
    }
    proof {
        preserve_seeds(c2, *conn);
    }
    let ghost c3 = *conn;
    if let Err(e) = save_seed_preset(
        conn,
        "High",
        "High quality for powerful systems",
        build_high_settings(default_settings),
    ) {
        rollback_tx(conn);
        return Err(e);
    }
    proof {
        preserve_seeds(c3, *conn);
    }
    let ghost c4 = *conn;
    if let Err(e) = save_seed_preset(
        conn,
        "Ultra",
        "Maximum quality for high-end systems",
        build_ultra_settings(default_settings),
    ) {
        rollback_tx(conn);
        return Err(e);
    }
    proof {
        preserve_seeds(c4, *conn);
    }
    let ghost c5 = *conn;
    if let Err(e) = commit_tx(conn) {
        rollback_tx(conn);
        return Err(DbError::Sqlite(e));
    }
    proof {
        stored_named_transfer(c5, *conn);
    }
    Ok(())
}

/// A stored seed preset is a fact about the two preset tables alone, so
/// it carries over to any connection state with the same rows.
proof fn stored_named_transfer(c0: rusqlite::Connection, c1: rusqlite::Connection)
    requires
        preset_rows(c1) == preset_rows(c0),
        preset_setting_rows(c1) == preset_setting_rows(c0),
    ensures
        forall|name: Seq<char>, desc: Seq<char>, sm0: Map<Seq<char>, Seq<char>>|
            stored_named(c0, name, desc, sm0) ==> #[trigger] stored_named(c1, name, desc, sm0),
{
    assert forall|name: Seq<char>, desc: Seq<char>, sm0: Map<Seq<char>, Seq<char>>|
        stored_named(c0, name, desc, sm0) implies #[trigger] stored_named(c1, name, desc, sm0) by {
        let id = choose|id: i64|
            {
                &&& #[trigger] preset_rows(c0).dom().contains(id)
                &&& preset_rows(c0)[id].0 == name
                &&& preset_rows(c0)[id].1 == desc
                &&& preset_settings_of(c0, id) == sm0
            };
        assert(preset_settings_of(c1, id) =~= preset_settings_of(c0, id));
        assert(preset_rows(c1).dom().contains(id) && preset_rows(c1)[id].0 == name && preset_rows(
            c1,
        )[id].1 == desc && preset_settings_of(c1, id) == sm0);
    }
}

/// Every seed preset already in the store survives one fresh insertion.
proof fn preserve_seeds(c0: rusqlite::Connection, c1: rusqlite::Connection)
    requires
        exists|id: i64, sm: Map<Seq<char>, Seq<char>>|
            {
                &&& !preset_rows(c0).dom().contains(id)
                &&& #[trigger] preset_rows(c1) == preset_rows(c0).insert(
                    id,
                    (preset_rows(c1)[id].0, preset_rows(c1)[id].1, preset_rows(c1)[id].2),
                )
                &&& #[trigger] preset_setting_rows(c1) == with_preset_settings(
                    preset_setting_rows(c0),
                    id,
                    sm,
                )
            },
    ensures
        forall|name: Seq<char>, desc: Seq<char>, sm0: Map<Seq<char>, Seq<char>>|
            stored_named(c0, name, desc, sm0) ==> #[trigger] stored_named(c1, name, desc, sm0),
{
    let (id, sm) = choose|id: i64, sm: Map<Seq<char>, Seq<char>>|
        {
            &&& !preset_rows(c0).dom().contains(id)
            &&& #[trigger] preset_rows(c1) == preset_rows(c0).insert(
                id,
                (preset_rows(c1)[id].0, preset_rows(c1)[id].1, preset_rows(c1)[id].2),
            )
            &&& #[trigger] preset_setting_rows(c1) == with_preset_settings(
                preset_setting_rows(c0),
                id,
                sm,
            )
        };
    assert forall|name: Seq<char>, desc: Seq<char>, sm0: Map<Seq<char>, Seq<char>>|
        stored_named(c0, name, desc, sm0) implies #[trigger] stored_named(c1, name, desc, sm0) by {
        lemma_stored_named_preserved(
            c0,
            c1,
            name,
            desc,
            sm0,
            id,
            (preset_rows(c1)[id].0, preset_rows(c1)[id].1, preset_rows(c1)[id].2),
            sm,
        );
    }
}

} // verus!
