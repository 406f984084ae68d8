//! The key/value table that holds the settings document, and its model.
//!
//! The table is `config(key TEXT PRIMARY KEY, value TEXT NOT NULL)`; the
//! document lives in the one row whose key is [`CONFIG_KEY`]. Each statement
//! below runs whole or not at all, so the table is modelled as a map from key
//! to text that each write replaces one entry of.
use vstd::prelude::*;

verus! {

/// The key of the row that holds the settings document.
pub const CONFIG_KEY: &'static str = "app_settings";

/// The name of the store's file inside the per-user data directory.
pub const DB_FILE_NAME: &'static str = "app_config.db";

/// Creates the table when it is absent and leaves an existing one as it is.
pub const CREATE_TABLE_SQL: &'static str = "CREATE TABLE IF NOT EXISTS config (key TEXT PRIMARY KEY, value TEXT NOT NULL)";

/// Writes one row, replacing any row of the same key (`?1` the key, `?2` the text).
pub const UPSERT_SQL: &'static str = "INSERT OR REPLACE INTO config (key, value) VALUES (?1, ?2)";

/// Reads the text of one row (`?1` the key).
pub const SELECT_SQL: &'static str = "SELECT value FROM config WHERE key = ?1";

/// A row to be written: a key and the text to hold under it.
#[derive(Clone, Debug, PartialEq)]
pub struct PutRow {
    pub key: String,
    pub value: String,
}

/// What the table holds: the text of each key.
pub type Table = Map<Seq<char>, Seq<char>>;

/// The table after the store is opened and the table ensured: an existing
/// table is kept as it is, an absent one is created empty.
pub open spec fn after_init(existing: Option<Table>) -> Table {
    match existing {
        Some(t) => t,
        None => Map::empty(),
    }
}

/// The table after one row is written: that key's text is replaced whole.
pub open spec fn after_put(t: Table, row: PutRow) -> Table {
    t.insert(row.key@, row.value@)
}

/// The table after the rows are written one after another, in the order given.
pub open spec fn after_puts(t: Table, rows: Seq<PutRow>) -> Table
    decreases rows.len(),
{
    if rows.len() == 0 {
        t
    } else {
        after_put(after_puts(t, rows.drop_last()), rows.last())
    }
}

/// The text held under a key, or `None` where the table has no such row.
pub open spec fn row_at(t: Table, key: Seq<char>) -> Option<Seq<char>> {
    if t.contains_key(key) {
        Some(t[key])
    } else {
        None
    }
}

/// The text of the settings row, if there is one.
pub open spec fn settings_row(t: Table) -> Option<Seq<char>> {
    row_at(t, CONFIG_KEY@)
}

/// Opening the store a second time changes nothing: the table that the first
/// opening left is kept, with every row in it.
pub proof fn lemma_initialize_idempotent(existing: Option<Table>)
    ensures
        after_init(Some(after_init(existing))) == after_init(existing),
        existing matches Some(t) ==> after_init(existing) == t,
{
}

} // verus!
