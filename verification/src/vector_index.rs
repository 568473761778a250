//! Bookkeeping of the RaBitQ vector index stored beside a SQLite table:
//! where its files live, the SQL it runs, when the quantized index must be
//! rebuilt and when search falls back to exact distances.
use vstd::prelude::*;

use crate::error::Error;
use crate::json::{json_int, Json, JsonValue};
use crate::text::{int_text, nat_to_text, owned, push_char, push_str};

verus! {

/// Bits per dimension of the quantized index.
pub const DEFAULT_TOTAL_BITS: usize = 7;

/// Fewest vectors the quantized index is trained on; below, search is exact.
pub const MIN_TRAIN_SIZE: usize = 32;

/// Seed of the index's random rotation.
pub const DEFAULT_SEED: u64 = 42;

/// The path `name` below `base` (`Path::join`, with the path rules of the
/// platform the library is built for).
pub uninterp spec fn joined_path(base: Seq<char>, name: Seq<char>) -> Seq<char>;

/// The path has an extension (`Path::extension().is_some()`, with the path
/// rules of the platform the library is built for).
pub uninterp spec fn path_has_extension(p: Seq<char>) -> bool;

/// The path with its extension replaced (`Path::with_extension`, with the
/// path rules of the platform the library is built for).
pub uninterp spec fn path_with_extension(p: Seq<char>, ext: Seq<char>) -> Seq<char>;

/// `PathBuf::from(base).join(name)`, as text. What the path is is named by
/// `joined_path`.
#[verifier::external_body]
fn join_path(base: &str, name: &str) -> (r: String)
    ensures
        r@ == joined_path(base@, name@),
{
    std::path::Path::new(base).join(name).to_string_lossy().into_owned()
}

/// `Path::new(p).extension().is_some()`; named by `path_has_extension`.
#[verifier::external_body]
fn has_extension(p: &str) -> (r: bool)
    ensures
        r == path_has_extension(p@),
{
    std::path::Path::new(p).extension().is_some()
}

/// `Path::new(p).with_extension(ext)`, as text; named by
/// `path_with_extension`.
#[verifier::external_body]
fn with_extension(p: &str, ext: &str) -> (r: String)
    ensures
        r@ == path_with_extension(p@, ext@),
{
    std::path::Path::new(p).with_extension(ext).to_string_lossy().into_owned()
}

/// Where an index's data live.
#[derive(Debug)]
pub struct StorageLayout {
    /// SQLite table of the vectors.
    pub table_name: String,
    /// SQLite database file.
    pub db_path: String,
    /// Quantized index file.
    pub index_path: String,
}

/// An ASCII letter or digit, or '_'.
pub open spec fn identifier_char(c: char) -> bool {
    ('a' <= c && c <= 'z') || ('A' <= c && c <= 'Z') || ('0' <= c && c <= '9') || c == '_'
}

/// The characters of `s[..n]` that may stand in an identifier.
pub open spec fn identifier_chars(s: Seq<char>, n: nat) -> Seq<char>
    decreases n,
{
    if n == 0 {
        Seq::empty()
    } else {
        identifier_chars(s, (n - 1) as nat) + if identifier_char(s[n - 1]) {
            seq![s[n - 1]]
        } else {
            Seq::empty()
        }
    }
}

/// A table name made safe: only ASCII letters, digits and '_' are kept; a
/// name left empty becomes "rabitq_vectors".
pub open spec fn sanitized_identifier(s: Seq<char>) -> Seq<char> {
    let kept = identifier_chars(s, s.len());
    if kept.len() == 0 {
        "rabitq_vectors"@
    } else {
        kept
    }
}

proof fn lemma_identifier_chars(s: Seq<char>, n: nat)
    requires
        n <= s.len(),
    ensures
        forall|i: int| 0 <= i < identifier_chars(s, n).len() ==> identifier_char(
            #[trigger] identifier_chars(s, n)[i],
        ),
        (forall|i: int| 0 <= i < n ==> identifier_char(#[trigger] s[i])) ==> identifier_chars(s, n)
            == s.take(n as int),
    decreases n,
{
    if n > 0 {
        lemma_identifier_chars(s, (n - 1) as nat);
        let prev = identifier_chars(s, (n - 1) as nat);
        assert forall|i: int| 0 <= i < identifier_chars(s, n).len() implies identifier_char(
            #[trigger] identifier_chars(s, n)[i],
        ) by {
            if i < prev.len() {
                assert(identifier_chars(s, n)[i] == prev[i]);
            }
        }
        if forall|i: int| 0 <= i < n ==> identifier_char(#[trigger] s[i]) {
            assert(identifier_char(s[n - 1]));
            assert(s.take(n as int) =~= s.take(n - 1) + seq![s[n - 1]]);
        }
    }
}

/// A sanitized table name is never empty, holds only ASCII letters, digits
/// and '_' (so no '"' that would end the quoted name in SQL), and sanitizing
/// it again changes nothing.
pub proof fn law_sanitized_identifier_is_safe(s: Seq<char>)
    ensures
        sanitized_identifier(s).len() > 0,
        forall|i: int| 0 <= i < sanitized_identifier(s).len() ==> identifier_char(
            #[trigger] sanitized_identifier(s)[i],
        ),
        !sanitized_identifier(s).contains('"'),
        sanitized_identifier(sanitized_identifier(s)) == sanitized_identifier(s),
{
    reveal_strlit("rabitq_vectors");
    lemma_identifier_chars(s, s.len());
    let t = sanitized_identifier(s);
    assert forall|i: int| 0 <= i < t.len() implies identifier_char(#[trigger] t[i]) by {
        if identifier_chars(s, s.len()).len() == 0 {
            let l = "rabitq_vectors"@;
            assert(l[i] == t[i]);
        }
    }
    assert(!t.contains('"')) by {
        if t.contains('"') {
            let j = choose|j: int| 0 <= j < t.len() && t[j] == '"';
            assert(identifier_char(t[j]));
        }
    }
    lemma_identifier_chars(t, t.len());
    assert(t.take(t.len() as int) =~= t);
}

/// The table name made safe (see `sanitized_identifier`).
pub fn sanitize_identifier(input: &str) -> (r: String)
    ensures
        r@ == sanitized_identifier(input@),
{
    let v = crate::text::chars_of(input);
    let mut out = String::new();
    let mut i: usize = 0;
    while i < v.len()
        invariant
            i <= v@.len(),
            v@ == input@,
            out@ == identifier_chars(v@, i as nat),
        decreases v.len() - i,
    {
        let c = v[i];
        if ('a' <= c && c <= 'z') || ('A' <= c && c <= 'Z') || ('0' <= c && c <= '9') || c == '_' {
            push_char(&mut out, c);
        } else {
            assert(out@ =~= out@ + Seq::<char>::empty());
        }
        i += 1;
    }
    if out.as_str().unicode_len() == 0 {
        owned("rabitq_vectors")
    } else {
        out
    }
}

/// The files of an index at `uri`: an existing directory, or a path
/// without extension, holds `vectors.sqlite` and `index.bin`; a path with
/// an extension is the index file, with the database beside it under the
/// extension "sqlite".
pub open spec fn layout_fits(l: StorageLayout, uri: Seq<char>, table: Seq<char>, is_dir: bool) -> bool {
    &&& l.table_name@ == sanitized_identifier(table)
    &&& if !is_dir && path_has_extension(uri) {
        l.db_path@ == path_with_extension(uri, "sqlite"@) && l.index_path@ == uri
    } else {
        l.db_path@ == joined_path(uri, "vectors.sqlite"@) && l.index_path@ == joined_path(
            uri,
            "index.bin"@,
        )
    }
}

/// The files of an index at `uri` (see `layout_fits`); `is_dir` says
/// whether `uri` names an existing directory.
pub fn resolve_layout(uri: &str, table_name: &str, is_dir: bool) -> (r: StorageLayout)
    ensures
        layout_fits(r, uri@, table_name@, is_dir),
{
    let table_name = sanitize_identifier(table_name);
    if !is_dir && has_extension(uri) {
        return StorageLayout {
            table_name,
            db_path: with_extension(uri, "sqlite"),
            index_path: owned(uri),
        };
    }
    StorageLayout {
        table_name,
        db_path: join_path(uri, "vectors.sqlite"),
        index_path: join_path(uri, "index.bin"),
    }
}

/// The number of lists of the quantized index for `count` vectors: a
/// quarter of them, at least 1 and at most 256.
pub fn choose_nlist(count: usize) -> (r: usize)
    ensures
        r == (if count / 4 < 1 {
            1
        } else if count / 4 > 256 {
            256
        } else {
            count / 4
        }),
{
    let base = if count / 4 < 1 {
        1
    } else {
        count / 4
    };
    if base > 256 {
        256
    } else {
        base
    }
}

/// The number of lists a search probes: four per wanted hit, between 1 and
/// 64, and no more than there are lists.
pub fn choose_probe(count: usize, top_k: usize) -> (r: usize)
    ensures
        r == ({
            let wanted: int = if top_k * 4 > usize::MAX {
                usize::MAX as int
            } else {
                top_k * 4
            };
            let clamped: int = if wanted < 1 {
                1
            } else if wanted > 64 {
                64
            } else {
                wanted
            };
            let nlist: int = if count / 4 < 1 {
                1
            } else if count / 4 > 256 {
                256
            } else {
                (count / 4) as int
            };
            if clamped < nlist {
                clamped
            } else {
                nlist
            }
        }),
{
    let nlist = choose_nlist(count);
    let wanted = if top_k > usize::MAX / 4 {
        usize::MAX
    } else {
        top_k * 4
    };
    let clamped = if wanted < 1 {
        1
    } else if wanted > 64 {
        64
    } else {
        wanted
    };
    let lists = if nlist < 1 {
        1
    } else {
        nlist
    };
    if clamped < lists {
        clamped
    } else {
        lists
    }
}

/// How the quantized index is trained on `count` vectors: the number of
/// lists, and whether the faster configuration is used (above 100000
/// vectors).
pub fn training_params(count: usize) -> (r: (usize, bool))
    ensures
        r.0 == (if count / 4 < 1 {
            1
        } else if count / 4 > 256 {
            256
        } else {
            count / 4
        }),
        r.1 == (count > 100000),
{
    (choose_nlist(count), count > 100000)
}

/// What the index knows besides the stored rows.
#[derive(Debug, Clone, Copy, PartialEq, Eq, Structural)]
pub struct IndexState {
    /// A trained index is held in memory.
    pub has_cached_index: bool,
    /// Dimension of the stored vectors, once known.
    pub dimensions: Option<usize>,
    /// The rows changed since the index was last built.
    pub dirty: bool,
}

impl IndexState {
    /// The state of an index opened on `vector_count` stored vectors, the
    /// first of dimension `dimensions`, and whether the index file exists:
    /// without vectors, a leftover index file is removed; with vectors but
    /// no index file, the index is dirty. Returns the state and whether to
    /// remove the index file.
    pub fn opened(dimensions: Option<usize>, vector_count: usize, index_file_exists: bool) -> (r: (
        IndexState,
        bool,
    ))
        ensures
            r.0 == (IndexState {
                has_cached_index: false,
                dimensions,
                dirty: vector_count > 0 && !index_file_exists,
            }),
            r.1 == (vector_count == 0 && index_file_exists),
    {
        (
            IndexState {
                has_cached_index: false,
                dimensions,
                dirty: vector_count > 0 && !index_file_exists,
            },
            vector_count == 0 && index_file_exists,
        )
    }

    /// The rows changed: the index must be rebuilt and the cached one is
    /// dropped.
    pub fn mark_dirty(&mut self)
        ensures
            final(self).dirty,
            !final(self).has_cached_index,
            final(self).dimensions == old(self).dimensions,
    {
        self.dirty = true;
        self.has_cached_index = false;
    }

    /// The index matches the rows: with or without a trained index, and
    /// the dimension.
    pub fn store_clean(&mut self, has_index: bool, dimensions: Option<usize>)
        ensures
            *final(self) == (IndexState { has_cached_index: has_index, dimensions, dirty: false }),
    {
        self.has_cached_index = has_index;
        self.dimensions = dimensions;
        self.dirty = false;
    }

    /// A trained index was loaded from its file: it is now held in memory;
    /// the dimension and whether the rows changed stay as they were.
    pub fn loaded(&mut self)
        ensures
            *final(self) == (IndexState { has_cached_index: true, ..*old(self) }),
    {
        self.has_cached_index = true;
    }

    /// The dimension becomes `dimensions` unless one is known already.
    pub fn set_dimensions_if_empty(&mut self, dimensions: usize)
        ensures
            final(self).dimensions == (match old(self).dimensions {
                Some(d) => Some(d),
                None => Some(dimensions),
            }),
            final(self).dirty == old(self).dirty,
            final(self).has_cached_index == old(self).has_cached_index,
    {
        if self.dimensions.is_none() {
            self.dimensions = Some(dimensions);
        }
    }

    /// A vector of dimension `query_dim` fits the index: fails with
    /// "Vector dimension mismatch: expected <d>, got <query_dim>" when the
    /// known dimension `d` differs.
    pub fn ensure_query_dimensions(&self, query_dim: usize) -> (r: Result<(), Error>)
        ensures
            match self.dimensions {
                Some(d) if d != query_dim => r matches Err(Error::Storage(m)) && m@
                    == "Vector dimension mismatch: expected "@ + int_text(d as int) + ", got "@
                    + int_text(query_dim as int),
                _ => r is Ok,
            },
    {
        match self.dimensions {
            Some(expected) => {
                if expected != query_dim {
                    let mut m = owned("Vector dimension mismatch: expected ");
                    let a = nat_to_text(expected as u128);
                    push_str(&mut m, a.as_str());
                    push_str(&mut m, ", got ");
                    let b = nat_to_text(query_dim as u128);
                    push_str(&mut m, b.as_str());
                    Err(Error::Storage(m))
                } else {
                    Ok(())
                }
            },
            None => Ok(()),
        }
    }
}

/// How a search gets the index ready.
#[derive(Debug, Clone, Copy, PartialEq, Eq, Structural)]
pub enum IndexPlan {
    /// No rows: remove the index file, store a clean state without index or
    /// dimension, and search exactly.
    Empty,
    /// The stored vectors disagree on their dimension: fail.
    Inconsistent,
    /// Too few rows to train: search exactly; when `reset`, first remove
    /// the index file and store a clean state without index.
    BelowTrainSize { dimensions: usize, reset: bool },
    /// Search with the cached index.
    Cached,
    /// Load the index file; when that fails, rebuild.
    Load { dimensions: usize },
    /// Rebuild the index; when that fails, search exactly.
    Rebuild { dimensions: usize },
}

/// Every row declares and holds vectors of the first row's dimension.
pub open spec fn consistent_shapes(shapes: Seq<(usize, usize)>) -> bool {
    forall|i: int| #![trigger shapes[i]] 0 <= i < shapes.len() ==> shapes[i].0 == shapes[0].0
        && shapes[i].1 == shapes[0].0
}

/// The plan for rows of the given (declared dimension, vector length)
/// shapes, in the state before the search, with or without an index file.
pub open spec fn index_plan(shapes: Seq<(usize, usize)>, s: IndexState, file_exists: bool) -> IndexPlan {
    if shapes.len() == 0 {
        IndexPlan::Empty
    } else if !consistent_shapes(shapes) {
        IndexPlan::Inconsistent
    } else if shapes.len() < MIN_TRAIN_SIZE {
        IndexPlan::BelowTrainSize { dimensions: shapes[0].0, reset: s.dirty }
    } else if s.dirty {
        IndexPlan::Rebuild { dimensions: shapes[0].0 }
    } else if s.has_cached_index {
        IndexPlan::Cached
    } else if file_exists {
        IndexPlan::Load { dimensions: shapes[0].0 }
    } else {
        IndexPlan::Rebuild { dimensions: shapes[0].0 }
    }
}

/// The plan (see `index_plan`) that gets the index ready for rows of the
/// given shapes; for consistent rows, the state learns their dimension
/// unless it knows one.
pub fn plan_index(state: &mut IndexState, shapes: &[(usize, usize)], index_file_exists: bool) -> (r: IndexPlan)
    ensures
        r == index_plan(shapes@, *old(state), index_file_exists),
        final(state).dirty == old(state).dirty,
        final(state).has_cached_index == old(state).has_cached_index,
        shapes@.len() > 0 && consistent_shapes(shapes@) ==> final(state).dimensions == (match old(
            state,
        ).dimensions {
            Some(d) => Some(d),
            None => Some(shapes@[0].0),
        }),
        !(shapes@.len() > 0 && consistent_shapes(shapes@)) ==> final(state).dimensions == old(
            state,
        ).dimensions,
{
    if shapes.len() == 0 {
        return IndexPlan::Empty;
    }
    let dimensions = shapes[0].0;
    let mut i: usize = 0;
    while i < shapes.len()
        invariant
            i <= shapes@.len(),
            shapes@.len() > 0,
            dimensions == shapes@[0].0,
            forall|j: int| #![trigger shapes@[j]] 0 <= j < i ==> shapes@[j].0 == dimensions
                && shapes@[j].1 == dimensions,
        decreases shapes.len() - i,
    {
        let (declared, held) = shapes[i];
        if declared != dimensions || held != dimensions {
            return IndexPlan::Inconsistent;
        }
        i += 1;
    }
    state.set_dimensions_if_empty(dimensions);
    if shapes.len() < MIN_TRAIN_SIZE {
        return IndexPlan::BelowTrainSize { dimensions, reset: state.dirty };
    }
    if state.dirty {
        IndexPlan::Rebuild { dimensions }
    } else if state.has_cached_index {
        IndexPlan::Cached
    } else if index_file_exists {
        IndexPlan::Load { dimensions }
    } else {
        IndexPlan::Rebuild { dimensions }
    }
}

/// The error for stored vectors of different dimensions.
pub fn inconsistent_dimensions_error() -> (r: Error)
    ensures
        r matches Error::Storage(m) && m@ == "Stored vectors have inconsistent dimensions"@,
{
    Error::Storage(owned("Stored vectors have inconsistent dimensions"))
}

/// A stored row holds a vector of its declared dimension; else fails with
/// "Stored vector dimension mismatch for id <id>: expected <dimension>, got
/// <len>".
pub fn check_row_dimension(id: &str, dimension: usize, len: usize) -> (r: Result<(), Error>)
    ensures
        len == dimension ==> r is Ok,
        len != dimension ==> (r matches Err(Error::Storage(m)) && m@
            == "Stored vector dimension mismatch for id "@ + id@ + ": expected "@ + int_text(
            dimension as int,
        ) + ", got "@ + int_text(len as int)),
{
    if len == dimension {
        return Ok(());
    }
    let mut m = owned("Stored vector dimension mismatch for id ");
    push_str(&mut m, id);
    push_str(&mut m, ": expected ");
    let a = nat_to_text(dimension as u128);
    push_str(&mut m, a.as_str());
    push_str(&mut m, ", got ");
    let b = nat_to_text(len as u128);
    push_str(&mut m, b.as_str());
    Err(Error::Storage(m))
}

/// What a search does before it reads the rows: nothing is wanted (no hit),
/// or the query is empty (an error), or it goes on.
pub fn search_precheck(top_k: usize, query_len: usize) -> (r: Option<Result<(), Error>>)
    ensures
        top_k == 0 ==> r matches Some(Ok(())),
        top_k != 0 && query_len == 0 ==> (r matches Some(Err(Error::Storage(m))) && m@
            == "Query vector must not be empty"@),
        top_k != 0 && query_len != 0 ==> r is None,
{
    if top_k == 0 {
        return Some(Ok(()));
    }
    if query_len == 0 {
        return Some(Err(Error::Storage(owned("Query vector must not be empty"))));
    }
    None
}

/// An upsert of a vector of `len` components into an index in this state:
/// an empty vector fails with "Vector must not be empty", one of another
/// dimension with the mismatch error; else the state learns the dimension.
pub fn upsert_precheck(state: &mut IndexState, len: usize) -> (r: Result<(), Error>)
    ensures
        len == 0 ==> (r matches Err(Error::Storage(m)) && m@ == "Vector must not be empty"@),
        len != 0 ==> match old(state).dimensions {
            Some(d) if d != len => r matches Err(Error::Storage(m)) && m@
                == "Vector dimension mismatch: expected "@ + int_text(d as int) + ", got "@
                + int_text(len as int),
            _ => r is Ok && final(state).dimensions == Some(len),
        },
        r is Err ==> *final(state) == *old(state),
        final(state).dirty == old(state).dirty,
        final(state).has_cached_index == old(state).has_cached_index,
{
    if len == 0 {
        return Err(Error::Storage(owned("Vector must not be empty")));
    }
    match state.ensure_query_dimensions(len) {
        Err(e) => Err(e),
        Ok(()) => {
            state.set_dimensions_if_empty(len);
            Ok(())
        },
    }
}

/// The hits of the quantized index name rows by position: all of them name
/// a row (else search falls back to exact distances).
pub fn hit_positions_valid(positions: &[usize], row_count: usize) -> (r: bool)
    ensures
        r == (forall|i: int| 0 <= i < positions@.len() ==> #[trigger] positions@[i] < row_count),
{
    let mut i: usize = 0;
    while i < positions.len()
        invariant
            i <= positions@.len(),
            forall|j: int| 0 <= j < i ==> #[trigger] positions@[j] < row_count,
        decreases positions.len() - i,
    {
        if positions[i] >= row_count {
            return false;
        }
        i += 1;
    }
    true
}

/// The number of stored vectors from SQLite's count (negative counts as 0).
pub fn vector_count_of(count: i64) -> (r: usize)
    ensures
        count <= 0 ==> r == 0,
        count > 0 ==> r == count as usize,
{
    if count <= 0 {
        0
    } else {
        count as usize
    }
}

/// The statement that creates the vector table.
pub fn schema_sql(table: &str) -> (r: String)
    ensures
        r@ == "CREATE TABLE IF NOT EXISTS \""@ + table@
            + "\" (\n            id TEXT PRIMARY KEY,\n            vector BLOB NOT NULL,\n            scope TEXT NOT NULL DEFAULT '',\n            item_type TEXT NOT NULL DEFAULT '',\n            tags TEXT NOT NULL DEFAULT '',\n            dimension INTEGER NOT NULL,\n            updated_at TEXT NOT NULL\n        )"@,
{
    let mut s = owned("CREATE TABLE IF NOT EXISTS \"");
    push_str(&mut s, table);
    push_str(
        &mut s,
        "\" (\n            id TEXT PRIMARY KEY,\n            vector BLOB NOT NULL,\n            scope TEXT NOT NULL DEFAULT '',\n            item_type TEXT NOT NULL DEFAULT '',\n            tags TEXT NOT NULL DEFAULT '',\n            dimension INTEGER NOT NULL,\n            updated_at TEXT NOT NULL\n        )",
    );
    s
}

/// A statement of the form `<head>"<table>"<tail>`.
fn quoted_table_sql(head: &str, table: &str, tail: &str) -> (r: String)
    ensures
        r@ == head@ + "\""@ + table@ + "\""@ + tail@,
{
    let mut s = owned(head);
    push_str(&mut s, "\"");
    push_str(&mut s, table);
    push_str(&mut s, "\"");
    push_str(&mut s, tail);
    s
}

/// The query for the first stored vector's dimension.
pub fn dimension_sql(table: &str) -> (r: String)
    ensures
        r@ == "SELECT dimension FROM "@ + "\""@ + table@ + "\""@ + " ORDER BY rowid ASC LIMIT 1"@,
{
    quoted_table_sql("SELECT dimension FROM ", table, " ORDER BY rowid ASC LIMIT 1")
}

/// The query for the number of stored vectors.
pub fn count_sql(table: &str) -> (r: String)
    ensures
        r@ == "SELECT COUNT(*) FROM "@ + "\""@ + table@ + "\""@ + ""@,
{
    quoted_table_sql("SELECT COUNT(*) FROM ", table, "")
}

/// The query for all stored rows, in insertion order.
pub fn rows_sql(table: &str) -> (r: String)
    ensures
        r@ == "SELECT id, vector, dimension FROM "@ + "\""@ + table@ + "\""@
            + " ORDER BY rowid ASC"@,
{
    quoted_table_sql("SELECT id, vector, dimension FROM ", table, " ORDER BY rowid ASC")
}

/// The statement that inserts a row or replaces the row of its id.
pub fn upsert_sql(table: &str) -> (r: String)
    ensures
        r@ == "INSERT INTO "@ + "\""@ + table@ + "\""@
            + " (id, vector, scope, item_type, tags, dimension, updated_at)\n             VALUES (?1, ?2, ?3, ?4, ?5, ?6, ?7)\n             ON CONFLICT(id) DO UPDATE SET\n                vector = excluded.vector,\n                scope = excluded.scope,\n                item_type = excluded.item_type,\n                tags = excluded.tags,\n                dimension = excluded.dimension,\n                updated_at = excluded.updated_at"@,
{
    quoted_table_sql(
        "INSERT INTO ",
        table,
        " (id, vector, scope, item_type, tags, dimension, updated_at)\n             VALUES (?1, ?2, ?3, ?4, ?5, ?6, ?7)\n             ON CONFLICT(id) DO UPDATE SET\n                vector = excluded.vector,\n                scope = excluded.scope,\n                item_type = excluded.item_type,\n                tags = excluded.tags,\n                dimension = excluded.dimension,\n                updated_at = excluded.updated_at",
    )
}

/// The statement that deletes the row of an id.
pub fn delete_sql(table: &str) -> (r: String)
    ensures
        r@ == "DELETE FROM "@ + "\""@ + table@ + "\""@ + " WHERE id = ?1"@,
{
    quoted_table_sql("DELETE FROM ", table, " WHERE id = ?1")
}

/// The statement that deletes every row.
pub fn reset_sql(table: &str) -> (r: String)
    ensures
        r@ == "DELETE FROM "@ + "\""@ + table@ + "\""@ + ""@,
{
    quoted_table_sql("DELETE FROM ", table, "")
}

/// The tags column of a row: the tags joined by ",".
pub open spec fn joined_tags(tags: Seq<String>, n: nat) -> Seq<char>
    decreases n,
{
    if n == 0 {
        Seq::empty()
    } else if n == 1 {
        tags[0]@
    } else {
        joined_tags(tags, (n - 1) as nat) + ","@ + tags[n - 1]@
    }
}

/// The tags column of a row (see `joined_tags`).
pub fn tags_column(tags: &Vec<String>) -> (r: String)
    ensures
        r@ == joined_tags(tags@, tags@.len()),
{
    let mut s = String::new();
    let mut i: usize = 0;
    while i < tags.len()
        invariant
            i <= tags@.len(),
            s@ == joined_tags(tags@, i as nat),
        decreases tags.len() - i,
    {
        if i > 0 {
            push_str(&mut s, ",");
        }
        push_str(&mut s, tags[i].as_str());
        i += 1;
    }
    s
}

/// A storage error from SQLite, with its message.
pub fn sqlite_error(detail: &str) -> (r: Error)
    ensures
        r matches Error::Storage(m) && m@ == "RaBitQ sqlite error: "@ + detail@,
{
    let mut m = owned("RaBitQ sqlite error: ");
    push_str(&mut m, detail);
    Error::Storage(m)
}

/// A storage error from the file system, with its message.
pub fn io_error(detail: &str) -> (r: Error)
    ensures
        r matches Error::Storage(m) && m@ == "RaBitQ IO error: "@ + detail@,
{
    let mut m = owned("RaBitQ IO error: ");
    push_str(&mut m, detail);
    Error::Storage(m)
}

/// The statistics an index reports.
pub open spec fn stats_json(table: Seq<char>, index_path: Seq<char>, count: usize, s: IndexState) -> Json {
    Json::Object(
        seq![
            ("backend"@, Json::Str("rabitq"@)),
            ("table"@, Json::Str(table)),
            ("index_path"@, Json::Str(index_path)),
            ("vectors"@, json_int(count as int)),
            ("dirty"@, Json::Bool(s.dirty)),
            ("dimensions"@, match s.dimensions {
                Some(d) => json_int(d as int),
                None => Json::Null,
            }),
        ],
    )
}

/// The statistics of an index (see `stats_json`).
pub fn index_stats(layout: &StorageLayout, count: usize, state: &IndexState) -> (r: JsonValue)
    ensures
        r@ == stats_json(layout.table_name@, layout.index_path@, count, *state),
{
    let mut es: Vec<(String, JsonValue)> = Vec::new();
    es.push((owned("backend"), JsonValue::string("rabitq")));
    es.push((owned("table"), JsonValue::string(layout.table_name.as_str())));
    es.push((owned("index_path"), JsonValue::string(layout.index_path.as_str())));
    es.push((owned("vectors"), JsonValue::uint(count as u64)));
    es.push((owned("dirty"), JsonValue::Bool(state.dirty)));
    let dims = match state.dimensions {
        Some(d) => JsonValue::uint(d as u64),
        None => JsonValue::Null,
    };
    es.push((owned("dimensions"), dims));
    let r = JsonValue::object(es);
    assert(r@ =~= stats_json(layout.table_name@, layout.index_path@, count, *state)) by {
        if let Json::Object(o) = r@ {
            if let Json::Object(p) = stats_json(layout.table_name@, layout.index_path@, count, *state) {
                assert(o =~= p);
            }
        }
    }
    r
}

/// A search never goes through a stale index: once the rows changed (the
/// state is dirty), a search over enough rows of one dimension rebuilds the
/// index, whatever is cached or on disk; and below the training size, a
/// search never uses a quantized index at all.
pub proof fn law_stale_index_never_used(shapes: Seq<(usize, usize)>, s: IndexState, file_exists: bool)
    ensures
        s.dirty && shapes.len() >= MIN_TRAIN_SIZE && consistent_shapes(shapes) ==> index_plan(
            shapes,
            s,
            file_exists,
        ) == (IndexPlan::Rebuild { dimensions: shapes[0].0 }),
        shapes.len() < MIN_TRAIN_SIZE ==> !(index_plan(shapes, s, file_exists) is Cached)
            && !(index_plan(shapes, s, file_exists) is Load) && !(index_plan(
            shapes,
            s,
            file_exists,
        ) is Rebuild),
{
}

} // verus!
