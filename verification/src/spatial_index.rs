//! `CreateSpatialIndex` and `DropSpatialIndex`: the R-tree index of a
//! geometry column, its maintenance triggers, and the catalog that records
//! which table and column own them.
//!
//! Each procedure alternates SQL work with decisions on what the SQL
//! returned. The decisions are a state machine here: [`start_index_task`]
//! checks the arguments and asks for the first statement, and [`next_action`]
//! takes the reply to the last request and says what to do next. The host
//! runs the statements against the database.

use vstd::prelude::*;
use vstd::string::*;

use crate::spatial::functions::text::{chars_of, text_eq};

verus! {

/// An ASCII letter, an ASCII digit or `_`.
pub open spec fn is_identifier_char(c: char) -> bool {
    ||| 'a' <= c <= 'z'
    ||| 'A' <= c <= 'Z'
    ||| '0' <= c <= '9'
    ||| c == '_'
}

/// A non-empty name made only of `[a-zA-Z0-9_]`.
pub open spec fn is_identifier(s: Seq<char>) -> bool {
    s.len() > 0 && forall|i: int| 0 <= i < s.len() ==> is_identifier_char(#[trigger] s[i])
}

/// Accept a table or column name that is safe to splice into SQL text
/// unquoted: non-empty, and only `[a-zA-Z0-9_]`.
pub fn validate_identifier(s: &str) -> (r: Option<&str>)
    ensures
        r matches Some(t) ==> t@ == s@,
        r is Some <==> is_identifier(s@),
{
    let cs = chars_of(s);
    if cs.len() == 0 {
        return None;
    }
    let mut i: usize = 0;
    while i < cs.len()
        invariant
            cs@ == s@,
            i <= cs@.len(),
            forall|j: int| 0 <= j < i ==> is_identifier_char(#[trigger] cs@[j]),
        decreases cs@.len() - i,
    {
        let c = cs[i];
        let ok = ('a' <= c && c <= 'z') || ('A' <= c && c <= 'Z') || ('0' <= c && c <= '9') || c
            == '_';
        if !ok {
            return None;
        }
        i = i + 1;
    }
    Some(s)
}


// ---------------------------------------------------------------------------
// Names and texts
// ---------------------------------------------------------------------------

/// The two procedures.
#[derive(PartialEq, Eq, Structural, Clone, Copy, Debug)]
pub enum IndexOp {
    /// `CreateSpatialIndex(table, column)`.
    Create,
    /// `DropSpatialIndex(table, column)`.
    Drop,
}

/// The catalog table that records who owns each index.
pub const SPATIAL_INDEX_CATALOG_TABLE: &'static str = "sqlitegis_spatial_index_catalog";

/// The name of the catalog table.
pub open spec fn catalog_name() -> Seq<char> {
    "sqlitegis_spatial_index_catalog"@
}

/// The label that starts the procedure's error texts.
pub open spec fn op_label(op: IndexOp) -> Seq<char> {
    match op {
        IndexOp::Create => "CreateSpatialIndex"@,
        IndexOp::Drop => "DropSpatialIndex"@,
    }
}

/// The savepoint the procedure runs under.
pub open spec fn savepoint_name(op: IndexOp) -> Seq<char> {
    match op {
        IndexOp::Create => "sqlitegis_create_spatial_index"@,
        IndexOp::Drop => "sqlitegis_drop_spatial_index"@,
    }
}

/// The prefix of the index's objects: `{table}_{column}`.
pub open spec fn index_prefix(table: Seq<char>, column: Seq<char>) -> Seq<char> {
    table + "_"@ + column
}

/// The R-tree table of the index.
pub open spec fn rtree_name(table: Seq<char>, column: Seq<char>) -> Seq<char> {
    index_prefix(table, column) + "_rtree"@
}

/// The suffixes of the three maintenance triggers.
pub open spec fn trigger_suffix(k: nat) -> Seq<char> {
    if k == 0 {
        "_insert"@
    } else if k == 1 {
        "_update"@
    } else {
        "_delete"@
    }
}

/// The suffixes of the R-tree's three shadow tables.
pub open spec fn shadow_suffix(k: nat) -> Seq<char> {
    if k == 0 {
        "_node"@
    } else if k == 1 {
        "_parent"@
    } else {
        "_rowid"@
    }
}

/// The catalog's required columns.
pub open spec fn required_column(k: nat) -> Seq<char> {
    if k == 0 {
        "prefix"@
    } else if k == 1 {
        "table_name"@
    } else {
        "column_name"@
    }
}

/// The type of a `sqlite_master` object.
pub open spec fn master_type_sql(name: Seq<char>) -> Seq<char> {
    "SELECT type FROM sqlite_master WHERE name = '"@ + name + "' LIMIT 1"@
}

/// The catalog table, created when missing.
pub open spec fn create_catalog_sql() -> Seq<char> {
    "CREATE TABLE IF NOT EXISTS ["@ + catalog_name()
        + "] (prefix TEXT PRIMARY KEY, table_name TEXT NOT NULL, column_name TEXT NOT NULL, UNIQUE(table_name, column_name))"@
}

/// The table a trigger is attached to.
pub open spec fn trigger_owner_sql(trigger: Seq<char>) -> Seq<char> {
    "SELECT tbl_name FROM sqlite_master WHERE type = 'trigger' AND name = '"@ + trigger
        + "' LIMIT 1"@
}

/// Whether a shadow table exists.
pub open spec fn shadow_sql(shadow: Seq<char>) -> Seq<char> {
    "SELECT name FROM sqlite_master WHERE type = 'table' AND name = '"@ + shadow + "' LIMIT 1"@
}

/// The owner table the catalog records for a prefix.
pub open spec fn owner_table_sql(prefix: Seq<char>) -> Seq<char> {
    "SELECT table_name FROM ["@ + catalog_name() + "] WHERE prefix = '"@ + prefix + "' LIMIT 1"@
}

/// The owner column the catalog records for a prefix.
pub open spec fn owner_column_sql(prefix: Seq<char>) -> Seq<char> {
    "SELECT column_name FROM ["@ + catalog_name() + "] WHERE prefix = '"@ + prefix
        + "' LIMIT 1"@
}

/// Whether any object the index manages exists.
pub open spec fn managed_objects_sql(prefix: Seq<char>, rtree: Seq<char>) -> Seq<char> {
    "SELECT name FROM sqlite_master WHERE name IN ('"@ + rtree + "', '"@ + rtree + "_node', '"@
        + rtree + "_parent', '"@ + rtree + "_rowid', '"@ + prefix + "_insert', '"@ + prefix
        + "_update', '"@ + prefix + "_delete') LIMIT 1"@
}

/// The probe that fails on tables without a rowid (and missing tables).
pub open spec fn probe_sql(table: Seq<char>) -> Seq<char> {
    "SELECT rowid FROM ["@ + table + "] LIMIT 0"@
}

/// The statements that build the index, in order.
pub open spec fn build_sql(k: nat, table: Seq<char>, column: Seq<char>) -> Seq<char> {
    let prefix = index_prefix(table, column);
    let rtree = rtree_name(table, column);
    if k == 0 {
        "CREATE VIRTUAL TABLE IF NOT EXISTS ["@ + rtree + "] USING rtree(id, xmin, xmax, ymin, ymax)"@
    } else if k == 1 {
        "DELETE FROM ["@ + rtree + "]"@
    } else if k == 2 {
        "INSERT INTO ["@ + rtree + "] SELECT rowid, ST_XMin(["@ + column + "]), ST_XMax(["@
            + column + "]), ST_YMin(["@ + column + "]), ST_YMax(["@ + column + "]) FROM ["@
            + table + "] WHERE ["@ + column + "] IS NOT NULL AND ST_IsEmpty(["@ + column
            + "]) = 0"@
    } else if k == 3 {
        "CREATE TRIGGER IF NOT EXISTS ["@ + prefix + "_insert] AFTER INSERT ON ["@ + table
            + "] WHEN NEW.["@ + column + "] IS NOT NULL AND ST_IsEmpty(NEW.["@ + column
            + "]) = 0 BEGIN INSERT INTO ["@ + rtree + "] VALUES ( NEW.rowid, ST_XMin(NEW.["@
            + column + "]), ST_XMax(NEW.["@ + column + "]), ST_YMin(NEW.["@ + column
            + "]), ST_YMax(NEW.["@ + column + "]) ); END"@
    } else if k == 4 {
        "CREATE TRIGGER IF NOT EXISTS ["@ + prefix + "_update] AFTER UPDATE ON ["@ + table
            + "] WHEN OLD.["@ + column + "] IS NOT NEW.["@ + column
            + "] OR OLD.rowid IS NOT NEW.rowid BEGIN DELETE FROM ["@ + rtree
            + "] WHERE id = OLD.rowid; INSERT INTO ["@ + rtree + "] SELECT NEW.rowid, ST_XMin(NEW.["@
            + column + "]), ST_XMax(NEW.["@ + column + "]), ST_YMin(NEW.["@ + column
            + "]), ST_YMax(NEW.["@ + column + "]) WHERE NEW.["@ + column
            + "] IS NOT NULL AND ST_IsEmpty(NEW.["@ + column + "]) = 0; END"@
    } else if k == 5 {
        "CREATE TRIGGER IF NOT EXISTS ["@ + prefix + "_delete] AFTER DELETE ON ["@ + table
            + "] BEGIN DELETE FROM ["@ + rtree + "] WHERE id = OLD.rowid; END"@
    } else {
        "INSERT INTO ["@ + catalog_name() + "] (prefix, table_name, column_name) VALUES ('"@
            + prefix + "', '"@ + table + "', '"@ + column
            + "') ON CONFLICT(prefix) DO UPDATE SET table_name = excluded.table_name, column_name = excluded.column_name"@
    }
}

/// The statements that remove the index, in order.
pub open spec fn drop_sql(k: nat, table: Seq<char>, column: Seq<char>) -> Seq<char> {
    let prefix = index_prefix(table, column);
    if k < 3 {
        "DROP TRIGGER IF EXISTS ["@ + prefix + trigger_suffix(k) + "]"@
    } else if k == 3 {
        "DROP TABLE IF EXISTS ["@ + prefix + "_rtree]"@
    } else {
        "DELETE FROM ["@ + catalog_name() + "] WHERE prefix = '"@ + prefix + "'"@
    }
}

// ---------------------------------------------------------------------------
// Error texts
// ---------------------------------------------------------------------------

/// A failed look at the catalog's own metadata.
pub open spec fn meta_fail_msg(op: IndexOp, e: Seq<char>) -> Seq<char> {
    op_label(op) + ": failed to inspect spatial index catalog metadata: "@ + e
}

/// No `sqlite_master` entry for the catalog.
pub open spec fn meta_missing_msg(op: IndexOp) -> Seq<char> {
    op_label(op) + ": failed to inspect spatial index catalog metadata: missing sqlite_master entry for ["@
        + catalog_name() + "]"@
}

/// The catalog name is taken by an object that is not a table.
pub open spec fn catalog_type_msg(op: IndexOp, found: Seq<char>) -> Seq<char> {
    op_label(op) + ": invalid spatial index catalog object type for ["@ + catalog_name()
        + "] (expected table, found ["@ + found + "])"@
}

/// The catalog lacks a required column.
pub open spec fn schema_msg(op: IndexOp, col: Seq<char>) -> Seq<char> {
    op_label(op) + ": invalid spatial index catalog schema for ["@ + catalog_name()
        + "] (missing required column ["@ + col + "])"@
}

/// Creating the catalog failed.
pub open spec fn ensure_fail_msg(op: IndexOp, e: Seq<char>) -> Seq<char> {
    op_label(op) + ": failed to ensure spatial index catalog: "@ + e
}

/// A failed look at `sqlite_master`.
pub open spec fn master_fail_msg(op: IndexOp, e: Seq<char>) -> Seq<char> {
    op_label(op) + ": failed to inspect sqlite_master: "@ + e
}

/// A trigger of the index's name belongs to another table.
pub open spec fn trigger_collision_msg(
    op: IndexOp,
    trigger: Seq<char>,
    owner: Seq<char>,
    table: Seq<char>,
) -> Seq<char> {
    op_label(op) + ": naming collision for trigger ["@ + trigger + "] between tables ["@ + owner
        + "] and ["@ + table + "]"@
}

/// The R-tree's name is taken by an object that is not a table.
pub open spec fn rtree_type_msg(op: IndexOp, rtree: Seq<char>, found: Seq<char>) -> Seq<char> {
    op_label(op) + ": unexpected sqlite_master entry for ["@ + rtree + "] (type ["@ + found
        + "]); expected table"@
}

/// A table of the R-tree's name lacks a shadow table.
pub open spec fn shadow_missing_msg(op: IndexOp, rtree: Seq<char>, shadow: Seq<char>) -> Seq<char> {
    op_label(op) + ": existing table ["@ + rtree
        + "] is not an R-tree index managed by SQLiteGIS (missing shadow table ["@ + shadow
        + "])"@
}

/// A failed look at the catalog's rows.
pub open spec fn catalog_fail_msg(op: IndexOp, e: Seq<char>) -> Seq<char> {
    op_label(op) + ": failed to inspect catalog: "@ + e
}

/// A catalog row without its column name.
pub open spec fn missing_column_row_msg(prefix: Seq<char>) -> Seq<char> {
    "internal error: catalog row for prefix ["@ + prefix + "] is missing column_name"@
}

/// The catalog gives the prefix to another table or column.
pub open spec fn prefix_collision_msg(
    op: IndexOp,
    prefix: Seq<char>,
    owner_table: Seq<char>,
    owner_column: Seq<char>,
    table: Seq<char>,
    column: Seq<char>,
) -> Seq<char> {
    op_label(op) + ": naming collision for managed prefix ["@ + prefix + "] between ["@
        + owner_table + "."@ + owner_column + "] and ["@ + table + "."@ + column + "]"@
}

/// Objects of the index exist but the catalog does not record them.
pub open spec fn unproven_msg(op: IndexOp, prefix: Seq<char>) -> Seq<char> {
    op_label(op) + ": cannot prove ownership for ["@ + prefix
        + "] because managed objects exist without an ownership marker"@
}

/// The indexed table has no rowid (or does not exist).
pub open spec fn no_rowid_msg(table: Seq<char>) -> Seq<char> {
    "CreateSpatialIndex: table ["@ + table
        + "] has no rowid column. WITHOUT ROWID tables are not supported. Recreate the table without the WITHOUT ROWID clause, or verify the table exists."@
}

// ---------------------------------------------------------------------------
// The state machine
// ---------------------------------------------------------------------------

/// A text argument as SQLite hands it over.
pub enum ArgText {
    /// SQL `NULL`.
    Null,
    /// Text that is not valid UTF-8.
    NotUtf8,
    /// The text.
    Text(String),
}

/// Where a procedure stands: the request of this step has been issued and
/// its reply is awaited.
pub enum IndexStep {
    /// `SAVEPOINT`.
    Savepoint,
    /// The `sqlite_master` type of the catalog name, before creating it.
    CatalogLookup,
    /// `CREATE TABLE IF NOT EXISTS` of the catalog.
    CatalogCreate,
    /// The `sqlite_master` type of the catalog name, after creating it.
    ShapeLookup,
    /// The catalog's columns.
    ShapeColumns,
    /// The table of the index's `k`-th trigger name.
    TriggerOwner(u8),
    /// The `sqlite_master` type of the R-tree name.
    RtreeType,
    /// Whether the R-tree's `k`-th shadow table exists.
    Shadow(u8),
    /// The owner table the catalog records for the prefix.
    OwnerTable,
    /// The owner column the catalog records, the owner table being known.
    OwnerColumn(String),
    /// Whether any managed object exists.
    ManagedObjects,
    /// The rowid probe of the indexed table.
    Probe,
    /// The `k`-th statement that builds the index.
    Build(u8),
    /// The `k`-th statement that removes the index.
    DropObjects(u8),
    /// `RELEASE` of the savepoint.
    Release,
    /// Finished (successfully or not).
    Done,
}

/// The step of a procedure, with its texts as views.
pub enum StepView {
    Savepoint,
    CatalogLookup,
    CatalogCreate,
    ShapeLookup,
    ShapeColumns,
    TriggerOwner(nat),
    RtreeType,
    Shadow(nat),
    OwnerTable,
    OwnerColumn(Seq<char>),
    ManagedObjects,
    Probe,
    Build(nat),
    DropObjects(nat),
    Release,
    Done,
}

/// The view of a step.
pub open spec fn step_view(s: IndexStep) -> StepView {
    match s {
        IndexStep::Savepoint => StepView::Savepoint,
        IndexStep::CatalogLookup => StepView::CatalogLookup,
        IndexStep::CatalogCreate => StepView::CatalogCreate,
        IndexStep::ShapeLookup => StepView::ShapeLookup,
        IndexStep::ShapeColumns => StepView::ShapeColumns,
        IndexStep::TriggerOwner(k) => StepView::TriggerOwner(k as nat),
        IndexStep::RtreeType => StepView::RtreeType,
        IndexStep::Shadow(k) => StepView::Shadow(k as nat),
        IndexStep::OwnerTable => StepView::OwnerTable,
        IndexStep::OwnerColumn(t) => StepView::OwnerColumn(t@),
        IndexStep::ManagedObjects => StepView::ManagedObjects,
        IndexStep::Probe => StepView::Probe,
        IndexStep::Build(k) => StepView::Build(k as nat),
        IndexStep::DropObjects(k) => StepView::DropObjects(k as nat),
        IndexStep::Release => StepView::Release,
        IndexStep::Done => StepView::Done,
    }
}

/// A procedure in progress.
pub struct IndexTask {
    /// Which procedure.
    pub op: IndexOp,
    /// The indexed table.
    pub table: String,
    /// The indexed geometry column.
    pub column: String,
    /// Where it stands.
    pub step: IndexStep,
}

/// The reply to the last request.
pub enum IndexEvent {
    /// The statement ran.
    Done,
    /// The statement or query failed, with this text.
    Failed(String),
    /// The query's first row's text column, if it returned a row.
    Text(Option<String>),
    /// Which of the catalog's `prefix`, `table_name`, `column_name` columns exist.
    Columns(bool, bool, bool),
}

/// The view of a reply.
pub enum EventView {
    Done,
    Failed(Seq<char>),
    Text(Option<Seq<char>>),
    Columns(bool, bool, bool),
}

/// The view of a reply.
pub open spec fn event_view(e: IndexEvent) -> EventView {
    match e {
        IndexEvent::Done => EventView::Done,
        IndexEvent::Failed(m) => EventView::Failed(m@),
        IndexEvent::Text(None) => EventView::Text(None),
        IndexEvent::Text(Some(t)) => EventView::Text(Some(t@)),
        IndexEvent::Columns(a, b, c) => EventView::Columns(a, b, c),
    }
}

/// What the host does next.
pub enum IndexAction {
    /// Run the statement; reply `Done` or `Failed`.
    Exec(String),
    /// Run the query; reply with the text of its first row's first column
    /// (`Text`), or `Failed`.
    LookupText(String),
    /// Read the catalog's columns (`PRAGMA table_info`); reply `Columns` or
    /// `Failed`.
    InspectCatalogColumns,
    /// Run these statements, ignoring their failures, and fail with the text.
    Abort(Vec<String>, String),
    /// Report success.
    Finish,
}

/// The view of an action.
pub enum ActionView {
    Exec(Seq<char>),
    LookupText(Seq<char>),
    InspectCatalogColumns,
    Abort(Seq<Seq<char>>, Seq<char>),
    Finish,
}

/// The view of an action.
pub open spec fn action_view(a: IndexAction) -> ActionView {
    match a {
        IndexAction::Exec(s) => ActionView::Exec(s@),
        IndexAction::LookupText(s) => ActionView::LookupText(s@),
        IndexAction::InspectCatalogColumns => ActionView::InspectCatalogColumns,
        IndexAction::Abort(v, m) => ActionView::Abort(v@.map_values(|x: String| x@), m@),
        IndexAction::Finish => ActionView::Finish,
    }
}

/// The replies a step accepts.
pub open spec fn expects(step: StepView, e: EventView) -> bool {
    match step {
        StepView::Savepoint | StepView::CatalogCreate | StepView::Probe | StepView::Build(_)
        | StepView::DropObjects(_) | StepView::Release => e is Done || e is Failed,
        StepView::ShapeColumns => e is Columns || e is Failed,
        StepView::Done => false,
        _ => e is Text || e is Failed,
    }
}

/// A step the procedure `op` can be at: step numbers in range, and the
/// build steps only in `Create`, the removal steps only in `Drop`.
pub open spec fn step_wf(op: IndexOp, step: IndexStep) -> bool {
    match step {
        IndexStep::TriggerOwner(k) => k < 3,
        IndexStep::Shadow(k) => k < 3,
        IndexStep::Probe => op == IndexOp::Create,
        IndexStep::Build(k) => k < 7 && op == IndexOp::Create,
        IndexStep::DropObjects(k) => k < 5 && op == IndexOp::Drop,
        _ => true,
    }
}

/// A task the machine can be in: valid names and a step of its procedure.
pub open spec fn task_wf(t: IndexTask) -> bool {
    &&& is_identifier(t.table@)
    &&& is_identifier(t.column@)
    &&& step_wf(t.op, t.step)
}

/// The statements that undo the procedure's work.
pub open spec fn rollback_sqls(op: IndexOp) -> Seq<Seq<char>> {
    seq!["ROLLBACK TO "@ + savepoint_name(op), "RELEASE "@ + savepoint_name(op)]
}

/// Roll back and fail.
pub open spec fn abort_with(op: IndexOp, m: Seq<char>) -> (StepView, ActionView) {
    (StepView::Done, ActionView::Abort(rollback_sqls(op), m))
}

/// Fail without rolling back.
pub open spec fn fail_with(m: Seq<char>) -> (StepView, ActionView) {
    (StepView::Done, ActionView::Abort(Seq::empty(), m))
}

/// Release the savepoint.
pub open spec fn release(op: IndexOp) -> (StepView, ActionView) {
    (StepView::Release, ActionView::Exec("RELEASE "@ + savepoint_name(op)))
}

/// Ownership is proved: build (Create) or remove (Drop) the index.
pub open spec fn when_owned(op: IndexOp, t: Seq<char>, c: Seq<char>) -> (StepView, ActionView) {
    match op {
        IndexOp::Create => (StepView::Probe, ActionView::Exec(probe_sql(t))),
        IndexOp::Drop => (StepView::DropObjects(0), ActionView::Exec(drop_sql(0, t, c))),
    }
}

/// Nothing of the index exists: build it (Create) or finish (Drop).
pub open spec fn when_absent(op: IndexOp, t: Seq<char>, c: Seq<char>) -> (StepView, ActionView) {
    match op {
        IndexOp::Create => (StepView::Probe, ActionView::Exec(probe_sql(t))),
        IndexOp::Drop => release(op),
    }
}

/// The first of the catalog's required columns that is missing.
pub open spec fn first_missing_column(p: bool, t: bool, c: bool) -> Option<nat> {
    if !p {
        Some(0)
    } else if !t {
        Some(1)
    } else if !c {
        Some(2)
    } else {
        None
    }
}

/// What the procedure does on reply `e` at `step`: the next step and the
/// next request.
pub open spec fn transition(
    op: IndexOp,
    t: Seq<char>,
    c: Seq<char>,
    step: StepView,
    e: EventView,
) -> (StepView, ActionView) {
    let prefix = index_prefix(t, c);
    let rtree = rtree_name(t, c);
    match e {
        EventView::Failed(m) => match step {
            StepView::Savepoint | StepView::Release => fail_with(m),
            StepView::CatalogLookup | StepView::ShapeLookup | StepView::ShapeColumns => abort_with(
                op,
                meta_fail_msg(op, m),
            ),
            StepView::CatalogCreate => abort_with(op, ensure_fail_msg(op, m)),
            StepView::OwnerTable | StepView::OwnerColumn(_) => abort_with(
                op,
                catalog_fail_msg(op, m),
            ),
            StepView::Probe => abort_with(op, no_rowid_msg(t)),
            StepView::Build(_) | StepView::DropObjects(_) => abort_with(op, m),
            _ => abort_with(op, master_fail_msg(op, m)),
        },
        _ => match step {
            StepView::Savepoint => (
                StepView::CatalogLookup,
                ActionView::LookupText(master_type_sql(catalog_name())),
            ),
            StepView::CatalogLookup => match e {
                EventView::Text(Some(found)) if found != "table"@ => abort_with(
                    op,
                    catalog_type_msg(op, found),
                ),
                _ => (StepView::CatalogCreate, ActionView::Exec(create_catalog_sql())),
            },
            StepView::CatalogCreate => (
                StepView::ShapeLookup,
                ActionView::LookupText(master_type_sql(catalog_name())),
            ),
            StepView::ShapeLookup => match e {
                EventView::Text(None) => abort_with(op, meta_missing_msg(op)),
                EventView::Text(Some(found)) if found != "table"@ => abort_with(
                    op,
                    catalog_type_msg(op, found),
                ),
                _ => (StepView::ShapeColumns, ActionView::InspectCatalogColumns),
            },
            StepView::ShapeColumns => match e {
                EventView::Columns(p, tn, cn) => match first_missing_column(p, tn, cn) {
                    Some(k) => abort_with(op, schema_msg(op, required_column(k))),
                    None => (
                        StepView::TriggerOwner(0),
                        ActionView::LookupText(trigger_owner_sql(prefix + trigger_suffix(0))),
                    ),
                },
                _ => fail_with(Seq::empty()),
            },
            StepView::TriggerOwner(k) => match e {
                EventView::Text(Some(owner)) if owner != t => abort_with(
                    op,
                    trigger_collision_msg(op, prefix + trigger_suffix(k), owner, t),
                ),
                _ => if k < 2 {
                    (
                        StepView::TriggerOwner(k + 1),
                        ActionView::LookupText(trigger_owner_sql(prefix + trigger_suffix(k + 1))),
                    )
                } else {
                    (StepView::RtreeType, ActionView::LookupText(master_type_sql(rtree)))
                },
            },
            StepView::RtreeType => match e {
                EventView::Text(None) => (
                    StepView::OwnerTable,
                    ActionView::LookupText(owner_table_sql(prefix)),
                ),
                EventView::Text(Some(found)) if found != "table"@ => abort_with(
                    op,
                    rtree_type_msg(op, rtree, found),
                ),
                _ => (
                    StepView::Shadow(0),
                    ActionView::LookupText(shadow_sql(rtree + shadow_suffix(0))),
                ),
            },
            StepView::Shadow(k) => match e {
                EventView::Text(None) => abort_with(
                    op,
                    shadow_missing_msg(op, rtree, rtree + shadow_suffix(k)),
                ),
                _ => if k < 2 {
                    (
                        StepView::Shadow(k + 1),
                        ActionView::LookupText(shadow_sql(rtree + shadow_suffix(k + 1))),
                    )
                } else {
                    (StepView::OwnerTable, ActionView::LookupText(owner_table_sql(prefix)))
                },
            },
            StepView::OwnerTable => match e {
                EventView::Text(Some(owner)) => (
                    StepView::OwnerColumn(owner),
                    ActionView::LookupText(owner_column_sql(prefix)),
                ),
                _ => (
                    StepView::ManagedObjects,
                    ActionView::LookupText(managed_objects_sql(prefix, rtree)),
                ),
            },
            StepView::OwnerColumn(owner_table) => match e {
                EventView::Text(Some(owner_column)) => if owner_table == t && owner_column == c {
                    when_owned(op, t, c)
                } else {
                    abort_with(
                        op,
                        prefix_collision_msg(op, prefix, owner_table, owner_column, t, c),
                    )
                },
                _ => abort_with(op, catalog_fail_msg(op, missing_column_row_msg(prefix))),
            },
            StepView::ManagedObjects => match e {
                EventView::Text(Some(_)) => abort_with(op, unproven_msg(op, prefix)),
                _ => when_absent(op, t, c),
            },
            StepView::Probe => (StepView::Build(0), ActionView::Exec(build_sql(0, t, c))),
            StepView::Build(k) => if k < 6 {
                (StepView::Build(k + 1), ActionView::Exec(build_sql(k + 1, t, c)))
            } else {
                release(op)
            },
            StepView::DropObjects(k) => if k < 4 {
                (StepView::DropObjects(k + 1), ActionView::Exec(drop_sql(k + 1, t, c)))
            } else {
                release(op)
            },
            StepView::Release => (StepView::Done, ActionView::Finish),
            StepView::Done => (StepView::Done, ActionView::Finish),
        },
    }
}

/// The views of the arguments.
pub enum ArgView {
    Null,
    NotUtf8,
    Text(Seq<char>),
}

/// The view of an argument.
pub open spec fn arg_view(a: ArgText) -> ArgView {
    match a {
        ArgText::Null => ArgView::Null,
        ArgText::NotUtf8 => ArgView::NotUtf8,
        ArgText::Text(s) => ArgView::Text(s@),
    }
}

/// The table and column a procedure runs on, or why its arguments are
/// refused.
pub open spec fn start_spec(op: IndexOp, table: ArgView, column: ArgView) -> std::result::Result<
    (Seq<char>, Seq<char>),
    Seq<char>,
> {
    match table {
        ArgView::Null => Err(op_label(op) + ": table name must not be NULL"@),
        ArgView::NotUtf8 => Err(op_label(op) + ": table name must be valid UTF-8 text"@),
        ArgView::Text(t) => match column {
            ArgView::Null => Err(op_label(op) + ": column name must not be NULL"@),
            ArgView::NotUtf8 => Err(op_label(op) + ": column name must be valid UTF-8 text"@),
            ArgView::Text(c) => if !is_identifier(t) {
                Err(op_label(op) + ": invalid table name (only [a-zA-Z0-9_] allowed)"@)
            } else if !is_identifier(c) {
                Err(op_label(op) + ": invalid column name (only [a-zA-Z0-9_] allowed)"@)
            } else {
                Ok((t, c))
            },
        },
    }
}

// ---------------------------------------------------------------------------
// Building the texts
// ---------------------------------------------------------------------------

fn label_str(op: IndexOp) -> (r: &'static str)
    ensures
        r@ == op_label(op),
{
    match op {
        IndexOp::Create => "CreateSpatialIndex",
        IndexOp::Drop => "DropSpatialIndex",
    }
}

fn savepoint_str(op: IndexOp) -> (r: &'static str)
    ensures
        r@ == savepoint_name(op),
{
    match op {
        IndexOp::Create => "sqlitegis_create_spatial_index",
        IndexOp::Drop => "sqlitegis_drop_spatial_index",
    }
}

fn cat(a: &str, b: &str) -> (r: String)
    ensures
        r@ == a@ + b@,
{
    String::from_str(a).concat(b)
}

fn labelled(op: IndexOp, text: &str, e: &str) -> (r: String)
    ensures
        r@ == op_label(op) + text@ + e@,
{
    String::from_str(label_str(op)).concat(text).concat(e)
}

fn trigger_suffix_str(k: u8) -> (r: &'static str)
    ensures
        r@ == trigger_suffix(k as nat),
{
    if k == 0 {
        "_insert"
    } else if k == 1 {
        "_update"
    } else {
        "_delete"
    }
}

fn shadow_suffix_str(k: u8) -> (r: &'static str)
    ensures
        r@ == shadow_suffix(k as nat),
{
    if k == 0 {
        "_node"
    } else if k == 1 {
        "_parent"
    } else {
        "_rowid"
    }
}

fn master_type_sql_exec(name: &str) -> (r: String)
    ensures
        r@ == master_type_sql(name@),
{
    String::from_str("SELECT type FROM sqlite_master WHERE name = '").concat(name).concat(
        "' LIMIT 1",
    )
}

fn prefix_of(table: &str, column: &str) -> (r: String)
    ensures
        r@ == index_prefix(table@, column@),
{
    String::from_str(table).concat("_").concat(column)
}

fn rtree_of(table: &str, column: &str) -> (r: String)
    ensures
        r@ == rtree_name(table@, column@),
{
    prefix_of(table, column).concat("_rtree")
}

fn build_sql_exec(k: u8, table: &str, column: &str) -> (r: String)
    requires
        k < 7,
    ensures
        r@ == build_sql(k as nat, table@, column@),
{
    let p = prefix_of(table, column);
    let rt = rtree_of(table, column);
    let prefix = p.as_str();
    let rtree = rt.as_str();
    if k == 0 {
        String::from_str("CREATE VIRTUAL TABLE IF NOT EXISTS [").concat(rtree).concat(
            "] USING rtree(id, xmin, xmax, ymin, ymax)",
        )
    } else if k == 1 {
        String::from_str("DELETE FROM [").concat(rtree).concat("]")
    } else if k == 2 {
        String::from_str("INSERT INTO [").concat(rtree).concat(
            "] SELECT rowid, ST_XMin([",
        ).concat(column).concat("]), ST_XMax([").concat(column).concat("]), ST_YMin([").concat(
            column,
        ).concat("]), ST_YMax([").concat(column).concat("]) FROM [").concat(table).concat(
            "] WHERE [",
        ).concat(column).concat("] IS NOT NULL AND ST_IsEmpty([").concat(column).concat("]) = 0")
    } else if k == 3 {
        String::from_str("CREATE TRIGGER IF NOT EXISTS [").concat(prefix).concat(
            "_insert] AFTER INSERT ON [",
        ).concat(table).concat("] WHEN NEW.[").concat(column).concat(
            "] IS NOT NULL AND ST_IsEmpty(NEW.[",
        ).concat(column).concat("]) = 0 BEGIN INSERT INTO [").concat(rtree).concat(
            "] VALUES ( NEW.rowid, ST_XMin(NEW.[",
        ).concat(column).concat("]), ST_XMax(NEW.[").concat(column).concat(
            "]), ST_YMin(NEW.[",
        ).concat(column).concat("]), ST_YMax(NEW.[").concat(column).concat("]) ); END")
    } else if k == 4 {
        String::from_str("CREATE TRIGGER IF NOT EXISTS [").concat(prefix).concat(
            "_update] AFTER UPDATE ON [",
        ).concat(table).concat("] WHEN OLD.[").concat(column).concat("] IS NOT NEW.[").concat(
            column,
        ).concat("] OR OLD.rowid IS NOT NEW.rowid BEGIN DELETE FROM [").concat(rtree).concat(
            "] WHERE id = OLD.rowid; INSERT INTO [",
        ).concat(rtree).concat("] SELECT NEW.rowid, ST_XMin(NEW.[").concat(column).concat(
            "]), ST_XMax(NEW.[",
        ).concat(column).concat("]), ST_YMin(NEW.[").concat(column).concat(
            "]), ST_YMax(NEW.[",
        ).concat(column).concat("]) WHERE NEW.[").concat(column).concat(
            "] IS NOT NULL AND ST_IsEmpty(NEW.[",
        ).concat(column).concat("]) = 0; END")
    } else if k == 5 {
        String::from_str("CREATE TRIGGER IF NOT EXISTS [").concat(prefix).concat(
            "_delete] AFTER DELETE ON [",
        ).concat(table).concat("] BEGIN DELETE FROM [").concat(rtree).concat(
            "] WHERE id = OLD.rowid; END",
        )
    } else {
        String::from_str("INSERT INTO [").concat(SPATIAL_INDEX_CATALOG_TABLE).concat(
            "] (prefix, table_name, column_name) VALUES ('",
        ).concat(prefix).concat("', '").concat(table).concat("', '").concat(column).concat(
            "') ON CONFLICT(prefix) DO UPDATE SET table_name = excluded.table_name, column_name = excluded.column_name",
        )
    }
}

fn drop_sql_exec(k: u8, table: &str, column: &str) -> (r: String)
    requires
        k < 5,
    ensures
        r@ == drop_sql(k as nat, table@, column@),
{
    let p = prefix_of(table, column);
    let prefix = p.as_str();
    if k < 3 {
        String::from_str("DROP TRIGGER IF EXISTS [").concat(prefix).concat(
            trigger_suffix_str(k),
        ).concat("]")
    } else if k == 3 {
        String::from_str("DROP TABLE IF EXISTS [").concat(prefix).concat("_rtree]")
    } else {
        String::from_str("DELETE FROM [").concat(SPATIAL_INDEX_CATALOG_TABLE).concat(
            "] WHERE prefix = '",
        ).concat(prefix).concat("'")
    }
}

fn rollback_exec(op: IndexOp) -> (v: Vec<String>)
    ensures
        v@.map_values(|x: String| x@) == rollback_sqls(op),
{
    let sp = savepoint_str(op);
    let mut v: Vec<String> = Vec::new();
    v.push(cat("ROLLBACK TO ", sp));
    v.push(cat("RELEASE ", sp));
    proof {
        assert(v@.map_values(|x: String| x@) =~= rollback_sqls(op));
    }
    v
}

fn abort_exec(op: IndexOp, m: String) -> (a: IndexAction)
    ensures
        action_view(a) == abort_with(op, m@).1,
{
    IndexAction::Abort(rollback_exec(op), m)
}

fn fail_exec(m: String) -> (a: IndexAction)
    ensures
        action_view(a) == fail_with(m@).1,
{
    let v: Vec<String> = Vec::new();
    proof {
        assert(v@.map_values(|x: String| x@) =~= Seq::<Seq<char>>::empty());
    }
    IndexAction::Abort(v, m)
}

fn release_exec(op: IndexOp) -> (a: IndexAction)
    ensures
        action_view(a) == release(op).1,
{
    IndexAction::Exec(cat("RELEASE ", savepoint_str(op)))
}

// ---------------------------------------------------------------------------
// Running the machine
// ---------------------------------------------------------------------------

fn identifier_text(s: &String) -> (r: bool)
    ensures
        r == is_identifier(s@),
{
    validate_identifier(s.as_str()).is_some()
}

/// Check the arguments of `op` and, when they name a table and a column,
/// start the procedure: the first request is the `SAVEPOINT`.
pub fn start_index_task(op: IndexOp, table: ArgText, column: ArgText) -> (r: Result<
    (IndexTask, IndexAction),
    String,
>)
    ensures
        match start_spec(op, arg_view(table), arg_view(column)) {
            Err(m) => r matches Err(x) && x@ == m,
            Ok((t, c)) => r matches Ok((task, a)) && {
                &&& task.op == op
                &&& task.table@ == t
                &&& task.column@ == c
                &&& task.step is Savepoint
                &&& task_wf(task)
                &&& action_view(a) == ActionView::Exec("SAVEPOINT "@ + savepoint_name(op))
            },
        },
{
    let t = match table {
        ArgText::Null => return Err(cat(label_str(op), ": table name must not be NULL")),
        ArgText::NotUtf8 => return Err(cat(label_str(op), ": table name must be valid UTF-8 text")),
        ArgText::Text(t) => t,
    };
    let c = match column {
        ArgText::Null => return Err(cat(label_str(op), ": column name must not be NULL")),
        ArgText::NotUtf8 => return Err(cat(label_str(op), ": column name must be valid UTF-8 text")),
        ArgText::Text(c) => c,
    };
    if !identifier_text(&t) {
        return Err(cat(label_str(op), ": invalid table name (only [a-zA-Z0-9_] allowed)"));
    }
    if !identifier_text(&c) {
        return Err(cat(label_str(op), ": invalid column name (only [a-zA-Z0-9_] allowed)"));
    }
    let action = IndexAction::Exec(cat("SAVEPOINT ", savepoint_str(op)));
    Ok((IndexTask { op, table: t, column: c, step: IndexStep::Savepoint }, action))
}

/// The reply says `text` is not `table`.
fn not_table(found: &String) -> (r: bool)
    ensures
        r == (found@ != "table"@),
{
    !text_eq(found.as_str(), "table")
}

fn create_catalog_sql_exec() -> (r: String)
    ensures
        r@ == create_catalog_sql(),
{
    String::from_str("CREATE TABLE IF NOT EXISTS [").concat(SPATIAL_INDEX_CATALOG_TABLE).concat(
        "] (prefix TEXT PRIMARY KEY, table_name TEXT NOT NULL, column_name TEXT NOT NULL, UNIQUE(table_name, column_name))",
    )
}

fn trigger_owner_sql_exec(trigger: &str) -> (r: String)
    ensures
        r@ == trigger_owner_sql(trigger@),
{
    String::from_str("SELECT tbl_name FROM sqlite_master WHERE type = 'trigger' AND name = '").concat(
        trigger,
    ).concat("' LIMIT 1")
}

fn shadow_sql_exec(shadow: &str) -> (r: String)
    ensures
        r@ == shadow_sql(shadow@),
{
    String::from_str("SELECT name FROM sqlite_master WHERE type = 'table' AND name = '").concat(
        shadow,
    ).concat("' LIMIT 1")
}

fn owner_table_sql_exec(prefix: &str) -> (r: String)
    ensures
        r@ == owner_table_sql(prefix@),
{
    String::from_str("SELECT table_name FROM [").concat(SPATIAL_INDEX_CATALOG_TABLE).concat(
        "] WHERE prefix = '",
    ).concat(prefix).concat("' LIMIT 1")
}

fn owner_column_sql_exec(prefix: &str) -> (r: String)
    ensures
        r@ == owner_column_sql(prefix@),
{
    String::from_str("SELECT column_name FROM [").concat(SPATIAL_INDEX_CATALOG_TABLE).concat(
        "] WHERE prefix = '",
    ).concat(prefix).concat("' LIMIT 1")
}

fn managed_objects_sql_exec(prefix: &str, rtree: &str) -> (r: String)
    ensures
        r@ == managed_objects_sql(prefix@, rtree@),
{
    String::from_str("SELECT name FROM sqlite_master WHERE name IN ('").concat(rtree).concat(
        "', '",
    ).concat(rtree).concat("_node', '").concat(rtree).concat("_parent', '").concat(rtree).concat(
        "_rowid', '",
    ).concat(prefix).concat("_insert', '").concat(prefix).concat("_update', '").concat(
        prefix,
    ).concat("_delete') LIMIT 1")
}

fn probe_sql_exec(table: &str) -> (r: String)
    ensures
        r@ == probe_sql(table@),
{
    String::from_str("SELECT rowid FROM [").concat(table).concat("] LIMIT 0")
}

fn meta_missing_exec(op: IndexOp) -> (r: String)
    ensures
        r@ == meta_missing_msg(op),
{
    String::from_str(label_str(op)).concat(
        ": failed to inspect spatial index catalog metadata: missing sqlite_master entry for [",
    ).concat(SPATIAL_INDEX_CATALOG_TABLE).concat("]")
}

fn catalog_type_msg_exec(op: IndexOp, found: &str) -> (r: String)
    ensures
        r@ == catalog_type_msg(op, found@),
{
    String::from_str(label_str(op)).concat(": invalid spatial index catalog object type for [").concat(
        SPATIAL_INDEX_CATALOG_TABLE,
    ).concat("] (expected table, found [").concat(found).concat("])")
}

fn schema_msg_exec(op: IndexOp, col: &str) -> (r: String)
    ensures
        r@ == schema_msg(op, col@),
{
    String::from_str(label_str(op)).concat(": invalid spatial index catalog schema for [").concat(
        SPATIAL_INDEX_CATALOG_TABLE,
    ).concat("] (missing required column [").concat(col).concat("])")
}

fn trigger_collision_msg_exec(op: IndexOp, trigger: &str, owner: &str, table: &str) -> (r: String)
    ensures
        r@ == trigger_collision_msg(op, trigger@, owner@, table@),
{
    String::from_str(label_str(op)).concat(": naming collision for trigger [").concat(trigger).concat(
        "] between tables [",
    ).concat(owner).concat("] and [").concat(table).concat("]")
}

fn rtree_type_msg_exec(op: IndexOp, rtree: &str, found: &str) -> (r: String)
    ensures
        r@ == rtree_type_msg(op, rtree@, found@),
{
    String::from_str(label_str(op)).concat(": unexpected sqlite_master entry for [").concat(
        rtree,
    ).concat("] (type [").concat(found).concat("]); expected table")
}

fn shadow_missing_msg_exec(op: IndexOp, rtree: &str, shadow: &str) -> (r: String)
    ensures
        r@ == shadow_missing_msg(op, rtree@, shadow@),
{
    String::from_str(label_str(op)).concat(": existing table [").concat(rtree).concat(
        "] is not an R-tree index managed by SQLiteGIS (missing shadow table [",
    ).concat(shadow).concat("])")
}

fn prefix_collision_msg_exec(
    op: IndexOp,
    prefix: &str,
    owner_table: &str,
    owner_column: &str,
    table: &str,
    column: &str,
) -> (r: String)
    ensures
        r@ == prefix_collision_msg(op, prefix@, owner_table@, owner_column@, table@, column@),
{
    String::from_str(label_str(op)).concat(": naming collision for managed prefix [").concat(
        prefix,
    ).concat("] between [").concat(owner_table).concat(".").concat(owner_column).concat(
        "] and [",
    ).concat(table).concat(".").concat(column).concat("]")
}

fn unproven_msg_exec(op: IndexOp, prefix: &str) -> (r: String)
    ensures
        r@ == unproven_msg(op, prefix@),
{
    String::from_str(label_str(op)).concat(": cannot prove ownership for [").concat(prefix).concat(
        "] because managed objects exist without an ownership marker",
    )
}

fn missing_column_row_exec(prefix: &str) -> (r: String)
    ensures
        r@ == missing_column_row_msg(prefix@),
{
    String::from_str("internal error: catalog row for prefix [").concat(prefix).concat(
        "] is missing column_name",
    )
}

fn owned_exec(op: IndexOp, table: &str, column: &str) -> (r: (IndexStep, IndexAction))
    ensures
        (step_view(r.0), action_view(r.1)) == when_owned(op, table@, column@),
        step_wf(op, r.0),
{
    match op {
        IndexOp::Create => (IndexStep::Probe, IndexAction::Exec(probe_sql_exec(table))),
        IndexOp::Drop => (IndexStep::DropObjects(0), IndexAction::Exec(drop_sql_exec(0, table, column))),
    }
}

fn absent_exec(op: IndexOp, table: &str) -> (r: (IndexStep, IndexAction))
    ensures
        forall|c: Seq<char>| (step_view(r.0), action_view(r.1)) == #[trigger] when_absent(op, table@, c),
        step_wf(op, r.0),
{
    match op {
        IndexOp::Create => (IndexStep::Probe, IndexAction::Exec(probe_sql_exec(table))),
        IndexOp::Drop => (IndexStep::Release, release_exec(op)),
    }
}

/// The views of a text reply.
pub open spec fn reply_view(r: Option<String>) -> Option<Seq<char>> {
    match r {
        None => None,
        Some(t) => Some(t@),
    }
}

fn text_reply(
    op: IndexOp,
    table: &str,
    column: &str,
    prefix: &str,
    rtree: &str,
    step: &IndexStep,
    reply: Option<String>,
) -> (r: (IndexStep, IndexAction))
    requires
        prefix@ == index_prefix(table@, column@),
        rtree@ == rtree_name(table@, column@),
        step_wf(op, *step),
        expects(step_view(*step), EventView::Text(reply_view(reply))),
    ensures
        step_wf(op, r.0),
        (step_view(r.0), action_view(r.1)) == transition(
            op,
            table@,
            column@,
            step_view(*step),
            EventView::Text(reply_view(reply)),
        ),
{
    match step {
        IndexStep::CatalogLookup => match reply {
            Some(found) if not_table(&found) => (
                IndexStep::Done,
                abort_exec(op, catalog_type_msg_exec(op, found.as_str())),
            ),
            _ => (IndexStep::CatalogCreate, IndexAction::Exec(create_catalog_sql_exec())),
        },
        IndexStep::ShapeLookup => match reply {
            None => (IndexStep::Done, abort_exec(op, meta_missing_exec(op))),
            Some(found) => if not_table(&found) {
                (IndexStep::Done, abort_exec(op, catalog_type_msg_exec(op, found.as_str())))
            } else {
                (IndexStep::ShapeColumns, IndexAction::InspectCatalogColumns)
            },
        },
        IndexStep::TriggerOwner(k) => {
            let trig = cat(prefix, trigger_suffix_str(*k));
            match reply {
                Some(owner) if !text_eq(owner.as_str(), table) => (
                    IndexStep::Done,
                    abort_exec(
                        op,
                        trigger_collision_msg_exec(op, trig.as_str(), owner.as_str(), table),
                    ),
                ),
                _ => if *k < 2 {
                    let next = cat(prefix, trigger_suffix_str(*k + 1));
                    (
                        IndexStep::TriggerOwner(*k + 1),
                        IndexAction::LookupText(trigger_owner_sql_exec(next.as_str())),
                    )
                } else {
                    (IndexStep::RtreeType, IndexAction::LookupText(master_type_sql_exec(rtree)))
                },
            }
        },
        IndexStep::RtreeType => match reply {
            None => (IndexStep::OwnerTable, IndexAction::LookupText(owner_table_sql_exec(prefix))),
            Some(found) => if not_table(&found) {
                (IndexStep::Done, abort_exec(op, rtree_type_msg_exec(op, rtree, found.as_str())))
            } else {
                let shadow = cat(rtree, shadow_suffix_str(0));
                (IndexStep::Shadow(0), IndexAction::LookupText(shadow_sql_exec(shadow.as_str())))
            },
        },
        IndexStep::Shadow(k) => match reply {
            None => {
                let shadow = cat(rtree, shadow_suffix_str(*k));
                (
                    IndexStep::Done,
                    abort_exec(op, shadow_missing_msg_exec(op, rtree, shadow.as_str())),
                )
            },
            Some(_) => if *k < 2 {
                let shadow = cat(rtree, shadow_suffix_str(*k + 1));
                (IndexStep::Shadow(*k + 1), IndexAction::LookupText(shadow_sql_exec(shadow.as_str())))
            } else {
                (IndexStep::OwnerTable, IndexAction::LookupText(owner_table_sql_exec(prefix)))
            },
        },
        IndexStep::OwnerTable => match reply {
            Some(owner) => (
                IndexStep::OwnerColumn(owner),
                IndexAction::LookupText(owner_column_sql_exec(prefix)),
            ),
            None => (
                IndexStep::ManagedObjects,
                IndexAction::LookupText(managed_objects_sql_exec(prefix, rtree)),
            ),
        },
        IndexStep::OwnerColumn(owner_table) => match reply {
            Some(owner_column) => if text_eq(owner_table.as_str(), table) && text_eq(
                owner_column.as_str(),
                column,
            ) {
                owned_exec(op, table, column)
            } else {
                (
                    IndexStep::Done,
                    abort_exec(
                        op,
                        prefix_collision_msg_exec(
                            op,
                            prefix,
                            owner_table.as_str(),
                            owner_column.as_str(),
                            table,
                            column,
                        ),
                    ),
                )
            },
            None => {
                let detail = missing_column_row_exec(prefix);
                (
                    IndexStep::Done,
                    abort_exec(op, labelled(op, ": failed to inspect catalog: ", detail.as_str())),
                )
            },
        },
        IndexStep::ManagedObjects => match reply {
            Some(_) => (IndexStep::Done, abort_exec(op, unproven_msg_exec(op, prefix))),
            None => absent_exec(op, table),
        },
        _ => (IndexStep::Done, IndexAction::Finish),
    }
}

/// Take the reply to the last request and say what to do next.
pub fn next_action(task: &mut IndexTask, event: IndexEvent) -> (a: IndexAction)
    requires
        task_wf(*old(task)),
        expects(step_view(old(task).step), event_view(event)),
    ensures
        final(task).op == old(task).op,
        final(task).table@ == old(task).table@,
        final(task).column@ == old(task).column@,
        task_wf(*final(task)),
        (step_view(final(task).step), action_view(a)) == transition(
            old(task).op,
            old(task).table@,
            old(task).column@,
            step_view(old(task).step),
            event_view(event),
        ),
{
    let op = task.op;
    let table = task.table.as_str();
    let column = task.column.as_str();
    let ghost t = table@;
    let ghost c = column@;
    let p = prefix_of(table, column);
    let rt = rtree_of(table, column);
    let ghost ev = event_view(event);
    let ghost sv = step_view(task.step);
    let (next, action): (IndexStep, IndexAction) = match event {
        IndexEvent::Failed(m) => match task.step {
            IndexStep::Savepoint | IndexStep::Release => (IndexStep::Done, fail_exec(m)),
            IndexStep::CatalogLookup | IndexStep::ShapeLookup | IndexStep::ShapeColumns => (
                IndexStep::Done,
                abort_exec(
                    op,
                    labelled(op, ": failed to inspect spatial index catalog metadata: ", m.as_str()),
                ),
            ),
            IndexStep::CatalogCreate => (
                IndexStep::Done,
                abort_exec(op, labelled(op, ": failed to ensure spatial index catalog: ", m.as_str())),
            ),
            IndexStep::OwnerTable | IndexStep::OwnerColumn(_) => (
                IndexStep::Done,
                abort_exec(op, labelled(op, ": failed to inspect catalog: ", m.as_str())),
            ),
            IndexStep::Probe => {
                let msg = String::from_str("CreateSpatialIndex: table [").concat(table).concat(
                    "] has no rowid column. WITHOUT ROWID tables are not supported. Recreate the table without the WITHOUT ROWID clause, or verify the table exists.",
                );
                (IndexStep::Done, abort_exec(op, msg))
            },
            IndexStep::Build(_) | IndexStep::DropObjects(_) => (IndexStep::Done, abort_exec(op, m)),
            _ => (
                IndexStep::Done,
                abort_exec(op, labelled(op, ": failed to inspect sqlite_master: ", m.as_str())),
            ),
        },
        IndexEvent::Done => match task.step {
            IndexStep::Savepoint => (
                IndexStep::CatalogLookup,
                IndexAction::LookupText(master_type_sql_exec(SPATIAL_INDEX_CATALOG_TABLE)),
            ),
            IndexStep::CatalogCreate => (
                IndexStep::ShapeLookup,
                IndexAction::LookupText(master_type_sql_exec(SPATIAL_INDEX_CATALOG_TABLE)),
            ),
            IndexStep::Probe => (IndexStep::Build(0), IndexAction::Exec(build_sql_exec(0, table, column))),
            IndexStep::Build(k) => if k < 6 {
                (IndexStep::Build(k + 1), IndexAction::Exec(build_sql_exec(k + 1, table, column)))
            } else {
                (IndexStep::Release, release_exec(op))
            },
            IndexStep::DropObjects(k) => if k < 4 {
                (
                    IndexStep::DropObjects(k + 1),
                    IndexAction::Exec(drop_sql_exec(k + 1, table, column)),
                )
            } else {
                (IndexStep::Release, release_exec(op))
            },
            _ => (IndexStep::Done, IndexAction::Finish),
        },
        IndexEvent::Columns(has_p, has_t, has_c) => {
            if !has_p {
                (
                    IndexStep::Done,
                    abort_exec(op, schema_msg_exec(op, "prefix")),
                )
            } else if !has_t {
                (
                    IndexStep::Done,
                    abort_exec(op, schema_msg_exec(op, "table_name")),
                )
            } else if !has_c {
                (
                    IndexStep::Done,
                    abort_exec(op, schema_msg_exec(op, "column_name")),
                )
            } else {
                let trig = cat(p.as_str(), trigger_suffix_str(0));
                (IndexStep::TriggerOwner(0), IndexAction::LookupText(trigger_owner_sql_exec(trig.as_str())))
            }
        },
        IndexEvent::Text(reply) => text_reply(op, table, column, p.as_str(), rt.as_str(), &task.step, reply),
    };
    task.step = next;
    action
}

// ---------------------------------------------------------------------------
// Laws of the procedures
// ---------------------------------------------------------------------------

/// How far a step is from the end: every reply moves a procedure to a
/// step of smaller rank.
pub open spec fn step_rank(step: StepView) -> nat {
    match step {
        StepView::Savepoint => 40,
        StepView::CatalogLookup => 39,
        StepView::CatalogCreate => 38,
        StepView::ShapeLookup => 37,
        StepView::ShapeColumns => 36,
        StepView::TriggerOwner(k) => (35 - k) as nat,
        StepView::RtreeType => 32,
        StepView::Shadow(k) => (31 - k) as nat,
        StepView::OwnerTable => 28,
        StepView::OwnerColumn(_) => 27,
        StepView::ManagedObjects => 26,
        StepView::Probe => 25,
        StepView::Build(k) => (24 - k) as nat,
        StepView::DropObjects(k) => (17 - k) as nat,
        StepView::Release => 1,
        StepView::Done => 0,
    }
}

/// The step numbers a procedure's steps carry.
pub open spec fn step_view_wf(step: StepView) -> bool {
    match step {
        StepView::TriggerOwner(k) => k < 3,
        StepView::Shadow(k) => k < 3,
        StepView::Build(k) => k < 7,
        StepView::DropObjects(k) => k < 5,
        _ => true,
    }
}

/// Every accepted reply moves the procedure to a step of smaller rank, so a
/// procedure ends after at most forty replies.
pub proof fn law_index_steps_progress(
    op: IndexOp,
    t: Seq<char>,
    c: Seq<char>,
    step: StepView,
    e: EventView,
)
    requires
        step_view_wf(step),
        expects(step, e),
    ensures
        step_rank(transition(op, t, c, step, e).0) < step_rank(step),
        step_view_wf(transition(op, t, c, step, e).0),
{
}

/// Once the savepoint is taken, a failed request (other than the final
/// `RELEASE`) rolls everything back to it before the procedure fails.
pub proof fn law_failures_roll_back(op: IndexOp, t: Seq<char>, c: Seq<char>, step: StepView, m: Seq<char>)
    requires
        !(step is Savepoint),
        !(step is Release),
        !(step is Done),
    ensures
        transition(op, t, c, step, EventView::Failed(m)).0 is Done,
        transition(op, t, c, step, EventView::Failed(m)).1 matches ActionView::Abort(rb, _) && rb
            == rollback_sqls(op),
{
}

/// `DropSpatialIndex` removes objects only once the catalog has named this
/// very table and column as their owner.
pub proof fn law_drop_only_what_it_owns(t: Seq<char>, c: Seq<char>, step: StepView, e: EventView)
    requires
        transition(IndexOp::Drop, t, c, step, e).0 == StepView::DropObjects(0),
    ensures
        step == StepView::OwnerColumn(t),
        e == EventView::Text(Some(c)),
{
}

/// `CreateSpatialIndex` builds only after the rowid probe of the table
/// succeeded, and that probe comes only once ownership is settled.
pub proof fn law_create_builds_after_checks(t: Seq<char>, c: Seq<char>, step: StepView, e: EventView)
    requires
        step_view_wf(step),
        expects(step, e),
        transition(IndexOp::Create, t, c, step, e).0 == StepView::Build(0),
    ensures
        step == StepView::Probe,
        e == EventView::Done,
{
}

/// Success is reported only after the `RELEASE` of the savepoint ran.
pub proof fn law_finish_after_release(op: IndexOp, t: Seq<char>, c: Seq<char>, step: StepView, e: EventView)
    requires
        expects(step, e),
        transition(op, t, c, step, e).1 == ActionView::Finish,
    ensures
        step == StepView::Release,
        e == EventView::Done,
{
}

/// The replies a request can get: a statement runs or fails, a query
/// returns its text or fails, the column check returns the columns or fails.
pub open spec fn answers(a: ActionView, e: EventView) -> bool {
    match a {
        ActionView::Exec(_) => e is Done || e is Failed,
        ActionView::LookupText(_) => e is Text || e is Failed,
        ActionView::InspectCatalogColumns => e is Columns || e is Failed,
        _ => false,
    }
}

/// Every reply a request can get is one the next step accepts, so a host
/// that answers each request in kind always meets [`next_action`]'s
/// `requires`.
pub proof fn law_requests_match_replies(
    op: IndexOp,
    t: Seq<char>,
    c: Seq<char>,
    step: StepView,
    e: EventView,
    reply: EventView,
)
    requires
        step_view_wf(step),
        expects(step, e),
        answers(transition(op, t, c, step, e).1, reply),
    ensures
        expects(transition(op, t, c, step, e).0, reply),
{
}

/// The R-tree's bound columns, in the order SQLite's `rtree` pairs them:
/// the minimum and maximum of X, then of Y.
pub open spec fn rtree_columns() -> Seq<Seq<char>> {
    seq!["xmin"@, "xmax"@, "ymin"@, "ymax"@]
}

/// The geometry function whose value a bound column holds.
pub open spec fn bound_function(col: Seq<char>) -> Seq<char> {
    if col == "xmin"@ {
        "ST_XMin"@
    } else if col == "xmax"@ {
        "ST_XMax"@
    } else if col == "ymin"@ {
        "ST_YMin"@
    } else {
        "ST_YMax"@
    }
}

/// Items separated by `", "`.
pub open spec fn listed(items: Seq<Seq<char>>) -> Seq<char>
    decreases items.len(),
{
    if items.len() == 0 {
        Seq::empty()
    } else if items.len() == 1 {
        items[0]
    } else {
        listed(items.drop_last()) + ", "@ + items.last()
    }
}

/// The value of each bound column, computed from the geometry `arg`.
pub open spec fn bound_values(cols: Seq<Seq<char>>, arg: Seq<char>) -> Seq<Seq<char>> {
    cols.map_values(|col: Seq<char>| bound_function(col) + "("@ + arg + ")"@)
}

/// `w` occurs in `s`.
pub open spec fn occurs_in(s: Seq<char>, w: Seq<char>) -> bool {
    exists|i: int| 0 <= i && i + w.len() <= s.len() && #[trigger] s.subrange(i, i + w.len()) == w
}

proof fn lemma_listed_five(a: Seq<char>, b: Seq<char>, c: Seq<char>, d: Seq<char>, e: Seq<char>)
    ensures
        listed(seq![a, b, c, d, e]) =~= a + ", "@ + b + ", "@ + c + ", "@ + d + ", "@ + e,
{
    let s = seq![a, b, c, d, e];
    assert(s.drop_last() =~= seq![a, b, c, d]);
    assert(s.drop_last().drop_last() =~= seq![a, b, c]);
    assert(s.drop_last().drop_last().drop_last() =~= seq![a, b]);
    assert(s.drop_last().drop_last().drop_last().drop_last() =~= seq![a]);
    reveal_with_fuel(listed, 5);
}

/// The four bound values of the geometry `arg`, in column order.
proof fn lemma_bound_values(arg: Seq<char>)
    ensures
        bound_values(rtree_columns(), arg) =~= seq![
            "ST_XMin"@ + "("@ + arg + ")"@,
            "ST_XMax"@ + "("@ + arg + ")"@,
            "ST_YMin"@ + "("@ + arg + ")"@,
            "ST_YMax"@ + "("@ + arg + ")"@,
        ],
{
    reveal_strlit("xmin");
    reveal_strlit("xmax");
    reveal_strlit("ymin");
    reveal_strlit("ymax");
    assert("xmax"@[2] != "xmin"@[2]);
    assert("ymin"@[0] != "xmin"@[0] && "ymin"@[0] != "xmax"@[0]);
    assert("ymax"@[0] != "xmin"@[0] && "ymax"@[0] != "xmax"@[0] && "ymax"@[2] != "ymin"@[2]);
}

proof fn lemma_declaration(t: Seq<char>, c: Seq<char>)
    ensures
        build_sql(0, t, c) == "CREATE VIRTUAL TABLE IF NOT EXISTS ["@ + rtree_name(t, c)
            + "] USING rtree("@ + listed(seq!["id"@] + rtree_columns()) + ")"@,
{
    lemma_listed_five("id"@, "xmin"@, "xmax"@, "ymin"@, "ymax"@);
    assert(seq!["id"@] + rtree_columns() =~= seq!["id"@, "xmin"@, "xmax"@, "ymin"@, "ymax"@]);
    let l = "id"@ + ", "@ + "xmin"@ + ", "@ + "xmax"@ + ", "@ + "ymin"@ + ", "@ + "ymax"@;
    assert("] USING rtree(id, xmin, xmax, ymin, ymax)"@ =~= "] USING rtree("@ + l + ")"@) by {
        reveal_strlit("] USING rtree(id, xmin, xmax, ymin, ymax)");
        reveal_strlit("] USING rtree(");
        reveal_strlit("id");
        reveal_strlit(", ");
        reveal_strlit("xmin");
        reveal_strlit("xmax");
        reveal_strlit("ymin");
        reveal_strlit("ymax");
        reveal_strlit(")");
    }
    let x = "CREATE VIRTUAL TABLE IF NOT EXISTS ["@ + rtree_name(t, c);
    assert(x + "] USING rtree(id, xmin, xmax, ymin, ymax)"@ =~= x + "] USING rtree("@ + l + ")"@);
}

/// The values list of an R-tree row: the row id, then the four bounds of `arg`.
proof fn lemma_row_values(id: Seq<char>, arg: Seq<char>)
    ensures
        listed(seq![id] + bound_values(rtree_columns(), arg)) =~= id + ", "@ + "ST_XMin"@ + "("@
            + arg + ")"@ + ", "@ + "ST_XMax"@ + "("@ + arg + ")"@ + ", "@ + "ST_YMin"@ + "("@ + arg
            + ")"@ + ", "@ + "ST_YMax"@ + "("@ + arg + ")"@,
{
    lemma_bound_values(arg);
    let bv = bound_values(rtree_columns(), arg);
    assert(seq![id] + bv =~= seq![id, bv[0], bv[1], bv[2], bv[3]]);
    lemma_listed_five(id, bv[0], bv[1], bv[2], bv[3]);
}

/// The literal pieces of the bulk load's SELECT list, split at the
/// boundaries of the row values.
proof fn lemma_bulk_load_pieces()
    ensures
        "] SELECT rowid, ST_XMin(["@ =~= "] SELECT "@ + "rowid"@ + ", "@ + "ST_XMin"@ + "("@ + "["@,
        "]), ST_XMax(["@ =~= "]"@ + ")"@ + ", "@ + "ST_XMax"@ + "("@ + "["@,
        "]), ST_YMin(["@ =~= "]"@ + ")"@ + ", "@ + "ST_YMin"@ + "("@ + "["@,
        "]), ST_YMax(["@ =~= "]"@ + ")"@ + ", "@ + "ST_YMax"@ + "("@ + "["@,
        "]) FROM ["@ =~= "]"@ + ")"@ + " FROM ["@,
{
    reveal_strlit("] SELECT rowid, ST_XMin([");
    reveal_strlit("]), ST_XMax([");
    reveal_strlit("]), ST_YMin([");
    reveal_strlit("]), ST_YMax([");
    reveal_strlit("]) FROM [");
    reveal_strlit("] SELECT ");
    reveal_strlit("rowid");
    reveal_strlit(", ");
    reveal_strlit("ST_XMin");
    reveal_strlit("ST_XMax");
    reveal_strlit("ST_YMin");
    reveal_strlit("ST_YMax");
    reveal_strlit("(");
    reveal_strlit("[");
    reveal_strlit("]");
    reveal_strlit(")");
    reveal_strlit(" FROM [");
}

proof fn lemma_close_value(
    s1: Seq<char>,
    x: Seq<char>,
    p: Seq<char>,
    b: Seq<char>,
    c: Seq<char>,
    e: Seq<char>,
    q: Seq<char>,
)
    ensures
        s1 + x + p + b + c + e + q =~= s1 + (x + p + (b + c + e) + q),
{
}

proof fn lemma_open_piece(
    z: Seq<char>,
    e: Seq<char>,
    q: Seq<char>,
    m: Seq<char>,
    x: Seq<char>,
    p: Seq<char>,
    b: Seq<char>,
)
    ensures
        z + (e + q + m + x + p + b) =~= z + e + q + m + x + p + b,
{
}

proof fn lemma_flat_list(
    s: Seq<char>,
    r: Seq<char>,
    m: Seq<char>,
    w0: Seq<char>,
    w1: Seq<char>,
    w2: Seq<char>,
    w3: Seq<char>,
)
    ensures
        s + (r + m + w0 + m + w1 + m + w2 + m + w3) =~= s + r + m + w0 + m + w1 + m + w2 + m + w3,
{
}

/// Four values joined by `m`, each a function name `x_i` applied to
/// `b + c + e` in the brackets `p`, `q`, regrouped around the occurrences
/// of `c`.
proof fn lemma_regroup_values(
    s: Seq<char>,
    r: Seq<char>,
    f: Seq<char>,
    x0: Seq<char>,
    x1: Seq<char>,
    x2: Seq<char>,
    x3: Seq<char>,
    c: Seq<char>,
    m: Seq<char>,
    p: Seq<char>,
    b: Seq<char>,
    e: Seq<char>,
    q: Seq<char>,
)
    ensures
        ({
            let a = b + c + e;
            let l = r + m + (x0 + p + a + q) + m + (x1 + p + a + q) + m + (x2 + p + a + q) + m
                + (x3 + p + a + q);
            s + l + f == (s + r + m + x0 + p + b) + c + (e + q + m + x1 + p + b) + c + (e + q + m
                + x2 + p + b) + c + (e + q + m + x3 + p + b) + c + (e + q + f)
        }),
{
    let a = b + c + e;
    let w0 = x0 + p + a + q;
    let w1 = x1 + p + a + q;
    let w2 = x2 + p + a + q;
    let w3 = x3 + p + a + q;
    let k1 = s + r + m + x0 + p + b;
    let t0 = s + r + m + w0;
    let t1 = t0 + m + w1;
    let t2 = t1 + m + w2;
    let t3 = t2 + m + w3;
    // first value
    lemma_open_piece(k1 + c, e, q, m, x1, p, b);
    lemma_close_value(s + r + m, x0, p, b, c, e, q);
    let z1 = k1 + c + (e + q + m + x1 + p + b);
    assert(z1 == t0 + m + x1 + p + b);
    // second value
    lemma_open_piece(z1 + c, e, q, m, x2, p, b);
    lemma_close_value(t0 + m, x1, p, b, c, e, q);
    let z2 = z1 + c + (e + q + m + x2 + p + b);
    assert(z2 == t1 + m + x2 + p + b);
    // third value
    lemma_open_piece(z2 + c, e, q, m, x3, p, b);
    lemma_close_value(t1 + m, x2, p, b, c, e, q);
    let z3 = z2 + c + (e + q + m + x3 + p + b);
    assert(z3 == t2 + m + x3 + p + b);
    // fourth value and the tail
    lemma_close_value(t2 + m, x3, p, b, c, e, q);
    assert(z3 + c + (e + q + f) =~= (z3 + c + e + q) + f);
    assert(z3 + c + (e + q + f) == t3 + f);
    lemma_flat_list(s, r, m, w0, w1, w2, w3);
    assert(s + (r + m + w0 + m + w1 + m + w2 + m + w3) + f == t3 + f);
}

/// The SELECT list of the bulk load, regrouped as the row values.
#[verifier::rlimit(100)]
proof fn lemma_bulk_load_values(c: Seq<char>)
    ensures
        "] SELECT "@ + listed(seq!["rowid"@] + bound_values(rtree_columns(), "["@ + c + "]"@))
            + " FROM ["@ =~= "] SELECT rowid, ST_XMin(["@ + c + "]), ST_XMax(["@ + c
            + "]), ST_YMin(["@ + c + "]), ST_YMax(["@ + c + "]) FROM ["@,
{
    lemma_row_values("rowid"@, "["@ + c + "]"@);
    lemma_bulk_load_pieces();
    lemma_regroup_values(
        "] SELECT "@,
        "rowid"@,
        " FROM ["@,
        "ST_XMin"@,
        "ST_XMax"@,
        "ST_YMin"@,
        "ST_YMax"@,
        c,
        ", "@,
        "("@,
        "["@,
        "]"@,
        ")"@,
    );
}

proof fn lemma_bulk_load(t: Seq<char>, c: Seq<char>)
    ensures
        ("INSERT INTO ["@ + rtree_name(t, c) + "] SELECT "@ + listed(
            seq!["rowid"@] + bound_values(rtree_columns(), "["@ + c + "]"@),
        ) + " FROM ["@).is_prefix_of(build_sql(2, t, c)),
{
    lemma_bulk_load_values(c);
    let x = "] SELECT rowid, ST_XMin(["@ + c + "]), ST_XMax(["@ + c + "]), ST_YMin(["@ + c
        + "]), ST_YMax(["@ + c + "]) FROM ["@;
    let h = "INSERT INTO ["@ + rtree_name(t, c);
    let rest = t + "] WHERE ["@ + c + "] IS NOT NULL AND ST_IsEmpty(["@ + c + "]) = 0"@;
    assert(build_sql(2, t, c) =~= h + x + rest);
    assert((h + x + rest).subrange(0, (h + x).len() as int) =~= h + x);
}

proof fn lemma_insert_trigger_pieces()
    ensures
        "]) = 0 BEGIN INSERT INTO ["@ =~= "]) = 0 BEGIN "@ + "INSERT INTO ["@,
        "] VALUES ( NEW.rowid, ST_XMin(NEW.["@ =~= "] VALUES ( "@ + "NEW.rowid"@ + ", "@
            + "ST_XMin"@ + "("@ + "NEW.["@,
        "]), ST_XMax(NEW.["@ =~= "]"@ + ")"@ + ", "@ + "ST_XMax"@ + "("@ + "NEW.["@,
        "]), ST_YMin(NEW.["@ =~= "]"@ + ")"@ + ", "@ + "ST_YMin"@ + "("@ + "NEW.["@,
        "]), ST_YMax(NEW.["@ =~= "]"@ + ")"@ + ", "@ + "ST_YMax"@ + "("@ + "NEW.["@,
        "]) ); END"@ =~= "]"@ + ")"@ + " ); END"@,
{
    reveal_strlit("]) = 0 BEGIN INSERT INTO [");
    reveal_strlit("]) = 0 BEGIN ");
    reveal_strlit("INSERT INTO [");
    reveal_strlit("] VALUES ( NEW.rowid, ST_XMin(NEW.[");
    reveal_strlit("]), ST_XMax(NEW.[");
    reveal_strlit("]), ST_YMin(NEW.[");
    reveal_strlit("]), ST_YMax(NEW.[");
    reveal_strlit("]) ); END");
    reveal_strlit("] VALUES ( ");
    reveal_strlit("NEW.rowid");
    reveal_strlit(", ");
    reveal_strlit("ST_XMin");
    reveal_strlit("ST_XMax");
    reveal_strlit("ST_YMin");
    reveal_strlit("ST_YMax");
    reveal_strlit("(");
    reveal_strlit("NEW.[");
    reveal_strlit("]");
    reveal_strlit(")");
    reveal_strlit(" ); END");
}

proof fn lemma_update_trigger_pieces()
    ensures
        "] WHERE id = OLD.rowid; INSERT INTO ["@ =~= "] WHERE id = OLD.rowid; "@
            + "INSERT INTO ["@,
        "] SELECT NEW.rowid, ST_XMin(NEW.["@ =~= "] SELECT "@ + "NEW.rowid"@ + ", "@ + "ST_XMin"@
            + "("@ + "NEW.["@,
        "]) WHERE NEW.["@ =~= "]"@ + ")"@ + " WHERE "@ + "NEW.["@,
{
    reveal_strlit("] WHERE id = OLD.rowid; INSERT INTO [");
    reveal_strlit("] WHERE id = OLD.rowid; ");
    reveal_strlit("INSERT INTO [");
    reveal_strlit("] SELECT NEW.rowid, ST_XMin(NEW.[");
    reveal_strlit("] SELECT ");
    reveal_strlit("NEW.rowid");
    reveal_strlit(", ");
    reveal_strlit("ST_XMin");
    reveal_strlit("(");
    reveal_strlit("NEW.[");
    reveal_strlit("]) WHERE NEW.[");
    reveal_strlit("]");
    reveal_strlit(")");
    reveal_strlit(" WHERE ");
}

proof fn lemma_occurs_after(pre: Seq<char>, w: Seq<char>, post: Seq<char>)
    ensures
        occurs_in(pre + w + post, w),
{
    let s = pre + w + post;
    assert(s.subrange(pre.len() as int, (pre.len() + w.len()) as int) =~= w);
}

#[verifier::rlimit(100)]
proof fn lemma_insert_values(c: Seq<char>)
    ensures
        "] VALUES ( "@ + listed(
            seq!["NEW.rowid"@] + bound_values(rtree_columns(), "NEW.["@ + c + "]"@),
        ) + " ); END"@ == "] VALUES ( NEW.rowid, ST_XMin(NEW.["@ + c + "]), ST_XMax(NEW.["@ + c
            + "]), ST_YMin(NEW.["@ + c + "]), ST_YMax(NEW.["@ + c + "]) ); END"@,
{
    lemma_row_values("NEW.rowid"@, "NEW.["@ + c + "]"@);
    lemma_insert_trigger_pieces();
    lemma_regroup_values(
        "] VALUES ( "@,
        "NEW.rowid"@,
        " ); END"@,
        "ST_XMin"@,
        "ST_XMax"@,
        "ST_YMin"@,
        "ST_YMax"@,
        c,
        ", "@,
        "("@,
        "NEW.["@,
        "]"@,
        ")"@,
    );
}

#[verifier::rlimit(100)]
proof fn lemma_update_values(c: Seq<char>)
    ensures
        "] SELECT "@ + listed(
            seq!["NEW.rowid"@] + bound_values(rtree_columns(), "NEW.["@ + c + "]"@),
        ) + " WHERE "@ == "] SELECT NEW.rowid, ST_XMin(NEW.["@ + c + "]), ST_XMax(NEW.["@ + c
            + "]), ST_YMin(NEW.["@ + c + "]), ST_YMax(NEW.["@ + c + "]"@ + ")"@ + " WHERE "@,
{
    lemma_row_values("NEW.rowid"@, "NEW.["@ + c + "]"@);
    lemma_insert_trigger_pieces();
    lemma_update_trigger_pieces();
    lemma_regroup_values(
        "] SELECT "@,
        "NEW.rowid"@,
        " WHERE "@,
        "ST_XMin"@,
        "ST_XMax"@,
        "ST_YMin"@,
        "ST_YMax"@,
        c,
        ", "@,
        "("@,
        "NEW.["@,
        "]"@,
        ")"@,
    );
}

#[verifier::rlimit(40)]
proof fn lemma_insert_trigger(t: Seq<char>, c: Seq<char>)
    ensures
        occurs_in(
            build_sql(3, t, c),
            "INSERT INTO ["@ + rtree_name(t, c) + "] VALUES ( "@ + listed(
                seq!["NEW.rowid"@] + bound_values(rtree_columns(), "NEW.["@ + c + "]"@),
            ) + " ); END"@,
        ),
{
    let rt = rtree_name(t, c);
    let prefix = index_prefix(t, c);
    lemma_insert_values(c);
    lemma_insert_trigger_pieces();
    let x = "] VALUES ( NEW.rowid, ST_XMin(NEW.["@ + c + "]), ST_XMax(NEW.["@ + c
        + "]), ST_YMin(NEW.["@ + c + "]), ST_YMax(NEW.["@ + c + "]) ); END"@;
    let h = "CREATE TRIGGER IF NOT EXISTS ["@ + prefix + "_insert] AFTER INSERT ON ["@ + t
        + "] WHEN NEW.["@ + c + "] IS NOT NULL AND ST_IsEmpty(NEW.["@ + c;
    assert(build_sql(3, t, c) =~= h + "]) = 0 BEGIN INSERT INTO ["@ + rt + x);
    let w = "INSERT INTO ["@ + rt + x;
    let l = listed(seq!["NEW.rowid"@] + bound_values(rtree_columns(), "NEW.["@ + c + "]"@));
    assert("INSERT INTO ["@ + rt + "] VALUES ( "@ + l + " ); END"@ =~= w);
    assert(build_sql(3, t, c) =~= (h + "]) = 0 BEGIN "@) + w + Seq::empty());
    lemma_occurs_after(h + "]) = 0 BEGIN "@, w, Seq::empty());
}

#[verifier::rlimit(40)]
proof fn lemma_update_trigger(t: Seq<char>, c: Seq<char>)
    ensures
        occurs_in(
            build_sql(4, t, c),
            "INSERT INTO ["@ + rtree_name(t, c) + "] SELECT "@ + listed(
                seq!["NEW.rowid"@] + bound_values(rtree_columns(), "NEW.["@ + c + "]"@),
            ) + " WHERE "@,
        ),
{
    let rt = rtree_name(t, c);
    let prefix = index_prefix(t, c);
    lemma_update_values(c);
    lemma_update_trigger_pieces();
    let x = "] SELECT NEW.rowid, ST_XMin(NEW.["@ + c + "]), ST_XMax(NEW.["@ + c
        + "]), ST_YMin(NEW.["@ + c + "]), ST_YMax(NEW.["@ + c + "]"@ + ")"@ + " WHERE "@;
    let h = "CREATE TRIGGER IF NOT EXISTS ["@ + prefix + "_update] AFTER UPDATE ON ["@ + t
        + "] WHEN OLD.["@ + c + "] IS NOT NEW.["@ + c
        + "] OR OLD.rowid IS NOT NEW.rowid BEGIN DELETE FROM ["@ + rt;
    let rest = "NEW.["@ + c + "] IS NOT NULL AND ST_IsEmpty(NEW.["@ + c + "]) = 0; END"@;
    let w = "INSERT INTO ["@ + rt + x;
    let l = listed(seq!["NEW.rowid"@] + bound_values(rtree_columns(), "NEW.["@ + c + "]"@));
    assert("INSERT INTO ["@ + rt + "] SELECT "@ + l + " WHERE "@ =~= w);
    assert(build_sql(4, t, c) =~= h + "] WHERE id = OLD.rowid; INSERT INTO ["@ + rt
        + "] SELECT NEW.rowid, ST_XMin(NEW.["@ + c + "]), ST_XMax(NEW.["@ + c
        + "]), ST_YMin(NEW.["@ + c + "]), ST_YMax(NEW.["@ + c + "]) WHERE NEW.["@ + c
        + "] IS NOT NULL AND ST_IsEmpty(NEW.["@ + c + "]) = 0; END"@);
    assert(build_sql(4, t, c) =~= (h + "] WHERE id = OLD.rowid; "@) + w + rest);
    lemma_occurs_after(h + "] WHERE id = OLD.rowid; "@, w, rest);
}

/// Every statement that writes the R-tree fills its declared columns in the
/// order they are declared: the row id goes to `id`, and each bound column
/// gets the bound of the geometry it is named after (`ST_XMin` into `xmin`,
/// `ST_XMax` into `xmax`, `ST_YMin` into `ymin`, `ST_YMax` into `ymax`), in
/// the bulk load and in both triggers that keep the index up to date.
pub proof fn law_rtree_rows_follow_its_columns(t: Seq<char>, c: Seq<char>)
    ensures
        build_sql(0, t, c) == "CREATE VIRTUAL TABLE IF NOT EXISTS ["@ + rtree_name(t, c)
            + "] USING rtree("@ + listed(seq!["id"@] + rtree_columns()) + ")"@,
        ("INSERT INTO ["@ + rtree_name(t, c) + "] SELECT "@ + listed(
            seq!["rowid"@] + bound_values(rtree_columns(), "["@ + c + "]"@),
        ) + " FROM ["@).is_prefix_of(build_sql(2, t, c)),
        occurs_in(
            build_sql(3, t, c),
            "INSERT INTO ["@ + rtree_name(t, c) + "] VALUES ( "@ + listed(
                seq!["NEW.rowid"@] + bound_values(rtree_columns(), "NEW.["@ + c + "]"@),
            ) + " ); END"@,
        ),
        occurs_in(
            build_sql(4, t, c),
            "INSERT INTO ["@ + rtree_name(t, c) + "] SELECT "@ + listed(
                seq!["NEW.rowid"@] + bound_values(rtree_columns(), "NEW.["@ + c + "]"@),
            ) + " WHERE "@,
        ),
{
    lemma_declaration(t, c);
    lemma_bulk_load(t, c);
    lemma_insert_trigger(t, c);
    lemma_update_trigger(t, c);
}

/// The value `m` holds for `k`, if any.
pub open spec fn entry<V>(m: Map<Seq<char>, V>, k: Seq<char>) -> Option<V> {
    if m.dom().contains(k) {
        Some(m[k])
    } else {
        None
    }
}

/// A database as the procedures read it: the type of each `sqlite_master`
/// object by name, the table each trigger is attached to, whether the
/// catalog has its three required columns, and the owner table and column
/// the catalog records for each prefix.
pub struct DbView {
    pub types: Map<Seq<char>, Seq<char>>,
    pub trigger_tables: Map<Seq<char>, Seq<char>>,
    pub catalog_columns: (bool, bool, bool),
    pub owners: Map<Seq<char>, (Seq<char>, Seq<char>)>,
}

/// The reply SQLite gives, on `db`, to the request the procedure on
/// `(t, c)` made when it entered `step`: statements run; a type lookup
/// returns the object's type; a trigger lookup its table; a shadow lookup
/// the table's name when a table of that name exists; the catalog lookups
/// the recorded owner; the managed-object lookup the R-tree's name when it
/// exists.
pub open spec fn db_reply(db: DbView, t: Seq<char>, c: Seq<char>, step: StepView) -> EventView {
    let prefix = index_prefix(t, c);
    let rtree = rtree_name(t, c);
    match step {
        StepView::CatalogLookup | StepView::ShapeLookup => EventView::Text(
            entry(db.types, catalog_name()),
        ),
        StepView::ShapeColumns => EventView::Columns(
            db.catalog_columns.0,
            db.catalog_columns.1,
            db.catalog_columns.2,
        ),
        StepView::TriggerOwner(k) => EventView::Text(
            entry(db.trigger_tables, prefix + trigger_suffix(k)),
        ),
        StepView::RtreeType => EventView::Text(entry(db.types, rtree)),
        StepView::Shadow(k) => EventView::Text(
            if entry(db.types, rtree + shadow_suffix(k)) == Some("table"@) {
                Some(rtree + shadow_suffix(k))
            } else {
                None
            },
        ),
        StepView::OwnerTable => EventView::Text(
            match entry(db.owners, prefix) {
                Some(o) => Some(o.0),
                None => None,
            },
        ),
        StepView::OwnerColumn(_) => EventView::Text(
            match entry(db.owners, prefix) {
                Some(o) => Some(o.1),
                None => None,
            },
        ),
        StepView::ManagedObjects => EventView::Text(
            if db.types.dom().contains(rtree) {
                Some(rtree)
            } else {
                None
            },
        ),
        _ => EventView::Done,
    }
}

/// Where the procedure `op` on `(t, c)` stands after `n` replies from `db`,
/// starting at `step`.
pub open spec fn run_on(
    op: IndexOp,
    t: Seq<char>,
    c: Seq<char>,
    db: DbView,
    step: StepView,
    n: nat,
) -> StepView
    decreases n,
{
    if n == 0 || step is Done {
        step
    } else {
        run_on(op, t, c, db, transition(op, t, c, step, db_reply(db, t, c, step)).0, (n - 1) as nat)
    }
}

/// An index of `(t, c)` that `CreateSpatialIndex` made is in place: the
/// catalog is a table with its columns and records `(t, c)` as the owner
/// of the prefix, no trigger of the prefix belongs to another table, and
/// the R-tree table and its three shadow tables exist.
pub open spec fn index_in_place(db: DbView, t: Seq<char>, c: Seq<char>) -> bool {
    let prefix = index_prefix(t, c);
    let rtree = rtree_name(t, c);
    &&& entry(db.types, catalog_name()) == Some("table"@)
    &&& db.catalog_columns == (true, true, true)
    &&& forall|k: nat| k < 3 ==> ((#[trigger] entry(db.trigger_tables, prefix + trigger_suffix(k)))
        matches Some(owner) ==> owner == t)
    &&& entry(db.types, rtree) == Some("table"@)
    &&& forall|k: nat| k < 3 ==> #[trigger] entry(db.types, rtree + shadow_suffix(k)) == Some(
        "table"@,
    )
    &&& entry(db.owners, prefix) == Some((t, c))
}

/// On a database where the index of `(t, c)` is in place, both procedures
/// get through every check: `DropSpatialIndex` reaches the removal of the
/// index's objects and `CreateSpatialIndex` the rowid probe before the
/// rebuild, each after the same fourteen replies. In particular the shadow
/// tables, which exist, are never taken as missing.
pub proof fn law_owned_index_passes_checks(op: IndexOp, t: Seq<char>, c: Seq<char>, db: DbView)
    requires
        index_in_place(db, t, c),
    ensures
        run_on(op, t, c, db, StepView::Savepoint, 14) == (match op {
            IndexOp::Drop => StepView::DropObjects(0),
            IndexOp::Create => StepView::Probe,
        }),
{
    let prefix = index_prefix(t, c);
    let rtree = rtree_name(t, c);
    assert((entry(db.trigger_tables, prefix + trigger_suffix(0)) matches Some(owner) ==> owner == t));
    assert((entry(db.trigger_tables, prefix + trigger_suffix(1)) matches Some(owner) ==> owner == t));
    assert((entry(db.trigger_tables, prefix + trigger_suffix(2)) matches Some(owner) ==> owner == t));
    assert(entry(db.types, rtree + shadow_suffix(0)) == Some("table"@));
    assert(entry(db.types, rtree + shadow_suffix(1)) == Some("table"@));
    assert(entry(db.types, rtree + shadow_suffix(2)) == Some("table"@));
    reveal_with_fuel(run_on, 15);
}

/// An R-tree table whose shadow table `k0` is missing is not an index the
/// procedures manage: with everything else of the index in place, both
/// procedures stop (and roll back) instead of going on.
pub proof fn law_missing_shadow_stops(
    op: IndexOp,
    t: Seq<char>,
    c: Seq<char>,
    db: DbView,
    k0: nat,
)
    requires
        k0 < 3,
        entry(db.types, catalog_name()) == Some("table"@),
        db.catalog_columns == (true, true, true),
        forall|k: nat|
            k < 3 ==> ((#[trigger] entry(db.trigger_tables, index_prefix(t, c) + trigger_suffix(k)))
                matches Some(owner) ==> owner == t),
        entry(db.types, rtree_name(t, c)) == Some("table"@),
        forall|k: nat| k < k0 ==> #[trigger] entry(db.types, rtree_name(t, c) + shadow_suffix(k))
            == Some("table"@),
        entry(db.types, rtree_name(t, c) + shadow_suffix(k0)) != Some("table"@),
    ensures
        run_on(op, t, c, db, StepView::Savepoint, 14) == StepView::Done,
{
    let prefix = index_prefix(t, c);
    let rtree = rtree_name(t, c);
    assert((entry(db.trigger_tables, prefix + trigger_suffix(0)) matches Some(owner) ==> owner == t));
    assert((entry(db.trigger_tables, prefix + trigger_suffix(1)) matches Some(owner) ==> owner == t));
    assert((entry(db.trigger_tables, prefix + trigger_suffix(2)) matches Some(owner) ==> owner == t));
    if k0 > 0 {
        assert(entry(db.types, rtree + shadow_suffix(0)) == Some("table"@));
    }
    if k0 > 1 {
        assert(entry(db.types, rtree + shadow_suffix(1)) == Some("table"@));
    }
    reveal_with_fuel(run_on, 15);
}

} // verus!
