use sqlitegis::spatial_index::{
    next_action, start_index_task, ArgText, IndexAction, IndexEvent, IndexOp, IndexTask,
};

/// What a request shows: its kind and text.
#[derive(Debug, PartialEq)]
enum Seen {
    Exec(String),
    Lookup(String),
    Columns,
    Abort(Vec<String>, String),
    Finish,
}

/// Run a procedure, answering each request with `reply`; returns every
/// request made.
fn drive(
    op: IndexOp,
    table: &str,
    column: &str,
    mut reply: impl FnMut(&Seen) -> IndexEvent,
) -> Vec<Seen> {
    let (mut task, mut action): (IndexTask, IndexAction) = start_index_task(
        op,
        ArgText::Text(table.to_string()),
        ArgText::Text(column.to_string()),
    )
    .expect("valid names");
    let mut seen = Vec::new();
    loop {
        let s = match action {
            IndexAction::Exec(sql) => Seen::Exec(sql),
            IndexAction::LookupText(sql) => Seen::Lookup(sql),
            IndexAction::InspectCatalogColumns => Seen::Columns,
            IndexAction::Abort(rb, m) => Seen::Abort(rb, m),
            IndexAction::Finish => Seen::Finish,
        };
        let done = matches!(s, Seen::Abort(..) | Seen::Finish);
        let event = if done { None } else { Some(reply(&s)) };
        seen.push(s);
        match event {
            None => return seen,
            Some(e) => action = next_action(&mut task, e),
        }
    }
}

fn fresh_database(s: &Seen) -> IndexEvent {
    match s {
        Seen::Exec(_) => IndexEvent::Done,
        Seen::Lookup(sql) if sql.contains("name = 'sqlitegis_spatial_index_catalog'") => {
            IndexEvent::Text(Some("table".to_string()))
        }
        Seen::Lookup(_) => IndexEvent::Text(None),
        Seen::Columns => IndexEvent::Columns(true, true, true),
        _ => unreachable!(),
    }
}

#[test]
fn create_on_a_fresh_database_builds_the_index() {
    let seen = drive(IndexOp::Create, "cities", "geom", fresh_database);
    assert_eq!(seen[0], Seen::Exec("SAVEPOINT sqlitegis_create_spatial_index".to_string()));
    assert_eq!(
        seen[3],
        Seen::Lookup(
            "SELECT type FROM sqlite_master WHERE name = 'sqlitegis_spatial_index_catalog' LIMIT 1"
                .to_string()
        )
    );
    assert!(seen.contains(&Seen::Lookup(
        "SELECT tbl_name FROM sqlite_master WHERE type = 'trigger' AND name = 'cities_geom_update' LIMIT 1"
            .to_string()
    )));
    assert!(seen.contains(&Seen::Exec("SELECT rowid FROM [cities] LIMIT 0".to_string())));
    assert!(seen.contains(&Seen::Exec(
        "CREATE VIRTUAL TABLE IF NOT EXISTS [cities_geom_rtree] USING rtree(id, xmin, xmax, ymin, ymax)"
            .to_string()
    )));
    assert!(seen.contains(&Seen::Exec(
        "CREATE TRIGGER IF NOT EXISTS [cities_geom_delete] AFTER DELETE ON [cities] BEGIN DELETE FROM [cities_geom_rtree] WHERE id = OLD.rowid; END"
            .to_string()
    )));
    let n = seen.len();
    assert_eq!(seen[n - 2], Seen::Exec("RELEASE sqlitegis_create_spatial_index".to_string()));
    assert_eq!(seen[n - 1], Seen::Finish);
    assert_eq!(n, 21);
}

#[test]
fn drop_of_a_missing_index_only_releases() {
    let seen = drive(IndexOp::Drop, "cities", "geom", fresh_database);
    assert!(!seen.iter().any(|s| matches!(s, Seen::Exec(sql) if sql.starts_with("DROP"))));
    let n = seen.len();
    assert_eq!(seen[n - 2], Seen::Exec("RELEASE sqlitegis_drop_spatial_index".to_string()));
    assert_eq!(seen[n - 1], Seen::Finish);
}

#[test]
fn drop_of_an_owned_index_removes_it() {
    let seen = drive(IndexOp::Drop, "cities", "geom", |s| match s {
        Seen::Lookup(sql) if sql.starts_with("SELECT table_name FROM") => {
            IndexEvent::Text(Some("cities".to_string()))
        }
        Seen::Lookup(sql) if sql.starts_with("SELECT column_name FROM") => {
            IndexEvent::Text(Some("geom".to_string()))
        }
        other => fresh_database(other),
    });
    let drops: Vec<&Seen> = seen
        .iter()
        .filter(|s| matches!(s, Seen::Exec(sql) if sql.starts_with("DROP") || sql.starts_with("DELETE")))
        .collect();
    assert_eq!(
        drops,
        vec![
            &Seen::Exec("DROP TRIGGER IF EXISTS [cities_geom_insert]".to_string()),
            &Seen::Exec("DROP TRIGGER IF EXISTS [cities_geom_update]".to_string()),
            &Seen::Exec("DROP TRIGGER IF EXISTS [cities_geom_delete]".to_string()),
            &Seen::Exec("DROP TABLE IF EXISTS [cities_geom_rtree]".to_string()),
            &Seen::Exec(
                "DELETE FROM [sqlitegis_spatial_index_catalog] WHERE prefix = 'cities_geom'"
                    .to_string()
            ),
        ]
    );
    assert_eq!(seen.last(), Some(&Seen::Finish));
}

#[test]
fn foreign_trigger_is_a_collision() {
    let seen = drive(IndexOp::Create, "cities", "geom", |s| match s {
        Seen::Lookup(sql) if sql.contains("name = 'cities_geom_insert'") => {
            IndexEvent::Text(Some("towns".to_string()))
        }
        other => fresh_database(other),
    });
    assert_eq!(
        seen.last(),
        Some(&Seen::Abort(
            vec![
                "ROLLBACK TO sqlitegis_create_spatial_index".to_string(),
                "RELEASE sqlitegis_create_spatial_index".to_string()
            ],
            "CreateSpatialIndex: naming collision for trigger [cities_geom_insert] between tables [towns] and [cities]"
                .to_string()
        ))
    );
}

#[test]
fn prefix_owned_by_another_column_is_a_collision() {
    let seen = drive(IndexOp::Drop, "cities", "geom", |s| match s {
        Seen::Lookup(sql) if sql.starts_with("SELECT table_name FROM") => {
            IndexEvent::Text(Some("cities".to_string()))
        }
        Seen::Lookup(sql) if sql.starts_with("SELECT column_name FROM") => {
            IndexEvent::Text(Some("shape".to_string()))
        }
        other => fresh_database(other),
    });
    match seen.last() {
        Some(Seen::Abort(rb, m)) => {
            assert_eq!(rb.len(), 2);
            assert_eq!(
                m,
                "DropSpatialIndex: naming collision for managed prefix [cities_geom] between [cities.shape] and [cities.geom]"
            );
        }
        other => panic!("unexpected {other:?}"),
    }
}

#[test]
fn failures_are_reported_with_their_context() {
    let seen = drive(IndexOp::Create, "t", "g", |s| match s {
        Seen::Exec(sql) if sql.starts_with("SELECT rowid") => IndexEvent::Failed("no such column: rowid".to_string()),
        other => fresh_database(other),
    });
    match seen.last() {
        Some(Seen::Abort(rb, m)) => {
            assert_eq!(rb.len(), 2);
            assert!(m.starts_with("CreateSpatialIndex: table [t] has no rowid column."));
        }
        other => panic!("unexpected {other:?}"),
    }
    let seen = drive(IndexOp::Create, "t", "g", |s| match s {
        Seen::Exec(sql) if sql.starts_with("SAVEPOINT") => IndexEvent::Failed("busy".to_string()),
        other => fresh_database(other),
    });
    assert_eq!(seen.last(), Some(&Seen::Abort(vec![], "busy".to_string())));
    let seen = drive(IndexOp::Drop, "t", "g", |s| match s {
        Seen::Columns => IndexEvent::Columns(true, false, true),
        other => fresh_database(other),
    });
    match seen.last() {
        Some(Seen::Abort(_, m)) => assert_eq!(
            m,
            "DropSpatialIndex: invalid spatial index catalog schema for [sqlitegis_spatial_index_catalog] (missing required column [table_name])"
        ),
        other => panic!("unexpected {other:?}"),
    }
}

#[test]
fn arguments_are_checked_first() {
    let err = |t: ArgText, c: ArgText| match start_index_task(IndexOp::Create, t, c) {
        Err(m) => m,
        Ok(_) => panic!("accepted"),
    };
    assert_eq!(err(ArgText::Null, ArgText::Null), "CreateSpatialIndex: table name must not be NULL");
    assert_eq!(
        err(ArgText::Text("t".into()), ArgText::NotUtf8),
        "CreateSpatialIndex: column name must be valid UTF-8 text"
    );
    assert_eq!(
        err(ArgText::Text("t; DROP".into()), ArgText::Text("g".into())),
        "CreateSpatialIndex: invalid table name (only [a-zA-Z0-9_] allowed)"
    );
    assert_eq!(
        err(ArgText::Text("t".into()), ArgText::Text("".into())),
        "CreateSpatialIndex: invalid column name (only [a-zA-Z0-9_] allowed)"
    );
}
