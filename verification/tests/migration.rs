use tml::migration::{down_plan, table_def, up_plan, ColumnKind, Schema, Table};

#[test]
fn schemas_are_created_and_dropped_by_name() {
    assert_eq!(Schema::Auth.name(), "auth");
    assert_eq!(Schema::Mgmt.create_statement(), "CREATE SCHEMA IF NOT EXISTS mgmt;");
    assert_eq!(Schema::App.drop_statement(), "DROP SCHEMA IF EXISTS app;");
}

#[test]
fn tables_live_in_their_schemas() {
    assert_eq!(Table::User.schema(), Schema::Auth);
    assert_eq!(Table::Job.schema(), Schema::Mgmt);
    assert_eq!(Table::MusicInfoMusicList.schema(), Schema::App);
    assert_eq!(Table::MusicInfoMusicList.name(), "music_info_music_list");
}

#[test]
fn up_plan_creates_every_table_after_those_it_references() {
    let plan = up_plan();
    assert_eq!(plan.schemas, vec![Schema::Auth, Schema::Mgmt, Schema::App]);
    let order: Vec<Table> = plan.tables.iter().map(|d| d.table).collect();
    assert_eq!(order.len(), 8);
    for (i, d) in plan.tables.iter().enumerate() {
        for fk in &d.foreign_keys {
            let j = order.iter().position(|t| *t == fk.to_table).unwrap();
            assert!(j < i, "{} references a later table", d.table.name());
        }
        for ix in &d.indexes {
            assert_eq!(ix.table, d.table);
        }
        let keyed = d.primary_key.is_some()
            || d.columns.iter().any(|c| c.primary_key || c.kind == ColumnKind::BigPkAuto);
        assert!(keyed, "{} has no primary key", d.table.name());
    }
    assert_eq!(plan.roles, vec!["admin", "normal-user"]);
}

#[test]
fn down_plan_drops_tables_in_reverse_creation_order() {
    let up: Vec<Table> = up_plan().tables.iter().map(|d| d.table).collect();
    let mut reversed = up.clone();
    reversed.reverse();
    let down = down_plan();
    assert_eq!(down.tables, reversed);
    assert_eq!(down.schemas, vec![Schema::Auth, Schema::Mgmt, Schema::App]);
}

#[test]
fn playlist_entries_are_unique_by_position() {
    let d = table_def(Table::MusicInfoMusicList);
    let key = d.primary_key.unwrap();
    assert_eq!(key.columns, vec!["music_list_id", "music_info_id"]);
    assert_eq!(d.indexes.len(), 1);
    assert!(d.indexes[0].unique);
    assert_eq!(d.indexes[0].columns, vec!["music_list_id", "order"]);
    let targets: Vec<Table> = d.foreign_keys.iter().map(|f| f.to_table).collect();
    assert_eq!(targets, vec![Table::MusicList, Table::MusicInfo]);
}

#[test]
fn user_and_music_info_columns_are_declared_in_order() {
    let user: Vec<(&str, ColumnKind)> = table_def(Table::User).columns.iter().map(|c| (c.name, c.kind)).collect();
    assert_eq!(
        user,
        vec![
            ("id", ColumnKind::BigPkAuto),
            ("username", ColumnKind::String),
            ("password_hash", ColumnKind::String),
            ("enabled", ColumnKind::Boolean),
            ("created_at", ColumnKind::TimestampWithTimeZone),
            ("security_stamp", ColumnKind::Uuid),
        ]
    );
    assert!(table_def(Table::User).columns[1].unique_key);
    let info = table_def(Table::MusicInfo);
    assert!(info.columns[0].primary_key);
    assert_eq!(info.columns[0].kind, ColumnKind::Binary);
    assert_eq!(info.columns[1].kind, ColumnKind::StringArray);
    assert_eq!(info.columns.len(), 11);
    assert_eq!(info.foreign_keys[0].name, "fk-music_info-storage_id");
    let job = table_def(Table::Job);
    assert_eq!(job.columns.last().unwrap().name, "completed_at");
    assert_eq!(job.columns.last().unwrap().nullability, tml::migration::Nullability::Null);
}
