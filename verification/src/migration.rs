//! The database schema, as a plan of creation and removal steps that the
//! migration runner carries out in order.
use vstd::prelude::*;

verus! {

#[derive(Debug, Clone, Copy, PartialEq, Eq, Structural)]
pub enum Schema {
    Auth,
    Mgmt,
    App,
}

#[derive(Debug, Clone, Copy, PartialEq, Eq, Structural)]
pub enum Table {
    User,
    Role,
    UserRole,
    Job,
    Storage,
    MusicInfo,
    MusicList,
    MusicInfoMusicList,
}

/// The schema a table lives in.
pub open spec fn schema_of(t: Table) -> Schema {
    match t {
        Table::User | Table::Role | Table::UserRole => Schema::Auth,
        Table::Job | Table::Storage => Schema::Mgmt,
        Table::MusicInfo | Table::MusicList | Table::MusicInfoMusicList => Schema::App,
    }
}

/// The tables a table has foreign keys to, in the order they are declared.
pub open spec fn references(t: Table) -> Seq<Table> {
    match t {
        Table::UserRole => seq![Table::User, Table::Role],
        Table::Job => seq![Table::User],
        Table::MusicInfo => seq![Table::Storage],
        Table::MusicList => seq![Table::User],
        Table::MusicInfoMusicList => seq![Table::MusicList, Table::MusicInfo],
        _ => Seq::empty(),
    }
}

pub open spec fn table_name(t: Table) -> Seq<char> {
    match t {
        Table::User => "user"@,
        Table::Role => "role"@,
        Table::UserRole => "user_role"@,
        Table::Job => "job"@,
        Table::Storage => "storage"@,
        Table::MusicInfo => "music_info"@,
        Table::MusicList => "music_list"@,
        Table::MusicInfoMusicList => "music_info_music_list"@,
    }
}

pub open spec fn schema_name(s: Schema) -> Seq<char> {
    match s {
        Schema::Auth => "auth"@,
        Schema::Mgmt => "mgmt"@,
        Schema::App => "app"@,
    }
}

impl Schema {
    pub fn name(&self) -> (r: &'static str)
        ensures
            r@ == schema_name(*self),
    {
        match self {
            Schema::Auth => "auth",
            Schema::Mgmt => "mgmt",
            Schema::App => "app",
        }
    }

    pub fn create_statement(&self) -> (r: String)
        ensures
            r@ == "CREATE SCHEMA IF NOT EXISTS "@ + schema_name(*self) + ";"@,
    {
        let mut s = String::from_str("CREATE SCHEMA IF NOT EXISTS ");
        s.append(self.name());
        s.append(";");
        s
    }

    pub fn drop_statement(&self) -> (r: String)
        ensures
            r@ == "DROP SCHEMA IF EXISTS "@ + schema_name(*self) + ";"@,
    {
        let mut s = String::from_str("DROP SCHEMA IF EXISTS ");
        s.append(self.name());
        s.append(";");
        s
    }
}

impl Table {
    pub fn schema(&self) -> (r: Schema)
        ensures
            r == schema_of(*self),
    {
        match self {
            Table::User | Table::Role | Table::UserRole => Schema::Auth,
            Table::Job | Table::Storage => Schema::Mgmt,
            Table::MusicInfo | Table::MusicList | Table::MusicInfoMusicList => Schema::App,
        }
    }

    pub fn name(&self) -> (r: &'static str)
        ensures
            r@ == table_name(*self),
    {
        match self {
            Table::User => "user",
            Table::Role => "role",
            Table::UserRole => "user_role",
            Table::Job => "job",
            Table::Storage => "storage",
            Table::MusicInfo => "music_info",
            Table::MusicList => "music_list",
            Table::MusicInfoMusicList => "music_info_music_list",
        }
    }
}

/// The column types in use, named after the schema helpers that make them.
#[derive(Debug, Clone, Copy, PartialEq, Eq, Structural)]
pub enum ColumnKind {
    /// A 64-bit auto-incremented primary key.
    BigPkAuto,
    BigInteger,
    Integer,
    TinyInteger,
    Boolean,
    String,
    StringArray,
    Binary,
    Json,
    Uuid,
    TimestampWithTimeZone,
}

/// Whether a column was marked nullable, marked not-null, or left as its
/// type's helper makes it.
#[derive(Debug, Clone, Copy, PartialEq, Eq, Structural)]
pub enum Nullability {
    Default,
    Null,
    NotNull,
}

#[derive(Debug, Clone, Copy)]
pub struct Column {
    pub name: &'static str,
    pub kind: ColumnKind,
    pub primary_key: bool,
    pub unique_key: bool,
    pub nullability: Nullability,
}

#[derive(Debug, Clone, Copy, PartialEq, Eq, Structural)]
pub enum ForeignKeyAction {
    Cascade,
    Restrict,
}

#[derive(Debug, Clone, Copy)]
pub struct ForeignKey {
    pub name: &'static str,
    pub from_col: &'static str,
    pub to_table: Table,
    pub to_col: &'static str,
    pub on_delete: ForeignKeyAction,
    pub on_update: ForeignKeyAction,
}

/// A named primary key over several columns.
pub struct CompositeKey {
    pub name: &'static str,
    pub columns: Vec<&'static str>,
}

pub struct IndexDef {
    pub table: Table,
    pub name: &'static str,
    pub columns: Vec<&'static str>,
    pub unique: bool,
}

/// A table, created if it does not exist yet, followed by the indexes made
/// on it right after it.
pub struct TableDef {
    pub table: Table,
    pub columns: Vec<Column>,
    pub primary_key: Option<CompositeKey>,
    pub foreign_keys: Vec<ForeignKey>,
    pub indexes: Vec<IndexDef>,
}

/// Applying the schema: create the schemas, then each table with its
/// indexes in order, then insert the built-in roles.
pub struct UpPlan {
    pub schemas: Vec<Schema>,
    pub tables: Vec<TableDef>,
    pub roles: Vec<&'static str>,
}

/// Reverting the schema: drop each table in order, then each schema.
pub struct DownPlan {
    pub tables: Vec<Table>,
    pub schemas: Vec<Schema>,
}

pub open spec fn all_schemas() -> Seq<Schema> {
    seq![Schema::Auth, Schema::Mgmt, Schema::App]
}

/// The order tables are created in.
pub open spec fn creation_order() -> Seq<Table> {
    seq![
        Table::User,
        Table::Role,
        Table::UserRole,
        Table::Job,
        Table::Storage,
        Table::MusicInfo,
        Table::MusicList,
        Table::MusicInfoMusicList,
    ]
}

/// Where a table stands in the creation order.
pub open spec fn creation_rank(t: Table) -> int {
    match t {
        Table::User => 0,
        Table::Role => 1,
        Table::UserRole => 2,
        Table::Job => 3,
        Table::Storage => 4,
        Table::MusicInfo => 5,
        Table::MusicList => 6,
        Table::MusicInfoMusicList => 7,
    }
}

pub open spec fn table_of(d: TableDef) -> Table {
    d.table
}

pub open spec fn target_of(f: ForeignKey) -> Table {
    f.to_table
}

/// A column as the schema declares it: name, type, primary key, unique
/// key, nullability.
pub open spec fn column_shape(c: Column) -> (Seq<char>, ColumnKind, bool, bool, Nullability) {
    (c.name@, c.kind, c.primary_key, c.unique_key, c.nullability)
}

/// A foreign key: its name, the column it is on, the table and column it
/// points at, and what deletes and updates there do.
pub open spec fn foreign_key_shape(f: ForeignKey) -> (Seq<char>, Seq<char>, Table, Seq<char>, ForeignKeyAction, ForeignKeyAction) {
    (f.name@, f.from_col@, f.to_table, f.to_col@, f.on_delete, f.on_update)
}

pub open spec fn names(v: Seq<&'static str>) -> Seq<Seq<char>> {
    v.map_values(|c: &'static str| c@)
}

/// An index: its name, its columns in order, and whether it is unique.
pub open spec fn index_shape(ix: IndexDef) -> (Seq<char>, Seq<Seq<char>>, bool) {
    (ix.name@, names(ix.columns@), ix.unique)
}

pub open spec fn key_shape(k: Option<CompositeKey>) -> Option<(Seq<char>, Seq<Seq<char>>)> {
    match k {
        Some(k) => Some((k.name@, names(k.columns@))),
        None => None,
    }
}

pub open spec fn pk_auto(name: Seq<char>) -> (Seq<char>, ColumnKind, bool, bool, Nullability) {
    (name, ColumnKind::BigPkAuto, false, false, Nullability::Default)
}

pub open spec fn plain(name: Seq<char>, kind: ColumnKind) -> (Seq<char>, ColumnKind, bool, bool, Nullability) {
    (name, kind, false, false, Nullability::Default)
}

pub open spec fn required(name: Seq<char>, kind: ColumnKind) -> (Seq<char>, ColumnKind, bool, bool, Nullability) {
    (name, kind, false, false, Nullability::NotNull)
}

pub open spec fn unique_col(name: Seq<char>, kind: ColumnKind) -> (Seq<char>, ColumnKind, bool, bool, Nullability) {
    (name, kind, false, true, Nullability::Default)
}

/// The columns of each table, in the order they are declared.
pub open spec fn columns_of(t: Table) -> Seq<(Seq<char>, ColumnKind, bool, bool, Nullability)> {
    match t {
        Table::User => seq![
            pk_auto("id"@),
            unique_col("username"@, ColumnKind::String),
            plain("password_hash"@, ColumnKind::String),
            plain("enabled"@, ColumnKind::Boolean),
            plain("created_at"@, ColumnKind::TimestampWithTimeZone),
            plain("security_stamp"@, ColumnKind::Uuid),
        ],
        Table::Role => seq![pk_auto("id"@), unique_col("name"@, ColumnKind::String)],
        Table::UserRole => seq![plain("user_id"@, ColumnKind::BigInteger), plain("role_id"@, ColumnKind::BigInteger)],
        Table::Job => seq![
            pk_auto("id"@),
            plain("job_type"@, ColumnKind::TinyInteger),
            plain("job_args"@, ColumnKind::Json),
            plain("status"@, ColumnKind::TinyInteger),
            plain("description"@, ColumnKind::String),
            plain("error_message"@, ColumnKind::String),
            plain("success"@, ColumnKind::Boolean),
            plain("created_by_id"@, ColumnKind::BigInteger),
            plain("created_at"@, ColumnKind::TimestampWithTimeZone),
            ("completed_at"@, ColumnKind::TimestampWithTimeZone, false, false, Nullability::Null),
        ],
        Table::Storage => seq![
            pk_auto("id"@),
            unique_col("name"@, ColumnKind::String),
            unique_col("path"@, ColumnKind::String),
        ],
        Table::MusicInfo => seq![
            ("id"@, ColumnKind::Binary, true, false, Nullability::Default),
            required("artists"@, ColumnKind::StringArray),
            required("album_title"@, ColumnKind::String),
            required("title"@, ColumnKind::String),
            required("track_number"@, ColumnKind::Integer),
            required("audio_bitrate"@, ColumnKind::Integer),
            required("sample_rate"@, ColumnKind::Integer),
            required("channels"@, ColumnKind::TinyInteger),
            required("bit_depth"@, ColumnKind::TinyInteger),
            required("storage_id"@, ColumnKind::BigInteger),
            required("file_path"@, ColumnKind::String),
        ],
        Table::MusicList => seq![
            pk_auto("id"@),
            unique_col("name"@, ColumnKind::String),
            required("user_id"@, ColumnKind::BigInteger),
        ],
        Table::MusicInfoMusicList => seq![
            required("music_list_id"@, ColumnKind::BigInteger),
            required("music_info_id"@, ColumnKind::Binary),
            required("order"@, ColumnKind::String),
        ],
    }
}

pub open spec fn cascading(name: Seq<char>, from_col: Seq<char>, to: Table) -> (Seq<char>, Seq<char>, Table, Seq<char>, ForeignKeyAction, ForeignKeyAction) {
    (name, from_col, to, "id"@, ForeignKeyAction::Cascade, ForeignKeyAction::Cascade)
}

/// The foreign keys of each table, in the order they are declared.
pub open spec fn foreign_keys_of(t: Table) -> Seq<(Seq<char>, Seq<char>, Table, Seq<char>, ForeignKeyAction, ForeignKeyAction)> {
    match t {
        Table::UserRole => seq![
            cascading("fk-user_role-user_id"@, "user_id"@, Table::User),
            cascading("fk-user_role-role_id"@, "role_id"@, Table::Role),
        ],
        Table::Job => seq![cascading("fk-job-created_by_id"@, "created_by_id"@, Table::User)],
        Table::MusicInfo => seq![
            ("fk-music_info-storage_id"@, "storage_id"@, Table::Storage, "id"@, ForeignKeyAction::Restrict, ForeignKeyAction::Restrict),
        ],
        Table::MusicList => seq![cascading("fk-music_list-user_id"@, "user_id"@, Table::User)],
        Table::MusicInfoMusicList => seq![
            cascading("fk-music_info_music_list-music_list_id"@, "music_list_id"@, Table::MusicList),
            cascading("fk-music_info_music_list-music_info_id"@, "music_info_id"@, Table::MusicInfo),
        ],
        _ => Seq::empty(),
    }
}

/// The indexes made on each table right after it.
pub open spec fn indexes_of(t: Table) -> Seq<(Seq<char>, Seq<Seq<char>>, bool)> {
    match t {
        Table::UserRole => seq![("idx-user_role-role_id"@, seq!["role_id"@], false)],
        Table::Job => seq![("idx-job-created_by_id"@, seq!["created_by_id"@], false)],
        Table::MusicInfo => seq![("idx-music_info-storage_id"@, seq!["storage_id"@], false)],
        Table::MusicList => seq![("idx-music_list-user_id"@, seq!["user_id"@], false)],
        Table::MusicInfoMusicList => seq![
            ("idx-music_info_music_list-music_list_id_order"@, seq!["music_list_id"@, "order"@], true),
        ],
        _ => Seq::empty(),
    }
}

/// The primary key over several columns of each table that has one.
pub open spec fn composite_key_of(t: Table) -> Option<(Seq<char>, Seq<Seq<char>>)> {
    match t {
        Table::UserRole => Some(("pk-user_role"@, seq!["user_id"@, "role_id"@])),
        Table::MusicInfoMusicList => Some(("pk-music_info_music_list"@, seq!["music_list_id"@, "music_info_id"@])),
        _ => None,
    }
}

/// A table definition holds exactly the columns, foreign keys, indexes and
/// composite key declared for its table.
pub open spec fn table_shaped(d: TableDef) -> bool {
    &&& d.columns@.map_values(|c: Column| column_shape(c)) == columns_of(d.table)
    &&& d.foreign_keys@.map_values(|f: ForeignKey| foreign_key_shape(f)) == foreign_keys_of(d.table)
    &&& d.indexes@.map_values(|ix: IndexDef| index_shape(ix)) == indexes_of(d.table)
    &&& key_shape(d.primary_key) == composite_key_of(d.table)
}

/// Deleting or updating a row carries over to the rows that point at it,
/// with one exception: a storage location cannot be deleted or re-keyed
/// while music refers to it. Every foreign key points at the `id` column of
/// a table its own table references.
pub proof fn lemma_foreign_keys_cascade_except_to_storage(t: Table, i: int)
    requires
        0 <= i < foreign_keys_of(t).len(),
    ensures
        ({
            let (_name, _from, to, to_col, on_delete, on_update) = foreign_keys_of(t)[i];
            &&& to == references(t)[i]
            &&& to_col == "id"@
            &&& on_delete == on_update
            &&& (to == Table::Storage ==> on_delete == ForeignKeyAction::Restrict)
            &&& (to != Table::Storage ==> on_delete == ForeignKeyAction::Cascade)
        }),
        t == Table::MusicInfoMusicList ==> foreign_keys_of(t).len() == 2 && foreign_keys_of(t)[0].2 == Table::MusicList
            && foreign_keys_of(t)[1].2 == Table::MusicInfo,
{
}

/// A table is keyed: by a composite key, or by one of its columns.
pub open spec fn has_primary_key(d: TableDef) -> bool {
    d.primary_key is Some || exists|c: int|
        0 <= c < d.columns@.len() && ((#[trigger] d.columns@[c]).primary_key || d.columns@[c].kind
            == ColumnKind::BigPkAuto)
}

fn col(name: &'static str, kind: ColumnKind) -> (r: Column)
    ensures
        r == (Column { name, kind, primary_key: false, unique_key: false, nullability: Nullability::Default }),
{
    Column { name, kind, primary_key: false, unique_key: false, nullability: Nullability::Default }
}

fn not_null(name: &'static str, kind: ColumnKind) -> (r: Column)
    ensures
        r == (Column { name, kind, primary_key: false, unique_key: false, nullability: Nullability::NotNull }),
{
    Column { name, kind, primary_key: false, unique_key: false, nullability: Nullability::NotNull }
}

fn unique(name: &'static str, kind: ColumnKind) -> (r: Column)
    ensures
        r == (Column { name, kind, primary_key: false, unique_key: true, nullability: Nullability::Default }),
{
    Column { name, kind, primary_key: false, unique_key: true, nullability: Nullability::Default }
}

fn cascade(name: &'static str, from_col: &'static str, to_table: Table) -> (r: ForeignKey)
    ensures
        r.name == name,
        r.from_col == from_col,
        r.to_table == to_table,
        r.to_col@ == "id"@,
        r.on_delete == ForeignKeyAction::Cascade,
        r.on_update == ForeignKeyAction::Cascade,
{
    ForeignKey {
        name,
        from_col,
        to_table,
        to_col: "id",
        on_delete: ForeignKeyAction::Cascade,
        on_update: ForeignKeyAction::Cascade,
    }
}

fn index(table: Table, name: &'static str, column: &'static str) -> (r: IndexDef)
    ensures
        r.table == table,
        r.name == name,
        r.columns@ == seq![column],
        names(r.columns@) == seq![column@],
        !r.unique,
{
    let mut columns: Vec<&'static str> = Vec::new();
    columns.push(column);
    assert(names(columns@) =~= seq![column@]);
    IndexDef { table, name, columns, unique: false }
}

/// The definition of one table. Its foreign keys point at exactly the
/// tables `references` names, and its indexes are all on itself.
pub fn table_def(t: Table) -> (r: TableDef)
    ensures
        r.table == t,
        r.foreign_keys@.map_values(|f: ForeignKey| target_of(f)) == references(t),
        forall|i: int| 0 <= i < r.indexes@.len() ==> #[trigger] r.indexes@[i].table == t,
        has_primary_key(r),
        table_shaped(r),
        forall|i: int|
            0 <= i < r.foreign_keys@.len() ==> {
                &&& (#[trigger] r.foreign_keys@[i]).on_delete == r.foreign_keys@[i].on_update
                &&& (r.foreign_keys@[i].to_table == Table::Storage ==> r.foreign_keys@[i].on_delete
                    == ForeignKeyAction::Restrict)
                &&& (r.foreign_keys@[i].to_table != Table::Storage ==> r.foreign_keys@[i].on_delete
                    == ForeignKeyAction::Cascade)
            },
{
    let mut columns: Vec<Column> = Vec::new();
    let mut foreign_keys: Vec<ForeignKey> = Vec::new();
    let mut indexes: Vec<IndexDef> = Vec::new();
    let mut primary_key: Option<CompositeKey> = None;
    match t {
        Table::User => {
            columns.push(col("id", ColumnKind::BigPkAuto));
            columns.push(unique("username", ColumnKind::String));
            columns.push(col("password_hash", ColumnKind::String));
            columns.push(col("enabled", ColumnKind::Boolean));
            columns.push(col("created_at", ColumnKind::TimestampWithTimeZone));
            columns.push(col("security_stamp", ColumnKind::Uuid));
        },
        Table::Role => {
            columns.push(col("id", ColumnKind::BigPkAuto));
            columns.push(unique("name", ColumnKind::String));
        },
        Table::UserRole => {
            columns.push(col("user_id", ColumnKind::BigInteger));
            columns.push(col("role_id", ColumnKind::BigInteger));
            let mut key: Vec<&'static str> = Vec::new();
            key.push("user_id");
            key.push("role_id");
            assert(names(key@) =~= seq!["user_id"@, "role_id"@]);
            primary_key = Some(CompositeKey { name: "pk-user_role", columns: key });
            foreign_keys.push(cascade("fk-user_role-user_id", "user_id", Table::User));
            foreign_keys.push(cascade("fk-user_role-role_id", "role_id", Table::Role));
            indexes.push(index(Table::UserRole, "idx-user_role-role_id", "role_id"));
        },
        Table::Job => {
            columns.push(col("id", ColumnKind::BigPkAuto));
            columns.push(col("job_type", ColumnKind::TinyInteger));
            columns.push(col("job_args", ColumnKind::Json));
            columns.push(col("status", ColumnKind::TinyInteger));
            columns.push(col("description", ColumnKind::String));
            columns.push(col("error_message", ColumnKind::String));
            columns.push(col("success", ColumnKind::Boolean));
            columns.push(col("created_by_id", ColumnKind::BigInteger));
            foreign_keys.push(cascade("fk-job-created_by_id", "created_by_id", Table::User));
            columns.push(col("created_at", ColumnKind::TimestampWithTimeZone));
            columns.push(Column {
                name: "completed_at",
                kind: ColumnKind::TimestampWithTimeZone,
                primary_key: false,
                unique_key: false,
                nullability: Nullability::Null,
            });
            indexes.push(index(Table::Job, "idx-job-created_by_id", "created_by_id"));
        },
        Table::Storage => {
            columns.push(col("id", ColumnKind::BigPkAuto));
            columns.push(unique("name", ColumnKind::String));
            columns.push(unique("path", ColumnKind::String));
        },
        Table::MusicInfo => {
            columns.push(Column {
                name: "id",
                kind: ColumnKind::Binary,
                primary_key: true,
                unique_key: false,
                nullability: Nullability::Default,
            });
            columns.push(not_null("artists", ColumnKind::StringArray));
            columns.push(not_null("album_title", ColumnKind::String));
            columns.push(not_null("title", ColumnKind::String));
            columns.push(not_null("track_number", ColumnKind::Integer));
            columns.push(not_null("audio_bitrate", ColumnKind::Integer));
            columns.push(not_null("sample_rate", ColumnKind::Integer));
            columns.push(not_null("channels", ColumnKind::TinyInteger));
            columns.push(not_null("bit_depth", ColumnKind::TinyInteger));
            columns.push(not_null("storage_id", ColumnKind::BigInteger));
            foreign_keys.push(ForeignKey {
                name: "fk-music_info-storage_id",
                from_col: "storage_id",
                to_table: Table::Storage,
                to_col: "id",
                on_delete: ForeignKeyAction::Restrict,
                on_update: ForeignKeyAction::Restrict,
            });
            columns.push(not_null("file_path", ColumnKind::String));
            indexes.push(index(Table::MusicInfo, "idx-music_info-storage_id", "storage_id"));
        },
        Table::MusicList => {
            columns.push(col("id", ColumnKind::BigPkAuto));
            columns.push(unique("name", ColumnKind::String));
            columns.push(not_null("user_id", ColumnKind::BigInteger));
            foreign_keys.push(cascade("fk-music_list-user_id", "user_id", Table::User));
            indexes.push(index(Table::MusicList, "idx-music_list-user_id", "user_id"));
        },
        Table::MusicInfoMusicList => {
            columns.push(not_null("music_list_id", ColumnKind::BigInteger));
            columns.push(not_null("music_info_id", ColumnKind::Binary));
            let mut key: Vec<&'static str> = Vec::new();
            key.push("music_list_id");
            key.push("music_info_id");
            assert(names(key@) =~= seq!["music_list_id"@, "music_info_id"@]);
            primary_key = Some(CompositeKey { name: "pk-music_info_music_list", columns: key });
            foreign_keys.push(
                cascade("fk-music_info_music_list-music_list_id", "music_list_id", Table::MusicList),
            );
            foreign_keys.push(
                cascade("fk-music_info_music_list-music_info_id", "music_info_id", Table::MusicInfo),
            );
            columns.push(not_null("order", ColumnKind::String));
            let mut cols: Vec<&'static str> = Vec::new();
            cols.push("music_list_id");
            cols.push("order");
            assert(names(cols@) =~= seq!["music_list_id"@, "order"@]);
            indexes.push(
                IndexDef {
                    table: Table::MusicInfoMusicList,
                    name: "idx-music_info_music_list-music_list_id_order",
                    columns: cols,
                    unique: true,
                },
            );
        },
    }
    assert(foreign_keys@.map_values(|f: ForeignKey| target_of(f)) =~= references(t));
    assert(primary_key is Some || columns@[0].primary_key || columns@[0].kind == ColumnKind::BigPkAuto);
    assert(columns@.map_values(|c: Column| column_shape(c)) =~= columns_of(t));
    assert(foreign_keys@.map_values(|f: ForeignKey| foreign_key_shape(f)) =~= foreign_keys_of(t));
    assert(indexes@.map_values(|ix: IndexDef| index_shape(ix)) =~= indexes_of(t));
    TableDef { table: t, columns, primary_key, foreign_keys, indexes }
}

/// The steps that create the schema.
pub fn up_plan() -> (r: UpPlan)
    ensures
        r.schemas@ == all_schemas(),
        r.tables@.map_values(|d: TableDef| table_of(d)) == creation_order(),
        forall|i: int| 0 <= i < r.tables@.len() ==> (#[trigger] r.tables@[i]).foreign_keys@.map_values(
            |f: ForeignKey| target_of(f),
        ) == references(r.tables@[i].table),
        forall|i: int, k: int|
            0 <= i < r.tables@.len() && 0 <= k < r.tables@[i].indexes@.len() ==> (#[trigger] r.tables@[i].indexes@[k]).table
                == r.tables@[i].table,
        forall|i: int| 0 <= i < r.tables@.len() ==> has_primary_key(#[trigger] r.tables@[i]),
        forall|i: int| 0 <= i < r.tables@.len() ==> table_shaped(#[trigger] r.tables@[i]),
        r.roles@.len() == 2,
        r.roles@[0]@ == "admin"@,
        r.roles@[1]@ == "normal-user"@,
{
    let mut schemas: Vec<Schema> = Vec::new();
    schemas.push(Schema::Auth);
    schemas.push(Schema::Mgmt);
    schemas.push(Schema::App);
    let mut order: Vec<Table> = Vec::new();
    order.push(Table::User);
    order.push(Table::Role);
    order.push(Table::UserRole);
    order.push(Table::Job);
    order.push(Table::Storage);
    order.push(Table::MusicInfo);
    order.push(Table::MusicList);
    order.push(Table::MusicInfoMusicList);
    assert(order@ =~= creation_order());
    let mut tables: Vec<TableDef> = Vec::new();
    let mut i: usize = 0;
    while i < order.len()
        invariant
            order@ == creation_order(),
            0 <= i <= order@.len(),
            tables@.len() == i,
            forall|j: int| 0 <= j < i ==> (#[trigger] tables@[j]).table == order@[j],
            forall|j: int| 0 <= j < i ==> has_primary_key(#[trigger] tables@[j]),
            forall|j: int| 0 <= j < i ==> table_shaped(#[trigger] tables@[j]),
            forall|j: int| 0 <= j < i ==> (#[trigger] tables@[j]).foreign_keys@.map_values(
                |f: ForeignKey| target_of(f),
            ) == references(tables@[j].table),
            forall|j: int, k: int|
                0 <= j < i && 0 <= k < tables@[j].indexes@.len() ==> (#[trigger] tables@[j].indexes@[k]).table
                    == tables@[j].table,
        decreases order@.len() - i,
    {
        tables.push(table_def(order[i]));
        i = i + 1;
    }
    assert(tables@.map_values(|d: TableDef| table_of(d)) =~= creation_order());
    let mut roles: Vec<&'static str> = Vec::new();
    roles.push("admin");
    roles.push("normal-user");
    proof {
        reveal_strlit("admin");
        reveal_strlit("normal-user");
    }
    UpPlan { schemas, tables, roles }
}

/// The steps that remove the schema.
pub fn down_plan() -> (r: DownPlan)
    ensures
        r.tables@ == creation_order().reverse(),
        r.schemas@ == all_schemas(),
{
    let mut tables: Vec<Table> = Vec::new();
    tables.push(Table::MusicInfoMusicList);
    tables.push(Table::MusicList);
    tables.push(Table::MusicInfo);
    tables.push(Table::Storage);
    tables.push(Table::Job);
    tables.push(Table::UserRole);
    tables.push(Table::Role);
    tables.push(Table::User);
    let mut schemas: Vec<Schema> = Vec::new();
    schemas.push(Schema::Auth);
    schemas.push(Schema::Mgmt);
    schemas.push(Schema::App);
    assert(tables@ =~= creation_order().reverse());
    assert(schemas@ =~= all_schemas());
    DownPlan { tables, schemas }
}

/// Every table is created after the tables it has foreign keys to, and
/// after the schema it lives in.
pub proof fn lemma_creation_respects_references(i: int, k: int)
    requires
        0 <= i < creation_order().len(),
        0 <= k < references(creation_order()[i]).len(),
    ensures
        exists|j: int| 0 <= j < i && creation_order()[j] == references(creation_order()[i])[k],
        all_schemas().contains(schema_of(creation_order()[i])),
{
    let t = creation_order()[i];
    let u = references(t)[k];
    assert(creation_order()[creation_rank(t)] == t);
    assert(creation_order()[creation_rank(u)] == u);
    assert(creation_rank(u) < creation_rank(t));
    assert(all_schemas()[0] == Schema::Auth);
    assert(all_schemas()[1] == Schema::Mgmt);
    assert(all_schemas()[2] == Schema::App);
}

/// Applying creates every table, and reverting drops every table, each at
/// one position: a table created `k`-th is dropped `k`-th from the end.
pub proof fn lemma_every_table_created_and_dropped(t: Table)
    ensures
        creation_order().len() == 8,
        creation_order()[creation_rank(t)] == t,
        creation_order().reverse()[7 - creation_rank(t)] == t,
        forall|i: int| 0 <= i < 8 ==> creation_rank(#[trigger] creation_order()[i]) == i,
{
    assert forall|i: int| 0 <= i < 8 implies creation_rank(#[trigger] creation_order()[i]) == i by {
        if i == 0 {} else if i == 1 {} else if i == 2 {} else if i == 3 {}
        else if i == 4 {} else if i == 5 {} else if i == 6 {} else {}
    }
}

/// Reverting drops a table only after every table with a foreign key to it.
pub proof fn lemma_down_undoes_up(i: int, k: int)
    requires
        0 <= i < creation_order().len(),
        0 <= k < references(creation_order().reverse()[i]).len(),
    ensures
        exists|j: int| i < j < creation_order().len() && creation_order().reverse()[j] == references(
            creation_order().reverse()[i],
        )[k],
{
    let n = creation_order().len();
    let t = creation_order().reverse()[i];
    assert(t == creation_order()[n - 1 - i]);
    lemma_creation_respects_references(n - 1 - i, k);
    let j0 = choose|j: int| 0 <= j < n - 1 - i && creation_order()[j] == references(t)[k];
    assert(creation_order().reverse()[n - 1 - j0] == creation_order()[j0]);
}

} // verus!
