//! A small schema-inference layer over an embedded SQL database: a record
//! described as a list of named primitive values is turned into column
//! definitions and parameterized `CREATE TABLE` / `INSERT` statements, with
//! a helper that wires foreign-key relationships between tables.
//!
//! The library builds and proves the statements; running them against a
//! database connection is left to the caller.
use vstd::prelude::*;

pub mod error;
pub mod records;
pub mod relation;
pub mod sql;
pub mod strutil;
pub mod value;

use crate::error::DbError;
use crate::sql::{create_table_stmt, insert_stmt};
use crate::strutil::seq_views;
use crate::value::{Field, Record, Value, sql_text_of};

verus! {

/// A type that knows the table it maps to and how its instance formats
/// into column definitions.
pub trait Table {
    /// The table's name.
    fn table_name() -> &'static str;

    /// The column definitions, each of the form `name TYPE`.
    fn to_columns(&self) -> Vec<String>;
}

/// The SQL type a field value maps to: strings to `TEXT`, integers to
/// `INTEGER`, non-integer numbers to `REAL`, booleans to `BOOLEAN`, and
/// anything else to the `TEXT` fallback.
pub open spec fn sql_type_name(v: Value) -> Seq<char> {
    match v {
        Value::Null => "TEXT"@,
        Value::Integer(_) => "INTEGER"@,
        Value::Real(_) => "REAL"@,
        Value::Text(_) => "TEXT"@,
        Value::Boolean(_) => "BOOLEAN"@,
    }
}

/// The column that stands in for a field named `id`: the auto-increment
/// primary key.
pub open spec fn id_column() -> (Seq<char>, Seq<char>) {
    ("id"@, "INTEGER PRIMARY KEY AUTOINCREMENT"@)
}

/// Whether some field of the record is named `id`.
pub open spec fn has_id_field(fields: Seq<Field>) -> bool {
    exists|j: int| 0 <= j < fields.len() && (#[trigger] fields[j]).name@ == "id"@
}

/// The columns of every field but `id`, in field order, each mapped to its
/// SQL type.
pub open spec fn body_columns(fields: Seq<Field>) -> Seq<(Seq<char>, Seq<char>)>
    decreases fields.len(),
{
    if fields.len() == 0 {
        Seq::empty()
    } else {
        let rest = body_columns(fields.drop_last());
        let f = fields.last();
        if f.name@ == "id"@ {
            rest
        } else {
            rest.push((f.name@, sql_type_name(f.value)))
        }
    }
}

/// The full column list of a record: a leading auto-increment `id` column
/// when a field named `id` is present, then the remaining fields in order.
pub open spec fn schema_columns(fields: Seq<Field>) -> Seq<(Seq<char>, Seq<char>)> {
    if has_id_field(fields) {
        seq![id_column()] + body_columns(fields)
    } else {
        body_columns(fields)
    }
}

/// The views of a list of column pairs.
pub open spec fn column_views(cols: Seq<(String, String)>) -> Seq<(Seq<char>, Seq<char>)> {
    cols.map_values(|p: (String, String)| (p.0@, p.1@))
}

/// Column pairs formatted into definitions of the form `name TYPE`.
pub open spec fn formatted_columns(cols: Seq<(Seq<char>, Seq<char>)>) -> Seq<Seq<char>> {
    cols.map_values(|p: (Seq<char>, Seq<char>)| p.0 + " "@ + p.1)
}

/// The views of a pushed column list are the views of the list with the
/// views of the new pair pushed.
proof fn lemma_column_views_push(v: Seq<(String, String)>, x: (String, String))
    ensures
        column_views(v.push(x)) == column_views(v).push((x.0@, x.1@)),
{
    assert(column_views(v.push(x)) =~= column_views(v).push((x.0@, x.1@)));
}

/// Formatting a pushed column list formats the list and pushes the new
/// pair's definition.
proof fn lemma_formatted_push(v: Seq<(Seq<char>, Seq<char>)>, x: (Seq<char>, Seq<char>))
    ensures
        formatted_columns(v.push(x)) == formatted_columns(v).push(x.0 + " "@ + x.1),
{
    assert(formatted_columns(v.push(x)) =~= formatted_columns(v).push(x.0 + " "@ + x.1));
}

/// Whether a field takes part in an insert: a field named `id` whose value
/// is null is left out, deferring to the engine's auto-increment default.
pub open spec fn keeps(f: Field) -> bool {
    !(f.name@ == "id"@ && f.value is Null)
}

/// The column names of an insert, in field order, the null `id` left out.
pub open spec fn insert_columns(fields: Seq<Field>) -> Seq<Seq<char>>
    decreases fields.len(),
{
    if fields.len() == 0 {
        Seq::empty()
    } else {
        let rest = insert_columns(fields.drop_last());
        if keeps(fields.last()) {
            rest.push(fields.last().name@)
        } else {
            rest
        }
    }
}

/// The parameter texts of an insert, aligned with `insert_columns`.
pub open spec fn insert_values(fields: Seq<Field>) -> Seq<Seq<char>>
    decreases fields.len(),
{
    if fields.len() == 0 {
        Seq::empty()
    } else {
        let rest = insert_values(fields.drop_last());
        if keeps(fields.last()) {
            rest.push(sql_text_of(fields.last().value))
        } else {
            rest
        }
    }
}

/// A record of three fields — a string, an integer and a boolean, none of
/// them named `id` — maps to exactly those three columns, in field order.
pub proof fn lemma_three_field_schema(a: Field, b: Field, c: Field)
    requires
        a.value is Text,
        b.value is Integer,
        c.value is Boolean,
        a.name@ != "id"@,
        b.name@ != "id"@,
        c.name@ != "id"@,
    ensures
        schema_columns(seq![a, b, c]) == seq![
            (a.name@, "TEXT"@),
            (b.name@, "INTEGER"@),
            (c.name@, "BOOLEAN"@),
        ],
{
    reveal_with_fuel(body_columns, 4);
    let fs = seq![a, b, c];
    assert(!has_id_field(fs)) by {
        if has_id_field(fs) {
            let j = choose|j: int| 0 <= j < fs.len() && (#[trigger] fs[j]).name@ == "id"@;
            assert(j == 0 || j == 1 || j == 2);
        }
    }
    assert(fs.drop_last() =~= seq![a, b]);
    assert(seq![a, b].drop_last() =~= seq![a]);
    assert(seq![a].drop_last() =~= Seq::<Field>::empty());
    assert(body_columns(Seq::<Field>::empty()) =~~= Seq::<(Seq<char>, Seq<char>)>::empty());
    assert(body_columns(seq![a]) =~~= seq![(a.name@, "TEXT"@)]);
    assert(body_columns(seq![a, b]) =~~= seq![(a.name@, "TEXT"@), (b.name@, "INTEGER"@)]);
    assert(schema_columns(fs) =~~= seq![
        (a.name@, "TEXT"@),
        (b.name@, "INTEGER"@),
        (c.name@, "BOOLEAN"@),
    ]);
}

/// The same record with a field named `id` in front maps to the same
/// three columns, led by the auto-increment `id` primary key.
pub proof fn lemma_three_field_schema_with_id(idf: Field, a: Field, b: Field, c: Field)
    requires
        idf.name@ == "id"@,
        a.value is Text,
        b.value is Integer,
        c.value is Boolean,
        a.name@ != "id"@,
        b.name@ != "id"@,
        c.name@ != "id"@,
    ensures
        schema_columns(seq![idf, a, b, c]) == seq![
            id_column(),
            (a.name@, "TEXT"@),
            (b.name@, "INTEGER"@),
            (c.name@, "BOOLEAN"@),
        ],
{
    reveal_with_fuel(body_columns, 5);
    let fs = seq![idf, a, b, c];
    assert(has_id_field(fs)) by {
        assert(fs[0].name@ == "id"@);
    }
    assert(fs.drop_last() =~= seq![idf, a, b]);
    assert(seq![idf, a, b].drop_last() =~= seq![idf, a]);
    assert(seq![idf, a].drop_last() =~= seq![idf]);
    assert(seq![idf].drop_last() =~= Seq::<Field>::empty());
    assert(body_columns(Seq::<Field>::empty()) =~~= Seq::<(Seq<char>, Seq<char>)>::empty());
    assert(body_columns(seq![idf]) =~~= Seq::<(Seq<char>, Seq<char>)>::empty());
    assert(body_columns(seq![idf, a]) =~~= seq![(a.name@, "TEXT"@)]);
    assert(body_columns(seq![idf, a, b]) =~~= seq![(a.name@, "TEXT"@), (b.name@, "INTEGER"@)]);
    assert(schema_columns(fs) =~~= seq![
        id_column(),
        (a.name@, "TEXT"@),
        (b.name@, "INTEGER"@),
        (c.name@, "BOOLEAN"@),
    ]);
}

/// When every field named `id` carries a null value, the insert column
/// list omits `id` altogether: the engine is left to assign the row id.
pub proof fn lemma_null_id_omitted(fields: Seq<Field>)
    requires
        forall|i: int|
            0 <= i < fields.len() && (#[trigger] fields[i]).name@ == "id"@
                ==> fields[i].value is Null,
    ensures
        forall|j: int|
            0 <= j < insert_columns(fields).len()
                ==> (#[trigger] insert_columns(fields)[j]) != "id"@,
    decreases fields.len(),
{
    if fields.len() > 0 {
        let front = fields.drop_last();
        assert(forall|i: int| 0 <= i < front.len() ==> front[i] == fields[i]);
        lemma_null_id_omitted(front);
        let cols = insert_columns(fields);
        let rest = insert_columns(front);
        assert forall|j: int| 0 <= j < cols.len() implies (#[trigger] cols[j]) != "id"@ by {
            if keeps(fields.last()) {
                assert(cols == rest.push(fields.last().name@));
                if j < rest.len() {
                    assert(cols[j] == rest[j]);
                }
            }
        }
    }
}

/// An insert binds exactly one value per column.
pub proof fn lemma_insert_lists_aligned(fields: Seq<Field>)
    ensures
        insert_columns(fields).len() == insert_values(fields).len(),
    decreases fields.len(),
{
    if fields.len() > 0 {
        lemma_insert_lists_aligned(fields.drop_last());
    }
}

/// The insert statement's text depends only on the field names and on
/// which fields are null: two records that agree on those produce the
/// very same statement, however their values differ. The values travel
/// only as bound parameters, so no value can alter the statement.
pub proof fn lemma_insert_stmt_value_independent(
    table: Seq<char>,
    fields1: Seq<Field>,
    fields2: Seq<Field>,
)
    requires
        fields1.len() == fields2.len(),
        forall|i: int|
            0 <= i < fields1.len() ==> (#[trigger] fields1[i]).name@ == fields2[i].name@ && (
            fields1[i].value is Null <==> fields2[i].value is Null),
    ensures
        insert_stmt(table, insert_columns(fields1)) == insert_stmt(
            table,
            insert_columns(fields2),
        ),
{
    lemma_insert_columns_agree(fields1, fields2);
}

/// The insert column lists of two records that agree on field names and
/// null pattern are the same.
proof fn lemma_insert_columns_agree(fields1: Seq<Field>, fields2: Seq<Field>)
    requires
        fields1.len() == fields2.len(),
        forall|i: int|
            0 <= i < fields1.len() ==> (#[trigger] fields1[i]).name@ == fields2[i].name@ && (
            fields1[i].value is Null <==> fields2[i].value is Null),
    ensures
        insert_columns(fields1) == insert_columns(fields2),
    decreases fields1.len(),
{
    if fields1.len() > 0 {
        let front1 = fields1.drop_last();
        let front2 = fields2.drop_last();
        assert(forall|i: int| 0 <= i < front1.len() ==> front1[i] == fields1[i]);
        assert(forall|i: int| 0 <= i < front2.len() ==> front2[i] == fields2[i]);
        lemma_insert_columns_agree(front1, front2);
        let last = fields1.len() - 1;
        assert(fields1[last].name@ == fields2[last].name@);
        assert(fields1[last].value is Null <==> fields2[last].value is Null);
        assert(keeps(fields1.last()) == keeps(fields2.last()));
        assert(insert_columns(fields1) =~~= insert_columns(fields2));
    }
}

/// An `INSERT` statement together with the values to bind to its
/// placeholders, in order.
pub struct InsertStatement {
    /// The statement text, with one `?` per column.
    pub sql: String,
    /// The parameter texts, one per placeholder.
    pub params: Vec<String>,
}

/// The entry point of the library: remembers which database kind and which
/// connection string it was built with, and plans statements for records.
///
/// Only the `sqlite` kind is functional; any other kind makes every plan
/// fail with `DbError::UnsupportedBackend`.
pub struct Kingler {
    database: String,
    uri: String,
}

impl Kingler {
    /// The database kind this instance was built with.
    pub closed spec fn spec_database(&self) -> Seq<char> {
        self.database@
    }

    /// The connection string this instance was built with.
    pub closed spec fn spec_uri(&self) -> Seq<char> {
        self.uri@
    }

    /// Builds an instance for the given database kind and connection
    /// string.
    pub fn new(database: String, uri: String) -> (r: Self)
        ensures
            r.spec_database() == database@,
            r.spec_uri() == uri@,
    {
        Kingler { database, uri }
    }

    /// The database kind, for the caller that runs the statements.
    pub fn database(&self) -> (r: &str)
        ensures
            r@ == self.spec_database(),
    {
        self.database.as_str()
    }

    /// The connection string, for the caller that opens the connection.
    pub fn uri(&self) -> (r: &str)
        ensures
            r@ == self.spec_uri(),
    {
        self.uri.as_str()
    }

    /// Maps one field value to the name of its SQL type.
    pub fn sql_type_text(value: &Value) -> (r: String)
        ensures
            r@ == sql_type_name(*value),
    {
        match value {
            Value::Null => String::from_str("TEXT"),
            Value::Integer(_) => String::from_str("INTEGER"),
            Value::Real(_) => String::from_str("REAL"),
            Value::Text(_) => String::from_str("TEXT"),
            Value::Boolean(_) => String::from_str("BOOLEAN"),
        }
    }

    /// Derives the column list of a record: a leading auto-increment `id`
    /// column when a field named `id` is present, then every other field
    /// in record order with its SQL type.
    pub fn generate_columns(record: &Record) -> (cols: Vec<(String, String)>)
        ensures
            column_views(cols@) == schema_columns(record.fields@),
    {
        let fields = &record.fields;
        let id_name = String::from_str("id");

        let mut found = false;
        let mut i: usize = 0;
        while i < fields.len()
            invariant
                i <= fields@.len(),
                id_name@ == "id"@,
                found == has_id_field(fields@.take(i as int)),
            decreases fields@.len() - i,
        {
            if fields[i].name == id_name {
                found = true;
            }
            proof {
                let fs = fields@;
                let pre = fs.take(i as int);
                let cur = fs.take(i + 1 as int);
                assert(forall|j: int| 0 <= j < cur.len() ==> cur[j] == fs[j]);
                if fs[i as int].name@ == "id"@ {
                    assert((cur[i as int]).name@ == "id"@);
                } else {
                    if has_id_field(pre) {
                        let j = choose|j: int|
                            0 <= j < pre.len() && (#[trigger] pre[j]).name@ == "id"@;
                        assert((cur[j]).name@ == "id"@);
                    }
                    if has_id_field(cur) {
                        let j = choose|j: int|
                            0 <= j < cur.len() && (#[trigger] cur[j]).name@ == "id"@;
                        assert(j != i);
                        assert((pre[j]).name@ == "id"@);
                    }
                }
            }
            i += 1;
        }
        proof {
            assert(fields@.take(fields@.len() as int) =~= fields@);
        }

        let mut cols: Vec<(String, String)> = Vec::new();
        if found {
            cols.push(
                (
                    String::from_str("id"),
                    String::from_str("INTEGER PRIMARY KEY AUTOINCREMENT"),
                ),
            );
        }
        let ghost head = if found {
            seq![id_column()]
        } else {
            Seq::<(Seq<char>, Seq<char>)>::empty()
        };
        assert(column_views(cols@) =~~= head);

        let mut i: usize = 0;
        while i < fields.len()
            invariant
                i <= fields@.len(),
                id_name@ == "id"@,
                column_views(cols@) == head + body_columns(fields@.take(i as int)),
            decreases fields@.len() - i,
        {
            let f = &fields[i];
            let ghost c0 = cols@;
            if !(f.name == id_name) {
                let type_text = Self::sql_type_text(&f.value);
                let name_text = f.name.clone();
                let ghost px = (name_text, type_text);
                cols.push((name_text, type_text));
                proof {
                    lemma_column_views_push(c0, px);
                }
            }
            proof {
                let pre = fields@.take(i as int);
                let cur = fields@.take(i + 1 as int);
                assert(cur.drop_last() =~= pre);
                assert(cur.last() == fields@[i as int]);
                assert(column_views(cols@) =~~= head + body_columns(cur));
            }
            i += 1;
        }
        proof {
            assert(fields@.take(fields@.len() as int) =~= fields@);
        }
        cols
    }

    /// Formats each column pair into a definition of the form `name TYPE`.
    pub fn format_columns(columns: Vec<(String, String)>) -> (r: Vec<String>)
        ensures
            seq_views(r@) == formatted_columns(column_views(columns@)),
    {
        let mut r: Vec<String> = Vec::new();
        let mut i: usize = 0;
        while i < columns.len()
            invariant
                i <= columns@.len(),
                seq_views(r@) == formatted_columns(column_views(columns@.take(i as int))),
            decreases columns@.len() - i,
        {
            let mut line = columns[i].0.clone();
            line.append(" ");
            line.append(columns[i].1.as_str());
            let ghost r0 = r@;
            let ghost lx = line;
            r.push(line);
            proof {
                crate::strutil::lemma_seq_views_push(r0, lx);
                let pre = columns@.take(i as int);
                let cur = columns@.take(i + 1 as int);
                assert(cur =~= pre.push(columns@[i as int]));
                lemma_column_views_push(pre, columns@[i as int]);
                lemma_formatted_push(
                    column_views(pre),
                    (columns@[i as int].0@, columns@[i as int].1@),
                );
                assert(seq_views(r@) == formatted_columns(column_views(cur)));
            }
            i += 1;
        }
        proof {
            assert(columns@.take(columns@.len() as int) =~= columns@);
        }
        r
    }

    /// Plans the `CREATE TABLE IF NOT EXISTS` statement for a record's
    /// table.
    ///
    /// The statement is owed exactly when the instance was built for the
    /// `sqlite` kind; any other kind is unsupported.
    pub fn create_table_sql(&self, table_name: &str, record: &Record) -> (r: Result<
        String,
        DbError,
    >)
        ensures
            self.spec_database() == "sqlite"@ ==> (r matches Ok(sql) && sql@
                == create_table_stmt(
                table_name@,
                formatted_columns(schema_columns(record.fields@)),
            )),
            self.spec_database() != "sqlite"@ ==> r == Err::<String, DbError>(
                DbError::UnsupportedBackend,
            ),
    {
        if self.database == String::from_str("sqlite") {
            let cols = Self::generate_columns(record);
            let formatted = Self::format_columns(cols);
            Ok(crate::sql::create_table_sql(table_name, &formatted))
        } else {
            Err(DbError::UnsupportedBackend)
        }
    }

    /// Plans the `INSERT` statement for a record: one column and one bound
    /// parameter per field, a null `id` field left out so that the engine
    /// assigns the next row id.
    ///
    /// The statement is owed exactly when the instance was built for the
    /// `sqlite` kind; any other kind is unsupported.
    pub fn insert_statement(&self, table_name: &str, record: &Record) -> (r: Result<
        InsertStatement,
        DbError,
    >)
        ensures
            self.spec_database() == "sqlite"@ ==> (r matches Ok(st) && st.sql@ == insert_stmt(
                table_name@,
                insert_columns(record.fields@),
            ) && seq_views(st.params@) == insert_values(record.fields@)),
            self.spec_database() != "sqlite"@ ==> (r matches Err(e) && e
                == DbError::UnsupportedBackend),
    {
        if !(self.database == String::from_str("sqlite")) {
            return Err(DbError::UnsupportedBackend);
        }
        let fields = &record.fields;
        let id_name = String::from_str("id");
        let mut cols: Vec<String> = Vec::new();
        let mut params: Vec<String> = Vec::new();
        let mut i: usize = 0;
        while i < fields.len()
            invariant
                i <= fields@.len(),
                id_name@ == "id"@,
                seq_views(cols@) == insert_columns(fields@.take(i as int)),
                seq_views(params@) == insert_values(fields@.take(i as int)),
            decreases fields@.len() - i,
        {
            let f = &fields[i];
            let skip = f.name == id_name && matches!(&f.value, Value::Null);
            let ghost c0 = cols@;
            let ghost p0 = params@;
            if !skip {
                let name_text = f.name.clone();
                let value_text = f.value.to_sql_text();
                let ghost nx = name_text;
                let ghost vx = value_text;
                cols.push(name_text);
                params.push(value_text);
                proof {
                    crate::strutil::lemma_seq_views_push(c0, nx);
                    crate::strutil::lemma_seq_views_push(p0, vx);
                }
            }
            proof {
                let pre = fields@.take(i as int);
                let cur = fields@.take(i + 1 as int);
                assert(cur.drop_last() =~= pre);
                assert(cur.last() == fields@[i as int]);
                assert(seq_views(cols@) =~= insert_columns(cur));
                assert(seq_views(params@) =~= insert_values(cur));
            }
            i += 1;
        }
        proof {
            assert(fields@.take(fields@.len() as int) =~= fields@);
        }
        let sql = crate::sql::insert_sql(table_name, &cols);
        Ok(InsertStatement { sql, params })
    }
}

} // verus!
