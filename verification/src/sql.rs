//! Builders for the two statement shapes the library emits for tables:
//! `CREATE TABLE IF NOT EXISTS` and `INSERT ... VALUES (?, ...)`.
//!
//! Values never appear in the statement text: an insert statement carries
//! one `?` placeholder per column and the values travel as bound
//! parameters.
use vstd::prelude::*;
use crate::strutil::{join, join_seqs, seq_views};

verus! {

/// The `CREATE TABLE IF NOT EXISTS` statement for a table with the given
/// column definitions (each already of the form `name TYPE`).
pub open spec fn create_table_stmt(name: Seq<char>, cols: Seq<Seq<char>>) -> Seq<char> {
    "CREATE TABLE IF NOT EXISTS "@ + name + " ("@ + join_seqs(cols, ", "@) + ")"@
}

/// One `?` placeholder per column.
pub open spec fn question_marks(n: nat) -> Seq<Seq<char>> {
    Seq::new(n, |i: int| "?"@)
}

/// The `INSERT` statement for the given columns: the values are left to
/// parameter binding, one placeholder per column.
pub open spec fn insert_stmt(name: Seq<char>, cols: Seq<Seq<char>>) -> Seq<char> {
    "INSERT INTO "@ + name + " ("@ + join_seqs(cols, ", "@) + ") VALUES ("@ + join_seqs(
        question_marks(cols.len()),
        ", "@,
    ) + ")"@
}

/// Every table-creation statement begins with `CREATE TABLE IF NOT
/// EXISTS `, so handing the same statement to the engine twice leaves an
/// existing table untouched instead of failing on it.
pub proof fn lemma_create_table_stmt_guarded(name: Seq<char>, cols: Seq<Seq<char>>)
    ensures
        create_table_stmt(name, cols).take(27) == "CREATE TABLE IF NOT EXISTS "@,
{
    reveal_strlit("CREATE TABLE IF NOT EXISTS ");
    assert(create_table_stmt(name, cols).take(27) =~= "CREATE TABLE IF NOT EXISTS "@);
}

/// Builds the `CREATE TABLE IF NOT EXISTS` statement text.
pub fn create_table_sql(name: &str, cols: &Vec<String>) -> (r: String)
    ensures
        r@ == create_table_stmt(name@, seq_views(cols@)),
{
    let mut r = String::from_str("CREATE TABLE IF NOT EXISTS ");
    r.append(name);
    r.append(" (");
    let body = join(cols, ", ");
    r.append(body.as_str());
    r.append(")");
    r
}

/// Builds the `INSERT` statement text, with one `?` placeholder per column.
pub fn insert_sql(name: &str, cols: &Vec<String>) -> (r: String)
    ensures
        r@ == insert_stmt(name@, seq_views(cols@)),
{
    let mut marks: Vec<String> = Vec::new();
    let mut i: usize = 0;
    while i < cols.len()
        invariant
            i <= cols@.len(),
            marks@.len() == i,
            forall|j: int| 0 <= j < i ==> marks@[j]@ == "?"@,
        decreases cols@.len() - i,
    {
        marks.push(String::from_str("?"));
        i += 1;
    }
    assert(seq_views(marks@) =~= question_marks(cols@.len()));
    let mut r = String::from_str("INSERT INTO ");
    r.append(name);
    r.append(" (");
    let body = join(cols, ", ");
    r.append(body.as_str());
    r.append(") VALUES (");
    let values = join(&marks, ", ");
    r.append(values.as_str());
    r.append(")");
    r
}

} // verus!
