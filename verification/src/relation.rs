//! The relationship helper: three one-shot relation shapes between two
//! tables, dispatched on an uppercase-normalized kind tag.
use vstd::prelude::*;
use crate::error::DbError;
use crate::strutil::{ascii_lower, ascii_upper, to_lower, to_upper};

verus! {

/// The three recognized relation shapes.
#[derive(Clone, Copy, Debug, PartialEq, Eq, Structural)]
pub enum RelationKind {
    /// Realized as a junction table holding a reference into each side.
    ManyToMany,
    /// Realized as a reference column added to the second table, the
    /// "many" side.
    OneToMany,
    /// Realized as a unique reference column added to the first table.
    OneToOne,
}

/// Which relation shape a kind tag names, after ASCII-uppercasing it;
/// anything but the three recognized tags names none.
pub open spec fn parse_kind(tag: Seq<char>) -> Option<RelationKind> {
    if to_upper(tag) == "MANY_TO_MANY"@ {
        Some(RelationKind::ManyToMany)
    } else if to_upper(tag) == "ONE_TO_MANY"@ {
        Some(RelationKind::OneToMany)
    } else if to_upper(tag) == "ONE_TO_ONE"@ {
        Some(RelationKind::OneToOne)
    } else {
        None
    }
}

/// Parses a relation kind tag, case-insensitively.
pub fn parse_relation_kind(tag: &str) -> (r: Option<RelationKind>)
    ensures
        r == parse_kind(tag@),
{
    let upper = ascii_upper(tag);
    if upper == String::from_str("MANY_TO_MANY") {
        Some(RelationKind::ManyToMany)
    } else if upper == String::from_str("ONE_TO_MANY") {
        Some(RelationKind::OneToMany)
    } else if upper == String::from_str("ONE_TO_ONE") {
        Some(RelationKind::OneToOne)
    } else {
        None
    }
}

/// The junction table's name: the two table names, lowercased and joined
/// with an underscore.
pub open spec fn junction_table(table_a: Seq<char>, table_b: Seq<char>) -> Seq<char> {
    to_lower(table_a) + "_"@ + to_lower(table_b)
}

/// The junction-table statement for a many-to-many relation: one
/// referencing column per side.
pub open spec fn many_to_many_stmt(
    table_a: Seq<char>,
    table_b: Seq<char>,
    key_a: Seq<char>,
    key_b: Seq<char>,
) -> Seq<char> {
    "CREATE TABLE IF NOT EXISTS "@ + junction_table(table_a, table_b) + " ("@ + to_lower(table_a)
        + "_ref INTEGER REFERENCES "@ + table_a + "("@ + key_a + "), "@ + to_lower(table_b)
        + "_ref INTEGER REFERENCES "@ + table_b + "("@ + key_b + "))"@
}

/// The statement for a one-to-many relation: the second table, the "many"
/// side, gains a column referencing the first.
pub open spec fn one_to_many_stmt(
    table_a: Seq<char>,
    table_b: Seq<char>,
    key_a: Seq<char>,
) -> Seq<char> {
    "ALTER TABLE "@ + table_b + " ADD COLUMN "@ + to_lower(table_a)
        + "_ref INTEGER REFERENCES "@ + table_a + "("@ + key_a + ")"@
}

/// The statement for a one-to-one relation: the first table gains a unique
/// column referencing the second.
pub open spec fn one_to_one_stmt(
    table_a: Seq<char>,
    table_b: Seq<char>,
    key_b: Seq<char>,
) -> Seq<char> {
    "ALTER TABLE "@ + table_a + " ADD COLUMN "@ + to_lower(table_b)
        + "_ref INTEGER UNIQUE REFERENCES "@ + table_b + "("@ + key_b + ")"@
}

/// The statement a relation of the given kind turns into.
pub open spec fn relationship_stmt(
    kind: RelationKind,
    table_a: Seq<char>,
    table_b: Seq<char>,
    key_a: Seq<char>,
    key_b: Seq<char>,
) -> Seq<char> {
    match kind {
        RelationKind::ManyToMany => many_to_many_stmt(table_a, table_b, key_a, key_b),
        RelationKind::OneToMany => one_to_many_stmt(table_a, table_b, key_a),
        RelationKind::OneToOne => one_to_one_stmt(table_a, table_b, key_b),
    }
}

/// Builds the statement that realizes a relation between two tables, or
/// rejects the kind tag.
///
/// The tag is matched case-insensitively against the three recognized
/// kinds; any other tag is rejected and produces no statement at all.
pub fn create_relationship_sql(
    table_a: &str,
    table_b: &str,
    key_a: &str,
    key_b: &str,
    kind: &str,
) -> (r: Result<String, DbError>)
    ensures
        match parse_kind(kind@) {
            Some(k) => r is Ok && r->Ok_0@ == relationship_stmt(k, table_a@, table_b@, key_a@, key_b@),
            None => r == Err::<String, DbError>(DbError::UnsupportedRelation),
        },
{
    match parse_relation_kind(kind) {
        Some(RelationKind::ManyToMany) => {
            let lower_a = ascii_lower(table_a);
            let lower_b = ascii_lower(table_b);
            let mut r = String::from_str("CREATE TABLE IF NOT EXISTS ");
            r.append(lower_a.as_str());
            r.append("_");
            r.append(lower_b.as_str());
            r.append(" (");
            r.append(lower_a.as_str());
            r.append("_ref INTEGER REFERENCES ");
            r.append(table_a);
            r.append("(");
            r.append(key_a);
            r.append("), ");
            r.append(lower_b.as_str());
            r.append("_ref INTEGER REFERENCES ");
            r.append(table_b);
            r.append("(");
            r.append(key_b);
            r.append("))");
            Ok(r)
        },
        Some(RelationKind::OneToMany) => {
            let lower_a = ascii_lower(table_a);
            let mut r = String::from_str("ALTER TABLE ");
            r.append(table_b);
            r.append(" ADD COLUMN ");
            r.append(lower_a.as_str());
            r.append("_ref INTEGER REFERENCES ");
            r.append(table_a);
            r.append("(");
            r.append(key_a);
            r.append(")");
            Ok(r)
        },
        Some(RelationKind::OneToOne) => {
            let lower_b = ascii_lower(table_b);
            let mut r = String::from_str("ALTER TABLE ");
            r.append(table_a);
            r.append(" ADD COLUMN ");
            r.append(lower_b.as_str());
            r.append("_ref INTEGER UNIQUE REFERENCES ");
            r.append(table_b);
            r.append("(");
            r.append(key_b);
            r.append(")");
            Ok(r)
        },
        None => Err(DbError::UnsupportedRelation),
    }
}

} // verus!
