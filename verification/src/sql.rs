//! The texts of the statements.

use vstd::prelude::*;

use crate::identifiers::quote_ident;
#[allow(unused_imports)]
use crate::identifiers::{is_known, quoted, valid_identifier};
use crate::query::QueryView;
#[allow(unused_imports)]
use crate::text::decimal;
use crate::text::{decimal_text, joined};

verus! {

/// Lists the tables of a database with the number of their columns.
pub const TABLE_SUMMARIES: &'static str = r#"
        SELECT table_name,
               (SELECT count(*) FROM information_schema.columns c2
                WHERE c2.table_schema = 'public' AND c2.table_name = c.table_name) AS column_count
        FROM information_schema.tables c
        WHERE table_schema = 'public' AND table_type = 'BASE TABLE'
        ORDER BY table_name
        "#;

/// Lists the tables of a database by name.
pub const TABLE_NAMES: &'static str = r#"
        SELECT table_name
        FROM information_schema.tables
        WHERE table_schema = 'public' AND table_type = 'BASE TABLE'
        ORDER BY table_name
        "#;

/// Lists the columns of one table.
pub const TABLE_COLUMNS: &'static str = r#"
            SELECT column_name, data_type, is_nullable, column_default
            FROM information_schema.columns
            WHERE table_schema = 'public' AND table_name = $1
            ORDER BY ordinal_position
            "#;

/// Lists the tables of a database.
pub const UNORDERED_TABLE_NAMES: &'static str = r#"
        SELECT table_name FROM information_schema.tables
        WHERE table_schema = 'public' AND table_type = 'BASE TABLE'
        "#;

/// Finds one table.
pub const TABLE_EXISTS: &'static str = r#"
        SELECT 1 FROM information_schema.tables
        WHERE table_schema = 'public' AND table_name = $1 LIMIT 1
        "#;

/// Finds the first column of the primary key of a table.
pub const PRIMARY_KEY: &'static str = r#"
        SELECT kcu.column_name
        FROM information_schema.table_constraints tc
        JOIN information_schema.key_column_usage kcu
          ON tc.constraint_name = kcu.constraint_name
         AND tc.table_schema = kcu.table_schema
         AND tc.table_name = kcu.table_name
        WHERE tc.constraint_type = 'PRIMARY KEY'
          AND tc.table_schema = 'public'
          AND tc.table_name = $1
        ORDER BY kcu.ordinal_position
        LIMIT 1
        "#;

/// Finds one column of a table.
pub const NAMED_COLUMN: &'static str = r#"
            SELECT column_name FROM information_schema.columns
            WHERE table_schema = 'public' AND table_name = $1 AND column_name = $2 LIMIT 1
            "#;

/// Checks that a database answers.
pub const HEALTH: &'static str = "SELECT 1 AS ok";

/// The latest sentiment indicators.
pub const INDICATORS: &'static str =
    "SELECT * FROM sentiment_indicators ORDER BY recorded_at DESC LIMIT 20";

/// The largest holdings.
pub const HOLDINGS: &'static str = "SELECT * FROM holdings ORDER BY value_usd DESC LIMIT 50";

/// The latest budgets.
pub const BUDGETS: &'static str = "SELECT * FROM budgets ORDER BY period DESC LIMIT 5";

/// One decision brief.
pub const DECISION_BRIEF: &'static str =
    "SELECT * FROM cfo_briefs WHERE brief_id = $1 OR id = $1 LIMIT 1";

/// Counts the rows of `table`.
pub open spec fn row_count_sql(table: Seq<char>) -> Seq<char> {
    "SELECT count(*) AS cnt FROM "@ + quoted(table)
}

/// Counts the rows of `table`.
pub fn row_count_text(table: &str) -> (sql: String)
    ensures
        sql@ == row_count_sql(table@),
{
    let mut sql = "SELECT count(*) AS cnt FROM ".to_string();
    sql.append(quote_ident(table).as_str());
    sql
}

/// Reads a page of `table`.
pub open spec fn page_sql(table: Seq<char>) -> Seq<char> {
    "SELECT * FROM "@ + quoted(table) + " ORDER BY rowid LIMIT $1 OFFSET $2"@
}

/// Reads a page of `table`.
pub fn page_text(table: &str) -> (sql: String)
    ensures
        sql@ == page_sql(table@),
{
    let mut sql = "SELECT * FROM ".to_string();
    sql.append(quote_ident(table).as_str());
    sql.append(" ORDER BY rowid LIMIT $1 OFFSET $2");
    sql
}

/// Reads the row of `table` whose `key` has the given value.
pub open spec fn row_sql(table: Seq<char>, key: Seq<char>) -> Seq<char> {
    "SELECT * FROM "@ + quoted(table) + " WHERE "@ + quoted(key) + " = $1 LIMIT 1"@
}

/// Reads the row of `table` whose `key` has the given value.
pub fn row_text(table: &str, key: &str) -> (sql: String)
    ensures
        sql@ == row_sql(table@, key@),
{
    let mut sql = "SELECT * FROM ".to_string();
    sql.append(quote_ident(table).as_str());
    sql.append(" WHERE ");
    sql.append(quote_ident(key).as_str());
    sql.append(" = $1 LIMIT 1");
    sql
}

/// `parts` in order, with a comma and a space between each and the next.
pub open spec fn comma_list(parts: Seq<Seq<char>>) -> Seq<char>
    decreases parts.len(),
{
    if parts.len() == 0 {
        Seq::empty()
    } else if parts.len() == 1 {
        parts[0]
    } else {
        comma_list(parts.drop_last()) + ", "@ + parts.last()
    }
}

/// Puts one more part at the end of a list.
fn push_part(list: &mut String, first: bool, part: &str)
    ensures
        final(list)@ == if first {
            old(list)@ + part@
        } else {
            old(list)@ + ", "@ + part@
        },
{
    if !first {
        list.append(", ");
    }
    list.append(part);
}

/// `names`, each between double quotes.
pub open spec fn quoted_names(names: Seq<Seq<char>>) -> Seq<Seq<char>> {
    Seq::new(names.len(), |i: int| quoted(names[i]))
}

/// The places of the first `count` parameters: `$1`, `$2` and so on.
pub open spec fn placeholders(count: nat) -> Seq<Seq<char>> {
    Seq::new(count, |i: int| "$"@ + decimal((i + 1) as nat))
}

/// Inserts a row with the columns `names` into `table`; the values are parameters.
pub open spec fn insert_sql(table: Seq<char>, names: Seq<Seq<char>>) -> Seq<char> {
    "INSERT INTO "@ + quoted(table) + " ("@ + comma_list(quoted_names(names)) + ") VALUES ("@
        + comma_list(placeholders(names.len())) + ")"@
}

/// Whether the text of a statement is fixed, takes no values and reads.
pub open spec fn is_fixed(query: QueryView) -> bool {
    &&& query.params.len() == 0
    &&& !query.write
    &&& {
        ||| query.sql == TABLE_SUMMARIES@
        ||| query.sql == TABLE_NAMES@
        ||| query.sql == UNORDERED_TABLE_NAMES@
        ||| query.sql == HEALTH@
        ||| query.sql == INDICATORS@
        ||| query.sql == HOLDINGS@
        ||| query.sql == BUDGETS@
    }
}

/// Whether the text of a statement is fixed, takes values, gets as many as it takes, and reads.
pub open spec fn is_lookup(query: QueryView) -> bool {
    &&& !query.write
    &&& {
        ||| query.params.len() == 1 && query.sql == TABLE_COLUMNS@
        ||| query.params.len() == 1 && query.sql == TABLE_EXISTS@
        ||| query.params.len() == 1 && query.sql == PRIMARY_KEY@
        ||| query.params.len() == 1 && query.sql == DECISION_BRIEF@
        ||| query.params.len() == 2 && query.sql == NAMED_COLUMN@
    }
}

/// Whether a statement counts the rows of `table`.
pub open spec fn is_count(query: QueryView, table: Seq<char>) -> bool {
    !query.write && query.params.len() == 0 && query.sql == row_count_sql(table)
}

/// Whether a statement reads a page of `table`.
pub open spec fn is_page(query: QueryView, table: Seq<char>) -> bool {
    !query.write && query.params.len() == 2 && query.sql == page_sql(table)
}

/// Whether a statement reads a row of `table` by the column `key`.
pub open spec fn is_read(query: QueryView, table: Seq<char>, key: Seq<char>) -> bool {
    !query.write && query.params.len() == 1 && query.sql == row_sql(table, key)
}

/// Whether a statement inserts the columns `names`, each with a value, into `table`.
pub open spec fn is_insert(query: QueryView, table: Seq<char>, names: Seq<Seq<char>>) -> bool {
    query.write && query.params.len() == names.len() && query.sql == insert_sql(table, names)
}

/// Whether all of `names` may stand as identifiers.
pub open spec fn all_valid(names: Seq<Seq<char>>) -> bool {
    forall|i: int| 0 <= i < names.len() ==> valid_identifier(#[trigger] names[i])
}

/// Whether a statement may be run: it goes to a database behind the gateway, its text is fixed or
/// holds only names that may stand as identifiers, and it gets as many values as it takes.
pub open spec fn permitted(query: QueryView) -> bool {
    &&& is_known(query.database)
    &&& {
        ||| is_fixed(query)
        ||| is_lookup(query)
        ||| exists|table: Seq<char>| valid_identifier(table) && #[trigger] is_count(query, table)
        ||| exists|table: Seq<char>| valid_identifier(table) && #[trigger] is_page(query, table)
        ||| exists|table: Seq<char>, key: Seq<char>|
            valid_identifier(table) && valid_identifier(key) && #[trigger] is_read(
                query,
                table,
                key,
            )
        ||| exists|table: Seq<char>, names: Seq<Seq<char>>|
            valid_identifier(table) && all_valid(names) && #[trigger] is_insert(query, table, names)
    }
}

/// The texts of `names`.
pub open spec fn name_texts(names: Seq<String>) -> Seq<Seq<char>> {
    Seq::new(names.len(), |i: int| names[i]@)
}

fn quoted_list(names: &Vec<String>) -> (list: String)
    ensures
        list@ == comma_list(quoted_names(name_texts(names@))),
{
    let mut list = String::new();
    let ghost all = quoted_names(name_texts(names@));
    for i in 0..names.len()
        invariant
            all == quoted_names(name_texts(names@)),
            list@ == comma_list(all.take(i as int)),
    {
        push_part(&mut list, i == 0, quote_ident(names[i].as_str()).as_str());
        assert(all.take(i + 1).drop_last() =~= all.take(i as int));
        assert(list@ =~= comma_list(all.take(i + 1)));
    }
    assert(all.take(names@.len() as int) =~= all);
    list
}

fn placeholder_list(count: usize) -> (list: String)
    ensures
        list@ == comma_list(placeholders(count as nat)),
{
    let mut list = String::new();
    let ghost all = placeholders(count as nat);
    for i in 0..count
        invariant
            all == placeholders(count as nat),
            list@ == comma_list(all.take(i as int)),
    {
        let number = decimal_text(i as u64 + 1);
        push_part(&mut list, i == 0, joined("$", number.as_str()).as_str());
        assert(all.take(i + 1).drop_last() =~= all.take(i as int));
        assert(list@ =~= comma_list(all.take(i + 1)));
    }
    assert(all.take(count as int) =~= all);
    list
}

/// Inserts a row with the columns `names` into `table`; the values are parameters.
pub fn insert_text(table: &str, names: &Vec<String>) -> (sql: String)
    ensures
        sql@ == insert_sql(table@, name_texts(names@)),
{
    let mut sql = "INSERT INTO ".to_string();
    sql.append(quote_ident(table).as_str());
    sql.append(" (");
    sql.append(quoted_list(names).as_str());
    sql.append(") VALUES (");
    sql.append(placeholder_list(names.len()).as_str());
    sql.append(")");
    sql
}

} // verus!
