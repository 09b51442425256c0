//! Store: the text of the lookup that tells whether an entry is resolved.

use sea_query::QueryStatementWriter;
use vstd::prelude::*;

verus! {

/// The statement that selects one column of a table from the rows in which
/// two columns hold the given values, in the store's dialect.
pub uninterp spec fn selection_text(
    table: Seq<char>,
    column: Seq<char>,
    first_key: Seq<char>,
    first_value: Seq<char>,
    second_key: Seq<char>,
    second_value: Seq<char>,
) -> Seq<char>;

/// Trusted: `sea_query::Query::select` with `from`, `column`, two
/// `and_where` conditions of equality and `to_string` for
/// `sea_query::PostgresQueryBuilder`. The builder quotes names and values;
/// the text depends on the six arguments alone.
#[verifier::external_body]
fn select_where_both(
    table: &str,
    column: &str,
    first_key: &str,
    first_value: &str,
    second_key: &str,
    second_value: &str,
) -> (sql: String)
    ensures
        sql@ == selection_text(
            table@,
            column@,
            first_key@,
            first_value@,
            second_key@,
            second_value@,
        ),
{
    sea_query::Query::select()
        .from(sea_query::Alias::new(table))
        .column(sea_query::Alias::new(column))
        .and_where(sea_query::Expr::col(sea_query::Alias::new(first_key)).eq(first_value))
        .and_where(sea_query::Expr::col(sea_query::Alias::new(second_key)).eq(second_value))
        .to_string(sea_query::PostgresQueryBuilder)
}

/// The lookup of the place identifier stored for a city of a country.
pub fn place_id_query(country_code: &str, city_name: &str) -> (sql: String)
    ensures
        sql@ == selection_text(
            "city_information"@,
            "google_place_id"@,
            "country_code"@,
            country_code@,
            "city"@,
            city_name@,
        ),
{
    select_where_both(
        "city_information",
        "google_place_id",
        "country_code",
        country_code,
        "city",
        city_name,
    )
}

} // verus!
