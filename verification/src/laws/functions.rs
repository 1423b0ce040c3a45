//! What the functions hand out, in terms of what they are handed.

use vstd::prelude::*;

#[allow(unused_imports)]
use crate::auth::{authorize, opt_bytes};
#[allow(unused_imports)]
use crate::auth::admitted;
#[allow(unused_imports)]
use crate::battery::{
    battery_answer, battery_asked, battery_document, get_battery_erp_dashboard, BatteryDashboard,
    BatteryDraft, TableCount,
};
#[allow(unused_imports)]
use crate::brief::{
    brief_answer, brief_asked, brief_document, get_decision_brief, BriefDraft, BriefNumbers,
    DecisionBrief,
};
#[allow(unused_imports)]
use crate::calendar::{date_text, instant_text, is_date, is_time, time_text, Date, Time};
#[allow(unused_imports)]
use crate::cells::{
    cell_datum, cell_to_json, columns_view, decoder, decoder_for, row_to_json, unsupported_value,
    Cell, Column, Decoder,
};
#[allow(unused_imports)]
use crate::cockpit::{
    cockpit_answer, cockpit_asked, cockpit_document, get_finance_cockpit, BudgetNumbers,
    CockpitDraft, FinanceCockpit,
};
#[allow(unused_imports)]
use crate::config::{non_empty_env, opt_text, AppState, Config};
#[allow(unused_imports)]
use crate::connection::{
    connect_timeout, duration_text, query_error, query_timeout, ResilienceError, SqlError,
};
#[allow(unused_imports)]
use crate::counts::{
    count_or, listed_name, reported_count, row_count, table_name, table_row_count_query,
};
#[allow(unused_imports)]
use crate::databases::{
    list_databases, list_databases_answer, list_databases_asked, ListDatabases,
};
#[allow(unused_imports)]
use crate::entries::{entries, lists, pairs};
#[allow(unused_imports)]
use crate::error::{ApiError, Status};
#[allow(unused_imports)]
use crate::flow::{response_view, step_asked, step_outcome, Replies, Response, Step};
#[allow(unused_imports)]
use crate::health::{health_answer, health_asked, health_check, HealthCheck};
#[allow(unused_imports)]
use crate::identifiers::{
    ensure_database, ensure_identifier, is_known, is_valid_identifier, quote_ident,
    valid_identifier,
};
#[allow(unused_imports)]
use crate::insert::{
    insert_answer, insert_asked, insert_fields, insert_row, InsertRow, InsertRowRequest,
};
#[allow(unused_imports)]
use crate::json::{
    items_view, members_view, rows_json, rows_to_json, rows_view, Array, Datum, DatumView, Json,
    JsonView, Member, Object, Row, RowView,
};
#[allow(unused_imports)]
use crate::lookup::{
    amount_texts, int_of, json_value_to_i64, json_value_to_number_text, key_texts, number_text,
    pick_amount, pick_i64, pick_string, pick_string_or, picked_int, picked_text,
};
#[allow(unused_imports)]
use crate::numbers::{is_finite, real_rank, Amount, Real};
#[allow(unused_imports)]
use crate::page::{
    ensure_table_exists, get_table_rows, table_rows_answer, table_rows_asked, TableRows,
};
#[allow(unused_imports)]
use crate::plan::{planned_view, Plan, PlanView, Planned};
#[allow(unused_imports)]
use crate::query::{reply_view, OwnedParam, Pagination, Query, Reply};
#[allow(unused_imports)]
use crate::radar::{
    get_market_radar, radar_answer, radar_asked, radar_document, Indicator, MarketRadar,
    RadarDraft,
};
#[allow(unused_imports)]
use crate::record::{get_row_by_id, row_by_id_answer, row_by_id_asked, RowById};
#[allow(unused_imports)]
use crate::sectors::{
    build_sector_rotation, group_by_sector, groups_view, rotation, sector_groups, SectorGroup,
    SectorNumbers,
};
#[allow(unused_imports)]
use crate::sql::{comma_list, insert_text, page_text, row_count_text, row_text};
#[allow(unused_imports)]
use crate::statement::{query_reply, run_query, run_write, write_reply, Failure};
#[allow(unused_imports)]
use crate::tables::{list_tables, list_tables_answer, list_tables_asked, ListTables};
#[allow(unused_imports)]
use crate::text::{
    comes_before, contains_text, decimal, decimal_text, first_chars, has_part, joined, lower,
    lower_text, parse_i64, parse_u16, read_i64, read_u16, same_text, signed_decimal, signed_text,
    text_before, trim_end, trim_start,
};

verus! {

/// A draft holds each of its parts under its own name.
pub proof fn law_drafts_hold(
    cockpit: CockpitDraft,
    brief: BriefDraft,
    indicator: Indicator,
    group: SectorGroup,
    count: TableCount,
)
    ensures
        cockpit@.total == cockpit.total@,
        cockpit@.spent == cockpit.spent@,
        cockpit@.period == cockpit.period@,
        brief@.id == brief.id@,
        brief@.title == brief.title@,
        brief@.status == brief.status@,
        brief@.priority == brief.priority@,
        brief.created matches Some(value) ==> brief@.created == Some(value@),
        brief.created is None ==> brief@.created is None,
        brief@.context == brief.context@,
        brief@.recommendation == brief.recommendation@,
        brief@.budget == brief.budget@,
        brief@.roi == brief.roi@,
        brief@.payback_months == brief.payback_months as int,
        brief@.npv == brief.npv@,
        indicator@.name == indicator.name@,
        indicator@.value == indicator.value@,
        indicator@.signal == indicator.signal@,
        indicator@.direction == indicator.direction@,
        group@.sector == group.sector@,
        group@.amounts.len() == group.amounts@.len(),
        count@.name == count.name@,
        count@.rows == count.rows as int,
{
}

/// A list holds its items in their order.
pub proof fn law_lists_hold(
    amount: Amount,
    group: SectorGroup,
    radar: RadarDraft,
    battery: BatteryDraft,
    rows: Seq<Row>,
    i: int,
)
    ensures
        amount@.len() == amount.texts@.len(),
        0 <= i < amount.texts@.len() ==> amount@[i] == amount.texts@[i]@,
        0 <= i < group.amounts@.len() ==> group@.amounts[i] == group.amounts@[i]@,
        radar@.indicators.len() == radar.indicators@.len(),
        0 <= i < radar.indicators@.len() ==> radar@.indicators[i] == radar.indicators@[i]@,
        radar@.groups.len() == radar.groups@.len(),
        0 <= i < radar.groups@.len() ==> radar@.groups[i] == radar.groups@[i]@,
        battery@.len() == battery.counts@.len(),
        0 <= i < battery.counts@.len() ==> battery@[i] == battery.counts@[i]@,
        rows_view(rows).len() == rows.len(),
        0 <= i < rows.len() ==> rows_view(rows)[i] == rows[i]@,
{
}

/// An answer is what was put into it: a document, an error, rows or a plan.
pub proof fn law_answers_hold(
    json: Json,
    error: ApiError,
    rows: Vec<Row>,
    draft: CockpitDraft,
)
    ensures
        response_view(Ok(json)) matches Ok(document) && document == json@,
        response_view(Err(error)) matches Err(answer) && answer.status == error.status
            && answer.detail == error.detail@,
        reply_view(Ok(rows)) matches Ok(list) && list == rows_view(rows@),
        reply_view(Err(error)) matches Err(answer) && answer.status == error.status
            && answer.detail == error.detail@,
        planned_view(Ok(Plan::Live { draft })) matches Ok(PlanView::Live { draft: shown }) && shown
            == draft@,
        planned_view::<CockpitDraft>(Ok(Plan::Sample { document: json })) matches Ok(
            PlanView::Sample { document },
        ) && document == json@,
        planned_view::<CockpitDraft>(Err(error)) matches Err(answer) && answer.status
            == error.status && answer.detail == error.detail@,
{
}

/// An array holds its items in their order, and an object a value for each key; of two members with
/// one key the later counts.
pub proof fn law_documents_hold(
    items: Seq<Json>,
    item: Json,
    members: Seq<Member>,
    last: Member,
    key: Seq<char>,
)
    ensures
        items_view(Seq::empty()) == Seq::<JsonView>::empty(),
        items_view(items.push(item)) == items_view(items).push(item@),
        members_view(Seq::empty()) == Map::<Seq<char>, JsonView>::empty(),
        members_view(members.push(last)).contains_key(last.key@),
        members_view(members.push(last))[last.key@] == last.value@,
        key != last.key@ ==> members_view(members.push(last)).contains_key(key) == members_view(
            members,
        ).contains_key(key) && members_view(members.push(last))[key] == members_view(members)[key],
{
    assert(items.push(item).drop_last() =~= items);
    assert(members.push(last).drop_last() =~= members);
}

/// A document is what it was made from.
pub proof fn law_document_kinds(datum: Datum, array: Array, object: Object)
    ensures
        Json::Datum(datum)@ == JsonView::Datum(datum@),
        Json::Array(array)@ == JsonView::Array(items_view(array.items@)),
        Json::Object(object)@ == JsonView::Object(members_view(object.members@)),
        array@ == items_view(array.items@),
        object@ == members_view(object.members@),
{
}

/// The header of a request is its bytes, if it has one.
pub proof fn law_header(bytes: &[u8], text: String)
    ensures
        opt_bytes(Some(bytes)) == Some(bytes@),
        opt_bytes(None) is None,
        opt_text(Some(text)) == Some(text@),
        opt_text(None) is None,
{
}

/// A request that is admitted goes on, and any other is answered with the status 401.
pub proof fn law_authorize(
    header: Option<&[u8]>,
    state: AppState,
    checked: Result<(), ApiError>,
)
    requires
        call_ensures(authorize, (header, &state), checked),
    ensures
        checked is Ok <==> admitted(opt_text(state.settings().api_key), opt_bytes(header)),
        checked matches Err(error) ==> error.status is Unauthorized && error.detail@
            == "Invalid or missing API key"@,
{
}

/// A request for the list of the databases is started with what it carries.
pub proof fn law_list_databases_started(
    header: Option<&[u8]>,
    state: AppState,
    step: Step<ListDatabases, Response>,
    replies: Replies,
)
    requires
        call_ensures(list_databases, (header, &state), step),
    ensures
        step_outcome(step, replies, 0) == list_databases_answer(state, opt_bytes(header), replies),
        step_asked(step, replies, 0) =~= list_databases_asked(state, opt_bytes(header), replies),
{
}

/// A health check is started with nothing.
pub proof fn law_health_check_started(step: Step<HealthCheck, Json>, replies: Replies)
    requires
        call_ensures(health_check, (), step),
    ensures
        step_outcome(step, replies, 0) == health_answer(replies),
        step_asked(step, replies, 0) =~= health_asked(),
{
}

/// A request for the tables of a database is started with what it carries.
pub proof fn law_list_tables_started(
    header: Option<&[u8]>,
    state: AppState,
    database: &str,
    step: Step<ListTables, Response>,
    replies: Replies,
)
    requires
        call_ensures(list_tables, (header, &state, database), step),
    ensures
        step_outcome(step, replies, 0) == list_tables_answer(
            state,
            opt_bytes(header),
            database@,
            replies,
        ),
        step_asked(step, replies, 0) =~= list_tables_asked(
            state,
            opt_bytes(header),
            database@,
            replies,
        ),
{
}

/// A request for a page is started with what it carries.
pub proof fn law_page_started(
    header: Option<&[u8]>,
    state: AppState,
    database: &str,
    table: &str,
    pagination: Pagination,
    step: Step<TableRows, Response>,
    replies: Replies,
)
    requires
        call_ensures(get_table_rows, (header, &state, database, table, pagination), step),
    ensures
        step_outcome(step, replies, 0) == table_rows_answer(
            state,
            opt_bytes(header),
            database@,
            table@,
            pagination,
            replies,
        ),
        step_asked(step, replies, 0) =~= table_rows_asked(
            state,
            opt_bytes(header),
            database@,
            table@,
            pagination,
            replies,
        ),
{
}

/// A request for a row is started with what it carries.
pub proof fn law_row_started(
    header: Option<&[u8]>,
    state: AppState,
    database: &str,
    table: &str,
    record_id: &str,
    step: Step<RowById, Response>,
    replies: Replies,
)
    requires
        call_ensures(get_row_by_id, (header, &state, database, table, record_id), step),
    ensures
        step_outcome(step, replies, 0) == row_by_id_answer(
            state,
            opt_bytes(header),
            database@,
            table@,
            record_id@,
            replies,
        ),
        step_asked(step, replies, 0) =~= row_by_id_asked(
            state,
            opt_bytes(header),
            database@,
            table@,
            record_id@,
            replies,
        ),
{
}

/// A request to insert a row is started with the columns and the values of its body, each column
/// once.
pub proof fn law_insert_started(
    header: Option<&[u8]>,
    state: AppState,
    database: &str,
    table: &str,
    body: InsertRowRequest,
    step: Step<InsertRow, Response>,
    replies: Replies,
)
    requires
        call_ensures(insert_row, (header, &state, database, table, &body), step),
    ensures
        exists|fields: Seq<crate::entries::Pair>| #[trigger]
            lists(fields, entries(body.data)) && step_outcome(step, replies, 0) == insert_answer(
                state,
                opt_bytes(header),
                database@,
                table@,
                fields,
                replies,
            ) && step_asked(step, replies, 0) =~= insert_asked(
                state,
                opt_bytes(header),
                database@,
                table@,
                fields,
            ),
{
    let fields = crate::entries::listed(entries(body.data));
    assert(lists(fields, entries(body.data)));
    assert(step_outcome(step, replies, 0) == insert_answer(
        state,
        opt_bytes(header),
        database@,
        table@,
        fields,
        replies,
    ));
    assert(step_asked(step, replies, 0) =~= insert_asked(
        state,
        opt_bytes(header),
        database@,
        table@,
        fields,
    ));
}

/// A request to insert fields is started with them, in their order.
pub proof fn law_insert_fields_started(
    header: Option<&[u8]>,
    state: AppState,
    database: &str,
    table: &str,
    row: Row,
    step: Step<InsertRow, Response>,
    replies: Replies,
    i: int,
)
    requires
        call_ensures(insert_fields, (header, &state, database, table, row), step),
    ensures
        step_outcome(step, replies, 0) == insert_answer(
            state,
            opt_bytes(header),
            database@,
            table@,
            pairs(row.fields@),
            replies,
        ),
        step_asked(step, replies, 0) =~= insert_asked(
            state,
            opt_bytes(header),
            database@,
            table@,
            pairs(row.fields@),
        ),
        pairs(row.fields@).len() == row.fields@.len(),
        0 <= i < row.fields@.len() ==> pairs(row.fields@)[i] == (
            row.fields@[i].name@,
            row.fields@[i].value@,
        ),
{
}

/// The columns of an insertion ascend.
pub proof fn law_insertion_ascends(
    list: Seq<crate::entries::Pair>,
    map: RowView,
    i: int,
    j: int,
)
    requires
        lists(list, map),
        0 <= i < j < list.len(),
    ensures
        text_before(list[i].0, list[j].0),
{
    assert(crate::entries::by_name()(list[i], list[j]));
}

/// The requests for the dashboards are started with what they carry.
pub proof fn law_dashboards_started(
    header: Option<&[u8]>,
    state: AppState,
    radar: Step<MarketRadar, Planned<RadarDraft>>,
    cockpit: Step<FinanceCockpit, Planned<CockpitDraft>>,
    battery: Step<BatteryDashboard, Planned<BatteryDraft>>,
    decision_id: &str,
    brief: Step<DecisionBrief, Planned<BriefDraft>>,
    replies: Replies,
)
    requires
        call_ensures(get_market_radar, (header, &state), radar),
        call_ensures(get_finance_cockpit, (header, &state), cockpit),
        call_ensures(get_battery_erp_dashboard, (header, &state), battery),
        call_ensures(get_decision_brief, (header, &state, decision_id), brief),
    ensures
        step_outcome(radar, replies, 0) == radar_answer(state, opt_bytes(header), replies),
        step_asked(radar, replies, 0) =~= radar_asked(state, opt_bytes(header), replies),
        step_outcome(cockpit, replies, 0) == cockpit_answer(state, opt_bytes(header), replies),
        step_asked(cockpit, replies, 0) =~= cockpit_asked(state, opt_bytes(header)),
        step_outcome(battery, replies, 0) == battery_answer(state, opt_bytes(header), replies),
        step_asked(battery, replies, 0) =~= battery_asked(state, opt_bytes(header), replies),
        step_outcome(brief, replies, 0) == brief_answer(
            state,
            opt_bytes(header),
            decision_id@,
            replies,
        ),
        step_asked(brief, replies, 0) =~= brief_asked(state, opt_bytes(header), decision_id@),
{
}

/// The dashboards are finished from their own drafts, numbers and time.
pub proof fn law_dashboards_finished(
    radar: RadarDraft,
    values: Vec<Real>,
    sectors: Vec<SectorNumbers>,
    radar_json: Json,
    cockpit: CockpitDraft,
    budget: BudgetNumbers,
    cockpit_json: Json,
    brief: BriefDraft,
    impact: BriefNumbers,
    brief_json: Json,
    battery: BatteryDraft,
    battery_json: Json,
    now: &str,
)
    requires
        call_ensures(RadarDraft::finish, (&radar, &values, &sectors, now), radar_json),
        call_ensures(CockpitDraft::finish, (&cockpit, &budget), cockpit_json),
        call_ensures(BriefDraft::finish, (&brief, &impact, now), brief_json),
        call_ensures(BatteryDraft::finish, (&battery, now), battery_json),
    ensures
        radar_json@ == radar_document(radar@, values@, sectors@, now@),
        cockpit_json@ == cockpit_document(cockpit@, budget),
        brief_json@ == brief_document(brief@, impact, now@),
        battery_json@ == battery_document(battery@, now@),
{
}

/// The sectors are grouped from the holdings and shown by what their values come to.
pub proof fn law_sectors_built(
    rows: Vec<Row>,
    groups: Vec<SectorGroup>,
    numbers: Vec<SectorNumbers>,
    sectors: Array,
)
    requires
        call_ensures(group_by_sector, (&rows,), groups),
        call_ensures(build_sector_rotation, (&groups, &numbers), sectors),
    ensures
        groups_view(groups@) == sector_groups(rows_view(rows@)),
        sectors@ == rotation(groups_view(groups@), numbers@),
{
}

/// A database is accepted when it is behind the gateway, and a name when it may stand as an
/// identifier.
pub proof fn law_checks(
    database: &str,
    known: Result<(), ApiError>,
    kind: &str,
    value: &str,
    named: Result<(), ApiError>,
    valid: bool,
    quoted: String,
)
    requires
        call_ensures(ensure_database, (database,), known),
        call_ensures(ensure_identifier, (kind, value), named),
        call_ensures(is_valid_identifier, (value,), valid),
        call_ensures(quote_ident, (value,), quoted),
    ensures
        known is Ok <==> is_known(database@),
        known matches Err(error) ==> error.status is NotFound && error.detail@
            == "Unknown database: "@ + database@,
        named is Ok <==> valid_identifier(value@),
        named matches Err(error) ==> error.status is BadRequest && error.detail@ == "Invalid "@
            + kind@ + " name"@,
        valid <==> valid_identifier(value@),
        quoted@ =~= seq!['"'] + value@ + seq!['"'],
{
}

/// A table is there when the statement that looks for it gives a row.
pub proof fn law_table_check(
    rows: Vec<Row>,
    database: &str,
    table: &str,
    checked: Result<(), ApiError>,
)
    requires
        call_ensures(ensure_table_exists, (&rows, database, table), checked),
    ensures
        checked is Ok <==> rows@.len() > 0,
        checked matches Err(error) ==> error.status is NotFound && error.detail@ == "Table '"@
            + table@ + "' not found in '"@ + database@ + "'"@,
{
}

/// An error is made with the status that its maker is named after and what it says.
pub proof fn law_errors_made(
    detail: &str,
    bad_request: ApiError,
    unauthorized: ApiError,
    not_found: ApiError,
    unavailable: ApiError,
    internal: ApiError,
    status: Status,
    other: ApiError,
)
    requires
        call_ensures(ApiError::bad_request, (detail,), bad_request),
        call_ensures(ApiError::unauthorized, (detail,), unauthorized),
        call_ensures(ApiError::not_found, (detail,), not_found),
        call_ensures(ApiError::service_unavailable, (detail,), unavailable),
        call_ensures(ApiError::internal, (detail,), internal),
        call_ensures(ApiError::new, (status, detail), other),
    ensures
        bad_request.status is BadRequest && bad_request.detail@ == detail@,
        unauthorized.status is Unauthorized && unauthorized.detail@ == detail@,
        not_found.status is NotFound && not_found.detail@ == detail@,
        unavailable.status is ServiceUnavailable && unavailable.detail@ == detail@,
        internal.status is InternalServerError && internal.detail@ == detail@,
        other.status == status && other.detail@ == detail@,
{
}

/// The statements that are built name their table, their key and their columns, and have a place for
/// every value.
pub proof fn law_statements_built(
    table: &str,
    key: &str,
    names: Vec<String>,
    count: String,
    page: String,
    row: String,
    insert: String,
)
    requires
        call_ensures(row_count_text, (table,), count),
        call_ensures(page_text, (table,), page),
        call_ensures(row_text, (table, key), row),
        call_ensures(insert_text, (table, &names), insert),
    ensures
        count@ =~= "SELECT count(*) AS cnt FROM "@ + (seq!['"'] + table@ + seq!['"']),
        page@ =~= "SELECT * FROM "@ + (seq!['"'] + table@ + seq!['"'])
            + " ORDER BY rowid LIMIT $1 OFFSET $2"@,
        row@ =~= "SELECT * FROM "@ + (seq!['"'] + table@ + seq!['"']) + " WHERE "@ + (seq!['"']
            + key@ + seq!['"']) + " = $1 LIMIT 1"@,
        insert@ =~= "INSERT INTO "@ + (seq!['"'] + table@ + seq!['"']) + " ("@ + comma_list(
            Seq::new(names@.len(), |i: int| (seq!['"'] + names@[i]@ + seq!['"'])),
        ) + ") VALUES ("@ + comma_list(
            Seq::new(names@.len(), |i: int| "$"@ + decimal((i + 1) as nat)),
        ) + ")"@,
{
    assert(crate::sql::quoted_names(crate::sql::name_texts(names@)) =~= Seq::new(
        names@.len(),
        |i: int| (seq!['"'] + names@[i]@ + seq!['"']),
    ));
    assert(crate::sql::placeholders(crate::sql::name_texts(names@).len()) =~= Seq::new(
        names@.len(),
        |i: int| "$"@ + decimal((i + 1) as nat),
    ));
}

/// A statement is made for its database, with its text and its values, and reads.
pub proof fn law_queries_made(
    database: &str,
    sql: &str,
    value: &str,
    plain: Query,
    with_text: Query,
)
    requires
        call_ensures(Query::plain, (database, sql), plain),
        call_ensures(Query::with_text, (database, sql, value), with_text),
    ensures
        plain.database@ == database@ && plain.sql@ == sql@ && plain.params@.len() == 0
            && !plain.write,
        with_text.database@ == database@ && with_text.sql@ == sql@ && with_text.params@.len() == 1
            && !with_text.write,
        with_text.params@[0] matches OwnedParam::Text(text) && text@ == value@,
{
    assert(plain@.params.len() == plain.params@.len());
    assert(with_text@.params.len() == with_text.params@.len());
    assert(with_text@.params[0] == with_text.params@[0]@);
}

/// Tables are named and counted by what their rows say.
pub proof fn law_counts_read(
    row: Row,
    name: String,
    rows: Vec<Row>,
    count: i64,
    reply: Reply,
    default: i64,
    reported: i64,
    database: &str,
    table: &str,
    query: Result<Query, ApiError>,
)
    requires
        call_ensures(table_name, (&row,), name),
        call_ensures(row_count, (&rows,), count),
        call_ensures(count_or, (&reply, default), reported),
        call_ensures(table_row_count_query, (database, table), query),
    ensures
        name@ == listed_name(row@),
        count == reported_count(Ok(rows_view(rows@)), default as int),
        reply is Err ==> reported == default,
        reply matches Ok(list) ==> reported == reported_count(
            Ok(rows_view(list@)),
            default as int,
        ),
        query is Ok <==> valid_identifier(table@),
        query matches Ok(q) ==> q.database@ == database@ && q.sql@
            =~= "SELECT count(*) AS cnt FROM "@ + (seq!['"'] + table@ + seq!['"']) && !q.write,
        query matches Err(error) ==> error.status is BadRequest && error.detail@ == "Invalid "@
            + "table"@ + " name"@,
{
}

/// Values are read from rows by their columns.
pub proof fn law_columns_read(
    value: Datum,
    integer: Option<i64>,
    number: Option<String>,
    row: Row,
    keys: &[&str],
    default: &str,
    text: Option<String>,
    filled: String,
    picked: Option<i64>,
    amount: Amount,
)
    requires
        call_ensures(json_value_to_i64, (&value,), integer),
        call_ensures(json_value_to_number_text, (&value,), number),
        call_ensures(pick_string, (&row, keys), text),
        call_ensures(pick_string_or, (&row, keys, default), filled),
        call_ensures(pick_i64, (&row, keys), picked),
        call_ensures(pick_amount, (&row, keys, default), amount),
    ensures
        integer == int_of(value@),
        opt_text(number) == number_text(value@),
        opt_text(text) == picked_text(row@, key_texts(keys@)),
        text matches Some(t) ==> filled@ == t@,
        text is None ==> filled@ == default@,
        picked == picked_int(row@, key_texts(keys@)),
        amount@ == amount_texts(row@, key_texts(keys@), default@),
        key_texts(keys@).len() == keys@.len(),
        forall|i: int| 0 <= i < keys@.len() ==> #[trigger] key_texts(keys@)[i] == keys@[i]@,
{
}

/// Cells and rows are reported by their types and what they hold.
pub proof fn law_cells_read(
    oid: u32,
    way: Decoder,
    ty: &str,
    cell: Cell,
    datum: Datum,
    columns: Vec<Column>,
    row: Row,
    unsupported: Datum,
)
    requires
        call_ensures(decoder, (oid,), way),
        call_ensures(cell_to_json, (oid, ty, &cell), datum),
        call_ensures(row_to_json, (&columns,), row),
        call_ensures(unsupported_value, (ty,), unsupported),
    ensures
        way == decoder_for(oid),
        datum@ == cell_datum(oid, ty@, cell),
        row@ == columns_view(columns@),
        unsupported@ == DatumView::Text("<unsupported:"@ + ty@ + ">"@),
{
}

/// Statements that were run are replied by what they came to.
pub proof fn law_statements_replied(
    read: Result<Vec<Vec<Column>>, Failure>,
    reply: Reply,
    written: Result<u64, Failure>,
    answer: Reply,
)
    requires
        call_ensures(run_query, (read,), reply),
        call_ensures(run_write, (written,), answer),
    ensures
        reply_view(reply) == query_reply(read),
        reply_view(answer) == write_reply(written),
        reply is Ok <==> read is Ok,
        answer is Ok <==> written is Ok,
{
}

/// A floating-point number has its place by its bits: a positive one as many places above zero as its
/// bits say, and a negative one as many below.
pub proof fn law_rank(x: Real, rank: i64, finite: bool, datum: Datum)
    requires
        call_ensures(Real::rank, (&x,), rank),
        call_ensures(Real::finite, (&x,), finite),
        call_ensures(Real::to_datum, (&x,), datum),
    ensures
        x.bits < 0x7ff0_0000_0000_0000 ==> rank as int == x.bits as int,
        0x8000_0000_0000_0000 <= x.bits < 0xfff0_0000_0000_0000 ==> rank as int
            == 0x8000_0000_0000_0000 - x.bits as int,
        !finite ==> rank == 0 && datum@ == DatumView::Null,
        finite ==> datum@ == DatumView::Decimal(x.text@),
        finite <==> is_finite(x.bits),
        rank as int == real_rank(x.bits),
{
}

/// Texts are joined, cut, compared, searched, written and read by their characters.
pub proof fn law_texts(
    a: &str,
    b: &str,
    same: bool,
    both: String,
    count: usize,
    head: String,
    low: String,
    found: bool,
    before: bool,
)
    requires
        call_ensures(same_text, (a, b), same),
        call_ensures(joined, (a, b), both),
        call_ensures(first_chars, (a, count), head),
        call_ensures(lower_text, (a,), low),
        call_ensures(contains_text, (a, b), found),
        call_ensures(comes_before, (a, b), before),
    ensures
        same <==> a@ == b@,
        both@ =~= a@ + b@,
        a@.len() <= count ==> head@ == a@,
        a@.len() > count ==> head@ == a@.take(count as int),
        low@ == lower(a@),
        found <==> has_part(a@, b@),
        before <==> text_before(a@, b@),
{
}

/// Numbers are written in decimal and read from it.
pub proof fn law_numbers_written(
    n: u64,
    z: i64,
    unsigned: String,
    signed: String,
    s: &str,
    port: Option<u16>,
    integer: Option<i64>,
)
    requires
        call_ensures(decimal_text, (n,), unsigned),
        call_ensures(signed_text, (z,), signed),
        call_ensures(parse_u16, (s,), port),
        call_ensures(parse_i64, (s,), integer),
    ensures
        unsigned@ == decimal(n as nat),
        signed@ == signed_decimal(z as int),
        port == read_u16(s@),
        integer == read_i64(s@),
{
}

/// Documents are made of what they are handed.
pub proof fn law_documents_made(
    s: &str,
    n: i64,
    b: bool,
    text: Json,
    number: Json,
    decimal: Json,
    flag: Json,
    rows: Vec<Row>,
    list: Json,
    datum: Datum,
    again: Datum,
)
    requires
        call_ensures(Json::text, (s,), text),
        call_ensures(Json::number, (n,), number),
        call_ensures(Json::decimal, (s,), decimal),
        call_ensures(Json::flag, (b,), flag),
        call_ensures(rows_to_json, (&rows,), list),
        call_ensures(Datum::copy, (&datum,), again),
    ensures
        text@ == JsonView::Datum(DatumView::Text(s@)),
        number@ == JsonView::Datum(DatumView::Int(n as int)),
        decimal@ == JsonView::Datum(DatumView::Decimal(s@)),
        flag@ == JsonView::Datum(DatumView::Bool(b)),
        list@ == rows_json(rows_view(rows@)),
        again@ == datum@,
{
}

/// A moment that there is is written with its day, a `T`, its time of day and the offset of UTC; any
/// other is not written.
pub proof fn law_instant(date: Date, time: Time, text: Option<String>)
    requires
        call_ensures(instant_text, (date, time), text),
    ensures
        text is Some <==> is_date(date) && is_time(time),
        text matches Some(t) ==> t@ == date_text(date) + "T"@ + time_text(time) + "+00:00"@,
{
}

/// The state of the gateway is the set-up that it was made with.
pub proof fn law_state(config: std::sync::Arc<Config>, state: AppState, read: &Config)
    requires
        call_ensures(AppState::new, (config,), state),
        call_ensures(AppState::config, (&state,), read),
    ensures
        state.settings() == *config,
        *read == *config,
{
}

/// A variable counts without the white space at its ends, and not at all where nothing is left.
pub proof fn law_variable(value: Option<String>, text: Option<String>)
    requires
        call_ensures(non_empty_env, (&value,), text),
    ensures
        value is None ==> text is None,
        value matches Some(s) ==> match text {
            Some(t) => t@ == trim_end(trim_start(s@)) && t@.len() > 0,
            None => trim_end(trim_start(s@)).len() == 0,
        },
{
}

/// A statement of any kind that fails is answered by how it failed.
pub proof fn law_query_error(
    kind: &str,
    nanos: u64,
    attempts: u32,
    refusal: SqlError,
    late: ApiError,
    terminal: ApiError,
    exhausted: ApiError,
    waited: ApiError,
)
    requires
        call_ensures(query_error, (kind, ResilienceError::Timeout { nanos }), late),
        call_ensures(
            query_error,
            (kind, ResilienceError::Terminal(ResilienceError::Terminal(refusal))),
            terminal,
        ),
        call_ensures(
            query_error,
            (
                kind,
                ResilienceError::Exhausted {
                    attempts,
                    source: ResilienceError::Exhausted { attempts, source: refusal },
                },
            ),
            exhausted,
        ),
        call_ensures(
            query_error,
            (
                kind,
                ResilienceError::Exhausted { attempts, source: ResilienceError::Timeout { nanos } },
            ),
            waited,
        ),
    ensures
        late.status is ServiceUnavailable && late.detail@ == "database "@ + kind@
            + " timed out after "@ + duration_text(nanos),
        terminal.status is InternalServerError && terminal.detail@ == refusal.message@,
        exhausted.status is InternalServerError && exhausted.detail@ == refusal.message@,
        waited.status is InternalServerError && waited.detail@ == "database "@ + kind@
            + " failed"@,
{
}

/// What took too long is answered with the time that was waited.
pub proof fn law_timeouts(
    kind: &str,
    duration: &str,
    connecting: ApiError,
    running: ApiError,
    error: ResilienceError<String>,
    source: Option<String>,
)
    requires
        call_ensures(connect_timeout, (duration,), connecting),
        call_ensures(query_timeout, (kind, duration), running),
        call_ensures(ResilienceError::<String>::into_source, (error,), source),
    ensures
        connecting.status is ServiceUnavailable && connecting.detail@
            == "database connect timed out after "@ + duration@,
        running.status is ServiceUnavailable && running.detail@ == "database "@ + kind@
            + " timed out after "@ + duration@,
        error is Timeout <==> source is None,
        error matches ResilienceError::Terminal(cause) ==> source == Some(cause),
        error matches ResilienceError::Exhausted { attempts, source: cause } ==> source == Some(
            cause,
        ),
{
}

} // verus!
