//! What holds of the gateway as a whole.

pub mod dashboards;
pub mod functions;
pub mod requests;
pub mod values;

#[allow(unused_imports)]
use vstd::arithmetic::power2::{
    lemma_pow2_pos, lemma_pow2_strictly_increases, lemma_pow2_unfold, pow2,
};
use vstd::prelude::*;

#[allow(unused_imports)]
use crate::auth::{admitted, not_admitted};
#[allow(unused_imports)]
use crate::battery::{
    battery_answer, battery_summary, battery_tables_query, holds_hazards, holds_inventory,
    holds_orders, TableCountView,
};
#[allow(unused_imports)]
use crate::brief::{brief_answer, brief_document, brief_plan, brief_query, BriefNumbers};
#[allow(unused_imports)]
use crate::cockpit::{budgets_query, cockpit_answer};
#[allow(unused_imports)]
use crate::config::{non_blank, opt_text, port_or, AppState};
#[allow(unused_imports)]
use crate::counts::{listed_name, reported_count, row_count_query};
#[allow(unused_imports)]
use crate::databases::{
    counted_before, database_entry, database_number, databases_asked, databases_report, excerpt,
    failed_entry, list_databases_answer, list_databases_asked, listed_databases, summaries_asked,
    summary_query, table_summaries, table_summary,
};
#[allow(unused_imports)]
use crate::entries::{by_name, lists, Pair};
#[allow(unused_imports)]
use crate::error::ApiErrorView;
#[allow(unused_imports)]
use crate::flow::{step_asked, step_outcome, step_wf, Flow, Replies, Step};
#[allow(unused_imports)]
use crate::health::{database_status, database_statuses, health_answer, health_query, health_report};
#[allow(unused_imports)]
use crate::identifiers::{
    invalid_name, is_known, quoted, unknown_database, valid_identifier, DATABASES,
};
#[allow(unused_imports)]
use crate::insert::{column_names, insert_answer, insert_query};
#[allow(unused_imports)]
use crate::json::{DatumView, JsonView, RowView};
#[allow(unused_imports)]
use crate::lookup::int_of;
#[allow(unused_imports)]
use crate::numbers::{is_finite, magnitude, real_rank, real_value};
#[allow(unused_imports)]
use crate::order::{ascends, lemma_text_before_asymmetric};
#[allow(unused_imports)]
use crate::page::table_rows_answer;
#[allow(unused_imports)]
use crate::plan::{PlanView, PlannedView};
#[allow(unused_imports)]
use crate::query::{
    page_limit, page_offset, param_of, reply_view, text_query, Pagination, QueryView, Reply,
    ReplyView,
};
#[allow(unused_imports)]
use crate::radar::{indicators_query, radar_answer};
#[allow(unused_imports)]
use crate::ranking::{by_falling, lemma_ranking_exists, ranking};
#[allow(unused_imports)]
use crate::record::{declared_key, row_by_id_answer, KEY_CANDIDATES};
#[allow(unused_imports)]
use crate::samples::{
    sample_battery_erp_dashboard, sample_decision_brief, sample_finance_cockpit,
    sample_market_radar,
};
#[allow(unused_imports)]
use crate::sectors::{
    by_sector, flow_ranks, has_sector, holding_amount, holding_sector, joined_group,
    lemma_grouping_exists, lemma_grouping_step, new_group, rotation, sector_amounts,
    sector_groups, sector_json, GroupView, SectorNumbers,
};
#[allow(unused_imports)]
use crate::sql::{permitted, PRIMARY_KEY};
#[allow(unused_imports)]
use crate::tables::{
    columns_number, columns_query, columns_reply, detail_count, details_asked, fails_first,
    list_tables_answer, table_detail, table_details,
};
#[allow(unused_imports)]
use crate::text::{
    decimal, is_digit, is_white_space, number_of, signed_decimal, text_before, trim_end,
    trim_start,
};

verus! {

/// Whether `step` is how `flow` may go on with `reply`.
pub open spec fn goes_on<F: Flow>(flow: F, reply: Reply, step: Step<F, F::Outcome>) -> bool {
    call_ensures(F::resume, (flow, reply), step)
}

/// Whether a request goes through `steps`, where `given` are the replies to its statements.
pub open spec fn is_run<F: Flow>(steps: Seq<Step<F, F::Outcome>>, given: Seq<Reply>) -> bool {
    &&& steps.len() == given.len() + 1
    &&& step_wf(steps[0])
    &&& forall|i: int|
        0 <= i < given.len() ==> #[trigger] steps[i] is Ask && goes_on(
            steps[i]->next,
            given[i],
            steps[i + 1],
        )
}

/// The replies that were given, by their numbers.
pub open spec fn recorded(given: Seq<Reply>) -> Replies {
    |n: nat, query| reply_view(given[n as int])
}

/// The statements of the first `count` of `steps`.
pub open spec fn statements<F: Flow>(
    steps: Seq<Step<F, F::Outcome>>,
    count: nat,
) -> Seq<QueryView> {
    Seq::new(count, |i: int| steps[i]->query@)
}

/// A request that is taken from step to step comes to what its first step promises of the
/// replies that were given, and asks for the statements that its first step promises and for no
/// other.
pub proof fn law_run<F: Flow>(steps: Seq<Step<F, F::Outcome>>, given: Seq<Reply>)
    requires
        is_run(steps, given),
        steps.last() is Done,
    ensures
        F::outcome_view(steps.last()->result) == step_outcome(steps[0], recorded(given), 0),
        statements(steps, given.len()) == step_asked(steps[0], recorded(given), 0),
{
    lemma_run(steps, given, given.len());
    assert(statements(steps, given.len()) =~= step_asked(steps[0], recorded(given), 0));
}

proof fn lemma_run<F: Flow>(steps: Seq<Step<F, F::Outcome>>, given: Seq<Reply>, count: nat)
    requires
        is_run(steps, given),
        count <= given.len(),
    ensures
        step_wf(steps[count as int]),
        step_outcome(steps[0], recorded(given), 0) == step_outcome(
            steps[count as int],
            recorded(given),
            count,
        ),
        step_asked(steps[0], recorded(given), 0) =~= statements(steps, count) + step_asked(
            steps[count as int],
            recorded(given),
            count,
        ),
    decreases count,
{
    if count > 0 {
        let i = count - 1;
        lemma_run(steps, given, i as nat);
        let flow = steps[i]->next;
        assert(goes_on(flow, given[i], steps[i + 1]));
        assert(recorded(given)(i as nat, flow.pending()) == reply_view(given[i]));
        assert(flow.outcome(recorded(given), i as nat) == step_outcome(
            steps[i + 1],
            recorded(given),
            count,
        ));
        assert(flow.asked(recorded(given), i as nat) =~= seq![flow.pending()] + step_asked(
            steps[i + 1],
            recorded(given),
            count,
        ));
        assert(statements(steps, count) =~= statements(steps, i as nat) + seq![flow.pending()]);
    }
}

/// Every statement of a request may be run: it goes to a database behind the gateway, and all
/// names in its text may stand as identifiers. It writes only where the request does.
pub proof fn law_statements_permitted<F: Flow>(
    steps: Seq<Step<F, F::Outcome>>,
    given: Seq<Reply>,
    i: int,
)
    requires
        is_run(steps, given),
        0 <= i < steps.len(),
    ensures
        steps[i] matches Step::Ask { query, next } ==> permitted(query@) && query@.write
            == F::writes(),
{
    lemma_run(steps, given, i as nat);
    if let Step::Ask { query, next } = steps[i] {
        next.pending_permitted();
    }
}

/// Whether the request that waits as state number `n` may ask for one more statement when it goes
/// on, and then wait as the state after it.
pub open spec fn asks_again<F: Flow>(states: spec_fn(nat) -> F, n: nat) -> bool {
    states(n).wf() && exists|reply: Reply, step: Step<F, F::Outcome>|
        #![trigger goes_on(states(n), reply, step)]
        goes_on(states(n), reply, step) && step is Ask && step->next == states(n + 1)
}

/// No request asks for statements without end.
pub proof fn law_settles<F: Flow>(states: spec_fn(nat) -> F)
    ensures
        exists|n: nat| !#[trigger] asks_again(states, n),
{
    lemma_settles(states, 0);
}

proof fn lemma_settles<F: Flow>(states: spec_fn(nat) -> F, n: nat)
    ensures
        exists|m: nat| !#[trigger] asks_again(states, m),
    decreases states(n).parts(), states(n).left(),
{
    if asks_again(states, n) {
        lemma_settles(states, n + 1);
    }
}

/// Whether a request is answered that it is not admitted.
pub open spec fn is_refused<T>(answer: Result<T, ApiErrorView>) -> bool {
    answer matches Err(error) && error == not_admitted()
}

/// A request that is not admitted is answered so by every protected endpoint, whatever the
/// databases would say.
pub proof fn law_refused(
    state: AppState,
    header: Option<Seq<u8>>,
    database: Seq<char>,
    table: Seq<char>,
    record_id: Seq<char>,
    pagination: Pagination,
    fields: Seq<Pair>,
    replies: Replies,
)
    requires
        !admitted(opt_text(state.settings().api_key), header),
    ensures
        is_refused(list_databases_answer(state, header, replies)),
        is_refused(list_tables_answer(state, header, database, replies)),
        is_refused(table_rows_answer(state, header, database, table, pagination, replies)),
        is_refused(row_by_id_answer(state, header, database, table, record_id, replies)),
        is_refused(insert_answer(state, header, database, table, fields, replies)),
        is_refused(radar_answer(state, header, replies)),
        is_refused(cockpit_answer(state, header, replies)),
        is_refused(brief_answer(state, header, record_id, replies)),
        is_refused(battery_answer(state, header, replies)),
{
}

/// An admitted request for a database that is not behind the gateway is answered so, whatever the
/// databases would say.
pub proof fn law_unknown_database(
    state: AppState,
    header: Option<Seq<u8>>,
    database: Seq<char>,
    table: Seq<char>,
    record_id: Seq<char>,
    pagination: Pagination,
    fields: Seq<Pair>,
    replies: Replies,
)
    requires
        admitted(opt_text(state.settings().api_key), header),
        !is_known(database),
    ensures
        list_tables_answer(state, header, database, replies) == Err::<JsonView, _>(
            unknown_database(database),
        ),
        table_rows_answer(state, header, database, table, pagination, replies) == Err::<
            JsonView,
            _,
        >(unknown_database(database)),
        row_by_id_answer(state, header, database, table, record_id, replies) == Err::<JsonView, _>(
            unknown_database(database),
        ),
        insert_answer(state, header, database, table, fields, replies) == Err::<JsonView, _>(
            unknown_database(database),
        ),
{
}

/// An admitted request for a table whose name may not stand as an identifier is answered so,
/// whatever the databases would say.
pub proof fn law_invalid_table(
    state: AppState,
    header: Option<Seq<u8>>,
    database: Seq<char>,
    table: Seq<char>,
    record_id: Seq<char>,
    pagination: Pagination,
    fields: Seq<Pair>,
    replies: Replies,
)
    requires
        admitted(opt_text(state.settings().api_key), header),
        is_known(database),
        !valid_identifier(table),
    ensures
        table_rows_answer(state, header, database, table, pagination, replies) == Err::<
            JsonView,
            _,
        >(invalid_name("table"@)),
        row_by_id_answer(state, header, database, table, record_id, replies) == Err::<JsonView, _>(
            invalid_name("table"@),
        ),
        insert_answer(state, header, database, table, fields, replies) == Err::<JsonView, _>(
            invalid_name("table"@),
        ),
{
}

/// An admitted request for a row of a table that declares a key whose name may not stand as an
/// identifier is answered so, whatever the databases would say to a later statement.
pub proof fn law_invalid_key(
    state: AppState,
    header: Option<Seq<u8>>,
    database: Seq<char>,
    table: Seq<char>,
    record_id: Seq<char>,
    replies: Replies,
)
    requires
        admitted(opt_text(state.settings().api_key), header),
        is_known(database),
        valid_identifier(table),
        replies(0, text_query(database, PRIMARY_KEY@, table)) matches Ok(rows) && declared_key(
            rows,
        ) matches Some(key) && !valid_identifier(key),
    ensures
        row_by_id_answer(state, header, database, table, record_id, replies) == Err::<JsonView, _>(
            invalid_name("column"@),
        ),
{
}

/// The columns that are tried where a table declares no key may all stand as identifiers.
pub proof fn law_candidates_valid(i: int)
    requires
        0 <= i < KEY_CANDIDATES@.len(),
    ensures
        valid_identifier(KEY_CANDIDATES@[i]@),
{
    reveal_strlit("id");
    reveal_strlit("ID");
    reveal_strlit("uuid");
    reveal_strlit("UUID");
    reveal_strlit("pk");
    reveal_strlit("rowid");
    assert(i == 0 || i == 1 || i == 2 || i == 3 || i == 4 || i == 5);
}

/// Where no key is set, every request is admitted.
pub proof fn law_open_without_key(header: Option<Seq<u8>>)
    ensures
        admitted(None, header),
{
}

/// Where a key is set, in whatever way the environment writes it, a request without a key is not
/// admitted; and a key that is only white space is not set.
pub proof fn law_key_required(variable: Option<Seq<char>>)
    ensures
        admitted(non_blank(variable), None) <==> non_blank(variable) is None,
        non_blank(variable) matches Some(key) ==> key.len() > 0 && !is_white_space(key[0])
            && !is_white_space(key.last()),
        (variable matches Some(text) && forall|i: int|
            0 <= i < text.len() ==> is_white_space(#[trigger] text[i])) ==> non_blank(variable)
            is None,
{
    if let Some(text) = variable {
        lemma_trim_start(text);
        lemma_trim_end(trim_start(text));
        if trim_end(trim_start(text)).len() > 0 {
            assert(trim_end(trim_start(text))[0] == trim_start(text)[0]);
        }
        if forall|i: int| 0 <= i < text.len() ==> is_white_space(#[trigger] text[i]) {
            lemma_trim_blank(text);
        }
    }
}

proof fn lemma_trim_start(s: Seq<char>)
    ensures
        trim_start(s).len() > 0 ==> !is_white_space(trim_start(s)[0]),
    decreases s.len(),
{
    if s.len() > 0 && is_white_space(s[0]) {
        lemma_trim_start(s.drop_first());
    }
}

proof fn lemma_trim_end(s: Seq<char>)
    ensures
        trim_end(s).len() > 0 ==> !is_white_space(trim_end(s).last()) && trim_end(s)[0] == s[0],
        trim_end(s).len() <= s.len(),
    decreases s.len(),
{
    if s.len() > 0 && is_white_space(s.last()) {
        lemma_trim_end(s.drop_last());
    }
}

proof fn lemma_trim_blank(s: Seq<char>)
    requires
        forall|i: int| 0 <= i < s.len() ==> is_white_space(#[trigger] s[i]),
    ensures
        trim_start(s).len() == 0,
    decreases s.len(),
{
    if s.len() > 0 {
        assert(is_white_space(s[0]));
        assert forall|i: int| 0 <= i < s.len() - 1 implies is_white_space(
            #[trigger] s.drop_first()[i],
        ) by {
            assert(s.drop_first()[i] == s[i + 1]);
        }
        lemma_trim_blank(s.drop_first());
    }
}

/// The databases have ten different names.
pub proof fn law_databases_distinct(i: int, j: int)
    requires
        0 <= i < DATABASES@.len(),
        0 <= j < DATABASES@.len(),
        DATABASES@[i]@ == DATABASES@[j]@,
    ensures
        i == j,
{
    reveal_strlit("closed_loop_finance");
    reveal_strlit("sec_earnings_workbench");
    reveal_strlit("hedge_fund_13f_radar");
    reveal_strlit("market_sentiment_fedgpt");
    reveal_strlit("autonomous_business_os");
    reveal_strlit("multi_agent_cfo_os");
    reveal_strlit("stratifi_core");
    reveal_strlit("battery_erp");
    reveal_strlit("working_capital_optimizer");
    reveal_strlit("cash_flow_optimizer");
    assert(DATABASES@[0]@.len() == 19);
    assert(DATABASES@[1]@.len() == 22);
    assert(DATABASES@[2]@.len() == 20);
    assert(DATABASES@[3]@.len() == 23);
    assert(DATABASES@[4]@.len() == 22);
    assert(DATABASES@[5]@.len() == 18);
    assert(DATABASES@[6]@.len() == 13);
    assert(DATABASES@[7]@.len() == 11);
    assert(DATABASES@[8]@.len() == 25);
    assert(DATABASES@[9]@.len() == 19);
    assert(DATABASES@[0]@[1] == 'l' && DATABASES@[9]@[1] == 'a');
    assert(DATABASES@[1]@[0] == 's' && DATABASES@[4]@[0] == 'a');
    assert(i == 0 || i == 1 || i == 2 || i == 3 || i == 4 || i == 5 || i == 6 || i == 7 || i == 8
        || i == 9);
    assert(j == 0 || j == 1 || j == 2 || j == 3 || j == 4 || j == 5 || j == 6 || j == 7 || j == 8
        || j == 9);
}

/// The health check says `healthy` when all databases answer and `degraded` when one does not,
/// and says of each database whether it answers.
pub proof fn law_health(replies: Replies)
    ensures
        health_answer(replies)->Object_0["status"@] == JsonView::text("healthy"@) <==> forall|i: int|
            0 <= i < DATABASES@.len() ==> #[trigger] replies(i as nat, health_query(i)) is Ok,
        health_answer(replies)->Object_0["status"@] == JsonView::text("degraded"@) <==> exists|i: int|
            0 <= i < DATABASES@.len() && #[trigger] replies(i as nat, health_query(i)) is Err,
        forall|i: int|
            0 <= i < DATABASES@.len() ==> (#[trigger] health_answer(
                replies,
            )->Object_0["databases"@]->Object_0[DATABASES@[i]@]) == JsonView::Datum(
                database_status(replies(i as nat, health_query(i)) is Ok),
            ),
{
    reveal_strlit("healthy");
    reveal_strlit("degraded");
    reveal_strlit("status");
    reveal_strlit("databases");
    let oks = Seq::new(10, |i: int| replies(i as nat, health_query(i)) is Ok);
    let all_ok = forall|i: int| 0 <= i < oks.len() ==> #[trigger] oks[i];
    assert forall|i: int| 0 <= i < 10 implies #[trigger] oks[i] == (replies(
        i as nat,
        health_query(i),
    ) is Ok) by {}
    if all_ok {
        assert forall|i: int| 0 <= i < DATABASES@.len() implies #[trigger] replies(
            i as nat,
            health_query(i),
        ) is Ok by {
            assert(oks[i]);
        }
    } else {
        let i = choose|i: int| 0 <= i < oks.len() && !#[trigger] oks[i];
        assert(replies(i as nat, health_query(i)) is Err);
    }
    assert(health_answer(replies) == health_report(oks));
    assert("healthy"@.len() != "degraded"@.len() && "status"@.len() != "databases"@.len());
    assert(health_answer(replies)->Object_0["status"@] == JsonView::text(
        if all_ok {
            "healthy"@
        } else {
            "degraded"@
        },
    ));
    assert forall|i: int| 0 <= i < DATABASES@.len() implies (#[trigger] health_answer(
        replies,
    )->Object_0["databases"@]->Object_0[DATABASES@[i]@]) == JsonView::Datum(
        database_status(replies(i as nat, health_query(i)) is Ok),
    ) by {
        lemma_statuses(oks, i);
    }
}

pub proof fn lemma_statuses(oks: Seq<bool>, i: int)
    requires
        0 <= i < oks.len() <= DATABASES@.len(),
    ensures
        database_statuses(oks).contains_key(DATABASES@[i]@),
        database_statuses(oks)[DATABASES@[i]@] == database_status(oks[i]),
    decreases oks.len(),
{
    if i < oks.len() - 1 {
        lemma_statuses(oks.drop_last(), i);
        if DATABASES@[i]@ == DATABASES@[oks.len() - 1]@ {
            law_databases_distinct(i, oks.len() - 1);
        }
    }
}

/// Nothing but whether each database answers shows in the health check: neither rows nor the
/// texts of errors.
pub proof fn law_health_discloses_nothing(replies: Replies, others: Replies)
    requires
        forall|i: int|
            0 <= i < DATABASES@.len() ==> (#[trigger] replies(i as nat, health_query(i)) is Ok) == (
            others(i as nat, health_query(i)) is Ok),
    ensures
        health_answer(replies) == health_answer(others),
{
    assert(Seq::new(10, |i: int| replies(i as nat, health_query(i)) is Ok) =~= Seq::new(
        10,
        |i: int| others(i as nat, health_query(i)) is Ok,
    ));
}

/// The dashboards are answered whatever the databases say: once a request is admitted, none of
/// them fails.
pub proof fn law_dashboards_never_fail(
    state: AppState,
    header: Option<Seq<u8>>,
    decision_id: Seq<char>,
    replies: Replies,
)
    requires
        admitted(opt_text(state.settings().api_key), header),
    ensures
        radar_answer(state, header, replies) is Ok,
        cockpit_answer(state, header, replies) is Ok,
        brief_answer(state, header, decision_id, replies) is Ok,
        battery_answer(state, header, replies) is Ok,
{
}

/// Whether a dashboard shows `document` for want of live data.
pub open spec fn shows_sample<V>(answer: PlannedView<V>, document: JsonView) -> bool {
    answer matches Ok(PlanView::Sample { document: shown }) && shown == document
}

/// Where no database can be reached, the dashboards show their samples.
pub proof fn law_dashboards_degrade(
    state: AppState,
    header: Option<Seq<u8>>,
    decision_id: Seq<char>,
    replies: Replies,
)
    requires
        admitted(opt_text(state.settings().api_key), header),
        forall|n: nat, query| #[trigger] replies(n, query) is Err,
    ensures
        shows_sample(radar_answer(state, header, replies), sample_market_radar()),
        shows_sample(cockpit_answer(state, header, replies), sample_finance_cockpit()),
        shows_sample(
            brief_answer(state, header, decision_id, replies),
            sample_decision_brief(decision_id),
        ),
        shows_sample(battery_answer(state, header, replies), sample_battery_erp_dashboard()),
{
    assert(replies(0, indicators_query()) is Err);
    assert(replies(0, budgets_query()) is Err);
    assert(replies(0, brief_query(decision_id)) is Err);
    assert(replies(0, battery_tables_query()) is Err);
}

/// A decision brief carries the identifier that was asked for, whether it is live or the sample.
pub proof fn law_brief_keeps_id(
    id: Seq<char>,
    reply: ReplyView,
    numbers: BriefNumbers,
    now: Seq<char>,
)
    ensures
        match brief_plan(id, reply) {
            PlanView::Sample { document } => document->Object_0["id"@] == JsonView::text(id),
            PlanView::Live { draft } => brief_document(draft, numbers, now)->Object_0["id"@]
                == JsonView::text(id),
        },
{
    reveal_strlit("id");
    reveal_strlit("title");
    reveal_strlit("status");
    reveal_strlit("priority");
    reveal_strlit("created");
    reveal_strlit("brief");
    reveal_strlit("financialImpact");
    reveal_strlit("artifacts");
    reveal_strlit("evidence");
    reveal_strlit("rounds");
    reveal_strlit("forecasts");
    reveal_strlit("findings");
    reveal_strlit("audits");
    reveal_strlit("approvalChain");
    assert("id"@.len() == 2);
}

/// Whether statement number `at` is `query`.
pub open spec fn stands_at(asked: Seq<QueryView>, at: int, query: QueryView) -> bool {
    0 <= at < asked.len() && asked[at] == query
}

/// The list of the databases holds each of them, in its place, whatever they say: its tables, or
/// why they could not be listed. One that cannot be reached does not keep the others from being
/// listed.
pub proof fn law_databases_listed(state: AppState, header: Option<Seq<u8>>, replies: Replies)
    requires
        admitted(opt_text(state.settings().api_key), header),
    ensures
        list_databases_answer(state, header, replies) matches Ok(document) && document
            == databases_report(listed_databases(replies)),
        listed_databases(replies).len() == DATABASES@.len(),
        forall|k: int|
            0 <= k < DATABASES@.len() ==> #[trigger] listed_databases(replies)[k] == match replies(
                database_number(replies, k),
                summary_query(k),
            ) {
                Ok(rows) => database_entry(
                    DATABASES@[k]@,
                    table_summaries(DATABASES@[k]@, rows, replies, database_number(replies, k) + 1),
                ),
                Err(error) => failed_entry(DATABASES@[k]@, error),
            },
        forall|k: int|
            0 <= k < DATABASES@.len() ==> #[trigger] stands_at(
                list_databases_asked(state, header, replies),
                database_number(replies, k) as int,
                summary_query(k),
            ),
{
    assert forall|k: int| 0 <= k < DATABASES@.len() implies #[trigger] stands_at(
        list_databases_asked(state, header, replies),
        database_number(replies, k) as int,
        summary_query(k),
    ) by {
        lemma_database_number(replies, 0, k);
    }
}

proof fn lemma_database_number(replies: Replies, j: int, k: int)
    requires
        0 <= j <= k < DATABASES@.len(),
    ensures
        database_number(replies, j) <= database_number(replies, k),
        ({
            let at = database_number(replies, k) - database_number(replies, j);
            let asked = databases_asked(j, replies, database_number(replies, j));
            stands_at(asked, at, summary_query(k))
        }),
    decreases k - j,
{
    if j < k {
        let n = database_number(replies, j);
        lemma_database_number(replies, j + 1, k);
        if let Ok(rows) = replies(n, summary_query(j)) {
            lemma_summaries_asked(DATABASES@[j]@, rows, 0);
        }
    }
}

/// As many statements count the tables from number `i` on as there are names among theirs that may
/// stand in a statement.
proof fn lemma_summaries_asked(database: Seq<char>, rows: Seq<RowView>, i: int)
    requires
        0 <= i <= rows.len(),
    ensures
        counted_before(rows, i) + summaries_asked(database, rows, i).len() == counted_before(
            rows,
            rows.len() as int,
        ),
    decreases rows.len() - i,
{
    if i < rows.len() {
        lemma_summaries_asked(database, rows, i + 1);
    }
}

/// The list of the databases holds every table of a database that could be listed, in its place,
/// with what the statement that counts it comes to. One that cannot be counted does not keep the
/// others from being listed.
pub proof fn law_summaries(database: Seq<char>, rows: Seq<RowView>, replies: Replies, n: nat)
    ensures
        table_summaries(database, rows, replies, n).len() == rows.len(),
        forall|k: int|
            0 <= k < rows.len() ==> #[trigger] table_summaries(database, rows, replies, n)[k]
                == table_summary(
                rows[k],
                if valid_identifier(listed_name(rows[k])) {
                    reported_count(
                        replies(
                            n + counted_before(rows, k),
                            row_count_query(database, listed_name(rows[k])),
                        ),
                        -1,
                    )
                } else {
                    -1
                },
            ),
        summaries_asked(database, rows, 0).len() == counted_before(rows, rows.len() as int),
        forall|k: int|
            0 <= k < rows.len() && valid_identifier(listed_name(#[trigger] rows[k])) ==> stands_at(
                summaries_asked(database, rows, 0),
                counted_before(rows, k) as int,
                row_count_query(database, listed_name(rows[k])),
            ),
{
    lemma_summaries_asked(database, rows, 0);
    assert forall|k: int| 0 <= k < rows.len() && valid_identifier(
        listed_name(#[trigger] rows[k]),
    ) implies stands_at(
        summaries_asked(database, rows, 0),
        counted_before(rows, k) as int,
        row_count_query(database, listed_name(rows[k])),
    ) by {
        lemma_summary_number(database, rows, 0, k);
    }
}

proof fn lemma_summary_number(database: Seq<char>, rows: Seq<RowView>, i: int, k: int)
    requires
        0 <= i <= k < rows.len(),
        valid_identifier(listed_name(rows[k])),
    ensures
        counted_before(rows, i) <= counted_before(rows, k),
        ({
            let at = counted_before(rows, k) - counted_before(rows, i);
            let asked = summaries_asked(database, rows, i);
            stands_at(asked, at, row_count_query(database, listed_name(rows[k])))
        }),
    decreases k - i,
{
    if i < k {
        lemma_summary_number(database, rows, i + 1, k);
    }
}

/// The list of a database fails if and only if the columns of some table cannot be listed, and then
/// with the error of the first such table. Else it holds every table, in its place, with the
/// columns that its statement comes to and what the statement after that counts.
pub proof fn law_details(database: Seq<char>, rows: Seq<RowView>, replies: Replies, n: nat)
    ensures
        table_details(database, rows, replies, n) is Err <==> exists|k: int|
            0 <= k < rows.len() && #[trigger] columns_reply(database, rows, k, replies, n) is Err,
        forall|k: int| #[trigger]
            fails_first(database, rows, k, replies, n) ==> table_details(database, rows, replies, n)
                == Err::<Seq<JsonView>, _>(columns_reply(database, rows, k, replies, n)->Err_0),
        table_details(database, rows, replies, n) matches Ok(tables) ==> {
            &&& tables.len() == rows.len()
            &&& forall|k: int|
                0 <= k < rows.len() ==> columns_reply(database, rows, k, replies, n) is Ok
                    && #[trigger] tables[k] == table_detail(
                    listed_name(rows[k]),
                    columns_reply(database, rows, k, replies, n)->Ok_0,
                    detail_count(database, rows, k, replies, n),
                )
        },
{
    if exists|k: int|
        0 <= k < rows.len() && #[trigger] columns_reply(database, rows, k, replies, n) is Err {
        let k = choose|k: int|
            0 <= k < rows.len() && #[trigger] columns_reply(database, rows, k, replies, n) is Err;
        lemma_first_failure(database, rows, k, replies, n);
    }
    assert forall|k: int| #[trigger]
        fails_first(database, rows, k, replies, n) implies table_details(database, rows, replies, n)
        == Err::<Seq<JsonView>, _>(columns_reply(database, rows, k, replies, n)->Err_0) by {
        let l = choose|l: int| #[trigger] fails_first(database, rows, l, replies, n);
        if l < k {
            assert(columns_reply(database, rows, l, replies, n) is Ok);
        } else if k < l {
            assert(columns_reply(database, rows, k, replies, n) is Ok);
        }
    }
    if let Ok(tables) = table_details(database, rows, replies, n) {
        assert forall|k: int| 0 <= k < rows.len() implies columns_reply(
            database,
            rows,
            k,
            replies,
            n,
        ) is Ok && #[trigger] tables[k] == table_detail(
            listed_name(rows[k]),
            columns_reply(database, rows, k, replies, n)->Ok_0,
            detail_count(database, rows, k, replies, n),
        ) by {
            if columns_reply(database, rows, k, replies, n) is Err {
                lemma_first_failure(database, rows, k, replies, n);
            }
        }
    }
}

/// Where the columns of a table cannot be listed, there is a first such table.
proof fn lemma_first_failure(
    database: Seq<char>,
    rows: Seq<RowView>,
    k: int,
    replies: Replies,
    n: nat,
)
    requires
        0 <= k < rows.len(),
        columns_reply(database, rows, k, replies, n) is Err,
    ensures
        exists|l: int| #[trigger] fails_first(database, rows, l, replies, n),
    decreases k,
{
    if forall|j: int| 0 <= j < k ==> #[trigger] columns_reply(database, rows, j, replies, n) is Ok {
        assert(fails_first(database, rows, k, replies, n));
    } else {
        let j = choose|j: int|
            0 <= j < k && !(#[trigger] columns_reply(database, rows, j, replies, n) is Ok);
        lemma_first_failure(database, rows, j, replies, n);
    }
}

/// The statement for the columns of a table stands where its number says, and the one that counts
/// the table right after it, as long as the columns of the tables before it could be listed.
pub proof fn law_details_asked(
    database: Seq<char>,
    rows: Seq<RowView>,
    k: int,
    replies: Replies,
    n: nat,
)
    requires
        0 <= k < rows.len(),
        forall|j: int| 0 <= j < k ==> #[trigger] columns_reply(database, rows, j, replies, n) is Ok,
    ensures
        ({
            let asked = details_asked(database, rows, 0, replies, n);
            let at = columns_number(rows, k) as int;
            &&& stands_at(asked, at, columns_query(database, rows[k]))
            &&& columns_reply(database, rows, k, replies, n) is Ok && valid_identifier(
                listed_name(rows[k]),
            ) ==> stands_at(asked, at + 1, row_count_query(database, listed_name(rows[k])))
            &&& columns_reply(database, rows, k, replies, n) is Err ==> asked.len() == at + 1
        }),
{
    lemma_details_asked(database, rows, 0, k, replies, n);
}

proof fn lemma_details_asked(
    database: Seq<char>,
    rows: Seq<RowView>,
    i: int,
    k: int,
    replies: Replies,
    n: nat,
)
    requires
        0 <= i <= k < rows.len(),
        forall|j: int| 0 <= j < k ==> #[trigger] columns_reply(database, rows, j, replies, n) is Ok,
    ensures
        columns_number(rows, i) <= columns_number(rows, k),
        ({
            let asked = details_asked(database, rows, i, replies, n + columns_number(rows, i));
            let at = columns_number(rows, k) - columns_number(rows, i);
            &&& stands_at(asked, at, columns_query(database, rows[k]))
            &&& columns_reply(database, rows, k, replies, n) is Ok && valid_identifier(
                listed_name(rows[k]),
            ) ==> stands_at(asked, at + 1, row_count_query(database, listed_name(rows[k])))
            &&& columns_reply(database, rows, k, replies, n) is Err ==> asked.len() == at + 1
        }),
    decreases k - i,
{
    if i < k {
        assert(columns_reply(database, rows, i, replies, n) is Ok);
        lemma_details_asked(database, rows, i + 1, k, replies, n);
    }
}

/// Of an error at most 200 characters are reported, and they are the first ones.
pub proof fn law_excerpt(text: Seq<char>)
    ensures
        excerpt(text).len() <= 200,
        excerpt(text).is_prefix_of(text),
        text.len() <= 200 ==> excerpt(text) == text,
{
}

/// A page holds from 1 to 1000 rows and starts at no negative row. What is asked for within these
/// bounds is kept, so a page that was bounded once stays as it is.
pub proof fn law_page_bounds(limit: Option<i64>, offset: Option<i64>)
    ensures
        1 <= page_limit(limit) <= 1000,
        page_offset(offset) >= 0,
        limit matches Some(n) ==> (1 <= n <= 1000 ==> page_limit(limit) == n),
        offset matches Some(n) ==> (n >= 0 ==> page_offset(offset) == n),
        page_limit(Some(page_limit(limit))) == page_limit(limit),
        page_offset(Some(page_offset(offset))) == page_offset(offset),
{
}

/// A name that may stand as an identifier holds no quote: between quotes it ends at the last one.
pub proof fn law_quoted(name: Seq<char>)
    requires
        valid_identifier(name),
    ensures
        forall|i: int|
            0 <= i < quoted(name).len() ==> (#[trigger] quoted(name)[i] == '"' <==> i == 0 || i
                == quoted(name).len() - 1),
{
    assert forall|i: int| 0 <= i < quoted(name).len() implies (#[trigger] quoted(name)[i] == '"'
        <==> i == 0 || i == quoted(name).len() - 1) by {
        if 0 < i < quoted(name).len() - 1 {
            assert(quoted(name)[i] == name[i - 1]);
        }
    }
}

/// The values of an insertion are those of the body: each column once, in the place of its value.
pub proof fn law_insertion(
    database: Seq<char>,
    table: Seq<char>,
    list: Seq<Pair>,
    map: RowView,
)
    requires
        lists(list, map),
    ensures
        insert_query(database, table, list).params.len() == column_names(list).len(),
        forall|i: int, j: int|
            0 <= i < j < list.len() ==> #[trigger] column_names(list)[i]
                != #[trigger] column_names(list)[j],
        forall|i: int|
            0 <= i < list.len() ==> map.contains_key(#[trigger] column_names(list)[i])
                && insert_query(database, table, list).params[i] == param_of(
                map[column_names(list)[i]],
            ),
        forall|name: Seq<char>| #[trigger]
            map.contains_key(name) ==> column_names(list).contains(name),
{
    let names = column_names(list);
    assert forall|i: int, j: int| 0 <= i < j < list.len() implies #[trigger] names[i]
        != #[trigger] names[j] by {
        assert(by_name()(list[i], list[j]));
        lemma_text_before_asymmetric(list[i].0, list[j].0);
    }
    assert forall|i: int| 0 <= i < list.len() implies map.contains_key(#[trigger] names[i])
        && insert_query(database, table, list).params[i] == param_of(map[names[i]]) by {
        assert(list.contains(list[i]));
    }
    assert forall|name: Seq<char>| #[trigger] map.contains_key(name) implies names.contains(
        name,
    ) by {
        assert(list.contains((name, map[name])));
        let i = choose|i: int| 0 <= i < list.len() && list[i] == (name, map[name]);
        assert(names[i] == name);
    }
}

/// Whether table number `i` is the last whose name `holds` accepts.
pub open spec fn is_last(
    counts: Seq<TableCountView>,
    i: int,
    holds: spec_fn(Seq<char>) -> bool,
) -> bool {
    &&& 0 <= i < counts.len()
    &&& holds(counts[i].name)
    &&& forall|j: int| i < j < counts.len() ==> !holds(#[trigger] counts[j].name)
}

/// Whether `key` of `summary` is the number of rows of the last table whose name `holds` accepts,
/// and is missing where there is no such table.
pub open spec fn sums_up(
    summary: RowView,
    key: Seq<char>,
    counts: Seq<TableCountView>,
    holds: spec_fn(Seq<char>) -> bool,
) -> bool {
    if summary.contains_key(key) {
        exists|i: int| #[trigger]
            is_last(counts, i, holds) && summary[key] == DatumView::Int(counts[i].rows)
    } else {
        forall|i: int| 0 <= i < counts.len() ==> !holds(#[trigger] counts[i].name)
    }
}

proof fn lemma_sums_up(
    short: RowView,
    summary: RowView,
    key: Seq<char>,
    counts: Seq<TableCountView>,
    holds: spec_fn(Seq<char>) -> bool,
)
    requires
        counts.len() > 0,
        sums_up(short, key, counts.drop_last(), holds),
        if holds(counts.last().name) {
            summary.contains_key(key) && summary[key] == DatumView::Int(counts.last().rows)
        } else {
            summary.contains_key(key) == short.contains_key(key) && summary[key] == short[key]
        },
    ensures
        sums_up(summary, key, counts, holds),
{
    let last = counts.len() - 1;
    if holds(counts.last().name) {
        assert(is_last(counts, last, holds));
    } else if short.contains_key(key) {
        let i = choose|i: int| #[trigger]
            is_last(counts.drop_last(), i, holds) && short[key] == DatumView::Int(
                counts.drop_last()[i].rows,
            );
        assert forall|j: int| i < j < counts.len() implies !holds(#[trigger] counts[j].name) by {
            if j < last {
                assert(counts.drop_last()[j] == counts[j]);
            }
        }
        assert(is_last(counts, i, holds));
    } else {
        assert forall|i: int| 0 <= i < counts.len() implies !holds(#[trigger] counts[i].name) by {
            if i < last {
                assert(counts.drop_last()[i] == counts[i]);
            }
        }
    }
}

/// The summary of the battery plant says of the inventory, the orders and the hazardous goods how
/// many rows the last table has whose name speaks of them, and nothing where none does. It says
/// nothing else.
pub proof fn law_battery_summary(counts: Seq<TableCountView>)
    ensures
        forall|key: Seq<char>| #[trigger]
            battery_summary(counts).contains_key(key) ==> key == "totalInventoryItems"@ || key
                == "activeOrders"@ || key == "activeManifests"@,
        sums_up(
            battery_summary(counts),
            "totalInventoryItems"@,
            counts,
            |name: Seq<char>| holds_inventory(name),
        ),
        sums_up(
            battery_summary(counts),
            "activeOrders"@,
            counts,
            |name: Seq<char>| holds_orders(name),
        ),
        sums_up(
            battery_summary(counts),
            "activeManifests"@,
            counts,
            |name: Seq<char>| holds_hazards(name),
        ),
    decreases counts.len(),
{
    reveal_strlit("totalInventoryItems");
    reveal_strlit("activeOrders");
    reveal_strlit("activeManifests");
    assert("totalInventoryItems"@.len() == 19 && "activeOrders"@.len() == 12
        && "activeManifests"@.len() == 15);
    if counts.len() > 0 {
        let short = battery_summary(counts.drop_last());
        let summary = battery_summary(counts);
        law_battery_summary(counts.drop_last());
        lemma_sums_up(
            short,
            summary,
            "totalInventoryItems"@,
            counts,
            |name: Seq<char>| holds_inventory(name),
        );
        lemma_sums_up(
            short,
            summary,
            "activeOrders"@,
            counts,
            |name: Seq<char>| holds_orders(name),
        );
        lemma_sums_up(
            short,
            summary,
            "activeManifests"@,
            counts,
            |name: Seq<char>| holds_hazards(name),
        );
    }
}

/// Every holding counts in its sector and in no other, and the sectors stand by ascending names.
pub proof fn law_holdings_grouped(rows: Seq<RowView>, i: int)
    requires
        0 <= i < rows.len(),
    ensures
        exists|k: int|
            0 <= k < sector_groups(rows).len() && (#[trigger] sector_groups(rows)[k]).sector
                == holding_sector(rows[i]) && sector_groups(rows)[k].amounts.contains(
                holding_amount(rows[i]),
            ),
        forall|k: int, l: int|
            0 <= k < l < sector_groups(rows).len() ==> (#[trigger] sector_groups(rows)[k]).sector
                != (#[trigger] sector_groups(rows)[l]).sector && text_before(
                sector_groups(rows)[k].sector,
                sector_groups(rows)[l].sector,
            ),
        holdings_in(sector_groups(rows)) == rows.len(),
{
    lemma_grouping_exists(rows);
    let groups = sector_groups(rows);
    let sector = holding_sector(rows[i]);
    let group = GroupView { sector, amounts: sector_amounts(rows, sector) };
    assert(has_sector(rows, sector));
    assert(groups.contains(group));
    let k = choose|k: int| 0 <= k < groups.len() && groups[k] == group;
    lemma_amount_kept(rows, i);
    assert(groups[k].sector == sector);
    assert forall|k: int, l: int| 0 <= k < l < groups.len() implies (#[trigger] groups[k]).sector
        != (#[trigger] groups[l]).sector && text_before(groups[k].sector, groups[l].sector) by {
        assert(by_sector()(groups[k], groups[l]));
        lemma_text_before_asymmetric(groups[k].sector, groups[l].sector);
    }
    lemma_holdings_in(rows);
}

/// How many holdings `groups` hold.
pub open spec fn holdings_in(groups: Seq<GroupView>) -> nat
    decreases groups.len(),
{
    if groups.len() == 0 {
        0
    } else {
        holdings_in(groups.drop_last()) + groups.last().amounts.len()
    }
}

proof fn lemma_amount_kept(rows: Seq<RowView>, i: int)
    requires
        0 <= i < rows.len(),
    ensures
        sector_amounts(rows, holding_sector(rows[i])).contains(holding_amount(rows[i])),
    decreases rows.len(),
{
    let sector = holding_sector(rows[i]);
    let short = sector_amounts(rows.drop_last(), sector);
    if i == rows.len() - 1 {
        assert(sector_amounts(rows, sector)[short.len() as int] == holding_amount(rows[i]));
    } else {
        lemma_amount_kept(rows.drop_last(), i);
        let k = choose|k: int| 0 <= k < short.len() && short[k] == holding_amount(rows[i]);
        assert(sector_amounts(rows, sector)[k] == short[k]);
    }
}

proof fn lemma_holdings_inserted(groups: Seq<GroupView>, group: GroupView, at: int)
    requires
        0 <= at <= groups.len(),
    ensures
        holdings_in(groups.insert(at, group)) == holdings_in(groups) + group.amounts.len(),
    decreases groups.len(),
{
    let more = groups.insert(at, group);
    if at == groups.len() {
        assert(more.drop_last() =~= groups);
    } else {
        assert(more.drop_last() =~= groups.drop_last().insert(at, group));
        lemma_holdings_inserted(groups.drop_last(), group, at);
    }
}

proof fn lemma_holdings_updated(groups: Seq<GroupView>, group: GroupView, at: int)
    requires
        0 <= at < groups.len(),
    ensures
        holdings_in(groups.update(at, group)) == holdings_in(groups) - groups[at].amounts.len()
            + group.amounts.len(),
    decreases groups.len(),
{
    let changed = groups.update(at, group);
    if at == groups.len() - 1 {
        assert(changed.drop_last() =~= groups.drop_last());
    } else {
        assert(changed.drop_last() =~= groups.drop_last().update(at, group));
        lemma_holdings_updated(groups.drop_last(), group, at);
    }
}

proof fn lemma_holdings_in(rows: Seq<RowView>)
    ensures
        holdings_in(sector_groups(rows)) == rows.len(),
    decreases rows.len(),
{
    lemma_grouping_exists(rows);
    if rows.len() == 0 {
        if sector_groups(rows).len() > 0 {
            assert(sector_groups(rows).contains(sector_groups(rows)[0]));
        }
    } else {
        let short = rows.drop_last();
        let row = rows.last();
        lemma_holdings_in(short);
        let at = lemma_grouping_step(short, row);
        assert(short.push(row) =~= rows);
        let groups = sector_groups(short);
        if at < groups.len() && groups[at].sector == holding_sector(row) {
            lemma_holdings_updated(groups, joined_group(groups[at], row), at);
        } else {
            lemma_holdings_inserted(groups, new_group(row), at);
        }
    }
}

/// Whether the sector number `p` is among those that are reported.
pub open spec fn is_reported(groups: Seq<GroupView>, numbers: Seq<SectorNumbers>, p: int) -> bool {
    exists|i: int|
        0 <= i < rotation(groups, numbers).len() && #[trigger] ranking(flow_ranks(numbers))[i] == p
}

/// At most five sectors are reported, each once: those with the largest flows, the largest first.
/// Of two sectors with one flow the one whose name comes first stands first, and no sector that is
/// left out has a larger flow than one that is reported.
pub proof fn law_rotation(groups: Seq<GroupView>, numbers: Seq<SectorNumbers>)
    requires
        groups.len() == numbers.len(),
    ensures
        rotation(groups, numbers).len() == if groups.len() <= 5 { groups.len() } else { 5 },
        ({
            let order = ranking(flow_ranks(numbers));
            let ranks = flow_ranks(numbers);
            &&& order.len() == groups.len()
            &&& forall|i: int|
                0 <= i < rotation(groups, numbers).len() ==> 0 <= order[i] < groups.len()
                    && #[trigger] rotation(groups, numbers)[i] == sector_json(
                    groups[order[i]].sector,
                    numbers[order[i]],
                )
            &&& forall|i: int, j: int|
                0 <= i < j < order.len() ==> #[trigger] order[i] != #[trigger] order[j]
                    && ranks[order[i]] >= ranks[order[j]] && (ranks[order[i]] == ranks[order[j]]
                    && ascends(groups, by_sector()) ==> text_before(
                    groups[order[i]].sector,
                    groups[order[j]].sector,
                ))
            &&& forall|p: int, i: int|
                0 <= p < groups.len() && !is_reported(groups, numbers, p) && 0 <= i < rotation(
                    groups,
                    numbers,
                ).len() ==> #[trigger] ranks[p] <= ranks[#[trigger] order[i]]
        }),
{
    let ranks = flow_ranks(numbers);
    let order = ranking(ranks);
    lemma_ranking_exists(ranks);
    assert forall|i: int, j: int| 0 <= i < j < order.len() implies #[trigger] order[i]
        != #[trigger] order[j] && ranks[order[i]] >= ranks[order[j]] && (ranks[order[i]]
        == ranks[order[j]] && ascends(groups, by_sector()) ==> text_before(
        groups[order[i]].sector,
        groups[order[j]].sector,
    )) by {
        assert(order.contains(order[i]) && order.contains(order[j]));
        assert(by_falling(ranks)(order[i], order[j]));
        if ranks[order[i]] == ranks[order[j]] && ascends(groups, by_sector()) {
            assert(by_sector()(groups[order[i]], groups[order[j]]));
        }
    }
    assert forall|i: int| 0 <= i < order.len() implies 0 <= #[trigger] order[i] < ranks.len() by {
        assert(order.contains(order[i]));
    }
    lemma_permutation_len(order, ranks.len());
    assert forall|p: int, i: int|
        0 <= p < groups.len() && !is_reported(groups, numbers, p) && 0 <= i < rotation(
            groups,
            numbers,
        ).len() implies #[trigger] ranks[p] <= ranks[#[trigger] order[i]] by {
        assert(order.contains(p));
        let j = choose|j: int| 0 <= j < order.len() && order[j] == p;
        assert(order[i] != order[j]);
    }
}

proof fn lemma_permutation_len(order: Seq<int>, count: nat)
    requires
        forall|i: int| #[trigger] order.contains(i) <==> 0 <= i < count,
        forall|i: int, j: int|
            0 <= i < j < order.len() ==> #[trigger] order[i] != #[trigger] order[j],
    ensures
        order.len() == count,
{
    order.unique_seq_to_set();
    let all = vstd::set_lib::set_int_range(0, count as int);
    vstd::set_lib::lemma_int_range(0, count as int);
    assert(order.to_set() =~= all);
}

/// The places of finite floating-point numbers are ordered as the numbers themselves.
pub proof fn law_rank_orders(a: u64, b: u64)
    requires
        is_finite(a),
        is_finite(b),
    ensures
        real_rank(a) < real_rank(b) <==> real_value(a) < real_value(b),
        real_rank(a) == real_rank(b) <==> real_value(a) == real_value(b),
{
    let sign: int = 0x8000_0000_0000_0000;
    let x = if a < sign {
        a as int
    } else {
        a - sign
    };
    let y = if b < sign {
        b as int
    } else {
        b - sign
    };
    lemma_magnitude_positive(x);
    lemma_magnitude_positive(y);
    if x < y {
        lemma_magnitude_grows(x, y);
    } else if y < x {
        lemma_magnitude_grows(y, x);
    }
}

proof fn lemma_magnitude_positive(x: int)
    requires
        0 <= x,
    ensures
        magnitude(x) >= 0,
        magnitude(x) == 0 <==> x == 0,
{
    reveal(magnitude);
    let exponent = x / 0x10_0000_0000_0000;
    let fraction = x % 0x10_0000_0000_0000;
    if exponent > 0 {
        lemma_pow2_pos((exponent - 1) as nat);
        let scale = pow2((exponent - 1) as nat) as int;
        assert((0x10_0000_0000_0000 + fraction) * scale > 0) by (nonlinear_arith)
            requires
                0 <= fraction,
                0 < scale,
        ;
    }
}

proof fn lemma_magnitude_grows(x: int, y: int)
    requires
        0 <= x < y,
    ensures
        magnitude(x) < magnitude(y),
{
    reveal(magnitude);
    let unit: int = 0x10_0000_0000_0000;
    let e = x / unit;
    let f = y / unit;
    let p = x % unit;
    let q = y % unit;
    if e == f {
        assert(p < q);
        if e > 0 {
            let scale = pow2((e - 1) as nat) as int;
            lemma_pow2_pos((e - 1) as nat);
            assert((unit + p) * scale < (unit + q) * scale) by (nonlinear_arith)
                requires
                    p < q,
                    0 < scale,
            ;
        }
    } else {
        assert(e < f);
        let scale = pow2((f - 1) as nat) as int;
        lemma_pow2_pos((f - 1) as nat);
        assert((unit + q) * scale >= unit * scale) by (nonlinear_arith)
            requires
                0 <= q,
                0 < scale,
        ;
        if e == 0 {
            assert(unit * scale >= unit) by (nonlinear_arith)
                requires
                    0 < scale,
                    0 < unit,
            ;
        } else {
            let small = pow2((e - 1) as nat) as int;
            lemma_pow2_pos((e - 1) as nat);
            lemma_pow2_unfold(e as nat);
            if e < f - 1 {
                lemma_pow2_strictly_increases(e as nat, (f - 1) as nat);
            }
            assert(2 * small <= scale);
            assert((unit + p) * small < (2 * unit) * small) by (nonlinear_arith)
                requires
                    p < unit,
                    0 < small,
            ;
            assert((2 * unit) * small <= unit * scale) by (nonlinear_arith)
                requires
                    2 * small <= scale,
                    0 < unit,
            ;
        }
    }
}

/// An integer reads the same from a number and from its text.
pub proof fn law_integer_text(n: i64)
    ensures
        int_of(DatumView::Text(signed_decimal(n as int))) == Some(n),
        int_of(DatumView::Int(n as int)) == Some(n),
{
    let size = if n < 0 {
        (-n) as nat
    } else {
        n as nat
    };
    lemma_decimal(size);
    let text = signed_decimal(n as int);
    if n < 0 {
        assert(text.drop_first() =~= decimal(size));
    } else {
        assert(is_digit(text[0]));
    }
}

/// A port is read from its text.
pub proof fn law_port_text(port: u16, default: u16)
    ensures
        port_or(Some(decimal(port as nat)), default) == port,
{
    lemma_decimal(port as nat);
    assert(is_digit(decimal(port as nat)[0]));
}

proof fn lemma_decimal(n: nat)
    ensures
        decimal(n).len() > 0,
        forall|i: int| 0 <= i < decimal(n).len() ==> is_digit(#[trigger] decimal(n)[i]),
        number_of(decimal(n)) == n,
    decreases n,
{
    reveal_with_fuel(number_of, 2);
    if n >= 10 {
        lemma_decimal(n / 10);
        assert(decimal(n).drop_last() =~= decimal(n / 10));
    } else {
        assert(decimal(n).drop_last() =~= Seq::empty());
    }
}

} // verus!
