//! What holds of the dashboards.

use vstd::prelude::*;

#[allow(unused_imports)]
use crate::auth::admitted;
#[allow(unused_imports)]
use crate::battery::{
    battery_answer, battery_asked, battery_document, battery_summary, counted_names, holds_hazards,
    holds_inventory, holds_orders, rows_by_table, TableCountView,
};
#[allow(unused_imports)]
use crate::brief::{brief_answer, brief_asked, brief_document, BriefDraftView, BriefNumbers};
#[allow(unused_imports)]
use crate::cockpit::{
    cockpit_answer, cockpit_asked, cockpit_document, BudgetNumbers, CockpitDraftView,
};
#[allow(unused_imports)]
use crate::config::{opt_text, AppState};
#[allow(unused_imports)]
use crate::counts::{listed_name, reported_count};
#[allow(unused_imports)]
use crate::flow::Replies;
#[allow(unused_imports)]
use crate::identifiers::valid_identifier;
#[allow(unused_imports)]
use crate::json::{row_json, DatumView, JsonView, RowView};
#[allow(unused_imports)]
use crate::laws::requests::{
    counting, has_members, int_json, law_counting, member, reading, text_json,
};
#[allow(unused_imports)]
use crate::laws::values::{column_numbers, same_but_for_case};
#[allow(unused_imports)]
use crate::laws::{is_last, law_battery_summary, shows_sample, sums_up};
#[allow(unused_imports)]
use crate::lookup::{
    amount_texts, int_of, key_texts, picked_int, picked_text, text_or_default, value_text,
};
#[allow(unused_imports)]
use crate::numbers::{is_finite, real_rank, Real};
#[allow(unused_imports)]
use crate::plan::PlanView;
#[allow(unused_imports)]
use crate::query::ParamView;
#[allow(unused_imports)]
use crate::radar::{radar_answer, radar_asked, radar_document, RadarDraftView};
#[allow(unused_imports)]
use crate::ranking::{by_falling, lemma_ranking_exists, ranking};
#[allow(unused_imports)]
use crate::samples::{
    sample_alerts, sample_battery_erp_dashboard, sample_cash_forecast, sample_decision_brief,
    sample_fed_policy, sample_finance_cockpit, sample_indicators, sample_market_radar,
    sample_sector_rotation, sample_working_capital,
};
#[allow(unused_imports)]
use crate::sectors::{
    flow_ranks, holding_amount, holding_sector, rotation, sector_amounts, sector_groups,
    sector_json, GroupView, SectorNumbers,
};
#[allow(unused_imports)]
use crate::text::{has_part, lower};

verus! {

/// A column as text.
pub open spec fn column_text(row: RowView, name: Seq<char>) -> Option<Seq<char>> {
    if row.contains_key(name) {
        Some(value_text(row[name]))
    } else {
        None
    }
}

/// The first of the texts that is there.
pub open spec fn first_of(
    a: Option<Seq<char>>,
    b: Option<Seq<char>>,
    default: Seq<char>,
) -> Seq<char> {
    match a {
        Some(text) => text,
        None => match b {
            Some(text) => text,
            None => default,
        },
    }
}

/// A floating-point number in a document.
pub open spec fn real_json(x: Real) -> Option<JsonView> {
    Some(
        JsonView::Datum(
            if is_finite(x.bits) {
                DatumView::Decimal(x.text@)
            } else {
                DatumView::Null
            },
        ),
    )
}

proof fn lemma_one_text(row: RowView, key: &str, default: Seq<char>)
    ensures
        text_or_default(row, seq![key], default) == first_of(
            column_text(row, key@),
            None,
            default,
        ),
{
    reveal_with_fuel(picked_text, 3);
    let keys = key_texts(seq![key]);
    assert(keys.len() == 1 && keys[0] == key@);
    assert(keys.drop_first().len() == 0);
}

proof fn lemma_two_texts(row: RowView, a: &str, b: &str, default: Seq<char>)
    ensures
        text_or_default(row, seq![a, b], default) == first_of(
            column_text(row, a@),
            column_text(row, b@),
            default,
        ),
{
    reveal_with_fuel(picked_text, 4);
    let keys = key_texts(seq![a, b]);
    assert(keys.len() == 2 && keys[0] == a@ && keys[1] == b@);
    assert(keys.drop_first().len() == 1 && keys.drop_first()[0] == b@);
    assert(keys.drop_first().drop_first().len() == 0);
}

proof fn lemma_one_amount(row: RowView, key: &str, default: Seq<char>)
    ensures
        amount_texts(row, key_texts(seq![key]), default) =~= column_numbers(row, key@)
            + seq![default],
{
    reveal_with_fuel(amount_texts, 3);
    let keys = key_texts(seq![key]);
    assert(keys.len() == 1 && keys[0] == key@);
    assert(keys.drop_first().len() == 0);
}

proof fn lemma_two_amounts(row: RowView, a: &str, b: &str, default: Seq<char>)
    ensures
        amount_texts(row, key_texts(seq![a, b]), default) =~= column_numbers(row, a@)
            + column_numbers(row, b@) + seq![default],
{
    reveal_with_fuel(amount_texts, 4);
    let keys = key_texts(seq![a, b]);
    assert(keys.len() == 2 && keys[0] == a@ && keys[1] == b@);
    assert(keys.drop_first().len() == 1 && keys.drop_first()[0] == b@);
    assert(keys.drop_first().drop_first().len() == 0);
}

/// A decision brief is read by one statement with the identifier for its value. Each part of it comes
/// from its own columns of the first row, the first that is there, and from its default where there
/// is none; each number is read from its own column first.
#[verifier::rlimit(40)]
pub proof fn law_brief(
    state: AppState,
    header: Option<Seq<u8>>,
    id: Seq<char>,
    replies: Replies,
)
    requires
        admitted(opt_text(state.settings().api_key), header),
    ensures
        ({
            let query = reading(
                "multi_agent_cfo_os"@,
                "SELECT * FROM cfo_briefs WHERE brief_id = $1 OR id = $1 LIMIT 1"@,
                seq![ParamView::Text(id)],
            );
            let answer = brief_answer(state, header, id, replies);
            &&& brief_asked(state, header, id) =~= seq![query]
            &&& replies(0, query) is Err ==> shows_sample(answer, sample_decision_brief(id))
            &&& replies(0, query) matches Ok(rows) ==> (rows.len() == 0 ==> shows_sample(
                answer,
                sample_decision_brief(id),
            ))
            &&& replies(0, query) matches Ok(rows) ==> (rows.len() > 0 ==> (
            answer matches Ok(PlanView::Live { draft }) && {
                let row = rows[0];
                &&& draft.id == id
                &&& draft.title == first_of(
                    column_text(row, "title"@),
                    column_text(row, "case_title"@),
                    "Decision Brief"@,
                )
                &&& draft.status == first_of(column_text(row, "status"@), None, "draft"@)
                &&& draft.priority == first_of(column_text(row, "priority"@), None, "medium"@)
                &&& draft.created == (if row.contains_key("created_at"@) {
                    Some(row["created_at"@])
                } else {
                    None
                })
                &&& draft.context == first_of(
                    column_text(row, "context"@),
                    column_text(row, "description"@),
                    ""@,
                )
                &&& draft.recommendation == first_of(column_text(row, "recommendation"@), None, ""@)
                &&& draft.budget =~= column_numbers(row, "budget_amount"@) + seq!["500000.0"@]
                &&& draft.roi =~= column_numbers(row, "roi_12m"@) + seq!["0.34"@]
                &&& draft.npv =~= column_numbers(row, "npv"@) + seq!["125000.0"@]
                &&& draft.payback_months == (if row.contains_key("payback_months"@) && int_of(
                    row["payback_months"@],
                ) is Some {
                    int_of(row["payback_months"@])->Some_0 as int
                } else {
                    8
                })
            }))
        }),
{
    let query = crate::brief::brief_query(id);
    if let Ok(rows) = replies(0, query) {
        if rows.len() > 0 {
            let row = rows[0];
            lemma_two_texts(row, "title", "case_title", "Decision Brief"@);
            lemma_one_text(row, "status", "draft"@);
            lemma_one_text(row, "priority", "medium"@);
            lemma_two_texts(row, "context", "description", ""@);
            lemma_one_text(row, "recommendation", ""@);
            lemma_one_amount(row, "budget_amount", "500000.0"@);
            lemma_one_amount(row, "roi_12m", "0.34"@);
            lemma_one_amount(row, "npv", "125000.0"@);
            reveal_with_fuel(picked_int, 3);
            let keys = key_texts(seq!["payback_months"]);
            assert(keys.len() == 1 && keys[0] == "payback_months"@);
            assert(keys.drop_first().len() == 0);
        }
    }
}

/// The numbers of a brief are apart: rows that agree on the column of one of them agree on that
/// number, whatever their other columns say.
pub proof fn law_brief_numbers_apart(id: Seq<char>, a: RowView, b: RowView)
    ensures
        column_numbers(a, "roi_12m"@) == column_numbers(b, "roi_12m"@)
            ==> crate::brief::brief_draft(id, a).roi == crate::brief::brief_draft(id, b).roi,
        column_numbers(a, "npv"@) == column_numbers(b, "npv"@) ==> crate::brief::brief_draft(
            id,
            a,
        ).npv == crate::brief::brief_draft(id, b).npv,
        column_numbers(a, "budget_amount"@) == column_numbers(b, "budget_amount"@)
            ==> crate::brief::brief_draft(id, a).budget == crate::brief::brief_draft(id, b).budget,
{
    lemma_one_amount(a, "roi_12m", "0.34"@);
    lemma_one_amount(b, "roi_12m", "0.34"@);
    lemma_one_amount(a, "npv", "125000.0"@);
    lemma_one_amount(b, "npv", "125000.0"@);
    lemma_one_amount(a, "budget_amount", "500000.0"@);
    lemma_one_amount(b, "budget_amount", "500000.0"@);
}

proof fn lemma_brief_keys()
    ensures
        "id"@ != "title"@,
        "id"@ != "status"@,
        "title"@ != "status"@,
        "id"@ != "priority"@,
        "title"@ != "priority"@,
        "status"@ != "priority"@,
        "id"@ != "created"@,
        "title"@ != "created"@,
        "status"@ != "created"@,
        "priority"@ != "created"@,
        "id"@ != "brief"@,
        "title"@ != "brief"@,
        "status"@ != "brief"@,
        "priority"@ != "brief"@,
        "created"@ != "brief"@,
        "id"@ != "financialImpact"@,
        "title"@ != "financialImpact"@,
        "status"@ != "financialImpact"@,
        "priority"@ != "financialImpact"@,
        "created"@ != "financialImpact"@,
        "brief"@ != "financialImpact"@,
        "id"@ != "artifacts"@,
        "title"@ != "artifacts"@,
        "status"@ != "artifacts"@,
        "priority"@ != "artifacts"@,
        "created"@ != "artifacts"@,
        "brief"@ != "artifacts"@,
        "financialImpact"@ != "artifacts"@,
        "id"@ != "evidence"@,
        "title"@ != "evidence"@,
        "status"@ != "evidence"@,
        "priority"@ != "evidence"@,
        "created"@ != "evidence"@,
        "brief"@ != "evidence"@,
        "financialImpact"@ != "evidence"@,
        "artifacts"@ != "evidence"@,
        "id"@ != "rounds"@,
        "title"@ != "rounds"@,
        "status"@ != "rounds"@,
        "priority"@ != "rounds"@,
        "created"@ != "rounds"@,
        "brief"@ != "rounds"@,
        "financialImpact"@ != "rounds"@,
        "artifacts"@ != "rounds"@,
        "evidence"@ != "rounds"@,
        "id"@ != "forecasts"@,
        "title"@ != "forecasts"@,
        "status"@ != "forecasts"@,
        "priority"@ != "forecasts"@,
        "created"@ != "forecasts"@,
        "brief"@ != "forecasts"@,
        "financialImpact"@ != "forecasts"@,
        "artifacts"@ != "forecasts"@,
        "evidence"@ != "forecasts"@,
        "rounds"@ != "forecasts"@,
        "id"@ != "findings"@,
        "title"@ != "findings"@,
        "status"@ != "findings"@,
        "priority"@ != "findings"@,
        "created"@ != "findings"@,
        "brief"@ != "findings"@,
        "financialImpact"@ != "findings"@,
        "artifacts"@ != "findings"@,
        "evidence"@ != "findings"@,
        "rounds"@ != "findings"@,
        "forecasts"@ != "findings"@,
        "id"@ != "audits"@,
        "title"@ != "audits"@,
        "status"@ != "audits"@,
        "priority"@ != "audits"@,
        "created"@ != "audits"@,
        "brief"@ != "audits"@,
        "financialImpact"@ != "audits"@,
        "artifacts"@ != "audits"@,
        "evidence"@ != "audits"@,
        "rounds"@ != "audits"@,
        "forecasts"@ != "audits"@,
        "findings"@ != "audits"@,
{
    reveal_strlit("id");
    reveal_strlit("title");
    reveal_strlit("status");
    reveal_strlit("priority");
    reveal_strlit("created");
    reveal_strlit("brief");
    reveal_strlit("financialImpact");
    reveal_strlit("artifacts");
    reveal_strlit("evidence");
    reveal_strlit("rounds");
    reveal_strlit("forecasts");
    reveal_strlit("findings");
    reveal_strlit("audits");
    assert("id"@.len() == 2);
    assert("title"@.len() == 5);
    assert("status"@.len() == 6);
    assert("priority"@.len() == 8);
    assert("created"@.len() == 7);
    assert("brief"@.len() == 5);
    assert("financialImpact"@.len() == 15);
    assert("artifacts"@.len() == 9);
    assert("evidence"@.len() == 8);
    assert("rounds"@.len() == 6);
    assert("forecasts"@.len() == 9);
    assert("findings"@.len() == 8);
    assert("audits"@.len() == 6);
    assert("title"@[0] == 't' && "brief"@[0] == 'b');
    assert("priority"@[0] == 'p' && "evidence"@[0] == 'e');
    assert("status"@[0] == 's' && "rounds"@[0] == 'r');
    assert("artifacts"@[0] == 'a' && "forecasts"@[0] == 'f');
    assert("priority"@[0] == 'p' && "findings"@[0] == 'f');
    assert("evidence"@[0] == 'e' && "findings"@[0] == 'f');
    assert("status"@[0] == 's' && "audits"@[0] == 'a');
    assert("rounds"@[0] == 'r' && "audits"@[0] == 'a');
}

proof fn lemma_brief_part_keys()
    ensures
        "context"@ != "options"@,
        "context"@ != "recommendation"@,
        "options"@ != "recommendation"@,
        "context"@ != "totalBudget"@,
        "options"@ != "totalBudget"@,
        "recommendation"@ != "totalBudget"@,
        "context"@ != "roi12m"@,
        "options"@ != "roi12m"@,
        "recommendation"@ != "roi12m"@,
        "totalBudget"@ != "roi12m"@,
        "context"@ != "paybackMonths"@,
        "options"@ != "paybackMonths"@,
        "recommendation"@ != "paybackMonths"@,
        "totalBudget"@ != "paybackMonths"@,
        "roi12m"@ != "paybackMonths"@,
        "context"@ != "npv"@,
        "options"@ != "npv"@,
        "recommendation"@ != "npv"@,
        "totalBudget"@ != "npv"@,
        "roi12m"@ != "npv"@,
        "paybackMonths"@ != "npv"@,
        "context"@ != "label"@,
        "options"@ != "label"@,
        "recommendation"@ != "label"@,
        "totalBudget"@ != "label"@,
        "roi12m"@ != "label"@,
        "paybackMonths"@ != "label"@,
        "npv"@ != "label"@,
        "context"@ != "description"@,
        "options"@ != "description"@,
        "recommendation"@ != "description"@,
        "totalBudget"@ != "description"@,
        "roi12m"@ != "description"@,
        "paybackMonths"@ != "description"@,
        "npv"@ != "description"@,
        "label"@ != "description"@,
{
    reveal_strlit("context");
    reveal_strlit("options");
    reveal_strlit("recommendation");
    reveal_strlit("totalBudget");
    reveal_strlit("roi12m");
    reveal_strlit("paybackMonths");
    reveal_strlit("npv");
    reveal_strlit("label");
    reveal_strlit("description");
    assert("context"@.len() == 7);
    assert("options"@.len() == 7);
    assert("recommendation"@.len() == 14);
    assert("totalBudget"@.len() == 11);
    assert("roi12m"@.len() == 6);
    assert("paybackMonths"@.len() == 13);
    assert("npv"@.len() == 3);
    assert("label"@.len() == 5);
    assert("description"@.len() == 11);
    assert("context"@[0] == 'c' && "options"@[0] == 'o');
    assert("totalBudget"@[0] == 't' && "description"@[0] == 'd');
}

/// The document of a brief shows every part of it under its own name, and the day it was made, or the
/// present moment where that is not known.
#[verifier::rlimit(40)]
pub proof fn law_brief_document(draft: BriefDraftView, numbers: BriefNumbers, now: Seq<char>)
    ensures
        ({
            let document = brief_document(draft, numbers, now);
            let empty = Some(JsonView::Array(Seq::empty()));
            &&& has_members(
                document,
                set!["id"@, "title"@, "status"@, "priority"@, "created"@, "brief"@, "financialImpact"@, "artifacts"@, "evidence"@, "rounds"@, "forecasts"@, "findings"@, "audits"@],
            )
            &&& member(document, "id"@) == text_json(draft.id)
            &&& member(document, "title"@) == text_json(draft.title)
            &&& member(document, "status"@) == text_json(draft.status)
            &&& member(document, "priority"@) == text_json(draft.priority)
            &&& member(document, "created"@) == (match draft.created {
                Some(value) => Some(JsonView::Datum(value)),
                None => text_json(now),
            })
            &&& member(document, "artifacts"@) == empty
            &&& member(document, "evidence"@) == empty
            &&& member(document, "rounds"@) == empty
            &&& member(document, "forecasts"@) == empty
            &&& member(document, "findings"@) == empty
            &&& member(document, "audits"@) == empty
            &&& member(document, "brief"@) matches Some(brief) && has_members(
                brief,
                set!["context"@, "options"@, "recommendation"@],
            ) && member(brief, "context"@) == text_json(draft.context) && member(
                brief,
                "recommendation"@,
            ) == text_json(draft.recommendation) && (member(
                brief,
                "options"@,
            ) matches Some(JsonView::Array(options)) && options.len() == 1 && has_members(
                options[0],
                set!["label"@, "description"@],
            ) && member(options[0], "label"@) == text_json("Default"@) && member(
                options[0],
                "description"@,
            ) == text_json(draft.recommendation))
            &&& member(document, "financialImpact"@) matches Some(impact) && has_members(
                impact,
                set!["totalBudget"@, "roi12m"@, "paybackMonths"@, "npv"@],
            ) && member(impact, "totalBudget"@) == real_json(numbers.budget) && member(
                impact,
                "roi12m"@,
            ) == real_json(numbers.roi) && member(impact, "paybackMonths"@) == int_json(
                draft.payback_months,
            ) && member(impact, "npv"@) == real_json(numbers.npv)
        }),
{
    lemma_brief_keys();
    lemma_brief_part_keys();
}

proof fn lemma_sample_keys()
    ensures
        "id"@ != "title"@,
        "id"@ != "status"@,
        "title"@ != "status"@,
        "id"@ != "priority"@,
        "title"@ != "priority"@,
        "status"@ != "priority"@,
        "id"@ != "created"@,
        "title"@ != "created"@,
        "status"@ != "created"@,
        "priority"@ != "created"@,
        "id"@ != "brief"@,
        "title"@ != "brief"@,
        "status"@ != "brief"@,
        "priority"@ != "brief"@,
        "created"@ != "brief"@,
        "id"@ != "financialImpact"@,
        "title"@ != "financialImpact"@,
        "status"@ != "financialImpact"@,
        "priority"@ != "financialImpact"@,
        "created"@ != "financialImpact"@,
        "brief"@ != "financialImpact"@,
        "id"@ != "evidence"@,
        "title"@ != "evidence"@,
        "status"@ != "evidence"@,
        "priority"@ != "evidence"@,
        "created"@ != "evidence"@,
        "brief"@ != "evidence"@,
        "financialImpact"@ != "evidence"@,
        "id"@ != "approvalChain"@,
        "title"@ != "approvalChain"@,
        "status"@ != "approvalChain"@,
        "priority"@ != "approvalChain"@,
        "created"@ != "approvalChain"@,
        "brief"@ != "approvalChain"@,
        "financialImpact"@ != "approvalChain"@,
        "evidence"@ != "approvalChain"@,
{
    reveal_strlit("id");
    reveal_strlit("title");
    reveal_strlit("status");
    reveal_strlit("priority");
    reveal_strlit("created");
    reveal_strlit("brief");
    reveal_strlit("financialImpact");
    reveal_strlit("evidence");
    reveal_strlit("approvalChain");
    assert("id"@.len() == 2);
    assert("title"@.len() == 5);
    assert("status"@.len() == 6);
    assert("priority"@.len() == 8);
    assert("created"@.len() == 7);
    assert("brief"@.len() == 5);
    assert("financialImpact"@.len() == 15);
    assert("evidence"@.len() == 8);
    assert("approvalChain"@.len() == 13);
    assert("title"@[0] == 't' && "brief"@[0] == 'b');
    assert("priority"@[0] == 'p' && "evidence"@[0] == 'e');
}

/// The sample of a brief is the same for every identifier but for the identifier.
pub proof fn law_brief_samples_alike(a: Seq<char>, b: Seq<char>, key: Seq<char>)
    ensures
        key != "id"@ ==> member(sample_decision_brief(a), key) == member(
            sample_decision_brief(b),
            key,
        ),
        member(sample_decision_brief(a), "id"@) == text_json(a),
{
    lemma_sample_keys();
}

/// The finance cockpit is read by one statement and shows the first budget: its total, its spending
/// and its period come from their own columns in their order, and from their defaults only where
/// there are none.
#[verifier::rlimit(40)]
pub proof fn law_cockpit(state: AppState, header: Option<Seq<u8>>, replies: Replies)
    requires
        admitted(opt_text(state.settings().api_key), header),
    ensures
        ({
            let query = reading(
                "closed_loop_finance"@,
                "SELECT * FROM budgets ORDER BY period DESC LIMIT 5"@,
                Seq::empty(),
            );
            let answer = cockpit_answer(state, header, replies);
            &&& cockpit_asked(state, header) =~= seq![query]
            &&& replies(0, query) is Err ==> shows_sample(answer, sample_finance_cockpit())
            &&& replies(0, query) matches Ok(rows) ==> (rows.len() == 0 ==> shows_sample(
                answer,
                sample_finance_cockpit(),
            ))
            &&& replies(0, query) matches Ok(rows) ==> (rows.len() > 0 ==> (
            answer matches Ok(PlanView::Live { draft }) && {
                let row = rows[0];
                &&& draft.total =~= column_numbers(row, "total_budget"@) + column_numbers(
                    row,
                    "amount"@,
                ) + seq!["2500000.0"@]
                &&& draft.spent =~= column_numbers(row, "actual_spend"@) + column_numbers(
                    row,
                    "spent"@,
                ) + seq!["1420000.0"@]
                &&& draft.period == first_of(
                    column_text(row, "period"@),
                    column_text(row, "name"@),
                    "Q2 2026"@,
                )
            }))
        }),
{
    if let Ok(rows) = replies(0, crate::cockpit::budgets_query()) {
        if rows.len() > 0 {
            let row = rows[0];
            lemma_two_amounts(row, "total_budget", "amount", "2500000.0"@);
            lemma_two_amounts(row, "actual_spend", "spent", "1420000.0"@);
            lemma_two_texts(row, "period", "name", "Q2 2026"@);
        }
    }
}

/// A number in the column of the total counts first, one in the other column where there is none, and
/// the default where there is neither; and so for the spending.
pub proof fn law_budget_columns(row: RowView, n: int)
    ensures
        ({
            let draft = crate::cockpit::cockpit_draft(row);
            &&& row.contains_key("total_budget"@) && row["total_budget"@] == DatumView::Int(n)
                ==> draft.total[0] == crate::text::signed_decimal(n)
            &&& !row.contains_key("total_budget"@) && row.contains_key("amount"@) && row["amount"@]
                == DatumView::Int(n) ==> draft.total[0] == crate::text::signed_decimal(n)
            &&& !row.contains_key("total_budget"@) && !row.contains_key("amount"@) ==> draft.total
                =~= seq!["2500000.0"@]
            &&& row.contains_key("actual_spend"@) && row["actual_spend"@] == DatumView::Int(n)
                ==> draft.spent[0] == crate::text::signed_decimal(n)
            &&& !row.contains_key("actual_spend"@) && row.contains_key("spent"@) && row["spent"@]
                == DatumView::Int(n) ==> draft.spent[0] == crate::text::signed_decimal(n)
            &&& !row.contains_key("actual_spend"@) && !row.contains_key("spent"@) ==> draft.spent
                =~= seq!["1420000.0"@]
        }),
{
    lemma_two_amounts(row, "total_budget", "amount", "2500000.0"@);
    lemma_two_amounts(row, "actual_spend", "spent", "1420000.0"@);
}

proof fn lemma_cockpit_keys()
    ensures
        "budget"@ != "burnRate"@,
        "budget"@ != "cashForecast"@,
        "burnRate"@ != "cashForecast"@,
        "budget"@ != "workingCapital"@,
        "burnRate"@ != "workingCapital"@,
        "cashForecast"@ != "workingCapital"@,
{
    reveal_strlit("budget");
    reveal_strlit("burnRate");
    reveal_strlit("cashForecast");
    reveal_strlit("workingCapital");
    assert("budget"@.len() == 6);
    assert("burnRate"@.len() == 8);
    assert("cashForecast"@.len() == 12);
    assert("workingCapital"@.len() == 14);
}

proof fn lemma_cockpit_part_keys()
    ensures
        "total"@ != "spent"@,
        "total"@ != "remaining"@,
        "spent"@ != "remaining"@,
        "total"@ != "period"@,
        "spent"@ != "period"@,
        "remaining"@ != "period"@,
        "total"@ != "monthly"@,
        "spent"@ != "monthly"@,
        "remaining"@ != "monthly"@,
        "period"@ != "monthly"@,
        "total"@ != "weekly"@,
        "spent"@ != "weekly"@,
        "remaining"@ != "weekly"@,
        "period"@ != "weekly"@,
        "monthly"@ != "weekly"@,
        "total"@ != "trend"@,
        "spent"@ != "trend"@,
        "remaining"@ != "trend"@,
        "period"@ != "trend"@,
        "monthly"@ != "trend"@,
        "weekly"@ != "trend"@,
        "total"@ != "runwayMonths"@,
        "spent"@ != "runwayMonths"@,
        "remaining"@ != "runwayMonths"@,
        "period"@ != "runwayMonths"@,
        "monthly"@ != "runwayMonths"@,
        "weekly"@ != "runwayMonths"@,
        "trend"@ != "runwayMonths"@,
{
    reveal_strlit("total");
    reveal_strlit("spent");
    reveal_strlit("remaining");
    reveal_strlit("period");
    reveal_strlit("monthly");
    reveal_strlit("weekly");
    reveal_strlit("trend");
    reveal_strlit("runwayMonths");
    assert("total"@.len() == 5);
    assert("spent"@.len() == 5);
    assert("remaining"@.len() == 9);
    assert("period"@.len() == 6);
    assert("monthly"@.len() == 7);
    assert("weekly"@.len() == 6);
    assert("trend"@.len() == 5);
    assert("runwayMonths"@.len() == 12);
    assert("total"@[0] == 't' && "spent"@[0] == 's');
    assert("period"@[0] == 'p' && "weekly"@[0] == 'w');
    assert("total"@[1] == 'o' && "trend"@[1] == 'r');
    assert("spent"@[0] == 's' && "trend"@[0] == 't');
}

/// The document of the cockpit shows every number under its own name.
#[verifier::rlimit(40)]
pub proof fn law_cockpit_document(draft: CockpitDraftView, numbers: BudgetNumbers)
    ensures
        ({
            let document = cockpit_document(draft, numbers);
            &&& has_members(
                document,
                set!["budget"@, "burnRate"@, "cashForecast"@, "workingCapital"@],
            )
            &&& member(document, "cashForecast"@) == Some(sample_cash_forecast())
            &&& member(document, "workingCapital"@) == Some(sample_working_capital())
            &&& member(document, "budget"@) matches Some(budget) && has_members(
                budget,
                set!["total"@, "spent"@, "remaining"@, "period"@],
            ) && member(budget, "total"@) == real_json(numbers.total) && member(budget, "spent"@)
                == real_json(numbers.spent) && member(budget, "remaining"@) == real_json(
                numbers.remaining,
            ) && member(budget, "period"@) == text_json(draft.period)
            &&& member(document, "burnRate"@) matches Some(rate) && has_members(
                rate,
                set!["monthly"@, "weekly"@, "trend"@, "runwayMonths"@],
            ) && member(rate, "monthly"@) == real_json(numbers.monthly) && member(rate, "weekly"@)
                == real_json(numbers.weekly) && member(rate, "trend"@) == text_json("stable"@)
                && member(rate, "runwayMonths"@) == real_json(numbers.runway_months)
        }),
{
    lemma_cockpit_keys();
    lemma_cockpit_part_keys();
}

/// The market radar reads the indicators, and where that could be done the holdings. Where the
/// indicators cannot be read, and where there is neither an indicator nor a holding, the sample is
/// shown; holdings that cannot be read count as none.
#[verifier::rlimit(40)]
pub proof fn law_radar(state: AppState, header: Option<Seq<u8>>, replies: Replies, i: int)
    requires
        admitted(opt_text(state.settings().api_key), header),
    ensures
        ({
            let first = reading(
                "market_sentiment_fedgpt"@,
                "SELECT * FROM sentiment_indicators ORDER BY recorded_at DESC LIMIT 20"@,
                Seq::empty(),
            );
            let second = reading(
                "hedge_fund_13f_radar"@,
                "SELECT * FROM holdings ORDER BY value_usd DESC LIMIT 50"@,
                Seq::empty(),
            );
            let answer = radar_answer(state, header, replies);
            let asked = radar_asked(state, header, replies);
            &&& replies(0, first) is Err ==> shows_sample(answer, sample_market_radar()) && asked
                =~= seq![first]
            &&& replies(0, first) is Ok ==> asked =~= seq![first, second]
            &&& replies(0, first) matches Ok(rows) ==> {
                let holdings = match replies(1, second) {
                    Ok(list) => list,
                    Err(_) => Seq::empty(),
                };
                &&& rows.len() == 0 && holdings.len() == 0 ==> shows_sample(
                    answer,
                    sample_market_radar(),
                )
                &&& rows.len() > 0 || holdings.len() > 0 ==> (
                answer matches Ok(PlanView::Live { draft }) && draft.groups == sector_groups(
                    holdings,
                ) && draft.indicators.len() == rows.len() && (0 <= i < rows.len() ==> {
                    &&& draft.indicators[i].name == first_of(
                        column_text(rows[i], "indicator_name"@),
                        column_text(rows[i], "name"@),
                        "Unknown"@,
                    )
                    &&& draft.indicators[i].value =~= column_numbers(rows[i], "value"@)
                        + seq!["0.0"@]
                    &&& draft.indicators[i].signal == first_of(
                        column_text(rows[i], "signal"@),
                        None,
                        "neutral"@,
                    )
                    &&& draft.indicators[i].direction == first_of(
                        column_text(rows[i], "direction"@),
                        None,
                        "flat"@,
                    )
                }))
            }
        }),
{
    if let Ok(rows) = replies(0, crate::radar::indicators_query()) {
        if 0 <= i < rows.len() {
            let row = rows[i];
            lemma_two_texts(row, "indicator_name", "name", "Unknown"@);
            lemma_one_amount(row, "value", "0.0"@);
            lemma_one_text(row, "signal", "neutral"@);
            lemma_one_text(row, "direction", "flat"@);
        }
    }
}

proof fn lemma_radar_keys()
    ensures
        "lastUpdated"@ != "sentiment"@,
        "lastUpdated"@ != "fedPolicy"@,
        "sentiment"@ != "fedPolicy"@,
        "lastUpdated"@ != "sectorRotation"@,
        "sentiment"@ != "sectorRotation"@,
        "fedPolicy"@ != "sectorRotation"@,
        "lastUpdated"@ != "alerts"@,
        "sentiment"@ != "alerts"@,
        "fedPolicy"@ != "alerts"@,
        "sectorRotation"@ != "alerts"@,
{
    reveal_strlit("lastUpdated");
    reveal_strlit("sentiment");
    reveal_strlit("fedPolicy");
    reveal_strlit("sectorRotation");
    reveal_strlit("alerts");
    assert("lastUpdated"@.len() == 11);
    assert("sentiment"@.len() == 9);
    assert("fedPolicy"@.len() == 9);
    assert("sectorRotation"@.len() == 14);
    assert("alerts"@.len() == 6);
    assert("sentiment"@[0] == 's' && "fedPolicy"@[0] == 'f');
}

proof fn lemma_radar_part_keys()
    ensures
        "composite"@ != "label"@,
        "composite"@ != "indicators"@,
        "label"@ != "indicators"@,
        "composite"@ != "name"@,
        "label"@ != "name"@,
        "indicators"@ != "name"@,
        "composite"@ != "value"@,
        "label"@ != "value"@,
        "indicators"@ != "value"@,
        "name"@ != "value"@,
        "composite"@ != "signal"@,
        "label"@ != "signal"@,
        "indicators"@ != "signal"@,
        "name"@ != "signal"@,
        "value"@ != "signal"@,
        "composite"@ != "direction"@,
        "label"@ != "direction"@,
        "indicators"@ != "direction"@,
        "name"@ != "direction"@,
        "value"@ != "direction"@,
        "signal"@ != "direction"@,
        "composite"@ != "sector"@,
        "label"@ != "sector"@,
        "indicators"@ != "sector"@,
        "name"@ != "sector"@,
        "value"@ != "sector"@,
        "signal"@ != "sector"@,
        "direction"@ != "sector"@,
        "composite"@ != "flow"@,
        "label"@ != "flow"@,
        "indicators"@ != "flow"@,
        "name"@ != "flow"@,
        "value"@ != "flow"@,
        "signal"@ != "flow"@,
        "direction"@ != "flow"@,
        "sector"@ != "flow"@,
        "composite"@ != "weight"@,
        "label"@ != "weight"@,
        "indicators"@ != "weight"@,
        "name"@ != "weight"@,
        "value"@ != "weight"@,
        "signal"@ != "weight"@,
        "direction"@ != "weight"@,
        "sector"@ != "weight"@,
        "flow"@ != "weight"@,
{
    reveal_strlit("composite");
    reveal_strlit("label");
    reveal_strlit("indicators");
    reveal_strlit("name");
    reveal_strlit("value");
    reveal_strlit("signal");
    reveal_strlit("direction");
    reveal_strlit("sector");
    reveal_strlit("flow");
    reveal_strlit("weight");
    assert("composite"@.len() == 9);
    assert("label"@.len() == 5);
    assert("indicators"@.len() == 10);
    assert("name"@.len() == 4);
    assert("value"@.len() == 5);
    assert("signal"@.len() == 6);
    assert("direction"@.len() == 9);
    assert("sector"@.len() == 6);
    assert("flow"@.len() == 4);
    assert("weight"@.len() == 6);
    assert("label"@[0] == 'l' && "value"@[0] == 'v');
    assert("composite"@[0] == 'c' && "direction"@[0] == 'd');
    assert("signal"@[1] == 'i' && "sector"@[1] == 'e');
    assert("name"@[0] == 'n' && "flow"@[0] == 'f');
    assert("signal"@[0] == 's' && "weight"@[0] == 'w');
    assert("sector"@[0] == 's' && "weight"@[0] == 'w');
}

/// The document of the radar shows every indicator with its own value, the sectors, and the samples
/// where there is no indicator or no sector.
#[verifier::rlimit(40)]
pub proof fn law_radar_document(
    draft: RadarDraftView,
    values: Seq<Real>,
    numbers: Seq<SectorNumbers>,
    now: Seq<char>,
    i: int,
)
    requires
        draft.indicators.len() == values.len(),
    ensures
        ({
            let document = radar_document(draft, values, numbers, now);
            &&& has_members(
                document,
                set!["lastUpdated"@, "sentiment"@, "fedPolicy"@, "sectorRotation"@, "alerts"@],
            )
            &&& member(document, "lastUpdated"@) == text_json(now)
            &&& member(document, "fedPolicy"@) == Some(sample_fed_policy())
            &&& member(document, "alerts"@) == Some(sample_alerts())
            &&& rotation(draft.groups, numbers).len() == 0 ==> member(document, "sectorRotation"@)
                == Some(sample_sector_rotation())
            &&& rotation(draft.groups, numbers).len() > 0 ==> member(document, "sectorRotation"@)
                == Some(JsonView::Array(rotation(draft.groups, numbers)))
            &&& member(document, "sentiment"@) matches Some(sentiment) && has_members(
                sentiment,
                set!["composite"@, "label"@, "indicators"@],
            ) && member(sentiment, "composite"@) == Some(
                JsonView::Datum(DatumView::Decimal("0.62"@)),
            ) && member(sentiment, "label"@) == text_json("CAUTIOUSLY OPTIMISTIC"@) && (
            values.len() == 0 ==> member(sentiment, "indicators"@) == Some(sample_indicators()))
                && (0 <= i < values.len() ==> (member(
                sentiment,
                "indicators"@,
            ) matches Some(JsonView::Array(list)) && list.len() == values.len() && has_members(
                list[i],
                set!["name"@, "value"@, "signal"@, "direction"@],
            ) && member(list[i], "name"@) == text_json(draft.indicators[i].name) && member(
                list[i],
                "value"@,
            ) == real_json(values[i]) && member(list[i], "signal"@) == text_json(
                draft.indicators[i].signal,
            ) && member(list[i], "direction"@) == text_json(draft.indicators[i].direction)))
        }),
{
    lemma_radar_keys();
    lemma_radar_part_keys();
}

/// A sector is reported with its name, its own flow and its own weight.
pub proof fn law_sector_shown(sector: Seq<char>, numbers: SectorNumbers)
    ensures
        has_members(
            sector_json(sector, numbers),
            set!["sector"@, "flow"@, "direction"@, "weight"@],
        ),
        member(sector_json(sector, numbers), "sector"@) == text_json(sector),
        member(sector_json(sector, numbers), "flow"@) == real_json(numbers.flow),
        member(sector_json(sector, numbers), "direction"@) == text_json("inflow"@),
        member(sector_json(sector, numbers), "weight"@) == real_json(numbers.weight),
{
    lemma_radar_part_keys();
}

/// A holding belongs to the sector in its column `sector`, or to `Other` where it has none, and its
/// value is read from its own columns in their order.
pub proof fn law_holding(row: RowView)
    ensures
        holding_sector(row) == first_of(column_text(row, "sector"@), None, "Other"@),
        holding_amount(row) =~= column_numbers(row, "value_usd"@) + column_numbers(row, "value"@)
            + seq!["0.0"@],
{
    lemma_one_text(row, "sector", "Other"@);
    lemma_two_amounts(row, "value_usd", "value", "0.0"@);
}

/// The values of a sector are those of its holdings, in their order, and no other.
pub proof fn law_sector_values(rows: Seq<RowView>, row: RowView, sector: Seq<char>, k: int)
    ensures
        sector_amounts(Seq::empty(), sector).len() == 0,
        holding_sector(row) == sector ==> sector_amounts(rows.push(row), sector) == sector_amounts(
            rows,
            sector,
        ).push(holding_amount(row)),
        holding_sector(row) != sector ==> sector_amounts(rows.push(row), sector) == sector_amounts(
            rows,
            sector,
        ),
        0 <= k < sector_groups(rows).len() ==> sector_groups(rows)[k].amounts == sector_amounts(
            rows,
            sector_groups(rows)[k].sector,
        ),
{
    assert(rows.push(row).drop_last() =~= rows);
    crate::sectors::lemma_grouping_exists(rows);
    if 0 <= k < sector_groups(rows).len() {
        assert(sector_groups(rows).contains(sector_groups(rows)[k]));
    }
}

/// Of two sectors that are reported the first has the larger flow, or as large a flow and the earlier
/// place among the sectors. A flow that is not finite counts as zero.
pub proof fn law_rotation_by_flow(
    groups: Seq<GroupView>,
    numbers: Seq<SectorNumbers>,
    i: int,
    j: int,
)
    requires
        groups.len() == numbers.len(),
        0 <= i < j < rotation(groups, numbers).len(),
    ensures
        exists|p: int, q: int|
            0 <= p < groups.len() && 0 <= q < groups.len() && p != q && rotation(
                groups,
                numbers,
            )[i] == #[trigger] sector_json(groups[p].sector, numbers[p]) && rotation(
                groups,
                numbers,
            )[j] == #[trigger] sector_json(groups[q].sector, numbers[q]) && (real_rank(
                numbers[p].flow.bits,
            ) > real_rank(numbers[q].flow.bits) || real_rank(numbers[p].flow.bits) == real_rank(
                numbers[q].flow.bits,
            ) && p < q),
        rotation(groups, numbers).len() <= 5,
        forall|bits: u64| !is_finite(bits) ==> #[trigger] real_rank(bits) == 0,
{
    let ranks = flow_ranks(numbers);
    let order = ranking(ranks);
    lemma_ranking_exists(ranks);
    crate::laws::law_rotation(groups, numbers);
    let p = order[i];
    let q = order[j];
    assert(order.contains(p) && order.contains(q));
    assert(by_falling(ranks)(p, q));
    assert(rotation(groups, numbers)[i] == sector_json(groups[p].sector, numbers[p]));
    assert(rotation(groups, numbers)[j] == sector_json(groups[q].sector, numbers[q]));
    assert(ranks[p] == real_rank(numbers[p].flow.bits));
    assert(ranks[q] == real_rank(numbers[q].flow.bits));
}

/// Whether `name` has `word` in it, in whatever case.
pub open spec fn mentions(name: Seq<char>, word: Seq<char>) -> bool {
    exists|at: int|
        0 <= at && at + word.len() <= name.len() && same_but_for_case(
            #[trigger] name.subrange(at, at + word.len()),
            word,
        )
}

proof fn lemma_mentions(name: Seq<char>, word: Seq<char>)
    requires
        forall|i: int| 0 <= i < word.len() ==> 'a' <= #[trigger] word[i] <= 'z',
    ensures
        mentions(name, word) <==> has_part(lower(name), word),
{
    let low = lower(name);
    if mentions(name, word) {
        let at = choose|at: int|
            0 <= at && at + word.len() <= name.len() && same_but_for_case(
                #[trigger] name.subrange(at, at + word.len()),
                word,
            );
        let part = name.subrange(at, at + word.len());
        assert forall|i: int| 0 <= i < word.len() implies low.subrange(at, at + word.len())[i]
            == word[i] by {
            assert(part[i] == name[at + i]);
        }
        assert(low.subrange(at, at + word.len()) =~= word);
    }
    if has_part(low, word) {
        let at = choose|at: int|
            0 <= at && at + word.len() <= low.len() && #[trigger] low.subrange(
                at,
                at + word.len(),
            ) == word;
        let part = name.subrange(at, at + word.len());
        assert forall|i: int| 0 <= i < word.len() implies (#[trigger] part[i] == word[i] || 'A'
            <= part[i] <= 'Z' && part[i] as int + 32 == word[i] as int) by {
            assert(low.subrange(at, at + word.len())[i] == word[i]);
            assert(part[i] == name[at + i]);
        }
        assert(same_but_for_case(name.subrange(at, at + word.len()), word));
    }
}

proof fn lemma_words(name: Seq<char>)
    ensures
        holds_inventory(name) <==> mentions(name, "inventory"@) || mentions(name, "stock"@),
        holds_orders(name) <==> mentions(name, "order"@),
        holds_hazards(name) <==> mentions(name, "hazard"@) || mentions(name, "hazmat"@) || mentions(
            name,
            "waste"@,
        ),
{
    reveal_strlit("inventory");
    reveal_strlit("stock");
    reveal_strlit("order");
    reveal_strlit("hazard");
    reveal_strlit("hazmat");
    reveal_strlit("waste");
    lemma_mentions(name, "inventory"@);
    lemma_mentions(name, "stock"@);
    lemma_mentions(name, "order"@);
    lemma_mentions(name, "hazard"@);
    lemma_mentions(name, "hazmat"@);
    lemma_mentions(name, "waste"@);
}

proof fn lemma_sums_up_alike(
    summary: RowView,
    key: Seq<char>,
    counts: Seq<TableCountView>,
    holds: spec_fn(Seq<char>) -> bool,
    others: spec_fn(Seq<char>) -> bool,
)
    requires
        sums_up(summary, key, counts, holds),
        forall|name: Seq<char>| #[trigger] holds(name) == others(name),
    ensures
        sums_up(summary, key, counts, others),
{
    if summary.contains_key(key) {
        let i = choose|i: int| #[trigger]
            is_last(counts, i, holds) && summary[key] == DatumView::Int(counts[i].rows);
        assert(holds(counts[i].name));
        assert forall|j: int| i < j < counts.len() implies !others(#[trigger] counts[j].name) by {
            assert(!holds(counts[j].name));
        }
        assert(is_last(counts, i, others));
    } else {
        assert forall|i: int| 0 <= i < counts.len() implies !others(#[trigger] counts[i].name) by {
            assert(!holds(counts[i].name));
        }
    }
}

proof fn lemma_battery_keys()
    ensures
        "lastUpdated"@ != "tables"@,
        "lastUpdated"@ != "summary"@,
        "tables"@ != "summary"@,
{
    reveal_strlit("lastUpdated");
    reveal_strlit("tables");
    reveal_strlit("summary");
    assert("lastUpdated"@.len() == 11);
    assert("tables"@.len() == 6);
    assert("summary"@.len() == 7);
}

/// The summary of the battery plant has the number of rows of the last table whose name mentions an
/// inventory or a stock, of the last that mentions an order, and of the last that mentions a hazard,
/// hazmat or waste, in whatever case; where there is no such table it has no such member; and it has
/// no other.
#[verifier::rlimit(40)]
pub proof fn law_battery_words(counts: Seq<TableCountView>, now: Seq<char>)
    ensures
        has_members(
            battery_document(counts, now),
            set!["lastUpdated"@, "tables"@, "summary"@],
        ),
        member(battery_document(counts, now), "lastUpdated"@) == text_json(now),
        ({
            let summary = battery_summary(counts);
            &&& member(battery_document(counts, now), "summary"@) == Some(row_json(summary))
            &&& sums_up(
                summary,
                "totalInventoryItems"@,
                counts,
                |name: Seq<char>| mentions(name, "inventory"@) || mentions(name, "stock"@),
            )
            &&& sums_up(
                summary,
                "activeOrders"@,
                counts,
                |name: Seq<char>| mentions(name, "order"@),
            )
            &&& sums_up(
                summary,
                "activeManifests"@,
                counts,
                |name: Seq<char>|
                    mentions(name, "hazard"@) || mentions(name, "hazmat"@) || mentions(
                        name,
                        "waste"@,
                    ),
            )
            &&& forall|key: Seq<char>| #[trigger]
                summary.contains_key(key) ==> key == "totalInventoryItems"@ || key
                    == "activeOrders"@ || key == "activeManifests"@
        }),
{
    lemma_battery_keys();
    law_battery_summary(counts);
    let summary = battery_summary(counts);
    assert forall|name: Seq<char>| #[trigger] holds_inventory(name) == (mentions(
        name,
        "inventory"@,
    ) || mentions(name, "stock"@)) by {
        lemma_words(name);
    }
    assert forall|name: Seq<char>| #[trigger] holds_orders(name) == mentions(name, "order"@) by {
        lemma_words(name);
    }
    assert forall|name: Seq<char>| #[trigger] holds_hazards(name) == (mentions(name, "hazard"@)
        || mentions(name, "hazmat"@) || mentions(name, "waste"@)) by {
        lemma_words(name);
    }
    lemma_sums_up_alike(
        summary,
        "totalInventoryItems"@,
        counts,
        |name: Seq<char>| holds_inventory(name),
        |name: Seq<char>| mentions(name, "inventory"@) || mentions(name, "stock"@),
    );
    lemma_sums_up_alike(
        summary,
        "activeOrders"@,
        counts,
        |name: Seq<char>| holds_orders(name),
        |name: Seq<char>| mentions(name, "order"@),
    );
    lemma_sums_up_alike(
        summary,
        "activeManifests"@,
        counts,
        |name: Seq<char>| holds_hazards(name),
        |name: Seq<char>|
            mentions(name, "hazard"@) || mentions(name, "hazmat"@) || mentions(name, "waste"@),
    );
}

/// A table that is counted last, and whose name is something, one of the words and something, gives
/// the summary its number of rows.
#[verifier::rlimit(40)]
pub proof fn law_battery_last_table(
    counts: Seq<TableCountView>,
    before: Seq<char>,
    behind: Seq<char>,
    rows: int,
)
    ensures
        ({
            let with = |word: Seq<char>|
                battery_summary(
                    counts.push(TableCountView { name: before + word + behind, rows }),
                );
            let n = DatumView::Int(rows);
            &&& with("inventory"@).contains_key("totalInventoryItems"@) && with(
                "inventory"@,
            )["totalInventoryItems"@] == n
            &&& with("stock"@).contains_key("totalInventoryItems"@) && with(
                "stock"@,
            )["totalInventoryItems"@] == n
            &&& with("order"@).contains_key("activeOrders"@) && with("order"@)["activeOrders"@] == n
            &&& with("hazard"@).contains_key("activeManifests"@) && with(
                "hazard"@,
            )["activeManifests"@] == n
            &&& with("hazmat"@).contains_key("activeManifests"@) && with(
                "hazmat"@,
            )["activeManifests"@] == n
            &&& with("waste"@).contains_key("activeManifests"@) && with("waste"@)["activeManifests"@]
                == n
        }),
{
    reveal_strlit("totalInventoryItems");
    reveal_strlit("activeOrders");
    reveal_strlit("activeManifests");
    assert("totalInventoryItems"@.len() == 19 && "activeOrders"@.len() == 12
        && "activeManifests"@.len() == 15);
    lemma_word_within(before, "inventory"@, behind);
    lemma_words(before + "inventory"@ + behind);
    assert(counts.push(TableCountView { name: before + "inventory"@ + behind, rows }).drop_last()
        =~= counts);
    lemma_word_within(before, "stock"@, behind);
    lemma_words(before + "stock"@ + behind);
    assert(counts.push(TableCountView { name: before + "stock"@ + behind, rows }).drop_last()
        =~= counts);
    lemma_word_within(before, "order"@, behind);
    lemma_words(before + "order"@ + behind);
    assert(counts.push(TableCountView { name: before + "order"@ + behind, rows }).drop_last()
        =~= counts);
    lemma_word_within(before, "hazard"@, behind);
    lemma_words(before + "hazard"@ + behind);
    assert(counts.push(TableCountView { name: before + "hazard"@ + behind, rows }).drop_last()
        =~= counts);
    lemma_word_within(before, "hazmat"@, behind);
    lemma_words(before + "hazmat"@ + behind);
    assert(counts.push(TableCountView { name: before + "hazmat"@ + behind, rows }).drop_last()
        =~= counts);
    lemma_word_within(before, "waste"@, behind);
    lemma_words(before + "waste"@ + behind);
    assert(counts.push(TableCountView { name: before + "waste"@ + behind, rows }).drop_last()
        =~= counts);
}

proof fn lemma_word_within(before: Seq<char>, word: Seq<char>, behind: Seq<char>)
    ensures
        mentions(before + word + behind, word),
{
    let name = before + word + behind;
    let at = before.len() as int;
    assert(name.subrange(at, at + word.len()) =~= word);
    assert(same_but_for_case(name.subrange(at, at + word.len()), word));
}

/// The dashboard has a member for every table that was counted and no other, with its number of rows;
/// of two tables with one name the later counts.
pub proof fn law_battery_tables(
    counts: Seq<TableCountView>,
    last: TableCountView,
    now: Seq<char>,
    name: Seq<char>,
)
    ensures
        rows_by_table(Seq::empty()) == RowView::empty(),
        rows_by_table(counts.push(last)).contains_key(last.name),
        rows_by_table(counts.push(last))[last.name] == DatumView::Int(last.rows),
        name != last.name ==> rows_by_table(counts.push(last)).contains_key(name) == rows_by_table(
            counts,
        ).contains_key(name) && rows_by_table(counts.push(last))[name] == rows_by_table(
            counts,
        )[name],
        member(battery_document(counts, now), "tables"@) matches Some(JsonView::Object(tables)) && (
        tables.contains_key(name) <==> rows_by_table(counts).contains_key(name)) && (
        tables.contains_key(name) ==> has_members(tables[name], set!["rows"@]) && member(
            tables[name],
            "rows"@,
        ) == Some(JsonView::Datum(rows_by_table(counts)[name]))),
{
    lemma_battery_keys();
    assert(counts.push(last).drop_last() =~= counts);
}

/// The names that are counted are those of the listed tables that may stand as identifiers, in their
/// order.
pub proof fn law_counted_names(rows: Seq<RowView>, row: RowView)
    ensures
        counted_names(Seq::empty()).len() == 0,
        valid_identifier(listed_name(row)) ==> counted_names(rows.push(row)) == counted_names(
            rows,
        ).push(listed_name(row)),
        !valid_identifier(listed_name(row)) ==> counted_names(rows.push(row)) == counted_names(
            rows,
        ),
{
    assert(rows.push(row).drop_last() =~= rows);
}

/// The dashboard of the battery plant lists the tables by one statement and counts each of them by one
/// more. Where the tables cannot be listed and where there are none the sample is shown; a table
/// that cannot be counted counts as empty.
#[verifier::rlimit(40)]
pub proof fn law_battery(state: AppState, header: Option<Seq<u8>>, replies: Replies, i: int)
    requires
        admitted(opt_text(state.settings().api_key), header),
    ensures
        ({
            let first = reading(
                "battery_erp"@,
                r#"
        SELECT table_name FROM information_schema.tables
        WHERE table_schema = 'public' AND table_type = 'BASE TABLE'
        "#@,
                Seq::empty(),
            );
            let answer = battery_answer(state, header, replies);
            let asked = battery_asked(state, header, replies);
            &&& asked.len() > 0 && asked[0] == first
            &&& replies(0, first) is Err ==> shows_sample(answer, sample_battery_erp_dashboard())
                && asked.len() == 1
            &&& replies(0, first) matches Ok(rows) ==> (rows.len() == 0 ==> shows_sample(
                answer,
                sample_battery_erp_dashboard(),
            ) && asked.len() == 1)
            &&& replies(0, first) matches Ok(rows) ==> (rows.len() > 0 ==> (
            answer matches Ok(PlanView::Live { draft }) && draft.len() == counted_names(rows).len()
                && asked.len() == 1 + draft.len() && (0 <= i < draft.len() ==> draft[i].name
                == counted_names(rows)[i] && asked[1 + i] == counting("battery_erp"@, draft[i].name)
                && draft[i].rows == reported_count(
                replies((1 + i) as nat, counting("battery_erp"@, draft[i].name)),
                0,
            ))))
        }),
{
    let first = crate::battery::battery_tables_query();
    if let Ok(rows) = replies(0, first) {
        if 0 <= i < counted_names(rows).len() {
            law_counting("battery_erp"@, counted_names(rows)[i]);
        }
    }
}

} // verus!
