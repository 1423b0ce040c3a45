//! The finance cockpit.

use vstd::prelude::*;

use crate::auth::authorize;
#[allow(unused_imports)]
use crate::auth::{admitted, not_admitted, opt_bytes};
use crate::config::AppState;
#[allow(unused_imports)]
use crate::config::opt_text;
use crate::flow::{Flow, Replies, Step};
#[allow(unused_imports)]
use crate::flow::{step_asked, step_outcome, step_wf};
#[allow(unused_imports)]
use crate::identifiers::DATABASES;
use crate::json::{Json, JsonView, Object, Row, RowView};
use crate::lookup::{pick_amount, pick_string_or};
#[allow(unused_imports)]
use crate::lookup::{amount_texts, key_texts, text_or_default};
use crate::numbers::{Amount, Real};
#[allow(unused_imports)]
use crate::numbers::real_datum;
use crate::plan::{Plan, Planned, PlannedView};
#[allow(unused_imports)]
use crate::plan::{planned_view, PlanView};
use crate::query::{Query, QueryView, Reply};
#[allow(unused_imports)]
use crate::query::{plain_query, ReplyView};
use crate::samples::{mock_cash_forecast, mock_finance_cockpit, mock_working_capital};
#[allow(unused_imports)]
use crate::samples::{sample_cash_forecast, sample_finance_cockpit, sample_working_capital};
use crate::sql::BUDGETS;

verus! {

/// The live data of the finance cockpit.
#[derive(Debug)]
pub struct CockpitDraft {
    pub total: Amount,
    pub spent: Amount,
    pub period: String,
}

/// What a [`CockpitDraft`] is.
pub struct CockpitDraftView {
    pub total: Seq<Seq<char>>,
    pub spent: Seq<Seq<char>>,
    pub period: Seq<char>,
}

impl View for CockpitDraft {
    type V = CockpitDraftView;

    open spec fn view(&self) -> CockpitDraftView {
        CockpitDraftView { total: self.total@, spent: self.spent@, period: self.period@ }
    }
}

/// The live data that a budget gives.
pub open spec fn cockpit_draft(row: RowView) -> CockpitDraftView {
    CockpitDraftView {
        total: amount_texts(row, key_texts(seq!["total_budget", "amount"]), "2500000.0"@),
        spent: amount_texts(row, key_texts(seq!["actual_spend", "spent"]), "1420000.0"@),
        period: text_or_default(row, seq!["period", "name"], "Q2 2026"@),
    }
}

fn read_budget(row: &Row) -> (draft: CockpitDraft)
    ensures
        draft@ == cockpit_draft(row@),
{
    let totals: [&str; 2] = ["total_budget", "amount"];
    let spendings: [&str; 2] = ["actual_spend", "spent"];
    let periods: [&str; 2] = ["period", "name"];
    assert(totals@ =~= seq!["total_budget", "amount"]);
    assert(spendings@ =~= seq!["actual_spend", "spent"]);
    assert(periods@ =~= seq!["period", "name"]);
    CockpitDraft {
        total: pick_amount(row, totals.as_slice(), "2500000.0"),
        spent: pick_amount(row, spendings.as_slice(), "1420000.0"),
        period: pick_string_or(row, periods.as_slice(), "Q2 2026"),
    }
}

/// What the amounts of a budget come to.
#[derive(Debug)]
pub struct BudgetNumbers {
    pub total: Real,
    pub spent: Real,
    pub remaining: Real,
    pub monthly: Real,
    pub weekly: Real,
    pub runway_months: Real,
}

/// The finance cockpit of live data.
pub open spec fn cockpit_document(draft: CockpitDraftView, numbers: BudgetNumbers) -> JsonView {
    JsonView::Object(
        map![
            "budget"@ => JsonView::Object(
                map![
                    "total"@ => JsonView::Datum(real_datum(numbers.total.bits, numbers.total.text@)),
                    "spent"@ => JsonView::Datum(real_datum(numbers.spent.bits, numbers.spent.text@)),
                    "remaining"@ => JsonView::Datum(
                        real_datum(numbers.remaining.bits, numbers.remaining.text@),
                    ),
                    "period"@ => JsonView::text(draft.period),
                ],
            ),
            "burnRate"@ => JsonView::Object(
                map![
                    "monthly"@ => JsonView::Datum(
                        real_datum(numbers.monthly.bits, numbers.monthly.text@),
                    ),
                    "weekly"@ => JsonView::Datum(
                        real_datum(numbers.weekly.bits, numbers.weekly.text@),
                    ),
                    "trend"@ => JsonView::text("stable"@),
                    "runwayMonths"@ => JsonView::Datum(
                        real_datum(numbers.runway_months.bits, numbers.runway_months.text@),
                    ),
                ],
            ),
            "cashForecast"@ => sample_cash_forecast(),
            "workingCapital"@ => sample_working_capital(),
        ],
    )
}

impl CockpitDraft {
    /// The finance cockpit, by what the amounts of the budget come to.
    pub fn finish(&self, numbers: &BudgetNumbers) -> (json: Json)
        ensures
            json@ == cockpit_document(self@, *numbers),
    {
        let budget = Object::new()
            .with("total", Json::Datum(numbers.total.to_datum()))
            .with("spent", Json::Datum(numbers.spent.to_datum()))
            .with("remaining", Json::Datum(numbers.remaining.to_datum()))
            .with("period", Json::text(self.period.as_str()));
        let burn_rate = Object::new()
            .with("monthly", Json::Datum(numbers.monthly.to_datum()))
            .with("weekly", Json::Datum(numbers.weekly.to_datum()))
            .with("trend", Json::text("stable"))
            .with("runwayMonths", Json::Datum(numbers.runway_months.to_datum()));
        Json::Object(
            Object::new()
                .with("budget", Json::Object(budget))
                .with("burnRate", Json::Object(burn_rate))
                .with("cashForecast", mock_cash_forecast())
                .with("workingCapital", mock_working_capital()),
        )
    }
}

/// The statement that reads the budgets.
pub open spec fn budgets_query() -> QueryView {
    plain_query("closed_loop_finance"@, BUDGETS@)
}

/// The finance cockpit that the budgets give: the first of them counts.
pub open spec fn cockpit_plan(reply: ReplyView) -> PlanView<CockpitDraftView> {
    match reply {
        Err(_) => PlanView::Sample { document: sample_finance_cockpit() },
        Ok(budgets) => if budgets.len() == 0 {
            PlanView::Sample { document: sample_finance_cockpit() }
        } else {
            PlanView::Live { draft: cockpit_draft(budgets[0]) }
        },
    }
}

/// What a request for the finance cockpit comes to.
pub open spec fn cockpit_answer(
    state: AppState,
    header: Option<Seq<u8>>,
    replies: Replies,
) -> PlannedView<CockpitDraftView> {
    if !admitted(opt_text(state.settings().api_key), header) {
        Err(not_admitted())
    } else {
        Ok(cockpit_plan(replies(0, budgets_query())))
    }
}

/// The statements of a request for the finance cockpit.
pub open spec fn cockpit_asked(state: AppState, header: Option<Seq<u8>>) -> Seq<QueryView> {
    if admitted(opt_text(state.settings().api_key), header) {
        seq![budgets_query()]
    } else {
        Seq::empty()
    }
}

/// A request for the finance cockpit that waits for the budgets.
#[derive(Debug)]
pub struct FinanceCockpit;

/// Starts a request for the finance cockpit.
pub fn get_finance_cockpit(header: Option<&[u8]>, state: &AppState) -> (step: Step<
    FinanceCockpit,
    Planned<CockpitDraft>,
>)
    ensures
        step_wf(step),
        step is Ask == admitted(opt_text(state.settings().api_key), opt_bytes(header)),
        forall|replies: Replies| #[trigger]
            step_outcome(step, replies, 0) == cockpit_answer(*state, opt_bytes(header), replies),
        forall|replies: Replies| #[trigger]
            step_asked(step, replies, 0) =~= cockpit_asked(*state, opt_bytes(header)),
{
    if let Err(error) = authorize(header, state) {
        return Step::Done { result: Err(error) };
    }
    Step::Ask { query: Query::plain("closed_loop_finance", BUDGETS), next: FinanceCockpit }
}

impl Flow for FinanceCockpit {
    type Outcome = Planned<CockpitDraft>;

    type OutcomeView = PlannedView<CockpitDraftView>;

    open spec fn outcome_view(outcome: Planned<CockpitDraft>) -> PlannedView<CockpitDraftView> {
        planned_view(outcome)
    }

    open spec fn wf(&self) -> bool {
        true
    }

    open spec fn pending(&self) -> QueryView {
        budgets_query()
    }

    open spec fn parts(&self) -> nat {
        1
    }

    open spec fn left(&self) -> nat {
        1
    }

    open spec fn outcome(&self, replies: Replies, n: nat) -> PlannedView<CockpitDraftView> {
        Ok(cockpit_plan(replies(n, budgets_query())))
    }

    open spec fn asked(&self, replies: Replies, n: nat) -> Seq<QueryView> {
        seq![budgets_query()]
    }

    open spec fn writes() -> bool {
        false
    }

    proof fn pending_permitted(&self) {
        assert(DATABASES@[0]@ == "closed_loop_finance"@);
    }

    fn resume(self, reply: Reply) -> (step: Step<FinanceCockpit, Planned<CockpitDraft>>) {
        let plan = match &reply {
            Ok(budgets) if budgets.len() > 0 => Plan::Live { draft: read_budget(&budgets[0]) },
            _ => Plan::Sample { document: mock_finance_cockpit() },
        };
        Step::Done { result: Ok(plan) }
    }
}

} // verus!
