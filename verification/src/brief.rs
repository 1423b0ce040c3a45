//! Decision briefs.

use vstd::prelude::*;

use crate::auth::authorize;
#[allow(unused_imports)]
use crate::auth::{admitted, not_admitted, opt_bytes};
use crate::config::AppState;
#[allow(unused_imports)]
use crate::config::opt_text;
use crate::flow::{Flow, Replies, Step};
#[allow(unused_imports)]
use crate::flow::{step_asked, step_outcome, step_wf};
#[allow(unused_imports)]
use crate::identifiers::DATABASES;
use crate::json::{Array, Datum, DatumView, Json, JsonView, Object, Row, RowView};
use crate::lookup::{pick_amount, pick_i64, pick_string_or};
#[allow(unused_imports)]
use crate::lookup::{amount_texts, key_texts, picked_int, text_or_default};
use crate::numbers::{Amount, Real};
#[allow(unused_imports)]
use crate::numbers::real_datum;
use crate::plan::{Plan, Planned, PlannedView};
#[allow(unused_imports)]
use crate::plan::{planned_view, PlanView};
use crate::query::{Query, QueryView, Reply};
#[allow(unused_imports)]
use crate::query::{text_query, ReplyView};
use crate::samples::mock_decision_brief;
#[allow(unused_imports)]
use crate::samples::sample_decision_brief;
use crate::sql::DECISION_BRIEF;

verus! {

/// The live data of a decision brief.
#[derive(Debug)]
pub struct BriefDraft {
    pub id: String,
    pub title: String,
    pub status: String,
    pub priority: String,
    /// When the brief was made, if that is known.
    pub created: Option<Datum>,
    pub context: String,
    pub recommendation: String,
    pub budget: Amount,
    pub roi: Amount,
    pub payback_months: i64,
    pub npv: Amount,
}

/// What a [`BriefDraft`] is.
pub struct BriefDraftView {
    pub id: Seq<char>,
    pub title: Seq<char>,
    pub status: Seq<char>,
    pub priority: Seq<char>,
    pub created: Option<DatumView>,
    pub context: Seq<char>,
    pub recommendation: Seq<char>,
    pub budget: Seq<Seq<char>>,
    pub roi: Seq<Seq<char>>,
    pub payback_months: int,
    pub npv: Seq<Seq<char>>,
}

impl View for BriefDraft {
    type V = BriefDraftView;

    open spec fn view(&self) -> BriefDraftView {
        BriefDraftView {
            id: self.id@,
            title: self.title@,
            status: self.status@,
            priority: self.priority@,
            created: match self.created {
                Some(value) => Some(value@),
                None => None,
            },
            context: self.context@,
            recommendation: self.recommendation@,
            budget: self.budget@,
            roi: self.roi@,
            payback_months: self.payback_months as int,
            npv: self.npv@,
        }
    }
}

/// The live data that the row of a brief gives.
pub open spec fn brief_draft(id: Seq<char>, row: RowView) -> BriefDraftView {
    BriefDraftView {
        id,
        title: text_or_default(row, seq!["title", "case_title"], "Decision Brief"@),
        status: text_or_default(row, seq!["status"], "draft"@),
        priority: text_or_default(row, seq!["priority"], "medium"@),
        created: if row.contains_key("created_at"@) {
            Some(row["created_at"@])
        } else {
            None
        },
        context: text_or_default(row, seq!["context", "description"], ""@),
        recommendation: text_or_default(row, seq!["recommendation"], ""@),
        budget: amount_texts(row, key_texts(seq!["budget_amount"]), "500000.0"@),
        roi: amount_texts(row, key_texts(seq!["roi_12m"]), "0.34"@),
        payback_months: match picked_int(row, key_texts(seq!["payback_months"])) {
            Some(months) => months as int,
            None => 8,
        },
        npv: amount_texts(row, key_texts(seq!["npv"]), "125000.0"@),
    }
}

fn read_brief(id: &str, row: &Row) -> (draft: BriefDraft)
    ensures
        draft@ == brief_draft(id@, row@),
{
    let titles: [&str; 2] = ["title", "case_title"];
    let statuses: [&str; 1] = ["status"];
    let priorities: [&str; 1] = ["priority"];
    let contexts: [&str; 2] = ["context", "description"];
    let recommendations: [&str; 1] = ["recommendation"];
    let budgets: [&str; 1] = ["budget_amount"];
    let rois: [&str; 1] = ["roi_12m"];
    let paybacks: [&str; 1] = ["payback_months"];
    let npvs: [&str; 1] = ["npv"];
    assert(titles@ =~= seq!["title", "case_title"]);
    assert(statuses@ =~= seq!["status"]);
    assert(priorities@ =~= seq!["priority"]);
    assert(contexts@ =~= seq!["context", "description"]);
    assert(recommendations@ =~= seq!["recommendation"]);
    assert(budgets@ =~= seq!["budget_amount"]);
    assert(rois@ =~= seq!["roi_12m"]);
    assert(paybacks@ =~= seq!["payback_months"]);
    assert(npvs@ =~= seq!["npv"]);
    BriefDraft {
        id: id.to_string(),
        title: pick_string_or(row, titles.as_slice(), "Decision Brief"),
        status: pick_string_or(row, statuses.as_slice(), "draft"),
        priority: pick_string_or(row, priorities.as_slice(), "medium"),
        created: match row.get("created_at") {
            Some(value) => Some(value.copy()),
            None => None,
        },
        context: pick_string_or(row, contexts.as_slice(), ""),
        recommendation: pick_string_or(row, recommendations.as_slice(), ""),
        budget: pick_amount(row, budgets.as_slice(), "500000.0"),
        roi: pick_amount(row, rois.as_slice(), "0.34"),
        payback_months: match pick_i64(row, paybacks.as_slice()) {
            Some(months) => months,
            None => 8,
        },
        npv: pick_amount(row, npvs.as_slice(), "125000.0"),
    }
}

/// What the amounts of a brief come to.
#[derive(Debug)]
pub struct BriefNumbers {
    pub budget: Real,
    pub roi: Real,
    pub npv: Real,
}

/// The options of a brief: the recommendation alone.
pub open spec fn options_json(recommendation: Seq<char>) -> JsonView {
    JsonView::Array(
        seq![
            JsonView::Object(
                map![
                    "label"@ => JsonView::text("Default"@),
                    "description"@ => JsonView::text(recommendation),
                ],
            ),
        ],
    )
}

/// A decision brief of live data. Where it is not known when the brief was made, it was made now.
pub open spec fn brief_document(
    draft: BriefDraftView,
    numbers: BriefNumbers,
    now: Seq<char>,
) -> JsonView {
    JsonView::Object(
        map![
            "id"@ => JsonView::text(draft.id),
            "title"@ => JsonView::text(draft.title),
            "status"@ => JsonView::text(draft.status),
            "priority"@ => JsonView::text(draft.priority),
            "created"@ => match draft.created {
                Some(value) => JsonView::Datum(value),
                None => JsonView::text(now),
            },
            "brief"@ => JsonView::Object(
                map![
                    "context"@ => JsonView::text(draft.context),
                    "options"@ => options_json(draft.recommendation),
                    "recommendation"@ => JsonView::text(draft.recommendation),
                ],
            ),
            "financialImpact"@ => JsonView::Object(
                map![
                    "totalBudget"@ => JsonView::Datum(
                        real_datum(numbers.budget.bits, numbers.budget.text@),
                    ),
                    "roi12m"@ => JsonView::Datum(real_datum(numbers.roi.bits, numbers.roi.text@)),
                    "paybackMonths"@ => JsonView::number(draft.payback_months),
                    "npv"@ => JsonView::Datum(real_datum(numbers.npv.bits, numbers.npv.text@)),
                ],
            ),
            "artifacts"@ => JsonView::Array(Seq::empty()),
            "evidence"@ => JsonView::Array(Seq::empty()),
            "rounds"@ => JsonView::Array(Seq::empty()),
            "forecasts"@ => JsonView::Array(Seq::empty()),
            "findings"@ => JsonView::Array(Seq::empty()),
            "audits"@ => JsonView::Array(Seq::empty()),
        ],
    )
}

impl BriefDraft {
    fn report_options(&self) -> (json: Json)
        ensures
            json@ == options_json(self.recommendation@),
    {
        let option = Object::new()
            .with("label", Json::text("Default"))
            .with("description", Json::text(self.recommendation.as_str()));
        let options = Array::new().with(Json::Object(option));
        assert(options@ =~= options_json(self.recommendation@)->Array_0);
        Json::Array(options)
    }

    /// The brief, by what its amounts come to.
    pub fn finish(&self, numbers: &BriefNumbers, now: &str) -> (json: Json)
        ensures
            json@ == brief_document(self@, *numbers, now@),
    {
        let created = match &self.created {
            Some(value) => Json::Datum(value.copy()),
            None => Json::text(now),
        };
        let brief = Object::new()
            .with("context", Json::text(self.context.as_str()))
            .with("options", self.report_options())
            .with("recommendation", Json::text(self.recommendation.as_str()));
        let impact = Object::new()
            .with("totalBudget", Json::Datum(numbers.budget.to_datum()))
            .with("roi12m", Json::Datum(numbers.roi.to_datum()))
            .with("paybackMonths", Json::number(self.payback_months))
            .with("npv", Json::Datum(numbers.npv.to_datum()));
        Json::Object(
            Object::new()
                .with("id", Json::text(self.id.as_str()))
                .with("title", Json::text(self.title.as_str()))
                .with("status", Json::text(self.status.as_str()))
                .with("priority", Json::text(self.priority.as_str()))
                .with("created", created)
                .with("brief", Json::Object(brief))
                .with("financialImpact", Json::Object(impact))
                .with("artifacts", Json::Array(Array::new()))
                .with("evidence", Json::Array(Array::new()))
                .with("rounds", Json::Array(Array::new()))
                .with("forecasts", Json::Array(Array::new()))
                .with("findings", Json::Array(Array::new()))
                .with("audits", Json::Array(Array::new())),
        )
    }
}

/// The statement that reads a brief.
pub open spec fn brief_query(id: Seq<char>) -> QueryView {
    text_query("multi_agent_cfo_os"@, DECISION_BRIEF@, id)
}

/// The brief that the statement gives.
pub open spec fn brief_plan(id: Seq<char>, reply: ReplyView) -> PlanView<BriefDraftView> {
    match reply {
        Err(_) => PlanView::Sample { document: sample_decision_brief(id) },
        Ok(briefs) => if briefs.len() == 0 {
            PlanView::Sample { document: sample_decision_brief(id) }
        } else {
            PlanView::Live { draft: brief_draft(id, briefs[0]) }
        },
    }
}

/// What a request for the decision brief `id` comes to.
pub open spec fn brief_answer(
    state: AppState,
    header: Option<Seq<u8>>,
    id: Seq<char>,
    replies: Replies,
) -> PlannedView<BriefDraftView> {
    if !admitted(opt_text(state.settings().api_key), header) {
        Err(not_admitted())
    } else {
        Ok(brief_plan(id, replies(0, brief_query(id))))
    }
}

/// The statements of a request for the decision brief `id`.
pub open spec fn brief_asked(
    state: AppState,
    header: Option<Seq<u8>>,
    id: Seq<char>,
) -> Seq<QueryView> {
    if admitted(opt_text(state.settings().api_key), header) {
        seq![brief_query(id)]
    } else {
        Seq::empty()
    }
}

/// A request for a decision brief that waits for its row.
#[derive(Debug)]
pub struct DecisionBrief {
    id: String,
}

/// Starts a request for the decision brief `decision_id`.
pub fn get_decision_brief(header: Option<&[u8]>, state: &AppState, decision_id: &str) -> (step: Step<
    DecisionBrief,
    Planned<BriefDraft>,
>)
    ensures
        step_wf(step),
        step is Ask == admitted(opt_text(state.settings().api_key), opt_bytes(header)),
        forall|replies: Replies| #[trigger]
            step_outcome(step, replies, 0) == brief_answer(
                *state,
                opt_bytes(header),
                decision_id@,
                replies,
            ),
        forall|replies: Replies| #[trigger]
            step_asked(step, replies, 0) =~= brief_asked(
                *state,
                opt_bytes(header),
                decision_id@,
            ),
{
    if let Err(error) = authorize(header, state) {
        return Step::Done { result: Err(error) };
    }
    Step::Ask {
        query: Query::with_text("multi_agent_cfo_os", DECISION_BRIEF, decision_id),
        next: DecisionBrief { id: decision_id.to_string() },
    }
}

impl Flow for DecisionBrief {
    type Outcome = Planned<BriefDraft>;

    type OutcomeView = PlannedView<BriefDraftView>;

    open spec fn outcome_view(outcome: Planned<BriefDraft>) -> PlannedView<BriefDraftView> {
        planned_view(outcome)
    }

    open spec fn wf(&self) -> bool {
        true
    }

    closed spec fn pending(&self) -> QueryView {
        brief_query(self.id@)
    }

    open spec fn parts(&self) -> nat {
        1
    }

    open spec fn left(&self) -> nat {
        1
    }

    closed spec fn outcome(&self, replies: Replies, n: nat) -> PlannedView<BriefDraftView> {
        Ok(brief_plan(self.id@, replies(n, brief_query(self.id@))))
    }

    closed spec fn asked(&self, replies: Replies, n: nat) -> Seq<QueryView> {
        seq![brief_query(self.id@)]
    }

    open spec fn writes() -> bool {
        false
    }

    proof fn pending_permitted(&self) {
        assert(DATABASES@[5]@ == "multi_agent_cfo_os"@);
    }

    fn resume(self, reply: Reply) -> (step: Step<DecisionBrief, Planned<BriefDraft>>) {
        let plan = match &reply {
            Ok(briefs) if briefs.len() > 0 => Plan::Live {
                draft: read_brief(self.id.as_str(), &briefs[0]),
            },
            _ => Plan::Sample { document: mock_decision_brief(self.id.as_str()) },
        };
        Step::Done { result: Ok(plan) }
    }
}

} // verus!
