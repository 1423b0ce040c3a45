//! The market radar.

use vstd::prelude::*;

use crate::auth::authorize;
#[allow(unused_imports)]
use crate::auth::{admitted, not_admitted, opt_bytes};
use crate::config::AppState;
#[allow(unused_imports)]
use crate::config::opt_text;
use crate::flow::{Flow, Replies, Step};
#[allow(unused_imports)]
use crate::flow::{step_asked, step_outcome, step_wf};
#[allow(unused_imports)]
use crate::identifiers::DATABASES;
use crate::json::{Array, Json, JsonView, Object, Row, RowView};
#[allow(unused_imports)]
use crate::json::rows_view;
use crate::lookup::{pick_amount, pick_string_or};
#[allow(unused_imports)]
use crate::lookup::{amount_texts, key_texts, text_or_default};
use crate::numbers::{Amount, Real};
#[allow(unused_imports)]
use crate::numbers::real_datum;
use crate::plan::{Plan, Planned, PlannedView};
#[allow(unused_imports)]
use crate::plan::{planned_view, PlanView};
use crate::query::{Query, QueryView, Reply};
#[allow(unused_imports)]
use crate::query::{plain_query, reply_view, ReplyView};
use crate::samples::{
    mock_alerts, mock_fed_policy, mock_indicators, mock_market_radar, mock_sector_rotation,
};
#[allow(unused_imports)]
use crate::samples::{
    sample_alerts, sample_fed_policy, sample_indicators, sample_market_radar,
    sample_sector_rotation,
};
use crate::sectors::{build_sector_rotation, group_by_sector, GroupView, SectorGroup, SectorNumbers};
#[allow(unused_imports)]
use crate::sectors::{groups_view, rotation, sector_groups};
use crate::sql::{HOLDINGS, INDICATORS};

verus! {

/// A market indicator whose value is still to be read.
#[derive(Debug)]
pub struct Indicator {
    pub name: String,
    pub value: Amount,
    pub signal: String,
    pub direction: String,
}

/// What an [`Indicator`] is.
pub struct IndicatorView {
    pub name: Seq<char>,
    pub value: Seq<Seq<char>>,
    pub signal: Seq<char>,
    pub direction: Seq<char>,
}

impl View for Indicator {
    type V = IndicatorView;

    open spec fn view(&self) -> IndicatorView {
        IndicatorView {
            name: self.name@,
            value: self.value@,
            signal: self.signal@,
            direction: self.direction@,
        }
    }
}

/// What each of `indicators` is.
pub open spec fn indicators_view(indicators: Seq<Indicator>) -> Seq<IndicatorView> {
    Seq::new(indicators.len(), |i: int| indicators[i]@)
}

/// The live data of the market radar.
#[derive(Debug)]
pub struct RadarDraft {
    pub indicators: Vec<Indicator>,
    pub groups: Vec<SectorGroup>,
}

/// What a [`RadarDraft`] is.
pub struct RadarDraftView {
    pub indicators: Seq<IndicatorView>,
    pub groups: Seq<GroupView>,
}

impl View for RadarDraft {
    type V = RadarDraftView;

    open spec fn view(&self) -> RadarDraftView {
        RadarDraftView {
            indicators: indicators_view(self.indicators@),
            groups: groups_view(self.groups@),
        }
    }
}

/// The indicator that a row gives.
pub open spec fn row_indicator(row: RowView) -> IndicatorView {
    IndicatorView {
        name: text_or_default(row, seq!["indicator_name", "name"], "Unknown"@),
        value: amount_texts(row, key_texts(seq!["value"]), "0.0"@),
        signal: text_or_default(row, seq!["signal"], "neutral"@),
        direction: text_or_default(row, seq!["direction"], "flat"@),
    }
}

fn read_indicator(row: &Row) -> (indicator: Indicator)
    ensures
        indicator@ == row_indicator(row@),
{
    let names: [&str; 2] = ["indicator_name", "name"];
    let values: [&str; 1] = ["value"];
    let signals: [&str; 1] = ["signal"];
    let directions: [&str; 1] = ["direction"];
    assert(names@ =~= seq!["indicator_name", "name"]);
    assert(values@ =~= seq!["value"]);
    assert(signals@ =~= seq!["signal"]);
    assert(directions@ =~= seq!["direction"]);
    Indicator {
        name: pick_string_or(row, names.as_slice(), "Unknown"),
        value: pick_amount(row, values.as_slice(), "0.0"),
        signal: pick_string_or(row, signals.as_slice(), "neutral"),
        direction: pick_string_or(row, directions.as_slice(), "flat"),
    }
}

/// The live data that the indicators and the holdings give.
pub open spec fn radar_draft(indicators: Seq<RowView>, holdings: Seq<RowView>) -> RadarDraftView {
    RadarDraftView {
        indicators: Seq::new(indicators.len(), |i: int| row_indicator(indicators[i])),
        groups: sector_groups(holdings),
    }
}

/// The market radar that the indicators and the holdings give.
pub open spec fn radar_plan(indicators: Seq<RowView>, holdings: Seq<RowView>) -> PlanView<
    RadarDraftView,
> {
    if indicators.len() == 0 && holdings.len() == 0 {
        PlanView::Sample { document: sample_market_radar() }
    } else {
        PlanView::Live { draft: radar_draft(indicators, holdings) }
    }
}

fn plan_radar(indicators: &Vec<Row>, holdings: &Vec<Row>) -> (plan: Plan<RadarDraft>)
    ensures
        plan@ == radar_plan(rows_view(indicators@), rows_view(holdings@)),
{
    if indicators.len() == 0 && holdings.len() == 0 {
        return Plan::Sample { document: mock_market_radar() };
    }
    let mut list: Vec<Indicator> = Vec::new();
    for i in 0..indicators.len()
        invariant
            list@.len() == i,
            forall|k: int| 0 <= k < i ==> (#[trigger] list@[k])@ == row_indicator(indicators@[k]@),
    {
        list.push(read_indicator(&indicators[i]));
    }
    let draft = RadarDraft { indicators: list, groups: group_by_sector(holdings) };
    assert(draft@.indicators =~= radar_draft(
        rows_view(indicators@),
        rows_view(holdings@),
    ).indicators);
    Plan::Live { draft }
}

/// An indicator as it is reported.
pub open spec fn indicator_json(indicator: IndicatorView, value: Real) -> JsonView {
    JsonView::Object(
        map![
            "name"@ => JsonView::text(indicator.name),
            "value"@ => JsonView::Datum(real_datum(value.bits, value.text@)),
            "signal"@ => JsonView::text(indicator.signal),
            "direction"@ => JsonView::text(indicator.direction),
        ],
    )
}

/// The indicators as they are reported; the samples where there are none.
pub open spec fn indicators_json(
    indicators: Seq<IndicatorView>,
    values: Seq<Real>,
) -> JsonView {
    if indicators.len() == 0 {
        sample_indicators()
    } else {
        JsonView::Array(
            Seq::new(indicators.len(), |i: int| indicator_json(indicators[i], values[i])),
        )
    }
}

/// The sectors as they are reported; the samples where there are none.
pub open spec fn rotation_json(groups: Seq<GroupView>, numbers: Seq<SectorNumbers>) -> JsonView {
    if rotation(groups, numbers).len() == 0 {
        sample_sector_rotation()
    } else {
        JsonView::Array(rotation(groups, numbers))
    }
}

/// The market radar of live data.
pub open spec fn radar_document(
    draft: RadarDraftView,
    values: Seq<Real>,
    numbers: Seq<SectorNumbers>,
    now: Seq<char>,
) -> JsonView {
    JsonView::Object(
        map![
            "lastUpdated"@ => JsonView::text(now),
            "sentiment"@ => JsonView::Object(
                map![
                    "composite"@ => JsonView::decimal("0.62"@),
                    "label"@ => JsonView::text("CAUTIOUSLY OPTIMISTIC"@),
                    "indicators"@ => indicators_json(draft.indicators, values),
                ],
            ),
            "fedPolicy"@ => sample_fed_policy(),
            "sectorRotation"@ => rotation_json(draft.groups, numbers),
            "alerts"@ => sample_alerts(),
        ],
    )
}

impl RadarDraft {
    fn report_indicators(&self, values: &Vec<Real>) -> (json: Json)
        requires
            self.indicators@.len() == values@.len(),
        ensures
            json@ == indicators_json(self@.indicators, values@),
    {
        if self.indicators.len() == 0 {
            return mock_indicators();
        }
        let mut list = Array::new();
        let ghost all = indicators_json(self@.indicators, values@)->Array_0;
        for i in 0..self.indicators.len()
            invariant
                self.indicators@.len() == values@.len(),
                self.indicators@.len() > 0,
                all == indicators_json(self@.indicators, values@)->Array_0,
                list@ == all.take(i as int),
        {
            let indicator: &Indicator = &self.indicators[i];
            list.push(
                Json::Object(
                    Object::new()
                        .with("name", Json::text(indicator.name.as_str()))
                        .with("value", Json::Datum(values[i].to_datum()))
                        .with("signal", Json::text(indicator.signal.as_str()))
                        .with("direction", Json::text(indicator.direction.as_str())),
                ),
            );
            assert(list@ =~= all.take(i + 1));
        }
        assert(all.take(all.len() as int) =~= all);
        Json::Array(list)
    }

    /// The market radar, by the values of the indicators and what the holdings of each sector come
    /// to.
    pub fn finish(&self, values: &Vec<Real>, numbers: &Vec<SectorNumbers>, now: &str) -> (json:
        Json)
        requires
            self.indicators@.len() == values@.len(),
            self.groups@.len() == numbers@.len(),
        ensures
            json@ == radar_document(self@, values@, numbers@, now@),
    {
        let sectors = build_sector_rotation(&self.groups, numbers);
        let rotation = if sectors.len() == 0 {
            mock_sector_rotation()
        } else {
            Json::Array(sectors)
        };
        let sentiment = Object::new()
            .with("composite", Json::decimal("0.62"))
            .with("label", Json::text("CAUTIOUSLY OPTIMISTIC"))
            .with("indicators", self.report_indicators(values));
        Json::Object(
            Object::new()
                .with("lastUpdated", Json::text(now))
                .with("sentiment", Json::Object(sentiment))
                .with("fedPolicy", mock_fed_policy())
                .with("sectorRotation", rotation)
                .with("alerts", mock_alerts()),
        )
    }
}

/// The statement that reads the indicators.
pub open spec fn indicators_query() -> QueryView {
    plain_query("market_sentiment_fedgpt"@, INDICATORS@)
}

/// The statement that reads the holdings.
pub open spec fn holdings_query() -> QueryView {
    plain_query("hedge_fund_13f_radar"@, HOLDINGS@)
}

/// The rows of a reply; none where the statement failed.
pub open spec fn rows_or_none(reply: ReplyView) -> Seq<RowView> {
    match reply {
        Ok(rows) => rows,
        Err(_) => Seq::empty(),
    }
}

/// What a request for the market radar comes to.
pub open spec fn radar_answer(
    state: AppState,
    header: Option<Seq<u8>>,
    replies: Replies,
) -> PlannedView<RadarDraftView> {
    if !admitted(opt_text(state.settings().api_key), header) {
        Err(not_admitted())
    } else {
        match replies(0, indicators_query()) {
            Err(_) => Ok(PlanView::Sample { document: sample_market_radar() }),
            Ok(indicators) => Ok(
                radar_plan(indicators, rows_or_none(replies(1, holdings_query()))),
            ),
        }
    }
}

/// The statements of a request for the market radar: the holdings are read where the indicators
/// were.
pub open spec fn radar_asked(
    state: AppState,
    header: Option<Seq<u8>>,
    replies: Replies,
) -> Seq<QueryView> {
    if !admitted(opt_text(state.settings().api_key), header) {
        Seq::empty()
    } else if replies(0, indicators_query()) is Ok {
        seq![indicators_query(), holdings_query()]
    } else {
        seq![indicators_query()]
    }
}

/// A request for the market radar that waits for a statement.
#[derive(Debug)]
pub enum MarketRadar {
    /// The indicators are not read yet.
    Indicators,
    /// The holdings are not read yet.
    Holdings { indicators: Vec<Row> },
}

/// Starts a request for the market radar.
pub fn get_market_radar(header: Option<&[u8]>, state: &AppState) -> (step: Step<
    MarketRadar,
    Planned<RadarDraft>,
>)
    ensures
        step_wf(step),
        step is Ask == admitted(opt_text(state.settings().api_key), opt_bytes(header)),
        forall|replies: Replies| #[trigger]
            step_outcome(step, replies, 0) == radar_answer(*state, opt_bytes(header), replies),
        forall|replies: Replies| #[trigger]
            step_asked(step, replies, 0) =~= radar_asked(*state, opt_bytes(header), replies),
{
    if let Err(error) = authorize(header, state) {
        return Step::Done { result: Err(error) };
    }
    Step::Ask {
        query: Query::plain("market_sentiment_fedgpt", INDICATORS),
        next: MarketRadar::Indicators,
    }
}

impl Flow for MarketRadar {
    type Outcome = Planned<RadarDraft>;

    type OutcomeView = PlannedView<RadarDraftView>;

    open spec fn outcome_view(outcome: Planned<RadarDraft>) -> PlannedView<RadarDraftView> {
        planned_view(outcome)
    }

    open spec fn wf(&self) -> bool {
        true
    }

    open spec fn pending(&self) -> QueryView {
        match self {
            MarketRadar::Indicators => indicators_query(),
            MarketRadar::Holdings { indicators } => holdings_query(),
        }
    }

    open spec fn parts(&self) -> nat {
        1
    }

    open spec fn left(&self) -> nat {
        match self {
            MarketRadar::Indicators => 2,
            MarketRadar::Holdings { indicators } => 1,
        }
    }

    open spec fn outcome(&self, replies: Replies, n: nat) -> PlannedView<RadarDraftView> {
        match self {
            MarketRadar::Indicators => match replies(n, indicators_query()) {
                Err(_) => Ok(PlanView::Sample { document: sample_market_radar() }),
                Ok(indicators) => Ok(
                    radar_plan(indicators, rows_or_none(replies(n + 1, holdings_query()))),
                ),
            },
            MarketRadar::Holdings { indicators } => Ok(
                radar_plan(
                    rows_view(indicators@),
                    rows_or_none(replies(n, holdings_query())),
                ),
            ),
        }
    }

    open spec fn asked(&self, replies: Replies, n: nat) -> Seq<QueryView> {
        match self {
            MarketRadar::Indicators => if replies(n, indicators_query()) is Ok {
                seq![indicators_query(), holdings_query()]
            } else {
                seq![indicators_query()]
            },
            MarketRadar::Holdings { indicators } => seq![holdings_query()],
        }
    }

    open spec fn writes() -> bool {
        false
    }

    proof fn pending_permitted(&self) {
        assert(DATABASES@[2]@ == "hedge_fund_13f_radar"@);
        assert(DATABASES@[3]@ == "market_sentiment_fedgpt"@);
    }

    fn resume(self, reply: Reply) -> (step: Step<MarketRadar, Planned<RadarDraft>>) {
        match self {
            MarketRadar::Indicators => match reply {
                Err(_) => Step::Done { result: Ok(Plan::Sample { document: mock_market_radar() }) },
                Ok(indicators) => Step::Ask {
                    query: Query::plain("hedge_fund_13f_radar", HOLDINGS),
                    next: MarketRadar::Holdings { indicators },
                },
            },
            MarketRadar::Holdings { indicators } => {
                let holdings: Vec<Row> = match reply {
                    Ok(rows) => rows,
                    Err(_) => Vec::new(),
                };
                assert(rows_view(holdings@) =~= rows_or_none(reply_view(reply)));
                Step::Done { result: Ok(plan_radar(&indicators, &holdings)) }
            },
        }
    }
}

} // verus!
