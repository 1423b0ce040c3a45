//! The dashboards that are shown while no live data can be had.

use vstd::prelude::*;

use crate::json::{Array, Json, JsonView, Object};

verus! {

/// Market indicators.
pub open spec fn sample_indicators() -> JsonView {
    JsonView::Array(
        Seq::empty()
            .push(JsonView::Object(
                map![
                    "name"@ => JsonView::text("VIX"@),
                    "value"@ => JsonView::decimal("16.4"@),
                    "signal"@ => JsonView::text("neutral"@),
                    "direction"@ => JsonView::text("flat"@),
                ],
            ))
            .push(JsonView::Object(
                map![
                    "name"@ => JsonView::text("Credit Spreads (IG)"@),
                    "value"@ => JsonView::number(98),
                    "signal"@ => JsonView::text("bullish"@),
                    "direction"@ => JsonView::text("tightening"@),
                ],
            ))
            .push(JsonView::Object(
                map![
                    "name"@ => JsonView::text("10Y-2Y Spread"@),
                    "value"@ => JsonView::number(-18),
                    "signal"@ => JsonView::text("bearish"@),
                    "direction"@ => JsonView::text("flat"@),
                ],
            ))
            .push(JsonView::Object(
                map![
                    "name"@ => JsonView::text("DXY"@),
                    "value"@ => JsonView::decimal("104.2"@),
                    "signal"@ => JsonView::text("neutral"@),
                    "direction"@ => JsonView::text("weakening"@),
                ],
            ))
            .push(JsonView::Object(
                map![
                    "name"@ => JsonView::text("Put/Call Ratio"@),
                    "value"@ => JsonView::decimal("0.85"@),
                    "signal"@ => JsonView::text("bullish"@),
                    "direction"@ => JsonView::text("declining"@),
                ],
            )),
    )
}

/// Market indicators.
pub fn mock_indicators() -> (json: Json)
    ensures
        json@ == sample_indicators(),
{
    Json::Array(
        Array::new()
            .with(Json::Object(
                Object::new()
                    .with("name", Json::text("VIX"))
                    .with("value", Json::decimal("16.4"))
                    .with("signal", Json::text("neutral"))
                    .with("direction", Json::text("flat")),
            ))
            .with(Json::Object(
                Object::new()
                    .with("name", Json::text("Credit Spreads (IG)"))
                    .with("value", Json::number(98))
                    .with("signal", Json::text("bullish"))
                    .with("direction", Json::text("tightening")),
            ))
            .with(Json::Object(
                Object::new()
                    .with("name", Json::text("10Y-2Y Spread"))
                    .with("value", Json::number(-18))
                    .with("signal", Json::text("bearish"))
                    .with("direction", Json::text("flat")),
            ))
            .with(Json::Object(
                Object::new()
                    .with("name", Json::text("DXY"))
                    .with("value", Json::decimal("104.2"))
                    .with("signal", Json::text("neutral"))
                    .with("direction", Json::text("weakening")),
            ))
            .with(Json::Object(
                Object::new()
                    .with("name", Json::text("Put/Call Ratio"))
                    .with("value", Json::decimal("0.85"))
                    .with("signal", Json::text("bullish"))
                    .with("direction", Json::text("declining")),
            )),
    )
}

/// The policy of the central bank.
pub open spec fn sample_fed_policy() -> JsonView {
    JsonView::Object(
        map![
            "currentRate"@ => JsonView::text("5.25-5.50"@),
            "nextMeeting"@ => JsonView::text("2026-06-18"@),
            "impliedCut"@ => JsonView::decimal("0.25"@),
            "stance"@ => JsonView::text("HAWKISH HOLD"@),
        ],
    )
}

/// The policy of the central bank.
pub fn mock_fed_policy() -> (json: Json)
    ensures
        json@ == sample_fed_policy(),
{
    Json::Object(
        Object::new()
            .with("currentRate", Json::text("5.25-5.50"))
            .with("nextMeeting", Json::text("2026-06-18"))
            .with("impliedCut", Json::decimal("0.25"))
            .with("stance", Json::text("HAWKISH HOLD")),
    )
}

/// How money moves between sectors.
pub open spec fn sample_sector_rotation() -> JsonView {
    JsonView::Array(
        Seq::empty()
            .push(JsonView::Object(
                map![
                    "sector"@ => JsonView::text("Technology"@),
                    "flow"@ => JsonView::number(4200000000),
                    "direction"@ => JsonView::text("inflow"@),
                    "weight"@ => JsonView::decimal("29.1"@),
                ],
            ))
            .push(JsonView::Object(
                map![
                    "sector"@ => JsonView::text("Healthcare"@),
                    "flow"@ => JsonView::number(1800000000),
                    "direction"@ => JsonView::text("inflow"@),
                    "weight"@ => JsonView::decimal("13.4"@),
                ],
            ))
            .push(JsonView::Object(
                map![
                    "sector"@ => JsonView::text("Financials"@),
                    "flow"@ => JsonView::number(1100000000),
                    "direction"@ => JsonView::text("inflow"@),
                    "weight"@ => JsonView::decimal("12.8"@),
                ],
            )),
    )
}

/// How money moves between sectors.
pub fn mock_sector_rotation() -> (json: Json)
    ensures
        json@ == sample_sector_rotation(),
{
    Json::Array(
        Array::new()
            .with(Json::Object(
                Object::new()
                    .with("sector", Json::text("Technology"))
                    .with("flow", Json::number(4200000000))
                    .with("direction", Json::text("inflow"))
                    .with("weight", Json::decimal("29.1")),
            ))
            .with(Json::Object(
                Object::new()
                    .with("sector", Json::text("Healthcare"))
                    .with("flow", Json::number(1800000000))
                    .with("direction", Json::text("inflow"))
                    .with("weight", Json::decimal("13.4")),
            ))
            .with(Json::Object(
                Object::new()
                    .with("sector", Json::text("Financials"))
                    .with("flow", Json::number(1100000000))
                    .with("direction", Json::text("inflow"))
                    .with("weight", Json::decimal("12.8")),
            )),
    )
}

/// What to look out for.
pub open spec fn sample_alerts() -> JsonView {
    JsonView::Array(
        Seq::empty()
            .push(JsonView::Object(
                map![
                    "type"@ => JsonView::text("warning"@),
                    "message"@ => JsonView::text("Yield curve inversion deepening"@),
                    "since"@ => JsonView::text("2026-05-10"@),
                ],
            ))
            .push(JsonView::Object(
                map![
                    "type"@ => JsonView::text("info"@),
                    "message"@ => JsonView::text("Fed funds futures imply 78% probability of July cut"@),
                    "since"@ => JsonView::text("2026-05-14"@),
                ],
            )),
    )
}

/// What to look out for.
pub fn mock_alerts() -> (json: Json)
    ensures
        json@ == sample_alerts(),
{
    Json::Array(
        Array::new()
            .with(Json::Object(
                Object::new()
                    .with("type", Json::text("warning"))
                    .with("message", Json::text("Yield curve inversion deepening"))
                    .with("since", Json::text("2026-05-10")),
            ))
            .with(Json::Object(
                Object::new()
                    .with("type", Json::text("info"))
                    .with("message", Json::text("Fed funds futures imply 78% probability of July cut"))
                    .with("since", Json::text("2026-05-14")),
            )),
    )
}

/// The market radar.
pub open spec fn sample_market_radar() -> JsonView {
    JsonView::Object(
        map![
            "lastUpdated"@ => JsonView::text("2026-05-15T00:00:00Z"@),
            "sentiment"@ => JsonView::Object(
                map![
                    "composite"@ => JsonView::decimal("0.62"@),
                    "label"@ => JsonView::text("CAUTIOUSLY OPTIMISTIC"@),
                    "indicators"@ => sample_indicators(),
                ],
            ),
            "fedPolicy"@ => sample_fed_policy(),
            "sectorRotation"@ => sample_sector_rotation(),
            "alerts"@ => sample_alerts(),
        ],
    )
}

/// The market radar.
pub fn mock_market_radar() -> (json: Json)
    ensures
        json@ == sample_market_radar(),
{
    Json::Object(
        Object::new()
            .with("lastUpdated", Json::text("2026-05-15T00:00:00Z"))
            .with("sentiment", Json::Object(
                Object::new()
                    .with("composite", Json::decimal("0.62"))
                    .with("label", Json::text("CAUTIOUSLY OPTIMISTIC"))
                    .with("indicators", mock_indicators()),
            ))
            .with("fedPolicy", mock_fed_policy())
            .with("sectorRotation", mock_sector_rotation())
            .with("alerts", mock_alerts()),
    )
}

/// The cash forecast.
pub open spec fn sample_cash_forecast() -> JsonView {
    JsonView::Object(
        map![
            "currentBalance"@ => JsonView::number(3200000),
            "minProjected"@ => JsonView::number(1850000),
            "minWeek"@ => JsonView::number(8),
            "endPosition"@ => JsonView::number(2750000),
            "riskWeeks"@ => JsonView::Array(
                Seq::empty()
                    .push(JsonView::number(6))
                    .push(JsonView::number(7))
                    .push(JsonView::number(8)),
            ),
            "hasCriticalRisk"@ => JsonView::flag(false),
            "hasWorkingCapitalRisk"@ => JsonView::flag(true),
        ],
    )
}

/// The cash forecast.
pub fn mock_cash_forecast() -> (json: Json)
    ensures
        json@ == sample_cash_forecast(),
{
    Json::Object(
        Object::new()
            .with("currentBalance", Json::number(3200000))
            .with("minProjected", Json::number(1850000))
            .with("minWeek", Json::number(8))
            .with("endPosition", Json::number(2750000))
            .with("riskWeeks", Json::Array(
                Array::new()
                    .with(Json::number(6))
                    .with(Json::number(7))
                    .with(Json::number(8)),
            ))
            .with("hasCriticalRisk", Json::flag(false))
            .with("hasWorkingCapitalRisk", Json::flag(true)),
    )
}

/// What would free working capital.
pub open spec fn sample_recommendations() -> JsonView {
    JsonView::Array(
        Seq::empty()
            .push(JsonView::Object(
                map![
                    "action"@ => JsonView::text("Accelerate AR collection on invoices >60 days"@),
                    "savings"@ => JsonView::number(45000),
                ],
            ))
            .push(JsonView::Object(
                map![
                    "action"@ => JsonView::text("Extend DPO with top 5 vendors by 15 days"@),
                    "savings"@ => JsonView::number(32000),
                ],
            )),
    )
}

/// What would free working capital.
pub fn mock_recommendations() -> (json: Json)
    ensures
        json@ == sample_recommendations(),
{
    Json::Array(
        Array::new()
            .with(Json::Object(
                Object::new()
                    .with("action", Json::text("Accelerate AR collection on invoices >60 days"))
                    .with("savings", Json::number(45000)),
            ))
            .with(Json::Object(
                Object::new()
                    .with("action", Json::text("Extend DPO with top 5 vendors by 15 days"))
                    .with("savings", Json::number(32000)),
            )),
    )
}

/// The working capital.
pub open spec fn sample_working_capital() -> JsonView {
    JsonView::Object(
        map![
            "dso"@ => JsonView::number(42),
            "dpo"@ => JsonView::number(58),
            "dio"@ => JsonView::number(31),
            "ccc"@ => JsonView::number(15),
            "status"@ => JsonView::text("healthy"@),
            "score"@ => JsonView::number(78),
            "recommendations"@ => sample_recommendations(),
        ],
    )
}

/// The working capital.
pub fn mock_working_capital() -> (json: Json)
    ensures
        json@ == sample_working_capital(),
{
    Json::Object(
        Object::new()
            .with("dso", Json::number(42))
            .with("dpo", Json::number(58))
            .with("dio", Json::number(31))
            .with("ccc", Json::number(15))
            .with("status", Json::text("healthy"))
            .with("score", Json::number(78))
            .with("recommendations", mock_recommendations()),
    )
}

/// The finance cockpit.
pub open spec fn sample_finance_cockpit() -> JsonView {
    JsonView::Object(
        map![
            "budget"@ => JsonView::Object(
                map![
                    "total"@ => JsonView::number(2500000),
                    "spent"@ => JsonView::number(1420000),
                    "remaining"@ => JsonView::number(1080000),
                    "period"@ => JsonView::text("Q2 2026"@),
                ],
            ),
            "burnRate"@ => JsonView::Object(
                map![
                    "monthly"@ => JsonView::number(178000),
                    "weekly"@ => JsonView::number(44500),
                    "trend"@ => JsonView::text("stable"@),
                    "runwayMonths"@ => JsonView::number(6),
                ],
            ),
            "cashForecast"@ => sample_cash_forecast(),
            "workingCapital"@ => sample_working_capital(),
        ],
    )
}

/// The finance cockpit.
pub fn mock_finance_cockpit() -> (json: Json)
    ensures
        json@ == sample_finance_cockpit(),
{
    Json::Object(
        Object::new()
            .with("budget", Json::Object(
                Object::new()
                    .with("total", Json::number(2500000))
                    .with("spent", Json::number(1420000))
                    .with("remaining", Json::number(1080000))
                    .with("period", Json::text("Q2 2026")),
            ))
            .with("burnRate", Json::Object(
                Object::new()
                    .with("monthly", Json::number(178000))
                    .with("weekly", Json::number(44500))
                    .with("trend", Json::text("stable"))
                    .with("runwayMonths", Json::number(6)),
            ))
            .with("cashForecast", mock_cash_forecast())
            .with("workingCapital", mock_working_capital()),
    )
}

/// The decision brief `decision_id`.
pub open spec fn sample_decision_brief(decision_id: Seq<char>) -> JsonView {
    JsonView::Object(
        map![
            "id"@ => JsonView::text(decision_id),
            "title"@ => JsonView::text("Q2 Capex Allocation Review"@),
            "status"@ => JsonView::text("in_review"@),
            "priority"@ => JsonView::text("high"@),
            "created"@ => JsonView::text("2026-05-10T14:30:00Z"@),
            "brief"@ => JsonView::Object(
                map![
                    "context"@ => JsonView::text("Review of proposed capital expenditure allocation for Q2 2026 across three major initiatives."@),
                    "options"@ => JsonView::Array(
                        Seq::empty()
                            .push(JsonView::Object(
                                map![
                                    "label"@ => JsonView::text("Option A"@),
                                    "description"@ => JsonView::text("Prioritize infrastructure scaling (60% infra, 25% product, 15% reserve)"@),
                                ],
                            ))
                            .push(JsonView::Object(
                                map![
                                    "label"@ => JsonView::text("Option B"@),
                                    "description"@ => JsonView::text("Balanced growth approach (40% infra, 40% product, 20% reserve)"@),
                                ],
                            ))
                            .push(JsonView::Object(
                                map![
                                    "label"@ => JsonView::text("Option C"@),
                                    "description"@ => JsonView::text("Product-first strategy (25% infra, 55% product, 20% reserve)"@),
                                ],
                            )),
                    ),
                    "recommendation"@ => JsonView::text("Option B recommended based on current market conditions and cash flow projections."@),
                ],
            ),
            "financialImpact"@ => JsonView::Object(
                map![
                    "totalBudget"@ => JsonView::number(500000),
                    "roi12m"@ => JsonView::decimal("0.34"@),
                    "paybackMonths"@ => JsonView::number(8),
                    "npv"@ => JsonView::number(125000),
                ],
            ),
            "evidence"@ => JsonView::Array(
                Seq::empty()
                    .push(JsonView::Object(
                        map![
                            "source"@ => JsonView::text("market_sentiment_fedgpt"@),
                            "summary"@ => JsonView::text("Market conditions favor balanced growth"@),
                        ],
                    ))
                    .push(JsonView::Object(
                        map![
                            "source"@ => JsonView::text("closed_loop_finance"@),
                            "summary"@ => JsonView::text("Cash runway supports moderate investment"@),
                        ],
                    )),
            ),
            "approvalChain"@ => JsonView::Array(
                Seq::empty()
                    .push(JsonView::text("CFO"@))
                    .push(JsonView::text("Board"@))
                    .push(JsonView::text("Audit Committee"@)),
            ),
        ],
    )
}

/// The decision brief `decision_id`.
pub fn mock_decision_brief(decision_id: &str) -> (json: Json)
    ensures
        json@ == sample_decision_brief(decision_id@),
{
    Json::Object(
        Object::new()
            .with("id", Json::text(decision_id))
            .with("title", Json::text("Q2 Capex Allocation Review"))
            .with("status", Json::text("in_review"))
            .with("priority", Json::text("high"))
            .with("created", Json::text("2026-05-10T14:30:00Z"))
            .with("brief", Json::Object(
                Object::new()
                    .with("context", Json::text("Review of proposed capital expenditure allocation for Q2 2026 across three major initiatives."))
                    .with("options", Json::Array(
                        Array::new()
                            .with(Json::Object(
                                Object::new()
                                    .with("label", Json::text("Option A"))
                                    .with("description", Json::text("Prioritize infrastructure scaling (60% infra, 25% product, 15% reserve)")),
                            ))
                            .with(Json::Object(
                                Object::new()
                                    .with("label", Json::text("Option B"))
                                    .with("description", Json::text("Balanced growth approach (40% infra, 40% product, 20% reserve)")),
                            ))
                            .with(Json::Object(
                                Object::new()
                                    .with("label", Json::text("Option C"))
                                    .with("description", Json::text("Product-first strategy (25% infra, 55% product, 20% reserve)")),
                            )),
                    ))
                    .with("recommendation", Json::text("Option B recommended based on current market conditions and cash flow projections.")),
            ))
            .with("financialImpact", Json::Object(
                Object::new()
                    .with("totalBudget", Json::number(500000))
                    .with("roi12m", Json::decimal("0.34"))
                    .with("paybackMonths", Json::number(8))
                    .with("npv", Json::number(125000)),
            ))
            .with("evidence", Json::Array(
                Array::new()
                    .with(Json::Object(
                        Object::new()
                            .with("source", Json::text("market_sentiment_fedgpt"))
                            .with("summary", Json::text("Market conditions favor balanced growth")),
                    ))
                    .with(Json::Object(
                        Object::new()
                            .with("source", Json::text("closed_loop_finance"))
                            .with("summary", Json::text("Cash runway supports moderate investment")),
                    )),
            ))
            .with("approvalChain", Json::Array(
                Array::new()
                    .with(Json::text("CFO"))
                    .with(Json::text("Board"))
                    .with(Json::text("Audit Committee")),
            )),
    )
}

/// The dashboard of the battery plant.
pub open spec fn sample_battery_erp_dashboard() -> JsonView {
    JsonView::Object(
        map![
            "lastUpdated"@ => JsonView::text("2026-05-15T00:00:00Z"@),
            "inventory"@ => JsonView::Object(
                map![
                    "totalUnits"@ => JsonView::number(12450),
                    "incoming"@ => JsonView::number(3200),
                    "outgoing"@ => JsonView::number(2870),
                    "lowStockAlerts"@ => JsonView::number(3),
                ],
            ),
            "quality"@ => JsonView::Object(
                map![
                    "passRate"@ => JsonView::decimal("97.3"@),
                    "rejectRate"@ => JsonView::decimal("1.2"@),
                    "pendingInspection"@ => JsonView::number(180),
                    "avgCycleTime"@ => JsonView::decimal("4.2"@),
                ],
            ),
            "supplyChain"@ => JsonView::Object(
                map![
                    "activeOrders"@ => JsonView::number(24),
                    "onTimeDelivery"@ => JsonView::decimal("91.5"@),
                    "supplierIssues"@ => JsonView::number(2),
                    "leadTimeDays"@ => JsonView::number(14),
                ],
            ),
            "production"@ => JsonView::Object(
                map![
                    "dailyOutput"@ => JsonView::number(890),
                    "targetOutput"@ => JsonView::number(950),
                    "utilization"@ => JsonView::decimal("93.7"@),
                    "downtimeHours"@ => JsonView::decimal("1.8"@),
                ],
            ),
            "hazmat"@ => JsonView::Object(
                map![
                    "activeManifests"@ => JsonView::number(7),
                    "compliant"@ => JsonView::flag(true),
                    "nextAudit"@ => JsonView::text("2026-06-01"@),
                ],
            ),
        ],
    )
}

/// The dashboard of the battery plant.
pub fn mock_battery_erp_dashboard() -> (json: Json)
    ensures
        json@ == sample_battery_erp_dashboard(),
{
    Json::Object(
        Object::new()
            .with("lastUpdated", Json::text("2026-05-15T00:00:00Z"))
            .with("inventory", Json::Object(
                Object::new()
                    .with("totalUnits", Json::number(12450))
                    .with("incoming", Json::number(3200))
                    .with("outgoing", Json::number(2870))
                    .with("lowStockAlerts", Json::number(3)),
            ))
            .with("quality", Json::Object(
                Object::new()
                    .with("passRate", Json::decimal("97.3"))
                    .with("rejectRate", Json::decimal("1.2"))
                    .with("pendingInspection", Json::number(180))
                    .with("avgCycleTime", Json::decimal("4.2")),
            ))
            .with("supplyChain", Json::Object(
                Object::new()
                    .with("activeOrders", Json::number(24))
                    .with("onTimeDelivery", Json::decimal("91.5"))
                    .with("supplierIssues", Json::number(2))
                    .with("leadTimeDays", Json::number(14)),
            ))
            .with("production", Json::Object(
                Object::new()
                    .with("dailyOutput", Json::number(890))
                    .with("targetOutput", Json::number(950))
                    .with("utilization", Json::decimal("93.7"))
                    .with("downtimeHours", Json::decimal("1.8")),
            ))
            .with("hazmat", Json::Object(
                Object::new()
                    .with("activeManifests", Json::number(7))
                    .with("compliant", Json::flag(true))
                    .with("nextAudit", Json::text("2026-06-01")),
            )),
    )
}

} // verus!
