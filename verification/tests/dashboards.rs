use std::sync::Arc;

use db_proxy::battery::get_battery_erp_dashboard;
use db_proxy::brief::{get_decision_brief, BriefNumbers};
use db_proxy::cockpit::{get_finance_cockpit, BudgetNumbers};
use db_proxy::config::Environment;
use db_proxy::error::Status;
use db_proxy::flow::{Flow, Step};
use db_proxy::json::{Datum, Json, Row};
use db_proxy::numbers::Real;
use db_proxy::plan::{Plan, Planned};
use db_proxy::query::{Query, Reply};
use db_proxy::radar::get_market_radar;
use db_proxy::samples::{
    mock_battery_erp_dashboard, mock_decision_brief, mock_finance_cockpit, mock_market_radar,
};
use db_proxy::sectors::{build_sector_rotation, group_by_sector, SectorNumbers};
use db_proxy::{ApiError, AppState, Config};
use serde_json::Value;

fn state(key: Option<&str>) -> AppState {
    AppState::new(Arc::new(Config::from_env(Environment {
        port: None,
        api_key: key.map(|k| k.to_string()),
        cockroach_host: None,
        cockroach_port: None,
        cockroach_user: None,
        cockroach_password: None,
        cockroach_ssl: None,
    })))
}

fn run<F: Flow>(
    start: Step<F, F::Outcome>,
    mut answer: impl FnMut(&Query) -> Reply,
) -> (F::Outcome, Vec<Query>) {
    let mut asked = Vec::new();
    let mut step = start;
    loop {
        match step {
            Step::Ask { query, next } => {
                let reply = answer(&query);
                asked.push(query);
                step = next.resume(reply);
            }
            Step::Done { result } => return (result, asked),
        }
    }
}

fn value(json: &Json) -> Value {
    match json {
        Json::Datum(Datum::Null) => Value::Null,
        Json::Datum(Datum::Bool(b)) => Value::from(*b),
        Json::Datum(Datum::Int(n)) => Value::from(*n),
        Json::Datum(Datum::Uint(n)) => Value::from(*n),
        Json::Datum(Datum::Text(t)) => Value::from(t.as_str()),
        Json::Datum(Datum::Decimal(t)) => serde_json::from_str(t).unwrap(),
        Json::Datum(Datum::Document(t)) => serde_json::from_str(t).unwrap(),
        Json::Array(array) => Value::Array(array.items.iter().map(value).collect()),
        Json::Object(object) => {
            let mut map = serde_json::Map::new();
            for member in &object.members {
                map.insert(member.key.clone(), value(&member.value));
            }
            Value::Object(map)
        }
    }
}

fn parsed(text: &str) -> Value {
    serde_json::from_str(text).unwrap()
}

fn row(fields: &[(&str, Datum)]) -> Row {
    let mut row = Row::new();
    for (name, datum) in fields {
        row.put(name, datum.copy());
    }
    row
}

fn text(s: &str) -> Datum {
    Datum::Text(s.to_string())
}

fn float(x: f64) -> Real {
    Real { bits: x.to_bits(), text: serde_json::to_string(&x).unwrap() }
}

fn down() -> Reply {
    Err(ApiError::service_unavailable("down"))
}

fn live<D>(planned: Planned<D>) -> D {
    match planned.unwrap() {
        Plan::Live { draft } => draft,
        Plan::Sample { .. } => panic!("sample"),
    }
}

fn sample<D>(planned: Planned<D>) -> Value {
    match planned.unwrap() {
        Plan::Live { .. } => panic!("live"),
        Plan::Sample { document } => value(&document),
    }
}

#[test]
fn decision_brief_mock_uses_requested_id() {
    let value = mock_decision_brief("abc-123");
    assert_eq!(value.get("id").unwrap().as_str(), Some("abc-123"));
}

#[test]
fn samples_are_the_documented_ones() {
    assert_eq!(
        value(&mock_market_radar()),
        parsed(
            r#"{
        "lastUpdated": "2026-05-15T00:00:00Z",
        "sentiment": {
            "composite": 0.62,
            "label": "CAUTIOUSLY OPTIMISTIC",
            "indicators": [
                {"name": "VIX", "value": 16.4, "signal": "neutral", "direction": "flat"},
                {"name": "Credit Spreads (IG)", "value": 98, "signal": "bullish", "direction": "tightening"},
                {"name": "10Y-2Y Spread", "value": -18, "signal": "bearish", "direction": "flat"},
                {"name": "DXY", "value": 104.2, "signal": "neutral", "direction": "weakening"},
                {"name": "Put/Call Ratio", "value": 0.85, "signal": "bullish", "direction": "declining"}
            ]
        },
        "fedPolicy": {
            "currentRate": "5.25-5.50",
            "nextMeeting": "2026-06-18",
            "impliedCut": 0.25,
            "stance": "HAWKISH HOLD"
        },
        "sectorRotation": [
            {"sector": "Technology", "flow": 4200000000, "direction": "inflow", "weight": 29.1},
            {"sector": "Healthcare", "flow": 1800000000, "direction": "inflow", "weight": 13.4},
            {"sector": "Financials", "flow": 1100000000, "direction": "inflow", "weight": 12.8}
        ],
        "alerts": [
            {"type": "warning", "message": "Yield curve inversion deepening", "since": "2026-05-10"},
            {"type": "info", "message": "Fed funds futures imply 78% probability of July cut", "since": "2026-05-14"}
        ]
    }"#
        )
    );
    assert_eq!(
        value(&mock_finance_cockpit()),
        parsed(
            r#"{
        "budget": {"total": 2500000, "spent": 1420000, "remaining": 1080000, "period": "Q2 2026"},
        "burnRate": {"monthly": 178000, "weekly": 44500, "trend": "stable", "runwayMonths": 6},
        "cashForecast": {
            "currentBalance": 3200000,
            "minProjected": 1850000,
            "minWeek": 8,
            "endPosition": 2750000,
            "riskWeeks": [6, 7, 8],
            "hasCriticalRisk": false,
            "hasWorkingCapitalRisk": true
        },
        "workingCapital": {
            "dso": 42, "dpo": 58, "dio": 31, "ccc": 15, "status": "healthy", "score": 78,
            "recommendations": [
                {"action": "Accelerate AR collection on invoices >60 days", "savings": 45000},
                {"action": "Extend DPO with top 5 vendors by 15 days", "savings": 32000}
            ]
        }
    }"#
        )
    );
    assert_eq!(
        value(&mock_decision_brief("d1")),
        parsed(
            r#"{
        "id": "d1",
        "title": "Q2 Capex Allocation Review",
        "status": "in_review",
        "priority": "high",
        "created": "2026-05-10T14:30:00Z",
        "brief": {
            "context": "Review of proposed capital expenditure allocation for Q2 2026 across three major initiatives.",
            "options": [
                {"label": "Option A", "description": "Prioritize infrastructure scaling (60% infra, 25% product, 15% reserve)"},
                {"label": "Option B", "description": "Balanced growth approach (40% infra, 40% product, 20% reserve)"},
                {"label": "Option C", "description": "Product-first strategy (25% infra, 55% product, 20% reserve)"}
            ],
            "recommendation": "Option B recommended based on current market conditions and cash flow projections."
        },
        "financialImpact": {"totalBudget": 500000, "roi12m": 0.34, "paybackMonths": 8, "npv": 125000},
        "evidence": [
            {"source": "market_sentiment_fedgpt", "summary": "Market conditions favor balanced growth"},
            {"source": "closed_loop_finance", "summary": "Cash runway supports moderate investment"}
        ],
        "approvalChain": ["CFO", "Board", "Audit Committee"]
    }"#
        )
    );
    assert_eq!(
        value(&mock_battery_erp_dashboard()),
        parsed(
            r#"{
        "lastUpdated": "2026-05-15T00:00:00Z",
        "inventory": {"totalUnits": 12450, "incoming": 3200, "outgoing": 2870, "lowStockAlerts": 3},
        "quality": {"passRate": 97.3, "rejectRate": 1.2, "pendingInspection": 180, "avgCycleTime": 4.2},
        "supplyChain": {"activeOrders": 24, "onTimeDelivery": 91.5, "supplierIssues": 2, "leadTimeDays": 14},
        "production": {"dailyOutput": 890, "targetOutput": 950, "utilization": 93.7, "downtimeHours": 1.8},
        "hazmat": {"activeManifests": 7, "compliant": true, "nextAudit": "2026-06-01"}
    }"#
        )
    );
}

#[test]
fn dashboards_refuse_requests_without_the_key() {
    let state = state(Some("k"));
    let radar = run(get_market_radar(None, &state), |_| unreachable!()).0;
    assert_eq!(radar.err().unwrap().status, Status::Unauthorized);
    let cockpit = run(get_finance_cockpit(None, &state), |_| unreachable!()).0;
    assert_eq!(cockpit.err().unwrap().status, Status::Unauthorized);
    let brief = run(get_decision_brief(None, &state, "x"), |_| unreachable!()).0;
    assert_eq!(brief.err().unwrap().status, Status::Unauthorized);
    let battery = run(get_battery_erp_dashboard(None, &state), |_| unreachable!()).0;
    assert_eq!(battery.err().unwrap().status, Status::Unauthorized);
}

#[test]
fn dashboards_show_samples_where_no_database_answers() {
    let state = state(None);
    assert_eq!(sample(run(get_market_radar(None, &state), |_| down()).0), value(&mock_market_radar()));
    assert_eq!(
        sample(run(get_finance_cockpit(None, &state), |_| down()).0),
        value(&mock_finance_cockpit())
    );
    assert_eq!(
        sample(run(get_decision_brief(None, &state, "x"), |_| down()).0),
        value(&mock_decision_brief("x"))
    );
    assert_eq!(
        sample(run(get_battery_erp_dashboard(None, &state), |_| down()).0),
        value(&mock_battery_erp_dashboard())
    );
}

#[test]
fn dashboards_show_samples_where_the_databases_are_empty() {
    let state = state(None);
    let (radar, asked) = run(get_market_radar(None, &state), |_| Ok(vec![]));
    assert_eq!(sample(radar), value(&mock_market_radar()));
    assert_eq!(asked[0].database, "market_sentiment_fedgpt");
    assert_eq!(
        asked[0].sql,
        "SELECT * FROM sentiment_indicators ORDER BY recorded_at DESC LIMIT 20"
    );
    assert_eq!(asked[1].database, "hedge_fund_13f_radar");
    assert_eq!(asked[1].sql, "SELECT * FROM holdings ORDER BY value_usd DESC LIMIT 50");
    let cockpit = run(get_finance_cockpit(None, &state), |_| Ok(vec![])).0;
    assert_eq!(sample(cockpit), value(&mock_finance_cockpit()));
    let brief = run(get_decision_brief(None, &state, "x"), |_| Ok(vec![])).0;
    assert_eq!(sample(brief), value(&mock_decision_brief("x")));
    let battery = run(get_battery_erp_dashboard(None, &state), |_| Ok(vec![])).0;
    assert_eq!(sample(battery), value(&mock_battery_erp_dashboard()));
}

#[test]
fn the_radar_shows_live_indicators_and_sectors() {
    let holding = |sector: &str, amount: Datum| row(&[("sector", text(sector)), ("value_usd", amount)]);
    let (planned, _) = run(get_market_radar(None, &state(None)), |query| {
        if query.database == "market_sentiment_fedgpt" {
            Ok(vec![
                row(&[("indicator_name", text("VIX")), ("value", text("16.5")), ("signal", text("calm"))]),
                row(&[("value", text("high"))]),
            ])
        } else {
            Ok(vec![
                holding("Tech", Datum::Int(300)),
                row(&[("value", Datum::Int(5))]),
                holding("Energy", text("100")),
                holding("Tech", Datum::Decimal("0.5".to_string())),
            ])
        }
    });
    let draft = live(planned);
    assert_eq!(draft.indicators[0].value.texts, ["16.5", "0.0"]);
    assert_eq!(draft.indicators[1].value.texts, ["high", "0.0"]);
    let sectors: Vec<&str> = draft.groups.iter().map(|group| group.sector.as_str()).collect();
    assert_eq!(sectors, ["Energy", "Other", "Tech"]);
    assert_eq!(draft.groups[2].amounts.len(), 2);
    assert_eq!(draft.groups[2].amounts[0].texts, ["300", "0.0"]);
    assert_eq!(draft.groups[2].amounts[1].texts, ["0.5", "0.0"]);
    assert_eq!(draft.groups[1].amounts[0].texts, ["5", "0.0"]);
    let numbers = vec![
        SectorNumbers { flow: float(100.0), weight: float(24.7) },
        SectorNumbers { flow: float(5.0), weight: float(1.2) },
        SectorNumbers { flow: float(300.5), weight: float(74.1) },
    ];
    let document = value(&draft.finish(&vec![float(16.5), float(0.0)], &numbers, "now"));
    assert_eq!(document["lastUpdated"], "now");
    assert_eq!(
        document["sentiment"],
        parsed(
            r#"{"composite":0.62,"label":"CAUTIOUSLY OPTIMISTIC","indicators":[
                {"name":"VIX","value":16.5,"signal":"calm","direction":"flat"},
                {"name":"Unknown","value":0.0,"signal":"neutral","direction":"flat"}]}"#
        )
    );
    assert_eq!(
        document["sectorRotation"],
        parsed(
            r#"[{"sector":"Tech","flow":300.5,"direction":"inflow","weight":74.1},
                {"sector":"Energy","flow":100.0,"direction":"inflow","weight":24.7},
                {"sector":"Other","flow":5.0,"direction":"inflow","weight":1.2}]"#
        )
    );
    assert_eq!(document["fedPolicy"], value(&mock_market_radar())["fedPolicy"]);
    assert_eq!(document["alerts"], value(&mock_market_radar())["alerts"]);
}

#[test]
fn the_radar_fills_missing_halves_with_samples() {
    let (planned, _) = run(get_market_radar(None, &state(None)), |query| {
        if query.database == "market_sentiment_fedgpt" {
            Ok(vec![row(&[("name", text("DXY"))])])
        } else {
            down()
        }
    });
    let document = value(&live(planned).finish(&vec![float(1.0)], &vec![], "now"));
    assert_eq!(document["sectorRotation"], value(&mock_market_radar())["sectorRotation"]);
    assert_eq!(document["sentiment"]["indicators"][0]["name"], "DXY");
    let (planned, _) = run(get_market_radar(None, &state(None)), |query| {
        if query.database == "market_sentiment_fedgpt" {
            Ok(vec![])
        } else {
            Ok(vec![row(&[("sector", text("Tech"))])])
        }
    });
    let numbers = vec![SectorNumbers { flow: float(0.0), weight: float(0.0) }];
    let document = value(&live(planned).finish(&vec![], &numbers, "now"));
    assert_eq!(
        document["sentiment"]["indicators"],
        value(&mock_market_radar())["sentiment"]["indicators"]
    );
    assert_eq!(document["sectorRotation"][0]["sector"], "Tech");
}

#[test]
fn at_most_five_sectors_are_shown() {
    let flows = [1.0, 7.0, -3.0, f64::INFINITY, 7.0, 2.0, 0.5];
    let rows: Vec<Row> = (0..flows.len())
        .map(|i| row(&[("sector", Datum::Text(format!("S{}", i)))]))
        .collect();
    let groups = group_by_sector(&rows);
    assert_eq!(groups.len(), 7);
    let numbers = flows
        .iter()
        .map(|&flow| SectorNumbers {
            flow: Real { bits: flow.to_bits(), text: format!("{:?}", flow) },
            weight: float(0.0),
        })
        .collect();
    let shown = value(&Json::Array(build_sector_rotation(&groups, &numbers)));
    let sectors: Vec<&str> =
        shown.as_array().unwrap().iter().map(|s| s["sector"].as_str().unwrap()).collect();
    assert_eq!(sectors, ["S1", "S4", "S5", "S0", "S6"]);
}

#[test]
fn a_flow_that_is_not_finite_stands_with_zero() {
    let rows = vec![
        row(&[("sector", text("A"))]),
        row(&[("sector", text("B"))]),
        row(&[("sector", text("C"))]),
    ];
    let groups = group_by_sector(&rows);
    let numbers = vec![
        SectorNumbers { flow: float(-1.0), weight: float(0.0) },
        SectorNumbers {
            flow: Real { bits: f64::NAN.to_bits(), text: String::new() },
            weight: float(0.0),
        },
        SectorNumbers { flow: float(0.0), weight: float(0.0) },
    ];
    let shown = value(&Json::Array(build_sector_rotation(&groups, &numbers)));
    assert_eq!(shown[0]["sector"], "B");
    assert_eq!(shown[0]["flow"], Value::Null);
    assert_eq!(shown[1]["sector"], "C");
    assert_eq!(shown[2]["sector"], "A");
}

#[test]
fn the_cockpit_shows_the_first_budget() {
    let (planned, asked) = run(get_finance_cockpit(None, &state(None)), |_| {
        Ok(vec![
            row(&[("amount", text("1000")), ("actual_spend", Datum::Int(400)), ("period", text("Q3"))]),
            row(&[("period", text("Q2"))]),
        ])
    });
    assert_eq!(asked.len(), 1);
    assert_eq!(asked[0].database, "closed_loop_finance");
    assert_eq!(asked[0].sql, "SELECT * FROM budgets ORDER BY period DESC LIMIT 5");
    let draft = live(planned);
    assert_eq!(draft.total.texts, ["1000", "2500000.0"]);
    assert_eq!(draft.spent.texts, ["400", "1420000.0"]);
    let document = value(&draft.finish(&BudgetNumbers {
        total: float(1000.0),
        spent: float(400.0),
        remaining: float(600.0),
        monthly: float(400.0),
        weekly: float(92.0),
        runway_months: float(1.5),
    }));
    assert_eq!(
        document["budget"],
        parsed(r#"{"total":1000.0,"spent":400.0,"remaining":600.0,"period":"Q3"}"#)
    );
    assert_eq!(
        document["burnRate"],
        parsed(r#"{"monthly":400.0,"weekly":92.0,"trend":"stable","runwayMonths":1.5}"#)
    );
    assert_eq!(document["cashForecast"], value(&mock_finance_cockpit())["cashForecast"]);
    assert_eq!(document["workingCapital"], value(&mock_finance_cockpit())["workingCapital"]);
}

#[test]
fn budgets_that_say_nothing_leave_the_defaults() {
    let (planned, _) = run(get_finance_cockpit(None, &state(None)), |_| Ok(vec![Row::new()]));
    let draft = live(planned);
    assert_eq!(draft.total.texts, ["2500000.0"]);
    assert_eq!(draft.spent.texts, ["1420000.0"]);
    assert_eq!(draft.period, "Q2 2026");
}

fn brief_numbers() -> BriefNumbers {
    BriefNumbers { budget: float(10.0), roi: float(0.5), npv: float(7.0) }
}

#[test]
fn briefs_show_their_row() {
    let (planned, asked) = run(get_decision_brief(None, &state(None), "d-7"), |_| {
        Ok(vec![row(&[
            ("case_title", text("Capex")),
            ("status", text("open")),
            ("created_at", text("2026-01-01T00:00:00+00:00")),
            ("description", text("Why")),
            ("recommendation", text("Do it")),
            ("budget_amount", text("10")),
            ("payback_months", text("14")),
        ])])
    });
    assert_eq!(asked[0].database, "multi_agent_cfo_os");
    assert_eq!(asked[0].sql, "SELECT * FROM cfo_briefs WHERE brief_id = $1 OR id = $1 LIMIT 1");
    assert_eq!(format!("{:?}", asked[0].params), "[Text(\"d-7\")]");
    let draft = live(planned);
    assert_eq!(draft.budget.texts, ["10", "500000.0"]);
    assert_eq!(draft.roi.texts, ["0.34"]);
    assert_eq!(draft.npv.texts, ["125000.0"]);
    assert_eq!(
        value(&draft.finish(&brief_numbers(), "now")),
        parsed(
            r#"{"id":"d-7","title":"Capex","status":"open","priority":"medium",
                "created":"2026-01-01T00:00:00+00:00",
                "brief":{"context":"Why","recommendation":"Do it",
                    "options":[{"label":"Default","description":"Do it"}]},
                "financialImpact":{"totalBudget":10.0,"roi12m":0.5,"paybackMonths":14,"npv":7.0},
                "artifacts":[],"evidence":[],"rounds":[],"forecasts":[],"findings":[],"audits":[]}"#
        )
    );
}

#[test]
fn briefs_that_say_nothing_leave_the_defaults() {
    let (planned, _) = run(get_decision_brief(None, &state(None), "d-7"), |_| Ok(vec![Row::new()]));
    let document = value(&live(planned).finish(&brief_numbers(), "now"));
    assert_eq!(document["id"], "d-7");
    assert_eq!(document["title"], "Decision Brief");
    assert_eq!(document["status"], "draft");
    assert_eq!(document["created"], "now");
    assert_eq!(document["brief"]["context"], "");
    assert_eq!(document["financialImpact"]["paybackMonths"], 8);
}

#[test]
fn the_battery_dashboard_counts_its_tables() {
    let (planned, asked) = run(get_battery_erp_dashboard(None, &state(None)), |query| {
        let count = |n: i64| Ok(vec![row(&[("cnt", Datum::Int(n))])]);
        match query.sql.as_str() {
            "SELECT count(*) AS cnt FROM \"Raw_STOCK\"" => count(11),
            "SELECT count(*) AS cnt FROM \"inventory\"" => count(12),
            "SELECT count(*) AS cnt FROM \"stock_orders\"" => count(13),
            "SELECT count(*) AS cnt FROM \"hazmat\"" => down(),
            sql if sql.starts_with("SELECT count") => count(99),
            _ => Ok(["inventory", "no table", "stock_orders", "hazmat", "Raw_STOCK", "people"]
                .iter()
                .map(|name| row(&[("table_name", text(name))]))
                .chain([Row::new(), row(&[("table_name", Datum::Int(1))])])
                .collect()),
        }
    });
    assert_eq!(asked.len(), 6);
    let document = value(&live(planned).finish("now"));
    assert_eq!(
        document,
        parsed(
            r#"{"lastUpdated":"now",
                "tables":{"Raw_STOCK":{"rows":11},"hazmat":{"rows":0},"inventory":{"rows":12},
                    "people":{"rows":99},"stock_orders":{"rows":13}},
                "summary":{"totalInventoryItems":11,"activeOrders":13,"activeManifests":0}}"#
        )
    );
}

#[test]
fn the_battery_dashboard_may_count_nothing() {
    let (planned, asked) = run(get_battery_erp_dashboard(None, &state(None)), |_| {
        Ok(vec![row(&[("table_name", text("a-b"))])])
    });
    assert_eq!(asked.len(), 1);
    let document = value(&live(planned).finish("now"));
    assert_eq!(document, parsed(r#"{"lastUpdated":"now","tables":{},"summary":{}}"#));
}
