//! The dashboard of the battery plant.

use vstd::prelude::*;

use crate::auth::authorize;
#[allow(unused_imports)]
use crate::auth::{admitted, not_admitted, opt_bytes};
use crate::config::AppState;
#[allow(unused_imports)]
use crate::config::opt_text;
use crate::counts::{count_or, table_name};
#[allow(unused_imports)]
use crate::counts::{listed_name, reported_count, row_count_query};
use crate::entries::{insert_entry, list_entries, new_entries};
#[allow(unused_imports)]
use crate::entries::entries;
use crate::flow::{Flow, Replies, Step};
#[allow(unused_imports)]
use crate::flow::{step_asked, step_outcome, step_wf};
use crate::identifiers::is_valid_identifier;
#[allow(unused_imports)]
use crate::identifiers::{valid_identifier, DATABASES};
use crate::json::{Datum, Json, JsonView, Object, Row, RowView};
#[allow(unused_imports)]
use crate::json::{fields_view, row_json, rows_view, DatumView};
use crate::plan::{Plan, Planned, PlannedView};
#[allow(unused_imports)]
use crate::plan::{planned_view, PlanView};
use crate::query::{Query, QueryView, Reply};
#[allow(unused_imports)]
use crate::query::{plain_query, reply_view, ReplyView};
use crate::samples::mock_battery_erp_dashboard;
#[allow(unused_imports)]
use crate::samples::sample_battery_erp_dashboard;
use crate::sql::{row_count_text, UNORDERED_TABLE_NAMES};
#[allow(unused_imports)]
use crate::sql::is_count;
use crate::text::{contains_text, lower_text};
#[allow(unused_imports)]
use crate::text::{has_part, lower};

verus! {

/// A table with the number of its rows.
#[derive(Debug)]
pub struct TableCount {
    pub name: String,
    pub rows: i64,
}

/// What a [`TableCount`] is.
pub struct TableCountView {
    pub name: Seq<char>,
    pub rows: int,
}

impl View for TableCount {
    type V = TableCountView;

    open spec fn view(&self) -> TableCountView {
        TableCountView { name: self.name@, rows: self.rows as int }
    }
}

/// What each of `counts` is.
pub open spec fn table_counts_view(counts: Seq<TableCount>) -> Seq<TableCountView> {
    Seq::new(counts.len(), |i: int| counts[i]@)
}

/// The live data of the dashboard: the tables with the numbers of their rows.
#[derive(Debug)]
pub struct BatteryDraft {
    pub counts: Vec<TableCount>,
}

impl View for BatteryDraft {
    type V = Seq<TableCountView>;

    open spec fn view(&self) -> Seq<TableCountView> {
        table_counts_view(self.counts@)
    }
}

/// The number of rows of each table; of two with one name the later counts.
pub open spec fn rows_by_table(counts: Seq<TableCountView>) -> RowView
    decreases counts.len(),
{
    if counts.len() == 0 {
        Map::empty()
    } else {
        rows_by_table(counts.drop_last()).insert(
            counts.last().name,
            DatumView::Int(counts.last().rows),
        )
    }
}

/// The tables as they are reported.
pub open spec fn battery_tables_json(tables: RowView) -> JsonView {
    JsonView::Object(
        Map::new(
            |name| tables.contains_key(name),
            |name|
                JsonView::Object(Map::empty().insert("rows"@, JsonView::Datum(tables[name]))),
        ),
    )
}

/// Whether a table holds the inventory, by its name.
pub open spec fn holds_inventory(name: Seq<char>) -> bool {
    has_part(lower(name), "inventory"@) || has_part(lower(name), "stock"@)
}

/// Whether a table holds orders, by its name.
pub open spec fn holds_orders(name: Seq<char>) -> bool {
    has_part(lower(name), "order"@)
}

/// Whether a table holds hazardous goods, by its name.
pub open spec fn holds_hazards(name: Seq<char>) -> bool {
    has_part(lower(name), "hazard"@) || has_part(lower(name), "hazmat"@) || has_part(
        lower(name),
        "waste"@,
    )
}

/// `summary` with the number of rows under `key`, where the table belongs there.
pub open spec fn summary_with(
    summary: RowView,
    belongs: bool,
    key: Seq<char>,
    rows: int,
) -> RowView {
    if belongs {
        summary.insert(key, DatumView::Int(rows))
    } else {
        summary
    }
}

/// The numbers of rows of the tables that hold inventory, orders and hazardous goods; of several
/// tables of one kind the last counts.
pub open spec fn battery_summary(counts: Seq<TableCountView>) -> RowView
    decreases counts.len(),
{
    if counts.len() == 0 {
        Map::empty()
    } else {
        let table = counts.last();
        let summary = battery_summary(counts.drop_last());
        let summary = summary_with(
            summary,
            holds_inventory(table.name),
            "totalInventoryItems"@,
            table.rows,
        );
        let summary = summary_with(
            summary,
            holds_orders(table.name),
            "activeOrders"@,
            table.rows,
        );
        summary_with(summary, holds_hazards(table.name), "activeManifests"@, table.rows)
    }
}

/// The dashboard of live data.
pub open spec fn battery_document(counts: Seq<TableCountView>, now: Seq<char>) -> JsonView {
    JsonView::Object(
        map![
            "lastUpdated"@ => JsonView::text(now),
            "tables"@ => battery_tables_json(rows_by_table(counts)),
            "summary"@ => row_json(battery_summary(counts)),
        ],
    )
}

fn report_tables(row: &Row) -> (json: Json)
    ensures
        json@ == battery_tables_json(row@),
{
    let mut object = Object::new();
    assert(object@ =~= battery_tables_json(fields_view(row.fields@.take(0)))->Object_0);
    for i in 0..row.fields.len()
        invariant
            JsonView::Object(object@) == battery_tables_json(
                fields_view(row.fields@.take(i as int)),
            ),
    {
        let count = Object::new().with("rows", Json::Datum(row.fields[i].value.copy()));
        object.put(row.fields[i].name.as_str(), Json::Object(count));
        proof {
            let before = row.fields@.take(i as int);
            let after = row.fields@.take(i + 1);
            assert(after.drop_last() =~= before);
            assert(battery_tables_json(fields_view(after))->Object_0 =~= battery_tables_json(
                fields_view(before),
            )->Object_0.insert(row.fields@[i as int].name@, JsonView::Object(count@)));
        }
    }
    assert(row.fields@.take(row.fields@.len() as int) =~= row.fields@);
    Json::Object(object)
}

impl BatteryDraft {
    /// The dashboard, as of `now`.
    pub fn finish(&self, now: &str) -> (json: Json)
        ensures
            json@ == battery_document(self@, now@),
    {
        let mut tables = new_entries();
        let mut summary = new_entries();
        let ghost all = self@;
        for i in 0..self.counts.len()
            invariant
                all == table_counts_view(self.counts@),
                entries(tables) == rows_by_table(all.take(i as int)),
                entries(summary) == battery_summary(all.take(i as int)),
        {
            assert(all.take(i + 1).drop_last() =~= all.take(i as int));
            assert(all.take(i + 1).last() == self.counts@[i as int]@);
            let name = self.counts[i].name.as_str();
            let rows = Datum::Int(self.counts[i].rows);
            insert_entry(&mut tables, name, &rows);
            let lower = lower_text(name);
            let lower = lower.as_str();
            if contains_text(lower, "inventory") || contains_text(lower, "stock") {
                insert_entry(&mut summary, "totalInventoryItems", &rows);
            }
            if contains_text(lower, "order") {
                insert_entry(&mut summary, "activeOrders", &rows);
            }
            if contains_text(lower, "hazard") || contains_text(lower, "hazmat") || contains_text(
                lower,
                "waste",
            ) {
                insert_entry(&mut summary, "activeManifests", &rows);
            }
        }
        assert(all.take(self.counts@.len() as int) =~= all);
        Json::Object(
            Object::new()
                .with("lastUpdated", Json::text(now))
                .with("tables", report_tables(&list_entries(&tables)))
                .with("summary", list_entries(&summary).to_json()),
        )
    }
}

/// The statement that lists the tables.
pub open spec fn battery_tables_query() -> QueryView {
    plain_query("battery_erp"@, UNORDERED_TABLE_NAMES@)
}

/// The names of the tables that are counted: the valid ones, in the order of `rows`.
pub open spec fn counted_names(rows: Seq<RowView>) -> Seq<Seq<char>>
    decreases rows.len(),
{
    if rows.len() == 0 {
        Seq::empty()
    } else if valid_identifier(listed_name(rows.last())) {
        counted_names(rows.drop_last()).push(listed_name(rows.last()))
    } else {
        counted_names(rows.drop_last())
    }
}

/// What counting `names` comes to, where the statement for the first is number `n`. A table that
/// cannot be counted counts as empty.
pub open spec fn names_counted(
    names: Seq<Seq<char>>,
    replies: Replies,
    n: nat,
) -> Seq<TableCountView> {
    Seq::new(
        names.len(),
        |i: int|
            TableCountView {
                name: names[i],
                rows: reported_count(
                    replies((n + i) as nat, row_count_query("battery_erp"@, names[i])),
                    0,
                ),
            },
    )
}

/// The dashboard that the tables give, where the first of them is counted by statement number
/// `n`.
pub open spec fn battery_plan(reply: ReplyView, replies: Replies, n: nat) -> PlanView<
    Seq<TableCountView>,
> {
    match reply {
        Err(_) => PlanView::Sample { document: sample_battery_erp_dashboard() },
        Ok(tables) => if tables.len() == 0 {
            PlanView::Sample { document: sample_battery_erp_dashboard() }
        } else {
            PlanView::Live { draft: names_counted(counted_names(tables), replies, n) }
        },
    }
}

/// What a request for the dashboard comes to.
pub open spec fn battery_answer(
    state: AppState,
    header: Option<Seq<u8>>,
    replies: Replies,
) -> PlannedView<Seq<TableCountView>> {
    if !admitted(opt_text(state.settings().api_key), header) {
        Err(not_admitted())
    } else {
        Ok(battery_plan(replies(0, battery_tables_query()), replies, 1))
    }
}

/// The statements that count `names`, in order.
pub open spec fn counts_asked(names: Seq<Seq<char>>) -> Seq<QueryView> {
    Seq::new(names.len(), |i: int| row_count_query("battery_erp"@, names[i]))
}

/// The statements that are asked for after the tables are listed.
pub open spec fn counts_asked_after(reply: ReplyView) -> Seq<QueryView> {
    match reply {
        Err(_) => Seq::empty(),
        Ok(tables) => counts_asked(counted_names(tables)),
    }
}

/// The statements of a request for the dashboard: the tables are listed, and then each of them is
/// counted.
pub open spec fn battery_asked(
    state: AppState,
    header: Option<Seq<u8>>,
    replies: Replies,
) -> Seq<QueryView> {
    if !admitted(opt_text(state.settings().api_key), header) {
        Seq::empty()
    } else {
        seq![battery_tables_query()] + counts_asked_after(replies(0, battery_tables_query()))
    }
}

/// A request for the dashboard that waits for a statement.
#[derive(Debug)]
pub struct BatteryDashboard {
    stage: Stage,
}

#[derive(Debug)]
enum Stage {
    /// The tables are not listed yet.
    Tables,
    /// The next of the names is not counted yet.
    Counting { names: Vec<String>, counts: Vec<TableCount> },
}

fn ask_count(name: &str) -> (query: Query)
    ensures
        query@ == row_count_query("battery_erp"@, name@),
{
    let sql = row_count_text(name);
    Query::plain("battery_erp", sql.as_str())
}

/// Starts a request for the dashboard of the battery plant.
pub fn get_battery_erp_dashboard(header: Option<&[u8]>, state: &AppState) -> (step: Step<
    BatteryDashboard,
    Planned<BatteryDraft>,
>)
    ensures
        step_wf(step),
        step is Ask == admitted(opt_text(state.settings().api_key), opt_bytes(header)),
        forall|replies: Replies| #[trigger]
            step_outcome(step, replies, 0) == battery_answer(*state, opt_bytes(header), replies),
        forall|replies: Replies| #[trigger]
            step_asked(step, replies, 0) =~= battery_asked(*state, opt_bytes(header), replies),
{
    if let Err(error) = authorize(header, state) {
        return Step::Done { result: Err(error) };
    }
    Step::Ask {
        query: Query::plain("battery_erp", UNORDERED_TABLE_NAMES),
        next: BatteryDashboard { stage: Stage::Tables },
    }
}

/// The names of `names`.
spec fn texts(names: Seq<String>) -> Seq<Seq<char>> {
    Seq::new(names.len(), |i: int| names[i]@)
}

fn names_to_count(rows: &Vec<Row>) -> (names: Vec<String>)
    ensures
        texts(names@) == counted_names(rows_view(rows@)),
        forall|i: int| 0 <= i < names@.len() ==> valid_identifier(#[trigger] names@[i]@),
{
    let mut names: Vec<String> = Vec::new();
    let ghost all = rows_view(rows@);
    assert(texts(names@) =~= counted_names(all.take(0)));
    for i in 0..rows.len()
        invariant
            all == rows_view(rows@),
            texts(names@) == counted_names(all.take(i as int)),
            forall|k: int| 0 <= k < names@.len() ==> valid_identifier(#[trigger] names@[k]@),
    {
        let name = table_name(&rows[i]);
        assert(all.take(i + 1).drop_last() =~= all.take(i as int));
        let ghost before = texts(names@);
        if is_valid_identifier(name.as_str()) {
            names.push(name);
            assert(texts(names@) =~= before.push(name@));
        }
    }
    assert(all.take(rows@.len() as int) =~= all);
    names
}

impl BatteryDashboard {
    spec fn reachable(&self) -> bool {
        self.stage matches Stage::Counting { names, counts } ==> {
            &&& counts@.len() < names@.len()
            &&& forall|i: int| 0 <= i < names@.len() ==> valid_identifier(#[trigger] names@[i]@)
        }
    }

    spec fn awaited(&self) -> QueryView {
        match self.stage {
            Stage::Tables => battery_tables_query(),
            Stage::Counting { names, counts } => row_count_query(
                "battery_erp"@,
                names@[counts@.len() as int]@,
            ),
        }
    }

    spec fn remaining(&self) -> nat {
        match self.stage {
            Stage::Tables => 0,
            Stage::Counting { names, counts } => (names@.len() - counts@.len()) as nat,
        }
    }

    spec fn answer(&self, replies: Replies, n: nat) -> PlannedView<Seq<TableCountView>> {
        match self.stage {
            Stage::Tables => Ok(battery_plan(replies(n, self.awaited()), replies, n + 1)),
            Stage::Counting { names, counts } => Ok(
                PlanView::Live {
                    draft: table_counts_view(counts@) + names_counted(
                        texts(names@).skip(counts@.len() as int),
                        replies,
                        n,
                    ),
                },
            ),
        }
    }

    spec fn inquiries(&self, replies: Replies, n: nat) -> Seq<QueryView> {
        match self.stage {
            Stage::Tables => seq![self.awaited()] + counts_asked_after(replies(n, self.awaited())),
            Stage::Counting { names, counts } => counts_asked(
                texts(names@).skip(counts@.len() as int),
            ),
        }
    }

    spec fn inquiries_after(
        step: Step<Self, Planned<BatteryDraft>>,
        replies: Replies,
        n: nat,
    ) -> Seq<QueryView> {
        match step {
            Step::Ask { query, next } => next.inquiries(replies, n),
            Step::Done { result } => Seq::empty(),
        }
    }

    spec fn answer_after(
        step: Step<Self, Planned<BatteryDraft>>,
        replies: Replies,
        n: nat,
    ) -> PlannedView<Seq<TableCountView>> {
        match step {
            Step::Ask { query, next } => next.answer(replies, n),
            Step::Done { result } => planned_view(result),
        }
    }

    /// Goes on to the next of the names, if there is one.
    fn count_next(names: Vec<String>, counts: Vec<TableCount>) -> (step: Step<
        BatteryDashboard,
        Planned<BatteryDraft>,
    >)
        requires
            counts@.len() <= names@.len(),
            forall|i: int| 0 <= i < names@.len() ==> valid_identifier(#[trigger] names@[i]@),
        ensures
            forall|replies: Replies, n: nat| #[trigger]
                Self::answer_after(step, replies, n) == Ok::<
                    PlanView<Seq<TableCountView>>,
                    crate::error::ApiErrorView,
                >(
                    PlanView::Live {
                        draft: table_counts_view(counts@) + names_counted(
                            texts(names@).skip(counts@.len() as int),
                            replies,
                            n,
                        ),
                    },
                ),
            forall|replies: Replies, n: nat| #[trigger]
                Self::inquiries_after(step, replies, n) =~= counts_asked(
                    texts(names@).skip(counts@.len() as int),
                ),
            step matches Step::Ask { query, next } ==> {
                &&& next.reachable()
                &&& query@ == next.awaited()
                &&& next.stage is Counting
                &&& next.remaining() == names@.len() - counts@.len()
            },
    {
        if counts.len() < names.len() {
            let query = ask_count(names[counts.len()].as_str());
            Step::Ask { query, next: BatteryDashboard { stage: Stage::Counting { names, counts } } }
        } else {
            assert forall|replies: Replies, n: nat| #[trigger]
                names_counted(texts(names@).skip(counts@.len() as int), replies, n)
                    == Seq::<TableCountView>::empty() by {
                assert(names_counted(texts(names@).skip(counts@.len() as int), replies, n)
                    =~= Seq::empty());
            }
            assert(table_counts_view(counts@) + Seq::<TableCountView>::empty()
                =~= table_counts_view(counts@));
            Step::Done { result: Ok(Plan::Live { draft: BatteryDraft { counts } }) }
        }
    }
}

impl Flow for BatteryDashboard {
    type Outcome = Planned<BatteryDraft>;

    type OutcomeView = PlannedView<Seq<TableCountView>>;

    open spec fn outcome_view(outcome: Planned<BatteryDraft>) -> PlannedView<Seq<TableCountView>> {
        planned_view(outcome)
    }

    closed spec fn wf(&self) -> bool {
        self.reachable()
    }

    closed spec fn pending(&self) -> QueryView {
        self.awaited()
    }

    closed spec fn parts(&self) -> nat {
        match self.stage {
            Stage::Tables => 2,
            _ => 1,
        }
    }

    closed spec fn left(&self) -> nat {
        self.remaining()
    }

    closed spec fn outcome(&self, replies: Replies, n: nat) -> PlannedView<Seq<TableCountView>> {
        self.answer(replies, n)
    }

    closed spec fn asked(&self, replies: Replies, n: nat) -> Seq<QueryView> {
        self.inquiries(replies, n)
    }

    open spec fn writes() -> bool {
        false
    }

    proof fn pending_permitted(&self) {
        assert(DATABASES@[7]@ == "battery_erp"@);
        if let Stage::Counting { names, counts } = self.stage {
            assert(is_count(self.pending(), names@[counts@.len() as int]@));
        }
    }

    fn resume(self, reply: Reply) -> (step: Step<BatteryDashboard, Planned<BatteryDraft>>) {
        match self.stage {
            Stage::Tables => {
                let step = match &reply {
                    Ok(tables) if tables.len() > 0 => {
                        let names = names_to_count(tables);
                        let counts: Vec<TableCount> = Vec::new();
                        assert(texts(names@).skip(0) =~= texts(names@));
                        assert forall|counted: Seq<TableCountView>| #[trigger]
                            (table_counts_view(counts@) + counted) == counted by {
                            assert(table_counts_view(counts@) + counted =~= counted);
                        }
                        Self::count_next(names, counts)
                    },
                    _ => Step::Done {
                        result: Ok(Plan::Sample { document: mock_battery_erp_dashboard() }),
                    },
                };
                assert forall|replies: Replies, n: nat| #![trigger self.outcome(replies, n)]
                    replies(n, self.awaited()) == reply_view(reply) implies self.answer(replies, n)
                    == Self::answer_after(step, replies, n + 1) by {}
                assert forall|replies: Replies, n: nat| #![trigger self.asked(replies, n)]
                    replies(n, self.awaited()) == reply_view(reply) implies self.inquiries(
                    replies,
                    n,
                ) =~= seq![self.awaited()] + Self::inquiries_after(step, replies, n + 1) by {}
                step
            },
            Stage::Counting { names, counts } => {
                let mut counts = counts;
                let ghost before = counts@;
                let at: usize = counts.len();
                let rows = count_or(&reply, 0);
                counts.push(TableCount { name: names[at].clone(), rows });
                let step = Self::count_next(names, counts);
                assert forall|replies: Replies, n: nat| #![trigger self.outcome(replies, n)]
                    replies(n, self.awaited()) == reply_view(reply) implies self.answer(replies, n)
                    == Self::answer_after(step, replies, n + 1) by {
                    assert(table_counts_view(before) + names_counted(
                        texts(names@).skip(at as int),
                        replies,
                        n,
                    ) =~= table_counts_view(counts@) + names_counted(
                        texts(names@).skip(at + 1),
                        replies,
                        n + 1,
                    ));
                }
                assert forall|replies: Replies, n: nat| #![trigger self.asked(replies, n)]
                    replies(n, self.awaited()) == reply_view(reply) implies self.inquiries(
                    replies,
                    n,
                ) =~= seq![self.awaited()] + Self::inquiries_after(step, replies, n + 1) by {
                    assert(texts(names@).skip(at as int)[0] == names@[at as int]@);
                    assert(texts(names@).skip(at as int).skip(1) =~= texts(names@).skip(at + 1));
                }
                step
            },
        }
    }
}

} // verus!
