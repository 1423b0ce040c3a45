//! Whether the databases answer.

use vstd::prelude::*;

use crate::entries::{insert_entry, list_entries, new_entries};
use crate::flow::{Flow, Replies, Step};
#[allow(unused_imports)]
use crate::flow::{step_asked, step_outcome, step_wf};
use crate::identifiers::DATABASES;
use crate::json::{Datum, Json, JsonView, Object, RowView};
#[allow(unused_imports)]
use crate::json::{row_json, DatumView};
use crate::query::{Query, QueryView, Reply};
#[allow(unused_imports)]
use crate::query::{plain_query, reply_view};
use crate::sql::HEALTH;

verus! {

/// The statement that checks the database number `i`.
pub open spec fn health_query(i: int) -> QueryView {
    plain_query(DATABASES@[i]@, HEALTH@)
}

/// The status that is reported of a database.
pub open spec fn database_status(ok: bool) -> DatumView {
    if ok {
        DatumView::Text("ok"@)
    } else {
        DatumView::Text("degraded"@)
    }
}

/// The status of each database.
pub open spec fn database_statuses(oks: Seq<bool>) -> RowView
    decreases oks.len(),
{
    if oks.len() == 0 {
        Map::empty()
    } else {
        database_statuses(oks.drop_last()).insert(
            DATABASES@[oks.len() - 1]@,
            database_status(oks.last()),
        )
    }
}

/// The health report: which databases answered, and whether all of them did. Nothing else of what
/// the statements came to shows in it.
pub open spec fn health_report(oks: Seq<bool>) -> JsonView {
    let all_ok = forall|i: int| 0 <= i < oks.len() ==> #[trigger] oks[i];
    JsonView::Object(
        map![
            "status"@ => JsonView::text(if all_ok { "healthy"@ } else { "degraded"@ }),
            "databases"@ => row_json(database_statuses(oks)),
        ],
    )
}

/// The answer of the health check, where the databases come to `replies`.
pub open spec fn health_answer(replies: Replies) -> JsonView {
    health_report(Seq::new(10, |i: int| replies(i as nat, health_query(i)) is Ok))
}

/// The statements of the health check: one for each database, in order.
pub open spec fn health_asked() -> Seq<QueryView> {
    Seq::new(10, |i: int| health_query(i))
}

/// A health check that waits for one of the databases.
#[derive(Debug)]
pub struct HealthCheck {
    oks: Vec<bool>,
}

/// Reports the databases number 0 up to the length of `oks`.
fn report(oks: &Vec<bool>) -> (json: Json)
    requires
        oks@.len() <= 10,
    ensures
        json@ == health_report(oks@),
{
    let mut results = new_entries();
    let mut all_ok: bool = true;
    assert(oks@.take(0) =~= Seq::empty());
    for i in 0..oks.len()
        invariant
            oks@.len() <= 10,
            crate::entries::entries(results) == database_statuses(oks@.take(i as int)),
            all_ok == (forall|k: int| 0 <= k < i ==> #[trigger] oks@[k]),
    {
        let status = if oks[i] {
            Datum::Text("ok".to_string())
        } else {
            Datum::Text("degraded".to_string())
        };
        insert_entry(&mut results, DATABASES[i], &status);
        all_ok = all_ok && oks[i];
        assert(oks@.take(i + 1).drop_last() =~= oks@.take(i as int));
    }
    assert(oks@.take(oks@.len() as int) =~= oks@);
    let mut object = Object::new();
    object.put("status", Json::text(if all_ok { "healthy" } else { "degraded" }));
    object.put("databases", list_entries(&results).to_json());
    Json::Object(object)
}

/// Starts a health check.
pub fn health_check() -> (step: Step<HealthCheck, Json>)
    ensures
        step_wf(step),
        step is Ask,
        forall|replies: Replies| #[trigger]
            step_outcome(step, replies, 0) == health_answer(replies),
        forall|replies: Replies| #[trigger] step_asked(step, replies, 0) =~= health_asked(),
{
    let next = HealthCheck { oks: Vec::new() };
    assert forall|replies: Replies| #[trigger] next.outcome(replies, 0) == health_answer(replies) by {
        assert(next.expected(replies, 0) =~= Seq::new(
            10,
            |i: int| replies(i as nat, health_query(i)) is Ok,
        ));
    }
    Step::Ask { query: Query::plain(DATABASES[0], HEALTH), next }
}

impl HealthCheck {
    /// Which databases answer, where the statements from number `n` on come to `replies`.
    spec fn expected(&self, replies: Replies, n: nat) -> Seq<bool> {
        let done = self.oks@.len();
        Seq::new(
            10,
            |i: int|
                if i < done {
                    self.oks@[i]
                } else {
                    replies((n + i - done) as nat, health_query(i)) is Ok
                },
        )
    }
}

impl Flow for HealthCheck {
    type Outcome = Json;

    type OutcomeView = JsonView;

    open spec fn outcome_view(outcome: Json) -> JsonView {
        outcome@
    }

    closed spec fn wf(&self) -> bool {
        self.oks@.len() < 10
    }

    closed spec fn pending(&self) -> QueryView {
        health_query(self.oks@.len() as int)
    }

    open spec fn parts(&self) -> nat {
        1
    }

    closed spec fn left(&self) -> nat {
        (10 - self.oks@.len()) as nat
    }

    closed spec fn outcome(&self, replies: Replies, n: nat) -> JsonView {
        health_report(self.expected(replies, n))
    }

    closed spec fn asked(&self, replies: Replies, n: nat) -> Seq<QueryView> {
        let done = self.oks@.len();
        Seq::new((10 - done) as nat, |i: int| health_query(done + i))
    }

    open spec fn writes() -> bool {
        false
    }

    proof fn pending_permitted(&self) {
        assert(DATABASES@[self.oks@.len() as int]@ == self.pending().database);
    }

    fn resume(self, reply: Reply) -> (step: Step<HealthCheck, Json>) {
        let mut oks = self.oks;
        oks.push(reply.is_ok());
        let next = HealthCheck { oks };
        assert forall|replies: Replies, n: nat| #![trigger self.outcome(replies, n)]
            replies(n, self.pending()) == reply_view(reply) implies self.expected(replies, n)
            == next.expected(replies, n + 1) by {
            assert(self.expected(replies, n) =~= next.expected(replies, n + 1));
        }
        if next.oks.len() < 10 {
            Step::Ask { query: Query::plain(DATABASES[next.oks.len()], HEALTH), next }
        } else {
            assert forall|replies: Replies, n: nat| #[trigger]
                next.expected(replies, n) == next.oks@ by {
                assert(next.expected(replies, n) =~= next.oks@);
            }
            Step::Done { result: report(&next.oks) }
        }
    }
}

} // verus!
