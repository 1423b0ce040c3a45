//! How money moves between sectors.

use vstd::prelude::*;

use crate::json::{Array, Json, JsonView, Object, Row, RowView};
#[allow(unused_imports)]
use crate::json::rows_view;
use crate::lookup::{pick_amount, pick_string_or};
#[allow(unused_imports)]
use crate::lookup::{amount_texts, key_texts, text_or_default};
use crate::numbers::{Amount, Real};
#[allow(unused_imports)]
use crate::numbers::{real_datum, real_rank};
#[allow(unused_imports)]
use crate::order::{
    ascends, lemma_ascending_unique, lemma_text_before_asymmetric, lemma_text_before_total,
    lemma_text_before_transitive,
};
use crate::ranking::rank_falling;
#[allow(unused_imports)]
use crate::ranking::{key_values, position_values, ranking};
use crate::text::{comes_before, same_text};
#[allow(unused_imports)]
use crate::text::text_before;

verus! {

/// The sector of a holding.
pub open spec fn holding_sector(row: RowView) -> Seq<char> {
    text_or_default(row, seq!["sector"], "Other"@)
}

/// The value of a holding, by the texts from which it is read.
pub open spec fn holding_amount(row: RowView) -> Seq<Seq<char>> {
    amount_texts(row, key_texts(seq!["value_usd", "value"]), "0.0"@)
}

fn sector_of(row: &Row) -> (sector: String)
    ensures
        sector@ == holding_sector(row@),
{
    let keys: [&str; 1] = ["sector"];
    assert(keys@ =~= seq!["sector"]);
    pick_string_or(row, keys.as_slice(), "Other")
}

fn amount_of(row: &Row) -> (amount: Amount)
    ensures
        amount@ == holding_amount(row@),
{
    let keys: [&str; 2] = ["value_usd", "value"];
    assert(keys@ =~= seq!["value_usd", "value"]);
    pick_amount(row, keys.as_slice(), "0.0")
}

/// A sector with the values of its holdings.
#[derive(Debug)]
pub struct SectorGroup {
    pub sector: String,
    pub amounts: Vec<Amount>,
}

/// What a [`SectorGroup`] is.
pub struct GroupView {
    pub sector: Seq<char>,
    pub amounts: Seq<Seq<Seq<char>>>,
}

/// What each of `amounts` is.
pub open spec fn amounts_view(amounts: Seq<Amount>) -> Seq<Seq<Seq<char>>> {
    Seq::new(amounts.len(), |i: int| amounts[i]@)
}

impl View for SectorGroup {
    type V = GroupView;

    open spec fn view(&self) -> GroupView {
        GroupView { sector: self.sector@, amounts: amounts_view(self.amounts@) }
    }
}

/// What each of `groups` is.
pub open spec fn groups_view(groups: Seq<SectorGroup>) -> Seq<GroupView> {
    Seq::new(groups.len(), |i: int| groups[i]@)
}

/// Whether one of `rows` is a holding of the sector.
pub open spec fn has_sector(rows: Seq<RowView>, sector: Seq<char>) -> bool {
    exists|i: int| 0 <= i < rows.len() && holding_sector(#[trigger] rows[i]) == sector
}

/// The values of the holdings of the sector, in the order of `rows`.
pub open spec fn sector_amounts(rows: Seq<RowView>, sector: Seq<char>) -> Seq<Seq<Seq<char>>>
    decreases rows.len(),
{
    if rows.len() == 0 {
        Seq::empty()
    } else if holding_sector(rows.last()) == sector {
        sector_amounts(rows.drop_last(), sector).push(holding_amount(rows.last()))
    } else {
        sector_amounts(rows.drop_last(), sector)
    }
}

/// The order of sectors by their names.
pub open spec fn by_sector() -> spec_fn(GroupView, GroupView) -> bool {
    |a: GroupView, b: GroupView| text_before(a.sector, b.sector)
}

/// Whether `groups` holds each sector of `rows` with its holdings, by ascending names.
pub open spec fn is_grouping(groups: Seq<GroupView>, rows: Seq<RowView>) -> bool {
    &&& ascends(groups, by_sector())
    &&& forall|group: GroupView| #[trigger]
        groups.contains(group) <==> has_sector(rows, group.sector) && group.amounts
            == sector_amounts(rows, group.sector)
}

/// Each sector of `rows` with its holdings, by ascending names.
pub open spec fn sector_groups(rows: Seq<RowView>) -> Seq<GroupView> {
    choose|groups: Seq<GroupView>| is_grouping(groups, rows)
}

/// There is only one such list.
pub proof fn lemma_grouping_unique(groups: Seq<GroupView>, rows: Seq<RowView>)
    requires
        is_grouping(groups, rows),
    ensures
        groups == sector_groups(rows),
{
    assert forall|a: GroupView, b: GroupView| #[trigger] by_sector()(a, b) implies !by_sector()(
        b,
        a,
    ) by {
        lemma_text_before_asymmetric(a.sector, b.sector);
    }
    lemma_ascending_unique(groups, sector_groups(rows), by_sector());
}

proof fn lemma_no_amounts(rows: Seq<RowView>, sector: Seq<char>)
    requires
        !has_sector(rows, sector),
    ensures
        sector_amounts(rows, sector) == Seq::<Seq<Seq<char>>>::empty(),
    decreases rows.len(),
{
    if rows.len() > 0 {
        assert(holding_sector(rows[rows.len() - 1]) != sector);
        assert forall|i: int| 0 <= i < rows.len() - 1 implies holding_sector(
            #[trigger] rows.drop_last()[i],
        ) != sector by {
            assert(rows.drop_last()[i] == rows[i]);
        }
        lemma_no_amounts(rows.drop_last(), sector);
    }
}

/// What one more holding does to the sectors.
proof fn lemma_one_more(rows: Seq<RowView>, row: RowView, sector: Seq<char>)
    ensures
        has_sector(rows.push(row), sector) <==> has_sector(rows, sector) || holding_sector(row)
            == sector,
        sector_amounts(rows.push(row), sector) == if holding_sector(row) == sector {
            sector_amounts(rows, sector).push(holding_amount(row))
        } else {
            sector_amounts(rows, sector)
        },
{
    let more = rows.push(row);
    assert(more.drop_last() =~= rows);
    if has_sector(rows, sector) {
        let i = choose|i: int| 0 <= i < rows.len() && holding_sector(#[trigger] rows[i]) == sector;
        assert(more[i] == rows[i]);
    }
    assert(more[rows.len() as int] == row);
    if has_sector(more, sector) && holding_sector(row) != sector {
        let i = choose|i: int| 0 <= i < more.len() && holding_sector(#[trigger] more[i]) == sector;
        assert(rows[i] == more[i]);
    }
}

/// A sector with one more holding.
pub open spec fn joined_group(group: GroupView, row: RowView) -> GroupView {
    GroupView { sector: group.sector, amounts: group.amounts.push(holding_amount(row)) }
}

/// A sector with its first holding.
pub open spec fn new_group(row: RowView) -> GroupView {
    GroupView { sector: holding_sector(row), amounts: seq![holding_amount(row)] }
}

/// One more holding of a sector that is there already.
proof fn lemma_join(groups: Seq<GroupView>, rows: Seq<RowView>, row: RowView, at: int)
    requires
        is_grouping(groups, rows),
        0 <= at < groups.len(),
        groups[at].sector == holding_sector(row),
    ensures
        is_grouping(groups.update(at, joined_group(groups[at], row)), rows.push(row)),
{
    let sector = holding_sector(row);
    let more = rows.push(row);
    let result = groups.update(at, joined_group(groups[at], row));
    assert(groups.contains(groups[at]));
    assert forall|i: int, j: int| 0 <= i < j < result.len() implies by_sector()(
        #[trigger] result[i],
        #[trigger] result[j],
    ) by {
        assert(by_sector()(groups[i], groups[j]));
    }
    assert forall|group: GroupView| #[trigger]
        result.contains(group) <==> has_sector(more, group.sector) && group.amounts
            == sector_amounts(more, group.sector) by {
        lemma_one_more(rows, row, group.sector);
        lemma_one_more(rows, row, sector);
        if result.contains(group) {
            let i = choose|i: int| 0 <= i < result.len() && result[i] == group;
            if i != at {
                assert(groups.contains(groups[i]));
                if i < at {
                    assert(by_sector()(groups[i], groups[at]));
                } else {
                    assert(by_sector()(groups[at], groups[i]));
                }
                if group.sector == sector {
                    lemma_text_before_asymmetric(sector, sector);
                }
            }
        }
        if has_sector(more, group.sector) && group.amounts == sector_amounts(more, group.sector) {
            if group.sector == sector {
                assert(result[at] == group);
            } else {
                assert(groups.contains(group));
                let i = choose|i: int| 0 <= i < groups.len() && groups[i] == group;
                assert(result[i] == group);
            }
        }
    }
}

/// A holding of a sector that is not there yet.
proof fn lemma_add(groups: Seq<GroupView>, rows: Seq<RowView>, row: RowView, at: int)
    requires
        is_grouping(groups, rows),
        0 <= at <= groups.len(),
        forall|k: int| 0 <= k < at ==> text_before(
            #[trigger] groups[k].sector,
            holding_sector(row),
        ),
        at < groups.len() ==> groups[at].sector != holding_sector(row) && !text_before(
            groups[at].sector,
            holding_sector(row),
        ),
    ensures
        is_grouping(groups.insert(at, new_group(row)), rows.push(row)),
{
    let sector = holding_sector(row);
    let more = rows.push(row);
    let result = groups.insert(at, new_group(row));
    assert forall|k: int| at <= k < groups.len() implies text_before(
        sector,
        #[trigger] groups[k].sector,
    ) by {
        lemma_text_before_total(groups[at].sector, sector);
        if k > at {
            assert(by_sector()(groups[at], groups[k]));
            lemma_text_before_transitive(sector, groups[at].sector, groups[k].sector);
        }
    }
    assert forall|k: int| 0 <= k < groups.len() implies #[trigger] groups[k].sector != sector by {
        if groups[k].sector == sector {
            lemma_text_before_asymmetric(sector, sector);
        }
    }
    assert(!has_sector(rows, sector)) by {
        let group = GroupView { sector, amounts: sector_amounts(rows, sector) };
        if has_sector(rows, sector) {
            assert(groups.contains(group));
            let k = choose|k: int| 0 <= k < groups.len() && groups[k] == group;
            assert(groups[k].sector == sector);
        }
    }
    lemma_no_amounts(rows, sector);
    assert forall|i: int, j: int| 0 <= i < j < result.len() implies by_sector()(
        #[trigger] result[i],
        #[trigger] result[j],
    ) by {
        let i0 = if i < at { i } else { i - 1 };
        let j0 = if j < at { j } else { j - 1 };
        if i == at {
            assert(result[j] == groups[j0]);
        } else if j == at {
            assert(result[i] == groups[i0]);
        } else {
            assert(result[i] == groups[i0] && result[j] == groups[j0]);
            assert(by_sector()(groups[i0], groups[j0]));
        }
    }
    assert forall|group: GroupView| #[trigger]
        result.contains(group) <==> has_sector(more, group.sector) && group.amounts
            == sector_amounts(more, group.sector) by {
        lemma_one_more(rows, row, group.sector);
        assert(Seq::<Seq<Seq<char>>>::empty().push(holding_amount(row)) =~= seq![
            holding_amount(row),
        ]);
        if result.contains(group) {
            let i = choose|i: int| 0 <= i < result.len() && result[i] == group;
            if i != at {
                let i0 = if i < at { i } else { i - 1 };
                assert(groups[i0] == group);
                assert(groups.contains(group));
                assert(groups[i0].sector != sector);
            }
        }
        if has_sector(more, group.sector) && group.amounts == sector_amounts(more, group.sector) {
            if group.sector == sector {
                assert(result[at] == group);
            } else {
                assert(groups.contains(group));
                let i = choose|i: int| 0 <= i < groups.len() && groups[i] == group;
                assert(result[if i < at { i } else { i + 1 }] == group);
            }
        }
    }
}

/// Where a sector belongs, at `from` or later.
proof fn lemma_place(groups: Seq<GroupView>, sector: Seq<char>, from: int) -> (at: int)
    requires
        0 <= from <= groups.len(),
        forall|k: int| 0 <= k < from ==> text_before(#[trigger] groups[k].sector, sector),
    ensures
        0 <= at <= groups.len(),
        forall|k: int| 0 <= k < at ==> text_before(#[trigger] groups[k].sector, sector),
        at < groups.len() ==> !text_before(groups[at].sector, sector),
    decreases groups.len() - from,
{
    if from < groups.len() && text_before(groups[from].sector, sector) {
        lemma_place(groups, sector, from + 1)
    } else {
        from
    }
}

/// There is such a list.
pub proof fn lemma_grouping_exists(rows: Seq<RowView>)
    ensures
        is_grouping(sector_groups(rows), rows),
    decreases rows.len(), 0int,
{
    if rows.len() == 0 {
        assert(is_grouping(Seq::empty(), rows));
    } else {
        let at = lemma_grouping_step(rows.drop_last(), rows.last());
        assert(rows.drop_last().push(rows.last()) =~= rows);
    }
}

/// One more holding joins its sector, or starts it.
pub proof fn lemma_grouping_step(rows: Seq<RowView>, row: RowView) -> (at: int)
    ensures
        0 <= at <= sector_groups(rows).len(),
        is_grouping(sector_groups(rows.push(row)), rows.push(row)),
        sector_groups(rows.push(row)) == if at < sector_groups(rows).len() && sector_groups(
            rows,
        )[at].sector == holding_sector(row) {
            sector_groups(rows).update(at, joined_group(sector_groups(rows)[at], row))
        } else {
            sector_groups(rows).insert(at, new_group(row))
        },
    decreases rows.len(), 1int,
{
    lemma_grouping_exists(rows);
    let groups = sector_groups(rows);
    let at = lemma_place(groups, holding_sector(row), 0);
    if at < groups.len() && groups[at].sector == holding_sector(row) {
        lemma_join(groups, rows, row, at);
        lemma_grouping_unique(groups.update(at, joined_group(groups[at], row)), rows.push(row));
    } else {
        lemma_add(groups, rows, row, at);
        lemma_grouping_unique(groups.insert(at, new_group(row)), rows.push(row));
    }
    at
}

/// Each sector with its holdings, by ascending names.
pub fn group_by_sector(rows: &Vec<Row>) -> (groups: Vec<SectorGroup>)
    ensures
        groups_view(groups@) == sector_groups(rows_view(rows@)),
{
    let mut groups: Vec<SectorGroup> = Vec::new();
    let ghost all = rows_view(rows@);
    for i in 0..rows.len()
        invariant
            all == rows_view(rows@),
            is_grouping(groups_view(groups@), all.take(i as int)),
    {
        let sector = sector_of(&rows[i]);
        let amount = amount_of(&rows[i]);
        let ghost before = groups_view(groups@);
        assert(all.take(i + 1) =~= all.take(i as int).push(all[i as int]));
        let mut at: usize = 0;
        while at < groups.len() && comes_before(groups[at].sector.as_str(), sector.as_str())
            invariant
                at <= groups@.len(),
                before == groups_view(groups@),
                forall|k: int| 0 <= k < at ==> text_before(#[trigger] before[k].sector, sector@),
            decreases groups@.len() - at,
        {
            at = at + 1;
        }
        if at < groups.len() && same_text(groups[at].sector.as_str(), sector.as_str()) {
            proof {
                lemma_join(before, all.take(i as int), all[i as int], at as int);
            }
            groups[at].amounts.push(amount);
            assert(groups@[at as int]@.amounts =~= before[at as int].amounts.push(amount@));
            assert(groups_view(groups@) =~= before.update(
                at as int,
                (GroupView {
                    sector: sector@,
                    amounts: before[at as int].amounts.push(amount@),
                }),
            ));
        } else {
            proof {
                lemma_add(before, all.take(i as int), all[i as int], at as int);
            }
            let mut amounts: Vec<Amount> = Vec::new();
            amounts.push(amount);
            let group = SectorGroup { sector, amounts };
            assert(group@.amounts =~= seq![amount@]);
            groups.insert(at, group);
            assert(groups_view(groups@) =~= before.insert(at as int, group@));
        }
    }
    assert(all.take(rows@.len() as int) =~= all);
    proof {
        lemma_grouping_unique(groups_view(groups@), all);
    }
    groups
}

/// What the values of a sector's holdings come to: their sum, and its share of all sectors in
/// percent.
#[derive(Debug)]
pub struct SectorNumbers {
    pub flow: Real,
    pub weight: Real,
}

/// A sector as it is reported.
pub open spec fn sector_json(sector: Seq<char>, numbers: SectorNumbers) -> JsonView {
    JsonView::Object(
        map![
            "sector"@ => JsonView::text(sector),
            "flow"@ => JsonView::Datum(real_datum(numbers.flow.bits, numbers.flow.text@)),
            "direction"@ => JsonView::text("inflow"@),
            "weight"@ => JsonView::Datum(real_datum(numbers.weight.bits, numbers.weight.text@)),
        ],
    )
}

fn report_sector(sector: &str, numbers: &SectorNumbers) -> (json: Json)
    ensures
        json@ == sector_json(sector@, *numbers),
{
    Json::Object(
        Object::new()
            .with("sector", Json::text(sector))
            .with("flow", Json::Datum(numbers.flow.to_datum()))
            .with("direction", Json::text("inflow"))
            .with("weight", Json::Datum(numbers.weight.to_datum())),
    )
}

/// The places of the flows among the others.
pub open spec fn flow_ranks(numbers: Seq<SectorNumbers>) -> Seq<int> {
    Seq::new(numbers.len(), |i: int| real_rank(numbers[i].flow.bits))
}

/// The sectors as they are reported: at most five, those with the largest flows, the largest
/// first, and of two with one flow the one whose name comes first.
pub open spec fn rotation(groups: Seq<GroupView>, numbers: Seq<SectorNumbers>) -> Seq<JsonView> {
    let order = ranking(flow_ranks(numbers));
    let count = if order.len() <= 5 {
        order.len()
    } else {
        5
    };
    Seq::new(count, |i: int| sector_json(groups[order[i]].sector, numbers[order[i]]))
}

/// The sectors as they are reported, by what the values of their holdings come to.
pub fn build_sector_rotation(groups: &Vec<SectorGroup>, numbers: &Vec<SectorNumbers>) -> (sectors:
    Array)
    requires
        groups@.len() == numbers@.len(),
    ensures
        sectors@ == rotation(groups_view(groups@), numbers@),
{
    let mut ranks: Vec<i64> = Vec::new();
    for i in 0..numbers.len()
        invariant
            ranks@.len() == i,
            forall|k: int| 0 <= k < i ==> #[trigger] ranks@[k] == real_rank(numbers@[k].flow.bits),
    {
        ranks.push(numbers[i].flow.rank());
    }
    assert(key_values(ranks@) =~= flow_ranks(numbers@));
    let order = rank_falling(&ranks);
    let ghost positions = position_values(order@);
    let count: usize = if order.len() <= 5 { order.len() } else { 5 };
    let mut sectors = Array::new();
    let ghost all = rotation(groups_view(groups@), numbers@);
    for i in 0..count
        invariant
            count <= order@.len(),
            positions == position_values(order@),
            positions == ranking(flow_ranks(numbers@)),
            crate::ranking::is_ranking(positions, flow_ranks(numbers@)),
            groups@.len() == numbers@.len(),
            all == rotation(groups_view(groups@), numbers@),
            all.len() == count,
            sectors@ == all.take(i as int),
    {
        let position: usize = order[i];
        assert(positions.contains(positions[i as int]));
        sectors.push(report_sector(groups[position].sector.as_str(), &numbers[position]));
        assert(sectors@ =~= all.take(i + 1));
    }
    assert(all.take(count as int) =~= all);
    sectors
}

} // verus!
