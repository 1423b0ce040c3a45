//! The key-value maps of the `serde_json` crate.

use vstd::prelude::*;

use crate::json::{Datum, DatumView, Field, Row, RowView};
#[allow(unused_imports)]
use crate::json::fields_view;
#[allow(unused_imports)]
use crate::order::{ascends, lemma_ascending_unique, lemma_text_before_asymmetric};
#[allow(unused_imports)]
use crate::text::text_before;

verus! {

/// The type `serde_json::Map`.
#[verifier::external_type_specification]
#[verifier::external_body]
#[verifier::reject_recursive_types(K)]
#[verifier::reject_recursive_types(V)]
pub struct ExMap<K, V>(serde_json::Map<K, V>);

/// The type `serde_json::Value`.
#[verifier::external_type_specification]
#[verifier::external_body]
pub struct ExValue(serde_json::Value);

/// What `map` holds: each key with its value. A number that is not an integer, and an array or
/// an object, stand as their compact JSON text.
pub uninterp spec fn entries(map: serde_json::Map<String, serde_json::Value>) -> RowView;

/// A name with its value.
pub type Pair = (Seq<char>, DatumView);

/// The pairs that `fields` hold, in order.
pub open spec fn pairs(fields: Seq<Field>) -> Seq<Pair> {
    Seq::new(fields.len(), |i: int| (fields[i].name@, fields[i].value@))
}

/// The order of pairs by their names.
pub open spec fn by_name() -> spec_fn(Pair, Pair) -> bool {
    |a: Pair, b: Pair| text_before(a.0, b.0)
}

/// Whether `list` holds what `map` holds, by ascending names.
pub open spec fn lists(list: Seq<Pair>, map: RowView) -> bool {
    &&& ascends(list, by_name())
    &&& forall|pair: Pair| #[trigger]
        list.contains(pair) <==> map.contains_key(pair.0) && map[pair.0] == pair.1
}

/// What `map` holds, by ascending names.
pub open spec fn listed(map: RowView) -> Seq<Pair> {
    choose|list: Seq<Pair>| lists(list, map)
}

/// Fields whose names ascend hold one value for each name, in the order of the names.
pub(crate) proof fn lemma_listed(fields: Seq<Field>)
    requires
        ascends(pairs(fields), by_name()),
    ensures
        lists(pairs(fields), fields_view(fields)),
        pairs(fields) == listed(fields_view(fields)),
{
    lemma_pairs_of_view(fields);
    assert(lists(pairs(fields), fields_view(fields)));
    let other = listed(fields_view(fields));
    assert forall|a: Pair, b: Pair| #[trigger] by_name()(a, b) implies !by_name()(b, a) by {
        lemma_text_before_asymmetric(a.0, b.0);
    }
    lemma_ascending_unique(pairs(fields), other, by_name());
}

proof fn lemma_pairs_of_view(fields: Seq<Field>)
    requires
        ascends(pairs(fields), by_name()),
    ensures
        forall|pair: Pair| #[trigger]
            pairs(fields).contains(pair) <==> fields_view(fields).contains_key(pair.0)
                && fields_view(fields)[pair.0] == pair.1,
    decreases fields.len(),
{
    if fields.len() > 0 {
        let short = fields.drop_last();
        let last = (fields.last().name@, fields.last().value@);
        assert(pairs(fields) =~= pairs(short).push(last));
        assert(ascends(pairs(short), by_name())) by {
            assert forall|i: int, j: int| 0 <= i < j < pairs(short).len() implies by_name()(
                #[trigger] pairs(short)[i],
                #[trigger] pairs(short)[j],
            ) by {
                assert(by_name()(pairs(fields)[i], pairs(fields)[j]));
            }
        }
        lemma_pairs_of_view(short);
        assert forall|pair: Pair| #[trigger]
            pairs(fields).contains(pair) <==> fields_view(fields).contains_key(pair.0)
                && fields_view(fields)[pair.0] == pair.1 by {
            if pairs(short).contains(pair) {
                let i = choose|i: int| 0 <= i < pairs(short).len() && pairs(short)[i] == pair;
                assert(by_name()(pairs(fields)[i], pairs(fields)[short.len() as int]));
                if pair.0 == last.0 {
                    lemma_text_before_asymmetric(pair.0, last.0);
                }
                assert(pairs(fields)[i] == pair);
            }
            if pair == last {
                assert(pairs(fields)[short.len() as int] == pair);
            }
            if pairs(fields).contains(pair) {
                let i = choose|i: int| 0 <= i < pairs(fields).len() && pairs(fields)[i] == pair;
                if i < short.len() {
                    assert(pairs(short)[i] == pair);
                }
            }
        }
    }
}

/// Trusts `Map::new` of the `serde_json` crate: the map is empty.
#[verifier::external_body]
pub(crate) fn new_entries() -> (fresh: serde_json::Map<String, serde_json::Value>)
    ensures
        entries(fresh) == RowView::empty(),
{
    serde_json::Map::new()
}

/// Trusts `Map::insert` of the `serde_json` crate: the key holds the integer or the text, whatever
/// it held before, and the other keys are as they were.
#[verifier::external_body]
pub(crate) fn insert_entry(
    map: &mut serde_json::Map<String, serde_json::Value>,
    key: &str,
    value: &Datum,
)
    requires
        value is Int || value is Text,
    ensures
        entries(*final(map)) == entries(*old(map)).insert(key@, value@),
{
    let value = match value {
        Datum::Int(n) => serde_json::Value::from(*n),
        Datum::Text(t) => serde_json::Value::from(t.as_str()),
        _ => serde_json::Value::Null,
    };
    map.insert(key.to_string(), value);
}

/// Trusts `Map::iter` of the `serde_json` crate, without its feature `preserve_order`: it goes
/// through the keys, each once and in ascending order, with their values.
#[verifier::external_body]
pub(crate) fn list_entries(map: &serde_json::Map<String, serde_json::Value>) -> (row: Row)
    ensures
        ascends(pairs(row.fields@), by_name()),
        row@ == entries(*map),
{
    let plain = |value: &serde_json::Value| match value {
        serde_json::Value::Null => Datum::Null,
        serde_json::Value::Bool(b) => Datum::Bool(*b),
        serde_json::Value::Number(n) => match (n.as_i64(), n.as_u64()) {
            (Some(n), _) => Datum::Int(n),
            (_, Some(n)) => Datum::Uint(n),
            _ => Datum::Decimal(n.to_string()),
        },
        serde_json::Value::String(s) => Datum::Text(s.clone()),
        other => Datum::Document(other.to_string()),
    };
    Row { fields: map.iter().map(|(k, v)| Field { name: k.clone(), value: plain(v) }).collect() }
}

} // verus!
