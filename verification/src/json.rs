//! The JSON values that the gateway reads from rows and requests, and the documents that it
//! answers with.

use vstd::prelude::*;

use crate::text::same_text;

verus! {

/// A JSON value as a table row or a request body holds it.
///
/// Scalars are kept apart. A number that is not an integer, and an array or an object, are kept
/// as their compact JSON text: the gateway passes them on and never looks inside.
#[derive(Debug)]
pub enum Datum {
    Null,
    Bool(bool),
    /// An integer of the signed range.
    Int(i64),
    /// An integer of the unsigned range.
    Uint(u64),
    /// Any other number, as its JSON text.
    Decimal(String),
    Text(String),
    /// An array or an object, as its JSON text.
    Document(String),
}

/// What a [`Datum`] is.
pub enum DatumView {
    Null,
    Bool(bool),
    Int(int),
    Uint(int),
    Decimal(Seq<char>),
    Text(Seq<char>),
    Document(Seq<char>),
}

impl View for Datum {
    type V = DatumView;

    open spec fn view(&self) -> DatumView {
        match self {
            Datum::Null => DatumView::Null,
            Datum::Bool(b) => DatumView::Bool(*b),
            Datum::Int(n) => DatumView::Int(*n as int),
            Datum::Uint(n) => DatumView::Uint(*n as int),
            Datum::Decimal(t) => DatumView::Decimal(t@),
            Datum::Text(t) => DatumView::Text(t@),
            Datum::Document(t) => DatumView::Document(t@),
        }
    }
}

/// A document that the gateway answers with.
#[derive(Debug)]
pub enum Json {
    Datum(Datum),
    Array(Array),
    Object(Object),
}

/// The items of a JSON array, in order.
#[derive(Debug)]
pub struct Array {
    pub items: Vec<Json>,
}

/// One key of a JSON object with its value.
#[derive(Debug)]
pub struct Member {
    pub key: String,
    pub value: Json,
}

/// The members of a JSON object. Where a key occurs more than once, the last member counts.
#[derive(Debug)]
pub struct Object {
    pub members: Vec<Member>,
}

/// What a [`Json`] document is.
pub enum JsonView {
    Datum(DatumView),
    Array(Seq<JsonView>),
    Object(Map<Seq<char>, JsonView>),
}

/// The document that `json` holds.
pub open spec fn json_view(json: Json) -> JsonView
    decreases json,
{
    match json {
        Json::Datum(v) => JsonView::Datum(v@),
        Json::Array(a) => JsonView::Array(items_view(a.items@)),
        Json::Object(o) => JsonView::Object(members_view(o.members@)),
    }
}

/// The documents that `items` hold, in order.
pub open spec fn items_view(items: Seq<Json>) -> Seq<JsonView>
    decreases items,
{
    if items.len() == 0 {
        Seq::empty()
    } else {
        items_view(items.drop_last()).push(json_view(items.last()))
    }
}

/// What `members` map each key to: of two members with one key the later.
pub open spec fn members_view(members: Seq<Member>) -> Map<Seq<char>, JsonView>
    decreases members,
{
    if members.len() == 0 {
        Map::empty()
    } else {
        members_view(members.drop_last()).insert(
            members.last().key@,
            json_view(members.last().value),
        )
    }
}

impl View for Json {
    type V = JsonView;

    open spec fn view(&self) -> JsonView {
        json_view(*self)
    }
}

impl View for Array {
    type V = Seq<JsonView>;

    open spec fn view(&self) -> Seq<JsonView> {
        items_view(self.items@)
    }
}

impl View for Object {
    type V = Map<Seq<char>, JsonView>;

    open spec fn view(&self) -> Map<Seq<char>, JsonView> {
        members_view(self.members@)
    }
}

proof fn lemma_items_view_len(items: Seq<Json>)
    ensures
        items_view(items).len() == items.len(),
    decreases items.len(),
{
    if items.len() > 0 {
        lemma_items_view_len(items.drop_last());
    }
}

impl Array {
    pub fn new() -> (array: Array)
        ensures
            array@ == Seq::<JsonView>::empty(),
    {
        Array { items: Vec::new() }
    }

    pub fn push(&mut self, item: Json)
        ensures
            final(self)@ == old(self)@.push(item@),
    {
        self.items.push(item);
        assert(self.items@.drop_last() =~= old(self).items@);
    }

    /// The array with one more item.
    pub fn with(self, item: Json) -> (array: Array)
        ensures
            array@ == self@.push(item@),
    {
        let mut array = self;
        array.push(item);
        array
    }

    /// The number of items.
    pub fn len(&self) -> (n: usize)
        ensures
            n == self@.len(),
    {
        proof {
            lemma_items_view_len(self.items@);
        }
        self.items.len()
    }
}

impl Object {
    pub fn new() -> (object: Object)
        ensures
            object@ == Map::<Seq<char>, JsonView>::empty(),
    {
        Object { members: Vec::new() }
    }

    /// Sets the member `key` to `value`.
    pub fn put(&mut self, key: &str, value: Json)
        ensures
            final(self)@ == old(self)@.insert(key@, value@),
    {
        self.members.push(Member { key: key.to_string(), value });
        assert(self.members@.drop_last() =~= old(self).members@);
    }

    /// The object with the member `key` set to `value`.
    pub fn with(self, key: &str, value: Json) -> (object: Object)
        ensures
            object@ == self@.insert(key@, value@),
    {
        let mut object = self;
        object.put(key, value);
        object
    }

    /// The member `key`.
    pub fn get(&self, key: &str) -> (member: Option<&Json>)
        ensures
            if self@.contains_key(key@) {
                member matches Some(json) && json@ == self@[key@]
            } else {
                member is None
            },
    {
        let mut i: usize = self.members.len();
        assert(self.members@.take(i as int) =~= self.members@);
        while i > 0
            invariant
                i <= self.members@.len(),
                self@.contains_key(key@) == members_view(self.members@.take(i as int)).contains_key(
                    key@,
                ),
                self@.contains_key(key@) ==> self@[key@] == members_view(
                    self.members@.take(i as int),
                )[key@],
            decreases i,
        {
            i = i - 1;
            assert(self.members@.take(i + 1).drop_last() =~= self.members@.take(i as int));
            if same_text(self.members[i].key.as_str(), key) {
                return Some(&self.members[i].value);
            }
        }
        None
    }
}

impl JsonView {
    /// A string.
    pub open spec fn text(s: Seq<char>) -> JsonView {
        JsonView::Datum(DatumView::Text(s))
    }

    /// An integer.
    pub open spec fn number(n: int) -> JsonView {
        JsonView::Datum(DatumView::Int(n))
    }

    /// A size.
    pub open spec fn size(n: int) -> JsonView {
        JsonView::Datum(
            if n <= i64::MAX {
                DatumView::Int(n)
            } else {
                DatumView::Uint(n)
            },
        )
    }

    /// A number that is not written as an integer.
    pub open spec fn decimal(s: Seq<char>) -> JsonView {
        JsonView::Datum(DatumView::Decimal(s))
    }

    /// `true` or `false`.
    pub open spec fn flag(b: bool) -> JsonView {
        JsonView::Datum(DatumView::Bool(b))
    }
}

impl Json {
    pub fn text(s: &str) -> (json: Json)
        ensures
            json@ == JsonView::text(s@),
    {
        Json::Datum(Datum::Text(s.to_string()))
    }

    pub fn number(n: i64) -> (json: Json)
        ensures
            json@ == JsonView::number(n as int),
    {
        Json::Datum(Datum::Int(n))
    }

    pub fn size(n: usize) -> (json: Json)
        ensures
            json@ == JsonView::size(n as int),
    {
        let n = n as u64;
        Json::Datum(
            if n <= 9223372036854775807 {
                Datum::Int(n as i64)
            } else {
                Datum::Uint(n)
            },
        )
    }

    pub fn decimal(s: &str) -> (json: Json)
        ensures
            json@ == JsonView::decimal(s@),
    {
        Json::Datum(Datum::Decimal(s.to_string()))
    }

    pub fn flag(b: bool) -> (json: Json)
        ensures
            json@ == JsonView::flag(b),
    {
        Json::Datum(Datum::Bool(b))
    }

    /// The member `key` of an object.
    pub fn get(&self, key: &str) -> (member: Option<&Json>)
        ensures
            match self@ {
                JsonView::Object(map) => if map.contains_key(key@) {
                    member matches Some(json) && json@ == map[key@]
                } else {
                    member is None
                },
                _ => member is None,
            },
    {
        match self {
            Json::Object(object) => object.get(key),
            _ => None,
        }
    }

    /// The characters of a string.
    pub fn as_str(&self) -> (text: Option<&str>)
        ensures
            match self@ {
                JsonView::Datum(DatumView::Text(s)) => text matches Some(t) && t@ == s,
                _ => text is None,
            },
    {
        match self {
            Json::Datum(Datum::Text(s)) => Some(s.as_str()),
            _ => None,
        }
    }
}

impl Datum {
    /// The same value once more.
    pub fn copy(&self) -> (value: Datum)
        ensures
            value@ == self@,
    {
        match self {
            Datum::Null => Datum::Null,
            Datum::Bool(b) => Datum::Bool(*b),
            Datum::Int(n) => Datum::Int(*n),
            Datum::Uint(n) => Datum::Uint(*n),
            Datum::Decimal(t) => Datum::Decimal(t.clone()),
            Datum::Text(t) => Datum::Text(t.clone()),
            Datum::Document(t) => Datum::Document(t.clone()),
        }
    }
}

/// One column of a row with its value.
#[derive(Debug)]
pub struct Field {
    pub name: String,
    pub value: Datum,
}

/// A row of a query's result. Where a column name occurs more than once, the last one counts.
#[derive(Debug)]
pub struct Row {
    pub fields: Vec<Field>,
}

/// What a [`Row`] maps each column name to.
pub type RowView = Map<Seq<char>, DatumView>;

/// What `fields` map each name to: of two fields with one name the later.
pub open spec fn fields_view(fields: Seq<Field>) -> RowView
    decreases fields.len(),
{
    if fields.len() == 0 {
        Map::empty()
    } else {
        fields_view(fields.drop_last()).insert(fields.last().name@, fields.last().value@)
    }
}

impl View for Row {
    type V = RowView;

    open spec fn view(&self) -> RowView {
        fields_view(self.fields@)
    }
}

/// What each of `rows` maps its column names to.
pub open spec fn rows_view(rows: Seq<Row>) -> Seq<RowView> {
    Seq::new(rows.len(), |i: int| rows[i]@)
}

/// `row` as a JSON object.
pub open spec fn row_json(row: RowView) -> JsonView {
    JsonView::Object(Map::new(|name| row.contains_key(name), |name| JsonView::Datum(row[name])))
}

/// `rows` as a JSON array of objects.
pub open spec fn rows_json(rows: Seq<RowView>) -> JsonView {
    JsonView::Array(Seq::new(rows.len(), |i: int| row_json(rows[i])))
}

impl Row {
    pub fn new() -> (row: Row)
        ensures
            row@ == Map::<Seq<char>, DatumView>::empty(),
    {
        Row { fields: Vec::new() }
    }

    /// Sets the column `name` to `value`.
    pub fn put(&mut self, name: &str, value: Datum)
        ensures
            final(self)@ == old(self)@.insert(name@, value@),
    {
        self.fields.push(Field { name: name.to_string(), value });
        assert(self.fields@.drop_last() =~= old(self).fields@);
    }

    /// The value of the column `name`.
    pub fn get(&self, name: &str) -> (value: Option<&Datum>)
        ensures
            if self@.contains_key(name@) {
                value matches Some(v) && v@ == self@[name@]
            } else {
                value is None
            },
    {
        let mut i: usize = self.fields.len();
        assert(self.fields@.take(i as int) =~= self.fields@);
        while i > 0
            invariant
                i <= self.fields@.len(),
                self@.contains_key(name@) == fields_view(self.fields@.take(i as int)).contains_key(
                    name@,
                ),
                self@.contains_key(name@) ==> self@[name@] == fields_view(
                    self.fields@.take(i as int),
                )[name@],
            decreases i,
        {
            i = i - 1;
            assert(self.fields@.take(i + 1).drop_last() =~= self.fields@.take(i as int));
            if same_text(self.fields[i].name.as_str(), name) {
                return Some(&self.fields[i].value);
            }
        }
        None
    }

    /// The row as a JSON object.
    pub fn to_json(&self) -> (json: Json)
        ensures
            json@ == row_json(self@),
    {
        let mut object = Object::new();
        assert(object@ =~= row_json(fields_view(self.fields@.take(0)))->Object_0);
        for i in 0..self.fields.len()
            invariant
                JsonView::Object(object@) == row_json(fields_view(self.fields@.take(i as int))),
        {
            object.put(self.fields[i].name.as_str(), Json::Datum(self.fields[i].value.copy()));
            proof {
                let before = self.fields@.take(i as int);
                let after = self.fields@.take(i + 1);
                assert(after.drop_last() =~= before);
                assert(row_json(fields_view(after))->Object_0 =~= row_json(
                    fields_view(before),
                )->Object_0.insert(
                    self.fields@[i as int].name@,
                    JsonView::Datum(self.fields@[i as int].value@),
                ));
            }
        }
        assert(self.fields@.take(self.fields@.len() as int) =~= self.fields@);
        Json::Object(object)
    }
}

/// Rows as a JSON array.
pub fn rows_to_json(rows: &Vec<Row>) -> (json: Json)
    ensures
        json@ == rows_json(rows_view(rows@)),
{
    let mut array = Array::new();
    for i in 0..rows.len()
        invariant
            array@ == Seq::new(i as nat, |k: int| row_json(rows@[k]@)),
    {
        array.push(rows[i].to_json());
        assert(array@ =~= Seq::new((i + 1) as nat, |k: int| row_json(rows@[k]@)));
    }
    assert(array@ =~= rows_json(rows_view(rows@))->Array_0);
    Json::Array(array)
}

} // verus!
