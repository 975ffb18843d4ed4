//! JSON documents as plain data: what the service sends, and what it reads back from others.
use vstd::prelude::*;

use crate::text::same_text;

verus! {

/// A JSON document. A number that is no 64-bit signed integer is kept as its text.
#[derive(Debug, PartialEq)]
pub enum Json {
    Null,
    Bool(bool),
    Int(i64),
    Number(String),
    Text(String),
    List(Vec<Json>),
    Object(Vec<(String, Json)>),
}

/// The mathematical value of a [`Json`].
pub enum JsonView {
    Null,
    Bool(bool),
    Int(int),
    Number(Seq<char>),
    Text(Seq<char>),
    List(Seq<JsonView>),
    Object(Seq<(Seq<char>, JsonView)>),
}

pub open spec fn json_view(document: Json) -> JsonView
    decreases document,
{
    match document {
        Json::Null => JsonView::Null,
        Json::Bool(b) => JsonView::Bool(b),
        Json::Int(n) => JsonView::Int(n as int),
        Json::Number(t) => JsonView::Number(t@),
        Json::Text(t) => JsonView::Text(t@),
        Json::List(items) => JsonView::List(
            Seq::new(
                items@.len(),
                |i: int|
                    if 0 <= i < items@.len() {
                        json_view(items@[i])
                    } else {
                        JsonView::Null
                    },
            ),
        ),
        Json::Object(members) => JsonView::Object(
            Seq::new(
                members@.len(),
                |i: int|
                    if 0 <= i < members@.len() {
                        (members@[i].0@, json_view(members@[i].1))
                    } else {
                        (Seq::<char>::empty(), JsonView::Null)
                    },
            ),
        ),
    }
}

impl View for Json {
    type V = JsonView;

    open spec fn view(&self) -> JsonView {
        json_view(*self)
    }
}

/// No members: what an object's members are written from, one `push` for each.
pub open spec fn no_members() -> Seq<(Seq<char>, JsonView)> {
    Seq::empty()
}

/// The values of a list of documents, in order.
pub open spec fn items_view(items: Seq<Json>) -> Seq<JsonView> {
    Seq::new(items.len(), |i: int| items[i]@)
}

/// The members of an object, in order.
pub open spec fn members_view(members: Seq<(String, Json)>) -> Seq<(Seq<char>, JsonView)> {
    Seq::new(members.len(), |i: int| (members[i].0@, members[i].1@))
}

pub proof fn lemma_list_view(items: Vec<Json>)
    ensures
        Json::List(items)@ == JsonView::List(items_view(items@)),
{
    assert(Json::List(items)@->List_0 =~= items_view(items@));
}

pub proof fn lemma_object_view(members: Vec<(String, Json)>)
    ensures
        Json::Object(members)@ == JsonView::Object(members_view(members@)),
{
    assert(Json::Object(members)@->Object_0 =~= members_view(members@));
}

/// The value of the first member called `key`, in the members from index `from` on.
pub open spec fn member_from(
    members: Seq<(Seq<char>, JsonView)>,
    key: Seq<char>,
    from: int,
) -> Option<JsonView>
    decreases members.len() - from,
{
    if from < 0 || from >= members.len() {
        None
    } else if members[from].0 == key {
        Some(members[from].1)
    } else {
        member_from(members, key, from + 1)
    }
}

impl JsonView {
    /// The member called `key`, where the document is an object that has one.
    pub open spec fn member(self, key: Seq<char>) -> Option<JsonView> {
        match self {
            JsonView::Object(members) => member_from(members, key, 0),
            _ => None,
        }
    }

    /// The first item, where the document is a list that has one.
    pub open spec fn first(self) -> Option<JsonView> {
        match self {
            JsonView::List(items) => if items.len() > 0 {
                Some(items[0])
            } else {
                None
            },
            _ => None,
        }
    }

    /// The text, where the document is one.
    pub open spec fn text(self) -> Option<Seq<char>> {
        match self {
            JsonView::Text(t) => Some(t),
            _ => None,
        }
    }

    /// The flag, where the document is one.
    pub open spec fn flag(self) -> Option<bool> {
        match self {
            JsonView::Bool(b) => Some(b),
            _ => None,
        }
    }
}

/// The text of the member called `key`, where there is such a member and it is a text.
pub open spec fn member_text(document: JsonView, key: Seq<char>) -> Option<Seq<char>> {
    match document.member(key) {
        Some(value) => value.text(),
        None => None,
    }
}

/// The flag of the member called `key`, where there is such a member and it is a flag.
pub open spec fn member_flag(document: JsonView, key: Seq<char>) -> Option<bool> {
    match document.member(key) {
        Some(value) => value.flag(),
        None => None,
    }
}

/// What an optional integer is as a document: `null` where it is absent.
pub open spec fn optional_int(value: Option<i64>) -> JsonView {
    match value {
        Some(n) => JsonView::Int(n as int),
        None => JsonView::Null,
    }
}

impl Json {
    /// The member called `key`, where this is an object that has one.
    pub fn get(&self, key: &str) -> (value: Option<&Json>)
        ensures
            value is Some <==> self@.member(key@) is Some,
            value matches Some(v) ==> self@.member(key@) == Some(v@),
    {
        match self {
            Json::Object(members) => {
                proof {
                    lemma_object_view(*members);
                }
                let ghost view = members_view(members@);
                let mut i: usize = 0;
                while i < members.len()
                    invariant
                        0 <= i <= members@.len(),
                        view == members_view(members@),
                        self@ == JsonView::Object(view),
                        member_from(view, key@, 0) == member_from(view, key@, i as int),
                    decreases members@.len() - i,
                {
                    if same_text(members[i].0.as_str(), key) {
                        return Some(&members[i].1);
                    }
                    i += 1;
                }
                None
            },
            _ => None,
        }
    }

    /// The first item, where this is a list that has one.
    pub fn first(&self) -> (item: Option<&Json>)
        ensures
            item is Some <==> self@.first() is Some,
            item matches Some(v) ==> self@.first() == Some(v@),
    {
        match self {
            Json::List(items) => {
                proof {
                    lemma_list_view(*items);
                }
                if items.len() > 0 {
                    Some(&items[0])
                } else {
                    None
                }
            },
            _ => None,
        }
    }

    /// The text, where this is one.
    pub fn as_text(&self) -> (text: Option<&str>)
        ensures
            text is Some <==> self@.text() is Some,
            text matches Some(t) ==> self@.text() == Some(t@),
    {
        match self {
            Json::Text(t) => Some(t.as_str()),
            _ => None,
        }
    }

    /// The flag, where this is one.
    pub fn as_bool(&self) -> (flag: Option<bool>)
        ensures
            flag == self@.flag(),
    {
        match self {
            Json::Bool(b) => Some(*b),
            _ => None,
        }
    }

    /// The text of the member called `key`.
    pub fn get_text(&self, key: &str) -> (text: Option<&str>)
        ensures
            text is Some <==> member_text(self@, key@) is Some,
            text matches Some(t) ==> member_text(self@, key@) == Some(t@),
    {
        match self.get(key) {
            Some(value) => value.as_text(),
            None => None,
        }
    }

    /// The flag of the member called `key`.
    pub fn get_bool(&self, key: &str) -> (flag: Option<bool>)
        ensures
            flag == member_flag(self@, key@),
    {
        match self.get(key) {
            Some(value) => value.as_bool(),
            None => None,
        }
    }

    /// A text as a document.
    pub fn text(value: &str) -> (document: Json)
        ensures
            document@ == JsonView::Text(value@),
    {
        Json::Text(value.to_owned())
    }

    /// A flag as a document.
    pub fn flag(value: bool) -> (document: Json)
        ensures
            document@ == JsonView::Bool(value),
    {
        Json::Bool(value)
    }

    /// An integer as a document.
    pub fn integer(value: i64) -> (document: Json)
        ensures
            document@ == JsonView::Int(value as int),
    {
        Json::Int(value)
    }

    /// An optional integer as a document.
    pub fn optional_int(value: Option<i64>) -> (document: Json)
        ensures
            document@ == optional_int(value),
    {
        match value {
            Some(n) => Json::Int(n),
            None => Json::Null,
        }
    }

    /// A list as a document.
    pub fn list(items: Vec<Json>) -> (document: Json)
        ensures
            document@ == JsonView::List(items_view(items@)),
    {
        proof {
            lemma_list_view(items);
        }
        Json::List(items)
    }

    /// A list of texts as a document.
    pub fn texts(values: &Vec<String>) -> (document: Json)
        ensures
            document@ == texts_view(values@),
    {
        let mut items: Vec<Json> = Vec::new();
        let mut i: usize = 0;
        while i < values.len()
            invariant
                0 <= i <= values@.len(),
                items@.len() == i,
                forall|j: int|
                    0 <= j < i ==> (#[trigger] items@[j])@ == JsonView::Text(values@[j]@),
            decreases values@.len() - i,
        {
            items.push(Json::Text(values[i].clone()));
            i += 1;
        }
        proof {
            lemma_list_view(items);
            assert(items_view(items@) =~= texts_view(values@)->List_0);
        }
        Json::List(items)
    }
}

/// A list of texts as a document.
pub open spec fn texts_view(values: Seq<String>) -> JsonView {
    JsonView::List(Seq::new(values.len(), |i: int| JsonView::Text(values[i]@)))
}

/// An object under construction.
pub struct JsonObject {
    members: Vec<(String, Json)>,
}

impl View for JsonObject {
    type V = Seq<(Seq<char>, JsonView)>;

    closed spec fn view(&self) -> Seq<(Seq<char>, JsonView)> {
        members_view(self.members@)
    }
}

impl JsonObject {
    /// The object without members.
    pub fn new() -> (object: JsonObject)
        ensures
            object@ == no_members(),
    {
        let object = JsonObject { members: Vec::new() };
        assert(object@ =~= no_members());
        object
    }

    /// The object with one more member behind the others.
    pub fn with(self, name: &str, value: Json) -> (object: JsonObject)
        ensures
            object@ == self@.push((name@, value@)),
    {
        let mut members = self.members;
        members.push((name.to_owned(), value));
        let object = JsonObject { members };
        assert(object@ =~= self@.push((name@, value@)));
        object
    }

    /// The finished document.
    pub fn build(self) -> (document: Json)
        ensures
            document@ == JsonView::Object(self@),
    {
        proof {
            lemma_object_view(self.members);
        }
        Json::Object(self.members)
    }
}

// ---------------------------------------------------------------------------
// Laws
// ---------------------------------------------------------------------------

impl JsonView {
    /// Whether the member at a place has a name and a value.
    pub open spec fn tells(self, place: int, name: Seq<char>, value: JsonView) -> bool {
        self matches JsonView::Object(members) && 0 <= place < members.len() && members[place] == (
            name,
            value,
        )
    }

    /// How many members or items a document has.
    pub open spec fn size(self) -> int {
        match self {
            JsonView::Object(members) => members.len() as int,
            JsonView::List(items) => items.len() as int,
            _ => 0,
        }
    }

    /// Whether the item at a place is a document.
    pub open spec fn lists(self, place: int, item: JsonView) -> bool {
        self matches JsonView::List(items) && 0 <= place < items.len() && items[place] == item
    }
}

/// A document means what is written in it: flags, numbers and texts as they are, and each item of
/// a list and each member of an object at its place.
pub proof fn documents_mean_what_is_written(
    b: bool,
    n: i64,
    t: String,
    items: Vec<Json>,
    members: Vec<(String, Json)>,
    i: int,
)
    ensures
        Json::Null@ == JsonView::Null,
        Json::Bool(b)@ == JsonView::Bool(b),
        Json::Int(n)@ == JsonView::Int(n as int),
        Json::Number(t)@ == JsonView::Number(t@),
        Json::Text(t)@ == JsonView::Text(t@),
        Json::List(items)@.size() == items@.len(),
        0 <= i < items@.len() ==> Json::List(items)@.lists(i, items@[i]@),
        Json::Object(members)@.size() == members@.len(),
        0 <= i < members@.len() ==> Json::Object(members)@.tells(
            i,
            members@[i].0@,
            members@[i].1@,
        ),
        0 <= i < items@.len() ==> items_view(items@)[i] == items@[i]@,
        items_view(items@).len() == items@.len(),
{
    lemma_list_view(items);
    lemma_object_view(members);
}

/// A member is found by its name, the first of that name, and nothing is found where no member has
/// the name.
pub proof fn members_are_found_by_name(members: Seq<(Seq<char>, JsonView)>, key: Seq<char>, i: int)
    ensures
        0 <= i < members.len() && members[i].0 == key && (forall|j: int|
            0 <= j < i ==> (#[trigger] members[j]).0 != key) ==> JsonView::Object(members).member(
            key,
        ) == Some(members[i].1),
        (forall|j: int| 0 <= j < members.len() ==> (#[trigger] members[j]).0 != key)
            ==> JsonView::Object(members).member(key) is None,
{
    lemma_member_from(members, key, 0, i);
}

proof fn lemma_member_from(
    members: Seq<(Seq<char>, JsonView)>,
    key: Seq<char>,
    from: int,
    i: int,
)
    requires
        0 <= from,
    ensures
        from <= i < members.len() && members[i].0 == key && (forall|j: int|
            from <= j < i ==> (#[trigger] members[j]).0 != key) ==> member_from(members, key, from)
            == Some(members[i].1),
        (forall|j: int| from <= j < members.len() ==> (#[trigger] members[j]).0 != key)
            ==> member_from(members, key, from) is None,
    decreases members.len() - from,
{
    if from < members.len() {
        lemma_member_from(members, key, from + 1, i);
    }
}

/// Only an object has members, only a list a first item, only a text a text and only a flag a flag.
pub proof fn parts_are_of_their_kind(document: JsonView, key: Seq<char>, t: Seq<char>, b: bool)
    ensures
        document !is Object ==> document.member(key) is None,
        document.first() is Some <==> document is List && document.size() > 0,
        document.first() matches Some(item) ==> document.lists(0, item),
        document.text() == Some(t) <==> document == JsonView::Text(t),
        document.flag() == Some(b) <==> document == JsonView::Bool(b),
        member_text(document, key) == Some(t) <==> document.member(key) == Some(JsonView::Text(t)),
        member_flag(document, key) == Some(b) <==> document.member(key) == Some(JsonView::Bool(b)),
{
}

/// An optional integer is told as the integer, or as nothing.
pub proof fn optional_integers_are_told(n: i64)
    ensures
        optional_int(Some(n)) == JsonView::Int(n as int),
        optional_int(None) == JsonView::Null,
{
}

/// A list of texts tells each text at its place.
pub proof fn texts_are_told_in_order(values: Seq<String>, i: int)
    ensures
        texts_view(values) is List,
        texts_view(values).size() == values.len(),
        0 <= i < values.len() ==> texts_view(values).lists(i, JsonView::Text(values[i]@)),
{
}

} // verus!
