//! JSON documents as trees, and the texts that stand for them. The remote
//! calls answer with such documents, and requests and commands are sent as
//! such.

use crate::text::decimal;
use crate::text::decimal_string;
use crate::text::digits_number;
use crate::text::join;
use crate::text::joined;
use crate::text::parse_digits;
use vstd::prelude::*;
use vstd::string::*;

verus! {

/// A JSON document.
#[derive(Debug, PartialEq)]
pub enum Json {
    Null,
    Bool(bool),
    /// A number that is an unsigned integer of at most 64 bits.
    Number(u64),
    /// Any other number, kept as it is written.
    Numeral(String),
    Text(String),
    Array(Vec<Json>),
    /// The members in the order in which they were written. Where a name
    /// occurs twice, the later member counts.
    Object(Vec<(String, Json)>),
}

/// What a `Json` stands for.
pub enum JsonView {
    Null,
    Bool(bool),
    Number(u64),
    Numeral(Seq<char>),
    Text(Seq<char>),
    Array(Seq<JsonView>),
    Object(Seq<(Seq<char>, JsonView)>),
}

/// What a document stands for.
pub open spec fn json_view(j: Json) -> JsonView
    decreases j,
{
    match j {
        Json::Null => JsonView::Null,
        Json::Bool(b) => JsonView::Bool(b),
        Json::Number(n) => JsonView::Number(n),
        Json::Numeral(s) => JsonView::Numeral(s@),
        Json::Text(s) => JsonView::Text(s@),
        Json::Array(items) => JsonView::Array(
            Seq::new(
                items.len() as nat,
                |i: int|
                    if 0 <= i < items.len() {
                        json_view(items[i])
                    } else {
                        JsonView::Null
                    },
            ),
        ),
        Json::Object(members) => JsonView::Object(
            Seq::new(
                members.len() as nat,
                |i: int|
                    if 0 <= i < members.len() {
                        (members[i].0@, json_view(members[i].1))
                    } else {
                        (Seq::empty(), JsonView::Null)
                    },
            ),
        ),
    }
}

impl View for Json {
    type V = JsonView;

    open spec fn view(&self) -> JsonView {
        json_view(*self)
    }
}

impl Clone for Json {
    fn clone(&self) -> (r: Json)
        ensures
            r@ == self@,
    {
        self.duplicate()
    }
}

/// The views of the items of an array.
pub open spec fn items_view(items: Seq<Json>) -> Seq<JsonView> {
    Seq::new(items.len(), |i: int| items[i]@)
}

/// The views of the members of an object.
pub open spec fn members_view(members: Seq<(String, Json)>) -> Seq<(Seq<char>, JsonView)> {
    Seq::new(members.len(), |i: int| (members[i].0@, members[i].1@))
}

/// The member of the name `key` that counts: the last one written.
pub open spec fn lookup(members: Seq<(Seq<char>, JsonView)>, key: Seq<char>) -> Option<JsonView>
    decreases members.len(),
{
    if members.len() == 0 {
        None
    } else if members.last().0 == key {
        Some(members.last().1)
    } else {
        lookup(members.drop_last(), key)
    }
}

impl JsonView {
    /// The member `key` of an object; nothing for other documents.
    pub open spec fn member(self, key: Seq<char>) -> Option<JsonView> {
        match self {
            JsonView::Object(members) => lookup(members, key),
            _ => None,
        }
    }

    /// The text of a string document.
    pub open spec fn text(self) -> Option<Seq<char>> {
        match self {
            JsonView::Text(s) => Some(s),
            _ => None,
        }
    }

    /// The value of an unsigned number document.
    pub open spec fn number(self) -> Option<u64> {
        match self {
            JsonView::Number(n) => Some(n),
            _ => None,
        }
    }

    /// The items of an array document.
    pub open spec fn items(self) -> Option<Seq<JsonView>> {
        match self {
            JsonView::Array(items) => Some(items),
            _ => None,
        }
    }
}

/// The view of an array is the views of its items.
pub proof fn lemma_array_view(items: Vec<Json>)
    ensures
        Json::Array(items)@ == JsonView::Array(items_view(items@)),
{
    assert(Json::Array(items)@->Array_0 =~= items_view(items@));
}

/// The view of an object is the views of its members.
pub proof fn lemma_object_view(members: Vec<(String, Json)>)
    ensures
        Json::Object(members)@ == JsonView::Object(members_view(members@)),
{
    assert(Json::Object(members)@->Object_0 =~= members_view(members@));
}

impl Json {
    /// A string document with the text `s`.
    pub fn text(s: &str) -> (r: Json)
        ensures
            r@ == JsonView::Text(s@),
    {
        Json::Text(s.to_owned())
    }

    /// An object with the members given.
    pub fn object(members: Vec<(String, Json)>) -> (r: Json)
        ensures
            r@ == JsonView::Object(members_view(members@)),
    {
        proof {
            lemma_object_view(members);
        }
        Json::Object(members)
    }

    /// An array with the items given.
    pub fn array(items: Vec<Json>) -> (r: Json)
        ensures
            r@ == JsonView::Array(items_view(items@)),
    {
        proof {
            lemma_array_view(items);
        }
        Json::Array(items)
    }

    /// The member `key` of an object.
    pub fn member(&self, key: &str) -> (r: Option<&Json>)
        ensures
            r is Some == self@.member(key@) is Some,
            r is Some ==> r->0@ == self@.member(key@)->0,
    {
        match self {
            Json::Object(members) => {
                proof {
                    lemma_object_view(*members);
                }
                let mut left: usize = members.len();
                assert(members_view(members@).subrange(0, left as int) =~= members_view(
                    members@,
                ));
                while left > 0
                    invariant
                        left <= members@.len(),
                        self@ == JsonView::Object(members_view(members@)),
                        lookup(members_view(members@), key@) == lookup(
                            members_view(members@).subrange(0, left as int),
                            key@,
                        ),
                    decreases left,
                {
                    left = left - 1;
                    let ghost upto = members_view(members@).subrange(0, left + 1);
                    assert(upto.drop_last() =~= members_view(members@).subrange(0, left as int));
                    assert(upto.last() == members_view(members@)[left as int]);
                    if crate::text::same_text(members[left].0.as_str(), key) {
                        return Some(&members[left].1);
                    }
                }
                None
            },
            _ => None,
        }
    }

    /// The text of a string document.
    pub fn as_text(&self) -> (r: Option<&String>)
        ensures
            r is Some == self@.text() is Some,
            r is Some ==> r->0@ == self@.text()->0,
    {
        match self {
            Json::Text(s) => Some(s),
            _ => None,
        }
    }

    /// The value of an unsigned number document.
    pub fn as_number(&self) -> (r: Option<u64>)
        ensures
            r == self@.number(),
    {
        match self {
            Json::Number(n) => Some(*n),
            _ => None,
        }
    }

    /// The items of an array document.
    pub fn as_array(&self) -> (r: Option<&Vec<Json>>)
        ensures
            r is Some == self@.items() is Some,
            r is Some ==> items_view(r->0@) == self@.items()->0,
    {
        match self {
            Json::Array(items) => {
                proof {
                    lemma_array_view(*items);
                }
                Some(items)
            },
            _ => None,
        }
    }

    /// Whether the document is `null`.
    pub fn is_null(&self) -> (r: bool)
        ensures
            r == (self@ is Null),
    {
        match self {
            Json::Null => true,
            _ => false,
        }
    }

    /// A copy of the document.
    pub fn duplicate(&self) -> (r: Json)
        ensures
            r@ == self@,
        decreases self,
    {
        match self {
            Json::Null => Json::Null,
            Json::Bool(b) => Json::Bool(*b),
            Json::Number(n) => Json::Number(*n),
            Json::Numeral(s) => Json::Numeral(s.clone()),
            Json::Text(s) => Json::Text(s.clone()),
            Json::Array(items) => {
                let mut copy: Vec<Json> = Vec::new();
                let mut i: usize = 0;
                while i < items.len()
                    invariant
                        *self == Json::Array(*items),
                        i <= items.len(),
                        copy@.len() == i,
                        forall|k: int| 0 <= k < i ==> copy@[k]@ == items@[k]@,
                    decreases items.len() - i,
                {
                    proof {
                        broadcast use vstd::std_specs::vec::axiom_vec_index_decreases;

                        assert(self->Array_0 == *items);
                        assert(decreases_to!(*self => self->Array_0));
                        assert(decreases_to!(*items => items[i as int]));
                    }
                    copy.push(items[i].duplicate());
                    i = i + 1;
                }
                proof {
                    lemma_array_view(*items);
                    lemma_array_view(copy);
                    assert(items_view(copy@) =~= items_view(items@));
                }
                Json::Array(copy)
            },
            Json::Object(members) => {
                let mut copy: Vec<(String, Json)> = Vec::new();
                let mut i: usize = 0;
                while i < members.len()
                    invariant
                        *self == Json::Object(*members),
                        i <= members.len(),
                        copy@.len() == i,
                        forall|k: int|
                            0 <= k < i ==> copy@[k].0@ == members@[k].0@ && copy@[k].1@
                                == members@[k].1@,
                    decreases members.len() - i,
                {
                    proof {
                        broadcast use vstd::std_specs::vec::axiom_vec_index_decreases;

                        assert(decreases_to!(*members => members[i as int]));
                        assert(self->Object_0 == *members);
                        assert(decreases_to!(*self => self->Object_0));
                        assert(decreases_to!(members[i as int] => members[i as int].1));
                    }
                    let member = &members[i];
                    copy.push((member.0.clone(), member.1.duplicate()));
                    i = i + 1;
                }
                proof {
                    lemma_object_view(*members);
                    lemma_object_view(copy);
                    assert(members_view(copy@) =~= members_view(members@));
                }
                Json::Object(copy)
            },
        }
    }
}

/// The outermost level of a document that was read from a text: what it
/// is, and for an array or an object the texts of what it holds.
#[derive(Clone, Debug, PartialEq)]
pub enum Shallow {
    Null,
    Bool(bool),
    /// A number, as it is written.
    Numeral(String),
    Text(String),
    /// The texts of the items of an array.
    Items(Vec<String>),
    /// The names of the members of an object, each with the text of its
    /// value.
    Members(Vec<(String, String)>),
}

/// What a `Shallow` stands for.
pub enum ShallowView {
    Null,
    Bool(bool),
    Numeral(Seq<char>),
    Text(Seq<char>),
    Items(Seq<Seq<char>>),
    Members(Seq<(Seq<char>, Seq<char>)>),
}

impl DeepView for Shallow {
    type V = ShallowView;

    open spec fn deep_view(&self) -> ShallowView {
        match self {
            Shallow::Null => ShallowView::Null,
            Shallow::Bool(flag) => ShallowView::Bool(*flag),
            Shallow::Numeral(text) => ShallowView::Numeral(text@),
            Shallow::Text(text) => ShallowView::Text(text@),
            Shallow::Items(items) => ShallowView::Items(items.deep_view()),
            Shallow::Members(members) => ShallowView::Members(members.deep_view()),
        }
    }
}

/// The outermost level of the document that `serde_json` reads from a
/// text, with the texts in which it writes what an array or an object
/// holds; nothing where it reads no document.
pub uninterp spec fn json_shallow(text: Seq<char>) -> Option<ShallowView>;

/// The text in which `serde_json` writes a string.
pub uninterp spec fn json_quoted(text: Seq<char>) -> Seq<char>;

/// Reads a document with `serde_json::from_str` and hands out its outermost
/// level; what an array or an object holds is handed out as the texts that
/// `to_string` of each value gives.
#[verifier::external_body]
fn shallow(text: &str) -> (r: Option<Shallow>)
    ensures
        r.deep_view() == json_shallow(text@),
{
    Some(match serde_json::from_str(text).ok()? {
        serde_json::Value::Null => Shallow::Null,
        serde_json::Value::Bool(flag) => Shallow::Bool(flag),
        serde_json::Value::Number(number) => Shallow::Numeral(number.to_string()),
        serde_json::Value::String(text) => Shallow::Text(text),
        serde_json::Value::Array(items) => Shallow::Items(
            items.iter().map(|item| item.to_string()).collect(),
        ),
        serde_json::Value::Object(members) => Shallow::Members(
            members.iter().map(|(name, value)| (name.clone(), value.to_string())).collect(),
        ),
    })
}

/// Writes a string as `serde_json::to_string` does: in quotes, with what
/// needs it escaped.
#[verifier::external_body]
fn quote(text: &str) -> (r: String)
    ensures
        r@ == json_quoted(text@),
{
    match serde_json::to_string(text) {
        Ok(quoted) => quoted,
        Err(_) => String::new(),
    }
}

/// How deep a document may be nested for it to be read.
pub const MAX_DEPTH: usize = 200;

/// The number document for a numeral: an unsigned number where the numeral
/// is one of at most 64 bits, and the numeral as it is written otherwise.
pub open spec fn numeral(text: Seq<char>) -> JsonView {
    match digits_number(text) {
        Some(number) => JsonView::Number(number),
        None => JsonView::Numeral(text),
    }
}

/// The document that a text stands for, where it is nested no deeper than
/// `depth` levels.
pub open spec fn parsed(text: Seq<char>, depth: nat) -> Option<JsonView>
    decreases depth,
{
    if depth == 0 {
        None
    } else {
        match json_shallow(text) {
            None => None,
            Some(ShallowView::Null) => Some(JsonView::Null),
            Some(ShallowView::Bool(flag)) => Some(JsonView::Bool(flag)),
            Some(ShallowView::Numeral(written)) => Some(numeral(written)),
            Some(ShallowView::Text(held)) => Some(JsonView::Text(held)),
            Some(ShallowView::Items(items)) => if forall|i: int|
                0 <= i < items.len() ==> parsed(#[trigger] items[i], (depth - 1) as nat) is Some {
                Some(
                    JsonView::Array(
                        Seq::new(
                            items.len(),
                            |i: int|
                                if 0 <= i < items.len() {
                                    parsed(items[i], (depth - 1) as nat)->0
                                } else {
                                    JsonView::Null
                                },
                        ),
                    ),
                )
            } else {
                None
            },
            Some(ShallowView::Members(members)) => if forall|i: int|
                0 <= i < members.len() ==> parsed((#[trigger] members[i]).1, (depth - 1) as nat)
                    is Some {
                Some(
                    JsonView::Object(
                        Seq::new(
                            members.len(),
                            |i: int|
                                if 0 <= i < members.len() {
                                    (members[i].0, parsed(members[i].1, (depth - 1) as nat)->0)
                                } else {
                                    (Seq::empty(), JsonView::Null)
                                },
                        ),
                    ),
                )
            } else {
                None
            },
        }
    }
}

/// The view of a document that may not be there.
pub open spec fn maybe(json: Option<Json>) -> Option<JsonView> {
    match json {
        Some(json) => Some(json@),
        None => None,
    }
}

/// The text of a document: as `serde_json` writes a string where it holds
/// one, numbers in decimal, and arrays and objects in brackets and braces
/// with commas between what they hold and a colon after each name.
pub open spec fn rendered(json: JsonView) -> Seq<char>
    decreases json, 0nat,
{
    match json {
        JsonView::Null => "null"@,
        JsonView::Bool(flag) => if flag {
            "true"@
        } else {
            "false"@
        },
        JsonView::Number(number) => decimal(number as nat),
        JsonView::Numeral(written) => written,
        JsonView::Text(held) => json_quoted(held),
        JsonView::Array(items) => "["@ + joined(item_texts(items), ","@) + "]"@,
        JsonView::Object(members) => "{"@ + joined(member_texts(members), ","@) + "}"@,
    }
}

/// The texts of the items of an array.
pub open spec fn item_texts(items: Seq<JsonView>) -> Seq<Seq<char>>
    decreases items, items.len(),
{
    if items.len() == 0 {
        seq![]
    } else {
        item_texts(items.drop_last()).push(rendered(items.last()))
    }
}

/// The texts of the members of an object: each name, a colon, and the
/// value.
pub open spec fn member_texts(members: Seq<(Seq<char>, JsonView)>) -> Seq<Seq<char>>
    decreases members, members.len(),
{
    if members.len() == 0 {
        seq![]
    } else {
        member_texts(members.drop_last()).push(
            json_quoted(members.last().0) + ":"@ + rendered(members.last().1),
        )
    }
}

fn parse_within(text: &str, depth: usize) -> (r: Option<Json>)
    ensures
        maybe(r) == parsed(text@, depth as nat),
    decreases depth,
{
    if depth == 0 {
        return None;
    }
    match shallow(text) {
        None => None,
        Some(Shallow::Null) => Some(Json::Null),
        Some(Shallow::Bool(flag)) => Some(Json::Bool(flag)),
        Some(Shallow::Numeral(written)) => match parse_digits(written.as_str()) {
            Some(number) => Some(Json::Number(number)),
            None => Some(Json::Numeral(written)),
        },
        Some(Shallow::Text(held)) => Some(Json::Text(held)),
        Some(Shallow::Items(texts)) => {
            let mut items: Vec<Json> = Vec::new();
            let mut i: usize = 0;
            while i < texts.len()
                invariant
                    i <= texts.len(),
                    depth > 0,
                    json_shallow(text@) == Some(ShallowView::Items(texts.deep_view())),
                    items@.len() == i,
                    forall|k: int|
                        0 <= k < i ==> parsed(#[trigger] texts.deep_view()[k], (depth - 1) as nat)
                            == Some(items@[k]@),
                decreases texts.len() - i,
            {
                match parse_within(texts[i].as_str(), depth - 1) {
                    Some(item) => {
                        items.push(item);
                    },
                    None => {
                        assert(parsed(texts.deep_view()[i as int], (depth - 1) as nat) is None);
                        return None;
                    },
                }
                i = i + 1;
            }
            proof {
                lemma_array_view(items);
                assert(items_view(items@) =~= parsed(text@, depth as nat)->0->Array_0);
            }
            Some(Json::Array(items))
        },
        Some(Shallow::Members(texts)) => {
            let mut members: Vec<(String, Json)> = Vec::new();
            let mut i: usize = 0;
            while i < texts.len()
                invariant
                    i <= texts.len(),
                    depth > 0,
                    json_shallow(text@) == Some(ShallowView::Members(texts.deep_view())),
                    members@.len() == i,
                    forall|k: int|
                        0 <= k < i ==> parsed(
                            (#[trigger] texts.deep_view()[k]).1,
                            (depth - 1) as nat,
                        ) == Some(members@[k].1@) && members@[k].0@ == texts.deep_view()[k].0,
                decreases texts.len() - i,
            {
                match parse_within(texts[i].1.as_str(), depth - 1) {
                    Some(value) => {
                        members.push((texts[i].0.clone(), value));
                    },
                    None => {
                        assert(parsed(texts.deep_view()[i as int].1, (depth - 1) as nat) is None);
                        return None;
                    },
                }
                i = i + 1;
            }
            proof {
                lemma_object_view(members);
                assert(members_view(members@) =~= parsed(text@, depth as nat)->0->Object_0);
            }
            Some(Json::Object(members))
        },
    }
}

impl Json {
    /// Reads the document that a text stands for. A text that stands for
    /// none, or for one that is nested too deep, is refused.
    pub fn parse(text: &str) -> (r: Option<Json>)
        ensures
            maybe(r) == parsed(text@, MAX_DEPTH as nat),
    {
        parse_within(text, MAX_DEPTH)
    }

    /// Writes the document as a text.
    pub fn render(&self) -> (r: String)
        ensures
            r@ == rendered(self@),
        decreases self,
    {
        match self {
            Json::Null => String::from_str("null"),
            Json::Bool(flag) => {
                if *flag {
                    String::from_str("true")
                } else {
                    String::from_str("false")
                }
            },
            Json::Number(number) => decimal_string(*number),
            Json::Numeral(written) => written.clone(),
            Json::Text(held) => quote(held.as_str()),
            Json::Array(items) => {
                proof {
                    lemma_array_view(*items);
                }
                let mut texts: Vec<String> = Vec::new();
                let mut i: usize = 0;
                assert(texts.deep_view() =~= item_texts(items_view(items@).subrange(0, 0)));
                while i < items.len()
                    invariant
                        *self == Json::Array(*items),
                        i <= items.len(),
                        texts.deep_view() == item_texts(items_view(items@).subrange(0, i as int)),
                    decreases items.len() - i,
                {
                    proof {
                        broadcast use vstd::std_specs::vec::axiom_vec_index_decreases;

                        assert(self->Array_0 == *items);
                        assert(decreases_to!(*self => self->Array_0));
                        assert(decreases_to!(*items => items[i as int]));
                    }
                    let ghost had = texts.deep_view();
                    let ghost upto = items_view(items@).subrange(0, i + 1);
                    assert(upto.drop_last() =~= items_view(items@).subrange(0, i as int));
                    assert(upto.last() == items@[i as int]@);
                    texts.push(items[i].render());
                    assert(texts.deep_view() =~= had.push(rendered(items@[i as int]@)));
                    i = i + 1;
                }
                assert(items_view(items@).subrange(0, items.len() as int) =~= items_view(items@));
                let mut text = String::from_str("[");
                text.append(join(&texts, ",").as_str());
                text.append("]");
                text
            },
            Json::Object(members) => {
                proof {
                    lemma_object_view(*members);
                }
                let mut texts: Vec<String> = Vec::new();
                let mut i: usize = 0;
                assert(texts.deep_view() =~= member_texts(members_view(members@).subrange(0, 0)));
                while i < members.len()
                    invariant
                        *self == Json::Object(*members),
                        i <= members.len(),
                        texts.deep_view() == member_texts(
                            members_view(members@).subrange(0, i as int),
                        ),
                    decreases members.len() - i,
                {
                    proof {
                        broadcast use vstd::std_specs::vec::axiom_vec_index_decreases;

                        assert(self->Object_0 == *members);
                        assert(decreases_to!(*self => self->Object_0));
                        assert(decreases_to!(*members => members[i as int]));
                        assert(decreases_to!(members[i as int] => members[i as int].1));
                    }
                    let ghost had = texts.deep_view();
                    let ghost upto = members_view(members@).subrange(0, i + 1);
                    assert(upto.drop_last() =~= members_view(members@).subrange(0, i as int));
                    assert(upto.last() == (members@[i as int].0@, members@[i as int].1@));
                    let member = &members[i];
                    let mut one = quote(member.0.as_str());
                    one.append(":");
                    one.append(member.1.render().as_str());
                    texts.push(one);
                    assert(texts.deep_view() =~= had.push(
                        json_quoted(members@[i as int].0@) + ":"@ + rendered(
                            members@[i as int].1@,
                        ),
                    ));
                    i = i + 1;
                }
                assert(members_view(members@).subrange(0, members.len() as int) =~= members_view(
                    members@,
                ));
                let mut text = String::from_str("{");
                text.append(join(&texts, ",").as_str());
                text.append("}");
                text
            },
        }
    }
}

} // verus!
