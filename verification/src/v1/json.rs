//! JSON values as the request bodies and the extension map use them.
//!
//! [`Json`] is the executable tree and [`JsonView`] its mathematical view. The
//! text of numbers and of string literals comes from `serde_json`, through the
//! two trusted functions of this module.
use vstd::prelude::*;

verus! {

/// Declares `serde_json::Number`. Nothing is said of what is inside.
#[verifier::external_type_specification]
#[verifier::external_body]
pub struct ExNumber(serde_json::Number);

/// `Clone` of `serde_json::Number`, which the crate derives. Trusted: the copy
/// equals the number it was made from.
pub assume_specification[ <serde_json::Number as Clone>::clone ](
    number: &serde_json::Number,
) -> (copy: serde_json::Number)
    ensures
        copy == *number,
;

/// The text that `serde_json` writes for a number: what the `Display` impl of
/// `serde_json::Number` produces.
pub uninterp spec fn number_text(number: serde_json::Number) -> Seq<char>;

/// The JSON string literal that `serde_json` writes for a string: the text
/// between double quotes, with the escapes that JSON asks for.
pub uninterp spec fn string_literal(text: Seq<char>) -> Seq<char>;

/// Calls `to_string` on a `serde_json::Number`, that is its `Display` impl.
/// Trusted: the result is the text named [`number_text`]. The impl formats the
/// stored integer or finite float and reads nothing else.
#[verifier::external_body]
pub(crate) fn render_number(number: &serde_json::Number) -> (text: String)
    ensures
        text@ == number_text(*number),
{
    number.to_string()
}

/// Calls `to_string` on `serde_json::Value::String`, that is the `Display` impl
/// of `serde_json::Value`, which writes compact JSON. Trusted: the result is
/// the literal named [`string_literal`] for the given text.
#[verifier::external_body]
fn render_string(text: &str) -> (literal: String)
    ensures
        literal@ == string_literal(text@),
{
    serde_json::Value::String(text.to_owned()).to_string()
}

/// A JSON value. The members of an object keep the order in which they were
/// written.
#[derive(Debug, PartialEq)]
pub enum Json {
    Null,
    Bool(bool),
    Number(serde_json::Number),
    String(String),
    Array(Vec<Json>),
    Object(Vec<(String, Json)>),
}

/// The mathematical view of a [`Json`] value.
pub enum JsonView {
    Null,
    Bool(bool),
    Number(serde_json::Number),
    String(Seq<char>),
    Array(Seq<JsonView>),
    Object(Seq<(Seq<char>, JsonView)>),
}

/// The view of a value, member by member.
pub open spec fn view_of(json: Json) -> JsonView
    decreases json,
{
    match json {
        Json::Null => JsonView::Null,
        Json::Bool(b) => JsonView::Bool(b),
        Json::Number(n) => JsonView::Number(n),
        Json::String(s) => JsonView::String(s@),
        Json::Array(items) => JsonView::Array(
            Seq::new(
                items@.len(),
                |i: int|
                    if 0 <= i < items@.len() {
                        view_of(items[i])
                    } else {
                        JsonView::Null
                    },
            ),
        ),
        Json::Object(members) => JsonView::Object(
            Seq::new(
                members@.len(),
                |i: int|
                    if 0 <= i < members@.len() {
                        (members[i].0@, view_of(members[i].1))
                    } else {
                        (Seq::empty(), JsonView::Null)
                    },
            ),
        ),
    }
}

impl View for Json {
    type V = JsonView;

    open spec fn view(&self) -> JsonView {
        view_of(*self)
    }
}

/// Every member holds a scalar.
pub open spec fn scalar_values(members: Seq<(Seq<char>, JsonView)>) -> bool {
    forall|i: int| 0 <= i < members.len() ==> (#[trigger] members[i]).1.is_scalar()
}

/// No key occurs twice.
pub open spec fn distinct_keys(members: Seq<(Seq<char>, JsonView)>) -> bool {
    forall|i: int, j: int|
        0 <= i < j < members.len() ==> (#[trigger] members[i]).0 != (#[trigger] members[j]).0
}

impl JsonView {
    /// Null, a boolean, a number or a string.
    pub open spec fn is_scalar(self) -> bool {
        self is Null || self is Bool || self is Number || self is String
    }

    /// The canonical text of a scalar: what a compact JSON document holds for
    /// it. A string keeps its quotes.
    pub open spec fn text(self) -> Seq<char>
        recommends
            self.is_scalar(),
    {
        match self {
            JsonView::Null => "null"@,
            JsonView::Bool(b) => if b {
                "true"@
            } else {
                "false"@
            },
            JsonView::Number(n) => number_text(n),
            JsonView::String(s) => string_literal(s),
            _ => Seq::empty(),
        }
    }

    /// An object that maps each of its keys to one scalar.
    pub open spec fn is_flat_object(self) -> bool {
        self matches JsonView::Object(members) && scalar_values(members) && distinct_keys(
            members,
        )
    }

    /// The members of a flat object as fields of text: each key with the
    /// canonical text of its value, in the object's order.
    pub open spec fn flat_fields(self) -> Seq<(Seq<char>, Seq<char>)>
        recommends
            self.is_flat_object(),
    {
        match self {
            JsonView::Object(members) => Seq::new(
                members.len(),
                |i: int| (members[i].0, members[i].1.text()),
            ),
            _ => Seq::empty(),
        }
    }
}

/// The members of an object in their view: each key's text with the view of
/// its value.
pub open spec fn members_view(members: Seq<(String, Json)>) -> Seq<(Seq<char>, JsonView)> {
    Seq::new(members.len(), |i: int| (members[i].0@, members[i].1@))
}

/// The view of an object holds, member by member, the key's text and the
/// value's view.
pub proof fn lemma_object_view(members: Vec<(String, Json)>)
    ensures
        Json::Object(members)@ is Object,
        Json::Object(members)@->Object_0.len() == members@.len(),
        forall|k: int|
            0 <= k < members@.len() ==> (#[trigger] Json::Object(members)@->Object_0[k]) == (
                members@[k].0@,
                members@[k].1@,
            ),
{
}

/// The view of an object is the object of its members' views.
pub proof fn lemma_object_members(members: Vec<(String, Json)>)
    ensures
        Json::Object(members)@ == JsonView::Object(members_view(members@)),
{
    lemma_object_view(members);
    assert(Json::Object(members)@->Object_0 =~= members_view(members@));
}

/// The view of an array holds the views of its items.
pub proof fn lemma_array_view(items: Vec<Json>)
    ensures
        Json::Array(items)@ is Array,
        Json::Array(items)@->Array_0.len() == items@.len(),
        forall|k: int|
            0 <= k < items@.len() ==> (#[trigger] Json::Array(items)@->Array_0[k]) == items@[k]@,
{
}

impl Clone for Json {
    fn clone(&self) -> (copy: Json)
        ensures
            copy@ == self@,
        decreases self,
    {
        match self {
            Json::Null => Json::Null,
            Json::Bool(b) => Json::Bool(*b),
            Json::Number(n) => Json::Number(n.clone()),
            Json::String(s) => Json::String(s.clone()),
            Json::Array(items) => {
                let mut copies: Vec<Json> = Vec::new();
                let mut i: usize = 0;
                while i < items.len()
                    invariant
                        i <= items@.len(),
                        *self == Json::Array(*items),
                        copies@.len() == i,
                        forall|k: int| 0 <= k < i ==> (#[trigger] copies@[k])@ == items@[k]@,
                    decreases items@.len() - i,
                {
                    assert(decreases_to!(*self => self->Array_0));
                    copies.push(items[i].clone());
                    i += 1;
                }
                proof {
                    lemma_array_view(*items);
                    lemma_array_view(copies);
                    assert(Json::Array(copies)@->Array_0 =~= self@->Array_0);
                }
                Json::Array(copies)
            },
            Json::Object(members) => {
                let mut copies: Vec<(String, Json)> = Vec::new();
                let mut i: usize = 0;
                while i < members.len()
                    invariant
                        i <= members@.len(),
                        *self == Json::Object(*members),
                        copies@.len() == i,
                        forall|k: int|
                            0 <= k < i ==> (#[trigger] copies@[k]).0@ == members@[k].0@
                                && copies@[k].1@ == members@[k].1@,
                    decreases members@.len() - i,
                {
                    assert(decreases_to!(*self => self->Object_0));
                    copies.push((members[i].0.clone(), members[i].1.clone()));
                    i += 1;
                }
                proof {
                    lemma_object_view(*members);
                    lemma_object_view(copies);
                    assert(Json::Object(copies)@->Object_0 =~= self@->Object_0);
                }
                Json::Object(copies)
            },
        }
    }
}

/// Whether a key is among the names of the fields.
fn has_name(fields: &Vec<(String, String)>, name: &String) -> (found: bool)
    ensures
        found == exists|i: int| 0 <= i < fields@.len() && (#[trigger] fields@[i]).0@ == name@,
{
    let mut i: usize = 0;
    while i < fields.len()
        invariant
            i <= fields@.len(),
            forall|k: int| 0 <= k < i ==> (#[trigger] fields@[k]).0@ != name@,
        decreases fields@.len() - i,
    {
        if fields[i].0 == *name {
            return true;
        }
        i += 1;
    }
    false
}

impl Json {
    /// Whether the value is null, a boolean, a number or a string.
    pub fn is_scalar(&self) -> (scalar: bool)
        ensures
            scalar == self@.is_scalar(),
    {
        match self {
            Json::Null | Json::Bool(_) | Json::Number(_) | Json::String(_) => true,
            _ => false,
        }
    }

    /// The canonical text of a scalar; `None` for an array or an object.
    pub fn scalar_text(&self) -> (text: Option<String>)
        ensures
            match text {
                Some(t) => self@.is_scalar() && t@ == self@.text(),
                None => !self@.is_scalar(),
            },
    {
        match self {
            Json::Null => Some("null".to_owned()),
            Json::Bool(b) => if *b {
                Some("true".to_owned())
            } else {
                Some("false".to_owned())
            },
            Json::Number(n) => Some(render_number(n)),
            Json::String(s) => Some(render_string(s.as_str())),
            _ => None,
        }
    }

    /// The fields of text that a flat object stands for; `None` for any other
    /// value: a scalar, an array, an object that holds an array or an object,
    /// or one in which a key occurs twice.
    pub fn flat_fields(&self) -> (fields: Option<Vec<(String, String)>>)
        ensures
            match fields {
                Some(fs) => self@.is_flat_object() && fs.deep_view() == self@.flat_fields(),
                None => !self@.is_flat_object(),
            },
    {
        match self {
            Json::Object(members) => {
                let ghost view = self@->Object_0;
                proof {
                    lemma_object_view(*members);
                }
                let mut fields: Vec<(String, String)> = Vec::new();
                let mut i: usize = 0;
                while i < members.len()
                    invariant
                        i <= members@.len(),
                        self@ == JsonView::Object(view),
                        view.len() == members@.len(),
                        forall|k: int|
                            0 <= k < members@.len() ==> (#[trigger] view[k]) == (
                                members@[k].0@,
                                members@[k].1@,
                            ),
                        fields@.len() == i,
                        forall|k: int|
                            0 <= k < i ==> (#[trigger] fields@[k]).0@ == view[k].0
                                && fields@[k].1@ == view[k].1.text(),
                        forall|k: int| 0 <= k < i ==> (#[trigger] view[k]).1.is_scalar(),
                        forall|k: int, l: int|
                            0 <= k < l < i ==> (#[trigger] view[k]).0 != (#[trigger] view[l]).0,
                    decreases members@.len() - i,
                {
                    let text = match members[i].1.scalar_text() {
                        Some(text) => text,
                        None => {
                            assert(!view[i as int].1.is_scalar());
                            return None;
                        },
                    };
                    if has_name(&fields, &members[i].0) {
                        proof {
                            let k = choose|k: int|
                                0 <= k < fields@.len() && (#[trigger] fields@[k]).0@
                                    == members@[i as int].0@;
                            assert(view[k].0 == view[i as int].0);
                        }
                        return None;
                    }
                    assert forall|k: int| 0 <= k < i implies (#[trigger] view[k]).0 != view[i as int].0 by {
                        assert(fields@[k].0@ == view[k].0);
                    }
                    fields.push((members[i].0.clone(), text));
                    i += 1;
                }
                Some(fields)
            },
            _ => None,
        }
    }
}

} // verus!
