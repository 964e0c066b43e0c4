//! The bodies of requests, as the JSON values that go over the wire.
//!
//! The library says which members a body has, in which order and with which
//! values. Turning the value into bytes is left to a JSON encoder.

use vstd::prelude::*;
use vstd::string::StringExecFns;

verus! {

/// A JSON value of one of the kinds that request bodies are made of.
#[derive(Debug, PartialEq, Eq)]
pub enum Json {
    /// A string.
    Text(String),
    /// `true` or `false`.
    Flag(bool),
    /// A whole number.
    Number(i32),
    /// An object: its members in the order in which they are written.
    Object(Vec<Member>),
}

/// A member of a JSON object.
#[derive(Debug, PartialEq, Eq)]
pub struct Member {
    pub name: String,
    pub value: Json,
}

/// A [`Json`] value with strings and lists as sequences, and a member as the
/// pair of its name and its value.
pub enum JsonView {
    Text(Seq<char>),
    Flag(bool),
    Number(int),
    Object(Seq<(Seq<char>, JsonView)>),
}

impl Json {
    /// The value in its mathematical form.
    pub open spec fn model(&self) -> JsonView
        decreases self,
    {
        match self {
            Json::Text(text) => JsonView::Text(text@),
            Json::Flag(flag) => JsonView::Flag(*flag),
            Json::Number(number) => JsonView::Number(*number as int),
            Json::Object(members) => JsonView::Object(
                Seq::new(
                    members@.len(),
                    |i: int|
                        if 0 <= i < members@.len() {
                            (members@[i].name@, members@[i].value.model())
                        } else {
                            (Seq::empty(), JsonView::Flag(false))
                        },
                ),
            ),
        }
    }
}

impl View for Json {
    type V = JsonView;

    open spec fn view(&self) -> JsonView {
        self.model()
    }
}

impl View for Member {
    type V = (Seq<char>, JsonView);

    open spec fn view(&self) -> (Seq<char>, JsonView) {
        (self.name@, self.value@)
    }
}

/// The members of an object, each as the pair of its name and its value.
pub open spec fn members_view(members: Seq<Member>) -> Seq<(Seq<char>, JsonView)> {
    Seq::new(members.len(), |i: int| members[i]@)
}

impl Member {
    /// The member `name` with a string for its value.
    pub fn text(name: &str, value: &str) -> (member: Member)
        ensures
            member@ == (name@, JsonView::Text(value@)),
    {
        Member { name: String::from_str(name), value: Json::Text(String::from_str(value)) }
    }

    /// The member `name` with `true` or `false` for its value.
    pub fn flag(name: &str, value: bool) -> (member: Member)
        ensures
            member@ == (name@, JsonView::Flag(value)),
    {
        Member { name: String::from_str(name), value: Json::Flag(value) }
    }

    /// The member `name` with a number for its value.
    pub fn number(name: &str, value: i32) -> (member: Member)
        ensures
            member@ == (name@, JsonView::Number(value as int)),
    {
        Member { name: String::from_str(name), value: Json::Number(value) }
    }

    /// The member `name` with an object for its value.
    pub fn object(name: &str, members: Vec<Member>) -> (member: Member)
        ensures
            member@ == (name@, JsonView::Object(members_view(members@))),
    {
        Member { name: String::from_str(name), value: Json::object(members) }
    }
}

impl Json {
    /// The object with the members `members`, in their order.
    pub fn object(members: Vec<Member>) -> (json: Json)
        ensures
            json@ == JsonView::Object(members_view(members@)),
    {
        let ghost listed = members@;
        let json = Json::Object(members);
        proof {
            let got = json@->Object_0;
            let want = members_view(listed);
            assert(json@ is Object);
            assert(got.len() == want.len());
            assert forall|i: int| 0 <= i < got.len() implies got[i] == want[i] by {
                assert(want[i] == listed[i]@);
            }
            assert(got =~= want);
        }
        json
    }
}

} // verus!
