//! A decoded JSON document as a tree of plain values, and the typed reads
//! that the extraction step makes on it.

use vstd::prelude::*;

verus! {

/// A decoded JSON value.
#[derive(Debug, PartialEq, Eq)]
pub enum Json {
    /// `null`.
    Null,
    /// `true` or `false`.
    Bool(bool),
    /// A number: its value where it is an integer within the range of `i64`,
    /// `None` for every other number.
    Number(Option<i64>),
    /// A string.
    String(String),
    /// An array, with its items in their order.
    Array(Vec<Json>),
    /// An object, with its members, name and value, in their order.
    Object(Vec<(String, Json)>),
}

/// What a [`Json`] value holds, as mathematical values.
pub enum JsonTree {
    Null,
    Bool(bool),
    Number(Option<i64>),
    Text(Seq<char>),
    Array(Seq<JsonTree>),
    Object(Seq<(Seq<char>, JsonTree)>),
}

impl View for Json {
    type V = JsonTree;

    open spec fn view(&self) -> JsonTree
        decreases self,
    {
        match self {
            Json::Null => JsonTree::Null,
            Json::Bool(b) => JsonTree::Bool(*b),
            Json::Number(n) => JsonTree::Number(*n),
            Json::String(s) => JsonTree::Text(s@),
            Json::Array(items) => JsonTree::Array(
                Seq::new(
                    items.len() as nat,
                    |i: int|
                        if 0 <= i < items.len() {
                            items[i]@
                        } else {
                            JsonTree::Null
                        },
                ),
            ),
            Json::Object(members) => JsonTree::Object(
                Seq::new(
                    members.len() as nat,
                    |i: int|
                        if 0 <= i < members.len() {
                            (members[i].0@, members[i].1@)
                        } else {
                            (Seq::empty(), JsonTree::Null)
                        },
                ),
            ),
        }
    }
}

impl JsonTree {
    /// The value of the first member called `name`, where this is an object
    /// that has such a member.
    pub open spec fn member(self, name: Seq<char>) -> Option<JsonTree> {
        match self {
            JsonTree::Object(members) => first_named(members, name),
            _ => None,
        }
    }

    /// The items, where this is an array.
    pub open spec fn elements(self) -> Option<Seq<JsonTree>> {
        match self {
            JsonTree::Array(items) => Some(items),
            _ => None,
        }
    }

    /// The value, where this is a number that is an integer within `i64`.
    pub open spec fn integer(self) -> Option<i64> {
        match self {
            JsonTree::Number(n) => n,
            _ => None,
        }
    }

    /// The characters, where this is a string.
    pub open spec fn text(self) -> Option<Seq<char>> {
        match self {
            JsonTree::Text(s) => Some(s),
            _ => None,
        }
    }
}

/// The value that stands with the first occurrence of `name` in a list of
/// members.
pub open spec fn first_named(members: Seq<(Seq<char>, JsonTree)>, name: Seq<char>) -> Option<
    JsonTree,
>
    decreases members.len(),
{
    if members.len() == 0 {
        None
    } else if members[0].0 == name {
        Some(members[0].1)
    } else {
        first_named(members.drop_first(), name)
    }
}

/// A name is found among the members exactly when a member has it, and what
/// is found is the value of the first member that has it.
pub proof fn lemma_first_named(members: Seq<(Seq<char>, JsonTree)>, name: Seq<char>)
    ensures
        match first_named(members, name) {
            Some(value) => exists|k: int|
                0 <= k < members.len() && #[trigger] members[k] == (name, value) && forall|j: int|
                    0 <= j < k ==> (#[trigger] members[j]).0 != name,
            None => forall|j: int| 0 <= j < members.len() ==> (#[trigger] members[j]).0 != name,
        },
    decreases members.len(),
{
    if members.len() > 0 && members[0].0 != name {
        let rest = members.drop_first();
        lemma_first_named(rest, name);
        assert(forall|j: int| 0 <= j < rest.len() ==> rest[j] == members[j + 1]);
        match first_named(rest, name) {
            Some(value) => {
                let k = choose|k: int|
                    0 <= k < rest.len() && #[trigger] rest[k] == (name, value) && forall|j: int|
                        0 <= j < k ==> (#[trigger] rest[j]).0 != name;
                assert(members[k + 1] == (name, value));
                assert forall|j: int| 0 <= j < k + 1 implies (#[trigger] members[j]).0 != name by {
                    if j > 0 {
                        assert(rest[j - 1] == members[j]);
                    }
                }
            },
            None => {
                assert forall|j: int| 0 <= j < members.len() implies (#[trigger] members[j]).0
                    != name by {
                    if j > 0 {
                        assert(rest[j - 1] == members[j]);
                    }
                }
            },
        }
    } else if members.len() > 0 {
        assert(members[0] == (name, members[0].1));
    }
}

/// The trees of a list of values, one for one.
pub open spec fn trees(items: Seq<Json>) -> Seq<JsonTree> {
    items.map_values(|item: Json| item@)
}

/// The names and trees of a list of members, one for one.
pub open spec fn entries(members: Seq<(String, Json)>) -> Seq<(Seq<char>, JsonTree)> {
    members.map_values(|member: (String, Json)| (member.0@, member.1@))
}

/// An array's tree holds the trees of its items, in their order.
pub proof fn lemma_array_tree(list: Vec<Json>)
    ensures
        Json::Array(list)@ == JsonTree::Array(trees(list@)),
{
    reveal_with_fuel(<Json as View>::view, 2);
    assert(Json::Array(list)@->Array_0 =~= trees(list@));
}

/// An object's tree holds the names and trees of its members, in their order.
pub proof fn lemma_object_tree(members: Vec<(String, Json)>)
    ensures
        Json::Object(members)@ == JsonTree::Object(entries(members@)),
{
    reveal_with_fuel(<Json as View>::view, 2);
    assert(Json::Object(members)@->Object_0 =~= entries(members@));
}

impl Json {
    /// Looks up a member of an object by its name; of two members with one
    /// name it finds the first. A value that is no object has no members.
    pub fn get(&self, name: &str) -> (found: Option<&Json>)
        ensures
            match found {
                Some(value) => self@.member(name@) == Some(value@),
                None => self@.member(name@) is None,
            },
    {
        match self {
            Json::Object(members) => {
                let wanted = name.to_owned();
                let ghost listed = entries(members@);
                proof {
                    lemma_object_tree(*members);
                    assert(listed.skip(0) =~= listed);
                }
                let mut i: usize = 0;
                while i < members.len()
                    invariant
                        i <= members.len(),
                        wanted@ == name@,
                        listed == entries(members@),
                        self@.member(name@) == first_named(listed, name@),
                        first_named(listed, name@) == first_named(listed.skip(i as int), name@),
                    decreases members.len() - i,
                {
                    assert(listed.skip(i as int).drop_first() =~= listed.skip(i as int + 1));
                    if members[i].0 == wanted {
                        return Some(&members[i].1);
                    }
                    i += 1;
                }
                None
            },
            _ => None,
        }
    }

    /// The items of an array; `None` for any other value.
    pub fn as_array(&self) -> (items: Option<&Vec<Json>>)
        ensures
            match items {
                Some(list) => self@.elements() == Some(trees(list@)),
                None => self@.elements() is None,
            },
    {
        match self {
            Json::Array(list) => {
                proof {
                    lemma_array_tree(*list);
                }
                Some(list)
            },
            _ => None,
        }
    }

    /// The value of a number that is an integer within `i64`; `None` for any
    /// other number and for any other value.
    pub fn as_i64(&self) -> (value: Option<i64>)
        ensures
            value == self@.integer(),
    {
        match self {
            Json::Number(n) => *n,
            _ => None,
        }
    }

    /// The text of a string; `None` for any other value.
    pub fn as_str(&self) -> (text: Option<&str>)
        ensures
            match text {
                Some(s) => self@.text() == Some(s@),
                None => self@.text() is None,
            },
    {
        match self {
            Json::String(s) => Some(s.as_str()),
            _ => None,
        }
    }
}

} // verus!
