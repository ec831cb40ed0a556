//! A library-owned model of a decoded JSON document.
//!
//! The cloud service and the machine's embedded server answer in JSON.  A
//! response body is decoded once — behind a trusted item — into this tree of
//! plain values, and every parser of the crate reads the tree, so that what
//! each parser returns can be stated exactly over the tree.

use vstd::prelude::*;
use vstd::string::StringExecFns;

verus! {

/// One decoded JSON value.  A number is carried as its unsigned 64-bit
/// reading, or as `Number(None)` when it has none (negative, fractional or
/// too large): that reading is all the protocols of this crate consume.
/// Object members keep unique keys, as the decoder leaves them.
#[derive(Debug)]
pub enum JsonValue {
    Null,
    Bool(bool),
    Number(Option<u64>),
    Text(String),
    List(Vec<JsonValue>),
    Object(Vec<(String, JsonValue)>),
}

/// The mathematical shape of a decoded document.
pub ghost enum JsonView {
    Null,
    Bool(bool),
    Number(Option<u64>),
    Text(Seq<char>),
    List(Seq<JsonView>),
    Object(Seq<(Seq<char>, JsonView)>),
}

/// The shape of one decoded value.
pub open spec fn json_view(v: JsonValue) -> JsonView
    decreases v,
{
    match v {
        JsonValue::Null => JsonView::Null,
        JsonValue::Bool(b) => JsonView::Bool(b),
        JsonValue::Number(n) => JsonView::Number(n),
        JsonValue::Text(s) => JsonView::Text(s@),
        JsonValue::List(items) => JsonView::List(
            Seq::new(
                items@.len(),
                |i: int|
                    if 0 <= i < items@.len() {
                        json_view(items[i])
                    } else {
                        JsonView::Null
                    },
            ),
        ),
        JsonValue::Object(members) => JsonView::Object(
            Seq::new(
                members@.len(),
                |i: int|
                    if 0 <= i < members@.len() {
                        (members[i].0@, json_view(members[i].1))
                    } else {
                        (Seq::empty(), JsonView::Null)
                    },
            ),
        ),
    }
}

impl View for JsonValue {
    type V = JsonView;

    #[verifier::inline]
    open spec fn view(&self) -> JsonView {
        json_view(*self)
    }
}

/// The shapes of a vector of decoded values.
pub open spec fn views_of(items: Seq<JsonValue>) -> Seq<JsonView> {
    Seq::new(items.len(), |i: int| json_view(items[i]))
}

/// The shapes of a vector of decoded object members.
pub open spec fn member_views_of(members: Seq<(String, JsonValue)>) -> Seq<(Seq<char>, JsonView)> {
    Seq::new(members.len(), |i: int| (members[i].0@, json_view(members[i].1)))
}

/// The member of an object under `key`.  The decoder leaves keys unique, so
/// the first match is the only one.
pub open spec fn lookup(members: Seq<(Seq<char>, JsonView)>, key: Seq<char>) -> Option<JsonView>
    decreases members.len(),
{
    if members.len() == 0 {
        None
    } else if members[0].0 == key {
        Some(members[0].1)
    } else {
        lookup(members.skip(1), key)
    }
}

/// The member of `j` under `key`, when `j` is an object that has it.
pub open spec fn member(j: JsonView, key: Seq<char>) -> Option<JsonView> {
    match j {
        JsonView::Object(members) => lookup(members, key),
        _ => None,
    }
}

/// The text of the string member under `key`.
pub open spec fn string_member(j: JsonView, key: Seq<char>) -> Option<Seq<char>> {
    match member(j, key) {
        Some(JsonView::Text(s)) => Some(s),
        _ => None,
    }
}

/// The boolean member under `key`.
pub open spec fn bool_member(j: JsonView, key: Seq<char>) -> Option<bool> {
    match member(j, key) {
        Some(JsonView::Bool(b)) => Some(b),
        _ => None,
    }
}

/// The unsigned reading of the number member under `key`.
pub open spec fn u64_member(j: JsonView, key: Seq<char>) -> Option<u64> {
    match member(j, key) {
        Some(JsonView::Number(Some(n))) => Some(n),
        _ => None,
    }
}

/// The 16-bit counter member under `key`: present, integral and in range.
pub open spec fn u16_member(j: JsonView, key: Seq<char>) -> Option<u16> {
    match u64_member(j, key) {
        Some(n) => if n <= u16::MAX as u64 {
            Some(n as u16)
        } else {
            None
        },
        None => None,
    }
}

/// The 32-bit counter member under `key`: present, integral and in range.
pub open spec fn u32_member(j: JsonView, key: Seq<char>) -> Option<u32> {
    match u64_member(j, key) {
        Some(n) => if n <= u32::MAX as u64 {
            Some(n as u32)
        } else {
            None
        },
        None => None,
    }
}

/// The elements of the list member under `key`.
pub open spec fn list_member(j: JsonView, key: Seq<char>) -> Option<Seq<JsonView>> {
    match member(j, key) {
        Some(JsonView::List(items)) => Some(items),
        _ => None,
    }
}

impl JsonValue {
    /// The member under `key`, when this value is an object that has it.
    pub fn get<'a>(&'a self, key: &str) -> (r: Option<&'a JsonValue>)
        ensures
            match member(self@, key@) {
                Some(v) => r matches Some(rv) && rv@ == v,
                None => r is None,
            },
    {
        match self {
            JsonValue::Object(members) => {
                let ghost all = self@->Object_0;
                proof {
                    assert(all.skip(0) =~~= all);
                    assert(all.len() == members@.len());
                    assert forall|k: int| 0 <= k < all.len() implies all[k] == (
                        members@[k].0@,
                        members@[k].1@,
                    ) by {
                        assert(all[k] == (members@[k].0@, json_view(members@[k].1)));
                    }
                }
                let mut i: usize = 0;
                while i < members.len()
                    invariant
                        i <= members@.len(),
                        self@ is Object,
                        all == self@->Object_0,
                        all.len() == members@.len(),
                        forall|k: int| 0 <= k < all.len() ==> all[k] == (members@[k].0@, members@[k].1@),
                        lookup(all, key@) == lookup(all.skip(i as int), key@),
                    decreases members@.len() - i,
                {
                    proof {
                        assert(all.skip(i as int)[0] == all[i as int]);
                        assert(all.skip(i as int).skip(1) =~~= all.skip(i as int + 1));
                    }
                    let owned = key.to_owned();
                    if members[i].0.eq(&owned) {
                        proof {
                            assert(lookup(all.skip(i as int), key@) == Some(all[i as int].1));
                            assert(member(self@, key@) == Some(members@[i as int].1@));
                        }
                        return Some(&members[i].1);
                    }
                    i = i + 1;
                }
                proof {
                    assert(all.skip(all.len() as int) =~~= Seq::<(Seq<char>, JsonView)>::empty());
                }
                None
            },
            _ => None,
        }
    }

    /// The text of this value, when it is a string.
    pub fn as_text(&self) -> (r: Option<&String>)
        ensures
            self@ matches JsonView::Text(s) ==> (r matches Some(rs) && rs@ == s),
            !(self@ is Text) ==> r is None,
    {
        match self {
            JsonValue::Text(s) => Some(s),
            _ => None,
        }
    }

    /// The unsigned reading of this value, when it is a number that has one.
    pub fn as_unsigned(&self) -> (r: Option<u64>)
        ensures
            r == (match self@ {
                JsonView::Number(n) => n,
                _ => None,
            }),
    {
        match self {
            JsonValue::Number(n) => *n,
            _ => None,
        }
    }

    /// The elements of this value, when it is a list.
    pub fn as_list(&self) -> (r: Option<&Vec<JsonValue>>)
        ensures
            self@ matches JsonView::List(items) ==> (r matches Some(rv) && views_of(rv@) == items),
            !(self@ is List) ==> r is None,
    {
        match self {
            JsonValue::List(items) => {
                proof {
                    assert(views_of(items@) =~~= self@->List_0);
                }
                Some(items)
            },
            _ => None,
        }
    }

    /// The members of this value, when it is an object.
    pub fn as_object(&self) -> (r: Option<&Vec<(String, JsonValue)>>)
        ensures
            self@ matches JsonView::Object(members) ==> (r matches Some(rv) && member_views_of(rv@)
                == members),
            !(self@ is Object) ==> r is None,
    {
        match self {
            JsonValue::Object(members) => {
                proof {
                    assert(member_views_of(members@) =~~= self@->Object_0);
                }
                Some(members)
            },
            _ => None,
        }
    }

    /// Whether this value is JSON `null`.
    pub fn is_null(&self) -> (r: bool)
        ensures
            r == (self@ is Null),
    {
        matches!(self, JsonValue::Null)
    }

    /// Whether this value is a boolean, and which.
    pub fn as_truth(&self) -> (r: Option<bool>)
        ensures
            r == (match self@ {
                JsonView::Bool(b) => Some(b),
                _ => None,
            }),
    {
        match self {
            JsonValue::Bool(b) => Some(*b),
            _ => None,
        }
    }
}

} // verus!
