//! Reading typed fields out of a decoded JSON document.  A missing field or
//! one of the wrong type is a `Protocol` error: the response arrived but
//! does not have the expected shape.  Each reader's contract fixes its
//! result for every document.

use vstd::prelude::*;

use crate::error::Error;
use crate::json::{
    bool_member, list_member, string_member, u16_member, u32_member, views_of, JsonValue, JsonView,
};
use crate::text::strings_view;

verus! {

broadcast use vstd::std_specs::control_flow::group_control_flow_axioms;

/// The string under `key`.
pub fn get_string(v: &JsonValue, key: &str) -> (r: Result<String, Error>)
    ensures
        match string_member(v@, key@) {
            Some(s) => r matches Ok(rs) && rs@ == s,
            None => r matches Err(e) && e is Protocol,
        },
{
    match v.get(key) {
        Some(f) => match f.as_text() {
            Some(s) => Ok(s.clone()),
            None => Err(Error::Protocol),
        },
        None => Err(Error::Protocol),
    }
}

/// The 16-bit counter under `key`.
pub fn get_u16(v: &JsonValue, key: &str) -> (r: Result<u16, Error>)
    ensures
        match u16_member(v@, key@) {
            Some(n) => r == Ok::<u16, Error>(n),
            None => r matches Err(e) && e is Protocol,
        },
{
    match v.get(key) {
        Some(f) => match f.as_unsigned() {
            Some(n) => {
                if n <= 65_535 {
                    Ok(n as u16)
                } else {
                    Err(Error::Protocol)
                }
            },
            None => Err(Error::Protocol),
        },
        None => Err(Error::Protocol),
    }
}

/// The 32-bit counter under `key`.
pub fn get_u32(v: &JsonValue, key: &str) -> (r: Result<u32, Error>)
    ensures
        match u32_member(v@, key@) {
            Some(n) => r == Ok::<u32, Error>(n),
            None => r matches Err(e) && e is Protocol,
        },
{
    match v.get(key) {
        Some(f) => match f.as_unsigned() {
            Some(n) => {
                if n <= 4_294_967_295 {
                    Ok(n as u32)
                } else {
                    Err(Error::Protocol)
                }
            },
            None => Err(Error::Protocol),
        },
        None => Err(Error::Protocol),
    }
}

/// The boolean under `key`.
pub fn get_bool(v: &JsonValue, key: &str) -> (r: Result<bool, Error>)
    ensures
        match bool_member(v@, key@) {
            Some(b) => r == Ok::<bool, Error>(b),
            None => r matches Err(e) && e is Protocol,
        },
{
    match v.get(key) {
        Some(f) => match f.as_truth() {
            Some(b) => Ok(b),
            None => Err(Error::Protocol),
        },
        None => Err(Error::Protocol),
    }
}

/// The elements of the list under `key`.
pub fn get_list<'a>(v: &'a JsonValue, key: &str) -> (r: Result<&'a Vec<JsonValue>, Error>)
    ensures
        match list_member(v@, key@) {
            Some(items) => r matches Ok(rv) && views_of(rv@) == items,
            None => r matches Err(e) && e is Protocol,
        },
{
    match v.get(key) {
        Some(f) => match f.as_list() {
            Some(items) => Ok(items),
            None => Err(Error::Protocol),
        },
        None => Err(Error::Protocol),
    }
}

/// The texts of a list whose elements are all strings.
pub open spec fn text_items(items: Seq<JsonView>) -> Option<Seq<Seq<char>>>
    decreases items.len(),
{
    if items.len() == 0 {
        Some(Seq::empty())
    } else {
        match (text_items(items.drop_last()), items.last()) {
            (Some(rest), JsonView::Text(s)) => Some(rest.push(s)),
            _ => None,
        }
    }
}

pub proof fn lemma_text_items_none(items: Seq<JsonView>, k: int)
    requires
        0 <= k < items.len(),
        !(items[k] is Text),
    ensures
        text_items(items) is None,
    decreases items.len(),
{
    if k < items.len() - 1 {
        lemma_text_items_none(items.drop_last(), k);
    }
}

/// The numbers of a list whose elements are all 32-bit counters.
pub open spec fn u32_items(items: Seq<JsonView>) -> Option<Seq<u32>>
    decreases items.len(),
{
    if items.len() == 0 {
        Some(Seq::empty())
    } else {
        match (u32_items(items.drop_last()), items.last()) {
            (Some(rest), JsonView::Number(Some(n))) => if n <= u32::MAX as u64 {
                Some(rest.push(n as u32))
            } else {
                None
            },
            _ => None,
        }
    }
}

pub proof fn lemma_u32_items_none(items: Seq<JsonView>, k: int)
    requires
        0 <= k < items.len(),
        match items[k] {
            JsonView::Number(Some(n)) => n > u32::MAX as u64,
            _ => true,
        },
    ensures
        u32_items(items) is None,
    decreases items.len(),
{
    if k < items.len() - 1 {
        lemma_u32_items_none(items.drop_last(), k);
    }
}

/// The bytes of a list whose elements are all numbers below 256.
pub open spec fn byte_items(items: Seq<JsonView>) -> Option<Seq<u8>>
    decreases items.len(),
{
    if items.len() == 0 {
        Some(Seq::empty())
    } else {
        match (byte_items(items.drop_last()), items.last()) {
            (Some(rest), JsonView::Number(Some(n))) => if n <= u8::MAX as u64 {
                Some(rest.push(n as u8))
            } else {
                None
            },
            _ => None,
        }
    }
}

pub proof fn lemma_byte_items_none(items: Seq<JsonView>, k: int)
    requires
        0 <= k < items.len(),
        match items[k] {
            JsonView::Number(Some(n)) => n > u8::MAX as u64,
            _ => true,
        },
    ensures
        byte_items(items) is None,
    decreases items.len(),
{
    if k < items.len() - 1 {
        lemma_byte_items_none(items.drop_last(), k);
    }
}

/// Read a list of strings, as `text_items` describes.
pub fn read_text_items(items: &Vec<JsonValue>) -> (r: Option<Vec<String>>)
    ensures
        match text_items(views_of(items@)) {
            Some(texts) => r matches Some(rv) && strings_view(rv@) == texts,
            None => r is None,
        },
{
    let ghost shaped = views_of(items@);
    let mut out: Vec<String> = Vec::new();
    proof {
        assert(shaped.take(0) =~~= Seq::<JsonView>::empty());
        assert(strings_view(out@) =~~= Seq::<Seq<char>>::empty());
    }
    let mut i: usize = 0;
    while i < items.len()
        invariant
            i <= items@.len(),
            shaped == views_of(items@),
            shaped.len() == items@.len(),
            text_items(shaped.take(i as int)) == Some(strings_view(out@)),
        decreases items@.len() - i,
    {
        proof {
            assert(shaped.take(i as int + 1).drop_last() =~~= shaped.take(i as int));
            assert(shaped.take(i as int + 1).last() == shaped[i as int]);
            assert(shaped[i as int] == items@[i as int]@);
        }
        match items[i].as_text() {
            Some(s) => out.push(s.clone()),
            None => {
                proof {
                    lemma_text_items_none(shaped, i as int);
                }
                return None;
            },
        }
        proof {
            assert(strings_view(out@) =~~= text_items(shaped.take(i as int + 1))->Some_0);
        }
        i = i + 1;
    }
    proof {
        assert(shaped.take(shaped.len() as int) =~~= shaped);
    }
    Some(out)
}

/// Read a list of 32-bit counters, as `u32_items` describes.
pub fn read_u32_items(items: &Vec<JsonValue>) -> (r: Option<Vec<u32>>)
    ensures
        match u32_items(views_of(items@)) {
            Some(numbers) => r matches Some(rv) && rv@ == numbers,
            None => r is None,
        },
{
    let ghost shaped = views_of(items@);
    let mut out: Vec<u32> = Vec::new();
    proof {
        assert(shaped.take(0) =~~= Seq::<JsonView>::empty());
    }
    let mut i: usize = 0;
    while i < items.len()
        invariant
            i <= items@.len(),
            shaped == views_of(items@),
            shaped.len() == items@.len(),
            u32_items(shaped.take(i as int)) == Some(out@),
        decreases items@.len() - i,
    {
        proof {
            assert(shaped.take(i as int + 1).drop_last() =~~= shaped.take(i as int));
            assert(shaped.take(i as int + 1).last() == shaped[i as int]);
            assert(shaped[i as int] == items@[i as int]@);
        }
        match items[i].as_unsigned() {
            Some(n) if n <= 4_294_967_295 => out.push(n as u32),
            _ => {
                proof {
                    lemma_u32_items_none(shaped, i as int);
                }
                return None;
            },
        }
        i = i + 1;
    }
    proof {
        assert(shaped.take(shaped.len() as int) =~~= shaped);
    }
    Some(out)
}

/// Read a list of bytes, as `byte_items` describes.
pub fn read_byte_items(items: &Vec<JsonValue>) -> (r: Option<Vec<u8>>)
    ensures
        match byte_items(views_of(items@)) {
            Some(bytes) => r matches Some(rv) && rv@ == bytes,
            None => r is None,
        },
{
    let ghost shaped = views_of(items@);
    let mut out: Vec<u8> = Vec::new();
    proof {
        assert(shaped.take(0) =~~= Seq::<JsonView>::empty());
    }
    let mut i: usize = 0;
    while i < items.len()
        invariant
            i <= items@.len(),
            shaped == views_of(items@),
            shaped.len() == items@.len(),
            byte_items(shaped.take(i as int)) == Some(out@),
        decreases items@.len() - i,
    {
        proof {
            assert(shaped.take(i as int + 1).drop_last() =~~= shaped.take(i as int));
            assert(shaped.take(i as int + 1).last() == shaped[i as int]);
            assert(shaped[i as int] == items@[i as int]@);
        }
        match items[i].as_unsigned() {
            Some(n) if n <= 255 => out.push(n as u8),
            _ => {
                proof {
                    lemma_byte_items_none(shaped, i as int);
                }
                return None;
            },
        }
        i = i + 1;
    }
    proof {
        assert(shaped.take(shaped.len() as int) =~~= shaped);
    }
    Some(out)
}

/// The strings of the list under `key`.
pub open spec fn string_list_member(j: JsonView, key: Seq<char>) -> Option<Seq<Seq<char>>> {
    match list_member(j, key) {
        Some(items) => text_items(items),
        None => None,
    }
}

/// The array of strings under `key`.
pub fn get_string_vec(v: &JsonValue, key: &str) -> (r: Result<Vec<String>, Error>)
    ensures
        match string_list_member(v@, key@) {
            Some(texts) => r matches Ok(rv) && strings_view(rv@) == texts,
            None => r matches Err(e) && e is Protocol,
        },
{
    let items = get_list(v, key)?;
    match read_text_items(items) {
        Some(out) => Ok(out),
        None => Err(Error::Protocol),
    }
}

/// The 32-bit counters of the list under `key`.
pub open spec fn u32_list_member(j: JsonView, key: Seq<char>) -> Option<Seq<u32>> {
    match list_member(j, key) {
        Some(items) => u32_items(items),
        None => None,
    }
}

/// The array of 32-bit counters under `key`.
pub fn get_u32_vec(v: &JsonValue, key: &str) -> (r: Result<Vec<u32>, Error>)
    ensures
        match u32_list_member(v@, key@) {
            Some(numbers) => r matches Ok(rv) && rv@ == numbers,
            None => r matches Err(e) && e is Protocol,
        },
{
    let items = get_list(v, key)?;
    match read_u32_items(items) {
        Some(out) => Ok(out),
        None => Err(Error::Protocol),
    }
}

} // verus!
