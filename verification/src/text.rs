//! Splitting delimited wire text into fields.

use vstd::prelude::*;
use vstd::string::{StrSliceExecFns, StringExecFns};

verus! {

/// The fields of `s` split on `sep`.  Splitting the empty string gives one
/// empty field, and every separator opens a new field.
pub open spec fn split_on(s: Seq<char>, sep: char) -> Seq<Seq<char>>
    decreases s.len(),
{
    if s.len() == 0 {
        seq![Seq::<char>::empty()]
    } else {
        let rest = split_on(s.drop_last(), sep);
        if s.last() == sep {
            rest.push(Seq::<char>::empty())
        } else {
            rest.update(rest.len() - 1, rest.last().push(s.last()))
        }
    }
}

pub proof fn lemma_split_on_nonempty(s: Seq<char>, sep: char)
    ensures
        split_on(s, sep).len() >= 1,
    decreases s.len(),
{
    if s.len() > 0 {
        lemma_split_on_nonempty(s.drop_last(), sep);
    }
}

/// The views of a vector of strings.
pub open spec fn strings_view(v: Seq<String>) -> Seq<Seq<char>> {
    Seq::new(v.len(), |i: int| v[i]@)
}

/// Split `message` on `sep`, as `split_on` describes.
pub fn split_fields(message: &str, sep: char) -> (r: Vec<String>)
    ensures
        strings_view(r@) == split_on(message@, sep),
{
    let n = message.unicode_len();
    let mut fields: Vec<String> = Vec::new();
    let mut current = String::new();
    proof {
        assert(strings_view(fields@).push(current@) =~~= split_on(message@.take(0), sep));
    }
    let mut i: usize = 0;
    while i < n
        invariant
            n == message@.len(),
            i <= n,
            strings_view(fields@).push(current@) == split_on(message@.take(i as int), sep),
        decreases n - i,
    {
        proof {
            assert(message@.take(i as int + 1).drop_last() =~~= message@.take(i as int));
            assert(message@.take(i as int + 1).last() == message@[i as int]);
        }
        let c = message.get_char(i);
        if c == sep {
            fields.push(current);
            current = String::new();
            proof {
                assert(strings_view(fields@).push(current@) =~~= split_on(
                    message@.take(i as int + 1),
                    sep,
                ));
            }
        } else {
            let piece = message.substring_char(i, i + 1);
            proof {
                assert(piece@ =~~= seq![message@[i as int]]);
            }
            current.append(piece);
            proof {
                let done = split_on(message@.take(i as int), sep);
                lemma_split_on_nonempty(message@.take(i as int), sep);
                assert(strings_view(fields@).push(current@) =~~= done.update(
                    done.len() - 1,
                    done.last().push(message@[i as int]),
                ));
            }
        }
        i = i + 1;
    }
    fields.push(current);
    proof {
        assert(message@.take(n as int) =~~= message@);
        assert(strings_view(fields@) =~~= split_on(message@, sep));
    }
    fields
}

} // verus!
