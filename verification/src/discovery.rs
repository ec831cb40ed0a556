//! Discovery protocol for machines on the local subnet.
//!
//! A fixed ASCII probe token is broadcast over UDP; each machine answers with
//! a '|'-delimited reply `MAGIC|ethernet_address|wifi_address|node_id`.  The
//! socket work is performed by the surrounding application; the wire strings
//! and the parsing of the replies are specified and proved here.

use vstd::prelude::*;
use vstd::string::{StrSliceExecFns, StringExecFns};

use crate::text::{split_fields, split_on, strings_view};

verus! {

/// The probe token broadcast to locate machines.
pub fn discovery_probe() -> (r: String)
    ensures
        r@ == "WS2020_ROTONDI_DISCOVERY"@,
{
    String::from_str("WS2020_ROTONDI_DISCOVERY")
}

/// The subnet broadcast address and well-known port the probe is sent to.
pub fn broadcast_address() -> (r: String)
    ensures
        r@ == "255.255.255.255:4040"@,
{
    String::from_str("255.255.255.255:4040")
}

/// The fixed size of the receive buffer; longer replies are truncated and
/// will typically fail the magic-token validation.
pub const REPLY_BUFFER_BYTES: usize = 32;

/// How long replies are collected before the poll returns.
pub const REPLY_WINDOW_MS: u64 = 2_000;

/// The `(address, node_id)` entries one reply contributes.  A reply counts
/// only if its magic field matches; each non-empty address field among
/// ethernet and wifi contributes one entry, so a machine reachable on both
/// interfaces contributes two.
pub open spec fn reply_entries(message: Seq<char>) -> Seq<(Seq<char>, Seq<char>)> {
    let fields = split_on(message, '|');
    if fields.len() >= 4 && fields[0] == "WS2020"@ {
        (if fields[1].len() > 0 {
            seq![(fields[1], fields[3])]
        } else {
            Seq::empty()
        }) + (if fields[2].len() > 0 {
            seq![(fields[2], fields[3])]
        } else {
            Seq::empty()
        })
    } else {
        Seq::empty()
    }
}

/// The entries contributed by a whole sequence of replies, in arrival order.
pub open spec fn all_entries(messages: Seq<Seq<char>>) -> Seq<(Seq<char>, Seq<char>)>
    decreases messages.len(),
{
    if messages.len() == 0 {
        Seq::empty()
    } else {
        all_entries(messages.drop_last()) + reply_entries(messages.last())
    }
}

/// The views of a vector of address/node pairs.
pub open spec fn pairs_view(v: Seq<(String, String)>) -> Seq<(Seq<char>, Seq<char>)> {
    Seq::new(v.len(), |i: int| (v[i].0@, v[i].1@))
}

/// Parse one reply into its discovered `(address, node_id)` entries.
/// A malformed reply contributes nothing; it is never an error.
pub fn parse_reply(message: &str) -> (r: Vec<(String, String)>)
    ensures
        pairs_view(r@) == reply_entries(message@),
{
    let fields = split_fields(message, '|');
    let mut r: Vec<(String, String)> = Vec::new();
    let magic = String::from_str("WS2020");
    if fields.len() >= 4 && fields[0].eq(&magic) {
        if fields[1].as_str().unicode_len() > 0 {
            r.push((fields[1].clone(), fields[3].clone()));
        }
        if fields[2].as_str().unicode_len() > 0 {
            r.push((fields[2].clone(), fields[3].clone()));
        }
    }
    proof {
        assert(pairs_view(r@) =~~= reply_entries(message@));
    }
    r
}

/// Fold a whole collection window of replies into the discovered entries.
/// With no replies within the window the result is the empty list — an empty
/// subnet is not an error.
pub fn collect_replies(messages: &Vec<String>) -> (r: Vec<(String, String)>)
    ensures
        pairs_view(r@) == all_entries(strings_view(messages@)),
        messages@.len() == 0 ==> r@.len() == 0,
{
    let mut r: Vec<(String, String)> = Vec::new();
    proof {
        assert(pairs_view(r@) =~~= all_entries(strings_view(messages@).take(0)));
    }
    let mut i: usize = 0;
    while i < messages.len()
        invariant
            i <= messages@.len(),
            pairs_view(r@) == all_entries(strings_view(messages@).take(i as int)),
        decreases messages@.len() - i,
    {
        let mut entries = parse_reply(messages[i].as_str());
        proof {
            assert(strings_view(messages@).take(i as int + 1).drop_last() =~~= strings_view(
                messages@,
            ).take(i as int));
            assert(strings_view(messages@).take(i as int + 1).last() == messages@[i as int]@);
        }
        r.append(&mut entries);
        proof {
            assert(pairs_view(r@) =~~= all_entries(strings_view(messages@).take(i as int + 1)));
        }
        i = i + 1;
    }
    proof {
        assert(strings_view(messages@).take(messages@.len() as int) =~~= strings_view(messages@));
    }
    r
}

} // verus!
