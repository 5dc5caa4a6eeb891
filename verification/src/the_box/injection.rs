//! External stimuli: reading the injection stream's replies.
//!
//! The stream answers a read with nested arrays:
//! `[[stream_name, [[id, [field, value, ...]], ...]]]`. Each entry's fields
//! come in pairs; a stimulus carries a `content` and a `salience` field, each
//! holding JSON text.
use vstd::prelude::*;
use vstd::string::*;

verus! {

/// A reply of the stream store, as far as reading the injection stream looks at it.
#[derive(Debug, PartialEq)]
pub enum StreamReply {
    /// A bulk string
    Bulk(Vec<u8>),
    /// An array of replies
    Array(Vec<StreamReply>),
    /// Any other reply
    Other,
}

/// The text of bytes decoded as UTF-8, invalid sequences replaced by U+FFFD.
pub uninterp spec fn utf8_lossy_text(bytes: Seq<u8>) -> Seq<char>;

/// Decodes bytes as UTF-8, replacing invalid sequences
/// (`String::from_utf8_lossy`, made owned); named by `utf8_lossy_text`.
#[verifier::external_body]
fn utf8_lossy(bytes: &[u8]) -> (s: String)
    ensures
        s@ == utf8_lossy_text(bytes@),
{
    String::from_utf8_lossy(bytes).into_owned()
}

/// Whether the key of pair `p` (the reply at `2p`) is a bulk string reading `name`.
pub open spec fn key_is(fields: Seq<StreamReply>, p: int, name: Seq<char>) -> bool {
    fields[2 * p] matches StreamReply::Bulk(k) && utf8_lossy_text(k@) == name
}

/// The position of the value of the last of the first `k` pairs whose key
/// reads `name` (a later pair overrides an earlier one).
pub open spec fn last_value_position(fields: Seq<StreamReply>, name: Seq<char>, k: nat) -> Option<int>
    decreases k,
{
    if k == 0 {
        None
    } else if key_is(fields, k - 1, name) {
        Some(2 * (k - 1) + 1)
    } else {
        last_value_position(fields, name, (k - 1) as nat)
    }
}

/// The value of field `name`: the value of the last complete pair whose key reads `name`.
pub open spec fn field_value(fields: Seq<StreamReply>, name: Seq<char>) -> Option<StreamReply> {
    match last_value_position(fields, name, fields.len() / 2) {
        Some(i) => Some(fields[i]),
        None => None,
    }
}

/// The text of field `name`, or the error of a missing field or of a value
/// that is not a bulk string.
pub open spec fn field_text(fields: Seq<StreamReply>, name: Seq<char>) -> Result<Seq<char>, Seq<char>> {
    match field_value(fields, name) {
        None => Err("Missing '"@ + name + "' field"@),
        Some(StreamReply::Bulk(b)) => Ok(utf8_lossy_text(b@)),
        Some(_) => Err("Invalid "@ + name + " format"@),
    }
}

/// The text of field `name` of an injection entry (see `field_text`).
pub fn injection_field(fields: &Vec<StreamReply>, name: &str) -> (r: Result<String, String>)
    ensures
        match field_text(fields@, name@) {
            Ok(t) => r matches Ok(s) && s@ == t,
            Err(e) => r matches Err(s) && s@ == e,
        },
{
    let key = String::from_str(name);
    let n = fields.len();
    let pairs = n / 2;
    proof {
        assert(2 * pairs <= fields@.len());
    }
    let mut found: Option<usize> = None;
    let mut p: usize = 0;
    while p < pairs
        invariant
            n == fields@.len(),
            pairs == fields@.len() / 2,
            2 * pairs <= fields@.len(),
            p <= pairs,
            key@ == name@,
            match last_value_position(fields@, name@, p as nat) {
                Some(j) => found == Some(j as usize) && 0 <= j < fields@.len(),
                None => found is None,
            },
        decreases pairs - p,
    {
        proof {
            assert(2 * p + 1 < fields@.len());
        }
        let matched = match &fields[2 * p] {
            StreamReply::Bulk(k) => {
                let text = utf8_lossy(k.as_slice());
                text == key
            },
            _ => false,
        };
        if matched {
            found = Some(2 * p + 1);
        }
        p += 1;
    }
    proof {
        assert(last_value_position(fields@, name@, pairs as nat) == last_value_position(fields@, name@, fields@.len() / 2));
    }
    match found {
        None => {
            let mut e = String::from_str("Missing '");
            e.append(name);
            e.append("' field");
            Err(e)
        },
        Some(i) => match &fields[i] {
            StreamReply::Bulk(b) => Ok(utf8_lossy(b.as_slice())),
            _ => {
                let mut e = String::from_str("Invalid ");
                e.append(name);
                e.append(" format");
                Err(e)
            },
        },
    }
}

/// The identifier and fields of an entry of the stream: an array whose first
/// element is a bulk-string identifier and whose second is the array of fields.
pub open spec fn entry_of(item: StreamReply) -> Option<(Seq<char>, Seq<StreamReply>)> {
    match item {
        StreamReply::Array(parts) => {
            if parts@.len() >= 2 && parts@[0] is Bulk && parts@[1] is Array {
                Some((utf8_lossy_text(parts@[0]->Bulk_0@), parts@[1]->Array_0@))
            } else {
                None
            }
        },
        _ => None,
    }
}

/// The entries of a list, in order, skipping malformed ones.
pub open spec fn entries_of(list: Seq<StreamReply>) -> Seq<(Seq<char>, Seq<StreamReply>)>
    decreases list.len(),
{
    if list.len() == 0 {
        Seq::empty()
    } else {
        let front = entries_of(list.drop_last());
        match entry_of(list.last()) {
            Some(e) => front.push(e),
            None => front,
        }
    }
}

/// The entries of a read reply: from the entry list (second element) of the
/// first stream, or none when the reply is not shaped so.
pub open spec fn stream_entries(reply: Seq<StreamReply>) -> Seq<(Seq<char>, Seq<StreamReply>)> {
    if reply.len() > 0 && reply[0] is Array {
        let stream = reply[0]->Array_0@;
        if stream.len() > 1 && stream[1] is Array {
            entries_of(stream[1]->Array_0@)
        } else {
            Seq::empty()
        }
    } else {
        Seq::empty()
    }
}

/// The entries of a read reply of the injection stream, each with its
/// identifier and its fields, in order.
pub fn injection_entries(reply: &Vec<StreamReply>) -> (r: Vec<(String, &Vec<StreamReply>)>)
    ensures
        r@.len() == stream_entries(reply@).len(),
        forall|k: int| 0 <= k < r@.len() ==> (#[trigger] r@[k]).0@ == stream_entries(reply@)[k].0
            && r@[k].1@ == stream_entries(reply@)[k].1,
{
    let mut out: Vec<(String, &Vec<StreamReply>)> = Vec::new();
    if reply.len() == 0 {
        return out;
    }
    let stream = match &reply[0] {
        StreamReply::Array(s) => s,
        _ => {
            return out;
        },
    };
    if stream.len() <= 1 {
        return out;
    }
    let list = match &stream[1] {
        StreamReply::Array(l) => l,
        _ => {
            return out;
        },
    };
    let mut i: usize = 0;
    while i < list.len()
        invariant
            i <= list@.len(),
            stream_entries(reply@) == entries_of(list@),
            out@.len() == entries_of(list@.take(i as int)).len(),
            forall|k: int| 0 <= k < out@.len() ==> (#[trigger] out@[k]).0@ == entries_of(list@.take(i as int))[k].0
                && out@[k].1@ == entries_of(list@.take(i as int))[k].1,
        decreases list@.len() - i,
    {
        proof {
            assert(list@.take(i + 1).drop_last() =~= list@.take(i as int));
            assert(list@.take(i + 1).last() == list@[i as int]);
        }
        let ghost before = out@;
        match &list[i] {
            StreamReply::Array(parts) => {
                if parts.len() >= 2 {
                    match (&parts[0], &parts[1]) {
                        (StreamReply::Bulk(id), StreamReply::Array(fields)) => {
                            let text = utf8_lossy(id.as_slice());
                            out.push((text, fields));
                            proof {
                                assert forall|k: int| 0 <= k < out@.len() implies (#[trigger] out@[k]).0@ == entries_of(list@.take(i + 1))[k].0
                                    && out@[k].1@ == entries_of(list@.take(i + 1))[k].1 by {
                                    if k < before.len() {
                                        assert(out@[k] == before[k]);
                                    }
                                }
                            }
                        },
                        _ => {},
                    }
                }
            },
            _ => {},
        }
        i += 1;
    }
    proof {
        assert(list@.take(list@.len() as int) =~= list@);
    }
    out
}

} // verus!
