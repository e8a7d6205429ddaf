//! The telemetry payload: a JSON object that maps each label to its reading,
//! both as JSON strings.

use crate::messages::{readings_view, text_view};
use vstd::prelude::*;

verus! {

/// The JSON string literal that stands for `text`: what `serde_json` writes
/// for it, `None` where it writes nothing.
pub uninterp spec fn json_string_text(text: Seq<char>) -> Option<Seq<char>>;

/// Calls `serde_json::to_string` on a string slice, and gives its text, or
/// `None` where it gives an error. The contract claims that the outcome
/// depends on the characters of `text` alone: the same text is written as the
/// same JSON string literal, or refused, each time. It does not say when the
/// text is refused.
#[verifier::external_body]
fn json_string(text: &str) -> (r: Option<String>)
    ensures
        text_view(r) == json_string_text(text@),
{
    serde_json::to_string(text).ok()
}

/// The members of a JSON object, each a name and a value that are JSON texts
/// already: name, colon, value, and a comma between one member and the next.
pub open spec fn members_text(members: Seq<(Seq<char>, Seq<char>)>) -> Seq<char>
    decreases members.len(),
{
    if members.len() == 0 {
        Seq::empty()
    } else {
        let comma = if members.len() == 1 {
            Seq::empty()
        } else {
            seq![',']
        };
        members_text(members.drop_last()) + comma + members.last().0 + seq![':']
            + members.last().1
    }
}

/// A JSON object of the given members, without any blank.
pub open spec fn object_text(members: Seq<(Seq<char>, Seq<char>)>) -> Seq<char> {
    seq!['{'] + members_text(members) + seq!['}']
}

/// Whether both the label and the reading of each of `values` can be written
/// as a JSON string literal.
pub open spec fn all_encodable(values: Seq<(Seq<char>, Seq<char>)>) -> bool {
    forall|i: int|
        0 <= i < values.len() ==> json_string_text(#[trigger] values[i].0) is Some
            && json_string_text(values[i].1) is Some
}

/// Each label and each reading as a JSON string literal.
pub open spec fn encoded_readings(values: Seq<(Seq<char>, Seq<char>)>) -> Seq<
    (Seq<char>, Seq<char>),
> {
    Seq::new(
        values.len(),
        |i: int| (json_string_text(values[i].0)->0, json_string_text(values[i].1)->0),
    )
}

/// The payload that reports `values`: one JSON object, its members in the
/// order of `values`. `None` where a label or a reading cannot be written.
pub open spec fn telemetry_text(values: Seq<(Seq<char>, Seq<char>)>) -> Option<Seq<char>> {
    if all_encodable(values) {
        Some(object_text(encoded_readings(values)))
    } else {
        None
    }
}

/// Frames members that are JSON texts already as one JSON object.
pub fn object_of(members: &Vec<(String, String)>) -> (r: String)
    ensures
        r@ == object_text(readings_view(members@)),
{
    let ghost all = readings_view(members@);
    let mut out = String::from_str("{");
    proof {
        reveal_strlit("{");
        reveal_strlit("}");
        reveal_strlit(",");
        reveal_strlit(":");
        assert("{"@ =~= seq!['{']);
        assert("}"@ =~= seq!['}']);
        assert(","@ =~= seq![',']);
        assert(":"@ =~= seq![':']);
        assert(all.take(0) =~= Seq::empty());
        assert(out@ =~= seq!['{'] + members_text(all.take(0)));
    }
    let mut i: usize = 0;
    while i < members.len()
        invariant
            i <= members.len(),
            all == readings_view(members@),
            out@ == seq!['{'] + members_text(all.take(i as int)),
            "}"@ == seq!['}'],
            ","@ == seq![','],
            ":"@ == seq![':'],
        decreases members.len() - i,
    {
        if i > 0 {
            out.append(",");
        }
        out.append(members[i].0.as_str());
        out.append(":");
        out.append(members[i].1.as_str());
        proof {
            let next = all.take(i + 1);
            assert(next.drop_last() == all.take(i as int));
            assert(next.last() == (members@[i as int].0@, members@[i as int].1@));
            assert(out@ =~= seq!['{'] + members_text(next));
        }
        i = i + 1;
    }
    out.append("}");
    proof {
        assert(all.take(i as int) == all);
        assert(out@ =~= object_text(all));
    }
    out
}

/// The payload that reports `values`.
pub fn telemetry_payload(values: &Vec<(String, String)>) -> (r: Option<String>)
    ensures
        text_view(r) == telemetry_text(readings_view(values@)),
{
    let ghost all = readings_view(values@);
    let mut encoded: Vec<(String, String)> = Vec::new();
    let mut i: usize = 0;
    while i < values.len()
        invariant
            i <= values.len(),
            all == readings_view(values@),
            encoded@.len() == i,
            all_encodable(all.take(i as int)),
            readings_view(encoded@) == encoded_readings(all).take(i as int),
        decreases values.len() - i,
    {
        assert(all[i as int] == (values@[i as int].0@, values@[i as int].1@));
        let label = match json_string(values[i].0.as_str()) {
            Some(literal) => literal,
            None => {
                assert(json_string_text(all[i as int].0) is None);
                return None;
            },
        };
        let reading = match json_string(values[i].1.as_str()) {
            Some(literal) => literal,
            None => {
                assert(json_string_text(all[i as int].0) is Some);
                assert(json_string_text(all[i as int].1) is None);
                return None;
            },
        };
        let ghost done = readings_view(encoded@);
        encoded.push((label, reading));
        proof {
            let now = readings_view(encoded@);
            assert(now[i as int] == encoded_readings(all)[i as int]);
            assert forall|j: int| 0 <= j < i implies now[j] == encoded_readings(all)[j] by {
                assert(now[j] == done[j]);
            }
            assert(now =~= encoded_readings(all).take(i + 1));
            assert forall|j: int| 0 <= j < i + 1 implies json_string_text(
                #[trigger] all.take(i + 1)[j].0,
            ) is Some && json_string_text(all.take(i + 1)[j].1) is Some by {
                if j < i {
                    assert(all.take(i as int)[j] == all.take(i + 1)[j]);
                }
            }
        }
        i = i + 1;
    }
    proof {
        assert(all.take(i as int) == all);
        assert(encoded_readings(all).take(i as int) == encoded_readings(all));
    }
    Some(object_of(&encoded))
}

} // verus!
