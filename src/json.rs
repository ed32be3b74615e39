//! JSON objects whose values are all strings, through serde_json.
use vstd::prelude::*;
use std::collections::BTreeMap;

verus! {

/// The views of a list of string pairs.
pub open spec fn pairs_view(v: Seq<(String, String)>) -> Seq<(Seq<char>, Seq<char>)> {
    v.map_values(|e: (String, String)| (e.0@, e.1@))
}

/// The fields of the JSON object in `b`, in key order, where `b` is a JSON
/// object whose values are all strings; `None` where it is not.
pub uninterp spec fn json_string_object(b: Seq<u8>) -> Option<Seq<(Seq<char>, Seq<char>)>>;

/// The JSON text serde_json writes for the object with the given string
/// fields.
pub uninterp spec fn json_object_text(fields: Seq<(Seq<char>, Seq<char>)>) -> Seq<u8>;

/// `a` comes before `b` in the order of strings: character by character,
/// a proper prefix first.
pub open spec fn seq_lt(a: Seq<char>, b: Seq<char>) -> bool
    decreases a.len(),
{
    if a.len() == 0 {
        b.len() > 0
    } else if b.len() == 0 {
        false
    } else if a[0] != b[0] {
        (a[0] as u32) < (b[0] as u32)
    } else {
        seq_lt(a.drop_first(), b.drop_first())
    }
}

/// The keys are strictly ascending: distinct, in the order a map from
/// strings keeps them.
pub open spec fn keys_ascending(fields: Seq<(Seq<char>, Seq<char>)>) -> bool {
    forall|i: int, j: int| 0 <= i < j < fields.len() ==> seq_lt(#[trigger] fields[i].0, #[trigger] fields[j].0)
}

/// Relies on serde_json::from_slice into a map from strings to strings:
/// `None` where the bytes are not such a JSON object.
#[verifier::external_body]
pub(crate) fn decode_string_object(bytes: &[u8]) -> (r: Option<Vec<(String, String)>>)
    ensures
        match r {
            Some(v) => json_string_object(bytes@) == Some(pairs_view(v@)),
            None => json_string_object(bytes@) is None,
        },
{
    match serde_json::from_slice::<BTreeMap<String, String>>(bytes) {
        Ok(m) => Some(m.into_iter().collect()),
        Err(_) => None,
    }
}

/// Relies on serde_json::to_vec of a map from strings to strings: its JSON
/// text, which serde_json::from_slice reads back as the same fields in key
/// order. The keys come in ascending order, so the map holds the fields one
/// for one.
#[verifier::external_body]
pub(crate) fn encode_string_object(fields: &Vec<(String, String)>) -> (r: Vec<u8>)
    requires
        keys_ascending(pairs_view(fields@)),
    ensures
        r@ == json_object_text(pairs_view(fields@)),
        json_string_object(r@) == Some(pairs_view(fields@)),
{
    let m: BTreeMap<String, String> = fields.iter().cloned().collect();
    serde_json::to_vec(&m).unwrap_or_default()
}

/// The value of the first field named `key`.
pub open spec fn field_value(fields: Seq<(Seq<char>, Seq<char>)>, key: Seq<char>) -> Option<
    Seq<char>,
>
    decreases fields.len(),
{
    if fields.len() == 0 {
        None
    } else if fields[0].0 == key {
        Some(fields[0].1)
    } else {
        field_value(fields.drop_first(), key)
    }
}

/// The value of the first field named `key`.
pub fn find_field(fields: &Vec<(String, String)>, key: &str) -> (r: Option<String>)
    ensures
        match r {
            Some(v) => field_value(pairs_view(fields@), key@) == Some(v@),
            None => field_value(pairs_view(fields@), key@) is None,
        },
{
    let key_string = String::from_str(key);
    let mut i: usize = 0;
    assert(pairs_view(fields@).skip(0) =~= pairs_view(fields@));
    while i < fields.len()
        invariant
            i <= fields.len(),
            key_string@ == key@,
            field_value(pairs_view(fields@), key@) == field_value(
                pairs_view(fields@).skip(i as int),
                key@,
            ),
        decreases fields.len() - i,
    {
        let ghost rest = pairs_view(fields@).skip(i as int);
        assert(rest.drop_first() =~= pairs_view(fields@).skip(i + 1));
        assert(rest[0] == (fields@[i as int].0@, fields@[i as int].1@));
        if fields[i].0 == key_string {
            return Some(fields[i].1.clone());
        }
        i = i + 1;
    }
    None
}

} // verus!
