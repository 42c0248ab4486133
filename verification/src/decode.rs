use vstd::prelude::*;

verus! {

/// Why a response body could not be decoded.
#[derive(Clone, Copy, Debug, PartialEq, Eq, Structural)]
pub enum DecodeError {
    /// The body is not valid JSON of the expected shape.
    Malformed,
    /// The body decoded to a list with no entries where one entry is needed.
    EmptyList,
    /// The decoded champion data holds no record for the requested champion.
    MissingEntry,
}

/// The flat list of strings that a response body decodes to, or `None` when
/// the body is not a JSON array of strings.
pub uninterp spec fn json_string_list_of(text: Seq<char>) -> Option<Seq<Seq<char>>>;

/// The champion identifiers under the `data` key of a response body, in the
/// order the decoder yields them, or `None` when the body is not a JSON
/// object whose `data` member is an object.
pub uninterp spec fn json_data_keys_of(text: Seq<char>) -> Option<Seq<Seq<char>>>;

/// The champion identifiers under the `data` key of a response body, paired
/// with each record's `lore` text, in the order the decoder yields them, or
/// `None` when the body does not have that shape.
pub uninterp spec fn json_lore_map_of(text: Seq<char>) -> Option<Seq<(Seq<char>, Seq<char>)>>;

/// Relies on serde_json::from_str for Vec<String>: decodes a JSON array of
/// strings, in array order, and rejects any other document.
#[verifier::external_body]
pub(crate) fn decode_string_list(text: &str) -> (r: Option<Vec<String>>)
    ensures
        r matches Some(v) ==> json_string_list_of(text@) == Some(v.deep_view()),
        r is None ==> json_string_list_of(text@) is None,
{
    match serde_json::from_str::<Vec<String>>(text) {
        Ok(v) => Some(v),
        Err(_) => None,
    }
}

/// Relies on serde_json::from_str, Value::get, Value::as_object and the
/// map's iterator: yields the keys of the `data` object in the decoder's
/// (sorted) order, and rejects a document without such an object.
#[verifier::external_body]
pub(crate) fn decode_data_keys(text: &str) -> (r: Option<Vec<String>>)
    ensures
        r matches Some(v) ==> json_data_keys_of(text@) == Some(v.deep_view()),
        r is None ==> json_data_keys_of(text@) is None,
{
    let root: serde_json::Value = match serde_json::from_str(text) {
        Ok(v) => v,
        Err(_) => return None,
    };
    let data = root.get("data")?.as_object()?;
    let mut out: Vec<String> = Vec::new();
    for key in data.keys() {
        out.push(key.clone());
    }
    Some(out)
}

/// Relies on serde_json::from_str, Value::get, Value::as_object, Value::as_str
/// and the map's iterator: yields each key of the `data` object together with
/// its record's `lore` string, in the decoder's (sorted) order, and rejects a
/// document in which any of those is missing or of another type.
#[verifier::external_body]
pub(crate) fn decode_lore_map(text: &str) -> (r: Option<Vec<(String, String)>>)
    ensures
        r matches Some(v) ==> json_lore_map_of(text@) == Some(v.deep_view()),
        r is None ==> json_lore_map_of(text@) is None,
{
    let root: serde_json::Value = match serde_json::from_str(text) {
        Ok(v) => v,
        Err(_) => return None,
    };
    let data = root.get("data")?.as_object()?;
    let mut out: Vec<(String, String)> = Vec::new();
    for (key, record) in data.iter() {
        let lore = record.get("lore")?.as_str()?;
        out.push((key.clone(), lore.to_owned()));
    }
    Some(out)
}

/// The lore paired with `name` in decoded champion entries, scanning in list
/// order from position `k` and taking the first hit.
pub open spec fn lookup_from(
    entries: Seq<(Seq<char>, Seq<char>)>,
    name: Seq<char>,
    k: int,
) -> Option<Seq<char>>
    decreases entries.len() - k,
{
    if k < 0 || k >= entries.len() {
        None
    } else if entries[k].0 == name {
        Some(entries[k].1)
    } else {
        lookup_from(entries, name, k + 1)
    }
}

/// The lore recorded for `name` among decoded champion entries.
pub open spec fn lookup_lore(
    entries: Seq<(Seq<char>, Seq<char>)>,
    name: Seq<char>,
) -> Option<Seq<char>> {
    lookup_from(entries, name, 0)
}

/// Returns the lore paired with the first entry named `name`, or `None` when
/// no entry carries that name.
pub fn lore_for(entries: &Vec<(String, String)>, name: &String) -> (r: Option<String>)
    ensures
        match r {
            Some(l) => lookup_lore(entries.deep_view(), name@) == Some(l@),
            None => lookup_lore(entries.deep_view(), name@) is None,
        },
{
    let ghost ev = entries.deep_view();
    let mut k: usize = 0;
    while k < entries.len()
        invariant
            0 <= k <= entries.len(),
            ev == entries.deep_view(),
            lookup_from(ev, name@, k as int) == lookup_lore(ev, name@),
        decreases entries.len() - k,
    {
        let pair = &entries[k];
        if pair.0.eq(name) {
            return Some(pair.1.clone());
        }
        k = k + 1;
    }
    None
}

} // verus!
