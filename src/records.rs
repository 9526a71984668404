use crate::render::domains_of;
use vstd::prelude::*;

verus! {

#[verifier::external_type_specification]
#[verifier::external_body]
pub struct ExJsonValue(serde_json::Value);

/// A decoded JSON document, as far as this library reads it: numbers are
/// kept only as such, and an object's members in the decoder's order.
pub enum JsonModel {
    Null,
    Bool(bool),
    Number,
    Text(String),
    Array(Vec<JsonModel>),
    Object(Vec<(String, JsonModel)>),
}

/// Why the registry's answer could not be turned into a domain list.
#[derive(Clone, Copy, Debug, PartialEq, Eq, Structural)]
pub enum FetchError {
    /// The request could not be sent or did not complete.
    Network,
    /// The body is not valid JSON.
    Decode,
    /// The body has no `Records` array.
    Schema,
}

impl FetchError {
    /// A human-readable description of the failure.
    pub fn message(&self) -> (r: String)
        ensures
            r@ == match self {
                FetchError::Network => "request to the registry failed"@,
                FetchError::Decode => "invalid JSON response"@,
                FetchError::Schema => "invalid JSON response: missing Records array"@,
            },
    {
        let text = match self {
            FetchError::Network => "request to the registry failed",
            FetchError::Decode => "invalid JSON response",
            FetchError::Schema => "invalid JSON response: missing Records array",
        };
        text.to_owned()
    }
}

/// The document serde_json decodes from `text`, or `None` where it refuses
/// the text (it is not well-formed JSON, or nests deeper than the decoder
/// allows).
pub uninterp spec fn json_of(text: Seq<char>) -> Option<JsonModel>;

/// Relies on serde_json::from_str into a serde_json::Value: the decoded
/// document depends on the text alone.
#[verifier::external_body]
fn decode_json(text: &str) -> (r: Option<JsonModel>)
    ensures
        r == json_of(text@),
{
    serde_json::from_str::<serde_json::Value>(text).ok().map(|v| model_of(&v))
}

/// Carries a serde_json::Value over into `JsonModel`, variant for variant.
#[verifier::external_body]
fn model_of(value: &serde_json::Value) -> JsonModel {
    match value {
        serde_json::Value::Null => JsonModel::Null,
        serde_json::Value::Bool(b) => JsonModel::Bool(*b),
        serde_json::Value::Number(_) => JsonModel::Number,
        serde_json::Value::String(s) => JsonModel::Text(s.clone()),
        serde_json::Value::Array(a) => JsonModel::Array(a.iter().map(model_of).collect()),
        serde_json::Value::Object(m) => JsonModel::Object(
            m.iter().map(|(k, x)| (k.clone(), model_of(x))).collect(),
        ),
    }
}

/// The position of the member named `key` among `members`: the last one of
/// that name.
pub open spec fn member_index(members: Seq<(String, JsonModel)>, key: Seq<char>) -> Option<int>
    decreases members.len(),
{
    if members.len() == 0 {
        None
    } else if members.last().0@ == key {
        Some(members.len() - 1)
    } else {
        member_index(members.drop_last(), key)
    }
}

/// The position that `member_index` gives lies among the members and holds
/// that name.
pub proof fn lemma_member_index_bounds(members: Seq<(String, JsonModel)>, key: Seq<char>)
    ensures
        match member_index(members, key) {
            Some(j) => 0 <= j < members.len() && members[j].0@ == key,
            None => true,
        },
    decreases members.len(),
{
    if members.len() > 0 && members.last().0@ != key {
        lemma_member_index_bounds(members.drop_last(), key);
    }
}

/// The member named `key` of an object; `None` for a missing member or a
/// value that is no object.
pub open spec fn member_of(value: JsonModel, key: Seq<char>) -> Option<JsonModel> {
    match value {
        JsonModel::Object(members) => match member_index(members@, key) {
            Some(j) => Some(members@[j].1),
            None => None,
        },
        _ => None,
    }
}

/// The `strSite` text of a record, if it has one.
pub open spec fn site_of(record: JsonModel) -> Option<Seq<char>> {
    match member_of(record, "strSite"@) {
        Some(JsonModel::Text(s)) => Some(s@),
        _ => None,
    }
}

/// The records of a registry answer: its `Records` member, if that is an
/// array.
pub open spec fn records_of(answer: JsonModel) -> Option<Seq<JsonModel>> {
    match member_of(answer, "Records"@) {
        Some(JsonModel::Array(items)) => Some(items@),
        _ => None,
    }
}

/// The `strSite` text of each record, in order.
pub open spec fn site_fields(records: Seq<JsonModel>) -> Seq<Option<Seq<char>>> {
    records.map_values(|x: JsonModel| site_of(x))
}

/// The domain list of a registry answer: `None` when it has no `Records`
/// array, else the `strSite` texts of its records in order, skipping records
/// without one.
pub open spec fn sites_of(answer: JsonModel) -> Option<Seq<Seq<char>>> {
    match records_of(answer) {
        Some(items) => Some(present_sites(site_fields(items))),
        None => None,
    }
}

/// The sites of the records that have one, in record order.
pub open spec fn present_sites(fields: Seq<Option<Seq<char>>>) -> Seq<Seq<char>>
    decreases fields.len(),
{
    if fields.len() == 0 {
        Seq::empty()
    } else {
        let rest = present_sites(fields.drop_last());
        match fields.last() {
            Some(site) => rest.push(site),
            None => rest,
        }
    }
}

/// The views of optional strings.
pub open spec fn fields_of(fields: Seq<Option<String>>) -> Seq<Option<Seq<char>>> {
    fields.map_values(|f: Option<String>|
        match f {
            Some(s) => Some(s@),
            None => None,
        })
}

/// Keeps the site of each record that has one, in record order; records
/// without a site are skipped.
pub fn present_site_list(fields: &Vec<Option<String>>) -> (r: Vec<String>)
    ensures
        domains_of(r@) == present_sites(fields_of(fields@)),
{
    let mut sites: Vec<String> = Vec::new();
    let mut i: usize = 0;
    while i < fields.len()
        invariant
            i <= fields@.len(),
            domains_of(sites@) == present_sites(fields_of(fields@).take(i as int)),
        decreases fields@.len() - i,
    {
        let ghost before = sites@;
        assert(fields_of(fields@).take(i + 1).drop_last() =~= fields_of(fields@).take(i as int));
        match &fields[i] {
            Some(site) => {
                sites.push(site.clone());
                assert(domains_of(sites@) =~= domains_of(before).push(site@));
            },
            None => {},
        }
        i = i + 1;
    }
    assert(fields_of(fields@).take(i as int) =~= fields_of(fields@));
    sites
}

/// The domain list carried by a registry answer whose `Records` member was
/// read as `records` (`None` when it is missing or not an array), each
/// element giving its `strSite` text if it has one.
pub fn sites_from_records(records: &Option<Vec<Option<String>>>) -> (r: Result<Vec<String>, FetchError>)
    ensures
        match records {
            None => r == Err::<Vec<String>, FetchError>(FetchError::Schema),
            Some(fields) => r.is_ok() && domains_of(r.unwrap()@) == present_sites(fields_of(fields@)),
        },
{
    match records {
        None => Err(FetchError::Schema),
        Some(fields) => Ok(present_site_list(fields)),
    }
}

/// The member named `key` of `value`, as `member_of` gives it.
fn member<'a>(value: &'a JsonModel, key: &str) -> (r: Option<&'a JsonModel>)
    ensures
        match member_of(*value, key@) {
            Some(m) => r.is_some() && *r.unwrap() == m,
            None => r.is_none(),
        },
{
    match value {
        JsonModel::Object(members) => {
            let name = key.to_owned();
            let mut found: Option<usize> = None;
            let mut i: usize = 0;
            while i < members.len()
                invariant
                    i <= members@.len(),
                    name@ == key@,
                    match member_index(members@.take(i as int), key@) {
                        Some(j) => found == Some(j as usize) && 0 <= j < i,
                        None => found.is_none(),
                    },
                decreases members@.len() - i,
            {
                assert(members@.take(i + 1).drop_last() =~= members@.take(i as int));
                proof {
                    lemma_member_index_bounds(members@.take(i as int), key@);
                }
                if members[i].0 == name {
                    found = Some(i);
                }
                i = i + 1;
            }
            assert(members@.take(i as int) =~= members@);
            match found {
                Some(j) => Some(&members[j].1),
                None => None,
            }
        },
        _ => None,
    }
}

/// The `strSite` text of a record, as `site_of` gives it.
fn site_text(record: &JsonModel) -> (r: Option<String>)
    ensures
        match site_of(*record) {
            Some(s) => r.is_some() && r.unwrap()@ == s,
            None => r.is_none(),
        },
{
    match member(record, "strSite") {
        Some(JsonModel::Text(s)) => Some(s.clone()),
        _ => None,
    }
}

/// Reads the `strSite` text of each record of a registry answer; `None` when
/// it has no `Records` array.
fn record_fields(answer: &JsonModel) -> (r: Option<Vec<Option<String>>>)
    ensures
        match records_of(*answer) {
            Some(items) => r.is_some() && fields_of(r.unwrap()@) == site_fields(items),
            None => r.is_none(),
        },
{
    let records = match member(answer, "Records") {
        Some(JsonModel::Array(items)) => Some(items),
        _ => None,
    };
    match records {
        None => None,
        Some(items) => {
            let ghost wanted = site_fields(items@);
            let mut fields: Vec<Option<String>> = Vec::new();
            let mut i: usize = 0;
            while i < items.len()
                invariant
                    i <= items@.len(),
                    wanted == site_fields(items@),
                    fields_of(fields@) == wanted.take(i as int),
                decreases items@.len() - i,
            {
                let site = site_text(&items[i]);
                let ghost before = fields@;
                assert(fields_of(before).len() == before.len());
                assert(before.len() == i);
                fields.push(site);
                assert(fields@ == before.push(site));
                assert forall|k: int| 0 <= k < i + 1 implies fields_of(fields@)[k] == wanted.take(
                    i + 1,
                )[k] by {
                    if k < i {
                        assert(fields@[k] == before[k]);
                        assert(fields_of(before).len() == i);
                        assert(fields_of(before)[k] == wanted.take(i as int)[k]);
                    } else {
                        assert(fields@[k] == site);
                        assert(wanted[k] == site_of(items@[k]));
                    }
                }
                assert(fields_of(fields@) =~= wanted.take(i + 1));
                i = i + 1;
            }
            assert(wanted.take(i as int) =~= wanted);
            Some(fields)
        },
    }
}

/// The domain list of a decoded registry answer: `FetchError::Schema` when
/// it has no `Records` array, else the `strSite` texts of its records.
pub fn extract_sites(answer: &JsonModel) -> (r: Result<Vec<String>, FetchError>)
    ensures
        match sites_of(*answer) {
            None => r == Err::<Vec<String>, FetchError>(FetchError::Schema),
            Some(sites) => r.is_ok() && domains_of(r.unwrap()@) == sites,
        },
{
    let records = record_fields(answer);
    sites_from_records(&records)
}

/// The domain list of a registry answer given as text: `FetchError::Decode`
/// when the text does not decode as JSON, else as `extract_sites` gives it.
pub fn parse_sites(body: &str) -> (r: Result<Vec<String>, FetchError>)
    ensures
        match json_of(body@) {
            None => r == Err::<Vec<String>, FetchError>(FetchError::Decode),
            Some(answer) => match sites_of(answer) {
                None => r == Err::<Vec<String>, FetchError>(FetchError::Schema),
                Some(sites) => r.is_ok() && domains_of(r.unwrap()@) == sites,
            },
        },
{
    match decode_json(body) {
        Some(answer) => extract_sites(&answer),
        None => Err(FetchError::Decode),
    }
}

} // verus!
