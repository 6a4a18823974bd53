//! Flat JSON objects: the members of an outbound frame or request body, and
//! their rendering as JSON text.

use vstd::prelude::*;
use crate::error::Error;
use crate::text::{signed_decimal, signed_to_string};
use serde_json::Error as JsonError;

verus! {

/// The value of one member of a flat JSON object.
#[derive(Clone, Debug, PartialEq, Eq)]
pub enum FieldValue {
    Text(String),
    Integer(i64),
}

/// One member of a flat JSON object.
#[derive(Clone, Debug, PartialEq, Eq)]
pub struct Field {
    pub name: String,
    pub value: FieldValue,
}

/// The JSON string literal (quoted and escaped) that serde_json writes for `s`.
pub uninterp spec fn json_string_literal(s: Seq<char>) -> Seq<char>;

/// Relies on `serde_json::to_string` on a `str`: the JSON string literal of
/// `s`; a `str` serializes into an in-memory buffer, which cannot fail.
#[verifier::external_body]
fn quote(s: &str) -> (r: Result<String, JsonError>)
    ensures
        r is Ok,
        r matches Ok(t) ==> t@ == json_string_literal(s@),
{
    serde_json::to_string(s)
}

/// The first value held under `name`, if any.
pub open spec fn find_field(fields: Seq<Field>, name: Seq<char>) -> Option<FieldValue>
    decreases fields.len(),
{
    if fields.len() == 0 {
        None
    } else if fields[0].name@ == name {
        Some(fields[0].value)
    } else {
        find_field(fields.drop_first(), name)
    }
}

/// The JSON text of a member value.
pub open spec fn value_text(v: FieldValue) -> Seq<char> {
    match v {
        FieldValue::Text(s) => json_string_literal(s@),
        FieldValue::Integer(i) => signed_decimal(i as int),
    }
}

/// The JSON text of a member: its quoted name, a colon, its value.
pub open spec fn member_text(f: Field) -> Seq<char> {
    json_string_literal(f.name@) + ":"@ + value_text(f.value)
}

/// Member texts separated by commas.
pub open spec fn comma_joined(ms: Seq<Seq<char>>) -> Seq<char>
    decreases ms.len(),
{
    if ms.len() == 0 {
        Seq::empty()
    } else if ms.len() == 1 {
        ms[0]
    } else {
        comma_joined(ms.drop_last()) + ","@ + ms.last()
    }
}

/// The JSON text of an object whose member texts are `ms`, in order.
pub open spec fn object_of_members(ms: Seq<Seq<char>>) -> Seq<char> {
    "{"@ + comma_joined(ms) + "}"@
}

/// The JSON text of the flat object holding `fields`, in order.
pub open spec fn object_text(fields: Seq<Field>) -> Seq<char> {
    object_of_members(fields.map_values(|f: Field| member_text(f)))
}

/// The value stored under `name`, if any member has that name (the first one wins).
pub fn lookup<'a>(fields: &'a Vec<Field>, name: &str) -> (r: Option<&'a FieldValue>)
    ensures
        match r {
            Some(v) => find_field(fields@, name@) == Some(*v),
            None => find_field(fields@, name@) is None,
        },
{
    let mut k: usize = 0;
    assert(fields@.subrange(0, fields.len() as int) =~= fields@);
    while k < fields.len()
        invariant
            0 <= k <= fields.len(),
            find_field(fields@, name@) == find_field(fields@.subrange(k as int, fields.len() as int), name@),
        decreases fields.len() - k,
    {
        let ghost rest = fields@.subrange(k as int, fields.len() as int);
        assert(rest.drop_first() =~= fields@.subrange(k + 1, fields.len() as int));
        if crate::text::same_text(fields[k].name.as_str(), name) {
            return Some(&fields[k].value);
        }
        k = k + 1;
    }
    None
}

/// Joins already rendered member texts into the text of a JSON object.
pub fn join_members(members: &Vec<String>) -> (r: String)
    ensures
        r@ == object_of_members(members@.map_values(|m: String| m@)),
{
    let ghost ms = members@.map_values(|m: String| m@);
    let mut acc = String::new();
    let mut k: usize = 0;
    while k < members.len()
        invariant
            0 <= k <= members.len(),
            ms == members@.map_values(|m: String| m@),
            acc@ == comma_joined(ms.subrange(0, k as int)),
        decreases members.len() - k,
    {
        assert(ms.subrange(0, k + 1).drop_last() =~= ms.subrange(0, k as int));
        if k == 0 {
            acc = members[k].clone();
            assert(ms.subrange(0, 1) =~= seq![ms[0]]);
        } else {
            acc = acc.concat(",").concat(members[k].as_str());
        }
        k = k + 1;
    }
    assert(ms.subrange(0, members.len() as int) =~= ms);
    String::from_str("{").concat(acc.as_str()).concat("}")
}

/// The JSON text of one member value.
fn render_value(v: &FieldValue) -> (r: Result<String, Error>)
    ensures
        r matches Ok(t) ==> t@ == value_text(*v),
        r is Ok,
{
    match v {
        FieldValue::Text(s) => match quote(s.as_str()) {
            Ok(t) => Ok(t),
            Err(e) => Err(Error::from(e)),
        },
        FieldValue::Integer(i) => Ok(signed_to_string(*i)),
    }
}

/// Renders `fields`, in order, as the text of a flat JSON object.
pub fn render_object(fields: &Vec<Field>) -> (r: Result<String, Error>)
    ensures
        r matches Ok(t) ==> t@ == object_text(fields@),
        r is Ok,
{
    let mut members: Vec<String> = Vec::new();
    let mut k: usize = 0;
    while k < fields.len()
        invariant
            0 <= k <= fields.len(),
            members@.len() == k,
            forall|j: int| 0 <= j < k ==> #[trigger] members@[j]@ == member_text(fields@[j]),
        decreases fields.len() - k,
    {
        let name = match quote(fields[k].name.as_str()) {
            Ok(t) => t,
            Err(e) => return Err(Error::from(e)),
        };
        let value = render_value(&fields[k].value)?;
        members.push(name.concat(":").concat(value.as_str()));
        k = k + 1;
    }
    let r = join_members(&members);
    assert(members@.map_values(|m: String| m@) =~= fields@.map_values(|f: Field| member_text(f)));
    Ok(r)
}

/// Where the first `k` members do not carry `name` and member `k` does, the
/// lookup finds member `k`.
pub proof fn lemma_find_field_at(fields: Seq<Field>, name: Seq<char>, k: int)
    requires
        0 <= k < fields.len(),
        fields[k].name@ == name,
        forall|j: int| 0 <= j < k ==> fields[j].name@ != name,
    ensures
        find_field(fields, name) == Some(fields[k].value),
    decreases k,
{
    if k > 0 {
        lemma_find_field_at(fields.drop_first(), name, k - 1);
    }
}

/// Where no member carries `name`, the lookup finds nothing.
pub proof fn lemma_find_field_absent(fields: Seq<Field>, name: Seq<char>)
    requires
        forall|j: int| 0 <= j < fields.len() ==> fields[j].name@ != name,
    ensures
        find_field(fields, name) is None,
    decreases fields.len(),
{
    if fields.len() > 0 {
        lemma_find_field_absent(fields.drop_first(), name);
    }
}

} // verus!
