//! Reading JSON text one level at a time.
//!
//! A document is taken apart by level: an object into its members, an array
//! into its items, a string into its characters. What lies below a level stays
//! JSON text until it is read in turn.

use vstd::prelude::*;
use std::collections::BTreeMap;
use serde_json::value::RawValue;

verus! {

/// One member of a JSON object: its name, and the JSON text of its value.
#[derive(Debug, Clone, PartialEq, Eq)]
pub struct Member {
    pub name: String,
    pub value: String,
}

impl View for Member {
    type V = (Seq<char>, Seq<char>);

    open spec fn view(&self) -> (Seq<char>, Seq<char>) {
        (self.name@, self.value@)
    }
}

/// The members of the JSON object that `serde_json` reads from a text, each
/// name once and in the order of the names, each with the JSON text of its
/// value; `None` where it reads no object from the text.
pub uninterp spec fn json_object(text: Seq<char>) -> Option<Seq<(Seq<char>, Seq<char>)>>;

/// The JSON texts of the items of the JSON array that `serde_json` reads from a
/// text, in their order; `None` where it reads no array from the text.
pub uninterp spec fn json_array(text: Seq<char>) -> Option<Seq<Seq<char>>>;

/// The characters of the JSON string that `serde_json` reads from a text, with
/// the escapes resolved; `None` where it reads no string from the text.
pub uninterp spec fn json_string(text: Seq<char>) -> Option<Seq<char>>;

/// The views of a list of members.
pub open spec fn members_view(members: Seq<Member>) -> Seq<(Seq<char>, Seq<char>)> {
    members.map_values(|m: Member| m@)
}

/// The views of a list of texts.
pub open spec fn texts_view(texts: Seq<String>) -> Seq<Seq<char>> {
    texts.map_values(|t: String| t@)
}

/// Calls `serde_json::from_str` for a `BTreeMap` from `String` to `RawValue`,
/// which reads a text that holds one JSON object and nothing but white space
/// around it. The members come out of the map in the order of their names, each
/// with the text of its value as `RawValue::get` returns it; of members with one
/// name the map keeps the last. A failed call gives `None`. The contract names
/// the result, which depends on the text alone.
#[verifier::external_body]
pub(crate) fn read_object(text: &str) -> (members: Option<Vec<Member>>)
    ensures
        members is Some <==> json_object(text@) is Some,
        members matches Some(list) ==> members_view(list@) == json_object(text@).unwrap(),
{
    match serde_json::from_str::<BTreeMap<String, Box<RawValue>>>(text) {
        Ok(map) => Some(
            map.into_iter().map(|(name, raw)| Member { name, value: raw.get().to_string() }).collect(),
        ),
        Err(_) => None,
    }
}

/// Calls `serde_json::from_str` for a `Vec` of `RawValue`, which reads a text
/// that holds one JSON array and nothing but white space around it. The result
/// holds the text of each item as `RawValue::get` returns it, in order. A failed
/// call gives `None`. The contract names the result, which depends on the text
/// alone.
#[verifier::external_body]
pub(crate) fn read_array(text: &str) -> (items: Option<Vec<String>>)
    ensures
        items is Some <==> json_array(text@) is Some,
        items matches Some(list) ==> texts_view(list@) == json_array(text@).unwrap(),
{
    match serde_json::from_str::<Vec<Box<RawValue>>>(text) {
        Ok(list) => Some(list.into_iter().map(|raw| raw.get().to_string()).collect()),
        Err(_) => None,
    }
}

/// Calls `serde_json::from_str` for a `String`, which reads a text that holds
/// one JSON string and nothing but white space around it, and resolves the
/// escapes. A failed call gives `None`. The contract names the result, which
/// depends on the text alone.
#[verifier::external_body]
pub(crate) fn read_string(text: &str) -> (content: Option<String>)
    ensures
        content is Some <==> json_string(text@) is Some,
        content matches Some(s) ==> s@ == json_string(text@).unwrap(),
{
    match serde_json::from_str::<String>(text) {
        Ok(content) => Some(content),
        Err(_) => None,
    }
}

/// The value of the first member called `name`, if there is one.
pub open spec fn member_value(members: Seq<(Seq<char>, Seq<char>)>, name: Seq<char>) -> Option<
    Seq<char>,
>
    decreases members.len(),
{
    if members.len() == 0 {
        None
    } else if members[0].0 == name {
        Some(members[0].1)
    } else {
        member_value(members.skip(1), name)
    }
}

/// Looking past `k` members that are not called `name` changes nothing.
proof fn member_value_skips(members: Seq<(Seq<char>, Seq<char>)>, name: Seq<char>, k: int)
    requires
        0 <= k <= members.len(),
        forall|j: int| 0 <= j < k ==> members[j].0 != name,
    ensures
        member_value(members, name) == member_value(members.skip(k), name),
    decreases k,
{
    if k == 0 {
        assert(members.skip(0) =~= members);
    } else {
        member_value_skips(members, name, k - 1);
        let rest = members.skip(k - 1);
        assert(rest[0] == members[k - 1]);
        assert(rest.skip(1) =~= members.skip(k));
    }
}

/// Finds the value of the first member called `name`.
pub fn lookup<'a>(members: &'a Vec<Member>, name: &str) -> (found: Option<&'a str>)
    ensures
        found is Some <==> member_value(members_view(members@), name@) is Some,
        found matches Some(value) ==> value@ == member_value(
            members_view(members@),
            name@,
        ).unwrap(),
{
    let ghost all = members_view(members@);
    let mut i: usize = 0;
    while i < members.len()
        invariant
            0 <= i <= members.len(),
            all == members_view(members@),
            forall|j: int| 0 <= j < i ==> all[j].0 != name@,
        decreases members.len() - i,
    {
        proof {
            member_value_skips(all, name@, i as int);
            assert(all.skip(i as int)[0] == all[i as int]);
        }
        if crate::text::same_text(members[i].name.as_str(), name) {
            return Some(members[i].value.as_str());
        }
        i += 1;
    }
    proof {
        member_value_skips(all, name@, i as int);
        assert(all.skip(i as int).len() == 0);
    }
    None
}

} // verus!
