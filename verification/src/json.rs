//! The payloads of a device as a tree of plain values, and the lookups that
//! lead from a payload to the section that holds its channels.

use vstd::prelude::*;
use crate::text::decimal;
use crate::text::push_decimal;
use crate::text::same_text;

verus! {

/// A JSON number: an integer as such, any other number as its decimal
/// expansion.
#[derive(Debug, PartialEq, Eq)]
pub enum Number {
    /// An integer that is not negative.
    Unsigned(u64),
    /// An integer with a sign.
    Signed(i64),
    /// A number with a fraction or an exponent, held as the text that is
    /// written for it.
    Real(String),
}

impl Number {
    /// The number as it is written: an integer in decimal notation, with a
    /// minus sign where it is negative, and any other number as the text it is
    /// held as.
    pub open spec fn text(&self) -> Seq<char> {
        match *self {
            Number::Unsigned(value) => decimal(value as nat),
            Number::Signed(value) => if value < 0 {
                seq!['-'] + decimal((-value) as nat)
            } else {
                decimal(value as nat)
            },
            Number::Real(text) => text@,
        }
    }

    /// Writes the number at the end of `out`.
    pub fn push_text(&self, out: &mut String)
        ensures
            final(out)@ == old(out)@ + self.text(),
    {
        match self {
            Number::Unsigned(value) => {
                push_decimal(out, *value);
            },
            Number::Signed(value) => {
                if *value < 0 {
                    proof {
                        reveal_strlit("-");
                    }
                    assert("-"@ =~= seq!['-']);
                    let magnitude: u64 = (-(*value + 1)) as u64 + 1;
                    out.append("-");
                    push_decimal(out, magnitude);
                    assert(out@ =~= old(out)@ + self.text());
                } else {
                    push_decimal(out, *value as u64);
                }
            },
            Number::Real(text) => {
                out.append(text.as_str());
            },
        }
    }

    /// A copy of the number.
    pub fn duplicate(&self) -> (copy: Number)
        ensures
            copy == *self,
    {
        match self {
            Number::Unsigned(value) => Number::Unsigned(*value),
            Number::Signed(value) => Number::Signed(*value),
            Number::Real(text) => Number::Real(text.clone()),
        }
    }
}

/// A JSON value. An object is held as its members in the order in which they
/// were given.
#[derive(Debug, PartialEq, Eq)]
pub enum Json {
    Null,
    Bool(bool),
    Number(Number),
    Text(String),
    Array(Vec<Json>),
    Object(Vec<Member>),
}

/// One member of a JSON object.
#[derive(Debug, PartialEq, Eq)]
pub struct Member {
    pub key: String,
    pub value: Json,
}

/// The value of the first member with the given key.
pub open spec fn first_member(members: Seq<Member>, key: Seq<char>) -> Option<Json>
    decreases members.len(),
{
    if members.len() == 0 {
        None
    } else if members[0].key@ == key {
        Some(members[0].value)
    } else {
        first_member(members.drop_first(), key)
    }
}

impl Json {
    /// The member of an object with the given key; nothing for a key that the
    /// object lacks and for a value that is no object.
    pub open spec fn member(&self, key: Seq<char>) -> Option<Json> {
        match *self {
            Json::Object(members) => first_member(members@, key),
            _ => None,
        }
    }

    /// The item of an array at the given index; nothing for an index past the
    /// end and for a value that is no array.
    pub open spec fn item(&self, index: int) -> Option<Json> {
        match *self {
            Json::Array(items) => if 0 <= index < items@.len() {
                Some(items@[index])
            } else {
                None
            },
            _ => None,
        }
    }

    /// Whether the value is `null`.
    pub fn is_null(&self) -> (null: bool)
        ensures
            null == (*self is Null),
    {
        match self {
            Json::Null => true,
            _ => false,
        }
    }

    /// Looks up the member of an object by its key.
    pub fn get(&self, key: &str) -> (found: Option<&Json>)
        ensures
            match found {
                Some(value) => self.member(key@) == Some(*value),
                None => self.member(key@).is_none(),
            },
    {
        match self {
            Json::Object(members) => {
                let mut at: usize = 0;
                assert(members@.skip(0) =~= members@);
                while at < members.len()
                    invariant
                        at <= members.len(),
                        self.member(key@) == first_member(members@, key@),
                        first_member(members@, key@) == first_member(
                            members@.skip(at as int),
                            key@,
                        ),
                    decreases members.len() - at,
                {
                    proof {
                        let rest = members@.skip(at as int);
                        assert(rest[0] == members@[at as int]);
                        assert(rest.drop_first() =~= members@.skip(at + 1));
                    }
                    if same_text(members[at].key.as_str(), key) {
                        assert(first_member(members@.skip(at as int), key@) == Some(
                            members@[at as int].value,
                        ));
                        return Some(&members[at].value);
                    }
                    assert(first_member(members@.skip(at as int), key@) == first_member(
                        members@.skip(at + 1),
                        key@,
                    ));
                    at = at + 1;
                }
                None
            },
            _ => None,
        }
    }

    /// Looks up the item of an array by its index.
    pub fn at(&self, index: usize) -> (found: Option<&Json>)
        ensures
            match found {
                Some(value) => self.item(index as int) == Some(*value),
                None => self.item(index as int).is_none(),
            },
    {
        match self {
            Json::Array(items) => {
                if index < items.len() {
                    Some(&items[index])
                } else {
                    None
                }
            },
            _ => None,
        }
    }
}

/// The member of `value` with the given key, where there is a value at all.
pub open spec fn member_of(value: Option<Json>, key: Seq<char>) -> Option<Json> {
    match value {
        Some(inner) => inner.member(key),
        None => None,
    }
}

/// The channels of one group of a channel dump: what the payload holds under
/// `Body`, `Data`, the group's number and `channels`.
pub open spec fn channel_group(payload: Json, group: Seq<char>) -> Option<Json> {
    member_of(
        member_of(member_of(payload.member("Body"@), "Data"@), group),
        "channels"@,
    )
}

/// Finds the channels of one group in a channel dump.
pub fn find_channel_group<'a>(payload: &'a Json, group: &str) -> (found: Option<&'a Json>)
    ensures
        match found {
            Some(value) => channel_group(*payload, group@) == Some(*value),
            None => channel_group(*payload, group@).is_none(),
        },
{
    match payload.get("Body") {
        Some(body) => match body.get("Data") {
            Some(data) => match data.get(group) {
                Some(entry) => entry.get("channels"),
                None => None,
            },
            None => None,
        },
        None => None,
    }
}

/// The site summary of a power-flow status: its member `site`.
pub open spec fn site_summary(payload: Json) -> Option<Json> {
    payload.member("site"@)
}

/// Finds the site summary in a power-flow status.
pub fn find_site_summary(payload: &Json) -> (found: Option<&Json>)
    ensures
        match found {
            Some(value) => site_summary(*payload) == Some(*value),
            None => site_summary(*payload).is_none(),
        },
{
    payload.get("site")
}

/// The first inverter of a power-flow status: the first item of its member
/// `inverters`.
pub open spec fn first_inverter(payload: Json) -> Option<Json> {
    match payload.member("inverters"@) {
        Some(inverters) => inverters.item(0),
        None => None,
    }
}

/// Finds the first inverter in a power-flow status.
pub fn find_first_inverter(payload: &Json) -> (found: Option<&Json>)
    ensures
        match found {
            Some(value) => first_inverter(*payload) == Some(*value),
            None => first_inverter(*payload).is_none(),
        },
{
    match payload.get("inverters") {
        Some(inverters) => inverters.at(0),
        None => None,
    }
}

} // verus!
