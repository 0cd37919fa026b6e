//! Reading the fields of a section out of a payload.

use vstd::prelude::*;
use crate::json::Json;
use crate::json::Member;
use crate::json::Number;
use crate::text::same_text;

verus! {

/// The value of one channel as it enters a metric line.
#[derive(Debug, PartialEq, Eq)]
pub enum Reading {
    /// The device gave no value: the channel is missing or `null`.
    Absent,
    /// A switch, written as `1` or `0`.
    Flag(bool),
    /// A number.
    Number(Number),
}

impl Reading {
    /// A copy of the reading.
    pub fn duplicate(&self) -> (copy: Reading)
        ensures
            copy == *self,
    {
        match self {
            Reading::Absent => Reading::Absent,
            Reading::Flag(on) => Reading::Flag(*on),
            Reading::Number(number) => Reading::Number(number.duplicate()),
        }
    }
}

/// The sections of a record.
#[derive(Debug, Clone, Copy, PartialEq, Eq, Structural)]
pub enum SectionKind {
    /// The channels of the battery management system.
    Battery,
    /// The channels of the inverter cache.
    Cache,
    /// The power-flow summary of the site.
    SitePowerFlow,
    /// The power-flow detail of the first inverter.
    InverterPowerFlow,
}

/// What is wrong with a section that cannot be decoded. A field is named by
/// its position in the section.
#[derive(Debug, Clone, Copy, PartialEq, Eq, Structural)]
pub enum DecodeReason {
    /// The section is neither an object nor an array.
    NotARecord,
    /// The section is an array, but not of one item for each field.
    WrongLength,
    /// The section is an object that lacks a field it must have.
    MissingField(usize),
    /// The section is an object that gives a field more than once, by its
    /// name, by its vendor key, or by both.
    DuplicateField(usize),
    /// The field is given as text, as an array or as an object, none of which
    /// can be written as the value of a metric.
    UnsupportedValue(usize),
    /// The section is missing or `null`, and the record cannot do without it.
    SectionAbsent,
}

/// A payload that does not yield the record of a device.
#[derive(Debug, Clone, Copy, PartialEq, Eq, Structural)]
pub struct DecodeFailure {
    pub section: SectionKind,
    pub reason: DecodeReason,
}

/// One field of a section: the name under which it is written as a metric,
/// the key under which the vendor's payload holds it, and whether the section
/// must have it.
#[derive(Debug, Clone, Copy, PartialEq, Eq)]
pub struct FieldSpec {
    pub name: &'static str,
    pub vendor_key: &'static str,
    pub required: bool,
}

impl FieldSpec {
    /// Whether a member with this key gives the field.
    pub open spec fn names(&self, key: Seq<char>) -> bool {
        key == self.name@ || key == self.vendor_key@
    }

    /// The test that picks the members that give the field.
    pub open spec fn gives(&self) -> spec_fn(Member) -> bool {
        |member: Member| self.names(member.key@)
    }
}

/// The reading that a value stands for: `null`, a boolean and a number can be
/// written as a metric, anything else cannot.
pub open spec fn leaf_reading(value: Json, position: int) -> Result<Reading, DecodeReason> {
    match value {
        Json::Null => Ok(Reading::Absent),
        Json::Bool(on) => Ok(Reading::Flag(on)),
        Json::Number(number) => Ok(Reading::Number(number)),
        _ => Err(DecodeReason::UnsupportedValue(position as usize)),
    }
}

/// The reading of one field of an object. The field is given by the one member
/// whose key is its name or its vendor key. Without such a member an optional
/// field is absent and a required one is an error; with more than one the
/// object is ambiguous.
pub open spec fn member_reading(members: Seq<Member>, field: FieldSpec, position: int) -> Result<
    Reading,
    DecodeReason,
> {
    let given = members.filter(field.gives());
    if given.len() == 0 {
        if field.required {
            Err(DecodeReason::MissingField(position as usize))
        } else {
            Ok(Reading::Absent)
        }
    } else if given.len() > 1 {
        Err(DecodeReason::DuplicateField(position as usize))
    } else {
        leaf_reading(given[0].value, position)
    }
}

/// The readings of the first `count` fields of an object, or what is wrong
/// with the first field that cannot be read.
pub open spec fn member_readings(
    members: Seq<Member>,
    layout: Seq<FieldSpec>,
    count: nat,
) -> Result<Seq<Reading>, DecodeReason>
    decreases count,
{
    if count == 0 {
        Ok(Seq::<Reading>::empty())
    } else {
        match member_readings(members, layout, (count - 1) as nat) {
            Err(reason) => Err(reason),
            Ok(earlier) => match member_reading(members, layout[count - 1], count - 1) {
                Err(reason) => Err(reason),
                Ok(reading) => Ok(earlier.push(reading)),
            },
        }
    }
}

/// The readings of the first `count` items of an array, each item standing
/// for the field at its position, or what is wrong with the first item that
/// cannot be read.
pub open spec fn item_readings(items: Seq<Json>, count: nat) -> Result<Seq<Reading>, DecodeReason>
    decreases count,
{
    if count == 0 {
        Ok(Seq::<Reading>::empty())
    } else {
        match item_readings(items, (count - 1) as nat) {
            Err(reason) => Err(reason),
            Ok(earlier) => match leaf_reading(items[count - 1], count - 1) {
                Err(reason) => Err(reason),
                Ok(reading) => Ok(earlier.push(reading)),
            },
        }
    }
}

/// The readings of a section, one for each field of its layout and in the
/// order of the layout. An object gives its fields by key, an array by
/// position; nothing else is a section.
pub open spec fn record_readings(section: Json, layout: Seq<FieldSpec>) -> Result<
    Seq<Reading>,
    DecodeReason,
> {
    match section {
        Json::Object(members) => member_readings(members@, layout, layout.len()),
        Json::Array(items) => if items@.len() == layout.len() {
            item_readings(items@, layout.len())
        } else {
            Err(DecodeReason::WrongLength)
        },
        _ => Err(DecodeReason::NotARecord),
    }
}

/// The readings of a section that a payload may lack: none where the lookup
/// found nothing or found `null`.
pub open spec fn section_readings(found: Option<Json>, layout: Seq<FieldSpec>) -> Result<
    Option<Seq<Reading>>,
    DecodeReason,
> {
    match found {
        None => Ok(None),
        Some(Json::Null) => Ok(None),
        Some(section) => match record_readings(section, layout) {
            Ok(readings) => Ok(Some(readings)),
            Err(reason) => Err(reason),
        },
    }
}

/// Reads the value of one field.
fn read_leaf(value: &Json, position: usize) -> (read: Result<Reading, DecodeReason>)
    ensures
        read == leaf_reading(*value, position as int),
{
    match value {
        Json::Null => Ok(Reading::Absent),
        Json::Bool(on) => Ok(Reading::Flag(*on)),
        Json::Number(number) => Ok(Reading::Number(number.duplicate())),
        _ => Err(DecodeReason::UnsupportedValue(position)),
    }
}

/// Reads one field of an object.
fn read_member(members: &Vec<Member>, field: &FieldSpec, position: usize) -> (read: Result<
    Reading,
    DecodeReason,
>)
    ensures
        read == member_reading(members@, *field, position as int),
{
    let mut first: usize = 0;
    let mut count: usize = 0;
    let mut at: usize = 0;
    proof {
        reveal(Seq::filter);
        assert(members@.take(0) =~= Seq::<Member>::empty());
    }
    while at < members.len()
        invariant
            at <= members.len(),
            count == members@.take(at as int).filter(field.gives()).len(),
            count <= at,
            count > 0 ==> first < at && members@.take(at as int).filter(field.gives())[0]
                == members@[first as int],
        decreases members.len() - at,
    {
        proof {
            reveal(Seq::filter);
            let upto = members@.take(at + 1);
            assert(upto.drop_last() =~= members@.take(at as int));
            assert(upto.last() == members@[at as int]);
        }
        let key = members[at].key.as_str();
        if same_text(key, field.name) || same_text(key, field.vendor_key) {
            if count == 0 {
                first = at;
            }
            count = count + 1;
        }
        at = at + 1;
    }
    assert(members@.take(at as int) =~= members@);
    if count == 0 {
        if field.required {
            Err(DecodeReason::MissingField(position))
        } else {
            Ok(Reading::Absent)
        }
    } else if count > 1 {
        Err(DecodeReason::DuplicateField(position))
    } else {
        read_leaf(&members[first].value, position)
    }
}

/// Reads the fields of a section in the order of its layout.
fn read_record(section: &Json, layout: &Vec<FieldSpec>) -> (read: Result<
    Vec<Reading>,
    DecodeReason,
>)
    ensures
        match read {
            Ok(readings) => record_readings(*section, layout@) == Ok::<_, DecodeReason>(
                readings@,
            ) && readings@.len() == layout@.len(),
            Err(reason) => record_readings(*section, layout@) == Err::<Seq<Reading>, _>(reason),
        },
{
    match section {
        Json::Object(members) => {
            let mut readings: Vec<Reading> = Vec::new();
            let mut at: usize = 0;
            while at < layout.len()
                invariant
                    at <= layout.len(),
                    readings@.len() == at,
                    member_readings(members@, layout@, at as nat) == Ok::<_, DecodeReason>(
                        readings@,
                    ),
                    record_readings(*section, layout@) == member_readings(
                        members@,
                        layout@,
                        layout@.len(),
                    ),
                decreases layout.len() - at,
            {
                match read_member(members, &layout[at], at) {
                    Ok(reading) => {
                        readings.push(reading);
                    },
                    Err(reason) => {
                        proof {
                            lemma_member_readings_fail(
                                members@,
                                layout@,
                                at as nat + 1,
                                layout@.len(),
                            );
                        }
                        return Err(reason);
                    },
                }
                at = at + 1;
            }
            Ok(readings)
        },
        Json::Array(items) => {
            if items.len() != layout.len() {
                return Err(DecodeReason::WrongLength);
            }
            let mut readings: Vec<Reading> = Vec::new();
            let mut at: usize = 0;
            while at < layout.len()
                invariant
                    at <= layout.len(),
                    readings@.len() == at,
                    items@.len() == layout@.len(),
                    item_readings(items@, at as nat) == Ok::<_, DecodeReason>(readings@),
                    record_readings(*section, layout@) == item_readings(items@, layout@.len()),
                decreases layout.len() - at,
            {
                match read_leaf(&items[at], at) {
                    Ok(reading) => {
                        readings.push(reading);
                    },
                    Err(reason) => {
                        proof {
                            lemma_item_readings_fail(items@, at as nat + 1, layout@.len());
                        }
                        return Err(reason);
                    },
                }
                at = at + 1;
            }
            Ok(readings)
        },
        _ => Err(DecodeReason::NotARecord),
    }
}

/// Once a field cannot be read, no longer run of fields can be read either,
/// and the error stays that of the first such field.
proof fn lemma_member_readings_fail(
    members: Seq<Member>,
    layout: Seq<FieldSpec>,
    failed: nat,
    count: nat,
)
    requires
        member_readings(members, layout, failed) is Err,
        failed <= count,
    ensures
        member_readings(members, layout, count) == member_readings(members, layout, failed),
    decreases count,
{
    if failed < count {
        lemma_member_readings_fail(members, layout, failed, (count - 1) as nat);
    }
}

/// Once an item cannot be read, no longer run of items can be read either,
/// and the error stays that of the first such item.
proof fn lemma_item_readings_fail(items: Seq<Json>, failed: nat, count: nat)
    requires
        item_readings(items, failed) is Err,
        failed <= count,
    ensures
        item_readings(items, count) == item_readings(items, failed),
    decreases count,
{
    if failed < count {
        lemma_item_readings_fail(items, failed, (count - 1) as nat);
    }
}

/// The fields of an object are read one by one, each for itself: the object
/// is accepted exactly if every field can be read, and then the readings are
/// those of the fields, in the order of the layout.
pub proof fn lemma_fields_are_read_independently(
    members: Seq<Member>,
    layout: Seq<FieldSpec>,
    count: nat,
)
    ensures
        member_readings(members, layout, count) is Ok <==> forall|position: int|
            0 <= position < count ==> (#[trigger] member_reading(
                members,
                layout[position],
                position,
            )) is Ok,
        member_readings(members, layout, count) matches Ok(readings) ==> readings.len() == count
            && forall|position: int|
            0 <= position < count ==> member_reading(members, layout[position], position) == Ok::<
                Reading,
                DecodeReason,
            >(#[trigger] readings[position]),
    decreases count,
{
    if count > 0 {
        lemma_fields_are_read_independently(members, layout, (count - 1) as nat);
    }
}

/// A field that is optional never fails an object for being left out, and a
/// field that is required always does.
pub proof fn lemma_missing_field(members: Seq<Member>, field: FieldSpec, position: int)
    requires
        forall|i: int| 0 <= i < members.len() ==> !field.names(#[trigger] members[i].key@),
    ensures
        !field.required ==> member_reading(members, field, position) == Ok::<
            Reading,
            DecodeReason,
        >(Reading::Absent),
        field.required ==> member_reading(members, field, position) == Err::<
            Reading,
            DecodeReason,
        >(DecodeReason::MissingField(position as usize)),
{
    members.lemma_all_neg_filter_empty(field.gives());
}

/// The value behind a lookup's result.
pub open spec fn found_value(found: Option<&Json>) -> Option<Json> {
    match found {
        Some(section) => Some(*section),
        None => None,
    }
}

/// Reads a section that a payload may lack.
pub fn read_section(found: Option<&Json>, layout: &Vec<FieldSpec>) -> (read: Result<
    Option<Vec<Reading>>,
    DecodeReason,
>)
    ensures
        match read {
            Ok(Some(readings)) => section_readings(found_value(found), layout@) == Ok::<
                _,
                DecodeReason,
            >(Some(readings@)) && readings@.len() == layout@.len(),
            Ok(None) => section_readings(found_value(found), layout@) == Ok::<
                Option<Seq<Reading>>,
                DecodeReason,
            >(None),
            Err(reason) => section_readings(found_value(found), layout@) == Err::<
                Option<Seq<Reading>>,
                _,
            >(reason),
        },
{
    match found {
        None => Ok(None),
        Some(section) => {
            if section.is_null() {
                Ok(None)
            } else {
                match read_record(section, layout) {
                    Ok(readings) => Ok(Some(readings)),
                    Err(reason) => Err(reason),
                }
            }
        },
    }
}

} // verus!
