//! The field model and record assembly: control and data fields with
//! their subfields, built from the upstream parser's output with field
//! and subfield order preserved, and their interchange serialization.

use vstd::prelude::*;
use vstd::string::StringExecFns;

use crate::framing::{stream_framing_ok, stream_safe};
use crate::interchange::Value;
use crate::text::{decimal_digits, spec_trim, trim_str, u64_to_decimal};
use crate::upstream::{
    field_tag_string, parse_fail_offset, parse_fail_reason, parse_ok, subfield_tag_string,
};
use marc_record::{ControlField, DataField, Error, Field, Record, Subfield};

verus! {

/// A subfield: the smallest addressable unit of a data field, one tag
/// character and a string payload. Storage keeps the original spacing;
/// trimming happens at serialization time.
#[derive(Debug)]
pub struct SubfieldWrapper {
    pub tag: String,
    pub data: String,
}

impl SubfieldWrapper {
    /// What wrapping an upstream subfield guarantees: the payload is
    /// carried over unchanged and the tag renders as one character.
    pub open spec fn converted_from(self, subfield: Subfield) -> bool {
        &&& self.tag@.len() == 1
        &&& self.data@ == subfield.data@
    }

    /// What the serialized subfield mapping holds: keys `tag` and
    /// `data`, both values trimmed of surrounding white space.
    pub open spec fn value_matches(self, v: Value) -> bool {
        let ps = v.pairs();
        &&& v is Mapping
        &&& ps.len() == 2
        &&& ps[0].0@ == "tag"@
        &&& ps[0].1 is Text
        &&& ps[0].1.text() == spec_trim(self.tag@)
        &&& ps[1].0@ == "data"@
        &&& ps[1].1 is Text
        &&& ps[1].1.text() == spec_trim(self.data@)
    }

    /// Serializes the subfield into its interchange mapping.
    pub fn encode(&self) -> (v: Value)
        ensures
            self.value_matches(v),
    {
        let mut pairs: Vec<(String, Value)> = Vec::new();
        pairs.push((String::from_str("tag"), Value::Text(trim_str(self.tag.as_str()))));
        pairs.push((String::from_str("data"), Value::Text(trim_str(self.data.as_str()))));
        Value::Mapping(pairs)
    }
}

/// A control field: a tag and one undivided string of data.
#[derive(Debug)]
pub struct ControlFieldWrapper {
    pub tag: String,
    pub data: String,
}

impl ControlFieldWrapper {
    /// What wrapping an upstream control field guarantees: the data is
    /// carried over unchanged and the tag renders as three characters.
    pub open spec fn converted_from(self, control: ControlField) -> bool {
        &&& self.tag@.len() == 3
        &&& self.data@ == control.data@
    }

    /// Wraps one upstream control field.
    pub fn new(control: ControlField) -> (r: ControlFieldWrapper)
        ensures
            r.converted_from(control),
    {
        let tag = field_tag_string(&control.tag);
        ControlFieldWrapper { tag, data: control.data }
    }

    /// What the serialized control field holds: keys `type`, `tag` and
    /// `data` and nothing else — in particular no `indicator` and no
    /// `subfields` key. The tag is trimmed; the data is emitted as is.
    pub open spec fn value_matches(self, v: Value) -> bool {
        let ps = v.pairs();
        &&& v is Mapping
        &&& ps.len() == 3
        &&& ps[0].0@ == "type"@
        &&& ps[0].1 is Text
        &&& ps[0].1.text() == "control"@
        &&& ps[1].0@ == "tag"@
        &&& ps[1].1 is Text
        &&& ps[1].1.text() == spec_trim(self.tag@)
        &&& ps[2].0@ == "data"@
        &&& ps[2].1 is Text
        &&& ps[2].1.text() == self.data@
    }

    /// Serializes the control field into its interchange mapping.
    pub fn encode(&self) -> (v: Value)
        ensures
            self.value_matches(v),
    {
        let mut pairs: Vec<(String, Value)> = Vec::new();
        pairs.push((String::from_str("type"), Value::Text(String::from_str("control"))));
        pairs.push((String::from_str("tag"), Value::Text(trim_str(self.tag.as_str()))));
        pairs.push((String::from_str("data"), Value::Text(self.data.clone())));
        Value::Mapping(pairs)
    }
}

/// A data field: a tag, the two indicator characters kept as one opaque
/// string, and an ordered sequence of subfields.
#[derive(Debug)]
pub struct DataFieldWrapper {
    pub tag: String,
    pub indicator: String,
    pub subfields: Vec<SubfieldWrapper>,
}

impl DataFieldWrapper {
    /// What wrapping an upstream data field guarantees: the indicator
    /// characters are concatenated in order, the subfields correspond
    /// one to one in order, and the tag renders as three characters.
    pub open spec fn converted_from(self, data: DataField) -> bool {
        &&& self.tag@.len() == 3
        &&& self.indicator@ == data.indicator@
        &&& self.subfields@.len() == data.subfields@.len()
        &&& forall|i: int|
            0 <= i < data.subfields@.len() ==> #[trigger] self.subfields@[i].converted_from(
                data.subfields@[i],
            )
    }

    /// Wraps one upstream data field.
    pub fn new(data: DataField) -> (r: DataFieldWrapper)
        ensures
            r.converted_from(data),
    {
        let DataField { tag, indicator, subfields } = data;
        DataFieldWrapper {
            tag: field_tag_string(&tag),
            indicator: Self::build_indicator(indicator.as_slice()),
            subfields: Self::build_subfields(subfields.as_slice()),
        }
    }

    /// Concatenates the indicator characters, in their original order,
    /// into one opaque string.
    pub fn build_indicator(indicator: &[char]) -> (r: String)
        ensures
            r@ == indicator@,
    {
        let n = indicator.len();
        let mut acc = String::new();
        let mut i: usize = 0;
        while i < n
            invariant
                n == indicator@.len(),
                i <= n,
                acc@ == indicator@.subrange(0, i as int),
            decreases n - i,
        {
            acc.push(indicator[i]);
            proof {
                assert(indicator@.subrange(0, i + 1) =~= indicator@.subrange(0, i as int).push(
                    indicator@[i as int],
                ));
            }
            i = i + 1;
        }
        proof {
            assert(indicator@.subrange(0, n as int) =~= indicator@);
        }
        acc
    }

    /// Wraps every upstream subfield, one to one and in order.
    pub fn build_subfields(subfields: &[Subfield]) -> (r: Vec<SubfieldWrapper>)
        ensures
            r@.len() == subfields@.len(),
            forall|i: int|
                0 <= i < subfields@.len() ==> #[trigger] r@[i].converted_from(subfields@[i]),
    {
        let n = subfields.len();
        let mut out: Vec<SubfieldWrapper> = Vec::new();
        let mut i: usize = 0;
        while i < n
            invariant
                n == subfields@.len(),
                i <= n,
                out@.len() == i,
                forall|j: int|
                    0 <= j < i ==> #[trigger] out@[j].converted_from(subfields@[j]),
            decreases n - i,
        {
            let subfield = &subfields[i];
            let tag = subfield_tag_string(&subfield.tag);
            out.push(SubfieldWrapper { tag, data: subfield.data.clone() });
            i = i + 1;
        }
        out
    }

    /// What the serialized data field holds: keys `type`, `tag`,
    /// `indicator` and `subfields`, always all four. The tag and the
    /// indicator are trimmed; the subfields keep their order and count,
    /// an empty subfield list serializing to an empty list, never to an
    /// omitted key.
    pub open spec fn value_matches(self, v: Value) -> bool {
        let ps = v.pairs();
        &&& v is Mapping
        &&& ps.len() == 4
        &&& ps[0].0@ == "type"@
        &&& ps[0].1 is Text
        &&& ps[0].1.text() == "data"@
        &&& ps[1].0@ == "tag"@
        &&& ps[1].1 is Text
        &&& ps[1].1.text() == spec_trim(self.tag@)
        &&& ps[2].0@ == "indicator"@
        &&& ps[2].1 is Text
        &&& ps[2].1.text() == spec_trim(self.indicator@)
        &&& ps[3].0@ == "subfields"@
        &&& ps[3].1 is List
        &&& ps[3].1.items().len() == self.subfields@.len()
        &&& forall|i: int|
            0 <= i < self.subfields@.len() ==> #[trigger] self.subfields@[i].value_matches(
                ps[3].1.items()[i],
            )
    }

    /// Serializes the data field into its interchange mapping.
    pub fn encode(&self) -> (v: Value)
        ensures
            self.value_matches(v),
    {
        let n = self.subfields.len();
        let mut items: Vec<Value> = Vec::new();
        let mut i: usize = 0;
        while i < n
            invariant
                n == self.subfields@.len(),
                i <= n,
                items@.len() == i,
                forall|j: int|
                    0 <= j < i ==> #[trigger] self.subfields@[j].value_matches(items@[j]),
            decreases n - i,
        {
            items.push(self.subfields[i].encode());
            i = i + 1;
        }
        let mut pairs: Vec<(String, Value)> = Vec::new();
        pairs.push((String::from_str("type"), Value::Text(String::from_str("data"))));
        pairs.push((String::from_str("tag"), Value::Text(trim_str(self.tag.as_str()))));
        pairs.push((String::from_str("indicator"), Value::Text(trim_str(self.indicator.as_str()))));
        pairs.push((String::from_str("subfields"), Value::List(items)));
        Value::Mapping(pairs)
    }
}

/// A field is either a control field or a data field; the upstream
/// parser has already discriminated the two by shape.
#[derive(Debug)]
pub enum FieldWrapper {
    Data(DataFieldWrapper),
    Control(ControlFieldWrapper),
}

impl FieldWrapper {
    /// What wrapping an upstream field guarantees: the variant is kept
    /// and its payload is converted.
    pub open spec fn converted_from(self, field: Field) -> bool {
        match field {
            Field::Control(control) => self matches FieldWrapper::Control(w)
                && w.converted_from(control),
            Field::Data(data) => self matches FieldWrapper::Data(w) && w.converted_from(data),
        }
    }

    /// Wraps one upstream field, keeping its variant.
    pub fn new(field: Field) -> (r: FieldWrapper)
        ensures
            r.converted_from(field),
    {
        match field {
            Field::Control(control) => FieldWrapper::Control(ControlFieldWrapper::new(control)),
            Field::Data(data) => FieldWrapper::Data(DataFieldWrapper::new(data)),
        }
    }

    /// What the serialized field holds: the mapping of its variant.
    pub open spec fn value_matches(self, v: Value) -> bool {
        match self {
            FieldWrapper::Data(data) => data.value_matches(v),
            FieldWrapper::Control(control) => control.value_matches(v),
        }
    }

    /// Serializes the field into its interchange mapping.
    pub fn encode(&self) -> (v: Value)
        ensures
            self.value_matches(v),
    {
        match self {
            FieldWrapper::Data(data) => data.encode(),
            FieldWrapper::Control(control) => control.encode(),
        }
    }
}

/// A control field's serialized mapping never carries an `indicator` or
/// a `subfields` key; a data field's serialized mapping always carries
/// both.
pub proof fn lemma_field_key_discipline(f: FieldWrapper, v: Value)
    requires
        f.value_matches(v),
    ensures
        v is Mapping,
        f is Control ==> !v.has_key("indicator"@) && !v.has_key("subfields"@),
        f is Data ==> v.has_key("indicator"@) && v.has_key("subfields"@),
{
    reveal_strlit("type");
    reveal_strlit("tag");
    reveal_strlit("data");
    reveal_strlit("indicator");
    reveal_strlit("subfields");
    assert("type"@.len() == 4);
    assert("tag"@.len() == 3);
    assert("data"@.len() == 4);
    assert("indicator"@.len() == 9);
    assert("subfields"@.len() == 9);
    match f {
        FieldWrapper::Control(_) => {
            if v.has_key("indicator"@) {
                let i = choose|i: int|
                    0 <= i < v.pairs().len() && v.pairs()[i].0@ == "indicator"@;
                assert(false);
            }
            if v.has_key("subfields"@) {
                let i = choose|i: int|
                    0 <= i < v.pairs().len() && v.pairs()[i].0@ == "subfields"@;
                assert(false);
            }
        },
        FieldWrapper::Data(_) => {
            assert(v.pairs()[2].0@ == "indicator"@);
            assert(v.has_key("indicator"@));
            assert(v.pairs()[3].0@ == "subfields"@);
            assert(v.has_key("subfields"@));
        },
    }
}

/// A serialized field's mapping, control or data, carries pairwise
/// distinct keys.
pub proof fn lemma_field_keys_unique(f: FieldWrapper, v: Value)
    requires
        f.value_matches(v),
    ensures
        forall|i: int, j: int|
            0 <= i < j < v.pairs().len() ==> v.pairs()[i].0@ != v.pairs()[j].0@,
{
    reveal_strlit("type");
    reveal_strlit("tag");
    reveal_strlit("data");
    reveal_strlit("indicator");
    reveal_strlit("subfields");
    assert("type"@.len() == 4);
    assert("tag"@.len() == 3);
    assert("data"@.len() == 4);
    assert("indicator"@.len() == 9);
    assert("subfields"@.len() == 9);
    assert("type"@[0] == 't');
    assert("data"@[0] == 'd');
    assert("indicator"@[0] == 'i');
    assert("subfields"@[0] == 's');
}

/// An assembled record: its fields in their original order. The Leader
/// is classified separately and is not part of the field list.
#[derive(Debug)]
pub struct RecordWrapper {
    pub fields: Vec<FieldWrapper>,
}

impl RecordWrapper {
    /// What assembling an upstream record guarantees: one wrapped field
    /// per upstream field, in the same order.
    pub open spec fn converted_from(self, record: Record) -> bool {
        &&& self.fields@.len() == record.fields@.len()
        &&& forall|i: int|
            0 <= i < record.fields@.len() ==> #[trigger] self.fields@[i].converted_from(
                record.fields@[i],
            )
    }

    /// Assembles one upstream record.
    pub fn new(record: Record) -> (r: RecordWrapper)
        ensures
            r.converted_from(record),
    {
        let fields = Self::get_record_fields(record);
        RecordWrapper { fields }
    }

    /// Wraps every field of the record, preserving order.
    fn get_record_fields(record: Record) -> (r: Vec<FieldWrapper>)
        ensures
            r@.len() == record.fields@.len(),
            forall|i: int|
                0 <= i < record.fields@.len() ==> #[trigger] r@[i].converted_from(
                    record.fields@[i],
                ),
    {
        let Record { leader: _, fields } = record;
        let ghost original = fields@;
        let mut fields = fields;
        let mut out: Vec<FieldWrapper> = Vec::new();
        while fields.len() > 0
            invariant
                out@.len() + fields@.len() == original.len(),
                fields@ == original.subrange(out@.len() as int, original.len() as int),
                forall|i: int|
                    0 <= i < out@.len() ==> #[trigger] out@[i].converted_from(original[i]),
            decreases fields@.len(),
        {
            let ghost done = out@.len() as int;
            let field = fields.remove(0);
            proof {
                assert(field == original[done]);
                assert(fields@ =~= original.subrange(done + 1, original.len() as int));
            }
            out.push(FieldWrapper::new(field));
        }
        out
    }

    /// What the serialized record holds: a mapping with the single key
    /// `fields`, an ordered list with one serialized field per field of
    /// the record, in the same order.
    pub open spec fn value_matches(self, v: Value) -> bool {
        let ps = v.pairs();
        &&& v is Mapping
        &&& ps.len() == 1
        &&& ps[0].0@ == "fields"@
        &&& ps[0].1 is List
        &&& ps[0].1.items().len() == self.fields@.len()
        &&& forall|i: int|
            0 <= i < self.fields@.len() ==> #[trigger] self.fields@[i].value_matches(
                ps[0].1.items()[i],
            )
    }

    /// Serializes the record into its interchange mapping.
    pub fn encode(&self) -> (v: Value)
        ensures
            self.value_matches(v),
    {
        let n = self.fields.len();
        let mut items: Vec<Value> = Vec::new();
        let mut i: usize = 0;
        while i < n
            invariant
                n == self.fields@.len(),
                i <= n,
                items@.len() == i,
                forall|j: int| 0 <= j < i ==> #[trigger] self.fields@[j].value_matches(items@[j]),
            decreases n - i,
        {
            items.push(self.fields[i].encode());
            i = i + 1;
        }
        let mut pairs: Vec<(String, Value)> = Vec::new();
        pairs.push((String::from_str("fields"), Value::List(items)));
        Value::Mapping(pairs)
    }
}

/// Whether `wrapped` is, element for element and in order, the wrapped
/// form of the upstream batch `records`.
pub open spec fn converted_batch(records: Seq<Record>, wrapped: Seq<RecordWrapper>) -> bool {
    &&& wrapped.len() == records.len()
    &&& forall|i: int|
        0 <= i < records.len() ==> #[trigger] wrapped[i].converted_from(records[i])
}

/// Assembles every record of an upstream batch, preserving batch order.
pub fn convert_records(records: Vec<Record>) -> (r: Vec<RecordWrapper>)
    ensures
        converted_batch(records@, r@),
{
    let ghost original = records@;
    let mut records = records;
    let mut out: Vec<RecordWrapper> = Vec::new();
    while records.len() > 0
        invariant
            out@.len() + records@.len() == original.len(),
            records@ == original.subrange(out@.len() as int, original.len() as int),
            forall|i: int|
                0 <= i < out@.len() ==> #[trigger] out@[i].converted_from(original[i]),
        decreases records@.len(),
    {
        let ghost done = out@.len() as int;
        let record = records.remove(0);
        proof {
            assert(record == original[done]);
            assert(records@ =~= original.subrange(done + 1, original.len() as int));
        }
        out.push(RecordWrapper::new(record));
    }
    out
}

/// The message text reported for an upstream parse failure: the phrase
/// naming the record-decoding layer, the upstream reason, and the byte
/// offset of the failure.
pub open spec fn parse_error_text(reason: Seq<char>, offset: nat) -> Seq<char> {
    "Error in crate marc-record: Failed to parse: "@ + reason + " at byte offset `"@
        + decimal_digits(offset) + "`"@
}

/// Renders an upstream parse error as a single message.
pub fn parse_error_message(error: &Error) -> (m: String)
    ensures
        (*error matches Error::ParseFailed { reason, offset } ==> m@ == parse_error_text(
            reason@,
            offset as nat,
        )),
{
    match error {
        Error::ParseFailed { reason, offset } => {
            let mut m = String::from_str("Error in crate marc-record: Failed to parse: ");
            m.append(reason.as_str());
            m.append(" at byte offset `");
            let digits = u64_to_decimal(*offset as u64);
            m.append(digits.as_str());
            m.append("`");
            m
        },
    }
}

/// Whether `wrapped` is the wrapped form of some upstream batch.
pub open spec fn is_wrapped_batch(wrapped: Seq<RecordWrapper>) -> bool {
    exists|records: Seq<Record>| #[trigger] converted_batch(records, wrapped)
}

/// The message reported when the record framing itself is unsafe for
/// the upstream parser: a directory that reaches outside the buffer.
pub open spec fn framing_error_text() -> Seq<char> {
    "Error in crate marc-record: Failed to parse: record directory reaches outside the buffer"@
}

/// Decodes a raw MARC21 byte buffer, all or nothing: the result is a
/// batch exactly when the stream's framing is safe and the upstream
/// parser accepts the buffer, with one assembled record per upstream
/// record in batch order; on any failure there is exactly one error
/// message, naming the record-decoding layer, and no records at all.
/// The message of an upstream failure renders the upstream error for
/// this very buffer, reason and byte offset included.
pub fn parse_records_wrapper(data: &[u8]) -> (r: Result<Vec<RecordWrapper>, String>)
    ensures
        (r is Ok <==> stream_safe(data@, 0) && parse_ok(data@)),
        (r matches Ok(wrapped) ==> is_wrapped_batch(wrapped@)),
        (r matches Err(m) ==> m@ == (if stream_safe(data@, 0) {
            parse_error_text(parse_fail_reason(data@), parse_fail_offset(data@))
        } else {
            framing_error_text()
        })),
{
    if !stream_framing_ok(data) {
        return Err(
            String::from_str(
                "Error in crate marc-record: Failed to parse: record directory reaches outside the buffer",
            ),
        );
    }
    match marc_record::parse_records(data) {
        Ok(records) => {
            let ghost upstream = records@;
            let wrapped = convert_records(records);
            proof {
                assert(converted_batch(upstream, wrapped@));
                assert(is_wrapped_batch(wrapped@));
            }
            Ok(wrapped)
        },
        Err(error) => {
            let message = parse_error_message(&error);
            proof {
                match error {
                    Error::ParseFailed { reason, offset } => {
                        assert(message@ == parse_error_text(reason@, offset as nat));
                        assert(message@ == parse_error_text(
                            parse_fail_reason(data@),
                            parse_fail_offset(data@),
                        ));
                    },
                }
            }
            Err(message)
        },
    }
}

} // verus!
