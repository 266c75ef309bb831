//! Declarations for the upstream byte-stream parser, the `marc_record`
//! crate. The parser splits raw ISO 2709 bytes into records; everything
//! it returns is modeled here so that verified code can take it apart.
//!
//! The structs and enums below are transparent declarations: Verus reads
//! their public fields and variants from the upstream definitions, so
//! verified code can match on them directly. Only the two tag newtypes
//! are opaque (their fields are private upstream) and are read through
//! small trusted wrappers.

use vstd::prelude::*;

use crate::framing::stream_safe;

verus! {

#[verifier::external_type_specification]
pub struct ExRecord(marc_record::Record);

#[verifier::external_type_specification]
pub struct ExLeader(marc_record::Leader);

#[verifier::external_type_specification]
pub struct ExStatus(marc_record::Status);

#[verifier::external_type_specification]
pub struct ExRecordType(marc_record::RecordType);

#[verifier::external_type_specification]
pub struct ExBibliographicalLevel(marc_record::BibliographicalLevel);

#[verifier::external_type_specification]
pub struct ExControlType(marc_record::ControlType);

#[verifier::external_type_specification]
pub struct ExCodingScheme(marc_record::CodingScheme);

#[verifier::external_type_specification]
pub struct ExEncodingLevel(marc_record::EncodingLevel);

#[verifier::external_type_specification]
pub struct ExCatalogingForm(marc_record::CatalogingForm);

#[verifier::external_type_specification]
pub struct ExMultipartResourceRecordLevel(marc_record::MultipartResourceRecordLevel);

#[verifier::external_type_specification]
pub struct ExField(marc_record::Field);

#[verifier::external_type_specification]
pub struct ExControlField(marc_record::ControlField);

#[verifier::external_type_specification]
pub struct ExDataField(marc_record::DataField);

#[verifier::external_type_specification]
pub struct ExSubfield(marc_record::Subfield);

#[verifier::external_type_specification]
pub struct ExError(marc_record::Error);

#[verifier::external_type_specification]
#[verifier::external_body]
pub struct ExFieldTag(marc_record::FieldTag);

#[verifier::external_type_specification]
#[verifier::external_body]
pub struct ExSubfieldTag(marc_record::SubfieldTag);

/// Whether the upstream parser accepts the whole byte buffer `data`.
/// The parse outcome is a function of the bytes alone.
pub uninterp spec fn parse_ok(data: Seq<u8>) -> bool;

/// The reason text of the upstream parse error on `data`, for a buffer
/// the parser rejects.
pub uninterp spec fn parse_fail_reason(data: Seq<u8>) -> Seq<char>;

/// The byte offset named by the upstream parse error on `data`, for a
/// buffer the parser rejects.
pub uninterp spec fn parse_fail_offset(data: Seq<u8>) -> nat;

/// Relies on `marc_record::parse_records`: splits a raw byte buffer into
/// zero or more parsed records, or fails with a parse error carrying a
/// reason and a byte offset; the outcome depends on the bytes alone.
/// On a buffer whose record directory reaches outside the data the
/// parser steps out of its input and aborts instead of returning, so
/// `requires` leaves those buffers out; the verified `stream_framing_ok`
/// check establishes that before every call.
pub assume_specification[ marc_record::parse_records ](data: &[u8]) -> (r: Result<
    Vec<marc_record::Record>,
    marc_record::Error,
>)
    requires
        stream_safe(data@, 0),
    ensures
        r is Ok <==> parse_ok(data@),
        (r matches Err(e) ==> e matches marc_record::Error::ParseFailed { reason, offset }
            && reason@ == parse_fail_reason(data@) && offset as nat == parse_fail_offset(data@)),
;

/// Relies on `Display for marc_record::FieldTag`: writes exactly the
/// tag's three characters, so the rendered string has length three.
#[verifier::external_body]
pub fn field_tag_string(tag: &marc_record::FieldTag) -> (r: String)
    ensures
        r@.len() == 3,
{
    tag.to_string()
}

/// Relies on `Display for marc_record::SubfieldTag`: writes exactly the
/// tag's single character, so the rendered string has length one.
#[verifier::external_body]
pub fn subfield_tag_string(tag: &marc_record::SubfieldTag) -> (r: String)
    ensures
        r@.len() == 1,
{
    tag.to_string()
}

} // verus!
