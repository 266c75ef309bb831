use marc_record_nif::framing::stream_framing_ok;
use marc_record_nif::interchange::Value;
use marc_record_nif::leader::{
    parse_leader_number, BibliographicalLevelWrapper, CatalogingFormWrapper, CodingSchemeWrapper,
    ControlTypeWrapper, EncodingLevelWrapper, LeaderWrapper, MultipartResourceRecordLevelWrapper,
    RecordTypeWrapper, StatusWrapper,
};
use marc_record_nif::record::{parse_records_wrapper, DataFieldWrapper, FieldWrapper, SubfieldWrapper};
use marc_record_nif::text::{str_eq, trim_str, u64_to_decimal};

use marc_record::{
    BibliographicalLevel, CatalogingForm, CodingScheme, ControlType, EncodingLevel, Leader,
    MultipartResourceRecordLevel, RecordType, Status,
};

fn pairs(v: &Value) -> &Vec<(String, Value)> {
    match v {
        Value::Mapping(p) => p,
        _ => panic!("expected a mapping"),
    }
}

fn items(v: &Value) -> &Vec<Value> {
    match v {
        Value::List(l) => l,
        _ => panic!("expected a list"),
    }
}

fn text(v: &Value) -> &str {
    match v {
        Value::Text(s) => s.as_str(),
        _ => panic!("expected text"),
    }
}

fn integer(v: &Value) -> u64 {
    match v {
        Value::Int(n) => *n,
        _ => panic!("expected an integer"),
    }
}

fn keys(v: &Value) -> Vec<&str> {
    pairs(v).iter().map(|(k, _)| k.as_str()).collect()
}

fn key<'a>(v: &'a Value, k: &str) -> &'a Value {
    &pairs(v).iter().find(|(name, _)| name == k).expect("missing key").1
}

/// A 24-byte leader with the given code characters, indicator count 2,
/// subfield code count 2, and the fixed `4500` entry map tail.
fn leader_bytes(
    status: char,
    rtype: char,
    bib: char,
    ctrl: char,
    coding: char,
    enc: char,
    cat: char,
    multi: char,
) -> String {
    format!(
        "00100{}{}{}{}{}2200050{}{}{}4500",
        status, rtype, bib, ctrl, coding, enc, cat, multi
    )
}

fn control_body(data: &str) -> Vec<u8> {
    let mut v = data.as_bytes().to_vec();
    v.push(0x1E);
    v
}

fn data_body(indicator: &str, subfields: &[(char, &str)]) -> Vec<u8> {
    let mut v = indicator.as_bytes().to_vec();
    for (tag, data) in subfields {
        v.push(0x1F);
        v.push(*tag as u8);
        v.extend_from_slice(data.as_bytes());
    }
    v.push(0x1E);
    v
}

fn record_bytes(leader: &str, fields: &[(&str, Vec<u8>)]) -> Vec<u8> {
    let mut dir: Vec<u8> = Vec::new();
    let mut data: Vec<u8> = Vec::new();
    let mut pos = 0usize;
    for (tag, body) in fields {
        dir.extend_from_slice(format!("{}{:04}{:05}", tag, body.len(), pos).as_bytes());
        pos += body.len();
        data.extend_from_slice(body);
    }
    let mut v = leader.as_bytes().to_vec();
    v.extend_from_slice(&dir);
    v.push(0x1E);
    v.extend_from_slice(&data);
    v.push(0x1D);
    v
}

#[test]
fn classify_status_codes() {
    assert_eq!(StatusWrapper::classify('a'), Some(StatusWrapper::IncreaseInEncoding));
    assert_eq!(StatusWrapper::classify('c'), Some(StatusWrapper::Corrected));
    assert_eq!(StatusWrapper::classify('d'), Some(StatusWrapper::Deleted));
    assert_eq!(StatusWrapper::classify('n'), Some(StatusWrapper::New));
    assert_eq!(StatusWrapper::classify('p'), Some(StatusWrapper::IncreaseFromPrepublication));
    assert_eq!(StatusWrapper::classify('x'), None);
}

#[test]
fn classify_record_type_codes() {
    assert_eq!(RecordTypeWrapper::classify('a'), Some(RecordTypeWrapper::LanguageMaterial));
    assert_eq!(RecordTypeWrapper::classify('c'), Some(RecordTypeWrapper::NotatedMusic));
    assert_eq!(RecordTypeWrapper::classify('d'), Some(RecordTypeWrapper::ManuscriptNotatedMusic));
    assert_eq!(RecordTypeWrapper::classify('e'), Some(RecordTypeWrapper::CartographicMaterial));
    assert_eq!(
        RecordTypeWrapper::classify('f'),
        Some(RecordTypeWrapper::ManuscriptCartographicMaterial)
    );
    assert_eq!(RecordTypeWrapper::classify('g'), Some(RecordTypeWrapper::ProjectedMedium));
    assert_eq!(
        RecordTypeWrapper::classify('i'),
        Some(RecordTypeWrapper::NonmusicalSoundRecording)
    );
    assert_eq!(RecordTypeWrapper::classify('j'), Some(RecordTypeWrapper::MusicalSoundRecording));
    assert_eq!(
        RecordTypeWrapper::classify('k'),
        Some(RecordTypeWrapper::TwoDimensionalNonprojectableGraphic)
    );
    assert_eq!(RecordTypeWrapper::classify('m'), Some(RecordTypeWrapper::ComputerFile));
    assert_eq!(RecordTypeWrapper::classify('o'), Some(RecordTypeWrapper::Kit));
    assert_eq!(RecordTypeWrapper::classify('p'), Some(RecordTypeWrapper::MixedMaterials));
    assert_eq!(
        RecordTypeWrapper::classify('r'),
        Some(RecordTypeWrapper::ThreeDimensionalArtifact)
    );
    assert_eq!(
        RecordTypeWrapper::classify('t'),
        Some(RecordTypeWrapper::ManuscriptLanguageMaterial)
    );
    assert_eq!(RecordTypeWrapper::classify('z'), None);
}

#[test]
fn classify_bibliographical_level_codes() {
    assert_eq!(
        BibliographicalLevelWrapper::classify('a'),
        Some(BibliographicalLevelWrapper::MonographicComponentPart)
    );
    assert_eq!(
        BibliographicalLevelWrapper::classify('b'),
        Some(BibliographicalLevelWrapper::SerialComponentPart)
    );
    assert_eq!(
        BibliographicalLevelWrapper::classify('c'),
        Some(BibliographicalLevelWrapper::Collection)
    );
    assert_eq!(
        BibliographicalLevelWrapper::classify('d'),
        Some(BibliographicalLevelWrapper::Subunit)
    );
    assert_eq!(
        BibliographicalLevelWrapper::classify('i'),
        Some(BibliographicalLevelWrapper::IntegratingResource)
    );
    assert_eq!(
        BibliographicalLevelWrapper::classify('m'),
        Some(BibliographicalLevelWrapper::Monograph)
    );
    assert_eq!(
        BibliographicalLevelWrapper::classify('s'),
        Some(BibliographicalLevelWrapper::Serial)
    );
    // the blank code falls back to the designated Unknown member
    assert_eq!(
        BibliographicalLevelWrapper::classify(' '),
        Some(BibliographicalLevelWrapper::Unknown)
    );
    assert_eq!(BibliographicalLevelWrapper::classify('z'), None);
}

#[test]
fn classify_control_type_codes() {
    assert_eq!(ControlTypeWrapper::classify(' '), Some(ControlTypeWrapper::Unspecified));
    assert_eq!(ControlTypeWrapper::classify('a'), Some(ControlTypeWrapper::Archival));
    assert_eq!(ControlTypeWrapper::classify('b'), None);
}

#[test]
fn classify_coding_scheme_codes() {
    assert_eq!(CodingSchemeWrapper::classify(' '), Some(CodingSchemeWrapper::Marc8));
    assert_eq!(CodingSchemeWrapper::classify('a'), Some(CodingSchemeWrapper::Ucs));
    assert_eq!(CodingSchemeWrapper::classify('u'), None);
}

#[test]
fn classify_encoding_level_codes() {
    assert_eq!(EncodingLevelWrapper::classify(' '), Some(EncodingLevelWrapper::Full));
    assert_eq!(
        EncodingLevelWrapper::classify('1'),
        Some(EncodingLevelWrapper::FullMaterialNotExamined)
    );
    assert_eq!(
        EncodingLevelWrapper::classify('2'),
        Some(EncodingLevelWrapper::LessThanFullMaterialNotExamined)
    );
    assert_eq!(EncodingLevelWrapper::classify('3'), Some(EncodingLevelWrapper::Abbreviated));
    assert_eq!(EncodingLevelWrapper::classify('4'), Some(EncodingLevelWrapper::Core));
    assert_eq!(EncodingLevelWrapper::classify('5'), Some(EncodingLevelWrapper::Partial));
    assert_eq!(EncodingLevelWrapper::classify('7'), Some(EncodingLevelWrapper::Minimal));
    assert_eq!(EncodingLevelWrapper::classify('8'), Some(EncodingLevelWrapper::Prepublication));
    assert_eq!(EncodingLevelWrapper::classify('u'), Some(EncodingLevelWrapper::Unknown));
    assert_eq!(EncodingLevelWrapper::classify('z'), Some(EncodingLevelWrapper::NotApplicable));
    assert_eq!(EncodingLevelWrapper::classify('i'), Some(EncodingLevelWrapper::ObsoleteFull));
    assert_eq!(EncodingLevelWrapper::classify('I'), Some(EncodingLevelWrapper::ObsoleteFull));
    assert_eq!(EncodingLevelWrapper::classify('k'), Some(EncodingLevelWrapper::ObsoleteMinimal));
    assert_eq!(EncodingLevelWrapper::classify('K'), Some(EncodingLevelWrapper::ObsoleteMinimal));
    assert_eq!(EncodingLevelWrapper::classify('M'), Some(EncodingLevelWrapper::AddedFromBatch));
    // codes found in the wild fall back to Unknown
    for code in ['0', 'a', 'J', 'L', 'C', '|', 'X', 'T'] {
        assert_eq!(EncodingLevelWrapper::classify(code), Some(EncodingLevelWrapper::Unknown));
    }
    assert_eq!(EncodingLevelWrapper::classify('9'), None);
}

#[test]
fn classify_cataloging_form_codes() {
    assert_eq!(CatalogingFormWrapper::classify(' '), Some(CatalogingFormWrapper::NonIsbd));
    assert_eq!(CatalogingFormWrapper::classify('a'), Some(CatalogingFormWrapper::Aacr2));
    assert_eq!(
        CatalogingFormWrapper::classify('c'),
        Some(CatalogingFormWrapper::IsbdPunctuationOmitted)
    );
    assert_eq!(
        CatalogingFormWrapper::classify('C'),
        Some(CatalogingFormWrapper::IsbdPunctuationOmitted)
    );
    assert_eq!(
        CatalogingFormWrapper::classify('i'),
        Some(CatalogingFormWrapper::IsbdPunctuationIncluded)
    );
    assert_eq!(
        CatalogingFormWrapper::classify('I'),
        Some(CatalogingFormWrapper::IsbdPunctuationIncluded)
    );
    assert_eq!(
        CatalogingFormWrapper::classify('n'),
        Some(CatalogingFormWrapper::NonIsbdPunctuationOmitted)
    );
    for code in ['u', 's', '|', 'd', 'q'] {
        assert_eq!(CatalogingFormWrapper::classify(code), Some(CatalogingFormWrapper::Unknown));
    }
    assert_eq!(CatalogingFormWrapper::classify('x'), None);
}

#[test]
fn classify_multipart_level_codes() {
    assert_eq!(
        MultipartResourceRecordLevelWrapper::classify(' '),
        Some(MultipartResourceRecordLevelWrapper::NotApplicable)
    );
    assert_eq!(
        MultipartResourceRecordLevelWrapper::classify('a'),
        Some(MultipartResourceRecordLevelWrapper::SetRecord)
    );
    assert_eq!(
        MultipartResourceRecordLevelWrapper::classify('b'),
        Some(MultipartResourceRecordLevelWrapper::PartWithIndependentTitle)
    );
    assert_eq!(
        MultipartResourceRecordLevelWrapper::classify('c'),
        Some(MultipartResourceRecordLevelWrapper::PartWithDependentTitle)
    );
    assert_eq!(MultipartResourceRecordLevelWrapper::classify('d'), None);
}

#[test]
fn classify_numeric_positions() {
    assert_eq!(parse_leader_number(b"01649"), Some(1649));
    assert_eq!(parse_leader_number(b"00000"), Some(0));
    assert_eq!(parse_leader_number(b"65535"), Some(65535));
    // too large for an unsigned 16-bit value
    assert_eq!(parse_leader_number(b"99999"), None);
    // not all digits
    assert_eq!(parse_leader_number(b"1a234"), None);
    // wrong width
    assert_eq!(parse_leader_number(b"1234"), None);
    assert_eq!(parse_leader_number(b"123456"), None);
}

#[test]
fn status_name_round_trip() {
    for v in [
        StatusWrapper::IncreaseInEncoding,
        StatusWrapper::Corrected,
        StatusWrapper::Deleted,
        StatusWrapper::New,
        StatusWrapper::IncreaseFromPrepublication,
    ] {
        assert_eq!(StatusWrapper::from_name(v.name().as_str()), Some(v));
    }
    assert_eq!(StatusWrapper::from_name("nonsense"), None);
}

#[test]
fn record_type_name_round_trip() {
    for v in [
        RecordTypeWrapper::LanguageMaterial,
        RecordTypeWrapper::NotatedMusic,
        RecordTypeWrapper::ManuscriptNotatedMusic,
        RecordTypeWrapper::CartographicMaterial,
        RecordTypeWrapper::ManuscriptCartographicMaterial,
        RecordTypeWrapper::ProjectedMedium,
        RecordTypeWrapper::NonmusicalSoundRecording,
        RecordTypeWrapper::MusicalSoundRecording,
        RecordTypeWrapper::TwoDimensionalNonprojectableGraphic,
        RecordTypeWrapper::ComputerFile,
        RecordTypeWrapper::Kit,
        RecordTypeWrapper::MixedMaterials,
        RecordTypeWrapper::ThreeDimensionalArtifact,
        RecordTypeWrapper::ManuscriptLanguageMaterial,
    ] {
        assert_eq!(RecordTypeWrapper::from_name(v.name().as_str()), Some(v));
    }
}

#[test]
fn bibliographical_level_name_round_trip() {
    for v in [
        BibliographicalLevelWrapper::MonographicComponentPart,
        BibliographicalLevelWrapper::SerialComponentPart,
        BibliographicalLevelWrapper::Collection,
        BibliographicalLevelWrapper::Subunit,
        BibliographicalLevelWrapper::IntegratingResource,
        BibliographicalLevelWrapper::Monograph,
        BibliographicalLevelWrapper::Serial,
        BibliographicalLevelWrapper::Unknown,
    ] {
        assert_eq!(BibliographicalLevelWrapper::from_name(v.name().as_str()), Some(v));
    }
}

#[test]
fn control_type_name_round_trip() {
    for v in [ControlTypeWrapper::Unspecified, ControlTypeWrapper::Archival] {
        assert_eq!(ControlTypeWrapper::from_name(v.name().as_str()), Some(v));
    }
}

#[test]
fn coding_scheme_name_round_trip() {
    for v in [CodingSchemeWrapper::Marc8, CodingSchemeWrapper::Ucs] {
        assert_eq!(CodingSchemeWrapper::from_name(v.name().as_str()), Some(v));
    }
}

#[test]
fn encoding_level_name_round_trip() {
    for v in [
        EncodingLevelWrapper::Full,
        EncodingLevelWrapper::FullMaterialNotExamined,
        EncodingLevelWrapper::LessThanFullMaterialNotExamined,
        EncodingLevelWrapper::Abbreviated,
        EncodingLevelWrapper::Core,
        EncodingLevelWrapper::Partial,
        EncodingLevelWrapper::Minimal,
        EncodingLevelWrapper::Prepublication,
        EncodingLevelWrapper::Unknown,
        EncodingLevelWrapper::NotApplicable,
        EncodingLevelWrapper::ObsoleteFull,
        EncodingLevelWrapper::ObsoleteMinimal,
        EncodingLevelWrapper::AddedFromBatch,
    ] {
        assert_eq!(EncodingLevelWrapper::from_name(v.name().as_str()), Some(v));
    }
}

#[test]
fn cataloging_form_name_round_trip() {
    for v in [
        CatalogingFormWrapper::NonIsbd,
        CatalogingFormWrapper::Aacr2,
        CatalogingFormWrapper::IsbdPunctuationOmitted,
        CatalogingFormWrapper::IsbdPunctuationIncluded,
        CatalogingFormWrapper::NonIsbdPunctuationOmitted,
        CatalogingFormWrapper::Unknown,
    ] {
        assert_eq!(CatalogingFormWrapper::from_name(v.name().as_str()), Some(v));
    }
}

#[test]
fn multipart_level_name_round_trip() {
    for v in [
        MultipartResourceRecordLevelWrapper::NotApplicable,
        MultipartResourceRecordLevelWrapper::SetRecord,
        MultipartResourceRecordLevelWrapper::PartWithIndependentTitle,
        MultipartResourceRecordLevelWrapper::PartWithDependentTitle,
    ] {
        assert_eq!(MultipartResourceRecordLevelWrapper::from_name(v.name().as_str()), Some(v));
    }
}

#[test]
fn leader_encode_canonical_names() {
    let leader = Leader {
        record_length: 1649,
        status: Status::New,
        record_type: RecordType::LanguageMaterial,
        bibliographical_level: BibliographicalLevel::Monograph,
        control_type: ControlType::Unspecified,
        coding_scheme: CodingScheme::Ucs,
        data_base_address: 385,
        encoding_level: EncodingLevel::Full,
        descriptive_cataloging_form: CatalogingForm::Aacr2,
        multipart_resource_record_level: MultipartResourceRecordLevel::NotApplicable,
    };
    let wrapped = LeaderWrapper::new(leader);
    let v = wrapped.encode();
    assert_eq!(
        keys(&v),
        vec![
            "record_length",
            "status",
            "record_type",
            "bibliographical_level",
            "control_type",
            "coding_scheme",
            "data_base_address",
            "encoding_level",
            "descriptive_cataloging_form",
            "multipart_resource_record_level",
        ]
    );
    assert_eq!(integer(key(&v, "record_length")), 1649);
    assert_eq!(text(key(&v, "status")), "new");
    assert_eq!(text(key(&v, "record_type")), "language_material");
    assert_eq!(text(key(&v, "bibliographical_level")), "monograph");
    assert_eq!(text(key(&v, "control_type")), "unspecified");
    assert_eq!(text(key(&v, "coding_scheme")), "ucs");
    assert_eq!(integer(key(&v, "data_base_address")), 385);
    assert_eq!(text(key(&v, "encoding_level")), "full");
    assert_eq!(text(key(&v, "descriptive_cataloging_form")), "aacr2");
    assert_eq!(text(key(&v, "multipart_resource_record_level")), "not_applicable");
}

#[test]
fn leader_from_bytes_language_material_monograph() {
    // record_type 'a' and bibliographical level 'm' in the raw leader
    let leader = leader_bytes('n', 'a', 'm', ' ', 'a', ' ', 'a', ' ');
    let bytes = record_bytes(&leader, &[("001", control_body("X"))]);
    let records = marc_record::parse_records(&bytes).expect("parse");
    let record = records.into_iter().next().expect("one record");
    let v = LeaderWrapper::new(record.leader).encode();
    assert_eq!(text(key(&v, "record_type")), "language_material");
    assert_eq!(text(key(&v, "bibliographical_level")), "monograph");
}

#[test]
fn leader_status_corrected_from_parsed_bytes() {
    // the worked leader example: corrected status, legacy coding scheme
    let leader = leader_bytes('c', 'a', 'm', ' ', ' ', '5', 'a', ' ');
    let bytes = record_bytes(&leader, &[("001", control_body("B301882"))]);
    let records = parse_records_wrapper(&bytes).expect("parse");
    assert_eq!(records.len(), 1);
}

#[test]
fn field_order_preserved_end_to_end() {
    let leader = leader_bytes('n', 'a', 'm', ' ', 'a', ' ', 'a', ' ');
    let bytes = record_bytes(
        &leader,
        &[
            ("245", data_body("10", &[('a', "Main title")])),
            ("001", control_body("B301882")),
            ("300", data_body("  ", &[('a', "xii, 300 p.")])),
        ],
    );
    let records = parse_records_wrapper(&bytes).expect("parse");
    assert_eq!(records.len(), 1);
    let v = records[0].encode();
    assert_eq!(keys(&v), vec!["fields"]);
    let fields = items(key(&v, "fields"));
    assert_eq!(fields.len(), 3);
    assert_eq!(text(key(&fields[0], "tag")), "245");
    assert_eq!(text(key(&fields[0], "type")), "data");
    assert_eq!(text(key(&fields[1], "tag")), "001");
    assert_eq!(text(key(&fields[1], "type")), "control");
    assert_eq!(text(key(&fields[1], "data")), "B301882");
    assert_eq!(text(key(&fields[2], "tag")), "300");
    assert_eq!(text(key(&fields[2], "type")), "data");
}

#[test]
fn subfield_order_count_and_trim() {
    let leader = leader_bytes('n', 'a', 'm', ' ', 'a', ' ', 'a', ' ');
    let bytes = record_bytes(
        &leader,
        &[("245", data_body("10", &[('a', "Title "), ('b', " Subtitle")]))],
    );
    let records = parse_records_wrapper(&bytes).expect("parse");
    let v = records[0].encode();
    let fields = items(key(&v, "fields"));
    let field = &fields[0];
    assert_eq!(text(key(field, "indicator")), "10");
    let subfields = items(key(field, "subfields"));
    assert_eq!(subfields.len(), 2);
    assert_eq!(keys(&subfields[0]), vec!["tag", "data"]);
    assert_eq!(text(key(&subfields[0], "tag")), "a");
    assert_eq!(text(key(&subfields[0], "data")), "Title");
    assert_eq!(text(key(&subfields[1], "tag")), "b");
    assert_eq!(text(key(&subfields[1], "data")), "Subtitle");
}

#[test]
fn control_and_data_field_keys() {
    let leader = leader_bytes('n', 'a', 'm', ' ', 'a', ' ', 'a', ' ');
    let bytes = record_bytes(
        &leader,
        &[
            ("001", control_body("X1")),
            ("650", data_body("00", &[('a', "Subject")])),
        ],
    );
    let records = parse_records_wrapper(&bytes).expect("parse");
    let v = records[0].encode();
    let fields = items(key(&v, "fields"));
    // a control field emits type, tag and data and nothing else
    assert_eq!(keys(&fields[0]), vec!["type", "tag", "data"]);
    // a data field always emits all of type, tag, indicator and subfields
    assert_eq!(keys(&fields[1]), vec!["type", "tag", "indicator", "subfields"]);
}

#[test]
fn empty_subfield_list_serializes_to_empty_list() {
    let field = DataFieldWrapper {
        tag: String::from("300"),
        indicator: String::from("  "),
        subfields: Vec::new(),
    };
    let v = field.encode();
    assert_eq!(keys(&v), vec!["type", "tag", "indicator", "subfields"]);
    assert_eq!(items(key(&v, "subfields")).len(), 0);
}

#[test]
fn indicator_concatenation() {
    assert_eq!(DataFieldWrapper::build_indicator(&['4', '0']), "40");
    assert_eq!(DataFieldWrapper::build_indicator(&[]), "");
}

#[test]
fn field_wrapper_encode_dispatches() {
    let field = FieldWrapper::Data(DataFieldWrapper {
        tag: String::from(" 245 "),
        indicator: String::from(" 1"),
        subfields: vec![SubfieldWrapper { tag: String::from("a"), data: String::from(" x ") }],
    });
    let v = field.encode();
    assert_eq!(text(key(&v, "type")), "data");
    // tag and indicator are trimmed at serialization time
    assert_eq!(text(key(&v, "tag")), "245");
    assert_eq!(text(key(&v, "indicator")), "1");
    let subfields = items(key(&v, "subfields"));
    assert_eq!(text(key(&subfields[0], "data")), "x");
}

#[test]
fn upstream_failure_yields_single_error_and_no_records() {
    let result = parse_records_wrapper(b"this is not a marc record");
    let message = result.expect_err("malformed input must fail");
    assert!(message.starts_with("Error in crate marc-record: "));
    assert!(message.contains("Failed to parse:"));
    assert!(message.contains("at byte offset `"));
}

#[test]
fn truncated_record_is_refused_without_abort() {
    // a valid leader and one directory entry claiming eight data bytes,
    // but fewer are present: the upstream parser would step outside the
    // buffer, so the decoder refuses the stream itself
    let leader = leader_bytes('n', 'a', 'm', ' ', 'a', ' ', 'a', ' ');
    let mut bytes = leader.as_bytes().to_vec();
    bytes.extend_from_slice(b"001000800000");
    bytes.push(0x1E);
    bytes.extend_from_slice(b"abc");
    assert!(!stream_framing_ok(&bytes));
    let message = parse_records_wrapper(&bytes).expect_err("unsafe directory must fail");
    assert_eq!(
        message,
        "Error in crate marc-record: Failed to parse: record directory reaches outside the buffer"
    );
}

#[test]
fn empty_control_entry_is_refused() {
    // a control entry of length zero: the decoder refuses the stream
    let leader = leader_bytes('n', 'a', 'm', ' ', 'a', ' ', 'a', ' ');
    let mut bytes = leader.as_bytes().to_vec();
    bytes.extend_from_slice(b"001000000000");
    bytes.push(0x1E);
    bytes.push(0x1D);
    assert!(!stream_framing_ok(&bytes));
    assert!(parse_records_wrapper(&bytes).is_err());
}

#[test]
fn framing_check_accepts_safe_streams() {
    let leader = leader_bytes('n', 'a', 'm', ' ', 'a', ' ', 'a', ' ');
    let good = record_bytes(&leader, &[("001", control_body("X1"))]);
    assert!(stream_framing_ok(&good));
    // a stream the parser rejects with an ordinary error is still safe
    assert!(stream_framing_ok(b"this is not a marc record"));
    assert!(stream_framing_ok(b""));
}

#[test]
fn empty_input_yields_zero_records() {
    let records = parse_records_wrapper(b"").expect("empty input holds zero records");
    assert_eq!(records.len(), 0);
}

#[test]
fn two_records_parse_independently() {
    let leader = leader_bytes('n', 'a', 'm', ' ', 'a', ' ', 'a', ' ');
    let mut bytes = record_bytes(&leader, &[("001", control_body("first"))]);
    bytes.extend_from_slice(&record_bytes(&leader, &[("001", control_body("second"))]));
    let records = parse_records_wrapper(&bytes).expect("parse");
    assert_eq!(records.len(), 2);
    let first = records[0].encode();
    let second = records[1].encode();
    assert_eq!(text(key(&items(key(&first, "fields"))[0], "data")), "first");
    assert_eq!(text(key(&items(key(&second, "fields"))[0], "data")), "second");
}

#[test]
fn trim_str_cases() {
    assert_eq!(trim_str("  Title "), "Title");
    assert_eq!(trim_str("a b"), "a b");
    assert_eq!(trim_str("   "), "");
    assert_eq!(trim_str(""), "");
    assert_eq!(trim_str("\u{a0}x\u{a0}"), "x");
}

#[test]
fn str_eq_cases() {
    assert!(str_eq("abc", "abc"));
    assert!(!str_eq("abc", "abd"));
    assert!(!str_eq("abc", "abcd"));
    assert!(str_eq("", ""));
}

#[test]
fn u64_decimal_rendering() {
    assert_eq!(u64_to_decimal(0), "0");
    assert_eq!(u64_to_decimal(7), "7");
    assert_eq!(u64_to_decimal(1649), "1649");
    assert_eq!(u64_to_decimal(65535), "65535");
    assert_eq!(u64_to_decimal(18446744073709551615), "18446744073709551615");
}
