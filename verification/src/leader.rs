//! Classification of the MARC21 Leader: each fixed-position code of the
//! 24-byte Leader maps to one member of a closed enumeration, and each
//! member has a canonical lower-case name used by the serializer.

use vstd::prelude::*;
use vstd::string::StringExecFns;

use crate::interchange::Value;
use crate::text::str_eq;
use marc_record::{
    BibliographicalLevel, CatalogingForm, CodingScheme, ControlType, EncodingLevel, Leader,
    MultipartResourceRecordLevel, RecordType, Status,
};

verus! {

/// Whether every byte of `bs` is an ASCII decimal digit.
pub open spec fn all_digits(bs: Seq<u8>) -> bool {
    forall|i: int| 0 <= i < bs.len() ==> 0x30 <= #[trigger] bs[i] <= 0x39
}

/// The number written in decimal by the digit bytes `bs`.
pub open spec fn spec_decimal_value(bs: Seq<u8>) -> int
    decreases bs.len(),
{
    if bs.len() == 0 {
        0
    } else {
        spec_decimal_value(bs.drop_last()) * 10 + (bs.last() - 0x30)
    }
}

/// Ten to the power `n`.
pub open spec fn pow10(n: nat) -> nat
    decreases n,
{
    if n == 0 {
        1
    } else {
        10 * pow10((n - 1) as nat)
    }
}

/// The number written by digit bytes is non-negative and bounded by
/// ten to the number of digits.
pub proof fn lemma_decimal_value_bound(bs: Seq<u8>)
    requires
        all_digits(bs),
    ensures
        0 <= spec_decimal_value(bs) < pow10(bs.len()),
    decreases bs.len(),
{
    if bs.len() > 0 {
        assert(all_digits(bs.drop_last()));
        lemma_decimal_value_bound(bs.drop_last());
    }
}

/// Classifies one of the Leader's two numeric positions: exactly five
/// ASCII digits whose value fits an unsigned 16-bit integer. Anything
/// else is no Leader number at all.
pub fn parse_leader_number(digits: &[u8]) -> (r: Option<u16>)
    ensures
        match r {
            Some(v) => digits@.len() == 5 && all_digits(digits@) && v as int == spec_decimal_value(
                digits@,
            ),
            None => !(digits@.len() == 5 && all_digits(digits@) && spec_decimal_value(digits@)
                <= u16::MAX),
        },
{
    if digits.len() != 5 {
        return None;
    }
    let mut value: u32 = 0;
    let mut i: usize = 0;
    while i < 5
        invariant
            digits@.len() == 5,
            0 <= i <= 5,
            forall|j: int| 0 <= j < i ==> 0x30 <= #[trigger] digits@[j] <= 0x39,
            value == spec_decimal_value(digits@.subrange(0, i as int)),
        decreases 5 - i,
    {
        let b = digits[i];
        if b < 0x30 || b > 0x39 {
            return None;
        }
        proof {
            let prefix = digits@.subrange(0, i as int);
            assert(all_digits(prefix));
            lemma_decimal_value_bound(prefix);
            assert(pow10(0) == 1);
            assert(pow10(1) == 10);
            assert(pow10(2) == 100);
            assert(pow10(3) == 1000);
            assert(pow10(4) == 10000);
            assert(value < 10000);
            assert(digits@.subrange(0, i + 1).drop_last() =~= prefix);
            assert(digits@.subrange(0, i + 1).last() == digits@[i as int]);
        }
        value = value * 10 + (b - 0x30) as u32;
        i = i + 1;
    }
    proof {
        assert(digits@.subrange(0, 5) =~= digits@);
    }
    if value <= 0xFFFF {
        Some(value as u16)
    } else {
        None
    }
}

/// The record's status: Leader position 5.
#[derive(Clone, Copy, Debug, PartialEq, Eq, Structural)]
pub enum StatusWrapper {
    IncreaseInEncoding,
    Corrected,
    Deleted,
    New,
    IncreaseFromPrepublication,
}

impl StatusWrapper {
    /// The variant standing for the upstream classification.
    pub open spec fn of_upstream(status: Status) -> StatusWrapper {
        match status {
            Status::IncreaseInEncoding => StatusWrapper::IncreaseInEncoding,
            Status::Corrected => StatusWrapper::Corrected,
            Status::Deleted => StatusWrapper::Deleted,
            Status::New => StatusWrapper::New,
            Status::IncreaseFromPrepublication => StatusWrapper::IncreaseFromPrepublication,
        }
    }

    /// Takes over the upstream classification, one variant for one.
    pub fn new(status: Status) -> (r: StatusWrapper)
        ensures
            r == StatusWrapper::of_upstream(status),
    {
        match status {
            Status::IncreaseInEncoding => StatusWrapper::IncreaseInEncoding,
            Status::Corrected => StatusWrapper::Corrected,
            Status::Deleted => StatusWrapper::Deleted,
            Status::New => StatusWrapper::New,
            Status::IncreaseFromPrepublication => StatusWrapper::IncreaseFromPrepublication,
        }
    }

    /// The classification of the MARC21 status code `code`, if defined.
    pub open spec fn spec_classify(code: char) -> Option<StatusWrapper> {
        if code == 'a' {
            Some(StatusWrapper::IncreaseInEncoding)
        } else if code == 'c' {
            Some(StatusWrapper::Corrected)
        } else if code == 'd' {
            Some(StatusWrapper::Deleted)
        } else if code == 'n' {
            Some(StatusWrapper::New)
        } else if code == 'p' {
            Some(StatusWrapper::IncreaseFromPrepublication)
        } else {
            None
        }
    }

    /// Classifies a MARC21 status code: every documented code maps to its
    /// variant; a code outside the documented alphabet is no status.
    pub fn classify(code: char) -> (r: Option<StatusWrapper>)
        ensures
            r == StatusWrapper::spec_classify(code),
    {
        if code == 'a' {
            Some(StatusWrapper::IncreaseInEncoding)
        } else if code == 'c' {
            Some(StatusWrapper::Corrected)
        } else if code == 'd' {
            Some(StatusWrapper::Deleted)
        } else if code == 'n' {
            Some(StatusWrapper::New)
        } else if code == 'p' {
            Some(StatusWrapper::IncreaseFromPrepublication)
        } else {
            None
        }
    }

    /// The canonical lower-case name of the variant.
    pub open spec fn spec_name(self) -> Seq<char> {
        match self {
            StatusWrapper::IncreaseInEncoding => "increase_in_encoding"@,
            StatusWrapper::Corrected => "corrected"@,
            StatusWrapper::Deleted => "deleted"@,
            StatusWrapper::New => "new"@,
            StatusWrapper::IncreaseFromPrepublication => "increase_from_prepublication"@,
        }
    }

    /// The canonical name, as the serializer emits it.
    pub fn name(&self) -> (r: String)
        ensures
            r@ == self.spec_name(),
    {
        match self {
            StatusWrapper::IncreaseInEncoding => String::from_str("increase_in_encoding"),
            StatusWrapper::Corrected => String::from_str("corrected"),
            StatusWrapper::Deleted => String::from_str("deleted"),
            StatusWrapper::New => String::from_str("new"),
            StatusWrapper::IncreaseFromPrepublication => String::from_str(
                "increase_from_prepublication",
            ),
        }
    }

    /// The variant whose canonical name is `s`, if any.
    pub open spec fn spec_of_name(s: Seq<char>) -> Option<StatusWrapper> {
        if s == "increase_in_encoding"@ {
            Some(StatusWrapper::IncreaseInEncoding)
        } else if s == "corrected"@ {
            Some(StatusWrapper::Corrected)
        } else if s == "deleted"@ {
            Some(StatusWrapper::Deleted)
        } else if s == "new"@ {
            Some(StatusWrapper::New)
        } else if s == "increase_from_prepublication"@ {
            Some(StatusWrapper::IncreaseFromPrepublication)
        } else {
            None
        }
    }

    /// Parses a canonical name back to its variant.
    pub fn from_name(s: &str) -> (r: Option<StatusWrapper>)
        ensures
            r == StatusWrapper::spec_of_name(s@),
    {
        if str_eq(s, "increase_in_encoding") {
            Some(StatusWrapper::IncreaseInEncoding)
        } else if str_eq(s, "corrected") {
            Some(StatusWrapper::Corrected)
        } else if str_eq(s, "deleted") {
            Some(StatusWrapper::Deleted)
        } else if str_eq(s, "new") {
            Some(StatusWrapper::New)
        } else if str_eq(s, "increase_from_prepublication") {
            Some(StatusWrapper::IncreaseFromPrepublication)
        } else {
            None
        }
    }

    /// Canonical names form a bijection with the variants: parsing a
    /// variant's name returns that variant.
    pub proof fn lemma_name_round_trip(self)
        ensures
            StatusWrapper::spec_of_name(self.spec_name()) == Some(self),
    {
        reveal_strlit("increase_in_encoding");
        reveal_strlit("corrected");
        reveal_strlit("deleted");
        reveal_strlit("new");
        reveal_strlit("increase_from_prepublication");
        assert("increase_in_encoding"@.len() == 20);
        assert("corrected"@.len() == 9);
        assert("deleted"@.len() == 7);
        assert("new"@.len() == 3);
        assert("increase_from_prepublication"@.len() == 28);
    }
}

/// The type of content described by the record: Leader position 6.
#[derive(Clone, Copy, Debug, PartialEq, Eq, Structural)]
pub enum RecordTypeWrapper {
    LanguageMaterial,
    NotatedMusic,
    ManuscriptNotatedMusic,
    CartographicMaterial,
    ManuscriptCartographicMaterial,
    ProjectedMedium,
    NonmusicalSoundRecording,
    MusicalSoundRecording,
    TwoDimensionalNonprojectableGraphic,
    ComputerFile,
    Kit,
    MixedMaterials,
    ThreeDimensionalArtifact,
    ManuscriptLanguageMaterial,
}

impl RecordTypeWrapper {
    /// The variant standing for the upstream classification.
    pub open spec fn of_upstream(record_type: RecordType) -> RecordTypeWrapper {
        match record_type {
            RecordType::LanguageMaterial => RecordTypeWrapper::LanguageMaterial,
            RecordType::NotatedMusic => RecordTypeWrapper::NotatedMusic,
            RecordType::ManuscriptNotatedMusic => RecordTypeWrapper::ManuscriptNotatedMusic,
            RecordType::CartographicMaterial => RecordTypeWrapper::CartographicMaterial,
            RecordType::ManuscriptCartographicMaterial => RecordTypeWrapper::ManuscriptCartographicMaterial,
            RecordType::ProjectedMedium => RecordTypeWrapper::ProjectedMedium,
            RecordType::NonmusicalSoundRecording => RecordTypeWrapper::NonmusicalSoundRecording,
            RecordType::MusicalSoundRecording => RecordTypeWrapper::MusicalSoundRecording,
            RecordType::TwoDimensionalNonprojectableGraphic => RecordTypeWrapper::TwoDimensionalNonprojectableGraphic,
            RecordType::ComputerFile => RecordTypeWrapper::ComputerFile,
            RecordType::Kit => RecordTypeWrapper::Kit,
            RecordType::MixedMaterials => RecordTypeWrapper::MixedMaterials,
            RecordType::ThreeDimensionalArtifact => RecordTypeWrapper::ThreeDimensionalArtifact,
            RecordType::ManuscriptLanguageMaterial => RecordTypeWrapper::ManuscriptLanguageMaterial,
        }
    }

    /// Takes over the upstream classification, one variant for one.
    pub fn new(record_type: RecordType) -> (r: RecordTypeWrapper)
        ensures
            r == RecordTypeWrapper::of_upstream(record_type),
    {
        match record_type {
            RecordType::LanguageMaterial => RecordTypeWrapper::LanguageMaterial,
            RecordType::NotatedMusic => RecordTypeWrapper::NotatedMusic,
            RecordType::ManuscriptNotatedMusic => RecordTypeWrapper::ManuscriptNotatedMusic,
            RecordType::CartographicMaterial => RecordTypeWrapper::CartographicMaterial,
            RecordType::ManuscriptCartographicMaterial => RecordTypeWrapper::ManuscriptCartographicMaterial,
            RecordType::ProjectedMedium => RecordTypeWrapper::ProjectedMedium,
            RecordType::NonmusicalSoundRecording => RecordTypeWrapper::NonmusicalSoundRecording,
            RecordType::MusicalSoundRecording => RecordTypeWrapper::MusicalSoundRecording,
            RecordType::TwoDimensionalNonprojectableGraphic => RecordTypeWrapper::TwoDimensionalNonprojectableGraphic,
            RecordType::ComputerFile => RecordTypeWrapper::ComputerFile,
            RecordType::Kit => RecordTypeWrapper::Kit,
            RecordType::MixedMaterials => RecordTypeWrapper::MixedMaterials,
            RecordType::ThreeDimensionalArtifact => RecordTypeWrapper::ThreeDimensionalArtifact,
            RecordType::ManuscriptLanguageMaterial => RecordTypeWrapper::ManuscriptLanguageMaterial,
        }
    }

    /// The classification of the MARC21 record-type code `code`, if defined.
    pub open spec fn spec_classify(code: char) -> Option<RecordTypeWrapper> {
        if code == 'a' {
            Some(RecordTypeWrapper::LanguageMaterial)
        } else if code == 'c' {
            Some(RecordTypeWrapper::NotatedMusic)
        } else if code == 'd' {
            Some(RecordTypeWrapper::ManuscriptNotatedMusic)
        } else if code == 'e' {
            Some(RecordTypeWrapper::CartographicMaterial)
        } else if code == 'f' {
            Some(RecordTypeWrapper::ManuscriptCartographicMaterial)
        } else if code == 'g' {
            Some(RecordTypeWrapper::ProjectedMedium)
        } else if code == 'i' {
            Some(RecordTypeWrapper::NonmusicalSoundRecording)
        } else if code == 'j' {
            Some(RecordTypeWrapper::MusicalSoundRecording)
        } else if code == 'k' {
            Some(RecordTypeWrapper::TwoDimensionalNonprojectableGraphic)
        } else if code == 'm' {
            Some(RecordTypeWrapper::ComputerFile)
        } else if code == 'o' {
            Some(RecordTypeWrapper::Kit)
        } else if code == 'p' {
            Some(RecordTypeWrapper::MixedMaterials)
        } else if code == 'r' {
            Some(RecordTypeWrapper::ThreeDimensionalArtifact)
        } else if code == 't' {
            Some(RecordTypeWrapper::ManuscriptLanguageMaterial)
        } else {
            None
        }
    }

    /// Classifies a MARC21 record-type code.
    pub fn classify(code: char) -> (r: Option<RecordTypeWrapper>)
        ensures
            r == RecordTypeWrapper::spec_classify(code),
    {
        if code == 'a' {
            Some(RecordTypeWrapper::LanguageMaterial)
        } else if code == 'c' {
            Some(RecordTypeWrapper::NotatedMusic)
        } else if code == 'd' {
            Some(RecordTypeWrapper::ManuscriptNotatedMusic)
        } else if code == 'e' {
            Some(RecordTypeWrapper::CartographicMaterial)
        } else if code == 'f' {
            Some(RecordTypeWrapper::ManuscriptCartographicMaterial)
        } else if code == 'g' {
            Some(RecordTypeWrapper::ProjectedMedium)
        } else if code == 'i' {
            Some(RecordTypeWrapper::NonmusicalSoundRecording)
        } else if code == 'j' {
            Some(RecordTypeWrapper::MusicalSoundRecording)
        } else if code == 'k' {
            Some(RecordTypeWrapper::TwoDimensionalNonprojectableGraphic)
        } else if code == 'm' {
            Some(RecordTypeWrapper::ComputerFile)
        } else if code == 'o' {
            Some(RecordTypeWrapper::Kit)
        } else if code == 'p' {
            Some(RecordTypeWrapper::MixedMaterials)
        } else if code == 'r' {
            Some(RecordTypeWrapper::ThreeDimensionalArtifact)
        } else if code == 't' {
            Some(RecordTypeWrapper::ManuscriptLanguageMaterial)
        } else {
            None
        }
    }

    /// The canonical lower-case name of the variant.
    pub open spec fn spec_name(self) -> Seq<char> {
        match self {
            RecordTypeWrapper::LanguageMaterial => "language_material"@,
            RecordTypeWrapper::NotatedMusic => "notated_music"@,
            RecordTypeWrapper::ManuscriptNotatedMusic => "manuscript_notated_music"@,
            RecordTypeWrapper::CartographicMaterial => "cartographic_material"@,
            RecordTypeWrapper::ManuscriptCartographicMaterial => "manuscript_cartographic_material"@,
            RecordTypeWrapper::ProjectedMedium => "projected_medium"@,
            RecordTypeWrapper::NonmusicalSoundRecording => "nonmusical_sound_recording"@,
            RecordTypeWrapper::MusicalSoundRecording => "musical_sound_recording"@,
            RecordTypeWrapper::TwoDimensionalNonprojectableGraphic => "two_dimensional_nonprojectable_graphic"@,
            RecordTypeWrapper::ComputerFile => "computer_file"@,
            RecordTypeWrapper::Kit => "kit"@,
            RecordTypeWrapper::MixedMaterials => "mixed_materials"@,
            RecordTypeWrapper::ThreeDimensionalArtifact => "three_dimensional_artifact"@,
            RecordTypeWrapper::ManuscriptLanguageMaterial => "manuscript_language_material"@,
        }
    }

    /// The canonical name, as the serializer emits it.
    pub fn name(&self) -> (r: String)
        ensures
            r@ == self.spec_name(),
    {
        match self {
            RecordTypeWrapper::LanguageMaterial => String::from_str("language_material"),
            RecordTypeWrapper::NotatedMusic => String::from_str("notated_music"),
            RecordTypeWrapper::ManuscriptNotatedMusic => String::from_str(
                "manuscript_notated_music",
            ),
            RecordTypeWrapper::CartographicMaterial => String::from_str("cartographic_material"),
            RecordTypeWrapper::ManuscriptCartographicMaterial => String::from_str(
                "manuscript_cartographic_material",
            ),
            RecordTypeWrapper::ProjectedMedium => String::from_str("projected_medium"),
            RecordTypeWrapper::NonmusicalSoundRecording => String::from_str(
                "nonmusical_sound_recording",
            ),
            RecordTypeWrapper::MusicalSoundRecording => String::from_str("musical_sound_recording"),
            RecordTypeWrapper::TwoDimensionalNonprojectableGraphic => String::from_str(
                "two_dimensional_nonprojectable_graphic",
            ),
            RecordTypeWrapper::ComputerFile => String::from_str("computer_file"),
            RecordTypeWrapper::Kit => String::from_str("kit"),
            RecordTypeWrapper::MixedMaterials => String::from_str("mixed_materials"),
            RecordTypeWrapper::ThreeDimensionalArtifact => String::from_str(
                "three_dimensional_artifact",
            ),
            RecordTypeWrapper::ManuscriptLanguageMaterial => String::from_str(
                "manuscript_language_material",
            ),
        }
    }

    /// The variant whose canonical name is `s`, if any.
    pub open spec fn spec_of_name(s: Seq<char>) -> Option<RecordTypeWrapper> {
        if s == "language_material"@ {
            Some(RecordTypeWrapper::LanguageMaterial)
        } else if s == "notated_music"@ {
            Some(RecordTypeWrapper::NotatedMusic)
        } else if s == "manuscript_notated_music"@ {
            Some(RecordTypeWrapper::ManuscriptNotatedMusic)
        } else if s == "cartographic_material"@ {
            Some(RecordTypeWrapper::CartographicMaterial)
        } else if s == "manuscript_cartographic_material"@ {
            Some(RecordTypeWrapper::ManuscriptCartographicMaterial)
        } else if s == "projected_medium"@ {
            Some(RecordTypeWrapper::ProjectedMedium)
        } else if s == "nonmusical_sound_recording"@ {
            Some(RecordTypeWrapper::NonmusicalSoundRecording)
        } else if s == "musical_sound_recording"@ {
            Some(RecordTypeWrapper::MusicalSoundRecording)
        } else if s == "two_dimensional_nonprojectable_graphic"@ {
            Some(RecordTypeWrapper::TwoDimensionalNonprojectableGraphic)
        } else if s == "computer_file"@ {
            Some(RecordTypeWrapper::ComputerFile)
        } else if s == "kit"@ {
            Some(RecordTypeWrapper::Kit)
        } else if s == "mixed_materials"@ {
            Some(RecordTypeWrapper::MixedMaterials)
        } else if s == "three_dimensional_artifact"@ {
            Some(RecordTypeWrapper::ThreeDimensionalArtifact)
        } else if s == "manuscript_language_material"@ {
            Some(RecordTypeWrapper::ManuscriptLanguageMaterial)
        } else {
            None
        }
    }

    /// Parses a canonical name back to its variant.
    pub fn from_name(s: &str) -> (r: Option<RecordTypeWrapper>)
        ensures
            r == RecordTypeWrapper::spec_of_name(s@),
    {
        if str_eq(s, "language_material") {
            Some(RecordTypeWrapper::LanguageMaterial)
        } else if str_eq(s, "notated_music") {
            Some(RecordTypeWrapper::NotatedMusic)
        } else if str_eq(s, "manuscript_notated_music") {
            Some(RecordTypeWrapper::ManuscriptNotatedMusic)
        } else if str_eq(s, "cartographic_material") {
            Some(RecordTypeWrapper::CartographicMaterial)
        } else if str_eq(s, "manuscript_cartographic_material") {
            Some(RecordTypeWrapper::ManuscriptCartographicMaterial)
        } else if str_eq(s, "projected_medium") {
            Some(RecordTypeWrapper::ProjectedMedium)
        } else if str_eq(s, "nonmusical_sound_recording") {
            Some(RecordTypeWrapper::NonmusicalSoundRecording)
        } else if str_eq(s, "musical_sound_recording") {
            Some(RecordTypeWrapper::MusicalSoundRecording)
        } else if str_eq(s, "two_dimensional_nonprojectable_graphic") {
            Some(RecordTypeWrapper::TwoDimensionalNonprojectableGraphic)
        } else if str_eq(s, "computer_file") {
            Some(RecordTypeWrapper::ComputerFile)
        } else if str_eq(s, "kit") {
            Some(RecordTypeWrapper::Kit)
        } else if str_eq(s, "mixed_materials") {
            Some(RecordTypeWrapper::MixedMaterials)
        } else if str_eq(s, "three_dimensional_artifact") {
            Some(RecordTypeWrapper::ThreeDimensionalArtifact)
        } else if str_eq(s, "manuscript_language_material") {
            Some(RecordTypeWrapper::ManuscriptLanguageMaterial)
        } else {
            None
        }
    }

    /// Canonical names form a bijection with the variants: parsing a
    /// variant's name returns that variant.
    pub proof fn lemma_name_round_trip(self)
        ensures
            RecordTypeWrapper::spec_of_name(self.spec_name()) == Some(self),
    {
        reveal_strlit("language_material");
        reveal_strlit("notated_music");
        reveal_strlit("manuscript_notated_music");
        reveal_strlit("cartographic_material");
        reveal_strlit("manuscript_cartographic_material");
        reveal_strlit("projected_medium");
        reveal_strlit("nonmusical_sound_recording");
        reveal_strlit("musical_sound_recording");
        reveal_strlit("two_dimensional_nonprojectable_graphic");
        reveal_strlit("computer_file");
        reveal_strlit("kit");
        reveal_strlit("mixed_materials");
        reveal_strlit("three_dimensional_artifact");
        reveal_strlit("manuscript_language_material");
        assert("language_material"@.len() == 17);
        assert("notated_music"@.len() == 13);
        assert("manuscript_notated_music"@.len() == 24);
        assert("cartographic_material"@.len() == 21);
        assert("manuscript_cartographic_material"@.len() == 32);
        assert("projected_medium"@.len() == 16);
        assert("nonmusical_sound_recording"@.len() == 26);
        assert("musical_sound_recording"@.len() == 23);
        assert("two_dimensional_nonprojectable_graphic"@.len() == 38);
        assert("computer_file"@.len() == 13);
        assert("kit"@.len() == 3);
        assert("mixed_materials"@.len() == 15);
        assert("three_dimensional_artifact"@.len() == 26);
        assert("manuscript_language_material"@.len() == 28);
        assert("notated_music"@[0] == 'n');
        assert("computer_file"@[0] == 'c');
        assert("nonmusical_sound_recording"@[0] == 'n');
        assert("three_dimensional_artifact"@[0] == 't');
    }
}

/// Whether the record is a single item or part of a larger one: Leader
/// position 7.
#[derive(Clone, Copy, Debug, PartialEq, Eq, Structural)]
pub enum BibliographicalLevelWrapper {
    MonographicComponentPart,
    SerialComponentPart,
    Collection,
    Subunit,
    IntegratingResource,
    Monograph,
    Serial,
    Unknown,
}

impl BibliographicalLevelWrapper {
    /// The variant standing for the upstream classification.
    pub open spec fn of_upstream(level: BibliographicalLevel) -> BibliographicalLevelWrapper {
        match level {
            BibliographicalLevel::MonographicComponentPart => BibliographicalLevelWrapper::MonographicComponentPart,
            BibliographicalLevel::SerialComponentPart => BibliographicalLevelWrapper::SerialComponentPart,
            BibliographicalLevel::Collection => BibliographicalLevelWrapper::Collection,
            BibliographicalLevel::Subunit => BibliographicalLevelWrapper::Subunit,
            BibliographicalLevel::IntegratingResource => BibliographicalLevelWrapper::IntegratingResource,
            BibliographicalLevel::Monograph => BibliographicalLevelWrapper::Monograph,
            BibliographicalLevel::Serial => BibliographicalLevelWrapper::Serial,
            BibliographicalLevel::Unknown => BibliographicalLevelWrapper::Unknown,
        }
    }

    /// Takes over the upstream classification, one variant for one.
    pub fn new(level: BibliographicalLevel) -> (r: BibliographicalLevelWrapper)
        ensures
            r == BibliographicalLevelWrapper::of_upstream(level),
    {
        match level {
            BibliographicalLevel::MonographicComponentPart => BibliographicalLevelWrapper::MonographicComponentPart,
            BibliographicalLevel::SerialComponentPart => BibliographicalLevelWrapper::SerialComponentPart,
            BibliographicalLevel::Collection => BibliographicalLevelWrapper::Collection,
            BibliographicalLevel::Subunit => BibliographicalLevelWrapper::Subunit,
            BibliographicalLevel::IntegratingResource => BibliographicalLevelWrapper::IntegratingResource,
            BibliographicalLevel::Monograph => BibliographicalLevelWrapper::Monograph,
            BibliographicalLevel::Serial => BibliographicalLevelWrapper::Serial,
            BibliographicalLevel::Unknown => BibliographicalLevelWrapper::Unknown,
        }
    }

    /// The classification of the MARC21 bibliographic-level code, if
    /// defined. The blank code is a first-class member and maps to the
    /// designated fallback `Unknown`.
    pub open spec fn spec_classify(code: char) -> Option<BibliographicalLevelWrapper> {
        if code == 'a' {
            Some(BibliographicalLevelWrapper::MonographicComponentPart)
        } else if code == 'b' {
            Some(BibliographicalLevelWrapper::SerialComponentPart)
        } else if code == 'c' {
            Some(BibliographicalLevelWrapper::Collection)
        } else if code == 'd' {
            Some(BibliographicalLevelWrapper::Subunit)
        } else if code == 'i' {
            Some(BibliographicalLevelWrapper::IntegratingResource)
        } else if code == 'm' {
            Some(BibliographicalLevelWrapper::Monograph)
        } else if code == 's' {
            Some(BibliographicalLevelWrapper::Serial)
        } else if code == ' ' {
            Some(BibliographicalLevelWrapper::Unknown)
        } else {
            None
        }
    }

    /// Classifies a MARC21 bibliographic-level code.
    pub fn classify(code: char) -> (r: Option<BibliographicalLevelWrapper>)
        ensures
            r == BibliographicalLevelWrapper::spec_classify(code),
    {
        if code == 'a' {
            Some(BibliographicalLevelWrapper::MonographicComponentPart)
        } else if code == 'b' {
            Some(BibliographicalLevelWrapper::SerialComponentPart)
        } else if code == 'c' {
            Some(BibliographicalLevelWrapper::Collection)
        } else if code == 'd' {
            Some(BibliographicalLevelWrapper::Subunit)
        } else if code == 'i' {
            Some(BibliographicalLevelWrapper::IntegratingResource)
        } else if code == 'm' {
            Some(BibliographicalLevelWrapper::Monograph)
        } else if code == 's' {
            Some(BibliographicalLevelWrapper::Serial)
        } else if code == ' ' {
            Some(BibliographicalLevelWrapper::Unknown)
        } else {
            None
        }
    }

    /// The canonical lower-case name of the variant.
    pub open spec fn spec_name(self) -> Seq<char> {
        match self {
            BibliographicalLevelWrapper::MonographicComponentPart => "monographic_component_part"@,
            BibliographicalLevelWrapper::SerialComponentPart => "serial_component_part"@,
            BibliographicalLevelWrapper::Collection => "collection"@,
            BibliographicalLevelWrapper::Subunit => "subunit"@,
            BibliographicalLevelWrapper::IntegratingResource => "integrating_resource"@,
            BibliographicalLevelWrapper::Monograph => "monograph"@,
            BibliographicalLevelWrapper::Serial => "serial"@,
            BibliographicalLevelWrapper::Unknown => "unknown"@,
        }
    }

    /// The canonical name, as the serializer emits it.
    pub fn name(&self) -> (r: String)
        ensures
            r@ == self.spec_name(),
    {
        match self {
            BibliographicalLevelWrapper::MonographicComponentPart => String::from_str(
                "monographic_component_part",
            ),
            BibliographicalLevelWrapper::SerialComponentPart => String::from_str(
                "serial_component_part",
            ),
            BibliographicalLevelWrapper::Collection => String::from_str("collection"),
            BibliographicalLevelWrapper::Subunit => String::from_str("subunit"),
            BibliographicalLevelWrapper::IntegratingResource => String::from_str(
                "integrating_resource",
            ),
            BibliographicalLevelWrapper::Monograph => String::from_str("monograph"),
            BibliographicalLevelWrapper::Serial => String::from_str("serial"),
            BibliographicalLevelWrapper::Unknown => String::from_str("unknown"),
        }
    }

    /// The variant whose canonical name is `s`, if any.
    pub open spec fn spec_of_name(s: Seq<char>) -> Option<BibliographicalLevelWrapper> {
        if s == "monographic_component_part"@ {
            Some(BibliographicalLevelWrapper::MonographicComponentPart)
        } else if s == "serial_component_part"@ {
            Some(BibliographicalLevelWrapper::SerialComponentPart)
        } else if s == "collection"@ {
            Some(BibliographicalLevelWrapper::Collection)
        } else if s == "subunit"@ {
            Some(BibliographicalLevelWrapper::Subunit)
        } else if s == "integrating_resource"@ {
            Some(BibliographicalLevelWrapper::IntegratingResource)
        } else if s == "monograph"@ {
            Some(BibliographicalLevelWrapper::Monograph)
        } else if s == "serial"@ {
            Some(BibliographicalLevelWrapper::Serial)
        } else if s == "unknown"@ {
            Some(BibliographicalLevelWrapper::Unknown)
        } else {
            None
        }
    }

    /// Parses a canonical name back to its variant.
    pub fn from_name(s: &str) -> (r: Option<BibliographicalLevelWrapper>)
        ensures
            r == BibliographicalLevelWrapper::spec_of_name(s@),
    {
        if str_eq(s, "monographic_component_part") {
            Some(BibliographicalLevelWrapper::MonographicComponentPart)
        } else if str_eq(s, "serial_component_part") {
            Some(BibliographicalLevelWrapper::SerialComponentPart)
        } else if str_eq(s, "collection") {
            Some(BibliographicalLevelWrapper::Collection)
        } else if str_eq(s, "subunit") {
            Some(BibliographicalLevelWrapper::Subunit)
        } else if str_eq(s, "integrating_resource") {
            Some(BibliographicalLevelWrapper::IntegratingResource)
        } else if str_eq(s, "monograph") {
            Some(BibliographicalLevelWrapper::Monograph)
        } else if str_eq(s, "serial") {
            Some(BibliographicalLevelWrapper::Serial)
        } else if str_eq(s, "unknown") {
            Some(BibliographicalLevelWrapper::Unknown)
        } else {
            None
        }
    }

    /// Canonical names form a bijection with the variants: parsing a
    /// variant's name returns that variant.
    pub proof fn lemma_name_round_trip(self)
        ensures
            BibliographicalLevelWrapper::spec_of_name(self.spec_name()) == Some(self),
    {
        reveal_strlit("monographic_component_part");
        reveal_strlit("serial_component_part");
        reveal_strlit("collection");
        reveal_strlit("subunit");
        reveal_strlit("integrating_resource");
        reveal_strlit("monograph");
        reveal_strlit("serial");
        reveal_strlit("unknown");
        assert("monographic_component_part"@.len() == 26);
        assert("serial_component_part"@.len() == 21);
        assert("collection"@.len() == 10);
        assert("subunit"@.len() == 7);
        assert("integrating_resource"@.len() == 20);
        assert("monograph"@.len() == 9);
        assert("serial"@.len() == 6);
        assert("unknown"@.len() == 7);
        assert("subunit"@[0] == 's');
        assert("unknown"@[0] == 'u');
    }
}

/// Whether the record follows archival control rules: Leader position 8.
#[derive(Clone, Copy, Debug, PartialEq, Eq, Structural)]
pub enum ControlTypeWrapper {
    Unspecified,
    Archival,
}

impl ControlTypeWrapper {
    /// The variant standing for the upstream classification.
    pub open spec fn of_upstream(control_type: ControlType) -> ControlTypeWrapper {
        match control_type {
            ControlType::Unspecified => ControlTypeWrapper::Unspecified,
            ControlType::Archival => ControlTypeWrapper::Archival,
        }
    }

    /// Takes over the upstream classification, one variant for one.
    pub fn new(control_type: ControlType) -> (r: ControlTypeWrapper)
        ensures
            r == ControlTypeWrapper::of_upstream(control_type),
    {
        match control_type {
            ControlType::Unspecified => ControlTypeWrapper::Unspecified,
            ControlType::Archival => ControlTypeWrapper::Archival,
        }
    }

    /// The classification of the MARC21 control-type code, if defined.
    /// The blank code maps to the semantic default `Unspecified`.
    pub open spec fn spec_classify(code: char) -> Option<ControlTypeWrapper> {
        if code == ' ' {
            Some(ControlTypeWrapper::Unspecified)
        } else if code == 'a' {
            Some(ControlTypeWrapper::Archival)
        } else {
            None
        }
    }

    /// Classifies a MARC21 control-type code.
    pub fn classify(code: char) -> (r: Option<ControlTypeWrapper>)
        ensures
            r == ControlTypeWrapper::spec_classify(code),
    {
        if code == ' ' {
            Some(ControlTypeWrapper::Unspecified)
        } else if code == 'a' {
            Some(ControlTypeWrapper::Archival)
        } else {
            None
        }
    }

    /// The canonical lower-case name of the variant.
    pub open spec fn spec_name(self) -> Seq<char> {
        match self {
            ControlTypeWrapper::Unspecified => "unspecified"@,
            ControlTypeWrapper::Archival => "archival"@,
        }
    }

    /// The canonical name, as the serializer emits it.
    pub fn name(&self) -> (r: String)
        ensures
            r@ == self.spec_name(),
    {
        match self {
            ControlTypeWrapper::Unspecified => String::from_str("unspecified"),
            ControlTypeWrapper::Archival => String::from_str("archival"),
        }
    }

    /// The variant whose canonical name is `s`, if any.
    pub open spec fn spec_of_name(s: Seq<char>) -> Option<ControlTypeWrapper> {
        if s == "unspecified"@ {
            Some(ControlTypeWrapper::Unspecified)
        } else if s == "archival"@ {
            Some(ControlTypeWrapper::Archival)
        } else {
            None
        }
    }

    /// Parses a canonical name back to its variant.
    pub fn from_name(s: &str) -> (r: Option<ControlTypeWrapper>)
        ensures
            r == ControlTypeWrapper::spec_of_name(s@),
    {
        if str_eq(s, "unspecified") {
            Some(ControlTypeWrapper::Unspecified)
        } else if str_eq(s, "archival") {
            Some(ControlTypeWrapper::Archival)
        } else {
            None
        }
    }

    /// Canonical names form a bijection with the variants: parsing a
    /// variant's name returns that variant.
    pub proof fn lemma_name_round_trip(self)
        ensures
            ControlTypeWrapper::spec_of_name(self.spec_name()) == Some(self),
    {
        reveal_strlit("unspecified");
        reveal_strlit("archival");
        assert("unspecified"@.len() == 11);
        assert("archival"@.len() == 8);
    }
}

/// The character coding scheme of the record's text: Leader position 9.
#[derive(Clone, Copy, Debug, PartialEq, Eq, Structural)]
pub enum CodingSchemeWrapper {
    Marc8,
    Ucs,
}

impl CodingSchemeWrapper {
    /// The variant standing for the upstream classification.
    pub open spec fn of_upstream(scheme: CodingScheme) -> CodingSchemeWrapper {
        match scheme {
            CodingScheme::Marc8 => CodingSchemeWrapper::Marc8,
            CodingScheme::Ucs => CodingSchemeWrapper::Ucs,
        }
    }

    /// Takes over the upstream classification, one variant for one.
    pub fn new(scheme: CodingScheme) -> (r: CodingSchemeWrapper)
        ensures
            r == CodingSchemeWrapper::of_upstream(scheme),
    {
        match scheme {
            CodingScheme::Marc8 => CodingSchemeWrapper::Marc8,
            CodingScheme::Ucs => CodingSchemeWrapper::Ucs,
        }
    }

    /// The classification of the MARC21 coding-scheme code, if defined.
    /// The blank code maps to the legacy 8-bit scheme.
    pub open spec fn spec_classify(code: char) -> Option<CodingSchemeWrapper> {
        if code == ' ' {
            Some(CodingSchemeWrapper::Marc8)
        } else if code == 'a' {
            Some(CodingSchemeWrapper::Ucs)
        } else {
            None
        }
    }

    /// Classifies a MARC21 coding-scheme code.
    pub fn classify(code: char) -> (r: Option<CodingSchemeWrapper>)
        ensures
            r == CodingSchemeWrapper::spec_classify(code),
    {
        if code == ' ' {
            Some(CodingSchemeWrapper::Marc8)
        } else if code == 'a' {
            Some(CodingSchemeWrapper::Ucs)
        } else {
            None
        }
    }

    /// The canonical lower-case name of the variant.
    pub open spec fn spec_name(self) -> Seq<char> {
        match self {
            CodingSchemeWrapper::Marc8 => "marc8"@,
            CodingSchemeWrapper::Ucs => "ucs"@,
        }
    }

    /// The canonical name, as the serializer emits it.
    pub fn name(&self) -> (r: String)
        ensures
            r@ == self.spec_name(),
    {
        match self {
            CodingSchemeWrapper::Marc8 => String::from_str("marc8"),
            CodingSchemeWrapper::Ucs => String::from_str("ucs"),
        }
    }

    /// The variant whose canonical name is `s`, if any.
    pub open spec fn spec_of_name(s: Seq<char>) -> Option<CodingSchemeWrapper> {
        if s == "marc8"@ {
            Some(CodingSchemeWrapper::Marc8)
        } else if s == "ucs"@ {
            Some(CodingSchemeWrapper::Ucs)
        } else {
            None
        }
    }

    /// Parses a canonical name back to its variant.
    pub fn from_name(s: &str) -> (r: Option<CodingSchemeWrapper>)
        ensures
            r == CodingSchemeWrapper::spec_of_name(s@),
    {
        if str_eq(s, "marc8") {
            Some(CodingSchemeWrapper::Marc8)
        } else if str_eq(s, "ucs") {
            Some(CodingSchemeWrapper::Ucs)
        } else {
            None
        }
    }

    /// Canonical names form a bijection with the variants: parsing a
    /// variant's name returns that variant.
    pub proof fn lemma_name_round_trip(self)
        ensures
            CodingSchemeWrapper::spec_of_name(self.spec_name()) == Some(self),
    {
        reveal_strlit("marc8");
        reveal_strlit("ucs");
        assert("marc8"@.len() == 5);
        assert("ucs"@.len() == 3);
    }
}

/// The completeness of the cataloging data: Leader position 17.
#[derive(Clone, Copy, Debug, PartialEq, Eq, Structural)]
pub enum EncodingLevelWrapper {
    Full,
    FullMaterialNotExamined,
    LessThanFullMaterialNotExamined,
    Abbreviated,
    Core,
    Partial,
    Minimal,
    Prepublication,
    Unknown,
    NotApplicable,
    ObsoleteFull,
    ObsoleteMinimal,
    AddedFromBatch,
}

impl EncodingLevelWrapper {
    /// The variant standing for the upstream classification.
    pub open spec fn of_upstream(level: EncodingLevel) -> EncodingLevelWrapper {
        match level {
            EncodingLevel::Full => EncodingLevelWrapper::Full,
            EncodingLevel::FullMaterialNotExamined => EncodingLevelWrapper::FullMaterialNotExamined,
            EncodingLevel::LessThanFullMaterialNotExamined => EncodingLevelWrapper::LessThanFullMaterialNotExamined,
            EncodingLevel::Abbreviated => EncodingLevelWrapper::Abbreviated,
            EncodingLevel::Core => EncodingLevelWrapper::Core,
            EncodingLevel::Partial => EncodingLevelWrapper::Partial,
            EncodingLevel::Minimal => EncodingLevelWrapper::Minimal,
            EncodingLevel::Prepublication => EncodingLevelWrapper::Prepublication,
            EncodingLevel::Unknown => EncodingLevelWrapper::Unknown,
            EncodingLevel::NotApplicable => EncodingLevelWrapper::NotApplicable,
            EncodingLevel::ObsoleteFull => EncodingLevelWrapper::ObsoleteFull,
            EncodingLevel::ObsoleteMinimal => EncodingLevelWrapper::ObsoleteMinimal,
            EncodingLevel::AddedFromBatch => EncodingLevelWrapper::AddedFromBatch,
        }
    }

    /// Takes over the upstream classification, one variant for one.
    pub fn new(level: EncodingLevel) -> (r: EncodingLevelWrapper)
        ensures
            r == EncodingLevelWrapper::of_upstream(level),
    {
        match level {
            EncodingLevel::Full => EncodingLevelWrapper::Full,
            EncodingLevel::FullMaterialNotExamined => EncodingLevelWrapper::FullMaterialNotExamined,
            EncodingLevel::LessThanFullMaterialNotExamined => EncodingLevelWrapper::LessThanFullMaterialNotExamined,
            EncodingLevel::Abbreviated => EncodingLevelWrapper::Abbreviated,
            EncodingLevel::Core => EncodingLevelWrapper::Core,
            EncodingLevel::Partial => EncodingLevelWrapper::Partial,
            EncodingLevel::Minimal => EncodingLevelWrapper::Minimal,
            EncodingLevel::Prepublication => EncodingLevelWrapper::Prepublication,
            EncodingLevel::Unknown => EncodingLevelWrapper::Unknown,
            EncodingLevel::NotApplicable => EncodingLevelWrapper::NotApplicable,
            EncodingLevel::ObsoleteFull => EncodingLevelWrapper::ObsoleteFull,
            EncodingLevel::ObsoleteMinimal => EncodingLevelWrapper::ObsoleteMinimal,
            EncodingLevel::AddedFromBatch => EncodingLevelWrapper::AddedFromBatch,
        }
    }

    /// The classification of the MARC21 encoding-level code, if defined.
    /// Besides the documented codes, several codes found in the wild are
    /// accepted and degrade to the fallback `Unknown`.
    pub open spec fn spec_classify(code: char) -> Option<EncodingLevelWrapper> {
        if code == ' ' {
            Some(EncodingLevelWrapper::Full)
        } else if code == '1' {
            Some(EncodingLevelWrapper::FullMaterialNotExamined)
        } else if code == '2' {
            Some(EncodingLevelWrapper::LessThanFullMaterialNotExamined)
        } else if code == '3' {
            Some(EncodingLevelWrapper::Abbreviated)
        } else if code == '4' {
            Some(EncodingLevelWrapper::Core)
        } else if code == '5' {
            Some(EncodingLevelWrapper::Partial)
        } else if code == '7' {
            Some(EncodingLevelWrapper::Minimal)
        } else if code == '8' {
            Some(EncodingLevelWrapper::Prepublication)
        } else if code == 'u' {
            Some(EncodingLevelWrapper::Unknown)
        } else if code == 'z' {
            Some(EncodingLevelWrapper::NotApplicable)
        } else if code == 'i' || code == 'I' {
            Some(EncodingLevelWrapper::ObsoleteFull)
        } else if code == 'k' || code == 'K' {
            Some(EncodingLevelWrapper::ObsoleteMinimal)
        } else if code == 'M' {
            Some(EncodingLevelWrapper::AddedFromBatch)
        } else if code == '0' || code == 'a' || code == 'J' || code == 'L' || code == 'C' || code
            == '|' || code == 'X' || code == 'T' {
            Some(EncodingLevelWrapper::Unknown)
        } else {
            None
        }
    }

    /// Classifies a MARC21 encoding-level code.
    pub fn classify(code: char) -> (r: Option<EncodingLevelWrapper>)
        ensures
            r == EncodingLevelWrapper::spec_classify(code),
    {
        if code == ' ' {
            Some(EncodingLevelWrapper::Full)
        } else if code == '1' {
            Some(EncodingLevelWrapper::FullMaterialNotExamined)
        } else if code == '2' {
            Some(EncodingLevelWrapper::LessThanFullMaterialNotExamined)
        } else if code == '3' {
            Some(EncodingLevelWrapper::Abbreviated)
        } else if code == '4' {
            Some(EncodingLevelWrapper::Core)
        } else if code == '5' {
            Some(EncodingLevelWrapper::Partial)
        } else if code == '7' {
            Some(EncodingLevelWrapper::Minimal)
        } else if code == '8' {
            Some(EncodingLevelWrapper::Prepublication)
        } else if code == 'u' {
            Some(EncodingLevelWrapper::Unknown)
        } else if code == 'z' {
            Some(EncodingLevelWrapper::NotApplicable)
        } else if code == 'i' || code == 'I' {
            Some(EncodingLevelWrapper::ObsoleteFull)
        } else if code == 'k' || code == 'K' {
            Some(EncodingLevelWrapper::ObsoleteMinimal)
        } else if code == 'M' {
            Some(EncodingLevelWrapper::AddedFromBatch)
        } else if code == '0' || code == 'a' || code == 'J' || code == 'L' || code == 'C' || code
            == '|' || code == 'X' || code == 'T' {
            Some(EncodingLevelWrapper::Unknown)
        } else {
            None
        }
    }

    /// The canonical lower-case name of the variant.
    pub open spec fn spec_name(self) -> Seq<char> {
        match self {
            EncodingLevelWrapper::Full => "full"@,
            EncodingLevelWrapper::FullMaterialNotExamined => "full_material_not_examined"@,
            EncodingLevelWrapper::LessThanFullMaterialNotExamined => "less_than_full_material_not_examined"@,
            EncodingLevelWrapper::Abbreviated => "abbreviated"@,
            EncodingLevelWrapper::Core => "core"@,
            EncodingLevelWrapper::Partial => "partial"@,
            EncodingLevelWrapper::Minimal => "minimal"@,
            EncodingLevelWrapper::Prepublication => "prepublication"@,
            EncodingLevelWrapper::Unknown => "unknown"@,
            EncodingLevelWrapper::NotApplicable => "not_applicable"@,
            EncodingLevelWrapper::ObsoleteFull => "obsolete_full"@,
            EncodingLevelWrapper::ObsoleteMinimal => "obsolete_minimal"@,
            EncodingLevelWrapper::AddedFromBatch => "added_from_batch"@,
        }
    }

    /// The canonical name, as the serializer emits it.
    pub fn name(&self) -> (r: String)
        ensures
            r@ == self.spec_name(),
    {
        match self {
            EncodingLevelWrapper::Full => String::from_str("full"),
            EncodingLevelWrapper::FullMaterialNotExamined => String::from_str(
                "full_material_not_examined",
            ),
            EncodingLevelWrapper::LessThanFullMaterialNotExamined => String::from_str(
                "less_than_full_material_not_examined",
            ),
            EncodingLevelWrapper::Abbreviated => String::from_str("abbreviated"),
            EncodingLevelWrapper::Core => String::from_str("core"),
            EncodingLevelWrapper::Partial => String::from_str("partial"),
            EncodingLevelWrapper::Minimal => String::from_str("minimal"),
            EncodingLevelWrapper::Prepublication => String::from_str("prepublication"),
            EncodingLevelWrapper::Unknown => String::from_str("unknown"),
            EncodingLevelWrapper::NotApplicable => String::from_str("not_applicable"),
            EncodingLevelWrapper::ObsoleteFull => String::from_str("obsolete_full"),
            EncodingLevelWrapper::ObsoleteMinimal => String::from_str("obsolete_minimal"),
            EncodingLevelWrapper::AddedFromBatch => String::from_str("added_from_batch"),
        }
    }

    /// The variant whose canonical name is `s`, if any.
    pub open spec fn spec_of_name(s: Seq<char>) -> Option<EncodingLevelWrapper> {
        if s == "full"@ {
            Some(EncodingLevelWrapper::Full)
        } else if s == "full_material_not_examined"@ {
            Some(EncodingLevelWrapper::FullMaterialNotExamined)
        } else if s == "less_than_full_material_not_examined"@ {
            Some(EncodingLevelWrapper::LessThanFullMaterialNotExamined)
        } else if s == "abbreviated"@ {
            Some(EncodingLevelWrapper::Abbreviated)
        } else if s == "core"@ {
            Some(EncodingLevelWrapper::Core)
        } else if s == "partial"@ {
            Some(EncodingLevelWrapper::Partial)
        } else if s == "minimal"@ {
            Some(EncodingLevelWrapper::Minimal)
        } else if s == "prepublication"@ {
            Some(EncodingLevelWrapper::Prepublication)
        } else if s == "unknown"@ {
            Some(EncodingLevelWrapper::Unknown)
        } else if s == "not_applicable"@ {
            Some(EncodingLevelWrapper::NotApplicable)
        } else if s == "obsolete_full"@ {
            Some(EncodingLevelWrapper::ObsoleteFull)
        } else if s == "obsolete_minimal"@ {
            Some(EncodingLevelWrapper::ObsoleteMinimal)
        } else if s == "added_from_batch"@ {
            Some(EncodingLevelWrapper::AddedFromBatch)
        } else {
            None
        }
    }

    /// Parses a canonical name back to its variant.
    pub fn from_name(s: &str) -> (r: Option<EncodingLevelWrapper>)
        ensures
            r == EncodingLevelWrapper::spec_of_name(s@),
    {
        if str_eq(s, "full") {
            Some(EncodingLevelWrapper::Full)
        } else if str_eq(s, "full_material_not_examined") {
            Some(EncodingLevelWrapper::FullMaterialNotExamined)
        } else if str_eq(s, "less_than_full_material_not_examined") {
            Some(EncodingLevelWrapper::LessThanFullMaterialNotExamined)
        } else if str_eq(s, "abbreviated") {
            Some(EncodingLevelWrapper::Abbreviated)
        } else if str_eq(s, "core") {
            Some(EncodingLevelWrapper::Core)
        } else if str_eq(s, "partial") {
            Some(EncodingLevelWrapper::Partial)
        } else if str_eq(s, "minimal") {
            Some(EncodingLevelWrapper::Minimal)
        } else if str_eq(s, "prepublication") {
            Some(EncodingLevelWrapper::Prepublication)
        } else if str_eq(s, "unknown") {
            Some(EncodingLevelWrapper::Unknown)
        } else if str_eq(s, "not_applicable") {
            Some(EncodingLevelWrapper::NotApplicable)
        } else if str_eq(s, "obsolete_full") {
            Some(EncodingLevelWrapper::ObsoleteFull)
        } else if str_eq(s, "obsolete_minimal") {
            Some(EncodingLevelWrapper::ObsoleteMinimal)
        } else if str_eq(s, "added_from_batch") {
            Some(EncodingLevelWrapper::AddedFromBatch)
        } else {
            None
        }
    }

    /// Canonical names form a bijection with the variants: parsing a
    /// variant's name returns that variant.
    pub proof fn lemma_name_round_trip(self)
        ensures
            EncodingLevelWrapper::spec_of_name(self.spec_name()) == Some(self),
    {
        reveal_strlit("full");
        reveal_strlit("full_material_not_examined");
        reveal_strlit("less_than_full_material_not_examined");
        reveal_strlit("abbreviated");
        reveal_strlit("core");
        reveal_strlit("partial");
        reveal_strlit("minimal");
        reveal_strlit("prepublication");
        reveal_strlit("unknown");
        reveal_strlit("not_applicable");
        reveal_strlit("obsolete_full");
        reveal_strlit("obsolete_minimal");
        reveal_strlit("added_from_batch");
        assert("full"@.len() == 4);
        assert("full_material_not_examined"@.len() == 26);
        assert("less_than_full_material_not_examined"@.len() == 36);
        assert("abbreviated"@.len() == 11);
        assert("core"@.len() == 4);
        assert("partial"@.len() == 7);
        assert("minimal"@.len() == 7);
        assert("prepublication"@.len() == 14);
        assert("unknown"@.len() == 7);
        assert("not_applicable"@.len() == 14);
        assert("obsolete_full"@.len() == 13);
        assert("obsolete_minimal"@.len() == 16);
        assert("added_from_batch"@.len() == 16);
        assert("full"@[0] == 'f');
        assert("core"@[0] == 'c');
        assert("partial"@[0] == 'p');
        assert("minimal"@[0] == 'm');
        assert("unknown"@[0] == 'u');
        assert("prepublication"@[0] == 'p');
        assert("not_applicable"@[0] == 'n');
        assert("obsolete_minimal"@[0] == 'o');
        assert("added_from_batch"@[0] == 'a');
    }
}

/// The descriptive cataloging form: Leader position 18.
#[derive(Clone, Copy, Debug, PartialEq, Eq, Structural)]
pub enum CatalogingFormWrapper {
    NonIsbd,
    Aacr2,
    IsbdPunctuationOmitted,
    IsbdPunctuationIncluded,
    NonIsbdPunctuationOmitted,
    Unknown,
}

impl CatalogingFormWrapper {
    /// The variant standing for the upstream classification.
    pub open spec fn of_upstream(form: CatalogingForm) -> CatalogingFormWrapper {
        match form {
            CatalogingForm::NonIsbd => CatalogingFormWrapper::NonIsbd,
            CatalogingForm::Aacr2 => CatalogingFormWrapper::Aacr2,
            CatalogingForm::IsbdPunctuationOmitted => CatalogingFormWrapper::IsbdPunctuationOmitted,
            CatalogingForm::IsbdPunctuationIncluded => CatalogingFormWrapper::IsbdPunctuationIncluded,
            CatalogingForm::NonIsbdPunctuationOmitted => CatalogingFormWrapper::NonIsbdPunctuationOmitted,
            CatalogingForm::Unknown => CatalogingFormWrapper::Unknown,
        }
    }

    /// Takes over the upstream classification, one variant for one.
    pub fn new(form: CatalogingForm) -> (r: CatalogingFormWrapper)
        ensures
            r == CatalogingFormWrapper::of_upstream(form),
    {
        match form {
            CatalogingForm::NonIsbd => CatalogingFormWrapper::NonIsbd,
            CatalogingForm::Aacr2 => CatalogingFormWrapper::Aacr2,
            CatalogingForm::IsbdPunctuationOmitted => CatalogingFormWrapper::IsbdPunctuationOmitted,
            CatalogingForm::IsbdPunctuationIncluded => CatalogingFormWrapper::IsbdPunctuationIncluded,
            CatalogingForm::NonIsbdPunctuationOmitted => CatalogingFormWrapper::NonIsbdPunctuationOmitted,
            CatalogingForm::Unknown => CatalogingFormWrapper::Unknown,
        }
    }

    /// The classification of the MARC21 cataloging-form code, if defined.
    /// Several codes found in the wild degrade to the fallback `Unknown`.
    pub open spec fn spec_classify(code: char) -> Option<CatalogingFormWrapper> {
        if code == ' ' {
            Some(CatalogingFormWrapper::NonIsbd)
        } else if code == 'a' {
            Some(CatalogingFormWrapper::Aacr2)
        } else if code == 'c' || code == 'C' {
            Some(CatalogingFormWrapper::IsbdPunctuationOmitted)
        } else if code == 'i' || code == 'I' {
            Some(CatalogingFormWrapper::IsbdPunctuationIncluded)
        } else if code == 'n' {
            Some(CatalogingFormWrapper::NonIsbdPunctuationOmitted)
        } else if code == 'u' || code == 's' || code == '|' || code == 'd' || code == 'q' {
            Some(CatalogingFormWrapper::Unknown)
        } else {
            None
        }
    }

    /// Classifies a MARC21 cataloging-form code.
    pub fn classify(code: char) -> (r: Option<CatalogingFormWrapper>)
        ensures
            r == CatalogingFormWrapper::spec_classify(code),
    {
        if code == ' ' {
            Some(CatalogingFormWrapper::NonIsbd)
        } else if code == 'a' {
            Some(CatalogingFormWrapper::Aacr2)
        } else if code == 'c' || code == 'C' {
            Some(CatalogingFormWrapper::IsbdPunctuationOmitted)
        } else if code == 'i' || code == 'I' {
            Some(CatalogingFormWrapper::IsbdPunctuationIncluded)
        } else if code == 'n' {
            Some(CatalogingFormWrapper::NonIsbdPunctuationOmitted)
        } else if code == 'u' || code == 's' || code == '|' || code == 'd' || code == 'q' {
            Some(CatalogingFormWrapper::Unknown)
        } else {
            None
        }
    }

    /// The canonical lower-case name of the variant.
    pub open spec fn spec_name(self) -> Seq<char> {
        match self {
            CatalogingFormWrapper::NonIsbd => "non_isbd"@,
            CatalogingFormWrapper::Aacr2 => "aacr2"@,
            CatalogingFormWrapper::IsbdPunctuationOmitted => "isbd_punctuation_omitted"@,
            CatalogingFormWrapper::IsbdPunctuationIncluded => "isbd_punctuation_included"@,
            CatalogingFormWrapper::NonIsbdPunctuationOmitted => "non_isbd_punctuation_omitted"@,
            CatalogingFormWrapper::Unknown => "unknown"@,
        }
    }

    /// The canonical name, as the serializer emits it.
    pub fn name(&self) -> (r: String)
        ensures
            r@ == self.spec_name(),
    {
        match self {
            CatalogingFormWrapper::NonIsbd => String::from_str("non_isbd"),
            CatalogingFormWrapper::Aacr2 => String::from_str("aacr2"),
            CatalogingFormWrapper::IsbdPunctuationOmitted => String::from_str(
                "isbd_punctuation_omitted",
            ),
            CatalogingFormWrapper::IsbdPunctuationIncluded => String::from_str(
                "isbd_punctuation_included",
            ),
            CatalogingFormWrapper::NonIsbdPunctuationOmitted => String::from_str(
                "non_isbd_punctuation_omitted",
            ),
            CatalogingFormWrapper::Unknown => String::from_str("unknown"),
        }
    }

    /// The variant whose canonical name is `s`, if any.
    pub open spec fn spec_of_name(s: Seq<char>) -> Option<CatalogingFormWrapper> {
        if s == "non_isbd"@ {
            Some(CatalogingFormWrapper::NonIsbd)
        } else if s == "aacr2"@ {
            Some(CatalogingFormWrapper::Aacr2)
        } else if s == "isbd_punctuation_omitted"@ {
            Some(CatalogingFormWrapper::IsbdPunctuationOmitted)
        } else if s == "isbd_punctuation_included"@ {
            Some(CatalogingFormWrapper::IsbdPunctuationIncluded)
        } else if s == "non_isbd_punctuation_omitted"@ {
            Some(CatalogingFormWrapper::NonIsbdPunctuationOmitted)
        } else if s == "unknown"@ {
            Some(CatalogingFormWrapper::Unknown)
        } else {
            None
        }
    }

    /// Parses a canonical name back to its variant.
    pub fn from_name(s: &str) -> (r: Option<CatalogingFormWrapper>)
        ensures
            r == CatalogingFormWrapper::spec_of_name(s@),
    {
        if str_eq(s, "non_isbd") {
            Some(CatalogingFormWrapper::NonIsbd)
        } else if str_eq(s, "aacr2") {
            Some(CatalogingFormWrapper::Aacr2)
        } else if str_eq(s, "isbd_punctuation_omitted") {
            Some(CatalogingFormWrapper::IsbdPunctuationOmitted)
        } else if str_eq(s, "isbd_punctuation_included") {
            Some(CatalogingFormWrapper::IsbdPunctuationIncluded)
        } else if str_eq(s, "non_isbd_punctuation_omitted") {
            Some(CatalogingFormWrapper::NonIsbdPunctuationOmitted)
        } else if str_eq(s, "unknown") {
            Some(CatalogingFormWrapper::Unknown)
        } else {
            None
        }
    }

    /// Canonical names form a bijection with the variants: parsing a
    /// variant's name returns that variant.
    pub proof fn lemma_name_round_trip(self)
        ensures
            CatalogingFormWrapper::spec_of_name(self.spec_name()) == Some(self),
    {
        reveal_strlit("non_isbd");
        reveal_strlit("aacr2");
        reveal_strlit("isbd_punctuation_omitted");
        reveal_strlit("isbd_punctuation_included");
        reveal_strlit("non_isbd_punctuation_omitted");
        reveal_strlit("unknown");
        assert("non_isbd"@.len() == 8);
        assert("aacr2"@.len() == 5);
        assert("isbd_punctuation_omitted"@.len() == 24);
        assert("isbd_punctuation_included"@.len() == 25);
        assert("non_isbd_punctuation_omitted"@.len() == 28);
        assert("unknown"@.len() == 7);
    }
}

/// The record's place in a multipart resource: Leader position 19.
#[derive(Clone, Copy, Debug, PartialEq, Eq, Structural)]
pub enum MultipartResourceRecordLevelWrapper {
    NotApplicable,
    SetRecord,
    PartWithIndependentTitle,
    PartWithDependentTitle,
}

impl MultipartResourceRecordLevelWrapper {
    /// The variant standing for the upstream classification.
    pub open spec fn of_upstream(level: MultipartResourceRecordLevel) -> MultipartResourceRecordLevelWrapper {
        match level {
            MultipartResourceRecordLevel::NotApplicable => MultipartResourceRecordLevelWrapper::NotApplicable,
            MultipartResourceRecordLevel::Set => MultipartResourceRecordLevelWrapper::SetRecord,
            MultipartResourceRecordLevel::PartWithIndependentTitle => MultipartResourceRecordLevelWrapper::PartWithIndependentTitle,
            MultipartResourceRecordLevel::PartwithDependentTitle => MultipartResourceRecordLevelWrapper::PartWithDependentTitle,
        }
    }

    /// Takes over the upstream classification, one variant for one.
    pub fn new(level: MultipartResourceRecordLevel) -> (r: MultipartResourceRecordLevelWrapper)
        ensures
            r == MultipartResourceRecordLevelWrapper::of_upstream(level),
    {
        match level {
            MultipartResourceRecordLevel::NotApplicable => MultipartResourceRecordLevelWrapper::NotApplicable,
            MultipartResourceRecordLevel::Set => MultipartResourceRecordLevelWrapper::SetRecord,
            MultipartResourceRecordLevel::PartWithIndependentTitle => MultipartResourceRecordLevelWrapper::PartWithIndependentTitle,
            MultipartResourceRecordLevel::PartwithDependentTitle => MultipartResourceRecordLevelWrapper::PartWithDependentTitle,
        }
    }

    /// The classification of the MARC21 multipart-level code, if defined.
    /// The blank code maps to the designated fallback `NotApplicable`.
    pub open spec fn spec_classify(code: char) -> Option<MultipartResourceRecordLevelWrapper> {
        if code == ' ' {
            Some(MultipartResourceRecordLevelWrapper::NotApplicable)
        } else if code == 'a' {
            Some(MultipartResourceRecordLevelWrapper::SetRecord)
        } else if code == 'b' {
            Some(MultipartResourceRecordLevelWrapper::PartWithIndependentTitle)
        } else if code == 'c' {
            Some(MultipartResourceRecordLevelWrapper::PartWithDependentTitle)
        } else {
            None
        }
    }

    /// Classifies a MARC21 multipart-level code.
    pub fn classify(code: char) -> (r: Option<MultipartResourceRecordLevelWrapper>)
        ensures
            r == MultipartResourceRecordLevelWrapper::spec_classify(code),
    {
        if code == ' ' {
            Some(MultipartResourceRecordLevelWrapper::NotApplicable)
        } else if code == 'a' {
            Some(MultipartResourceRecordLevelWrapper::SetRecord)
        } else if code == 'b' {
            Some(MultipartResourceRecordLevelWrapper::PartWithIndependentTitle)
        } else if code == 'c' {
            Some(MultipartResourceRecordLevelWrapper::PartWithDependentTitle)
        } else {
            None
        }
    }

    /// The canonical lower-case name of the variant.
    pub open spec fn spec_name(self) -> Seq<char> {
        match self {
            MultipartResourceRecordLevelWrapper::NotApplicable => "not_applicable"@,
            MultipartResourceRecordLevelWrapper::SetRecord => "set"@,
            MultipartResourceRecordLevelWrapper::PartWithIndependentTitle => "part_with_independent_title"@,
            MultipartResourceRecordLevelWrapper::PartWithDependentTitle => "part_with_dependent_title"@,
        }
    }

    /// The canonical name, as the serializer emits it.
    pub fn name(&self) -> (r: String)
        ensures
            r@ == self.spec_name(),
    {
        match self {
            MultipartResourceRecordLevelWrapper::NotApplicable => String::from_str(
                "not_applicable",
            ),
            MultipartResourceRecordLevelWrapper::SetRecord => String::from_str("set"),
            MultipartResourceRecordLevelWrapper::PartWithIndependentTitle => String::from_str(
                "part_with_independent_title",
            ),
            MultipartResourceRecordLevelWrapper::PartWithDependentTitle => String::from_str(
                "part_with_dependent_title",
            ),
        }
    }

    /// The variant whose canonical name is `s`, if any.
    pub open spec fn spec_of_name(s: Seq<char>) -> Option<MultipartResourceRecordLevelWrapper> {
        if s == "not_applicable"@ {
            Some(MultipartResourceRecordLevelWrapper::NotApplicable)
        } else if s == "set"@ {
            Some(MultipartResourceRecordLevelWrapper::SetRecord)
        } else if s == "part_with_independent_title"@ {
            Some(MultipartResourceRecordLevelWrapper::PartWithIndependentTitle)
        } else if s == "part_with_dependent_title"@ {
            Some(MultipartResourceRecordLevelWrapper::PartWithDependentTitle)
        } else {
            None
        }
    }

    /// Parses a canonical name back to its variant.
    pub fn from_name(s: &str) -> (r: Option<MultipartResourceRecordLevelWrapper>)
        ensures
            r == MultipartResourceRecordLevelWrapper::spec_of_name(s@),
    {
        if str_eq(s, "not_applicable") {
            Some(MultipartResourceRecordLevelWrapper::NotApplicable)
        } else if str_eq(s, "set") {
            Some(MultipartResourceRecordLevelWrapper::SetRecord)
        } else if str_eq(s, "part_with_independent_title") {
            Some(MultipartResourceRecordLevelWrapper::PartWithIndependentTitle)
        } else if str_eq(s, "part_with_dependent_title") {
            Some(MultipartResourceRecordLevelWrapper::PartWithDependentTitle)
        } else {
            None
        }
    }

    /// Canonical names form a bijection with the variants: parsing a
    /// variant's name returns that variant.
    pub proof fn lemma_name_round_trip(self)
        ensures
            MultipartResourceRecordLevelWrapper::spec_of_name(self.spec_name()) == Some(self),
    {
        reveal_strlit("not_applicable");
        reveal_strlit("set");
        reveal_strlit("part_with_independent_title");
        reveal_strlit("part_with_dependent_title");
        assert("not_applicable"@.len() == 14);
        assert("set"@.len() == 3);
        assert("part_with_independent_title"@.len() == 27);
        assert("part_with_dependent_title"@.len() == 25);
    }
}

/// The classified 24-byte Leader: every fixed-position code mapped to its
/// enumeration member, plus the two numeric positions.
#[derive(Clone, Copy, Debug, PartialEq, Eq, Structural)]
pub struct LeaderWrapper {
    pub record_length: u16,
    pub status: StatusWrapper,
    pub record_type: RecordTypeWrapper,
    pub bibliographic_level: BibliographicalLevelWrapper,
    pub control_type: ControlTypeWrapper,
    pub coding_scheme: CodingSchemeWrapper,
    pub data_base_address: u16,
    pub encoding_level: EncodingLevelWrapper,
    pub descriptive_cataloging_form: CatalogingFormWrapper,
    pub multipart_resource_record_level: MultipartResourceRecordLevelWrapper,
}

impl LeaderWrapper {
    /// The classification of a whole upstream Leader.
    pub open spec fn of_upstream(leader: Leader) -> LeaderWrapper {
        LeaderWrapper {
            record_length: leader.record_length,
            status: StatusWrapper::of_upstream(leader.status),
            record_type: RecordTypeWrapper::of_upstream(leader.record_type),
            bibliographic_level: BibliographicalLevelWrapper::of_upstream(
                leader.bibliographical_level,
            ),
            control_type: ControlTypeWrapper::of_upstream(leader.control_type),
            coding_scheme: CodingSchemeWrapper::of_upstream(leader.coding_scheme),
            data_base_address: leader.data_base_address,
            encoding_level: EncodingLevelWrapper::of_upstream(leader.encoding_level),
            descriptive_cataloging_form: CatalogingFormWrapper::of_upstream(
                leader.descriptive_cataloging_form,
            ),
            multipart_resource_record_level: MultipartResourceRecordLevelWrapper::of_upstream(
                leader.multipart_resource_record_level,
            ),
        }
    }

    /// Classifies every position of an upstream Leader, one variant for
    /// one, keeping the two numeric positions as they are.
    pub fn new(leader: Leader) -> (r: LeaderWrapper)
        ensures
            r == LeaderWrapper::of_upstream(leader),
    {
        let Leader {
            record_length,
            status,
            record_type,
            bibliographical_level,
            control_type,
            coding_scheme,
            data_base_address,
            encoding_level,
            descriptive_cataloging_form,
            multipart_resource_record_level,
        } = leader;
        LeaderWrapper {
            record_length,
            status: StatusWrapper::new(status),
            record_type: RecordTypeWrapper::new(record_type),
            bibliographic_level: BibliographicalLevelWrapper::new(bibliographical_level),
            control_type: ControlTypeWrapper::new(control_type),
            coding_scheme: CodingSchemeWrapper::new(coding_scheme),
            data_base_address,
            encoding_level: EncodingLevelWrapper::new(encoding_level),
            descriptive_cataloging_form: CatalogingFormWrapper::new(descriptive_cataloging_form),
            multipart_resource_record_level: MultipartResourceRecordLevelWrapper::new(
                multipart_resource_record_level,
            ),
        }
    }

    /// What the serialized Leader mapping holds: the ten classified
    /// positions under their fixed keys, in emission order, each
    /// enumeration member as its canonical name.
    pub open spec fn value_matches(self, v: Value) -> bool {
        let ps = v.pairs();
        &&& v is Mapping
        &&& ps.len() == 10
        &&& ps[0].0@ == "record_length"@
        &&& ps[0].1 == Value::Int(self.record_length as u64)
        &&& ps[1].0@ == "status"@
        &&& ps[1].1 is Text
        &&& ps[1].1.text() == self.status.spec_name()
        &&& ps[2].0@ == "record_type"@
        &&& ps[2].1 is Text
        &&& ps[2].1.text() == self.record_type.spec_name()
        &&& ps[3].0@ == "bibliographical_level"@
        &&& ps[3].1 is Text
        &&& ps[3].1.text() == self.bibliographic_level.spec_name()
        &&& ps[4].0@ == "control_type"@
        &&& ps[4].1 is Text
        &&& ps[4].1.text() == self.control_type.spec_name()
        &&& ps[5].0@ == "coding_scheme"@
        &&& ps[5].1 is Text
        &&& ps[5].1.text() == self.coding_scheme.spec_name()
        &&& ps[6].0@ == "data_base_address"@
        &&& ps[6].1 == Value::Int(self.data_base_address as u64)
        &&& ps[7].0@ == "encoding_level"@
        &&& ps[7].1 is Text
        &&& ps[7].1.text() == self.encoding_level.spec_name()
        &&& ps[8].0@ == "descriptive_cataloging_form"@
        &&& ps[8].1 is Text
        &&& ps[8].1.text() == self.descriptive_cataloging_form.spec_name()
        &&& ps[9].0@ == "multipart_resource_record_level"@
        &&& ps[9].1 is Text
        &&& ps[9].1.text() == self.multipart_resource_record_level.spec_name()
    }

    /// Serializes the Leader into its interchange mapping.
    pub fn encode(&self) -> (v: Value)
        ensures
            self.value_matches(v),
    {
        let mut pairs: Vec<(String, Value)> = Vec::new();
        pairs.push(
            (String::from_str("record_length"), Value::Int(self.record_length as u64)),
        );
        pairs.push((String::from_str("status"), Value::Text(self.status.name())));
        pairs.push((String::from_str("record_type"), Value::Text(self.record_type.name())));
        pairs.push(
            (
                String::from_str("bibliographical_level"),
                Value::Text(self.bibliographic_level.name()),
            ),
        );
        pairs.push((String::from_str("control_type"), Value::Text(self.control_type.name())));
        pairs.push((String::from_str("coding_scheme"), Value::Text(self.coding_scheme.name())));
        pairs.push(
            (String::from_str("data_base_address"), Value::Int(self.data_base_address as u64)),
        );
        pairs.push((String::from_str("encoding_level"), Value::Text(self.encoding_level.name())));
        pairs.push(
            (
                String::from_str("descriptive_cataloging_form"),
                Value::Text(self.descriptive_cataloging_form.name()),
            ),
        );
        pairs.push(
            (
                String::from_str("multipart_resource_record_level"),
                Value::Text(self.multipart_resource_record_level.name()),
            ),
        );
        Value::Mapping(pairs)
    }
}

/// The serialized Leader mapping carries ten pairwise distinct keys.
pub proof fn lemma_leader_keys_unique(l: LeaderWrapper, v: Value)
    requires
        l.value_matches(v),
    ensures
        forall|i: int, j: int|
            0 <= i < j < v.pairs().len() ==> v.pairs()[i].0@ != v.pairs()[j].0@,
{
    reveal_strlit("record_length");
    reveal_strlit("status");
    reveal_strlit("record_type");
    reveal_strlit("bibliographical_level");
    reveal_strlit("control_type");
    reveal_strlit("coding_scheme");
    reveal_strlit("data_base_address");
    reveal_strlit("encoding_level");
    reveal_strlit("descriptive_cataloging_form");
    reveal_strlit("multipart_resource_record_level");
    assert("record_length"@.len() == 13);
    assert("status"@.len() == 6);
    assert("record_type"@.len() == 11);
    assert("bibliographical_level"@.len() == 21);
    assert("control_type"@.len() == 12);
    assert("coding_scheme"@.len() == 13);
    assert("data_base_address"@.len() == 17);
    assert("encoding_level"@.len() == 14);
    assert("descriptive_cataloging_form"@.len() == 27);
    assert("multipart_resource_record_level"@.len() == 31);
    assert("record_length"@[0] == 'r');
    assert("coding_scheme"@[0] == 'c');
}

} // verus!
