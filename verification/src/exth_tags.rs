//! The optional tag-length-value metadata block that follows the metadata
//! header when its flags announce one. Each record carries a 32-bit code;
//! known codes decode to typed variants, every other code falls back to a
//! variant that preserves the code and the raw payload bytes verbatim.

use vstd::prelude::*;
use crate::common::{
    Error, Language, Reader, discard, spec_language_from,
    spec_u16_at, spec_u32_at,
};

verus! {

/// The 4-byte magic tag of the tagged metadata block.
pub const EXTH_MAGIC: u32 = 0x45585448;

/// The numeric code of a tag record: a closed-but-extensible set with a raw
/// fallback for codes this decoder does not model.
#[derive(Debug, Clone, Copy, PartialEq, Eq, Structural)]
pub enum ExthType {
    DRMServerId,
    DRMCommerveId,
    DRMEbookbaseBookId,
    Author,
    Publisher,
    Imprint,
    Description,
    ISBN,
    Subject,
    PublishingDate,
    Review,
    Contributor,
    Rights,
    SubjectCode,
    Type,
    Source,
    ASIN,
    VersionNumber,
    IsSample,
    StartReadingAtOffset,
    AdultOnly,
    RetailPrice,
    RetailPriceCurrency,
    KF8BoundaryOffset,
    ResourceCount,
    KF8CoverURI,
    UsedButUnknown,
    DictionaryShortName,
    CoverOffset,
    ThumbnailOffset,
    HasFakeCover,
    CreatorSoftware,
    CreatorMajorVersion,
    CreatorMinorVersion,
    CreatorBuildNumber,
    Watermark,
    TamperProofKeys,
    FontSignature,
    ClippingLimit,
    PublisherLimit,
    UsedButUnknown2,
    TextToSpeechFlag,
    MaybeRentBorrowFlag,
    RentBorrowExpirationDate,
    UsedButUnknown3,
    UsedButUnknown4,
    UsedButUnknown5,
    UsedButUnknown6,
    UsedButUnknown7,
    CDEType,
    LastUpdateType,
    UpdatedTitle,
    ASINCopy,
    Language,
    Alignment,
    CreatorBuildNumberCopy,
    InMemory,
    Unknown(u32),
}

/// The `ExthType` that stands for a raw tag code.
pub open spec fn spec_exth_type_from(value: u32) -> ExthType {
    if value == 1u32 {
        ExthType::DRMServerId
    } else if value == 2u32 {
        ExthType::DRMCommerveId
    } else if value == 3u32 {
        ExthType::DRMEbookbaseBookId
    } else if value == 100u32 {
        ExthType::Author
    } else if value == 101u32 {
        ExthType::Publisher
    } else if value == 102u32 {
        ExthType::Imprint
    } else if value == 103u32 {
        ExthType::Description
    } else if value == 104u32 {
        ExthType::ISBN
    } else if value == 105u32 {
        ExthType::Subject
    } else if value == 106u32 {
        ExthType::PublishingDate
    } else if value == 107u32 {
        ExthType::Review
    } else if value == 108u32 {
        ExthType::Contributor
    } else if value == 109u32 {
        ExthType::Rights
    } else if value == 110u32 {
        ExthType::SubjectCode
    } else if value == 111u32 {
        ExthType::Type
    } else if value == 112u32 {
        ExthType::Source
    } else if value == 113u32 {
        ExthType::ASIN
    } else if value == 114u32 {
        ExthType::VersionNumber
    } else if value == 115u32 {
        ExthType::IsSample
    } else if value == 116u32 {
        ExthType::StartReadingAtOffset
    } else if value == 117u32 {
        ExthType::AdultOnly
    } else if value == 118u32 {
        ExthType::RetailPrice
    } else if value == 119u32 {
        ExthType::RetailPriceCurrency
    } else if value == 121u32 {
        ExthType::KF8BoundaryOffset
    } else if value == 125u32 {
        ExthType::ResourceCount
    } else if value == 129u32 {
        ExthType::KF8CoverURI
    } else if value == 131u32 {
        ExthType::UsedButUnknown
    } else if value == 200u32 {
        ExthType::DictionaryShortName
    } else if value == 201u32 {
        ExthType::CoverOffset
    } else if value == 202u32 {
        ExthType::ThumbnailOffset
    } else if value == 203u32 {
        ExthType::HasFakeCover
    } else if value == 204u32 {
        ExthType::CreatorSoftware
    } else if value == 205u32 {
        ExthType::CreatorMajorVersion
    } else if value == 206u32 {
        ExthType::CreatorMinorVersion
    } else if value == 207u32 {
        ExthType::CreatorBuildNumber
    } else if value == 208u32 {
        ExthType::Watermark
    } else if value == 209u32 {
        ExthType::TamperProofKeys
    } else if value == 300u32 {
        ExthType::FontSignature
    } else if value == 401u32 {
        ExthType::ClippingLimit
    } else if value == 402u32 {
        ExthType::PublisherLimit
    } else if value == 403u32 {
        ExthType::UsedButUnknown2
    } else if value == 404u32 {
        ExthType::TextToSpeechFlag
    } else if value == 405u32 {
        ExthType::MaybeRentBorrowFlag
    } else if value == 406u32 {
        ExthType::RentBorrowExpirationDate
    } else if value == 407u32 {
        ExthType::UsedButUnknown3
    } else if value == 450u32 {
        ExthType::UsedButUnknown4
    } else if value == 451u32 {
        ExthType::UsedButUnknown5
    } else if value == 452u32 {
        ExthType::UsedButUnknown6
    } else if value == 453u32 {
        ExthType::UsedButUnknown7
    } else if value == 501u32 {
        ExthType::CDEType
    } else if value == 502u32 {
        ExthType::LastUpdateType
    } else if value == 503u32 {
        ExthType::UpdatedTitle
    } else if value == 504u32 {
        ExthType::ASINCopy
    } else if value == 524u32 {
        ExthType::Language
    } else if value == 525u32 {
        ExthType::Alignment
    } else if value == 535u32 {
        ExthType::CreatorBuildNumberCopy
    } else if value == 547u32 {
        ExthType::InMemory
    } else {
        ExthType::Unknown(value)
    }
}

/// The raw tag code that an `ExthType` stands for.
pub open spec fn spec_exth_type_value(t: ExthType) -> u32 {
    match t {
        ExthType::DRMServerId => 1u32,
        ExthType::DRMCommerveId => 2u32,
        ExthType::DRMEbookbaseBookId => 3u32,
        ExthType::Author => 100u32,
        ExthType::Publisher => 101u32,
        ExthType::Imprint => 102u32,
        ExthType::Description => 103u32,
        ExthType::ISBN => 104u32,
        ExthType::Subject => 105u32,
        ExthType::PublishingDate => 106u32,
        ExthType::Review => 107u32,
        ExthType::Contributor => 108u32,
        ExthType::Rights => 109u32,
        ExthType::SubjectCode => 110u32,
        ExthType::Type => 111u32,
        ExthType::Source => 112u32,
        ExthType::ASIN => 113u32,
        ExthType::VersionNumber => 114u32,
        ExthType::IsSample => 115u32,
        ExthType::StartReadingAtOffset => 116u32,
        ExthType::AdultOnly => 117u32,
        ExthType::RetailPrice => 118u32,
        ExthType::RetailPriceCurrency => 119u32,
        ExthType::KF8BoundaryOffset => 121u32,
        ExthType::ResourceCount => 125u32,
        ExthType::KF8CoverURI => 129u32,
        ExthType::UsedButUnknown => 131u32,
        ExthType::DictionaryShortName => 200u32,
        ExthType::CoverOffset => 201u32,
        ExthType::ThumbnailOffset => 202u32,
        ExthType::HasFakeCover => 203u32,
        ExthType::CreatorSoftware => 204u32,
        ExthType::CreatorMajorVersion => 205u32,
        ExthType::CreatorMinorVersion => 206u32,
        ExthType::CreatorBuildNumber => 207u32,
        ExthType::Watermark => 208u32,
        ExthType::TamperProofKeys => 209u32,
        ExthType::FontSignature => 300u32,
        ExthType::ClippingLimit => 401u32,
        ExthType::PublisherLimit => 402u32,
        ExthType::UsedButUnknown2 => 403u32,
        ExthType::TextToSpeechFlag => 404u32,
        ExthType::MaybeRentBorrowFlag => 405u32,
        ExthType::RentBorrowExpirationDate => 406u32,
        ExthType::UsedButUnknown3 => 407u32,
        ExthType::UsedButUnknown4 => 450u32,
        ExthType::UsedButUnknown5 => 451u32,
        ExthType::UsedButUnknown6 => 452u32,
        ExthType::UsedButUnknown7 => 453u32,
        ExthType::CDEType => 501u32,
        ExthType::LastUpdateType => 502u32,
        ExthType::UpdatedTitle => 503u32,
        ExthType::ASINCopy => 504u32,
        ExthType::Language => 524u32,
        ExthType::Alignment => 525u32,
        ExthType::CreatorBuildNumberCopy => 535u32,
        ExthType::InMemory => 547u32,
        ExthType::Unknown(value) => value,
    }
}

impl ExthType {
    /// The variant for a raw tag code; unmapped codes fall back to `Unknown`
    /// rather than failing.
    pub fn from(value: u32) -> (r: ExthType)
        ensures
            r == spec_exth_type_from(value),
    {
        if value == 1u32 {
            ExthType::DRMServerId
        } else if value == 2u32 {
            ExthType::DRMCommerveId
        } else if value == 3u32 {
            ExthType::DRMEbookbaseBookId
        } else if value == 100u32 {
            ExthType::Author
        } else if value == 101u32 {
            ExthType::Publisher
        } else if value == 102u32 {
            ExthType::Imprint
        } else if value == 103u32 {
            ExthType::Description
        } else if value == 104u32 {
            ExthType::ISBN
        } else if value == 105u32 {
            ExthType::Subject
        } else if value == 106u32 {
            ExthType::PublishingDate
        } else if value == 107u32 {
            ExthType::Review
        } else if value == 108u32 {
            ExthType::Contributor
        } else if value == 109u32 {
            ExthType::Rights
        } else if value == 110u32 {
            ExthType::SubjectCode
        } else if value == 111u32 {
            ExthType::Type
        } else if value == 112u32 {
            ExthType::Source
        } else if value == 113u32 {
            ExthType::ASIN
        } else if value == 114u32 {
            ExthType::VersionNumber
        } else if value == 115u32 {
            ExthType::IsSample
        } else if value == 116u32 {
            ExthType::StartReadingAtOffset
        } else if value == 117u32 {
            ExthType::AdultOnly
        } else if value == 118u32 {
            ExthType::RetailPrice
        } else if value == 119u32 {
            ExthType::RetailPriceCurrency
        } else if value == 121u32 {
            ExthType::KF8BoundaryOffset
        } else if value == 125u32 {
            ExthType::ResourceCount
        } else if value == 129u32 {
            ExthType::KF8CoverURI
        } else if value == 131u32 {
            ExthType::UsedButUnknown
        } else if value == 200u32 {
            ExthType::DictionaryShortName
        } else if value == 201u32 {
            ExthType::CoverOffset
        } else if value == 202u32 {
            ExthType::ThumbnailOffset
        } else if value == 203u32 {
            ExthType::HasFakeCover
        } else if value == 204u32 {
            ExthType::CreatorSoftware
        } else if value == 205u32 {
            ExthType::CreatorMajorVersion
        } else if value == 206u32 {
            ExthType::CreatorMinorVersion
        } else if value == 207u32 {
            ExthType::CreatorBuildNumber
        } else if value == 208u32 {
            ExthType::Watermark
        } else if value == 209u32 {
            ExthType::TamperProofKeys
        } else if value == 300u32 {
            ExthType::FontSignature
        } else if value == 401u32 {
            ExthType::ClippingLimit
        } else if value == 402u32 {
            ExthType::PublisherLimit
        } else if value == 403u32 {
            ExthType::UsedButUnknown2
        } else if value == 404u32 {
            ExthType::TextToSpeechFlag
        } else if value == 405u32 {
            ExthType::MaybeRentBorrowFlag
        } else if value == 406u32 {
            ExthType::RentBorrowExpirationDate
        } else if value == 407u32 {
            ExthType::UsedButUnknown3
        } else if value == 450u32 {
            ExthType::UsedButUnknown4
        } else if value == 451u32 {
            ExthType::UsedButUnknown5
        } else if value == 452u32 {
            ExthType::UsedButUnknown6
        } else if value == 453u32 {
            ExthType::UsedButUnknown7
        } else if value == 501u32 {
            ExthType::CDEType
        } else if value == 502u32 {
            ExthType::LastUpdateType
        } else if value == 503u32 {
            ExthType::UpdatedTitle
        } else if value == 504u32 {
            ExthType::ASINCopy
        } else if value == 524u32 {
            ExthType::Language
        } else if value == 525u32 {
            ExthType::Alignment
        } else if value == 535u32 {
            ExthType::CreatorBuildNumberCopy
        } else if value == 547u32 {
            ExthType::InMemory
        } else {
            ExthType::Unknown(value)
        }
    }

    /// The raw tag code this value stands for.
    pub fn value(&self) -> (r: u32)
        ensures
            r == spec_exth_type_value(*self),
    {
        match *self {
            ExthType::DRMServerId => 1u32,
            ExthType::DRMCommerveId => 2u32,
            ExthType::DRMEbookbaseBookId => 3u32,
            ExthType::Author => 100u32,
            ExthType::Publisher => 101u32,
            ExthType::Imprint => 102u32,
            ExthType::Description => 103u32,
            ExthType::ISBN => 104u32,
            ExthType::Subject => 105u32,
            ExthType::PublishingDate => 106u32,
            ExthType::Review => 107u32,
            ExthType::Contributor => 108u32,
            ExthType::Rights => 109u32,
            ExthType::SubjectCode => 110u32,
            ExthType::Type => 111u32,
            ExthType::Source => 112u32,
            ExthType::ASIN => 113u32,
            ExthType::VersionNumber => 114u32,
            ExthType::IsSample => 115u32,
            ExthType::StartReadingAtOffset => 116u32,
            ExthType::AdultOnly => 117u32,
            ExthType::RetailPrice => 118u32,
            ExthType::RetailPriceCurrency => 119u32,
            ExthType::KF8BoundaryOffset => 121u32,
            ExthType::ResourceCount => 125u32,
            ExthType::KF8CoverURI => 129u32,
            ExthType::UsedButUnknown => 131u32,
            ExthType::DictionaryShortName => 200u32,
            ExthType::CoverOffset => 201u32,
            ExthType::ThumbnailOffset => 202u32,
            ExthType::HasFakeCover => 203u32,
            ExthType::CreatorSoftware => 204u32,
            ExthType::CreatorMajorVersion => 205u32,
            ExthType::CreatorMinorVersion => 206u32,
            ExthType::CreatorBuildNumber => 207u32,
            ExthType::Watermark => 208u32,
            ExthType::TamperProofKeys => 209u32,
            ExthType::FontSignature => 300u32,
            ExthType::ClippingLimit => 401u32,
            ExthType::PublisherLimit => 402u32,
            ExthType::UsedButUnknown2 => 403u32,
            ExthType::TextToSpeechFlag => 404u32,
            ExthType::MaybeRentBorrowFlag => 405u32,
            ExthType::RentBorrowExpirationDate => 406u32,
            ExthType::UsedButUnknown3 => 407u32,
            ExthType::UsedButUnknown4 => 450u32,
            ExthType::UsedButUnknown5 => 451u32,
            ExthType::UsedButUnknown6 => 452u32,
            ExthType::UsedButUnknown7 => 453u32,
            ExthType::CDEType => 501u32,
            ExthType::LastUpdateType => 502u32,
            ExthType::UpdatedTitle => 503u32,
            ExthType::ASINCopy => 504u32,
            ExthType::Language => 524u32,
            ExthType::Alignment => 525u32,
            ExthType::CreatorBuildNumberCopy => 535u32,
            ExthType::InMemory => 547u32,
            ExthType::Unknown(value) => value,
        }
    }
}

/// The software that produced the book.
#[derive(Debug, Clone, Copy, PartialEq, Eq, Structural)]
pub enum CreatorSoftware {
    MobiGen,
    MobipocketCreator,
    KindleGenWindows,
    KindleGenLinux,
    KindleGenMac,
    Unknown(u32),
}

/// The `CreatorSoftware` that stands for a raw code.
pub open spec fn spec_creator_software_from(value: u32) -> CreatorSoftware {
    if value == 1u32 {
        CreatorSoftware::MobiGen
    } else if value == 2u32 {
        CreatorSoftware::MobipocketCreator
    } else if value == 200u32 {
        CreatorSoftware::KindleGenWindows
    } else if value == 201u32 {
        CreatorSoftware::KindleGenLinux
    } else if value == 202u32 {
        CreatorSoftware::KindleGenMac
    } else {
        CreatorSoftware::Unknown(value)
    }
}

/// The raw code that a `CreatorSoftware` stands for.
pub open spec fn spec_creator_software_value(c: CreatorSoftware) -> u32 {
    match c {
        CreatorSoftware::MobiGen => 1u32,
        CreatorSoftware::MobipocketCreator => 2u32,
        CreatorSoftware::KindleGenWindows => 200u32,
        CreatorSoftware::KindleGenLinux => 201u32,
        CreatorSoftware::KindleGenMac => 202u32,
        CreatorSoftware::Unknown(value) => value,
    }
}

impl CreatorSoftware {
    /// The variant for a raw code.
    pub fn from(value: u32) -> (r: CreatorSoftware)
        ensures
            r == spec_creator_software_from(value),
    {
        if value == 1u32 {
            CreatorSoftware::MobiGen
        } else if value == 2u32 {
            CreatorSoftware::MobipocketCreator
        } else if value == 200u32 {
            CreatorSoftware::KindleGenWindows
        } else if value == 201u32 {
            CreatorSoftware::KindleGenLinux
        } else if value == 202u32 {
            CreatorSoftware::KindleGenMac
        } else {
            CreatorSoftware::Unknown(value)
        }
    }

    /// The raw code this value stands for.
    pub fn value(&self) -> (r: u32)
        ensures
            r == spec_creator_software_value(*self),
    {
        match *self {
            CreatorSoftware::MobiGen => 1u32,
            CreatorSoftware::MobipocketCreator => 2u32,
            CreatorSoftware::KindleGenWindows => 200u32,
            CreatorSoftware::KindleGenLinux => 201u32,
            CreatorSoftware::KindleGenMac => 202u32,
            CreatorSoftware::Unknown(value) => value,
        }
    }
}

/// One decoded tag record. String-valued tags carry their raw bytes:
/// interpreting them as text is the caller's concern, not this decoder's.
#[derive(Debug, Clone, PartialEq, Eq)]
pub enum ExthTag {
    Contributor(Vec<u8>),
    Language(Language),
    UpdatedTitle(Vec<u8>),
    Author(Vec<u8>),
    Publisher(Vec<u8>),
    ASIN(Vec<u8>),
    Source(Vec<u8>),
    CDEType(Vec<u8>),
    PublishingDate(Vec<u8>),
    CreatorSoftware(CreatorSoftware),
    CreatorMajorVersion(u32),
    CreatorMinorVersion(u32),
    CreatorBuildNumber(u32),
    CoverOffset(u32),
    HasFakeCover(bool),
    ThumbnailOffset(u32),
    KF8CoverURI(Vec<u8>),
    StartReadingAtOffset(u32),
    UsedButUnknown(u32),
    /// A code with no typed interpretation: the code and its raw payload
    /// bytes are preserved verbatim.
    Unhandled { tag_type: ExthType, data: Vec<u8> },
}

/// The mathematical value of an [`ExthTag`].
pub enum ExthTagView {
    Contributor(Seq<u8>),
    Language(Language),
    UpdatedTitle(Seq<u8>),
    Author(Seq<u8>),
    Publisher(Seq<u8>),
    ASIN(Seq<u8>),
    Source(Seq<u8>),
    CDEType(Seq<u8>),
    PublishingDate(Seq<u8>),
    CreatorSoftware(CreatorSoftware),
    CreatorMajorVersion(u32),
    CreatorMinorVersion(u32),
    CreatorBuildNumber(u32),
    CoverOffset(u32),
    HasFakeCover(bool),
    ThumbnailOffset(u32),
    KF8CoverURI(Seq<u8>),
    StartReadingAtOffset(u32),
    UsedButUnknown(u32),
    Unhandled { tag_type: ExthType, data: Seq<u8> },
}

impl View for ExthTag {
    type V = ExthTagView;

    open spec fn view(&self) -> ExthTagView {
        match self {
            ExthTag::Contributor(v) => ExthTagView::Contributor(v@),
            ExthTag::Language(l) => ExthTagView::Language(*l),
            ExthTag::UpdatedTitle(v) => ExthTagView::UpdatedTitle(v@),
            ExthTag::Author(v) => ExthTagView::Author(v@),
            ExthTag::Publisher(v) => ExthTagView::Publisher(v@),
            ExthTag::ASIN(v) => ExthTagView::ASIN(v@),
            ExthTag::Source(v) => ExthTagView::Source(v@),
            ExthTag::CDEType(v) => ExthTagView::CDEType(v@),
            ExthTag::PublishingDate(v) => ExthTagView::PublishingDate(v@),
            ExthTag::CreatorSoftware(c) => ExthTagView::CreatorSoftware(*c),
            ExthTag::CreatorMajorVersion(x) => ExthTagView::CreatorMajorVersion(*x),
            ExthTag::CreatorMinorVersion(x) => ExthTagView::CreatorMinorVersion(*x),
            ExthTag::CreatorBuildNumber(x) => ExthTagView::CreatorBuildNumber(*x),
            ExthTag::CoverOffset(x) => ExthTagView::CoverOffset(*x),
            ExthTag::HasFakeCover(b) => ExthTagView::HasFakeCover(*b),
            ExthTag::ThumbnailOffset(x) => ExthTagView::ThumbnailOffset(*x),
            ExthTag::KF8CoverURI(v) => ExthTagView::KF8CoverURI(v@),
            ExthTag::StartReadingAtOffset(x) => ExthTagView::StartReadingAtOffset(*x),
            ExthTag::UsedButUnknown(x) => ExthTagView::UsedButUnknown(*x),
            ExthTag::Unhandled { tag_type, data } => ExthTagView::Unhandled {
                tag_type: *tag_type,
                data: data@,
            },
        }
    }
}

/// The codes whose payload decodes as a string-valued tag (forwarded as raw
/// bytes).
pub open spec fn spec_string_tag_code(code: u32) -> bool {
    code == 100u32 || code == 101u32 || code == 106u32 || code == 108u32 || code == 112u32 || code
        == 113u32 || code == 129u32 || code == 501u32 || code == 503u32
}

/// The codes whose payload decodes as one 32-bit integer (the value is read
/// whatever the record's declared payload length says).
pub open spec fn spec_u32_tag_code(code: u32) -> bool {
    code == 116u32 || code == 131u32 || code == 201u32 || code == 202u32 || code == 203u32 || code
        == 204u32 || code == 205u32 || code == 206u32 || code == 207u32
}

/// The least payload a record of this code can carry: the locale tag holds a
/// 16-bit code, an integer tag a 32-bit value; string-valued and fallback
/// payloads may be empty. A record always spans its whole declared length —
/// the typed value is read from the payload's first bytes and the remainder
/// of the payload is skipped — so a declared payload too short for its typed
/// value cannot be fully read and fails with `Truncated`.
pub open spec fn spec_tag_min_width(code: u32) -> int {
    if code == 524u32 {
        2
    } else if spec_u32_tag_code(code) {
        4
    } else {
        0
    }
}

/// The decoded tag for a record with `code` whose value begins at `q`, with
/// `data_len` declared payload bytes.
pub open spec fn spec_tag_at(s: Seq<u8>, q: int, code: u32, data_len: int) -> ExthTagView {
    if code == 100u32 {
        ExthTagView::Author(s.subrange(q, q + data_len))
    } else if code == 101u32 {
        ExthTagView::Publisher(s.subrange(q, q + data_len))
    } else if code == 106u32 {
        ExthTagView::PublishingDate(s.subrange(q, q + data_len))
    } else if code == 108u32 {
        ExthTagView::Contributor(s.subrange(q, q + data_len))
    } else if code == 112u32 {
        ExthTagView::Source(s.subrange(q, q + data_len))
    } else if code == 113u32 {
        ExthTagView::ASIN(s.subrange(q, q + data_len))
    } else if code == 129u32 {
        ExthTagView::KF8CoverURI(s.subrange(q, q + data_len))
    } else if code == 501u32 {
        ExthTagView::CDEType(s.subrange(q, q + data_len))
    } else if code == 503u32 {
        ExthTagView::UpdatedTitle(s.subrange(q, q + data_len))
    } else if code == 524u32 {
        ExthTagView::Language(spec_language_from(spec_u16_at(s, q) as u32))
    } else if code == 116u32 {
        ExthTagView::StartReadingAtOffset(spec_u32_at(s, q))
    } else if code == 131u32 {
        ExthTagView::UsedButUnknown(spec_u32_at(s, q))
    } else if code == 201u32 {
        ExthTagView::CoverOffset(spec_u32_at(s, q))
    } else if code == 202u32 {
        ExthTagView::ThumbnailOffset(spec_u32_at(s, q))
    } else if code == 203u32 {
        ExthTagView::HasFakeCover(spec_u32_at(s, q) == 1u32)
    } else if code == 204u32 {
        ExthTagView::CreatorSoftware(spec_creator_software_from(spec_u32_at(s, q)))
    } else if code == 205u32 {
        ExthTagView::CreatorMajorVersion(spec_u32_at(s, q))
    } else if code == 206u32 {
        ExthTagView::CreatorMinorVersion(spec_u32_at(s, q))
    } else if code == 207u32 {
        ExthTagView::CreatorBuildNumber(spec_u32_at(s, q))
    } else {
        ExthTagView::Unhandled {
            tag_type: spec_exth_type_from(code),
            data: s.subrange(q, q + data_len),
        }
    }
}

/// Parsing up to `n` tag records at `p` within `bound` remaining bytes of
/// the declared record region. Each record spans exactly its declared
/// length: an 8-byte frame plus `length - 8` payload bytes. A record whose
/// frame or declared length does not fit the bound ends the list without
/// error — the decoder never reads past the bound — while an input that ends
/// mid-record, or a declared payload too short for its typed value, fails
/// with `Truncated`. Yields the tags and the position just past the last
/// full record.
pub open spec fn spec_parse_exth_records(s: Seq<u8>, p: int, n: nat, bound: int) -> Result<
    (Seq<ExthTagView>, int),
    Error,
>
    decreases n,
{
    if n == 0 {
        Ok((Seq::empty(), p))
    } else if bound < 8 {
        Ok((Seq::empty(), p))
    } else if p + 4 > s.len() {
        Err(Error::Truncated { offset: p as usize })
    } else if p + 8 > s.len() {
        Err(Error::Truncated { offset: (p + 4) as usize })
    } else {
        let code = spec_u32_at(s, p);
        let rlen = spec_u32_at(s, p + 4);
        if rlen < 8 {
            Ok((Seq::empty(), p))
        } else {
            let data_len = (rlen - 8) as int;
            if 8 + data_len > bound {
                Ok((Seq::empty(), p))
            } else if p + 8 + data_len > s.len() {
                Err(Error::Truncated { offset: (p + 8) as usize })
            } else if data_len < spec_tag_min_width(code) {
                Err(Error::Truncated { offset: (p + 8) as usize })
            } else {
                let tag = spec_tag_at(s, p + 8, code, data_len);
                match spec_parse_exth_records(
                    s,
                    p + 8 + data_len,
                    (n - 1) as nat,
                    bound - 8 - data_len,
                ) {
                    Err(e) => Err(e),
                    Ok((ts, q)) => Ok((seq![tag] + ts, q)),
                }
            }
        }
    }
}

/// Parsing the whole tagged block at `p`: the 4-byte magic, the declared
/// header length (which includes its own 12-byte frame), the record count,
/// the records within the declared region, and then `header_len % 4` padding
/// bytes right after the last record, exactly as the format's producers and
/// consumers behave. An input that ends before the padding fails with
/// `Truncated` where the padding begins; on success the position rests past
/// the last record and the padding.
pub open spec fn spec_parse_exth(s: Seq<u8>, p: int) -> Result<(Seq<ExthTagView>, int), Error> {
    if p + 4 > s.len() {
        Err(Error::Truncated { offset: p as usize })
    } else if spec_u32_at(s, p) != EXTH_MAGIC {
        Err(Error::BadMagic)
    } else if p + 8 > s.len() {
        Err(Error::Truncated { offset: (p + 4) as usize })
    } else if p + 12 > s.len() {
        Err(Error::Truncated { offset: (p + 8) as usize })
    } else {
        let header_len = spec_u32_at(s, p + 4);
        let count = spec_u32_at(s, p + 8);
        let bound: int = if header_len >= 12 {
            header_len - 12
        } else {
            0
        };
        match spec_parse_exth_records(s, p + 12, count as nat, bound) {
            Err(e) => Err(e),
            Ok((tags, q)) => if q + (header_len as int % 4) > s.len() {
                Err(Error::Truncated { offset: q as usize })
            } else {
                Ok((tags, q + (header_len as int % 4)))
            },
        }
    }
}

/// Parsing one standalone tag record at `p`: the 8-byte frame, then exactly
/// `length - 8` payload bytes, with the typed value taken from the payload's
/// first bytes. A declared length below its own frame, a payload the input
/// does not hold, or a payload too short for its typed value fails with
/// `Truncated` where the payload begins.
pub open spec fn spec_parse_tag(s: Seq<u8>, p: int) -> Result<(ExthTagView, int), Error> {
    if p + 4 > s.len() {
        Err(Error::Truncated { offset: p as usize })
    } else if p + 8 > s.len() {
        Err(Error::Truncated { offset: (p + 4) as usize })
    } else {
        let code = spec_u32_at(s, p);
        let rlen = spec_u32_at(s, p + 4);
        if rlen < 8 {
            Err(Error::Truncated { offset: (p + 8) as usize })
        } else {
            let data_len = (rlen - 8) as int;
            if p + 8 + data_len > s.len() {
                Err(Error::Truncated { offset: (p + 8) as usize })
            } else if data_len < spec_tag_min_width(code) {
                Err(Error::Truncated { offset: (p + 8) as usize })
            } else {
                Ok((spec_tag_at(s, p + 8, code, data_len), p + 8 + data_len))
            }
        }
    }
}

/// Reads the value of one tag record whose 8-byte frame was already read:
/// exactly `data_len` payload bytes, the typed value taken from the
/// payload's first bytes and the remainder skipped.
fn read_tag_value(source: &mut Reader, code: u32, data_len: u32) -> (r: Result<ExthTag, Error>)
    requires
        old(source).wf(),
    ensures
        final(source).wf(),
        final(source).buf@ == old(source).buf@,
        (old(source).pos + data_len <= old(source).buf@.len() && data_len as int
            >= spec_tag_min_width(code)) ==> {
            &&& r matches Ok(t) && t@ == spec_tag_at(
                old(source).buf@,
                old(source).pos as int,
                code,
                data_len as int,
            )
            &&& final(source).pos == old(source).pos + data_len
        },
        (old(source).pos + data_len > old(source).buf@.len() || (data_len as int)
            < spec_tag_min_width(code)) ==> {
            r == Err::<ExthTag, Error>(Error::Truncated { offset: old(source).pos })
        },
{
    if source.buf.len() - source.pos < data_len as usize {
        return Err(Error::Truncated { offset: source.pos });
    }
    if code == 100u32 {
        match source.read_bytes(data_len as usize) {
            Ok(v) => Ok(ExthTag::Author(v)),
            Err(e) => Err(e),
        }
    } else if code == 101u32 {
        match source.read_bytes(data_len as usize) {
            Ok(v) => Ok(ExthTag::Publisher(v)),
            Err(e) => Err(e),
        }
    } else if code == 106u32 {
        match source.read_bytes(data_len as usize) {
            Ok(v) => Ok(ExthTag::PublishingDate(v)),
            Err(e) => Err(e),
        }
    } else if code == 108u32 {
        match source.read_bytes(data_len as usize) {
            Ok(v) => Ok(ExthTag::Contributor(v)),
            Err(e) => Err(e),
        }
    } else if code == 112u32 {
        match source.read_bytes(data_len as usize) {
            Ok(v) => Ok(ExthTag::Source(v)),
            Err(e) => Err(e),
        }
    } else if code == 113u32 {
        match source.read_bytes(data_len as usize) {
            Ok(v) => Ok(ExthTag::ASIN(v)),
            Err(e) => Err(e),
        }
    } else if code == 129u32 {
        match source.read_bytes(data_len as usize) {
            Ok(v) => Ok(ExthTag::KF8CoverURI(v)),
            Err(e) => Err(e),
        }
    } else if code == 501u32 {
        match source.read_bytes(data_len as usize) {
            Ok(v) => Ok(ExthTag::CDEType(v)),
            Err(e) => Err(e),
        }
    } else if code == 503u32 {
        match source.read_bytes(data_len as usize) {
            Ok(v) => Ok(ExthTag::UpdatedTitle(v)),
            Err(e) => Err(e),
        }
    } else if code == 524u32 {
        // The locale tag holds a 16-bit code in the payload's first bytes;
        // the rest of the payload is skipped.
        if data_len < 2 {
            return Err(Error::Truncated { offset: source.pos });
        }
        match source.read_u16_be() {
            Ok(v) => {
                discard(source, (data_len - 2) as usize);
                Ok(ExthTag::Language(Language::from(v as u32)))
            },
            Err(e) => Err(e),
        }
    } else if code == 116u32 || code == 131u32 || code == 201u32 || code == 202u32 || code
        == 203u32 || code == 204u32 || code == 205u32 || code == 206u32 || code == 207u32 {
        // Integer tags hold a 32-bit value in the payload's first bytes; the
        // rest of the payload is skipped.
        if data_len < 4 {
            return Err(Error::Truncated { offset: source.pos });
        }
        match source.read_u32_be() {
            Ok(v) => {
                discard(source, (data_len - 4) as usize);
                if code == 116u32 {
                    Ok(ExthTag::StartReadingAtOffset(v))
                } else if code == 131u32 {
                    Ok(ExthTag::UsedButUnknown(v))
                } else if code == 201u32 {
                    Ok(ExthTag::CoverOffset(v))
                } else if code == 202u32 {
                    Ok(ExthTag::ThumbnailOffset(v))
                } else if code == 203u32 {
                    Ok(ExthTag::HasFakeCover(v == 1u32))
                } else if code == 204u32 {
                    Ok(ExthTag::CreatorSoftware(CreatorSoftware::from(v)))
                } else if code == 205u32 {
                    Ok(ExthTag::CreatorMajorVersion(v))
                } else if code == 206u32 {
                    Ok(ExthTag::CreatorMinorVersion(v))
                } else {
                    Ok(ExthTag::CreatorBuildNumber(v))
                }
            },
            Err(e) => Err(e),
        }
    } else {
        match source.read_bytes(data_len as usize) {
            Ok(v) => Ok(ExthTag::Unhandled { tag_type: ExthType::from(code), data: v }),
            Err(e) => Err(e),
        }
    }
}

impl ExthTag {
    /// Reads one standalone tag record from the cursor: the 8-byte frame and
    /// exactly the declared payload. The result and each failure are exactly
    /// those of [`spec_parse_tag`] at the cursor's old position.
    pub fn read_from(source: &mut Reader) -> (r: Result<ExthTag, Error>)
        requires
            old(source).wf(),
        ensures
            final(source).wf(),
            final(source).buf@ == old(source).buf@,
            match spec_parse_tag(old(source).buf@, old(source).pos as int) {
                Ok((t, end)) => {
                    &&& r matches Ok(tag) && tag@ == t
                    &&& final(source).pos == end
                },
                Err(e) => r == Err::<ExthTag, Error>(e),
            },
    {
        let code = match source.read_u32_be() {
            Ok(v) => v,
            Err(e) => {
                return Err(e);
            },
        };
        let record_len = match source.read_u32_be() {
            Ok(v) => v,
            Err(e) => {
                return Err(e);
            },
        };
        if record_len < 8 {
            return Err(Error::Truncated { offset: source.pos });
        }
        read_tag_value(source, code, record_len - 8)
    }
}

/// Reads a whole tagged metadata block from the cursor. On success the
/// cursor rests past the declared record region and its padding; the tags
/// and each failure are exactly those of [`spec_parse_exth`] at the cursor's
/// old position.
#[verifier::rlimit(50)]
pub fn read_from(source: &mut Reader) -> (r: Result<Vec<ExthTag>, Error>)
    requires
        old(source).wf(),
    ensures
        final(source).wf(),
        final(source).buf@ == old(source).buf@,
        match spec_parse_exth(old(source).buf@, old(source).pos as int) {
            Ok((ts, end)) => {
                &&& r matches Ok(v) && v@.map_values(|t: ExthTag| t@) == ts
                &&& final(source).pos == end
            },
            Err(e) => r == Err::<Vec<ExthTag>, Error>(e),
        },
{
    let ghost s = source.buf@;
    let ghost p = source.pos as int;
    let magic = match source.read_u32_be() {
        Ok(v) => v,
        Err(e) => {
            return Err(e);
        },
    };
    if magic != EXTH_MAGIC {
        return Err(Error::BadMagic);
    }
    let header_len = match source.read_u32_be() {
        Ok(v) => v,
        Err(e) => {
            return Err(e);
        },
    };
    let exth_record_count = match source.read_u32_be() {
        Ok(v) => v,
        Err(e) => {
            return Err(e);
        },
    };
    // The declared length includes its own 12-byte frame; the records live
    // in the remainder.
    let bound: u32 = if header_len >= 12 {
        header_len - 12
    } else {
        0
    };
    let mut bound_left: usize = bound as usize;
    let mut exth_tags: Vec<ExthTag> = Vec::new();
    let mut i: u32 = 0;
    while i < exth_record_count
        invariant_except_break
            source.wf(),
            source.buf@ == s,
            s == old(source).buf@,
            p == old(source).pos as int,
            p + 12 <= s.len(),
            spec_u32_at(s, p) == EXTH_MAGIC,
            header_len == spec_u32_at(s, p + 4),
            exth_record_count == spec_u32_at(s, p + 8),
            bound == (if header_len >= 12 {
                (header_len - 12) as u32
            } else {
                0u32
            }),
            i <= exth_record_count,
            bound_left <= bound,
            match spec_parse_exth_records(
                s,
                source.pos as int,
                (exth_record_count - i) as nat,
                bound_left as int,
            ) {
                Ok((ts, q)) => spec_parse_exth_records(
                    s,
                    p + 12,
                    exth_record_count as nat,
                    bound as int,
                ) == Ok::<(Seq<ExthTagView>, int), Error>(
                    (exth_tags@.map_values(|t: ExthTag| t@) + ts, q),
                ),
                Err(e) => spec_parse_exth_records(s, p + 12, exth_record_count as nat, bound as int)
                    == Err::<(Seq<ExthTagView>, int), Error>(e),
            },
        ensures
            source.wf(),
            source.buf@ == s,
            s == old(source).buf@,
            p == old(source).pos as int,
            p + 12 <= s.len(),
            spec_u32_at(s, p) == EXTH_MAGIC,
            header_len == spec_u32_at(s, p + 4),
            exth_record_count == spec_u32_at(s, p + 8),
            bound == (if header_len >= 12 {
                (header_len - 12) as u32
            } else {
                0u32
            }),
            bound_left <= bound,
            spec_parse_exth_records(s, p + 12, exth_record_count as nat, bound as int) == Ok::<
                (Seq<ExthTagView>, int),
                Error,
            >((exth_tags@.map_values(|t: ExthTag| t@), source.pos as int)),
        decreases exth_record_count - i,
    {
        let ghost rec_start = source.pos as int;
        if bound_left < 8 {
            proof {
                assert(exth_tags@.map_values(|t: ExthTag| t@) + Seq::<ExthTagView>::empty()
                    =~= exth_tags@.map_values(|t: ExthTag| t@));
            }
            break;
        }
        let mut probe = Reader { buf: source.buf, pos: source.pos };
        let code = match probe.read_u32_be() {
            Ok(v) => v,
            Err(e) => {
                return Err(e);
            },
        };
        let record_len = match probe.read_u32_be() {
            Ok(v) => v,
            Err(e) => {
                return Err(e);
            },
        };
        // The declared length includes the 8-byte frame; anything shorter is
        // no full record, so the list ends here.
        if record_len < 8 {
            proof {
                assert(exth_tags@.map_values(|t: ExthTag| t@) + Seq::<ExthTagView>::empty()
                    =~= exth_tags@.map_values(|t: ExthTag| t@));
            }
            break;
        }
        let data_len = record_len - 8;
        // The record spans exactly its declared length; one that does not
        // fit the remaining bound ends the list.
        if data_len as usize > bound_left - 8 {
            proof {
                assert(exth_tags@.map_values(|t: ExthTag| t@) + Seq::<ExthTagView>::empty()
                    =~= exth_tags@.map_values(|t: ExthTag| t@));
            }
            break;
        }
        source.pos = probe.pos;
        let tag = match read_tag_value(source, code, data_len) {
            Ok(v) => v,
            Err(e) => {
                return Err(e);
            },
        };
        let ghost tags_prev = exth_tags@;
        exth_tags.push(tag);
        proof {
            assert(exth_tags@.map_values(|t: ExthTag| t@) =~= tags_prev.map_values(
                |t: ExthTag| t@,
            ).push(tag@));
            match spec_parse_exth_records(
                s,
                source.pos as int,
                (exth_record_count - i - 1) as nat,
                (bound_left - 8 - data_len as usize) as int,
            ) {
                Ok((ts, q)) => {
                    assert(spec_parse_exth_records(
                        s,
                        rec_start,
                        (exth_record_count - i) as nat,
                        bound_left as int,
                    ) == Ok::<(Seq<ExthTagView>, int), Error>((seq![tag@] + ts, q)));
                    assert(tags_prev.map_values(|t: ExthTag| t@) + (seq![tag@] + ts)
                        =~= exth_tags@.map_values(|t: ExthTag| t@) + ts);
                },
                Err(e) => {
                    assert(spec_parse_exth_records(
                        s,
                        rec_start,
                        (exth_record_count - i) as nat,
                        bound_left as int,
                    ) == Err::<(Seq<ExthTagView>, int), Error>(e));
                },
            }
        }
        bound_left = bound_left - 8 - data_len as usize;
        i = i + 1;
    }
    // The padding bytes that align the block, read right after the last
    // record; the amount is `header_len % 4`, as the format's consumers
    // compute it. An input that ends before them is truncated.
    let padding = (header_len % 4) as usize;
    if source.buf.len() - source.pos < padding {
        return Err(Error::Truncated { offset: source.pos });
    }
    discard(source, padding);
    Ok(exth_tags)
}

/// Law: a record whose code has no typed interpretation decodes to the
/// fallback variant, preserving the code and the raw payload bytes verbatim.
pub proof fn lemma_unknown_tag_preserves_payload(s: Seq<u8>, q: int, code: u32, data_len: int)
    requires
        !spec_string_tag_code(code),
        !spec_u32_tag_code(code),
        code != 524u32,
    ensures
        spec_tag_at(s, q, code, data_len) == (ExthTagView::Unhandled {
            tag_type: spec_exth_type_from(code),
            data: s.subrange(q, q + data_len),
        }),
{
}

} // verus!
