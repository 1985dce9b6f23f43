//! The code region of an image in the portable executable format: the
//! first section whose name begins with `.text`. The section table is read
//! by the `pelite` crate, from images whose headers lie at offsets that
//! suit their fields.

use vstd::prelude::*;
use crate::bytes::{
    address_of, half_at, le_half, le_word, starts_with, starts_with_spec, word_at,
};
use crate::region::{RegionError, TextMapRange};

verus! {

/// What the locator reads of one entry of a section table.
#[derive(Clone, Copy, Debug, PartialEq, Eq)]
pub struct PeSection {
    /// The section's name, padded with zero bytes.
    pub name: [u8; 8],
    /// The section's address, relative to the image's base.
    pub virtual_address: u32,
    /// The section's size in memory.
    pub virtual_size: u32,
}

/// `pelite::Error`, the error of `pelite`'s readers. It is carried from
/// the reader to where it is answered, and nothing is read of it.
#[verifier::external_type_specification]
#[verifier::external_body]
pub struct ExPeError(pelite::Error);

/// The section table that `pelite` reads from the headers of an image
/// mapped in memory, where it accepts the image.
pub uninterp spec fn pe_section_table(image: Seq<u8>) -> Seq<PeSection>;

/// The offset of the field that holds the offset of the image's headers.
pub const HEADERS_FIELD: usize = 0x3C;

/// The distance from the image's headers to the field that holds the size
/// of the optional header, behind which the section table begins.
pub const OPTIONAL_SIZE_FIELD: usize = 0x14;

/// The least length of an image: that of its first header, which ends
/// with the field at `HEADERS_FIELD`.
pub const FIRST_HEADER_LEN: usize = 0x40;

/// The offset of the image's headers, as its first header gives it.
pub open spec fn headers_offset(image: Seq<u8>) -> int {
    word_at(image, HEADERS_FIELD as int) as int
}

/// The size of the optional header, as the image's headers give it.
pub open spec fn optional_header_size(image: Seq<u8>) -> int {
    half_at(image, headers_offset(image) + OPTIONAL_SIZE_FIELD) as int
}

/// The headers of the image lie where their fields can be read in place:
/// the image holds a first header, the headers that it points to begin on
/// a multiple of 8 and reach to the size of the optional header within the
/// image, and that size is a multiple of 4, so that the section table
/// behind the optional header begins on a multiple of 4.
pub open spec fn headers_aligned_spec(image: Seq<u8>) -> bool {
    &&& image.len() >= FIRST_HEADER_LEN
    &&& headers_offset(image) % 8 == 0
    &&& headers_offset(image) + OPTIONAL_SIZE_FIELD + 2 <= image.len()
    &&& optional_header_size(image) % 4 == 0
}

/// Tests whether the headers of an image lie where their fields can be
/// read in place.
pub fn headers_aligned(image: &[u8]) -> (yes: bool)
    ensures
        yes == headers_aligned_spec(image@),
{
    let len: usize = image.len();
    if len < FIRST_HEADER_LEN {
        return false;
    }
    let offset: usize = le_word(
        image[HEADERS_FIELD],
        image[HEADERS_FIELD + 1],
        image[HEADERS_FIELD + 2],
        image[HEADERS_FIELD + 3],
    ) as usize;
    if offset % 8 != 0 || offset > len - (OPTIONAL_SIZE_FIELD + 2) {
        return false;
    }
    let size: u16 = le_half(image[offset + OPTIONAL_SIZE_FIELD], image[offset + OPTIONAL_SIZE_FIELD + 1]);
    size % 4 == 0
}

/// The multiple that the address of an image must be, for its headers'
/// fields of 8 bytes to be read in place.
pub const IMAGE_ALIGNMENT: usize = 8;

/// An image at this address begins on a multiple of `IMAGE_ALIGNMENT`.
pub fn begins_aligned(address: usize) -> (yes: bool)
    ensures
        yes == (address % IMAGE_ALIGNMENT == 0),
{
    address % IMAGE_ALIGNMENT == 0
}

/// The bytes of `.text`.
pub open spec fn text_prefix() -> Seq<u8> {
    seq![0x2Eu8, 0x74u8, 0x65u8, 0x78u8, 0x74u8]
}

/// The section holds code: its name begins with `.text`.
pub open spec fn is_text_section(section: PeSection) -> bool {
    starts_with_spec(section.name@, text_prefix())
}

/// The index of the first code section among `sections` from index `from`
/// on; the length of `sections` where there is none.
pub open spec fn first_text_section(sections: Seq<PeSection>, from: int) -> int
    decreases sections.len() - from,
{
    if from < 0 || from >= sections.len() {
        sections.len() as int
    } else if is_text_section(sections[from]) {
        from
    } else {
        first_text_section(sections, from + 1)
    }
}

/// The region of the first code section of an image loaded at `base`,
/// where there is one and it fits the address space.
pub open spec fn text_region_spec(sections: Seq<PeSection>, base: usize) -> Result<
    TextMapRange,
    RegionError,
> {
    let i = first_text_section(sections, 0);
    if i >= sections.len() {
        Err(RegionError::NoExecutableSection)
    } else {
        let start = base + sections[i].virtual_address;
        let size = sections[i].virtual_size;
        if start + size <= usize::MAX {
            Ok(TextMapRange { start: start as usize, size: size as usize })
        } else {
            Err(RegionError::NoExecutableSection)
        }
    }
}

/// The first code section comes before every other: no section before it
/// is one, and it is one unless there is none.
pub proof fn lemma_first_text_section_is_least(sections: Seq<PeSection>, from: int)
    requires
        0 <= from <= sections.len(),
    ensures
        from <= first_text_section(sections, from) <= sections.len(),
        first_text_section(sections, from) < sections.len() ==> is_text_section(
            sections[first_text_section(sections, from)],
        ),
        forall|k: int|
            from <= k < first_text_section(sections, from) ==> !is_text_section(
                #[trigger] sections[k],
            ),
    decreases sections.len() - from,
{
    if from < sections.len() && !is_text_section(sections[from]) {
        lemma_first_text_section_is_least(sections, from + 1);
    }
}

/// Reads the section table of a mapped image with
/// `pelite::PeView::from_bytes` and `section_headers`, and hands out each
/// header's `Name`, `VirtualAddress` and `VirtualSize`.
///
/// `pelite` reads the headers and the section table in place, and tests
/// their offsets for multiples of 4 at most. Images whose offsets do not
/// suit the fields are therefore left out.
///
/// Trusted: a table that is handed out is the one that `pelite` reads from
/// these bytes. Whether `pelite` accepts the image also depends on where
/// the bytes lie in memory, so nothing is said of the error.
///
/// `pelite` tests the address of the image for a multiple of 4, where the
/// headers' fields of 8 bytes need a multiple of 8. Where the bytes lie is
/// no property of theirs and cannot be asked for here: `pe_code_region`,
/// the one caller, hands over only an image that it has found to begin on
/// a multiple of `IMAGE_ALIGNMENT`.
#[verifier::external_body]
fn read_section_table(image: &[u8]) -> (table: Result<Vec<PeSection>, pelite::Error>)
    requires
        headers_aligned_spec(image@),
    ensures
        table matches Ok(sections) ==> sections@ == pe_section_table(image@),
{
    let view = pelite::PeView::from_bytes(image)?;
    let headers = view.section_headers().iter();
    Ok(
        headers.map(
            |h| PeSection {
                name: h.Name,
                virtual_address: h.VirtualAddress,
                virtual_size: h.VirtualSize,
            },
        ).collect(),
    )
}

/// Finds the code region among the sections of an image loaded at `base`.
pub fn find_text_section(sections: &[PeSection], base: usize) -> (found: Result<
    TextMapRange,
    RegionError,
>)
    ensures
        found == text_region_spec(sections@, base),
        found matches Ok(range) ==> range.wf(),
{
    let prefix: [u8; 5] = [0x2E, 0x74, 0x65, 0x78, 0x74];
    let mut i: usize = 0;
    while i < sections.len()
        invariant
            i <= sections@.len(),
            prefix@ == text_prefix(),
            first_text_section(sections@, 0) == first_text_section(sections@, i as int),
        decreases sections@.len() - i,
    {
        let section: PeSection = sections[i];
        if starts_with(section.name.as_slice(), prefix.as_slice()) {
            let start: usize = match base.checked_add(section.virtual_address as usize) {
                Some(start) => start,
                None => {
                    return Err(RegionError::NoExecutableSection);
                },
            };
            return match TextMapRange::new(start, section.virtual_size as usize) {
                Some(range) => Ok(range),
                None => Err(RegionError::NoExecutableSection),
            };
        }
        i = i + 1;
    }
    Err(RegionError::NoExecutableSection)
}

/// Finds the code region of the image whose mapped bytes are `image` and
/// which is loaded at `base`.
///
/// The headers are read in place. An image whose headers do not lie where
/// their fields can be read in place gives `MisplacedHeaders`, and no
/// other image does. An image that does not begin on a multiple of
/// `IMAGE_ALIGNMENT` in memory gives `UnreadableImage` without being read,
/// and so does one whose headers cannot be read; an image as the loader
/// has mapped it begins on a page. Else the result is that of
/// `find_text_section` on the image's section table.
pub fn pe_code_region(image: &[u8], base: usize) -> (found: Result<TextMapRange, RegionError>)
    ensures
        found == Err::<TextMapRange, RegionError>(RegionError::MisplacedHeaders)
            <==> !headers_aligned_spec(image@),
        found is Ok || found == Err::<TextMapRange, RegionError>(
            RegionError::NoExecutableSection,
        ) ==> found == text_region_spec(pe_section_table(image@), base),
        found != Err::<TextMapRange, RegionError>(RegionError::ModuleNotFound),
        found matches Ok(range) ==> range.wf(),
{
    if !headers_aligned(image) {
        return Err(RegionError::MisplacedHeaders);
    }
    if !begins_aligned(address_of(image)) {
        return Err(RegionError::UnreadableImage);
    }
    match read_section_table(image) {
        Ok(sections) => find_text_section(sections.as_slice(), base),
        Err(_) => Err(RegionError::UnreadableImage),
    }
}

} // verus!
