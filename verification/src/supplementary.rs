//! The supplementary-alignment tag of a record: how many alignments it
//! lists, and what the first of them says.
//!
//! The tag is a text of entries, each closed by `;`. An entry is a list of
//! comma-separated fields: reference, position, strand, operations, mapping
//! quality and edit distance, of which the first four are required.
//!
//! The operations of an entry are written in their text form. Reading that
//! text is left to the caller's alignment toolkit: `cigar_text_to_parse`
//! hands out the bytes to be read, and `first_descriptor` takes the letters
//! and lengths that came back.

use crate::bytes::{
    copy_range, count_byte, count_occurrences, ends_in_digit, field, field_start, find_sep,
    has_field, last_is_digit, next_sep,
};
use crate::cigar::{
    all_symbols_known, oriented, ops_from_symbols, ops_of_symbols, orient, CigarOp,
};
use crate::error::EvidenceError;
use vstd::prelude::*;

verus! {

/// The byte that closes an entry of the tag: `;`.
pub const ENTRY_END: u8 = 59;

/// The byte between the fields of an entry: `,`.
pub const FIELD_SEP: u8 = 44;

/// The byte of the forward strand: `+`.
pub const PLUS: u8 = 43;

/// The byte of the reverse strand: `-`.
pub const MINUS: u8 = 45;

/// The value found under the supplementary tag of a record.
#[derive(Clone, Debug, PartialEq, Eq)]
pub enum AuxValue {
    /// The record has no such tag.
    Absent,
    /// The tag holds a text.
    Text(Vec<u8>),
    /// The tag holds a value of another type.
    Other,
}

/// The strand that an alignment maps to.
#[derive(Clone, Copy, Debug, PartialEq, Eq, Structural)]
pub enum Strand {
    Forward,
    Reverse,
}

/// The fields of one entry of the tag, as they are written.
#[derive(Clone, Debug, PartialEq, Eq)]
pub struct SupplementaryEntry {
    pub reference: Vec<u8>,
    pub position: Vec<u8>,
    pub strand: Vec<u8>,
    pub cigar: Vec<u8>,
    pub mapq: Option<Vec<u8>>,
    pub edit_distance: Option<Vec<u8>>,
}

/// One supplementary alignment: where it maps, on which strand, and its
/// operations in fragment orientation. Position, mapping quality and edit
/// distance are kept as written.
#[derive(Clone, Debug, PartialEq, Eq)]
pub struct SupplementaryDescriptor {
    pub reference: Vec<u8>,
    pub position: Vec<u8>,
    pub strand: Strand,
    pub cigar: Vec<CigarOp>,
    pub mapq: Option<Vec<u8>>,
    pub edit_distance: Option<Vec<u8>>,
}

/// An entry as a mathematical value.
pub struct EntryModel {
    pub reference: Seq<u8>,
    pub position: Seq<u8>,
    pub strand: Seq<u8>,
    pub cigar: Seq<u8>,
    pub mapq: Option<Seq<u8>>,
    pub edit_distance: Option<Seq<u8>>,
}

/// A descriptor as a mathematical value.
pub struct DescriptorModel {
    pub reference: Seq<u8>,
    pub position: Seq<u8>,
    pub strand: Strand,
    pub cigar: Seq<CigarOp>,
    pub mapq: Option<Seq<u8>>,
    pub edit_distance: Option<Seq<u8>>,
}

pub open spec fn text_of(field: Option<Vec<u8>>) -> Option<Seq<u8>> {
    match field {
        Some(v) => Some(v@),
        None => None,
    }
}

pub open spec fn symbols_of(parsed: Option<Vec<(u8, u32)>>) -> Option<Seq<(u8, u32)>> {
    match parsed {
        Some(v) => Some(v@),
        None => None,
    }
}

impl View for SupplementaryEntry {
    type V = EntryModel;

    open spec fn view(&self) -> EntryModel {
        EntryModel {
            reference: self.reference@,
            position: self.position@,
            strand: self.strand@,
            cigar: self.cigar@,
            mapq: text_of(self.mapq),
            edit_distance: text_of(self.edit_distance),
        }
    }
}

impl View for SupplementaryDescriptor {
    type V = DescriptorModel;

    open spec fn view(&self) -> DescriptorModel {
        DescriptorModel {
            reference: self.reference@,
            position: self.position@,
            strand: self.strand,
            cigar: self.cigar@,
            mapq: text_of(self.mapq),
            edit_distance: text_of(self.edit_distance),
        }
    }
}

/// The first entry of a tag text: everything before the first `;`, or the
/// whole text where it holds none.
pub open spec fn first_entry(text: Seq<u8>) -> Seq<u8> {
    text.subrange(0, next_sep(text, ENTRY_END, 0))
}

/// Field `k` of an entry where it has one.
pub open spec fn optional_field(entry: Seq<u8>, k: nat) -> Option<Seq<u8>> {
    if has_field(entry, FIELD_SEP, k) {
        Some(field(entry, FIELD_SEP, k))
    } else {
        None
    }
}

/// The fields of the first entry of a tag text, where it has the four
/// required ones.
pub open spec fn entry_of(text: Seq<u8>) -> Option<EntryModel> {
    let entry = first_entry(text);
    if has_field(entry, FIELD_SEP, 3) {
        Some(
            EntryModel {
                reference: field(entry, FIELD_SEP, 0),
                position: field(entry, FIELD_SEP, 1),
                strand: field(entry, FIELD_SEP, 2),
                cigar: field(entry, FIELD_SEP, 3),
                mapq: optional_field(entry, 4),
                edit_distance: optional_field(entry, 5),
            },
        )
    } else {
        None
    }
}

/// The strand that a strand field names: `+` or `-`, and nothing else.
pub open spec fn strand_of(text: Seq<u8>) -> Option<Strand> {
    if text.len() == 1 && text[0] == PLUS {
        Some(Strand::Forward)
    } else if text.len() == 1 && text[0] == MINUS {
        Some(Strand::Reverse)
    } else {
        None
    }
}

/// The number of supplementary alignments that a tag lists: none for an
/// absent tag, and for a text as many as it holds `;`. A tag of another
/// type is malformed.
pub open spec fn count_of(tag: AuxValue) -> Result<nat, EvidenceError> {
    match tag {
        AuxValue::Absent => Ok(0),
        AuxValue::Text(text) => Ok(count_byte(text@, ENTRY_END)),
        AuxValue::Other => Err(EvidenceError::MalformedTag),
    }
}

/// The operation text of the first entry, where the tag comes as far as
/// having one that can be handed to a reader of such texts: the tag is a
/// text, its first entry has four fields and a strand of `+` or `-`, and the
/// operation text does not break off behind a digit.
pub open spec fn text_to_parse(tag: AuxValue) -> Option<Seq<u8>> {
    match tag {
        AuxValue::Text(text) => match entry_of(text@) {
            Some(entry) => if strand_of(entry.strand).is_some() && !ends_in_digit(entry.cigar) {
                Some(entry.cigar)
            } else {
                None
            },
            None => None,
        },
        _ => None,
    }
}

/// The first supplementary alignment of a tag, given what reading its
/// operation text gave (`None` where the text was refused).
///
/// An absent tag has none. A tag is malformed where it is no text, where
/// its first entry has fewer than four fields, where the strand is neither
/// `+` nor `-`, and where the operation text breaks off behind a digit, was
/// refused, or came back with an unknown letter. Otherwise the descriptor
/// holds the fields as written and the operations in fragment orientation:
/// those of a reverse-strand entry back to front.
pub open spec fn descriptor_of(tag: AuxValue, parsed: Option<Seq<(u8, u32)>>) -> Result<
    DescriptorModel,
    EvidenceError,
> {
    match tag {
        AuxValue::Absent => Err(EvidenceError::MissingSupplementary),
        AuxValue::Other => Err(EvidenceError::MalformedTag),
        AuxValue::Text(text) => match entry_of(text@) {
            None => Err(EvidenceError::MalformedTag),
            Some(entry) => match strand_of(entry.strand) {
                None => Err(EvidenceError::MalformedTag),
                Some(strand) => if ends_in_digit(entry.cigar) {
                    Err(EvidenceError::MalformedTag)
                } else {
                    match parsed {
                        None => Err(EvidenceError::MalformedTag),
                        Some(pairs) => if !all_symbols_known(pairs) {
                            Err(EvidenceError::MalformedTag)
                        } else {
                            Ok(
                                DescriptorModel {
                                    reference: entry.reference,
                                    position: entry.position,
                                    strand: strand,
                                    cigar: oriented(
                                        ops_of_symbols(pairs),
                                        strand == Strand::Reverse,
                                    ),
                                    mapq: entry.mapq,
                                    edit_distance: entry.edit_distance,
                                },
                            )
                        },
                    }
                },
            },
        },
    }
}

/// Counts the supplementary alignments that a tag lists.
pub fn count_sa(tag: &AuxValue) -> (count: Result<usize, EvidenceError>)
    ensures
        count.is_ok() == !(tag is Other),
        count matches Ok(n) ==> count_of(*tag) == Ok::<nat, EvidenceError>(n as nat),
        count matches Err(e) ==> e == EvidenceError::MalformedTag,
{
    match tag {
        AuxValue::Absent => Ok(0),
        AuxValue::Text(text) => Ok(count_occurrences(text, ENTRY_END)),
        AuxValue::Other => Err(EvidenceError::MalformedTag),
    }
}

/// Reads a strand field.
pub fn parse_strand(text: &Vec<u8>) -> (strand: Option<Strand>)
    ensures
        strand == strand_of(text@),
{
    if text.len() == 1 && text[0] == PLUS {
        Some(Strand::Forward)
    } else if text.len() == 1 && text[0] == MINUS {
        Some(Strand::Reverse)
    } else {
        None
    }
}

/// Splits the first entry of a tag text into its fields; `None` exactly
/// when it has fewer than four.
pub fn first_entry_fields(text: &Vec<u8>) -> (fields: Option<SupplementaryEntry>)
    ensures
        fields.is_some() == has_field(first_entry(text@), FIELD_SEP, 3),
        fields matches Some(e) ==> entry_of(text@) == Some(e@),
        fields is None ==> entry_of(text@) is None,
{
    let stop: usize = find_sep(text, ENTRY_END, 0);
    let entry: Vec<u8> = copy_range(text, 0, stop);
    let n: usize = entry.len();
    proof {
        reveal_with_fuel(field_start, 7);
    }
    let end0: usize = find_sep(&entry, FIELD_SEP, 0);
    if end0 == n {
        return None;
    }
    let end1: usize = find_sep(&entry, FIELD_SEP, end0 + 1);
    if end1 == n {
        return None;
    }
    let end2: usize = find_sep(&entry, FIELD_SEP, end1 + 1);
    if end2 == n {
        return None;
    }
    let end3: usize = find_sep(&entry, FIELD_SEP, end2 + 1);
    let reference: Vec<u8> = copy_range(&entry, 0, end0);
    let position: Vec<u8> = copy_range(&entry, end0 + 1, end1);
    let strand: Vec<u8> = copy_range(&entry, end1 + 1, end2);
    let cigar: Vec<u8> = copy_range(&entry, end2 + 1, end3);
    let mut mapq: Option<Vec<u8>> = None;
    let mut edit_distance: Option<Vec<u8>> = None;
    if end3 < n {
        let end4: usize = find_sep(&entry, FIELD_SEP, end3 + 1);
        mapq = Some(copy_range(&entry, end3 + 1, end4));
        if end4 < n {
            let end5: usize = find_sep(&entry, FIELD_SEP, end4 + 1);
            edit_distance = Some(copy_range(&entry, end4 + 1, end5));
        }
    }
    Some(SupplementaryEntry { reference, position, strand, cigar, mapq, edit_distance })
}

/// Hands out the operation text of the first entry, where reading it
/// decides what the first supplementary alignment is. Where this gives
/// `None`, `first_descriptor` does not look at what was read.
pub fn cigar_text_to_parse(tag: &AuxValue) -> (text: Option<Vec<u8>>)
    ensures
        text_of(text) == text_to_parse(*tag),
{
    match tag {
        AuxValue::Text(tag_text) => match first_entry_fields(tag_text) {
            Some(entry) => {
                if parse_strand(&entry.strand).is_some() && !last_is_digit(&entry.cigar) {
                    Some(entry.cigar)
                } else {
                    None
                }
            },
            None => None,
        },
        _ => None,
    }
}

/// Decodes the first supplementary alignment of a tag. `parsed` is what
/// reading the text of `cigar_text_to_parse` gave: letters and lengths, or
/// `None` where the text was refused.
pub fn first_descriptor(tag: &AuxValue, parsed: &Option<Vec<(u8, u32)>>) -> (descriptor: Result<
    SupplementaryDescriptor,
    EvidenceError,
>)
    ensures
        descriptor matches Ok(d) ==> descriptor_of(*tag, symbols_of(*parsed)) == Ok::<
            DescriptorModel,
            EvidenceError,
        >(d@),
        descriptor matches Err(e) ==> descriptor_of(*tag, symbols_of(*parsed)) == Err::<
            DescriptorModel,
            EvidenceError,
        >(e),
        text_to_parse(*tag) is None ==> descriptor is Err,
        (tag is Absent) <==> descriptor == Err::<SupplementaryDescriptor, EvidenceError>(
            EvidenceError::MissingSupplementary,
        ),
{
    let tag_text: &Vec<u8> = match tag {
        AuxValue::Absent => {
            return Err(EvidenceError::MissingSupplementary);
        },
        AuxValue::Other => {
            return Err(EvidenceError::MalformedTag);
        },
        AuxValue::Text(t) => t,
    };
    let entry: SupplementaryEntry = match first_entry_fields(tag_text) {
        Some(e) => e,
        None => {
            return Err(EvidenceError::MalformedTag);
        },
    };
    let strand: Strand = match parse_strand(&entry.strand) {
        Some(s) => s,
        None => {
            return Err(EvidenceError::MalformedTag);
        },
    };
    if last_is_digit(&entry.cigar) {
        return Err(EvidenceError::MalformedTag);
    }
    let pairs: &Vec<(u8, u32)> = match parsed {
        Some(p) => p,
        None => {
            return Err(EvidenceError::MalformedTag);
        },
    };
    let raw_ops: Vec<CigarOp> = match ops_from_symbols(pairs) {
        Some(ops) => ops,
        None => {
            return Err(EvidenceError::MalformedTag);
        },
    };
    let reverse: bool = match strand {
        Strand::Forward => false,
        Strand::Reverse => true,
    };
    let cigar: Vec<CigarOp> = orient(&raw_ops, reverse);
    Ok(
        SupplementaryDescriptor {
            reference: entry.reference,
            position: entry.position,
            strand,
            cigar,
            mapq: entry.mapq,
            edit_distance: entry.edit_distance,
        },
    )
}

} // verus!
