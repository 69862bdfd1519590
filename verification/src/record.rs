//! What the evidence rules read of an alignment record.

use crate::cigar::{all_supported, decode_cigar, decoded, orient, oriented, CigarOp};
use crate::error::EvidenceError;
use crate::supplementary::{
    count_of, count_sa, descriptor_of, first_descriptor, symbols_of, text_to_parse, AuxValue,
};
use vstd::prelude::*;

verus! {

/// The read is one of a pair.
pub const PAIRED: u16 = 0x1;

/// The read and its mate are mapped as a proper pair.
pub const PROPER_PAIR: u16 = 0x2;

/// The read itself is unmapped.
pub const UNMAPPED: u16 = 0x4;

/// The mate of the read is unmapped.
pub const MATE_UNMAPPED: u16 = 0x8;

/// The read maps to the reverse strand.
pub const REVERSE: u16 = 0x10;

/// The read is the first of its template.
pub const FIRST_IN_TEMPLATE: u16 = 0x40;

/// The alignment is a secondary one.
pub const SECONDARY: u16 = 0x100;

/// The read is a duplicate.
pub const DUPLICATE: u16 = 0x400;

/// The alignment is a supplementary one.
pub const SUPPLEMENTARY: u16 = 0x800;

/// The fields of an alignment record that the evidence rules read: the
/// flag word, the packed operations, the query name and the value under
/// the supplementary tag.
#[derive(Clone, Debug, PartialEq, Eq)]
pub struct AlignmentRecord {
    pub flags: u16,
    pub raw_cigar: Vec<u32>,
    pub qname: Vec<u8>,
    pub sa: AuxValue,
}

/// What is appended to the query name of split evidence: `_1` for the
/// first read of a template, `_2` for any other.
pub open spec fn side_suffix(first: bool) -> Seq<u8> {
    if first {
        seq![95u8, 49u8]
    } else {
        seq![95u8, 50u8]
    }
}

impl AlignmentRecord {
    /// Whether any bit of `bits` is set in the flag word.
    pub open spec fn has_flag(self, bits: u16) -> bool {
        self.flags & bits != 0
    }

    /// The operations of the record in fragment orientation, where every
    /// packed word has a known kind.
    pub open spec fn forward_ops(self) -> Seq<CigarOp> {
        oriented(decoded(self.raw_cigar@), self.has_flag(REVERSE))
    }

    fn flag_set(&self, bits: u16) -> (set: bool)
        ensures
            set == self.has_flag(bits),
    {
        self.flags & bits != 0
    }

    pub fn is_paired(&self) -> (set: bool)
        ensures
            set == self.has_flag(PAIRED),
    {
        self.flag_set(PAIRED)
    }

    pub fn is_proper_pair(&self) -> (set: bool)
        ensures
            set == self.has_flag(PROPER_PAIR),
    {
        self.flag_set(PROPER_PAIR)
    }

    pub fn is_mate_unmapped(&self) -> (set: bool)
        ensures
            set == self.has_flag(MATE_UNMAPPED),
    {
        self.flag_set(MATE_UNMAPPED)
    }

    pub fn is_reverse(&self) -> (set: bool)
        ensures
            set == self.has_flag(REVERSE),
    {
        self.flag_set(REVERSE)
    }

    pub fn is_first_in_template(&self) -> (set: bool)
        ensures
            set == self.has_flag(FIRST_IN_TEMPLATE),
    {
        self.flag_set(FIRST_IN_TEMPLATE)
    }

    pub fn is_secondary(&self) -> (set: bool)
        ensures
            set == self.has_flag(SECONDARY),
    {
        self.flag_set(SECONDARY)
    }

    pub fn is_duplicate(&self) -> (set: bool)
        ensures
            set == self.has_flag(DUPLICATE),
    {
        self.flag_set(DUPLICATE)
    }

    pub fn is_supplementary(&self) -> (set: bool)
        ensures
            set == self.has_flag(SUPPLEMENTARY),
    {
        self.flag_set(SUPPLEMENTARY)
    }

    /// Unpacks the operations of the record and puts them into fragment
    /// orientation: back to front for a reverse-strand read. Fails, with
    /// `UnsupportedOperation`, exactly when a packed word has an unknown
    /// kind.
    pub fn forward_cigar_string(&self) -> (ops: Result<Vec<CigarOp>, EvidenceError>)
        ensures
            ops.is_ok() == all_supported(self.raw_cigar@),
            ops matches Ok(v) ==> v@ == self.forward_ops(),
            ops matches Err(e) ==> e == EvidenceError::UnsupportedOperation,
    {
        match decode_cigar(&self.raw_cigar) {
            Ok(raw_ops) => Ok(orient(&raw_ops, self.is_reverse())),
            Err(e) => Err(e),
        }
    }

    /// Counts the supplementary alignments that the record lists.
    pub fn count_sa(&self) -> (count: Result<usize, EvidenceError>)
        ensures
            count.is_ok() == !(self.sa is Other),
            count matches Ok(n) ==> count_of(self.sa) == Ok::<nat, EvidenceError>(n as nat),
            count matches Err(e) ==> e == EvidenceError::MalformedTag,
    {
        count_sa(&self.sa)
    }

    /// The operations of the first supplementary alignment in fragment
    /// orientation, given what reading their text gave; the errors are
    /// those of `first_descriptor`.
    pub fn first_sa_forward_cigar_string(&self, parsed: &Option<Vec<(u8, u32)>>) -> (ops: Result<
        Vec<CigarOp>,
        EvidenceError,
    >)
        ensures
            ops.is_ok() == descriptor_of(self.sa, symbols_of(*parsed)).is_ok(),
            ops matches Ok(v) ==> v@ == descriptor_of(self.sa, symbols_of(*parsed)).unwrap().cigar,
            ops matches Err(e) ==> descriptor_of(self.sa, symbols_of(*parsed)) is Err && e
                == descriptor_of(self.sa, symbols_of(*parsed))->Err_0,
            text_to_parse(self.sa) is None ==> ops is Err,
    {
        match first_descriptor(&self.sa, parsed) {
            Ok(descriptor) => Ok(descriptor.cigar),
            Err(e) => Err(e),
        }
    }

    /// Appends the side of the fragment to the query name, `_1` for the
    /// first read of a template and `_2` for any other, and changes nothing
    /// else.
    pub fn mark_fragment_side(&mut self)
        ensures
            final(self).qname@ == old(self).qname@ + side_suffix(
                old(self).has_flag(FIRST_IN_TEMPLATE),
            ),
            final(self).flags == old(self).flags,
            final(self).raw_cigar == old(self).raw_cigar,
            final(self).sa == old(self).sa,
    {
        let first: bool = self.is_first_in_template();
        self.qname.push(95u8);
        if first {
            self.qname.push(49u8);
        } else {
            self.qname.push(50u8);
        }
        assert(self.qname@ =~= old(self).qname@ + side_suffix(first));
    }
}

} // verus!
