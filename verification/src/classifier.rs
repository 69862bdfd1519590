//! The verdict on one alignment record: whether it is evidence of a
//! discordant pair, and whether it is evidence of a split read.
//!
//! Each record is judged by itself; nothing is kept from one record to the
//! next. The caller reads the records, has the operation text of the
//! supplementary tag read, and writes each record where the verdict says.

use crate::cigar::{all_supported, CigarOp};
use crate::error::EvidenceError;
use crate::extent::{calculate_min_nonoverlap, extent_of, min_nonoverlap_of};
use crate::record::{AlignmentRecord, DUPLICATE};
use crate::supplementary::{count_of, descriptor_of, symbols_of};
use vstd::prelude::*;

verus! {

/// The flag bits that keep a record out of the discordant evidence by
/// default: a proper pair, an unmapped read, an unmapped mate.
pub const DISCORDANT_MASK: u16 = 0xE;

/// The flag bits of alignments that are noise by default: secondary and
/// supplementary ones.
pub const NOISE_MASK: u16 = 0x900;

/// What the rules are applied with.
#[derive(Clone, Copy, Debug, PartialEq, Eq, Structural)]
pub struct Config {
    /// The largest number of supplementary alignments with which a record
    /// is still looked at as split evidence.
    pub max_supplementary: usize,
    /// Whether records flagged as duplicates are judged at all.
    pub include_duplicates: bool,
    /// The number of query bases that the primary and the supplementary
    /// alignment must each have to themselves.
    pub min_nonoverlap: u32,
    /// Flag bits of which none may be set in discordant evidence.
    pub discordant_mask: u16,
    /// Further flag bits of which none may be set in discordant evidence.
    pub noise_mask: u16,
}

/// Why a record is no split evidence though nothing is wrong with it.
#[derive(Clone, Copy, Debug, PartialEq, Eq, Structural)]
pub enum SkipReason {
    /// The record is a duplicate, and duplicates are left out.
    Duplicate,
    /// The record lists more supplementary alignments than allowed.
    TooManySupplementary,
    /// The two alignments share too much of the fragment.
    Overlapping,
}

/// What became of a record as split evidence.
#[derive(Clone, Copy, Debug, PartialEq, Eq, Structural)]
pub enum SplitOutcome {
    /// The record is split evidence.
    Accepted,
    /// The record is none.
    Skipped(SkipReason),
    /// The record could not be judged. A fatal error ends the run; any
    /// other only keeps the record out of the split evidence.
    Failed(EvidenceError),
}

/// The verdict on a record.
#[derive(Clone, Copy, Debug, PartialEq, Eq, Structural)]
pub struct Verdict {
    /// The record goes, unchanged, to the discordant evidence.
    pub discordant: bool,
    /// Whether the record goes, with the fragment side appended to its
    /// name, to the split evidence.
    pub split: SplitOutcome,
}

/// Whether the record is left out as a duplicate.
pub open spec fn dropped(record: AlignmentRecord, config: Config) -> bool {
    !config.include_duplicates && record.has_flag(DUPLICATE)
}

/// Whether the flag word makes the record discordant evidence: no bit of
/// either mask is set.
pub open spec fn discordant(record: AlignmentRecord, config: Config) -> bool {
    record.flags & config.discordant_mask == 0 && record.flags & config.noise_mask == 0
}

/// What becomes of a record as split evidence, given what reading the
/// operation text of its supplementary tag gave.
///
/// A packed operation of unknown kind fails the record fatally. A
/// malformed tag fails it locally. A record with more listed alignments
/// than allowed is skipped. A record without a readable first
/// supplementary alignment fails locally. Otherwise the record is accepted
/// exactly when its own alignment and the supplementary one each have at
/// least `min_nonoverlap` query bases to themselves.
pub open spec fn split_of(
    record: AlignmentRecord,
    parsed: Option<Seq<(u8, u32)>>,
    config: Config,
) -> SplitOutcome {
    if !all_supported(record.raw_cigar@) {
        SplitOutcome::Failed(EvidenceError::UnsupportedOperation)
    } else {
        match count_of(record.sa) {
            Err(e) => SplitOutcome::Failed(e),
            Ok(n) => if n > config.max_supplementary {
                SplitOutcome::Skipped(SkipReason::TooManySupplementary)
            } else {
                match descriptor_of(record.sa, parsed) {
                    Err(e) => SplitOutcome::Failed(e),
                    Ok(descriptor) => if min_nonoverlap_of(
                        extent_of(record.forward_ops()),
                        extent_of(descriptor.cigar),
                    ) < config.min_nonoverlap {
                        SplitOutcome::Skipped(SkipReason::Overlapping)
                    } else {
                        SplitOutcome::Accepted
                    },
                }
            },
        }
    }
}

/// The verdict on a record: a duplicate that is left out goes nowhere;
/// any other record is judged as discordant evidence and as split
/// evidence, each by itself.
pub open spec fn verdict_of(
    record: AlignmentRecord,
    parsed: Option<Seq<(u8, u32)>>,
    config: Config,
) -> Verdict {
    if dropped(record, config) {
        Verdict { discordant: false, split: SplitOutcome::Skipped(SkipReason::Duplicate) }
    } else {
        Verdict { discordant: discordant(record, config), split: split_of(record, parsed, config) }
    }
}

impl Config {
    /// The usual settings: at most one supplementary alignment,
    /// duplicates left out, twenty unshared bases, and the usual masks.
    pub fn new() -> (config: Config)
        ensures
            config.max_supplementary == 1,
            !config.include_duplicates,
            config.min_nonoverlap == 20,
            config.discordant_mask == DISCORDANT_MASK,
            config.noise_mask == NOISE_MASK,
    {
        Config {
            max_supplementary: 1,
            include_duplicates: false,
            min_nonoverlap: 20,
            discordant_mask: DISCORDANT_MASK,
            noise_mask: NOISE_MASK,
        }
    }
}

impl SplitOutcome {
    pub open spec fn fatal(self) -> bool {
        self matches SplitOutcome::Failed(e) && e.fatal()
    }

    /// Whether the outcome ends the whole run.
    pub fn is_fatal(&self) -> (fatal: bool)
        ensures
            fatal == self.fatal(),
    {
        match self {
            SplitOutcome::Failed(e) => e.is_fatal(),
            _ => false,
        }
    }
}

/// Tells whether a record is left out as a duplicate.
pub fn is_dropped(record: &AlignmentRecord, config: &Config) -> (out: bool)
    ensures
        out == dropped(*record, *config),
{
    !config.include_duplicates && record.is_duplicate()
}

/// Tells whether the flag word makes a record discordant evidence.
pub fn is_discordant(record: &AlignmentRecord, config: &Config) -> (yes: bool)
    ensures
        yes == discordant(*record, *config),
{
    record.flags & config.discordant_mask == 0 && record.flags & config.noise_mask == 0
}

/// Judges a record as split evidence. `parsed` is what reading the text of
/// `cigar_text_to_parse` gave for the record's supplementary tag.
pub fn split_evidence(
    record: &AlignmentRecord,
    parsed: &Option<Vec<(u8, u32)>>,
    config: &Config,
) -> (outcome: SplitOutcome)
    ensures
        outcome == split_of(*record, symbols_of(*parsed), *config),
        outcome.fatal() == !all_supported(record.raw_cigar@),
{
    let rec_cigar: Vec<CigarOp> = match record.forward_cigar_string() {
        Ok(ops) => ops,
        Err(e) => {
            return SplitOutcome::Failed(e);
        },
    };
    match record.count_sa() {
        Ok(n) => {
            if n > config.max_supplementary {
                return SplitOutcome::Skipped(SkipReason::TooManySupplementary);
            }
        },
        Err(e) => {
            return SplitOutcome::Failed(e);
        },
    }
    let sa_cigar: Vec<CigarOp> = match record.first_sa_forward_cigar_string(parsed) {
        Ok(ops) => ops,
        Err(e) => {
            return SplitOutcome::Failed(e);
        },
    };
    if calculate_min_nonoverlap(&rec_cigar, &sa_cigar) < config.min_nonoverlap as u128 {
        SplitOutcome::Skipped(SkipReason::Overlapping)
    } else {
        SplitOutcome::Accepted
    }
}

/// Gives the verdict on a record. `parsed` is what reading the text of
/// `cigar_text_to_parse` gave for the record's supplementary tag.
pub fn classify(record: &AlignmentRecord, parsed: &Option<Vec<(u8, u32)>>, config: &Config) -> (verdict:
    Verdict)
    ensures
        verdict == verdict_of(*record, symbols_of(*parsed), *config),
        dropped(*record, *config) ==> !verdict.discordant && !(verdict.split is Accepted),
{
    if is_dropped(record, config) {
        return Verdict { discordant: false, split: SplitOutcome::Skipped(SkipReason::Duplicate) };
    }
    let discordant: bool = is_discordant(record, config);
    let split: SplitOutcome = split_evidence(record, parsed, config);
    Verdict { discordant, split }
}

/// A duplicate that is left out goes to neither evidence, whatever its
/// flags, its operations and its supplementary tag are.
pub proof fn lemma_duplicate_goes_nowhere(
    record: AlignmentRecord,
    parsed: Option<Seq<(u8, u32)>>,
    config: Config,
)
    requires
        !config.include_duplicates,
        record.has_flag(DUPLICATE),
    ensures
        !verdict_of(record, parsed, config).discordant,
        verdict_of(record, parsed, config).split == SplitOutcome::Skipped(SkipReason::Duplicate),
{
}

/// What split evidence needs: every packed operation is known, the tag
/// lists no more alignments than allowed, its first entry can be read, and
/// the two alignments each have at least the least number of query bases to
/// themselves.
pub open spec fn acceptable(
    record: AlignmentRecord,
    parsed: Option<Seq<(u8, u32)>>,
    config: Config,
) -> bool {
    &&& all_supported(record.raw_cigar@)
    &&& count_of(record.sa) is Ok
    &&& count_of(record.sa)->Ok_0 <= config.max_supplementary
    &&& descriptor_of(record.sa, parsed) is Ok
    &&& min_nonoverlap_of(
        extent_of(record.forward_ops()),
        extent_of(descriptor_of(record.sa, parsed)->Ok_0.cigar),
    ) >= config.min_nonoverlap
}

/// A record is accepted as split evidence exactly when it has all that
/// split evidence needs, and fails fatally exactly when some packed
/// operation is of unknown kind. The rules never fail on I/O: they do none.
pub proof fn lemma_accepted_exactly_when(
    record: AlignmentRecord,
    parsed: Option<Seq<(u8, u32)>>,
    config: Config,
)
    ensures
        split_of(record, parsed, config) is Accepted <==> acceptable(record, parsed, config),
        split_of(record, parsed, config).fatal() <==> !all_supported(record.raw_cigar@),
        split_of(record, parsed, config) != SplitOutcome::Failed(EvidenceError::IoFailure),
{
}

/// Under the usual masks a record is discordant evidence exactly when it
/// is no proper pair, is mapped, has a mapped mate, and is neither a
/// secondary nor a supplementary alignment: when no bit of 2318 is set.
pub proof fn lemma_usual_masks(record: AlignmentRecord, config: Config)
    requires
        config.discordant_mask == DISCORDANT_MASK,
        config.noise_mask == NOISE_MASK,
    ensures
        discordant(record, config) == (record.flags & 2318 == 0),
{
    let f = record.flags;
    assert((f & 0xE == 0 && f & 0x900 == 0) == (f & 2318 == 0)) by (bit_vector);
}

/// The two verdicts do not depend on each other: whether a record that is
/// not left out is discordant evidence is a matter of its flag word and
/// the masks alone.
pub proof fn lemma_discordant_by_flags_alone(
    a: AlignmentRecord,
    b: AlignmentRecord,
    parsed_a: Option<Seq<(u8, u32)>>,
    parsed_b: Option<Seq<(u8, u32)>>,
    config: Config,
)
    requires
        a.flags == b.flags,
    ensures
        verdict_of(a, parsed_a, config).discordant == verdict_of(b, parsed_b, config).discordant,
{
}

} // verus!
