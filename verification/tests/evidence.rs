use split_evidence::cigar::CigarOp;
use split_evidence::classifier::{
    classify, is_discordant, is_dropped, split_evidence, Config, SkipReason, SplitOutcome, Verdict,
    DISCORDANT_MASK, NOISE_MASK,
};
use split_evidence::error::EvidenceError;
use split_evidence::extent::{extent, Extent};
use split_evidence::record::{
    AlignmentRecord, DUPLICATE, FIRST_IN_TEMPLATE, MATE_UNMAPPED, PAIRED, PROPER_PAIR, REVERSE,
    SECONDARY, SUPPLEMENTARY, UNMAPPED,
};
use split_evidence::supplementary::{
    cigar_text_to_parse, count_sa, first_descriptor, first_entry_fields, parse_strand, AuxValue,
    Strand, SupplementaryDescriptor, SupplementaryEntry,
};

fn text(s: &str) -> AuxValue {
    AuxValue::Text(s.as_bytes().to_vec())
}

fn bytes(s: &str) -> Vec<u8> {
    s.as_bytes().to_vec()
}

fn packed(code: u32, len: u32) -> u32 {
    (len << 4) | code
}

fn record(flags: u16, raw_cigar: Vec<u32>, sa: AuxValue) -> AlignmentRecord {
    AlignmentRecord { flags, raw_cigar, qname: bytes("read7"), sa }
}

fn with_threshold(min_nonoverlap: u32) -> Config {
    let mut config = Config::new();
    config.min_nonoverlap = min_nonoverlap;
    config
}

#[test]
fn config_defaults() {
    let config = Config::new();
    assert_eq!(config.max_supplementary, 1);
    assert!(!config.include_duplicates);
    assert_eq!(config.min_nonoverlap, 20);
    assert_eq!(config.discordant_mask, DISCORDANT_MASK);
    assert_eq!(config.noise_mask, NOISE_MASK);
    assert_eq!(DISCORDANT_MASK | NOISE_MASK, 2318);
}

// The count is the number of `;` in the tag. Entries are closed by `;`, so
// a tag in the usual form lists as many alignments as it holds `;`, and a
// last entry that is left open is not counted.
#[test]
fn count_is_the_number_of_entry_ends() {
    assert_eq!(count_sa(&AuxValue::Absent), Ok(0));
    assert_eq!(count_sa(&text("a,b,+,5M;c,d,-,3M;")), Ok(2));
    assert_eq!(count_sa(&text("a,b,+,5M;")), Ok(1));
    assert_eq!(count_sa(&text("a,b,+,5M;c,d,-,3M")), Ok(1));
    assert_eq!(count_sa(&text("a,b,+,5M")), Ok(0));
    assert_eq!(count_sa(&text("")), Ok(0));
    assert_eq!(count_sa(&text(";;;")), Ok(3));
}

#[test]
fn count_refuses_a_tag_of_another_type() {
    assert_eq!(count_sa(&AuxValue::Other), Err(EvidenceError::MalformedTag));
    let rec = record(0, vec![], AuxValue::Other);
    assert_eq!(rec.count_sa(), Err(EvidenceError::MalformedTag));
}

#[test]
fn strand_is_plus_or_minus_only() {
    assert_eq!(parse_strand(&bytes("+")), Some(Strand::Forward));
    assert_eq!(parse_strand(&bytes("-")), Some(Strand::Reverse));
    assert_eq!(parse_strand(&bytes("")), None);
    assert_eq!(parse_strand(&bytes("*")), None);
    assert_eq!(parse_strand(&bytes("+-")), None);
}

#[test]
fn entry_fields_of_a_full_entry() {
    assert_eq!(
        first_entry_fields(&bytes("chr1,100,+,40M10S,60,2;chr2,5,-,10S40M,0,1;")),
        Some(SupplementaryEntry {
            reference: bytes("chr1"),
            position: bytes("100"),
            strand: bytes("+"),
            cigar: bytes("40M10S"),
            mapq: Some(bytes("60")),
            edit_distance: Some(bytes("2")),
        })
    );
}

#[test]
fn entry_fields_with_the_optional_ones_missing() {
    assert_eq!(
        first_entry_fields(&bytes("chr1,100,-,40M")),
        Some(SupplementaryEntry {
            reference: bytes("chr1"),
            position: bytes("100"),
            strand: bytes("-"),
            cigar: bytes("40M"),
            mapq: None,
            edit_distance: None,
        })
    );
    assert_eq!(
        first_entry_fields(&bytes(",,,,;x")),
        Some(SupplementaryEntry {
            reference: bytes(""),
            position: bytes(""),
            strand: bytes(""),
            cigar: bytes(""),
            mapq: Some(bytes("")),
            edit_distance: None,
        })
    );
}

#[test]
fn entry_fields_stop_at_the_first_entry() {
    assert_eq!(first_entry_fields(&bytes("chr1,100,+;chr2,5,-,10S40M,0,1;")), None);
    assert_eq!(first_entry_fields(&bytes("")), None);
    assert_eq!(first_entry_fields(&bytes("a,b,c")), None);
    assert_eq!(
        first_entry_fields(&bytes("a,b,c,d,e,f,g,h")),
        Some(SupplementaryEntry {
            reference: bytes("a"),
            position: bytes("b"),
            strand: bytes("c"),
            cigar: bytes("d"),
            mapq: Some(bytes("e")),
            edit_distance: Some(bytes("f")),
        })
    );
}

#[test]
fn text_to_parse_is_the_fourth_field() {
    assert_eq!(cigar_text_to_parse(&text("chr1,100,+,40M10S,60,2;")), Some(bytes("40M10S")));
    assert_eq!(cigar_text_to_parse(&text("chr1,100,-,40M10S")), Some(bytes("40M10S")));
    assert_eq!(cigar_text_to_parse(&text("chr1,100,-,")), Some(bytes("")));
    assert_eq!(cigar_text_to_parse(&text("chr1,100,-,*")), Some(bytes("*")));
}

#[test]
fn text_to_parse_is_withheld_from_a_tag_that_fails_anyway() {
    assert_eq!(cigar_text_to_parse(&AuxValue::Absent), None);
    assert_eq!(cigar_text_to_parse(&AuxValue::Other), None);
    assert_eq!(cigar_text_to_parse(&text("chr1,100,+")), None);
    assert_eq!(cigar_text_to_parse(&text("chr1,100,?,40M")), None);
    assert_eq!(cigar_text_to_parse(&text("chr1,100,+,40M10")), None);
    assert_eq!(cigar_text_to_parse(&text("chr1,100,+,7")), None);
}

#[test]
fn descriptor_of_a_forward_entry() {
    let parsed = Some(vec![(b'M', 40), (b'S', 10)]);
    assert_eq!(
        first_descriptor(&text("chr1,100,+,40M10S,60,2;"), &parsed),
        Ok(SupplementaryDescriptor {
            reference: bytes("chr1"),
            position: bytes("100"),
            strand: Strand::Forward,
            cigar: vec![CigarOp::Match(40), CigarOp::SoftClip(10)],
            mapq: Some(bytes("60")),
            edit_distance: Some(bytes("2")),
        })
    );
}

#[test]
fn descriptor_of_a_reverse_entry_is_flipped() {
    let parsed = Some(vec![(b'S', 10), (b'M', 30), (b'I', 2), (b'M', 8)]);
    assert_eq!(
        first_descriptor(&text("chrX,7,-,10S30M2I8M"), &parsed),
        Ok(SupplementaryDescriptor {
            reference: bytes("chrX"),
            position: bytes("7"),
            strand: Strand::Reverse,
            cigar: vec![
                CigarOp::Match(8),
                CigarOp::Ins(2),
                CigarOp::Match(30),
                CigarOp::SoftClip(10)
            ],
            mapq: None,
            edit_distance: None,
        })
    );
}

#[test]
fn descriptor_of_an_absent_tag_is_missing() {
    assert_eq!(first_descriptor(&AuxValue::Absent, &None), Err(EvidenceError::MissingSupplementary));
    assert_eq!(
        first_descriptor(&AuxValue::Absent, &Some(vec![(b'M', 5)])),
        Err(EvidenceError::MissingSupplementary)
    );
}

#[test]
fn descriptor_of_a_malformed_tag() {
    let parsed = Some(vec![(b'M', 40)]);
    assert_eq!(first_descriptor(&AuxValue::Other, &parsed), Err(EvidenceError::MalformedTag));
    assert_eq!(first_descriptor(&text("chr1,100,+"), &parsed), Err(EvidenceError::MalformedTag));
    assert_eq!(first_descriptor(&text("chr1,100,+;40M"), &parsed), Err(EvidenceError::MalformedTag));
    assert_eq!(first_descriptor(&text("chr1,100,x,40M"), &parsed), Err(EvidenceError::MalformedTag));
    assert_eq!(first_descriptor(&text("chr1,100,,40M"), &parsed), Err(EvidenceError::MalformedTag));
    assert_eq!(first_descriptor(&text("chr1,100,+,40M1"), &parsed), Err(EvidenceError::MalformedTag));
    assert_eq!(first_descriptor(&text("chr1,100,+,40M"), &None), Err(EvidenceError::MalformedTag));
    assert_eq!(
        first_descriptor(&text("chr1,100,+,40M"), &Some(vec![(b'M', 40), (b'?', 1)])),
        Err(EvidenceError::MalformedTag)
    );
}

#[test]
fn forward_cigar_string_follows_the_strand() {
    let raw = vec![packed(0, 40), packed(4, 10)];
    let forward = record(0, raw.clone(), AuxValue::Absent);
    assert_eq!(
        forward.forward_cigar_string(),
        Ok(vec![CigarOp::Match(40), CigarOp::SoftClip(10)])
    );
    let reverse = record(REVERSE, raw, AuxValue::Absent);
    let ops = reverse.forward_cigar_string().unwrap();
    assert_eq!(ops, vec![CigarOp::SoftClip(10), CigarOp::Match(40)]);
    assert_eq!(extent(&ops), Extent { start: 10, end: 50 });
}

#[test]
fn forward_cigar_string_refuses_an_unknown_kind() {
    let rec = record(0, vec![packed(0, 40), packed(12, 10)], AuxValue::Absent);
    assert_eq!(rec.forward_cigar_string(), Err(EvidenceError::UnsupportedOperation));
}

#[test]
fn first_sa_forward_cigar_string_gives_the_oriented_operations() {
    let rec = record(0, vec![], text("chr1,100,-,40M10S,60,0;"));
    assert_eq!(
        rec.first_sa_forward_cigar_string(&Some(vec![(b'M', 40), (b'S', 10)])),
        Ok(vec![CigarOp::SoftClip(10), CigarOp::Match(40)])
    );
    assert_eq!(rec.first_sa_forward_cigar_string(&None), Err(EvidenceError::MalformedTag));
    let bare = record(0, vec![], AuxValue::Absent);
    assert_eq!(
        bare.first_sa_forward_cigar_string(&None),
        Err(EvidenceError::MissingSupplementary)
    );
}

#[test]
fn flag_bits_are_read_one_by_one() {
    let rec = record(PAIRED | REVERSE | DUPLICATE, vec![], AuxValue::Absent);
    assert!(rec.is_paired());
    assert!(rec.is_reverse());
    assert!(rec.is_duplicate());
    assert!(!rec.is_proper_pair());
    assert!(!rec.is_mate_unmapped());
    assert!(!rec.is_first_in_template());
    assert!(!rec.is_secondary());
    assert!(!rec.is_supplementary());
    let other = record(
        PROPER_PAIR | MATE_UNMAPPED | FIRST_IN_TEMPLATE | SECONDARY | SUPPLEMENTARY,
        vec![],
        AuxValue::Absent,
    );
    assert!(!other.is_paired());
    assert!(other.is_proper_pair());
    assert!(other.is_mate_unmapped());
    assert!(other.is_first_in_template());
    assert!(other.is_secondary());
    assert!(other.is_supplementary());
    assert!(!other.is_duplicate());
}

#[test]
fn fragment_side_is_appended_to_the_name() {
    let mut first = record(PAIRED | FIRST_IN_TEMPLATE, vec![packed(0, 5)], text("x"));
    first.mark_fragment_side();
    assert_eq!(first.qname, bytes("read7_1"));
    assert_eq!(first.flags, PAIRED | FIRST_IN_TEMPLATE);
    assert_eq!(first.raw_cigar, vec![packed(0, 5)]);
    assert_eq!(first.sa, text("x"));
    let mut second = record(PAIRED | 0x80, vec![], AuxValue::Absent);
    second.mark_fragment_side();
    assert_eq!(second.qname, bytes("read7_2"));
}

// The primary alignment `10S40M` occupies [10, 50), the supplementary one
// `40M10S` occupies [0, 40): they share 30 bases and each keeps 10.
#[test]
fn split_scenario_depends_on_the_threshold() {
    let rec = record(
        PAIRED | FIRST_IN_TEMPLATE,
        vec![packed(4, 10), packed(0, 40)],
        text("chr1,100,+,40M10S"),
    );
    let parsed = Some(vec![(b'M', 40), (b'S', 10)]);
    assert_eq!(cigar_text_to_parse(&rec.sa), Some(bytes("40M10S")));
    assert_eq!(extent(&rec.forward_cigar_string().unwrap()), Extent { start: 10, end: 50 });
    assert_eq!(
        extent(&rec.first_sa_forward_cigar_string(&parsed).unwrap()),
        Extent { start: 0, end: 40 }
    );
    assert_eq!(
        split_evidence(&rec, &parsed, &with_threshold(20)),
        SplitOutcome::Skipped(SkipReason::Overlapping)
    );
    assert_eq!(split_evidence(&rec, &parsed, &with_threshold(5)), SplitOutcome::Accepted);
    assert_eq!(split_evidence(&rec, &parsed, &with_threshold(10)), SplitOutcome::Accepted);
    assert_eq!(
        split_evidence(&rec, &parsed, &with_threshold(11)),
        SplitOutcome::Skipped(SkipReason::Overlapping)
    );
    assert_eq!(classify(&rec, &parsed, &with_threshold(5)).split, SplitOutcome::Accepted);
}

#[test]
fn duplicate_goes_nowhere_unless_included() {
    let rec = record(
        PAIRED | FIRST_IN_TEMPLATE | DUPLICATE,
        vec![packed(4, 60), packed(0, 40)],
        text("chr1,100,+,60M40S,60,0;"),
    );
    let parsed = Some(vec![(b'M', 60), (b'S', 40)]);
    let config = Config::new();
    assert!(is_dropped(&rec, &config));
    assert_eq!(
        classify(&rec, &parsed, &config),
        Verdict { discordant: false, split: SplitOutcome::Skipped(SkipReason::Duplicate) }
    );
    let corrupt = record(DUPLICATE, vec![packed(15, 1)], AuxValue::Other);
    assert_eq!(
        classify(&corrupt, &None, &config),
        Verdict { discordant: false, split: SplitOutcome::Skipped(SkipReason::Duplicate) }
    );
    let mut including = Config::new();
    including.include_duplicates = true;
    assert!(!is_dropped(&rec, &including));
    assert_eq!(
        classify(&rec, &parsed, &including),
        Verdict { discordant: true, split: SplitOutcome::Accepted }
    );
}

#[test]
fn proper_pair_is_not_discordant() {
    let config = Config::new();
    let proper = record(PAIRED | PROPER_PAIR | FIRST_IN_TEMPLATE, vec![packed(0, 50)], AuxValue::Absent);
    let before = proper.clone();
    assert!(!is_discordant(&proper, &config));
    assert!(!classify(&proper, &None, &config).discordant);
    assert_eq!(proper, before);
    let improper = record(PAIRED | FIRST_IN_TEMPLATE, vec![packed(0, 50)], AuxValue::Absent);
    let before = improper.clone();
    assert!(is_discordant(&improper, &config));
    assert_eq!(
        classify(&improper, &None, &config),
        Verdict { discordant: true, split: SplitOutcome::Failed(EvidenceError::MissingSupplementary) }
    );
    assert_eq!(improper, before);
}

#[test]
fn discordant_needs_every_masked_bit_clear() {
    let config = Config::new();
    for bit in [PROPER_PAIR, UNMAPPED, MATE_UNMAPPED, SECONDARY, SUPPLEMENTARY] {
        let rec = record(PAIRED | bit, vec![], AuxValue::Absent);
        assert!(!is_discordant(&rec, &config));
    }
    for bit in [PAIRED, REVERSE, 0x20, FIRST_IN_TEMPLATE, 0x80, 0x200] {
        let rec = record(bit, vec![], AuxValue::Absent);
        assert!(is_discordant(&rec, &config));
    }
    for flags in 0u16..0x1000 {
        let rec = record(flags, vec![], AuxValue::Absent);
        assert_eq!(is_discordant(&rec, &config), flags & 2318 == 0);
    }
}

#[test]
fn both_evidences_can_hold_of_one_record() {
    let rec = record(
        PAIRED | FIRST_IN_TEMPLATE,
        vec![packed(0, 60), packed(4, 40)],
        text("chr2,900,-,40M60S,60,1;"),
    );
    let parsed = Some(vec![(b'M', 40), (b'S', 60)]);
    assert_eq!(
        classify(&rec, &parsed, &Config::new()),
        Verdict { discordant: true, split: SplitOutcome::Accepted }
    );
}

#[test]
fn too_many_supplementary_alignments_are_skipped() {
    let rec = record(
        PAIRED | PROPER_PAIR,
        vec![packed(0, 60), packed(4, 40)],
        text("chr2,900,+,60S40M,60,1;chr3,5,+,60S40M,60,1;"),
    );
    let parsed = Some(vec![(b'S', 60), (b'M', 40)]);
    assert_eq!(
        classify(&rec, &parsed, &Config::new()),
        Verdict { discordant: false, split: SplitOutcome::Skipped(SkipReason::TooManySupplementary) }
    );
    let mut two = Config::new();
    two.max_supplementary = 2;
    assert_eq!(classify(&rec, &parsed, &two).split, SplitOutcome::Accepted);
}

#[test]
fn local_failures_only_suppress_split_evidence() {
    let config = Config::new();
    let no_tag = record(PAIRED, vec![packed(0, 50)], AuxValue::Absent);
    let outcome = split_evidence(&no_tag, &None, &config);
    assert_eq!(outcome, SplitOutcome::Failed(EvidenceError::MissingSupplementary));
    assert!(!outcome.is_fatal());
    let wrong_type = record(PAIRED, vec![packed(0, 50)], AuxValue::Other);
    let outcome = split_evidence(&wrong_type, &None, &config);
    assert_eq!(outcome, SplitOutcome::Failed(EvidenceError::MalformedTag));
    assert!(!outcome.is_fatal());
    let bad_strand = record(PAIRED, vec![packed(0, 50)], text("chr1,1,.,50M;"));
    assert_eq!(
        split_evidence(&bad_strand, &Some(vec![(b'M', 50)]), &config),
        SplitOutcome::Failed(EvidenceError::MalformedTag)
    );
    assert!(!SplitOutcome::Accepted.is_fatal());
    assert!(!SplitOutcome::Skipped(SkipReason::Overlapping).is_fatal());
}

#[test]
fn unknown_operation_is_fatal_after_the_discordant_verdict() {
    let rec = record(PAIRED, vec![packed(0, 50), packed(9, 1)], text("chr1,1,+,50M;"));
    let verdict = classify(&rec, &Some(vec![(b'M', 50)]), &Config::new());
    assert!(verdict.discordant);
    assert_eq!(verdict.split, SplitOutcome::Failed(EvidenceError::UnsupportedOperation));
    assert!(verdict.split.is_fatal());
}

#[test]
fn disjoint_alignments_keep_their_whole_span() {
    let rec = record(
        PAIRED,
        vec![packed(0, 19), packed(4, 81)],
        text("chr1,1,+,19S81M,60,0;"),
    );
    let parsed = Some(vec![(b'S', 19), (b'M', 81)]);
    assert_eq!(
        split_evidence(&rec, &parsed, &with_threshold(20)),
        SplitOutcome::Skipped(SkipReason::Overlapping)
    );
    assert_eq!(split_evidence(&rec, &parsed, &with_threshold(19)), SplitOutcome::Accepted);
}
