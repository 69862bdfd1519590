//! Acceptance criteria for a run of sequenced reads: how many read pairs and
//! bases were seen, and whether the thresholds asked for were reached.

use vstd::prelude::*;

verus! {

/// Counters of a read set and the checks derived from them.
#[derive(Debug)]
pub struct Criteria {
    pub base_number: u64,
    pub read1_base_number: u64,
    pub read2_base_number: u64,
    pub pair_readed: u32,
    pub c_reads: bool,
    pub c_base: bool,
    pub c_format: bool,
    pub summary: bool,
}

impl Criteria {
    /// Nothing counted and no check passed.
    pub open spec fn is_blank(self) -> bool {
        &&& self.base_number == 0
        &&& self.read1_base_number == 0
        &&& self.read2_base_number == 0
        &&& self.pair_readed == 0
        &&& !self.c_reads
        &&& !self.c_base
        &&& !self.c_format
        &&& !self.summary
    }

    /// The counters of `self`, which no check changes.
    pub open spec fn counters(self) -> (u64, u64, u64, u32) {
        (self.base_number, self.read1_base_number, self.read2_base_number, self.pair_readed)
    }

    pub fn new() -> (fresh: Self)
        ensures
            fresh.is_blank(),
    {
        Self {
            base_number: 0u64,
            read1_base_number: 0u64,
            read2_base_number: 0u64,
            pair_readed: 0u32,
            c_reads: false,
            c_base: false,
            c_format: false,
            summary: false,
        }
    }

    /// The overall verdict holds exactly when all three checks hold.
    pub fn sum(&mut self)
        ensures
            final(self).summary == (old(self).c_reads && old(self).c_base && old(self).c_format),
            final(self).counters() == old(self).counters(),
            final(self).c_reads == old(self).c_reads,
            final(self).c_base == old(self).c_base,
            final(self).c_format == old(self).c_format,
    {
        self.summary = self.c_reads && self.c_base && self.c_format
    }

    /// The read check holds exactly when at least `num` pairs were read.
    pub fn set_reads_when(&mut self, num: u32)
        ensures
            final(self).c_reads == (old(self).pair_readed >= num),
            final(self).counters() == old(self).counters(),
            final(self).c_base == old(self).c_base,
            final(self).c_format == old(self).c_format,
            final(self).summary == old(self).summary,
    {
        self.c_reads = self.pair_readed >= num
    }

    /// The base check holds exactly when at least `num` bases were read.
    pub fn set_base_when(&mut self, num: u64)
        ensures
            final(self).c_base == (old(self).base_number >= num),
            final(self).counters() == old(self).counters(),
            final(self).c_reads == old(self).c_reads,
            final(self).c_format == old(self).c_format,
            final(self).summary == old(self).summary,
    {
        self.c_base = self.base_number >= num
    }

    /// Judges the counters against the least numbers of pairs and of bases
    /// asked for: sets the read check and the base check, and from them and
    /// the format check the overall verdict.
    pub fn conclude(&mut self, read_limit: u32, base_limit: u64)
        ensures
            final(self).c_reads == (old(self).pair_readed >= read_limit),
            final(self).c_base == (old(self).base_number >= base_limit),
            final(self).c_format == old(self).c_format,
            final(self).summary == (old(self).pair_readed >= read_limit && old(self).base_number
                >= base_limit && old(self).c_format),
            final(self).counters() == old(self).counters(),
    {
        self.set_reads_when(read_limit);
        self.set_base_when(base_limit);
        self.sum();
    }

    /// Records whether the input was well formed.
    pub fn set_format(&mut self, state: bool)
        ensures
            final(self).c_format == state,
            final(self).counters() == old(self).counters(),
            final(self).c_reads == old(self).c_reads,
            final(self).c_base == old(self).c_base,
            final(self).summary == old(self).summary,
    {
        self.c_format = state
    }
}

} // verus!
