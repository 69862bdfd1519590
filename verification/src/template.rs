//! The fields of an alignment record that describe its template: where the
//! read and its mate lie, the signed template length and the flag word.

use vstd::prelude::*;

verus! {

/// Flag bits of a read that is paired, mapped in a proper pair and first
/// in its template.
pub const P_FLAG: u16 = 0x43;

/// Flag bits of a secondary or a supplementary alignment.
pub const N_FLAG: u16 = 0x900;

/// The template fields of one alignment record.
pub struct Record {
    ref_id: i32,
    mate_ref_id: i32,
    tlen: i32,
    flag: u16,
}

impl Record {
    pub closed spec fn spec_flag(self) -> u16 {
        self.flag
    }

    pub closed spec fn spec_tlen(self) -> i32 {
        self.tlen
    }

    pub closed spec fn spec_ref_id(self) -> i32 {
        self.ref_id
    }

    pub closed spec fn spec_mate_ref_id(self) -> i32 {
        self.mate_ref_id
    }

    /// Whether the record takes part in the insert-size statistics: a first
    /// read of a proper pair, neither secondary nor supplementary, whose
    /// mate lies on the same reference.
    pub open spec fn counts(self) -> bool {
        &&& self.spec_flag() & P_FLAG == P_FLAG
        &&& self.spec_flag() & N_FLAG == 0
        &&& self.spec_ref_id() == self.spec_mate_ref_id()
    }

    /// The insert size: the magnitude of the template length.
    pub open spec fn insert_size(self) -> nat {
        if self.spec_tlen() < 0 {
            (-(self.spec_tlen() as int)) as nat
        } else {
            self.spec_tlen() as nat
        }
    }

    /// A record with every field zero.
    pub fn new() -> (blank: Self)
        ensures
            blank.spec_flag() == 0,
            blank.spec_tlen() == 0,
            blank.spec_ref_id() == 0,
            blank.spec_mate_ref_id() == 0,
    {
        Record { ref_id: 0, mate_ref_id: 0, tlen: 0, flag: 0 }
    }

    pub fn flag(&self) -> (v: &u16)
        ensures
            *v == self.spec_flag(),
    {
        &self.flag
    }

    pub fn set_flag(&mut self, v: u16)
        ensures
            final(self).spec_flag() == v,
            final(self).spec_tlen() == old(self).spec_tlen(),
            final(self).spec_ref_id() == old(self).spec_ref_id(),
            final(self).spec_mate_ref_id() == old(self).spec_mate_ref_id(),
    {
        self.flag = v
    }

    pub fn tlen(&self) -> (v: &i32)
        ensures
            *v == self.spec_tlen(),
    {
        &self.tlen
    }

    pub fn set_tlen(&mut self, v: i32)
        ensures
            final(self).spec_tlen() == v,
            final(self).spec_flag() == old(self).spec_flag(),
            final(self).spec_ref_id() == old(self).spec_ref_id(),
            final(self).spec_mate_ref_id() == old(self).spec_mate_ref_id(),
    {
        self.tlen = v
    }

    pub fn ref_id(&self) -> (v: &i32)
        ensures
            *v == self.spec_ref_id(),
    {
        &self.ref_id
    }

    pub fn set_ref_id(&mut self, v: i32)
        ensures
            final(self).spec_ref_id() == v,
            final(self).spec_flag() == old(self).spec_flag(),
            final(self).spec_tlen() == old(self).spec_tlen(),
            final(self).spec_mate_ref_id() == old(self).spec_mate_ref_id(),
    {
        self.ref_id = v
    }

    pub fn mate_ref_id(&self) -> (v: &i32)
        ensures
            *v == self.spec_mate_ref_id(),
    {
        &self.mate_ref_id
    }

    pub fn set_mate_ref_id(&mut self, v: i32)
        ensures
            final(self).spec_mate_ref_id() == v,
            final(self).spec_flag() == old(self).spec_flag(),
            final(self).spec_tlen() == old(self).spec_tlen(),
            final(self).spec_ref_id() == old(self).spec_ref_id(),
    {
        self.mate_ref_id = v
    }

    /// The insert size of a record that counts and whose insert size is at
    /// most `upper`; `None` for every other record.
    pub fn counted_insert_size(&self, upper: usize) -> (size: Option<usize>)
        ensures
            size.is_some() == (self.counts() && self.insert_size() <= upper),
            size matches Some(n) ==> n == self.insert_size(),
    {
        if self.flag & P_FLAG != P_FLAG || self.flag & N_FLAG != 0 || self.ref_id
            != self.mate_ref_id {
            return None;
        }
        let wide: i64 = self.tlen as i64;
        let magnitude: u64 = if wide < 0 {
            (0 - wide) as u64
        } else {
            wide as u64
        };
        if magnitude > upper as u64 {
            return None;
        }
        Some(magnitude as usize)
    }
}

} // verus!
