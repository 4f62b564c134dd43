//! The physical-memory-protection table.
//!
//! An entry covers the addresses above the previous boundary up to its own,
//! so a table is only meaningful when its boundaries rise strictly. The
//! table type admits no other.

use vstd::prelude::*;

verus! {

/// Physical addresses are written to the boundary registers shifted right by
/// this many bits.
pub const PMP_SHIFT: u64 = 2;

/// Entries that one configuration register holds.
pub const PMP_ENTRIES: usize = 8;

/// Top-of-range matching with read, write and execute allowed.
pub const PMP_ALL_ACCESS: u8 = 0x0f;

#[derive(Clone, Copy, Debug, PartialEq, Eq, Structural)]
pub struct PmpEntry {
    /// The boundary as the register holds it: the address shifted right.
    pub boundary: u64,
    /// The permission and matching-mode bits of the entry.
    pub flags: u8,
}

#[derive(Clone, Copy, Debug, PartialEq, Eq, Structural)]
pub enum PmpError {
    /// The table already holds as many entries as the hardware has.
    TooMany,
    /// The boundary does not lie above the one before it.
    NotIncreasing,
}

/// Each boundary lies strictly above every earlier one.
pub open spec fn strictly_increasing(entries: Seq<PmpEntry>) -> bool {
    forall|i: int, j: int| 0 <= i < j < entries.len() ==> entries[i].boundary < entries[j].boundary
}

/// The register value of a physical address.
pub open spec fn boundary_of(address: u64) -> u64 {
    address >> PMP_SHIFT
}

/// The entry for a region that ends at `region.0` with flags `region.1`.
pub open spec fn entry_of(region: (u64, u8)) -> PmpEntry {
    PmpEntry { boundary: boundary_of(region.0), flags: region.1 }
}

/// The entries for a list of regions.
pub open spec fn entries_of(regions: Seq<(u64, u8)>) -> Seq<PmpEntry> {
    Seq::new(regions.len(), |i: int| entry_of(regions[i]))
}

/// The configuration word: the flags of entry `i` in byte `i`.
pub open spec fn packed(entries: Seq<PmpEntry>) -> u64
    decreases entries.len(),
{
    if entries.len() == 0 {
        0
    } else {
        packed(entries.drop_last()) | ((entries.last().flags as u64) << ((8 * (entries.len()
            - 1)) as u64))
    }
}

/// An ordered list of entries, at most as many as the hardware has.
#[derive(Debug)]
pub struct PmpTable {
    entries: Vec<PmpEntry>,
}

impl PmpTable {
    pub closed spec fn view(&self) -> Seq<PmpEntry> {
        self.entries@
    }

    /// The table fits the hardware and its boundaries rise strictly.
    pub open spec fn wf(&self) -> bool {
        self@.len() <= PMP_ENTRIES && strictly_increasing(self@)
    }

    pub fn new() -> (table: PmpTable)
        ensures
            table.wf(),
            table@ == Seq::<PmpEntry>::empty(),
    {
        PmpTable { entries: Vec::new() }
    }

    pub fn len(&self) -> (n: usize)
        ensures
            n == self@.len(),
    {
        self.entries.len()
    }

    pub fn entry(&self, index: usize) -> (e: Option<PmpEntry>)
        ensures
            e == if index < self@.len() {
                Some(self@[index as int])
            } else {
                None
            },
    {
        if index < self.entries.len() {
            Some(self.entries[index])
        } else {
            None
        }
    }

    /// Appends the entry for a region that ends at `address`. The entry is
    /// refused, and the table left as it was, when the table is full or the
    /// shifted address is not above the last boundary.
    pub fn push(&mut self, address: u64, flags: u8) -> (done: Result<(), PmpError>)
        requires
            old(self).wf(),
        ensures
            final(self).wf(),
            match done {
                Ok(()) => {
                    &&& old(self)@.len() < PMP_ENTRIES
                    &&& old(self)@.len() > 0 ==> old(self)@.last().boundary < boundary_of(address)
                    &&& final(self)@ == old(self)@.push(entry_of((address, flags)))
                },
                Err(PmpError::TooMany) => {
                    &&& old(self)@.len() == PMP_ENTRIES
                    &&& final(self)@ == old(self)@
                },
                Err(PmpError::NotIncreasing) => {
                    &&& 0 < old(self)@.len() < PMP_ENTRIES
                    &&& boundary_of(address) <= old(self)@.last().boundary
                    &&& final(self)@ == old(self)@
                },
            },
    {
        let n: usize = self.entries.len();
        if n >= PMP_ENTRIES {
            return Err(PmpError::TooMany);
        }
        let boundary: u64 = address >> PMP_SHIFT;
        if n > 0 && boundary <= self.entries[n - 1].boundary {
            return Err(PmpError::NotIncreasing);
        }
        self.entries.push(PmpEntry { boundary, flags });
        Ok(())
    }

    /// The configuration word that covers every entry in one register write.
    pub fn packed_config(&self) -> (word: u64)
        requires
            self.wf(),
        ensures
            word == packed(self@),
    {
        let mut word: u64 = 0;
        let mut i: usize = 0;
        while i < self.entries.len()
            invariant
                i <= self.entries.len() <= PMP_ENTRIES,
                word == packed(self.entries@.take(i as int)),
            decreases self.entries.len() - i,
        {
            assert(self.entries@.take(i + 1).drop_last() =~= self.entries@.take(i as int));
            let shift: u64 = (8 * i) as u64;
            word = word | ((self.entries[i].flags as u64) << shift);
            i = i + 1;
        }
        assert(self.entries@.take(i as int) =~= self.entries@);
        word
    }
}

/// Builds the table for a list of regions, each given by the physical
/// address where it ends and its flags. The list is accepted when it fits
/// the hardware and its shifted boundaries rise strictly; otherwise no table
/// is made.
pub fn configure_pmp(regions: &Vec<(u64, u8)>) -> (made: Result<PmpTable, PmpError>)
    ensures
        match made {
            Ok(table) => {
                &&& table.wf()
                &&& table@ == entries_of(regions@)
            },
            Err(PmpError::TooMany) => regions@.len() > PMP_ENTRIES,
            Err(PmpError::NotIncreasing) => {
                &&& regions@.len() <= PMP_ENTRIES
                &&& !strictly_increasing(entries_of(regions@))
            },
        },
{
    if regions.len() > PMP_ENTRIES {
        return Err(PmpError::TooMany);
    }
    let mut table = PmpTable::new();
    let mut i: usize = 0;
    while i < regions.len()
        invariant
            i <= regions.len() <= PMP_ENTRIES,
            table.wf(),
            table@ == entries_of(regions@).take(i as int),
        decreases regions.len() - i,
    {
        let region = regions[i];
        match table.push(region.0, region.1) {
            Ok(()) => {
                assert(table@ =~= entries_of(regions@).take(i + 1));
            },
            Err(_) => {
                assert(entries_of(regions@)[i - 1] == table@.last());
                assert(entries_of(regions@)[i as int].boundary == boundary_of(region.0));
                return Err(PmpError::NotIncreasing);
            },
        }
        i = i + 1;
    }
    assert(table@ =~= entries_of(regions@));
    Ok(table)
}

/// The regions of the platform's table: five boundaries, all accessible.
pub open spec fn platform_regions() -> Seq<(u64, u8)> {
    seq![
        (0x4000_0000u64, PMP_ALL_ACCESS),
        (0x4020_0000u64, PMP_ALL_ACCESS),
        (0x8000_0000u64, PMP_ALL_ACCESS),
        (0xc000_0000u64, PMP_ALL_ACCESS),
        (0xffff_ffffu64, PMP_ALL_ACCESS),
    ]
}

/// The platform's table.
pub fn init_pmp() -> (table: PmpTable)
    ensures
        table.wf(),
        table@ == entries_of(platform_regions()),
        table@.len() == 5,
        packed(table@) == 0x0f_0f0f_0f0fu64,
{
    let mut table = PmpTable::new();
    assert(0x4000_0000u64 >> 2 == 0x1000_0000u64) by (bit_vector);
    assert(0x4020_0000u64 >> 2 == 0x1008_0000u64) by (bit_vector);
    assert(0x8000_0000u64 >> 2 == 0x2000_0000u64) by (bit_vector);
    assert(0xc000_0000u64 >> 2 == 0x3000_0000u64) by (bit_vector);
    assert(0xffff_ffffu64 >> 2 == 0x3fff_ffffu64) by (bit_vector);
    let r0 = table.push(0x4000_0000, PMP_ALL_ACCESS);
    let r1 = table.push(0x4020_0000, PMP_ALL_ACCESS);
    let r2 = table.push(0x8000_0000, PMP_ALL_ACCESS);
    let r3 = table.push(0xc000_0000, PMP_ALL_ACCESS);
    let r4 = table.push(0xffff_ffff, PMP_ALL_ACCESS);
    assert(table@ =~= entries_of(platform_regions()));
    proof {
        law_platform_config_word();
    }
    table
}

/// Appending an entry puts its flags into the next byte of the
/// configuration word and leaves the bytes below as they were.
pub proof fn law_packed_push(entries: Seq<PmpEntry>, entry: PmpEntry)
    ensures
        packed(entries.push(entry)) == packed(entries) | ((entry.flags as u64) << ((8
            * entries.len()) as u64)),
{
    assert(entries.push(entry).drop_last() =~= entries);
}

/// The platform's five entries pack into the configuration word
/// 0x0f0f0f0f0f.
pub proof fn law_platform_config_word()
    ensures
        packed(entries_of(platform_regions())) == 0x0f_0f0f_0f0fu64,
{
    let all = entries_of(platform_regions());
    let e = |i: int| all[i];
    let s0 = Seq::<PmpEntry>::empty();
    let s1 = s0.push(e(0));
    let s2 = s1.push(e(1));
    let s3 = s2.push(e(2));
    let s4 = s3.push(e(3));
    let s5 = s4.push(e(4));
    assert(s5 =~= all);
    law_packed_push(s0, e(0));
    law_packed_push(s1, e(1));
    law_packed_push(s2, e(2));
    law_packed_push(s3, e(3));
    law_packed_push(s4, e(4));
    assert(0u64 | (0x0fu64 << 0u64) == 0x0fu64) by (bit_vector);
    assert(0x0fu64 | (0x0fu64 << 8u64) == 0x0f0fu64) by (bit_vector);
    assert(0x0f0fu64 | (0x0fu64 << 16u64) == 0x0f_0f0fu64) by (bit_vector);
    assert(0x0f_0f0fu64 | (0x0fu64 << 24u64) == 0x0f0f_0f0fu64) by (bit_vector);
    assert(0x0f0f_0f0fu64 | (0x0fu64 << 32u64) == 0x0f_0f0f_0f0fu64) by (bit_vector);
}

/// In a table that was accepted, every entry's range is not empty: each
/// boundary lies strictly above the one before it.
pub proof fn law_accepted_tables_rise(table: PmpTable, i: int)
    requires
        table.wf(),
        0 < i < table@.len(),
    ensures
        table@[i - 1].boundary < table@[i].boundary,
{
}

/// Two regions out of order anywhere in a list make the list unacceptable:
/// no table is ever made from it.
pub proof fn law_rejected_at_configuration(regions: Seq<(u64, u8)>, i: int, j: int)
    requires
        0 <= i < j < regions.len(),
        boundary_of(regions[j].0) <= boundary_of(regions[i].0),
    ensures
        !strictly_increasing(entries_of(regions)),
{
    assert(entries_of(regions)[i].boundary == boundary_of(regions[i].0));
    assert(entries_of(regions)[j].boundary == boundary_of(regions[j].0));
}

} // verus!
