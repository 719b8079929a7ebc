//! Byte-addressable storage and the typed address ranges carved out of it.

use vstd::prelude::*;

verus! {

/// What a region of memory holds.
#[derive(Debug, Clone, Copy, PartialEq, Eq, Structural)]
pub enum SectionType {
    Data,
    Code,
}

/// The largest number of bytes a memory holds.
pub const MAX_MEMORY: usize = 0xffff_ffff;

/// The smaller of `n` and `max`.
pub fn clamp(n: usize, max: usize) -> (r: usize)
    ensures
        r == if n > max { max } else { n },
{
    if n > max {
        max
    } else {
        n
    }
}

/// The bounds of the regions of one kind, in the order in which the regions
/// were declared.
pub open spec fn ranges_of(regions: Seq<(SectionType, usize, usize)>, kind: SectionType) -> Seq<
    (usize, usize),
> {
    regions.filter(|r: (SectionType, usize, usize)| r.0 == kind).map_values(
        |r: (SectionType, usize, usize)| (r.1, r.2),
    )
}

/// Declaring one more region adds its bounds at the end of the ranges of its
/// own kind and leaves the ranges of the other kind as they were.
pub proof fn lemma_ranges_of_push(
    regions: Seq<(SectionType, usize, usize)>,
    region: (SectionType, usize, usize),
    kind: SectionType,
)
    ensures
        ranges_of(regions.push(region), kind) == if region.0 == kind {
            ranges_of(regions, kind).push((region.1, region.2))
        } else {
            ranges_of(regions, kind)
        },
{
    reveal(Seq::filter);
    let keep = |r: (SectionType, usize, usize)| r.0 == kind;
    assert(regions.push(region).drop_last() =~= regions);
    assert(regions.push(region).filter(keep) == if region.0 == kind {
        regions.filter(keep).push(region)
    } else {
        regions.filter(keep)
    });
    assert(ranges_of(regions.push(region), kind) =~= if region.0 == kind {
        ranges_of(regions, kind).push((region.1, region.2))
    } else {
        ranges_of(regions, kind)
    });
}

/// A flat memory and the regions declared over it.
///
/// A region is a kind, a start offset and an end offset, the end exclusive.
/// Nothing ties the regions to the length of the memory or to each other:
/// they are kept as they were declared.
#[derive(Debug)]
pub struct Memory {
    pub memory: Vec<u8>,
    pub regions: Vec<(SectionType, usize, usize)>,
}

impl Memory {
    /// A zero-filled memory of `size` bytes, `size` taken as 0 when absent
    /// and capped at `MAX_MEMORY`. Without `regions` the whole memory is one
    /// data region.
    pub fn new(size: Option<usize>, regions: Option<Vec<(SectionType, usize, usize)>>) -> (m: Self)
        ensures
            m.memory@ == Seq::new(Self::capped(size) as nat, |i: int| 0u8),
            m.regions@ == match regions {
                Some(declared) => declared@,
                None => seq![(SectionType::Data, 0usize, Self::capped(size))],
            },
    {
        let wanted: usize = match size {
            Some(n) => n,
            None => 0,
        };
        let len: usize = clamp(wanted, MAX_MEMORY);
        let memory: Vec<u8> = vec![0u8; len];
        let regions: Vec<(SectionType, usize, usize)> = match regions {
            Some(declared) => declared,
            None => vec![(SectionType::Data, 0, len)],
        };
        Memory { memory, regions }
    }

    /// The length of a memory made for `size` bytes.
    pub open spec fn capped(size: Option<usize>) -> usize {
        match size {
            Some(n) => if n > MAX_MEMORY {
                MAX_MEMORY
            } else {
                n
            },
            None => 0,
        }
    }

    /// The bounds of the regions of kind `stype`: those and no others, in
    /// the order of declaration.
    pub fn get_range(&self, stype: SectionType) -> (ranges: Vec<(usize, usize)>)
        ensures
            ranges@ == ranges_of(self.regions@, stype),
    {
        let mut ranges: Vec<(usize, usize)> = Vec::new();
        let mut i: usize = 0;
        while i < self.regions.len()
            invariant
                i <= self.regions.len(),
                ranges@ == ranges_of(self.regions@.take(i as int), stype),
            decreases self.regions.len() - i,
        {
            let region = self.regions[i];
            proof {
                lemma_ranges_of_push(self.regions@.take(i as int), region, stype);
                assert(self.regions@.take(i as int).push(region) =~= self.regions@.take(i + 1));
            }
            if region.0 == stype {
                ranges.push((region.1, region.2));
            }
            i = i + 1;
        }
        proof {
            assert(self.regions@.take(i as int) =~= self.regions@);
        }
        ranges
    }
}

impl Default for Memory {
    /// An empty memory with no region declared.
    fn default() -> (m: Self)
        ensures
            m.memory@ == Seq::<u8>::empty(),
            m.regions@ == Seq::<(SectionType, usize, usize)>::empty(),
    {
        Memory { memory: Vec::new(), regions: Vec::new() }
    }
}

} // verus!
