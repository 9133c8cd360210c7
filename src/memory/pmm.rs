use vstd::prelude::*;

verus! {

/// Physical frame allocator over a zone of physical memory; it hands out
/// nothing yet.
pub struct PMM {
    zone: std::ops::Range<u64>,
    pages: Vec<u64>,
}

impl PMM {
    pub closed spec fn spec_zone(&self) -> std::ops::Range<u64> {
        self.zone
    }

    pub closed spec fn spec_pages(&self) -> Seq<u64> {
        self.pages@
    }

    /// An allocator over `zone` with no page handed out.
    pub fn new(zone: std::ops::Range<u64>) -> (r: Self)
        ensures
            r.spec_zone() == zone,
            r.spec_pages() == Seq::<u64>::empty(),
    {
        Self { zone, pages: Vec::new() }
    }
}

} // verus!
