use vstd::prelude::*;

verus! {

/// Every byte of a block lies below this address.
pub const LOW_MEMORY_CEILING: u64 = 0x1_0000_0000;

/// Why a block could not be had.
#[derive(Debug, Clone, Copy, PartialEq, Eq, Structural)]
pub enum AllocError {
    /// The size is zero, or too large for any place below the ceiling.
    InvalidSize,
    /// No mapping the system handed out lay wholly below the ceiling.
    NoLowMemoryAvailable,
}

/// The sizes a block may have: at least one byte, and below `LOW_MEMORY_CEILING - 1`.
pub open spec fn valid_size(size: nat) -> bool {
    0 < size && size < LOW_MEMORY_CEILING - 1
}

/// Rejects a size before anything is asked of the system.
pub fn check_size(size: usize) -> (r: Result<(), AllocError>)
    ensures
        r is Ok <==> valid_size(size as nat),
        r is Err ==> r == Err::<(), AllocError>(AllocError::InvalidSize),
{
    if size as u64 >= LOW_MEMORY_CEILING - 1 || size == 0 {
        Err(AllocError::InvalidSize)
    } else {
        Ok(())
    }
}

/// Whether a mapping at `address`, `size` bytes long, is usable: not at the null address,
/// and its last byte below the ceiling.
pub open spec fn below_ceiling(address: nat, size: nat) -> bool {
    address != 0 && address + size - 1 < LOW_MEMORY_CEILING
}

/// Decides whether a mapping the system handed out lies wholly in low memory.
pub fn fits_below_ceiling(address: usize, size: usize) -> (r: bool)
    ensures
        r == below_ceiling(address as nat, size as nat),
{
    address != 0 && (address as u64) <= LOW_MEMORY_CEILING && (size as u64) <= LOW_MEMORY_CEILING
        - (address as u64)
}

/// What a block is: where it starts, how long it is, and whether it still owns its mapping.
pub struct BlockView {
    pub start: nat,
    pub size: nat,
    pub mapped: bool,
}

/// One mapping below the ceiling, owned by exactly one handle.
#[derive(Debug)]
pub struct LowMemoryBlock {
    start: usize,
    size: usize,
    mapped: bool,
}

impl View for LowMemoryBlock {
    type V = BlockView;

    closed spec fn view(&self) -> BlockView {
        BlockView { start: self.start as nat, size: self.size as nat, mapped: self.mapped }
    }
}

impl LowMemoryBlock {
    /// A block spans a valid size and lies wholly below the ceiling.
    pub open spec fn wf(self) -> bool {
        valid_size(self@.size) && below_ceiling(self@.start, self@.size)
    }

    /// The start and size that releasing `self` hands back, if any.
    pub open spec fn release_spec(self) -> Option<(usize, usize)> {
        if self@.mapped {
            Some((self@.start as usize, self@.size as usize))
        } else {
            None
        }
    }

    /// The block once released: same place, no longer owning the mapping.
    pub open spec fn released(self) -> BlockView {
        BlockView { mapped: false, ..self@ }
    }

    /// The first address of the block.
    pub fn start(&self) -> (r: usize)
        ensures
            r == self@.start,
    {
        self.start
    }

    /// The number of bytes in the block.
    pub fn size(&self) -> (r: usize)
        ensures
            r == self@.size,
    {
        self.size
    }

    /// Whether the block still owns its mapping.
    pub fn is_mapped(&self) -> (r: bool)
        ensures
            r == self@.mapped,
    {
        self.mapped
    }

    /// The address and length over which the block's byte views are built; none once the
    /// mapping has been released.
    pub fn span(&self) -> (r: Option<(usize, usize)>)
        ensures
            r == self.release_spec(),
    {
        if self.mapped {
            Some((self.start, self.size))
        } else {
            None
        }
    }

    /// Fills a block placed for `data` with a copy of `data`, through `bytes`, the block's
    /// writable view. A failed placement is handed back as it is, and nothing is written.
    pub fn new_from_slice(
        placed: Result<LowMemoryBlock, AllocError>,
        bytes: &mut [u8],
        data: &[u8],
    ) -> (r: Result<LowMemoryBlock, AllocError>)
        requires
            placed is Ok ==> placed->Ok_0.wf() && placed->Ok_0@.mapped && placed->Ok_0@.size
                == data@.len()
                && old(bytes)@.len() == data@.len(),
        ensures
            r == placed,
            placed is Ok ==> final(bytes)@ == data@,
            placed is Err ==> final(bytes)@ == old(bytes)@,
    {
        match placed {
            Ok(block) => {
                let n = data.len();
                let mut i: usize = 0;
                while i < n
                    invariant
                        n == data@.len(),
                        bytes@.len() == n,
                        i <= n,
                        forall|j: int| 0 <= j < i ==> bytes@[j] == data@[j],
                    decreases n - i,
                {
                    bytes[i] = data[i];
                    i = i + 1;
                }
                assert(bytes@ =~= data@);
                Ok(block)
            },
            Err(e) => Err(e),
        }
    }

    /// Gives up the mapping: the first call hands back the start and size to unmap, every
    /// later call hands back nothing.
    pub fn release(&mut self) -> (r: Option<(usize, usize)>)
        ensures
            r == old(self).release_spec(),
            final(self)@ == old(self).released(),
    {
        if self.mapped {
            self.mapped = false;
            Some((self.start, self.size))
        } else {
            None
        }
    }
}

/// How many addresses a placement suggests before it gives up.
pub const CANDIDATE_COUNT: usize = 3;

/// The address suggested to the system on attempt `i`: 4 KiB, 1 MiB, then 1 GiB.
pub open spec fn candidate_hint(i: nat) -> nat {
    if i == 0 {
        0x1000
    } else if i == 1 {
        0x10_0000
    } else {
        0x4000_0000
    }
}

/// The next step of a placement, once the system has answered a request.
#[derive(Debug)]
pub enum Verdict {
    /// The mapping lies below the ceiling: here is the block that owns it.
    Accept(LowMemoryBlock),
    /// The mapping lies above the ceiling: unmap `size` bytes at `address`, then go on.
    Discard { address: usize, size: usize },
    /// Nothing was mapped: go on with the next address.
    Skip,
}

/// Where a placement stands: the size asked for, and how many addresses were tried.
pub struct PlacementView {
    pub size: nat,
    pub attempts: nat,
}

/// The search for a low mapping of one size, one suggested address after another.
/// The caller makes each request of the system and reports what came back.
#[derive(Debug)]
pub struct Placement {
    size: usize,
    attempts: usize,
}

impl View for Placement {
    type V = PlacementView;

    closed spec fn view(&self) -> PlacementView {
        PlacementView { size: self.size as nat, attempts: self.attempts as nat }
    }
}

impl Placement {
    /// A placement asks for a valid size and has made no more attempts than it has addresses.
    pub open spec fn wf(self) -> bool {
        valid_size(self@.size) && self@.attempts <= CANDIDATE_COUNT
    }

    /// What the system's answer `returned` leads to, for a mapping of `size` bytes.
    pub open spec fn verdict_spec(returned: Option<usize>, size: nat, r: Verdict) -> bool {
        match returned {
            Some(a) => if below_ceiling(a as nat, size) {
                r matches Verdict::Accept(b) && b@ == BlockView { start: a as nat, size, mapped: true }
                    && b.wf()
            } else if a != 0 {
                r == Verdict::Discard { address: a, size: size as usize }
            } else {
                r == Verdict::Skip
            },
            None => r == Verdict::Skip,
        }
    }

    /// Starts a placement for `size` bytes; a size no low mapping could hold is refused.
    pub fn new(size: usize) -> (r: Result<Placement, AllocError>)
        ensures
            r is Ok <==> valid_size(size as nat),
            r is Ok ==> r->Ok_0.wf() && r->Ok_0@ == (PlacementView { size: size as nat, attempts: 0 }),
            r is Err ==> r == Err::<Placement, AllocError>(AllocError::InvalidSize),
    {
        match check_size(size) {
            Ok(()) => Ok(Placement { size, attempts: 0 }),
            Err(e) => Err(e),
        }
    }

    /// The size every request of this placement asks for.
    pub fn size(&self) -> (r: usize)
        ensures
            r == self@.size,
    {
        self.size
    }

    /// The address to suggest next, or `NoLowMemoryAvailable` once every one was tried.
    pub fn next_hint(&self) -> (r: Result<usize, AllocError>)
        requires
            self.wf(),
        ensures
            self@.attempts < CANDIDATE_COUNT ==> r == Ok::<usize, AllocError>(
                candidate_hint(self@.attempts) as usize,
            ),
            self@.attempts >= CANDIDATE_COUNT ==> r == Err::<usize, AllocError>(
                AllocError::NoLowMemoryAvailable,
            ),
    {
        if self.attempts == 0 {
            Ok(0x1000)
        } else if self.attempts == 1 {
            Ok(0x10_0000)
        } else if self.attempts == 2 {
            Ok(0x4000_0000)
        } else {
            Err(AllocError::NoLowMemoryAvailable)
        }
    }

    /// Takes the system's answer to the request made at the current address: `None` when
    /// the request failed, else the address of the new mapping.
    pub fn consider(&mut self, returned: Option<usize>) -> (r: Verdict)
        requires
            old(self).wf(),
            old(self)@.attempts < CANDIDATE_COUNT,
        ensures
            final(self).wf(),
            final(self)@ == (PlacementView { attempts: old(self)@.attempts + 1, ..old(self)@ }),
            Placement::verdict_spec(returned, old(self)@.size, r),
    {
        self.attempts = self.attempts + 1;
        match returned {
            Some(address) => {
                if fits_below_ceiling(address, self.size) {
                    Verdict::Accept(LowMemoryBlock { start: address, size: self.size, mapped: true })
                } else if address != 0 {
                    Verdict::Discard { address, size: self.size }
                } else {
                    Verdict::Skip
                }
            },
            None => Verdict::Skip,
        }
    }
}

/// For every valid size, a mapping the system places below the ceiling is accepted as a
/// block of exactly that size at exactly that address, whose byte views share one start and
/// one length, and which lies wholly below the ceiling.
pub proof fn lemma_low_mapping_accepted(size: usize, address: usize, r: Verdict)
    requires
        valid_size(size as nat),
        below_ceiling(address as nat, size as nat),
        Placement::verdict_spec(Some(address), size as nat, r),
    ensures
        r matches Verdict::Accept(b) && b.wf() && b.release_spec() == Some((address, size))
            && b@.start < LOW_MEMORY_CEILING && b@.start + b@.size - 1 < LOW_MEMORY_CEILING,
{
}

/// Releasing a block twice hands back its mapping at most once: the second release
/// hands back nothing.
pub proof fn lemma_release_at_most_once(b: LowMemoryBlock, after: LowMemoryBlock)
    requires
        after@ == b.released(),
    ensures
        after.release_spec() is None,
        after.released() == b.released(),
{
}

/// A well-formed block starts at a non-null address below the ceiling and ends below it.
pub proof fn lemma_block_below_ceiling(b: LowMemoryBlock)
    requires
        b.wf(),
    ensures
        b@.start != 0,
        b@.start < LOW_MEMORY_CEILING,
        b@.start + b@.size - 1 < LOW_MEMORY_CEILING,
{
}

} // verus!
