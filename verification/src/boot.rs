//! The first steps after reset: clearing the uninitialised static region,
//! placing the stack, and the fixed order of the boot stages.

use vstd::prelude::*;

verus! {

/// Bytes in one machine word.
pub const WORD_BYTES: usize = 8;

/// Size of the boot stack in bytes.
pub const STACK_SIZE: usize = 1024;

#[derive(Clone, Copy, Debug, PartialEq, Eq, Structural)]
pub enum BootError {
    /// The region does not lie inside the memory.
    OutOfBounds,
    /// The region is not a whole number of machine words.
    Misaligned,
}

/// `mem` with every byte from `start` up to `end` replaced by zero.
pub open spec fn zeroed(mem: Seq<u8>, start: int, end: int) -> Seq<u8> {
    Seq::new(mem.len(), |i: int| if start <= i < end { 0u8 } else { mem[i] })
}

/// Clears the bytes of `mem` from `start` up to `end`, one machine word at a
/// time, stopping exactly when the cursor reaches `end`. A region that is
/// not made of whole words, or that leaves the memory, is refused and
/// nothing is written.
pub fn zero_fill(mem: &mut Vec<u8>, start: usize, end: usize) -> (done: Result<(), BootError>)
    ensures
        match done {
            Ok(()) => {
                &&& start <= end <= old(mem).len()
                &&& (end - start) % (WORD_BYTES as int) == 0
                &&& final(mem)@ == zeroed(old(mem)@, start as int, end as int)
            },
            Err(BootError::OutOfBounds) => {
                &&& !(start <= end <= old(mem).len())
                &&& final(mem)@ == old(mem)@
            },
            Err(BootError::Misaligned) => {
                &&& start <= end <= old(mem).len()
                &&& (end - start) % (WORD_BYTES as int) != 0
                &&& final(mem)@ == old(mem)@
            },
        },
{
    if start > end || end > mem.len() {
        return Err(BootError::OutOfBounds);
    }
    if (end - start) % WORD_BYTES != 0 {
        return Err(BootError::Misaligned);
    }
    let ghost before = mem@;
    let mut cursor: usize = start;
    while cursor != end
        invariant
            start <= cursor <= end <= mem.len(),
            (end - cursor) % (WORD_BYTES as int) == 0,
            mem@ == zeroed(before, start as int, cursor as int),
            mem.len() == before.len(),
        decreases end - cursor,
    {
        let mut offset: usize = 0;
        while offset < WORD_BYTES
            invariant
                start <= cursor < end <= mem.len(),
                (end - cursor) % (WORD_BYTES as int) == 0,
                offset <= WORD_BYTES,
                mem@ == zeroed(before, start as int, cursor + offset),
                mem.len() == before.len(),
            decreases WORD_BYTES - offset,
        {
            mem.set(cursor + offset, 0);
            offset = offset + 1;
            assert(mem@ =~= zeroed(before, start as int, cursor + offset));
        }
        cursor = cursor + WORD_BYTES;
    }
    assert(mem@ =~= zeroed(before, start as int, end as int));
    Ok(())
}

/// The initial stack pointer for a stack of `size` bytes at `base`: its top,
/// since the stack grows downward. `None` when the top is not an address.
pub fn stack_top(base: usize, size: usize) -> (top: Option<usize>)
    ensures
        top == if base + size <= usize::MAX {
            Some((base + size) as usize)
        } else {
            None
        },
{
    if base > usize::MAX - size {
        None
    } else {
        Some(base + size)
    }
}

/// The stages of a boot, in the order in which they run.
#[derive(Clone, Copy, Debug, PartialEq, Eq, Structural)]
pub enum BootStage {
    ClearBss,
    Stack,
    Heap,
    Peripherals,
    Logger,
    TrapConfiguration,
    Introspection,
    Dispatch,
    Finish,
}

impl BootStage {
    /// Position of the stage in the boot order.
    pub open spec fn rank(self) -> nat {
        match self {
            BootStage::ClearBss => 0,
            BootStage::Stack => 1,
            BootStage::Heap => 2,
            BootStage::Peripherals => 3,
            BootStage::Logger => 4,
            BootStage::TrapConfiguration => 5,
            BootStage::Introspection => 6,
            BootStage::Dispatch => 7,
            BootStage::Finish => 8,
        }
    }

    /// Whether `next` may run directly after `self`: it is the following
    /// stage, or the one after the diagnostic dump, which may be skipped.
    pub open spec fn allows(self, next: BootStage) -> bool {
        next.rank() == self.rank() + 1 || (self == BootStage::TrapConfiguration && next
            == BootStage::Dispatch)
    }

    /// The stage that follows this one; none after the last.
    pub fn successor(self) -> (next: Option<BootStage>)
        ensures
            match next {
                Some(stage) => stage.rank() == self.rank() + 1,
                None => self == BootStage::Finish,
            },
    {
        match self {
            BootStage::ClearBss => Some(BootStage::Stack),
            BootStage::Stack => Some(BootStage::Heap),
            BootStage::Heap => Some(BootStage::Peripherals),
            BootStage::Peripherals => Some(BootStage::Logger),
            BootStage::Logger => Some(BootStage::TrapConfiguration),
            BootStage::TrapConfiguration => Some(BootStage::Introspection),
            BootStage::Introspection => Some(BootStage::Dispatch),
            BootStage::Dispatch => Some(BootStage::Finish),
            BootStage::Finish => None,
        }
    }

    /// Decides whether the boot may go from `self` to `next`.
    pub fn may_precede(self, next: BootStage) -> (ok: bool)
        ensures
            ok == self.allows(next),
    {
        match (self, next) {
            (BootStage::ClearBss, BootStage::Stack) => true,
            (BootStage::Stack, BootStage::Heap) => true,
            (BootStage::Heap, BootStage::Peripherals) => true,
            (BootStage::Peripherals, BootStage::Logger) => true,
            (BootStage::Logger, BootStage::TrapConfiguration) => true,
            (BootStage::TrapConfiguration, BootStage::Introspection) => true,
            (BootStage::TrapConfiguration, BootStage::Dispatch) => true,
            (BootStage::Introspection, BootStage::Dispatch) => true,
            (BootStage::Dispatch, BootStage::Finish) => true,
            _ => false,
        }
    }
}

/// How far a boot has come. It starts at the first stage and moves only
/// along the boot order.
#[derive(Debug)]
pub struct BootProgress {
    stage: BootStage,
}

impl BootProgress {
    /// The stage that the boot is in.
    pub closed spec fn view(&self) -> BootStage {
        self.stage
    }

    /// A boot at its first stage.
    pub fn new() -> (progress: BootProgress)
        ensures
            progress@ == BootStage::ClearBss,
    {
        BootProgress { stage: BootStage::ClearBss }
    }

    pub fn stage(&self) -> (stage: BootStage)
        ensures
            stage == self@,
    {
        self.stage
    }

    /// Moves to `next` if the boot order allows it from here; otherwise
    /// stays and says no.
    pub fn enter(&mut self, next: BootStage) -> (entered: bool)
        ensures
            entered == old(self)@.allows(next),
            final(self)@ == if entered {
                next
            } else {
                old(self)@
            },
    {
        if self.stage.may_precede(next) {
            self.stage = next;
            true
        } else {
            false
        }
    }
}

/// After a successful clear every byte of the region reads as zero and every
/// byte outside it is untouched; an empty region changes nothing.
pub proof fn law_zero_fill_total(mem: Seq<u8>, start: int, end: int)
    requires
        0 <= start <= end <= mem.len(),
    ensures
        zeroed(mem, start, end).len() == mem.len(),
        forall|i: int| start <= i < end ==> zeroed(mem, start, end)[i] == 0,
        forall|i: int|
            0 <= i < mem.len() && !(start <= i < end) ==> zeroed(mem, start, end)[i] == mem[i],
        start == end ==> zeroed(mem, start, end) == mem,
{
    if start == end {
        assert(zeroed(mem, start, end) =~= mem);
    }
}

/// The boot order never goes back: a stage that may follow another has a
/// higher rank, so the logger follows the peripherals and the dispatch
/// follows the trap configuration.
pub proof fn law_boot_order_forward(first: BootStage, second: BootStage)
    requires
        first.allows(second),
    ensures
        first.rank() < second.rank(),
        second == BootStage::Dispatch ==> BootStage::TrapConfiguration.rank() <= first.rank(),
        second == BootStage::Logger ==> first == BootStage::Peripherals,
{
}

} // verus!
