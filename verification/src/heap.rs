//! The allocator manager: the lifecycle of the fixed memory arena and the
//! account of the bytes handed out of it.
//!
//! The arena itself is served by the backing allocator. The manager decides
//! whether a request may go to it at all, and what happens when it may not.

use vstd::prelude::*;
use crate::fault::{
    lemma_halts_and_stays_halted, oom_report, report_of, stage_after, steps_left, Escalation,
    EscalationModel, FaultKind, Stage,
};

verus! {

/// Size of the arena in bytes.
pub const HEAP_SIZE: usize = 1024;

/// A request for memory: so many bytes, at an address that is a multiple of
/// `align`. The manager accounts for sizes; alignment is the backing
/// allocator's matter.
#[derive(Clone, Copy, Debug, PartialEq, Eq)]
pub struct AllocLayout {
    /// Number of bytes.
    pub size: usize,
    /// Alignment of the block in bytes.
    pub align: usize,
}

/// Why the arena could not be installed.
#[derive(Clone, Copy, Debug, PartialEq, Eq, Structural)]
pub enum InitError {
    /// The arena was installed before. It is installed once.
    AlreadyInitialized,
    /// The region holds no byte.
    EmptyRegion,
    /// The region would reach beyond the end of the address space.
    RegionOutOfRange,
}

/// What an [`AllocatorManager`] stands for.
pub struct HeapModel {
    /// Address of the first byte of the arena.
    pub base: nat,
    /// Number of bytes in the arena.
    pub capacity: nat,
    /// Whether the arena was installed.
    pub initialized: bool,
    /// Number of bytes handed out and not returned.
    pub in_use: nat,
}

impl HeapModel {
    /// The manager before the arena is installed.
    pub open spec fn empty() -> HeapModel {
        HeapModel { base: 0, capacity: 0, initialized: false, in_use: 0 }
    }

    /// The manager right after a region was installed.
    pub open spec fn installed(base: nat, size: nat) -> HeapModel {
        HeapModel { base, capacity: size, initialized: true, in_use: 0 }
    }

    /// What holds of every manager: no more bytes are out than the arena
    /// has, the arena lies within the address space, and without an arena
    /// there is nothing to hand out.
    pub open spec fn well_formed(self) -> bool {
        &&& self.in_use <= self.capacity
        &&& self.base + self.capacity <= usize::MAX
        &&& !self.initialized ==> self.capacity == 0 && self.base == 0
    }

    /// Number of bytes that can still be handed out.
    pub open spec fn remaining(self) -> nat {
        (self.capacity - self.in_use) as nat
    }

    /// Whether a request for `size` bytes is served: the arena is installed
    /// and the bytes are there.
    pub open spec fn admits(self, size: nat) -> bool {
        self.initialized && self.in_use + size <= self.capacity
    }

    /// The manager after `size` bytes were handed out.
    pub open spec fn charge(self, size: nat) -> HeapModel {
        HeapModel { in_use: self.in_use + size, ..self }
    }

    /// Whether the block of `size` bytes at `address` can be one that was
    /// handed out: it lies within the arena and is no larger than what is
    /// out.
    pub open spec fn holds(self, address: nat, size: nat) -> bool {
        &&& self.initialized
        &&& self.base <= address
        &&& address + size <= self.base + self.capacity
        &&& size <= self.in_use
    }

    /// The manager after `size` bytes came back.
    pub open spec fn release(self, size: nat) -> HeapModel {
        HeapModel { in_use: (self.in_use - size) as nat, ..self }
    }
}

/// How an attempt to install the region of `size` bytes at `base` ends.
pub open spec fn install_outcome(model: HeapModel, base: nat, size: nat) -> Result<(), InitError> {
    if model.initialized {
        Err(InitError::AlreadyInitialized)
    } else if size == 0 {
        Err(InitError::EmptyRegion)
    } else if base + size > usize::MAX {
        Err(InitError::RegionOutOfRange)
    } else {
        Ok(())
    }
}

/// Sum of `sizes`.
pub open spec fn total(sizes: Seq<nat>) -> nat
    decreases sizes.len(),
{
    if sizes.len() == 0 {
        0
    } else {
        sizes[0] + total(sizes.skip(1))
    }
}

/// Position of the first of `sizes` that is refused when the requests are
/// made one after the other, if any is.
pub open spec fn first_refusal(model: HeapModel, sizes: Seq<nat>) -> Option<int>
    decreases sizes.len(),
{
    if sizes.len() == 0 {
        None
    } else if !model.admits(sizes[0]) {
        Some(0)
    } else {
        match first_refusal(model.charge(sizes[0]), sizes.skip(1)) {
            Some(i) => Some(i + 1),
            None => None,
        }
    }
}

/// The manager after each of `sizes` was handed out.
pub open spec fn charge_all(model: HeapModel, sizes: Seq<nat>) -> HeapModel
    decreases sizes.len(),
{
    if sizes.len() == 0 {
        model
    } else {
        charge_all(model.charge(sizes[0]), sizes.skip(1))
    }
}

/// Text of the message for a block that the arena cannot take back.
pub open spec fn foreign_block_message() -> Seq<char> {
    "deallocation of a block that the arena did not hand out"@
}

/// The failure path as it is entered when the allocator is exhausted.
pub open spec fn out_of_memory() -> EscalationModel {
    EscalationModel { kind: FaultKind::OutOfMemory, report: oom_report(), stage: Stage::Raised }
}

/// Entry of the failure path for a request that the allocator could not
/// serve. The report does not depend on the request, and making it takes no
/// memory.
pub fn rust_oom(layout: AllocLayout) -> (escalation: Escalation)
    ensures
        escalation@ == out_of_memory(),
{
    Escalation::raise_fixed(FaultKind::OutOfMemory, "out of memory")
}

/// Keeper of the arena: installed once, of fixed size, and never asked for
/// more than it has.
pub struct AllocatorManager {
    base: usize,
    capacity: usize,
    initialized: bool,
    in_use: usize,
}

impl View for AllocatorManager {
    type V = HeapModel;

    closed spec fn view(&self) -> HeapModel {
        HeapModel {
            base: self.base as nat,
            capacity: self.capacity as nat,
            initialized: self.initialized,
            in_use: self.in_use as nat,
        }
    }
}

impl AllocatorManager {
    #[verifier::type_invariant]
    spec fn is_sound(self) -> bool {
        self@.well_formed()
    }

    /// A manager without an arena. Every request is refused until
    /// [`initialize`](Self::initialize) has succeeded.
    pub fn empty() -> (manager: Self)
        ensures
            manager@ == HeapModel::empty(),
    {
        AllocatorManager { base: 0, capacity: 0, initialized: false, in_use: 0 }
    }

    /// Installs the region of `size` bytes at `base` as the arena. This
    /// succeeds once, for a region that is not empty and lies within the
    /// address space; a failed attempt changes nothing.
    pub fn initialize(&mut self, base: usize, size: usize) -> (result: Result<(), InitError>)
        ensures
            result == install_outcome(old(self)@, base as nat, size as nat),
            final(self)@ == if result is Ok {
                HeapModel::installed(base as nat, size as nat)
            } else {
                old(self)@
            },
            final(self)@.well_formed(),
    {
        proof {
            use_type_invariant(&*self);
        }
        if self.initialized {
            Err(InitError::AlreadyInitialized)
        } else if size == 0 {
            Err(InitError::EmptyRegion)
        } else if size > usize::MAX - base {
            Err(InitError::RegionOutOfRange)
        } else {
            *self = AllocatorManager { base, capacity: size, initialized: true, in_use: 0 };
            Ok(())
        }
    }

    /// Accounts for a request. It is served if and only if the arena is
    /// installed and has the bytes left; otherwise nothing is handed out,
    /// not even in part, and the failure path is entered.
    pub fn allocate(&mut self, layout: AllocLayout) -> (result: Result<(), Escalation>)
        ensures
            result is Ok <==> old(self)@.admits(layout.size as nat),
            result is Ok ==> final(self)@ == old(self)@.charge(layout.size as nat),
            result matches Err(escalation) ==> final(self)@ == old(self)@ && escalation@
                == out_of_memory(),
            final(self)@.well_formed(),
    {
        proof {
            use_type_invariant(&*self);
        }
        if self.initialized && layout.size <= self.capacity - self.in_use {
            self.in_use = self.in_use + layout.size;
            Ok(())
        } else {
            Err(rust_oom(layout))
        }
    }

    /// Accounts for a block that comes back. A block that cannot have been
    /// handed out is a broken invariant of the caller: nothing is taken back
    /// and the failure path is entered.
    pub fn deallocate(&mut self, address: usize, layout: AllocLayout) -> (result: Result<
        (),
        Escalation,
    >)
        ensures
            result is Ok <==> old(self)@.holds(address as nat, layout.size as nat),
            result is Ok ==> final(self)@ == old(self)@.release(layout.size as nat),
            result matches Err(escalation) ==> final(self)@ == old(self)@ && escalation@ == (
            EscalationModel {
                kind: FaultKind::Explicit,
                report: report_of(foreign_block_message()),
                stage: Stage::Raised,
            }),
            final(self)@.well_formed(),
    {
        proof {
            use_type_invariant(&*self);
        }
        if self.initialized && self.base <= address && address - self.base <= self.capacity
            && layout.size <= self.capacity - (address - self.base) && layout.size
            <= self.in_use {
            self.in_use = self.in_use - layout.size;
            Ok(())
        } else {
            Err(
                crate::fault::panic("deallocation of a block that the arena did not hand out"),
            )
        }
    }

    /// Whether the arena was installed.
    pub fn is_initialized(&self) -> (initialized: bool)
        ensures
            initialized == self@.initialized,
    {
        self.initialized
    }

    /// Address of the first byte of the arena; 0 before it is installed.
    pub fn base(&self) -> (base: usize)
        ensures
            base == self@.base,
    {
        self.base
    }

    /// Number of bytes in the arena; 0 before it is installed.
    pub fn capacity(&self) -> (capacity: usize)
        ensures
            capacity == self@.capacity,
    {
        self.capacity
    }

    /// Number of bytes handed out and not returned.
    pub fn in_use(&self) -> (in_use: usize)
        ensures
            in_use == self@.in_use,
            self@.well_formed(),
    {
        proof {
            use_type_invariant(self);
        }
        self.in_use
    }

    /// Number of bytes that can still be handed out.
    pub fn remaining(&self) -> (remaining: usize)
        ensures
            remaining == self@.remaining(),
            self@.well_formed(),
    {
        proof {
            use_type_invariant(self);
        }
        self.capacity - self.in_use
    }
}

/// Before the arena is installed no request is served, whatever its size,
/// not even one for no bytes: the first of any requests is refused.
pub proof fn lemma_nothing_is_served_before_installation(model: HeapModel, sizes: Seq<nat>)
    requires
        !model.initialized,
        sizes.len() > 0,
    ensures
        !model.admits(sizes[0]),
        first_refusal(model, sizes) == Some(0int),
{
}

/// The arena is installed once and then stays as it is: a second attempt is
/// turned down, and neither serving a request nor taking a block back moves
/// or resizes it.
pub proof fn lemma_arena_is_fixed(model: HeapModel, base: nat, size: nat)
    requires
        model.initialized,
    ensures
        install_outcome(model, base, size) == Err::<(), InitError>(InitError::AlreadyInitialized),
        model.charge(size).base == model.base && model.charge(size).capacity == model.capacity,
        model.release(size).base == model.base && model.release(size).capacity
            == model.capacity,
        model.charge(size).initialized && model.release(size).initialized,
{
}

/// The sum of the first requests of a sequence is no larger than the sum of
/// all of them.
pub proof fn lemma_total_of_prefix(sizes: Seq<nat>, k: int)
    requires
        0 <= k <= sizes.len(),
    ensures
        total(sizes.take(k)) <= total(sizes),
        k < sizes.len() ==> total(sizes.take(k + 1)) == total(sizes.take(k)) + sizes[k],
    decreases sizes.len(),
{
    if sizes.len() == 0 {
        assert(sizes.take(k) =~= sizes);
    } else if k == 0 {
        assert(sizes.take(0).len() == 0);
        assert(sizes.take(1).skip(1).len() == 0);
        assert(total(sizes.take(1)) == sizes[0] + total(sizes.take(1).skip(1)));
    } else {
        lemma_total_of_prefix(sizes.skip(1), k - 1);
        assert(sizes.take(k).skip(1) =~= sizes.skip(1).take(k - 1));
        assert(total(sizes.take(k)) == sizes[0] + total(sizes.take(k).skip(1)));
        if k < sizes.len() {
            assert(sizes.take(k + 1).skip(1) =~= sizes.skip(1).take(k));
            assert(total(sizes.take(k + 1)) == sizes[0] + total(sizes.take(k + 1).skip(1)));
        }
    }
}

/// Requests whose sizes add up to no more than what the arena has left are
/// all served, and afterwards exactly their sum more is in use.
pub proof fn lemma_requests_within_capacity_succeed(model: HeapModel, sizes: Seq<nat>)
    requires
        model.initialized,
        model.in_use + total(sizes) <= model.capacity,
    ensures
        first_refusal(model, sizes) is None,
        charge_all(model, sizes) == (HeapModel { in_use: model.in_use + total(sizes), ..model }),
    decreases sizes.len(),
{
    if sizes.len() > 0 {
        lemma_requests_within_capacity_succeed(model.charge(sizes[0]), sizes.skip(1));
    }
}

/// The first request that takes the running sum beyond what the arena has
/// left is the first one refused: all before it are served, and it is not.
pub proof fn lemma_first_excess_is_refused(model: HeapModel, sizes: Seq<nat>, k: int)
    requires
        model.initialized,
        0 <= k < sizes.len(),
        model.in_use + total(sizes.take(k)) <= model.capacity,
        model.in_use + total(sizes.take(k + 1)) > model.capacity,
    ensures
        first_refusal(model, sizes) == Some(k),
    decreases sizes.len(),
{
    lemma_total_of_prefix(sizes, k);
    if k == 0 {
        assert(sizes.take(0).len() == 0);
        assert(total(sizes.take(0)) == 0);
    } else {
        assert(sizes.take(k).skip(1) =~= sizes.skip(1).take(k - 1));
        assert(total(sizes.take(k)) == sizes[0] + total(sizes.take(k).skip(1)));
        assert(sizes.take(k + 1).skip(1) =~= sizes.skip(1).take(k));
        assert(total(sizes.take(k + 1)) == sizes[0] + total(sizes.take(k + 1).skip(1)));
        lemma_first_excess_is_refused(model.charge(sizes[0]), sizes.skip(1), k - 1);
    }
}

/// Exhaustion is the end: the first request that takes the running sum
/// beyond the arena is refused, the failure path that is entered for it
/// reaches the halt, and nothing that happens on the way leads back.
pub proof fn lemma_first_excess_ends_in_halt(
    model: HeapModel,
    sizes: Seq<nat>,
    k: int,
    outcomes: Seq<bool>,
)
    requires
        model.initialized,
        0 <= k < sizes.len(),
        model.in_use + total(sizes.take(k)) <= model.capacity,
        model.in_use + total(sizes.take(k + 1)) > model.capacity,
        outcomes.len() >= steps_left(Stage::Raised),
    ensures
        first_refusal(model, sizes) == Some(k),
        stage_after(out_of_memory().stage, outcomes) == Stage::Halted,
{
    lemma_first_excess_is_refused(model, sizes, k);
    lemma_halts_and_stays_halted(Stage::Raised, outcomes);
}

} // verus!
