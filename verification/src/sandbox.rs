//! The domain manager: the life of a sandbox from its creation to the protection domain
//! that isolates it, or to the decision to go on without one.
//!
//! Setting a sandbox up takes four requests to the operating system. The sandbox makes none
//! of them itself: [`Sandbox::init`] says which request comes next, the caller performs it
//! and hands the answer back.
//!
//! A sandbox also holds one piece of policy: the protection domain that loses its write
//! access while sandboxed code runs. That domain is never the default domain and never the
//! sandbox's own.

use vstd::prelude::*;
use crate::os::{
    map_anonymous, map_failed, map_private, prot_read, prot_write, MAP_ANONYMOUS, MAP_FAILED,
    MAP_PRIVATE, PROT_READ, PROT_WRITE,
};
use crate::region::{Region, PAGE_SIZE};

verus! {

/// Size of the stack on which sandboxed code runs: 8 MiB.
pub const SANDBOX_STACK_SIZE: usize = 0x80_0000;

/// Number of protection domains that the rights register describes.
pub const DOMAIN_COUNT: i32 = 16;

/// The protection domain that every thread can use without asking for it.
pub const DEFAULT_DOMAIN: i32 = 0;

/// The domain whose write access a sandbox revokes unless it is told another.
pub const DEFAULT_REVOKED_DOMAIN: i32 = 11;

/// The step of the set-up that the operating system refused.
#[derive(Clone, Copy, Debug, PartialEq, Eq)]
pub enum InitFailure {
    /// No protection domain could be allocated.
    DomainAllocation,
    /// The domain that was allocated cannot isolate this sandbox: the rights register has
    /// no place for it, or it is the domain whose write access crossings revoke.
    DomainUnusable,
    /// The isolated region could not be given to the domain.
    RegionProtection,
    /// The sandbox stack could not be mapped.
    StackAllocation,
    /// The sandbox stack could not be given to the domain.
    StackProtection,
}

/// Where a sandbox stands in its life.
///
/// A sandbox starts `Uninitialized`, goes through the four pending states while it is set
/// up, and ends either `Active` or `Disabled`. It never leaves either of those two.
#[derive(Clone, Copy, Debug, PartialEq, Eq)]
pub enum SandboxState {
    /// Nothing has been attempted.
    Uninitialized,
    /// A protection domain has been asked for.
    AllocatingDomain,
    /// Domain `pkey` exists; the isolated region is being given to it.
    ProtectingRegion { pkey: i32 },
    /// The region belongs to `pkey`; the stack is being mapped.
    MappingStack { pkey: i32 },
    /// The stack is mapped at `stack` and is being given to `pkey`.
    ProtectingStack { pkey: i32, stack: usize },
    /// Region and stack belong to domain `pkey`: calls cross into the sandbox.
    Active { pkey: i32, stack: usize },
    /// The set-up failed: calls run unprotected, for good.
    Disabled { cause: InitFailure },
}

/// What the caller reports to [`Sandbox::init`].
#[derive(Clone, Copy, Debug, PartialEq, Eq)]
pub enum InitEvent {
    /// Nothing to report: the caller asks what to do.
    Begin,
    /// The domain allocation returned this value.
    DomainAllocated(i32),
    /// Giving the region to the domain returned this value.
    RegionProtected(i32),
    /// Mapping the stack returned this address.
    StackMapped(usize),
    /// Giving the stack to the domain returned this value.
    StackProtected(i32),
}

/// What [`Sandbox::init`] asks the caller to do next.
#[derive(Clone, Copy, Debug, PartialEq, Eq)]
#[allow(inconsistent_fields)]
pub enum InitAction {
    /// Allocate a protection domain with these flags and initial rights.
    AllocateDomain { flags: u32, access_rights: u32 },
    /// Give the `len` bytes at `addr`, the isolated region, to domain `pkey`.
    ProtectRegion { addr: usize, len: usize, prot: i32, pkey: i32 },
    /// Map `len` bytes at an address of the system's choice.
    MapStack { len: usize, prot: i32, flags: i32 },
    /// Give the `len` bytes at `addr`, the sandbox stack, to domain `pkey`.
    ProtectStack { addr: usize, len: usize, prot: i32, pkey: i32 },
    /// The set-up has just failed at `cause`: warn, and go on without protection.
    Failed { cause: InitFailure },
    /// The set-up is over, now or long since: the domain's handle, or none.
    Finished { handle: Option<i32> },
}

/// Protection of the memory that sandboxed code works on: readable and writable.
pub open spec fn read_write() -> i32 {
    PROT_READ | PROT_WRITE
}

/// Flags of the stack's mapping: private to the process and backed by no file.
pub open spec fn anonymous_private() -> i32 {
    MAP_ANONYMOUS | MAP_PRIVATE
}

/// Whether crossings may revoke the write access of `domain`: the rights register
/// describes it, and it is not the default domain.
pub open spec fn revocable(domain: i32) -> bool {
    DEFAULT_DOMAIN < domain < DOMAIN_COUNT
}

/// Whether domain `pkey` can isolate a sandbox whose crossings revoke `revoked`: the
/// rights register describes it, and crossings leave its rights alone.
pub open spec fn usable_domain(pkey: i32, revoked: i32) -> bool {
    0 <= pkey < DOMAIN_COUNT && pkey != revoked
}

/// Whether a mapping request that returned `addr` produced a stack the sandbox can use:
/// the request did not fail, and the stack starts on a page boundary and ends below the
/// top of the address space.
pub open spec fn usable_stack(addr: usize) -> bool {
    &&& addr != MAP_FAILED
    &&& addr as int % PAGE_SIZE as int == 0
    &&& addr + SANDBOX_STACK_SIZE <= usize::MAX
}

/// Whether the set-up has come to an end in `state`.
pub open spec fn settled(state: SandboxState) -> bool {
    state is Active || state is Disabled
}

/// The handle of the protection domain in `state`: some only when the sandbox is active.
pub open spec fn handle_of(state: SandboxState) -> Option<i32> {
    match state {
        SandboxState::Active { pkey, .. } => Some(pkey),
        _ => None,
    }
}

/// The invariant of every state of a sandbox whose crossings revoke `revoked`: a domain
/// that the sandbox holds is usable, and so is a stack.
pub open spec fn state_wf(state: SandboxState, revoked: i32) -> bool {
    match state {
        SandboxState::Uninitialized => true,
        SandboxState::AllocatingDomain => true,
        SandboxState::ProtectingRegion { pkey } => usable_domain(pkey, revoked),
        SandboxState::MappingStack { pkey } => usable_domain(pkey, revoked),
        SandboxState::ProtectingStack { pkey, stack } => usable_domain(pkey, revoked)
            && usable_stack(stack),
        SandboxState::Active { pkey, stack } => usable_domain(pkey, revoked) && usable_stack(
            stack,
        ),
        SandboxState::Disabled { .. } => true,
    }
}

/// The request that is outstanding in `state`, or the cached outcome once it is settled.
pub open spec fn pending_action(state: SandboxState, region: Region) -> InitAction {
    match state {
        SandboxState::Uninitialized | SandboxState::AllocatingDomain => InitAction::AllocateDomain {
            flags: 0,
            access_rights: 0,
        },
        SandboxState::ProtectingRegion { pkey } => InitAction::ProtectRegion {
            addr: region.start(),
            len: (region.end() - region.start()) as usize,
            prot: read_write(),
            pkey,
        },
        SandboxState::MappingStack { .. } => InitAction::MapStack {
            len: SANDBOX_STACK_SIZE,
            prot: read_write(),
            flags: anonymous_private(),
        },
        SandboxState::ProtectingStack { pkey, stack } => InitAction::ProtectStack {
            addr: stack,
            len: SANDBOX_STACK_SIZE,
            prot: read_write(),
            pkey,
        },
        SandboxState::Active { pkey, .. } => InitAction::Finished { handle: Some(pkey) },
        SandboxState::Disabled { .. } => InitAction::Finished { handle: None },
    }
}

/// The state that follows `state` when the caller reports `event`, in a sandbox whose
/// crossings revoke `revoked`.
///
/// An event moves the set-up on only when it answers the outstanding request; any other
/// event leaves the state as it is. A settled state never changes.
pub open spec fn next_state(state: SandboxState, revoked: i32, event: InitEvent) -> SandboxState {
    match (state, event) {
        (SandboxState::Uninitialized, _) => SandboxState::AllocatingDomain,
        (SandboxState::AllocatingDomain, InitEvent::DomainAllocated(pkey)) => if pkey < 0 {
            SandboxState::Disabled { cause: InitFailure::DomainAllocation }
        } else if !usable_domain(pkey, revoked) {
            SandboxState::Disabled { cause: InitFailure::DomainUnusable }
        } else {
            SandboxState::ProtectingRegion { pkey }
        },
        (SandboxState::ProtectingRegion { pkey }, InitEvent::RegionProtected(err)) => if err < 0 {
            SandboxState::Disabled { cause: InitFailure::RegionProtection }
        } else {
            SandboxState::MappingStack { pkey }
        },
        (SandboxState::MappingStack { pkey }, InitEvent::StackMapped(addr)) => if usable_stack(
            addr,
        ) {
            SandboxState::ProtectingStack { pkey, stack: addr }
        } else {
            SandboxState::Disabled { cause: InitFailure::StackAllocation }
        },
        (SandboxState::ProtectingStack { pkey, stack }, InitEvent::StackProtected(err)) => if err
            < 0 {
            SandboxState::Disabled { cause: InitFailure::StackProtection }
        } else {
            SandboxState::Active { pkey, stack }
        },
        _ => state,
    }
}

/// One step of the set-up: the state that follows, and what the caller is asked to do.
///
/// The step that disables the sandbox answers `Failed`, once; every later step answers
/// `Finished` with no handle.
pub open spec fn init_step(state: SandboxState, revoked: i32, region: Region, event: InitEvent)
    -> (SandboxState, InitAction) {
    let next = next_state(state, revoked, event);
    let action = match next {
        SandboxState::Disabled { cause } if !(state is Disabled) => InitAction::Failed { cause },
        _ => pending_action(next, region),
    };
    (next, action)
}

/// A sandbox: at first only the intent to isolate, then a protection domain with the
/// region and the stack that belong to it, or the record that none could be had.
pub struct Sandbox {
    state: SandboxState,
    revoked: i32,
}

/// What a sandbox is: where it stands, and the domain whose write access its crossings
/// revoke.
pub struct SandboxView {
    pub state: SandboxState,
    pub revoked: i32,
}

impl View for Sandbox {
    type V = SandboxView;

    closed spec fn view(&self) -> SandboxView {
        SandboxView { state: self.state, revoked: self.revoked }
    }
}

impl Sandbox {
    #[verifier::type_invariant]
    spec fn inv(self) -> bool {
        revocable(self.revoked) && state_wf(self.state, self.revoked)
    }

    /// A sandbox on which nothing has been attempted, and whose crossings revoke the write
    /// access of [`DEFAULT_REVOKED_DOMAIN`].
    pub fn new() -> (r: Sandbox)
        ensures
            r@ == (SandboxView {
                state: SandboxState::Uninitialized,
                revoked: DEFAULT_REVOKED_DOMAIN,
            }),
    {
        Sandbox { state: SandboxState::Uninitialized, revoked: DEFAULT_REVOKED_DOMAIN }
    }

    /// A sandbox on which nothing has been attempted, and whose crossings revoke the write
    /// access of `domain`. There is none unless `domain` can be revoked.
    pub fn with_revoked_domain(domain: i32) -> (r: Option<Sandbox>)
        ensures
            r is Some <==> revocable(domain),
            r matches Some(sandbox) ==> sandbox@ == (SandboxView {
                state: SandboxState::Uninitialized,
                revoked: domain,
            }),
    {
        if DEFAULT_DOMAIN < domain && domain < DOMAIN_COUNT {
            Some(Sandbox { state: SandboxState::Uninitialized, revoked: domain })
        } else {
            None
        }
    }

    /// Where the sandbox stands.
    pub fn state(&self) -> (r: SandboxState)
        ensures
            r == self@.state,
            state_wf(r, self@.revoked),
    {
        proof {
            use_type_invariant(self);
        }
        self.state
    }

    /// The domain whose write access the sandbox's crossings revoke.
    pub fn revoked_domain(&self) -> (r: i32)
        ensures
            r == self@.revoked,
            revocable(r),
            handle_of(self@.state) matches Some(pkey) ==> usable_domain(pkey, r),
    {
        proof {
            use_type_invariant(self);
        }
        self.revoked
    }

    /// The handle of the sandbox's protection domain, once the sandbox is active.
    pub fn pkey(&self) -> (r: Option<i32>)
        ensures
            r == handle_of(self@.state),
            r matches Some(pkey) ==> usable_domain(pkey, self@.revoked),
    {
        proof {
            use_type_invariant(self);
        }
        match self.state {
            SandboxState::Active { pkey, .. } => Some(pkey),
            _ => None,
        }
    }

    /// The address of the sandbox stack, once the sandbox is active.
    pub fn stack(&self) -> (r: Option<usize>)
        ensures
            r == match self@.state {
                SandboxState::Active { stack, .. } => Some(stack),
                _ => None,
            },
            r matches Some(stack) ==> usable_stack(stack),
    {
        proof {
            use_type_invariant(self);
        }
        match self.state {
            SandboxState::Active { stack, .. } => Some(stack),
            _ => None,
        }
    }

    /// Takes the set-up one step further.
    ///
    /// The caller reports what the last request returned and is told what to do next. On a
    /// sandbox that is active or disabled the answer is the cached outcome, whatever the
    /// event, and nothing is asked of the operating system again.
    pub fn init(&mut self, region: &Region, event: InitEvent) -> (action: InitAction)
        ensures
            final(self)@.revoked == old(self)@.revoked,
            (final(self)@.state, action) == init_step(
                old(self)@.state,
                old(self)@.revoked,
                *region,
                event,
            ),
            state_wf(final(self)@.state, final(self)@.revoked),
    {
        proof {
            use_type_invariant(&*self);
            use_type_invariant(region);
        }
        let before = self.state;
        let next = match (before, event) {
            (SandboxState::Uninitialized, _) => SandboxState::AllocatingDomain,
            (SandboxState::AllocatingDomain, InitEvent::DomainAllocated(pkey)) => {
                if pkey < 0 {
                    SandboxState::Disabled { cause: InitFailure::DomainAllocation }
                } else if pkey >= DOMAIN_COUNT || pkey == self.revoked {
                    SandboxState::Disabled { cause: InitFailure::DomainUnusable }
                } else {
                    SandboxState::ProtectingRegion { pkey }
                }
            },
            (SandboxState::ProtectingRegion { pkey }, InitEvent::RegionProtected(err)) => {
                if err < 0 {
                    SandboxState::Disabled { cause: InitFailure::RegionProtection }
                } else {
                    SandboxState::MappingStack { pkey }
                }
            },
            (SandboxState::MappingStack { pkey }, InitEvent::StackMapped(addr)) => {
                if stack_is_usable(addr) {
                    SandboxState::ProtectingStack { pkey, stack: addr }
                } else {
                    SandboxState::Disabled { cause: InitFailure::StackAllocation }
                }
            },
            (SandboxState::ProtectingStack { pkey, stack }, InitEvent::StackProtected(err)) => {
                if err < 0 {
                    SandboxState::Disabled { cause: InitFailure::StackProtection }
                } else {
                    SandboxState::Active { pkey, stack }
                }
            },
            _ => before,
        };
        self.state = next;
        match (before, next) {
            (SandboxState::Disabled { .. }, _) => InitAction::Finished { handle: None },
            (_, SandboxState::Disabled { cause }) => InitAction::Failed { cause },
            (_, SandboxState::Uninitialized) | (_, SandboxState::AllocatingDomain) => {
                InitAction::AllocateDomain { flags: 0, access_rights: 0 }
            },
            (_, SandboxState::ProtectingRegion { pkey }) => InitAction::ProtectRegion {
                addr: region.start(),
                len: region.len(),
                prot: prot_read() | prot_write(),
                pkey,
            },
            (_, SandboxState::MappingStack { .. }) => InitAction::MapStack {
                len: SANDBOX_STACK_SIZE,
                prot: prot_read() | prot_write(),
                flags: map_anonymous() | map_private(),
            },
            (_, SandboxState::ProtectingStack { pkey, stack }) => InitAction::ProtectStack {
                addr: stack,
                len: SANDBOX_STACK_SIZE,
                prot: prot_read() | prot_write(),
                pkey,
            },
            (_, SandboxState::Active { pkey, .. }) => InitAction::Finished { handle: Some(pkey) },
        }
    }
}

/// What the four requests of one set-up returned.
pub struct Replies {
    /// The domain allocation's result: a handle, or a negative number.
    pub pkey: i32,
    /// The result of giving the region to the domain: negative on failure.
    pub region_status: i32,
    /// The address that mapping the stack returned.
    pub stack: usize,
    /// The result of giving the stack to the domain: negative on failure.
    pub stack_status: i32,
}

/// The state of a fresh sandbox whose crossings revoke `revoked`, after a set-up in which
/// the operating system answered with `replies`, each in its turn.
pub open spec fn set_up(replies: Replies, revoked: i32) -> SandboxState {
    let asked = next_state(SandboxState::Uninitialized, revoked, InitEvent::Begin);
    let allocated = next_state(asked, revoked, InitEvent::DomainAllocated(replies.pkey));
    let protected = next_state(
        allocated,
        revoked,
        InitEvent::RegionProtected(replies.region_status),
    );
    let mapped = next_state(protected, revoked, InitEvent::StackMapped(replies.stack));
    next_state(mapped, revoked, InitEvent::StackProtected(replies.stack_status))
}

/// What an answer of `init` says of the outcome: nothing while requests are outstanding,
/// else the handle of the domain, or none.
pub open spec fn outcome(action: InitAction) -> Option<Option<i32>> {
    match action {
        InitAction::Finished { handle } => Some(handle),
        InitAction::Failed { .. } => Some(None),
        _ => None,
    }
}

/// Initialising is idempotent: once a step has announced the outcome, every later step
/// announces the same handle, leaves the sandbox as it is, and asks for nothing more.
pub proof fn lemma_init_idempotent(
    state: SandboxState,
    revoked: i32,
    region: Region,
    event: InitEvent,
    later: InitEvent,
)
    ensures
        ({
            let (settled_state, action) = init_step(state, revoked, region, event);
            outcome(action) matches Some(handle) ==> {
                &&& settled(settled_state)
                &&& handle == handle_of(settled_state)
                &&& init_step(settled_state, revoked, region, later) == (
                    settled_state,
                    InitAction::Finished { handle },
                )
            }
        }),
{
}

/// A sandbox that is active or disabled stays exactly as it is, whatever is reported to
/// it: the domain, the stack and a failure are for good.
pub proof fn lemma_settled_is_permanent(state: SandboxState, revoked: i32, event: InitEvent)
    requires
        settled(state),
    ensures
        next_state(state, revoked, event) == state,
{
}

/// Every step keeps the invariant of the state.
pub proof fn lemma_step_keeps_invariant(state: SandboxState, revoked: i32, event: InitEvent)
    requires
        state_wf(state, revoked),
    ensures
        state_wf(next_state(state, revoked, event), revoked),
{
}

/// A set-up ends active exactly when all four requests succeeded and the domain is one
/// that the sandbox can use, and then with the handle and the stack that the operating
/// system returned. It ends disabled otherwise, by the first step that failed.
pub proof fn lemma_set_up_outcome(replies: Replies, revoked: i32)
    ensures
        set_up(replies, revoked) == if replies.pkey < 0 {
            SandboxState::Disabled { cause: InitFailure::DomainAllocation }
        } else if !usable_domain(replies.pkey, revoked) {
            SandboxState::Disabled { cause: InitFailure::DomainUnusable }
        } else if replies.region_status < 0 {
            SandboxState::Disabled { cause: InitFailure::RegionProtection }
        } else if !usable_stack(replies.stack) {
            SandboxState::Disabled { cause: InitFailure::StackAllocation }
        } else if replies.stack_status < 0 {
            SandboxState::Disabled { cause: InitFailure::StackProtection }
        } else {
            SandboxState::Active { pkey: replies.pkey, stack: replies.stack }
        },
        settled(set_up(replies, revoked)),
        state_wf(set_up(replies, revoked), revoked),
{
}

/// Decides whether a mapping request that returned `addr` produced a usable stack.
pub fn stack_is_usable(addr: usize) -> (ok: bool)
    ensures
        ok == usable_stack(addr),
{
    addr != map_failed() && addr % PAGE_SIZE == 0 && addr <= usize::MAX - SANDBOX_STACK_SIZE
}

} // verus!
