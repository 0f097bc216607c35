//! The crossing protocol: what a call into the sandbox decides before control leaves the
//! caller's stack, and what it puts back afterwards.
//!
//! Switching the stack and the rights register takes machine instructions that no function
//! here can issue. [`Sandbox::call`] therefore does everything up to the switch: it runs
//! the unit of work at once where the sandbox is disabled, and otherwise hands the work
//! back, on an active sandbox with the [`Crossing`] that says where to put it and which
//! rights to run it under. [`Sandbox::enter`] is the decision alone, on plain values.
//! [`Crossing::finish`] is the way back.
//!
//! Sandboxed code runs with less than the caller had, never with more: one domain, chosen
//! with the sandbox, loses its write access, and no other bit of the rights register
//! changes. The sandbox's own domain and the default domain are never that domain.

use vstd::prelude::*;
use vstd::layout::{align_of, size_of};
use vstd::arithmetic::div_mod::{lemma_fundamental_div_mod, lemma_mod_multiples_basic};
use crate::pkru::{lemma_pkru_denying, pkru_deny, pkru_denying, pkru_rights, PKEY_DISABLE_WRITE};
use crate::region::PAGE_SIZE;
use crate::sandbox::{
    revocable, settled, usable_domain, usable_stack, Sandbox, SandboxState, DEFAULT_DOMAIN,
    SANDBOX_STACK_SIZE,
};

verus! {

/// Least alignment of the slot that carries a unit of work into the sandbox.
pub const SLOT_MIN_ALIGN: usize = 16;

/// The cell that holds the caller's stack pointer while a crossing is under way.
///
/// The cell is empty, which is to say zero, whenever no crossing is under way.
#[derive(Clone, Copy, Debug, PartialEq, Eq)]
pub struct ReentrancySlot {
    saved: usize,
}

impl View for ReentrancySlot {
    type V = usize;

    closed spec fn view(&self) -> usize {
        self.saved
    }
}

impl ReentrancySlot {
    /// Whether the cell is empty.
    pub open spec fn spec_is_empty(&self) -> bool {
        self@ == 0
    }

    /// An empty cell.
    pub fn new() -> (r: ReentrancySlot)
        ensures
            r@ == 0,
    {
        ReentrancySlot { saved: 0 }
    }

    /// A cell that holds the stack pointer `saved`.
    pub fn holding(saved: usize) -> (r: ReentrancySlot)
        ensures
            r@ == saved,
    {
        ReentrancySlot { saved }
    }

    /// Whether the cell is empty.
    #[verifier::when_used_as_spec(spec_is_empty)]
    pub fn is_empty(&self) -> (r: bool)
        ensures
            r == self.spec_is_empty(),
    {
        self.saved == 0
    }

    /// The stack pointer in the cell, zero if it is empty.
    pub fn saved(&self) -> (r: usize)
        ensures
            r == self@,
    {
        self.saved
    }
}

/// Size and alignment of the slot at the top of the sandbox stack.
#[derive(Clone, Copy, Debug, PartialEq, Eq)]
pub struct SlotLayout {
    pub size: usize,
    pub align: usize,
}

/// The larger of two numbers.
pub open spec fn larger(a: nat, b: nat) -> nat {
    if a >= b {
        a
    } else {
        b
    }
}

/// The least multiple of `align` that is not below `n`.
pub open spec fn round_up(n: nat, align: nat) -> nat
    recommends
        align > 0,
{
    if n % align == 0 {
        n
    } else {
        (n + align - n % align) as nat
    }
}

/// Alignment of a slot that can hold an `F` or a `T`: that of the more demanding of the
/// two, and sixteen at least.
pub open spec fn slot_align<T, F>() -> nat {
    larger(SLOT_MIN_ALIGN as nat, larger(align_of::<F>(), align_of::<T>()))
}

/// Size of a slot that can hold an `F` or a `T`: that of the larger of the two, rounded up
/// to the slot's alignment.
pub open spec fn slot_size<T, F>() -> nat {
    round_up(larger(size_of::<F>(), size_of::<T>()), slot_align::<T, F>())
}

/// The layout of a slot that can hold an `F` or a `T`, if its size fits the machine's word.
pub open spec fn slot_layout_of<T, F>() -> Option<SlotLayout> {
    if slot_size::<T, F>() <= usize::MAX {
        Some(
            SlotLayout {
                size: slot_size::<T, F>() as usize,
                align: slot_align::<T, F>() as usize,
            },
        )
    } else {
        None
    }
}

/// Whether a slot of this layout can stand at the top of a sandbox stack: it is no larger
/// than the stack, and its alignment divides that of the stack.
pub open spec fn slot_fits(layout: SlotLayout) -> bool {
    &&& layout.size <= SANDBOX_STACK_SIZE
    &&& layout.align > 0
    &&& PAGE_SIZE as int % layout.align as int == 0
}

/// Address of a slot of `size` bytes that ends where the stack at `stack` ends.
pub open spec fn slot_address(stack: usize, size: usize) -> usize {
    (stack + SANDBOX_STACK_SIZE - size) as usize
}

/// The rights register under which sandboxed code runs: the caller's, with write access to
/// domain `revoked` taken away and with every other bit as it was.
pub open spec fn sandbox_rights(pkru: u32, revoked: i32) -> u32 {
    pkru_denying(pkru, revoked as int, PKEY_DISABLE_WRITE)
}

/// Everything the switch into the sandbox needs to know.
#[derive(Clone, Copy, Debug, PartialEq, Eq)]
pub struct Crossing {
    /// Address of the slot that holds the unit of work, then its result.
    pub slot: usize,
    /// The rights register as the caller had it.
    pub caller_pkru: u32,
    /// The rights register while sandboxed code runs.
    pub sandbox_pkru: u32,
}

/// The crossing from a caller whose rights register holds `pkru` into the sandbox whose
/// stack is at `stack`, with a slot of `size` bytes and with write access to `revoked`
/// taken away.
pub open spec fn crossing_plan(stack: usize, pkru: u32, revoked: i32, size: usize) -> Crossing {
    Crossing {
        slot: slot_address(stack, size),
        caller_pkru: pkru,
        sandbox_pkru: sandbox_rights(pkru, revoked),
    }
}

/// What a finished crossing puts back.
#[derive(Clone, Copy, Debug, PartialEq, Eq)]
pub struct Restored {
    /// The rights register of the caller.
    pub pkru: u32,
    /// The stack pointer of the caller.
    pub stack_pointer: usize,
}

/// Why a call did not cross into the sandbox.
#[derive(Clone, Copy, Debug, PartialEq, Eq)]
pub enum CrossingFault {
    /// The sandbox has not been set up to the end: whether it protects is not known yet.
    NotInitialized,
    /// A crossing is under way already: the reentrancy slot is not empty.
    Reentered,
    /// The unit of work or its result has no place at the top of the sandbox stack.
    SlotDoesNotFit,
}

/// How a call goes about its unit of work.
#[derive(Clone, Copy, Debug, PartialEq, Eq)]
pub enum Entry {
    /// The sandbox is disabled: the work runs where the caller stands.
    PassThrough,
    /// The work runs inside the sandbox, after this crossing.
    Cross(Crossing),
}

/// How a call enters a sandbox in `state` whose crossings revoke `revoked`, when the
/// reentrancy slot holds `saved`, the caller's rights register holds `pkru`, and the slot
/// for the work has `layout`.
///
/// A disabled sandbox passes every call through, and nothing else is looked at. A sandbox
/// whose set-up has not come to an end refuses every call. On an active sandbox an
/// occupied reentrancy slot refuses the call before its layout counts. A layout that does
/// not exist, or cannot stand on the stack, refuses it too.
pub open spec fn entry(
    state: SandboxState,
    revoked: i32,
    saved: usize,
    pkru: u32,
    layout: Option<SlotLayout>,
) -> Result<Entry, CrossingFault> {
    match state {
        SandboxState::Disabled { .. } => Ok(Entry::PassThrough),
        SandboxState::Active { stack, .. } => if saved != 0 {
            Err(CrossingFault::Reentered)
        } else {
            match layout {
                Some(layout) if slot_fits(layout) => Ok(
                    Entry::Cross(crossing_plan(stack, pkru, revoked, layout.size)),
                ),
                _ => Err(CrossingFault::SlotDoesNotFit),
            }
        },
        _ => Err(CrossingFault::NotInitialized),
    }
}

/// How [`Sandbox::call`] ended.
pub enum Call<T, F> {
    /// The sandbox is disabled: the unit of work ran on the caller's stack, and this is
    /// what it returned.
    Returned(T),
    /// The sandbox is active: the unit of work is to run inside it, as `crossing` says.
    Cross { crossing: Crossing, work: F },
    /// The call can neither cross nor pass through. The unit of work did not run.
    Refused { fault: CrossingFault, work: F },
}

/// Computes the layout of the slot that can hold a unit of work `F` or its result `T`.
///
/// There is none only if the size does not fit the machine's word.
pub fn slot_layout<T, F>() -> (r: Option<SlotLayout>)
    ensures
        r == slot_layout_of::<T, F>(),
        r matches Some(layout) ==> {
            &&& layout.size == slot_size::<T, F>()
            &&& layout.align == slot_align::<T, F>()
            &&& layout.align >= SLOT_MIN_ALIGN
            &&& layout.size as int % layout.align as int == 0
            &&& layout.size >= size_of::<F>()
            &&& layout.size >= size_of::<T>()
        },
{
    let work_size: usize = core::mem::size_of::<F>();
    let result_size: usize = core::mem::size_of::<T>();
    let work_align: usize = core::mem::align_of::<F>();
    let result_align: usize = core::mem::align_of::<T>();
    let inner: usize = if work_align >= result_align {
        work_align
    } else {
        result_align
    };
    let align: usize = if SLOT_MIN_ALIGN >= inner {
        SLOT_MIN_ALIGN
    } else {
        inner
    };
    let payload: usize = if work_size >= result_size {
        work_size
    } else {
        result_size
    };
    let rest: usize = payload % align;
    proof {
        lemma_round_up(payload as nat, align as nat);
    }
    if rest == 0 {
        Some(SlotLayout { size: payload, align })
    } else {
        match payload.checked_add(align - rest) {
            Some(size) => Some(SlotLayout { size, align }),
            None => None,
        }
    }
}

/// Rounding up gives a multiple of the alignment, and the least one that is large enough.
pub proof fn lemma_round_up(n: nat, align: nat)
    requires
        align > 0,
    ensures
        round_up(n, align) % align == 0,
        n <= round_up(n, align) < n + align,
{
    let a = align as int;
    let q = n as int / a;
    lemma_fundamental_div_mod(n as int, a);
    if n % align != 0 {
        assert(round_up(n, align) == a * q + a);
        assert(a * q + a == (q + 1) * a) by (nonlinear_arith);
        lemma_mod_multiples_basic(q + 1, a);
    }
}

/// A multiple of a page is a multiple of everything that divides a page.
proof fn lemma_page_multiple(x: int, align: int)
    requires
        align > 0,
        x % PAGE_SIZE as int == 0,
        PAGE_SIZE as int % align == 0,
    ensures
        x % align == 0,
{
    let p = PAGE_SIZE as int;
    lemma_fundamental_div_mod(x, p);
    lemma_fundamental_div_mod(p, align);
    let k = x / p;
    let m = p / align;
    assert(x == p * k);
    assert(p == align * m);
    assert(x == (m * k) * align) by (nonlinear_arith)
        requires
            x == p * k,
            p == align * m,
    ;
    lemma_mod_multiples_basic(m * k, align);
}

/// The slot that a crossing uses lies at the very top of the sandbox stack, aligned as its
/// layout asks.
pub proof fn lemma_slot_placement(stack: usize, layout: SlotLayout)
    requires
        usable_stack(stack),
        slot_fits(layout),
        layout.size as int % layout.align as int == 0,
    ensures
        stack <= slot_address(stack, layout.size),
        slot_address(stack, layout.size) + layout.size == stack + SANDBOX_STACK_SIZE,
        slot_address(stack, layout.size) as int % layout.align as int == 0,
{
    let a = layout.align as int;
    let top = stack + SANDBOX_STACK_SIZE;
    assert(SANDBOX_STACK_SIZE as int % PAGE_SIZE as int == 0);
    assert(top % PAGE_SIZE as int == 0);
    lemma_page_multiple(top, a);
    lemma_fundamental_div_mod(top, a);
    lemma_fundamental_div_mod(layout.size as int, a);
    let k = top / a;
    let m = layout.size as int / a;
    assert(top - layout.size == (k - m) * a) by (nonlinear_arith)
        requires
            top == a * k,
            layout.size == a * m,
    ;
    lemma_mod_multiples_basic(k - m, a);
}

/// Sandboxed code runs with write access to the revoked domain taken away and with every
/// other right as the caller had it: the revoked domain keeps its access bit, every other
/// domain keeps both bits, and no bit that was set in the caller's register is cleared.
pub proof fn lemma_sandbox_rights(pkru: u32, revoked: i32)
    requires
        0 <= revoked < 16,
    ensures
        pkru_rights(sandbox_rights(pkru, revoked), revoked as int) == pkru_rights(
            pkru,
            revoked as int,
        ) | PKEY_DISABLE_WRITE,
        forall|k: int|
            0 <= k < 16 && k != revoked ==> pkru_rights(sandbox_rights(pkru, revoked), k)
                == pkru_rights(pkru, k),
        sandbox_rights(pkru, revoked) & pkru == pkru,
{
    lemma_pkru_denying(pkru, revoked as int, PKEY_DISABLE_WRITE);
}

/// A crossing leaves the sandbox's own domain and the default domain as the caller had
/// them, whatever domain the sandbox was given.
pub proof fn lemma_own_and_default_domain_untouched(pkru: u32, pkey: i32, revoked: i32)
    requires
        revocable(revoked),
        usable_domain(pkey, revoked),
    ensures
        pkru_rights(sandbox_rights(pkru, revoked), pkey as int) == pkru_rights(pkru, pkey as int),
        pkru_rights(sandbox_rights(pkru, revoked), DEFAULT_DOMAIN as int) == pkru_rights(
            pkru,
            DEFAULT_DOMAIN as int,
        ),
{
    lemma_sandbox_rights(pkru, revoked);
}

impl Crossing {
    /// Plans the crossing into the sandbox whose stack is at `stack`.
    ///
    /// The slot takes the last `layout.size` bytes of the stack. The rights register loses
    /// write access to domain `revoked` and nothing else.
    pub fn plan(stack: usize, pkru: u32, revoked: i32, layout: SlotLayout) -> (r: Crossing)
        requires
            usable_stack(stack),
            slot_fits(layout),
            revocable(revoked),
        ensures
            r == crossing_plan(stack, pkru, revoked, layout.size),
            stack <= r.slot,
            r.slot + layout.size == stack + SANDBOX_STACK_SIZE,
            layout.size as int % layout.align as int == 0 ==> r.slot as int % layout.align as int
                == 0,
            pkru_rights(r.sandbox_pkru, revoked as int) == pkru_rights(pkru, revoked as int)
                | PKEY_DISABLE_WRITE,
            forall|k: int|
                0 <= k < 16 && k != revoked ==> pkru_rights(r.sandbox_pkru, k) == pkru_rights(
                    pkru,
                    k,
                ),
            r.sandbox_pkru & pkru == pkru,
    {
        proof {
            if layout.size as int % layout.align as int == 0 {
                lemma_slot_placement(stack, layout);
            }
        }
        Crossing {
            slot: stack + SANDBOX_STACK_SIZE - layout.size,
            caller_pkru: pkru,
            sandbox_pkru: pkru_deny(pkru, revoked, PKEY_DISABLE_WRITE),
        }
    }

    /// What `finish` leaves in a reentrancy slot: nothing.
    pub open spec fn spec_finish(self, saved: usize) -> (Restored, usize) {
        (Restored { pkru: self.caller_pkru, stack_pointer: saved }, 0)
    }

    /// Ends the crossing: empties the reentrancy slot and says what the caller gets back,
    /// its rights register and the stack pointer that the slot held.
    pub fn finish(&self, slot: &mut ReentrancySlot) -> (r: Restored)
        ensures
            (r, final(slot)@) == self.spec_finish(old(slot)@),
            final(slot).is_empty(),
    {
        let stack_pointer = slot.saved();
        *slot = ReentrancySlot::new();
        Restored { pkru: self.caller_pkru, stack_pointer }
    }
}

/// A crossing gives back what it took: whatever the reentrancy slot holds while sandboxed
/// code runs, once the crossing is finished the slot is empty again and the caller has the
/// rights register that it came with.
pub proof fn lemma_crossing_restores(
    state: SandboxState,
    revoked: i32,
    pkru: u32,
    layout: Option<SlotLayout>,
    during: usize,
)
    ensures
        entry(state, revoked, 0, pkru, layout) matches Ok(Entry::Cross(crossing))
            ==> crossing.spec_finish(during) == (
            Restored { pkru, stack_pointer: during },
            0usize,
        ),
{
}

/// While a crossing is under way no second one begins: on an active sandbox an occupied
/// reentrancy slot refuses every call.
pub proof fn lemma_reentry_refused(
    state: SandboxState,
    revoked: i32,
    saved: usize,
    pkru: u32,
    layout: Option<SlotLayout>,
)
    requires
        state is Active,
        saved != 0,
    ensures
        entry(state, revoked, saved, pkru, layout) == Err::<Entry, CrossingFault>(
            CrossingFault::Reentered,
        ),
{
}

/// A disabled sandbox passes every call through, whatever the reentrancy slot and the
/// rights register hold, and no other sandbox passes any.
pub proof fn lemma_pass_through(
    state: SandboxState,
    revoked: i32,
    saved: usize,
    pkru: u32,
    layout: Option<SlotLayout>,
)
    ensures
        state is Disabled <==> entry(state, revoked, saved, pkru, layout) == Ok::<
            Entry,
            CrossingFault,
        >(Entry::PassThrough),
{
}

/// No call runs its work, protected or not, before the set-up has come to an end: until
/// then every call is refused, and the caller is told to initialise.
pub proof fn lemma_set_up_comes_first(
    state: SandboxState,
    revoked: i32,
    saved: usize,
    pkru: u32,
    layout: Option<SlotLayout>,
)
    ensures
        !(state is Active || state is Disabled) <==> entry(state, revoked, saved, pkru, layout)
            == Err::<Entry, CrossingFault>(CrossingFault::NotInitialized),
{
}

/// Decides whether a slot of this layout can stand at the top of a sandbox stack.
pub fn slot_can_stand(layout: &SlotLayout) -> (ok: bool)
    ensures
        ok == slot_fits(*layout),
{
    layout.size <= SANDBOX_STACK_SIZE && layout.align > 0 && PAGE_SIZE % layout.align == 0
}

impl Sandbox {
    /// Decides how a call enters the sandbox, and plans the crossing if there is one.
    ///
    /// `slot` is the reentrancy slot as it stands, `pkru` the caller's rights register, and
    /// `layout` that of the slot which carries the work, none if it has none.
    pub fn enter(&self, slot: &ReentrancySlot, pkru: u32, layout: Option<SlotLayout>) -> (r:
        Result<Entry, CrossingFault>)
        ensures
            r == entry(self@.state, self@.revoked, slot@, pkru, layout),
            r matches Ok(Entry::Cross(crossing)) ==> {
                &&& self@.state matches SandboxState::Active { pkey, stack }
                &&& layout matches Some(layout)
                &&& revocable(self@.revoked)
                &&& usable_domain(pkey, self@.revoked)
                &&& stack <= crossing.slot
                &&& crossing.slot + layout.size == stack + SANDBOX_STACK_SIZE
                &&& layout.size as int % layout.align as int == 0 ==> crossing.slot as int
                    % layout.align as int == 0
                &&& crossing.caller_pkru == pkru
                &&& rights_while_inside(pkru, crossing.sandbox_pkru, pkey, self@.revoked)
            },
    {
        let stack = match self.state() {
            SandboxState::Disabled { .. } => {
                return Ok(Entry::PassThrough);
            },
            SandboxState::Active { stack, .. } => stack,
            _ => {
                return Err(CrossingFault::NotInitialized);
            },
        };
        if !slot.is_empty() {
            return Err(CrossingFault::Reentered);
        }
        let revoked = self.revoked_domain();
        match layout {
            Some(layout) => {
                if slot_can_stand(&layout) {
                    Ok(Entry::Cross(Crossing::plan(stack, pkru, revoked, layout)))
                } else {
                    Err(CrossingFault::SlotDoesNotFit)
                }
            },
            None => Err(CrossingFault::SlotDoesNotFit),
        }
    }

    /// Calls `f` on behalf of the sandbox, as far as that can be done without leaving the
    /// caller's stack.
    ///
    /// On a disabled sandbox `f` runs here and now and its result is returned: an
    /// unprotected call, the same as calling `f` directly. In every other case `f` does not
    /// run. On an active sandbox it comes back with the crossing that the caller is to
    /// perform, or with the reason why there is none: `slot` is occupied, so a crossing is
    /// under way, or the slot for `f` and its result has no place on the sandbox stack. On
    /// a sandbox whose set-up has not come to an end it comes back for the caller to
    /// initialise first. `pkru` is the caller's rights register. The sandbox itself never
    /// changes.
    pub fn call<T, F: FnOnce() -> T + 'static>(&mut self, slot: &ReentrancySlot, pkru: u32, f: F)
        -> (r: Call<T, F>)
        requires
            f.requires(()),
        ensures
            final(self)@ == old(self)@,
            match entry(
                old(self)@.state,
                old(self)@.revoked,
                slot@,
                pkru,
                slot_layout_of::<T, F>(),
            ) {
                Ok(Entry::PassThrough) => r matches Call::Returned(v) && f.ensures((), v),
                Ok(Entry::Cross(crossing)) => r == (Call::<T, F>::Cross { crossing, work: f }),
                Err(fault) => r == (Call::<T, F>::Refused { fault, work: f }),
            },
            old(self)@.state is Disabled ==> (r matches Call::Returned(v) && f.ensures((), v)),
            !settled(old(self)@.state) ==> r == (Call::<T, F>::Refused {
                fault: CrossingFault::NotInitialized,
                work: f,
            }),
            old(self)@.state is Active && !slot.is_empty() ==> r == (Call::<T, F>::Refused {
                fault: CrossingFault::Reentered,
                work: f,
            }),
            r matches Call::Cross { crossing, .. } ==> {
                &&& old(self)@.state matches SandboxState::Active { pkey, stack }
                &&& revocable(old(self)@.revoked)
                &&& usable_domain(pkey, old(self)@.revoked)
                &&& stack <= crossing.slot
                &&& crossing.slot + slot_size::<T, F>() == stack + SANDBOX_STACK_SIZE
                &&& crossing.slot as int % slot_align::<T, F>() as int == 0
                &&& crossing.caller_pkru == pkru
                &&& rights_while_inside(pkru, crossing.sandbox_pkru, pkey, old(self)@.revoked)
            },
    {
        match self.enter(slot, pkru, slot_layout::<T, F>()) {
            Ok(Entry::PassThrough) => Call::Returned(f()),
            Ok(Entry::Cross(crossing)) => Call::Cross { crossing, work: f },
            Err(fault) => Call::Refused { fault, work: f },
        }
    }
}

/// What the rights register `inside` must be for sandboxed code that was called with the
/// register at `pkru`, in a sandbox of domain `pkey` whose crossings revoke `revoked`.
///
/// The revoked domain has lost its write access and has kept its access bit. Every other
/// domain has the rights it had, the sandbox's own and the default domain among them. No
/// right that the caller lacked has been gained.
pub open spec fn rights_while_inside(pkru: u32, inside: u32, pkey: i32, revoked: i32) -> bool {
    &&& inside == sandbox_rights(pkru, revoked)
    &&& pkru_rights(inside, revoked as int) == pkru_rights(pkru, revoked as int)
        | PKEY_DISABLE_WRITE
    &&& forall|k: int|
        0 <= k < 16 && k != revoked ==> pkru_rights(inside, k) == pkru_rights(pkru, k)
    &&& pkru_rights(inside, pkey as int) == pkru_rights(pkru, pkey as int)
    &&& pkru_rights(inside, DEFAULT_DOMAIN as int) == pkru_rights(pkru, DEFAULT_DOMAIN as int)
    &&& inside & pkru == pkru
}

} // verus!
