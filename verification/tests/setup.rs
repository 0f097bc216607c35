use mpk::region::Region;
use mpk::sandbox::{
    stack_is_usable, InitAction, InitEvent, InitFailure, Sandbox, SandboxState,
    DEFAULT_REVOKED_DOMAIN, SANDBOX_STACK_SIZE,
};

const STACK: usize = 0x7f00_0000_0000;

fn region() -> Region {
    Region::new(0x40_0000, 0x41_0000).expect("bounds of a region")
}

fn active(pkey: i32) -> Sandbox {
    let region = region();
    let mut sandbox = Sandbox::new();
    sandbox.init(&region, InitEvent::Begin);
    sandbox.init(&region, InitEvent::DomainAllocated(pkey));
    sandbox.init(&region, InitEvent::RegionProtected(0));
    sandbox.init(&region, InitEvent::StackMapped(STACK));
    sandbox.init(&region, InitEvent::StackProtected(0));
    sandbox
}

#[test]
fn new_sandbox_is_uninitialized() {
    let sandbox = Sandbox::new();
    assert_eq!(sandbox.state(), SandboxState::Uninitialized);
    assert_eq!(sandbox.pkey(), None);
    assert_eq!(sandbox.stack(), None);
    assert_eq!(sandbox.revoked_domain(), DEFAULT_REVOKED_DOMAIN);
    assert_eq!(DEFAULT_REVOKED_DOMAIN, 11);
}

#[test]
fn revoked_domain_is_chosen_with_the_sandbox() {
    for domain in 1..16 {
        let sandbox = Sandbox::with_revoked_domain(domain).expect("a domain that can be revoked");
        assert_eq!(sandbox.revoked_domain(), domain);
        assert_eq!(sandbox.state(), SandboxState::Uninitialized);
    }
}

#[test]
fn default_domain_and_unknown_domains_cannot_be_revoked() {
    assert!(Sandbox::with_revoked_domain(0).is_none());
    assert!(Sandbox::with_revoked_domain(16).is_none());
    assert!(Sandbox::with_revoked_domain(-1).is_none());
    assert!(Sandbox::with_revoked_domain(i32::MAX).is_none());
    assert!(Sandbox::with_revoked_domain(i32::MIN).is_none());
}

#[test]
fn sandbox_does_not_take_the_domain_it_revokes() {
    let region = region();
    let mut sandbox = Sandbox::new();
    sandbox.init(&region, InitEvent::Begin);
    let action = sandbox.init(&region, InitEvent::DomainAllocated(11));
    assert_eq!(action, InitAction::Failed { cause: InitFailure::DomainUnusable });
    assert_eq!(sandbox.state(), SandboxState::Disabled { cause: InitFailure::DomainUnusable });
    assert_eq!(sandbox.init(&region, InitEvent::Begin), InitAction::Finished { handle: None });

    let mut sandbox = Sandbox::with_revoked_domain(5).expect("a domain that can be revoked");
    sandbox.init(&region, InitEvent::Begin);
    let action = sandbox.init(&region, InitEvent::DomainAllocated(5));
    assert_eq!(action, InitAction::Failed { cause: InitFailure::DomainUnusable });

    let mut sandbox = Sandbox::with_revoked_domain(5).expect("a domain that can be revoked");
    sandbox.init(&region, InitEvent::Begin);
    let action = sandbox.init(&region, InitEvent::DomainAllocated(11));
    assert_eq!(
        action,
        InitAction::ProtectRegion { addr: 0x40_0000, len: 0x1_0000, prot: 3, pkey: 11 }
    );
}

#[test]
fn sandbox_does_not_take_a_domain_the_register_lacks() {
    let region = region();
    for pkey in [16, 17, 1000, i32::MAX] {
        let mut sandbox = Sandbox::new();
        sandbox.init(&region, InitEvent::Begin);
        let action = sandbox.init(&region, InitEvent::DomainAllocated(pkey));
        assert_eq!(action, InitAction::Failed { cause: InitFailure::DomainUnusable });
        assert_eq!(sandbox.pkey(), None);
    }
    let mut sandbox = Sandbox::new();
    sandbox.init(&region, InitEvent::Begin);
    let action = sandbox.init(&region, InitEvent::DomainAllocated(15));
    assert_eq!(
        action,
        InitAction::ProtectRegion { addr: 0x40_0000, len: 0x1_0000, prot: 3, pkey: 15 }
    );
}

#[test]
fn stack_is_eight_mebibytes() {
    assert_eq!(SANDBOX_STACK_SIZE, 8 * 1024 * 1024);
    assert_eq!(SANDBOX_STACK_SIZE, 1 << 23);
}

#[test]
fn set_up_asks_for_each_step_in_turn() {
    let region = region();
    let mut sandbox = Sandbox::new();

    let action = sandbox.init(&region, InitEvent::Begin);
    assert_eq!(action, InitAction::AllocateDomain { flags: 0, access_rights: 0 });
    assert_eq!(sandbox.state(), SandboxState::AllocatingDomain);

    let action = sandbox.init(&region, InitEvent::DomainAllocated(1));
    assert_eq!(
        action,
        InitAction::ProtectRegion { addr: 0x40_0000, len: 0x1_0000, prot: 3, pkey: 1 }
    );
    assert_eq!(sandbox.state(), SandboxState::ProtectingRegion { pkey: 1 });

    let action = sandbox.init(&region, InitEvent::RegionProtected(0));
    assert_eq!(action, InitAction::MapStack { len: 0x80_0000, prot: 3, flags: 0x22 });
    assert_eq!(sandbox.state(), SandboxState::MappingStack { pkey: 1 });

    let action = sandbox.init(&region, InitEvent::StackMapped(STACK));
    assert_eq!(
        action,
        InitAction::ProtectStack { addr: STACK, len: 0x80_0000, prot: 3, pkey: 1 }
    );
    assert_eq!(sandbox.state(), SandboxState::ProtectingStack { pkey: 1, stack: STACK });

    let action = sandbox.init(&region, InitEvent::StackProtected(0));
    assert_eq!(action, InitAction::Finished { handle: Some(1) });
    assert_eq!(sandbox.state(), SandboxState::Active { pkey: 1, stack: STACK });
    assert_eq!(sandbox.pkey(), Some(1));
    assert_eq!(sandbox.stack(), Some(STACK));
}

#[test]
fn requests_use_the_systems_own_constants() {
    let region = region();
    let mut sandbox = Sandbox::new();
    sandbox.init(&region, InitEvent::Begin);
    sandbox.init(&region, InitEvent::DomainAllocated(2));
    match sandbox.init(&region, InitEvent::RegionProtected(0)) {
        InitAction::MapStack { prot, flags, .. } => {
            assert_eq!(prot, libc::PROT_READ | libc::PROT_WRITE);
            assert_eq!(flags, libc::MAP_ANONYMOUS | libc::MAP_PRIVATE);
        }
        other => panic!("unexpected request: {:?}", other),
    }
    assert_eq!(
        sandbox.init(&region, InitEvent::StackMapped(libc::MAP_FAILED as usize)),
        InitAction::Failed { cause: InitFailure::StackAllocation }
    );
}

#[test]
fn initializing_twice_gives_the_same_handle() {
    let region = region();
    let mut sandbox = active(3);
    let before = sandbox.state();
    let first = sandbox.init(&region, InitEvent::Begin);
    let second = sandbox.init(&region, InitEvent::Begin);
    assert_eq!(first, InitAction::Finished { handle: Some(3) });
    assert_eq!(second, first);
    assert_eq!(sandbox.state(), before);
}

#[test]
fn active_sandbox_ignores_every_event() {
    let region = region();
    let mut sandbox = active(3);
    let before = sandbox.state();
    for event in [
        InitEvent::Begin,
        InitEvent::DomainAllocated(7),
        InitEvent::DomainAllocated(-1),
        InitEvent::RegionProtected(-1),
        InitEvent::StackMapped(0x1000),
        InitEvent::StackMapped(usize::MAX),
        InitEvent::StackProtected(-1),
    ] {
        assert_eq!(sandbox.init(&region, event), InitAction::Finished { handle: Some(3) });
        assert_eq!(sandbox.state(), before);
    }
}

#[test]
fn domain_allocation_failure_disables() {
    let region = region();
    let mut sandbox = Sandbox::new();
    sandbox.init(&region, InitEvent::Begin);
    let action = sandbox.init(&region, InitEvent::DomainAllocated(-1));
    assert_eq!(action, InitAction::Failed { cause: InitFailure::DomainAllocation });
    assert_eq!(sandbox.state(), SandboxState::Disabled { cause: InitFailure::DomainAllocation });
    assert_eq!(sandbox.pkey(), None);
    assert_eq!(sandbox.stack(), None);
}

#[test]
fn region_protection_failure_disables() {
    let region = region();
    let mut sandbox = Sandbox::new();
    sandbox.init(&region, InitEvent::Begin);
    sandbox.init(&region, InitEvent::DomainAllocated(1));
    let action = sandbox.init(&region, InitEvent::RegionProtected(-1));
    assert_eq!(action, InitAction::Failed { cause: InitFailure::RegionProtection });
    assert_eq!(sandbox.state(), SandboxState::Disabled { cause: InitFailure::RegionProtection });
}

#[test]
fn stack_allocation_failure_disables() {
    let region = region();
    let mut sandbox = Sandbox::new();
    sandbox.init(&region, InitEvent::Begin);
    sandbox.init(&region, InitEvent::DomainAllocated(1));
    sandbox.init(&region, InitEvent::RegionProtected(0));
    let action = sandbox.init(&region, InitEvent::StackMapped(usize::MAX));
    assert_eq!(action, InitAction::Failed { cause: InitFailure::StackAllocation });
    assert_eq!(sandbox.state(), SandboxState::Disabled { cause: InitFailure::StackAllocation });
}

#[test]
fn stack_protection_failure_disables() {
    let region = region();
    let mut sandbox = Sandbox::new();
    sandbox.init(&region, InitEvent::Begin);
    sandbox.init(&region, InitEvent::DomainAllocated(1));
    sandbox.init(&region, InitEvent::RegionProtected(0));
    sandbox.init(&region, InitEvent::StackMapped(STACK));
    let action = sandbox.init(&region, InitEvent::StackProtected(-1));
    assert_eq!(action, InitAction::Failed { cause: InitFailure::StackProtection });
    assert_eq!(sandbox.state(), SandboxState::Disabled { cause: InitFailure::StackProtection });
    assert_eq!(sandbox.stack(), None);
}

#[test]
fn failure_is_announced_once_and_stays() {
    let region = region();
    let mut sandbox = Sandbox::new();
    sandbox.init(&region, InitEvent::Begin);
    assert_eq!(
        sandbox.init(&region, InitEvent::DomainAllocated(-1)),
        InitAction::Failed { cause: InitFailure::DomainAllocation }
    );
    let disabled = sandbox.state();
    for event in [
        InitEvent::Begin,
        InitEvent::DomainAllocated(4),
        InitEvent::RegionProtected(0),
        InitEvent::StackMapped(STACK),
        InitEvent::StackProtected(0),
    ] {
        assert_eq!(sandbox.init(&region, event), InitAction::Finished { handle: None });
        assert_eq!(sandbox.state(), disabled);
    }
}

#[test]
fn event_that_answers_nothing_repeats_the_request() {
    let region = region();
    let mut sandbox = Sandbox::new();
    sandbox.init(&region, InitEvent::Begin);
    assert_eq!(
        sandbox.init(&region, InitEvent::StackProtected(0)),
        InitAction::AllocateDomain { flags: 0, access_rights: 0 }
    );
    assert_eq!(sandbox.state(), SandboxState::AllocatingDomain);
    sandbox.init(&region, InitEvent::DomainAllocated(5));
    assert_eq!(
        sandbox.init(&region, InitEvent::Begin),
        InitAction::ProtectRegion { addr: 0x40_0000, len: 0x1_0000, prot: 3, pkey: 5 }
    );
    assert_eq!(sandbox.state(), SandboxState::ProtectingRegion { pkey: 5 });
    sandbox.init(&region, InitEvent::RegionProtected(0));
    assert_eq!(
        sandbox.init(&region, InitEvent::DomainAllocated(9)),
        InitAction::MapStack { len: 0x80_0000, prot: 3, flags: 0x22 }
    );
    sandbox.init(&region, InitEvent::StackMapped(STACK));
    assert_eq!(
        sandbox.init(&region, InitEvent::StackMapped(0x1000)),
        InitAction::ProtectStack { addr: STACK, len: 0x80_0000, prot: 3, pkey: 5 }
    );
    assert_eq!(sandbox.state(), SandboxState::ProtectingStack { pkey: 5, stack: STACK });
}

#[test]
fn zero_is_a_domain_handle() {
    let sandbox = active(0);
    assert_eq!(sandbox.pkey(), Some(0));
}

#[test]
fn usable_stack_is_mapped_aligned_and_addressable() {
    assert!(stack_is_usable(STACK));
    assert!(stack_is_usable(0x1000));
    assert!(stack_is_usable(0));
    assert!(!stack_is_usable(usize::MAX));
    assert!(!stack_is_usable(STACK + 8));
    assert!(!stack_is_usable(usize::MAX - 0xfff));
    assert!(!stack_is_usable(usize::MAX - 0xfff - 0x1000));
    assert!(stack_is_usable(((usize::MAX - SANDBOX_STACK_SIZE) / 0x1000) * 0x1000));
}

#[test]
fn misplaced_stack_is_an_allocation_failure() {
    let region = region();
    let mut sandbox = Sandbox::new();
    sandbox.init(&region, InitEvent::Begin);
    sandbox.init(&region, InitEvent::DomainAllocated(1));
    sandbox.init(&region, InitEvent::RegionProtected(0));
    let action = sandbox.init(&region, InitEvent::StackMapped(STACK + 1));
    assert_eq!(action, InitAction::Failed { cause: InitFailure::StackAllocation });
}
