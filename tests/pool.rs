use libuefi::boot::BootServices;
use libuefi::memory::{MemoryType, PhysAddress, Void};
use libuefi::pool::Allocator;
use libuefi::simulated::SimulatedBoot;
use libuefi::status::Completion;

fn ready() -> Allocator<SimulatedBoot> {
    let mut a = Allocator::new();
    a.init(BootServices { table: SimulatedBoot::new() });
    a
}

fn requests(a: &Allocator<SimulatedBoot>) -> usize {
    a.boot.as_ref().unwrap().table.request_count()
}

#[test]
fn allocation_with_small_alignment_succeeds() {
    let mut a = ready();
    for align in [1usize, 2, 4, 8] {
        let p = a.allocate(24, align);
        assert_ne!(p.get(), 0);
        assert_eq!(p.get() % 8, 0);
    }
    assert_eq!(requests(&a), 4);
}

#[test]
fn blocks_do_not_overlap() {
    let mut a = ready();
    let p = a.allocate(100, 8).get();
    let q = a.allocate(1, 8).get();
    assert!(q >= p + 100);
}

#[test]
fn strict_alignment_fails_without_asking() {
    let mut a = ready();
    assert_eq!(a.allocate(16, 16), PhysAddress::new(0));
    assert_eq!(a.allocate(1, 4096), PhysAddress::new(0));
    assert_eq!(requests(&a), 0);
}

#[test]
fn dealloc_does_not_fail() {
    let mut a = ready();
    let p = a.allocate(32, 8);
    a.dealloc(p);
    a.dealloc(PhysAddress::new(0x12345));
    assert_eq!(requests(&a), 1);
}

#[test]
fn pool_calls_report_status() {
    let mut boot = BootServices { table: SimulatedBoot::new() };
    let r = boot.allocate_pool(MemoryType::EfiLoaderData, 10);
    let addr = match r {
        Ok(Completion::Success(a)) => a,
        other => panic!("unexpected {:?}", other),
    };
    assert_eq!(addr.get() % 8, 0);
    assert_eq!(boot.free_pool(addr), Ok(Completion::Success(())));
}

#[test]
fn addresses() {
    assert_eq!(Void::new().get(), 0);
    assert_eq!(Void::from_addr(0x40).get(), 0x40);
    assert_eq!(PhysAddress::from_mut_u8(9).get(), 9);
    assert_eq!(PhysAddress::from_ptr(11), PhysAddress::new(11));
}

#[test]
fn requests_name_loader_data() {
    let mut a = ready();
    let _ = a.allocate(40, 4);
    let _ = a.allocate(7, 1);
    assert_eq!(
        a.boot.as_ref().unwrap().table.requests,
        vec![(MemoryType::EfiLoaderData, 40), (MemoryType::EfiLoaderData, 7)]
    );
}
