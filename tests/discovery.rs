use libuefi::boot::{BootServices, Guid, Handle, LocateSearchType, Protocol};
use libuefi::file::SimpleFileSystem;
use libuefi::graphics::GraphicsOutput;
use libuefi::simulated::{SimulatedBoot, SimulatedVolume};
use libuefi::status::{Completion, Status};

fn capability(n: u32) -> Guid {
    Guid { data1: n, data2: 1, data3: 2, data4: 0x0102_0304_0506_0708 }
}

#[test]
fn no_handles_means_empty_and_not_found() {
    let boot = BootServices { table: SimulatedBoot::new() };
    let x = capability(1);
    let handles = boot.find_handles(x);
    assert_eq!(handles, Ok(Completion::Success(Vec::new())));
    assert_eq!(boot.find_protocol(x), None);
}

#[test]
fn find_handles_in_registration_order() {
    let mut table = SimulatedBoot::new();
    let x = capability(1);
    let y = capability(2);
    table.install(Handle(3), x, 0x300);
    table.install(Handle(4), y, 0x400);
    table.install(Handle(1), x, 0x100);
    let boot = BootServices { table };
    let expected = vec![Handle(3), Handle(1)];
    assert_eq!(boot.find_handles(x), Ok(Completion::Success(expected.clone())));
    // An unchanged firmware answers the same way again.
    assert_eq!(boot.find_handles(x), Ok(Completion::Success(expected)));
    assert_eq!(boot.find_handles(y), Ok(Completion::Success(vec![Handle(4)])));
}

#[test]
fn probe_reports_size_needed() {
    let mut table = SimulatedBoot::new();
    let x = capability(9);
    table.install(Handle(1), x, 0x10);
    table.install(Handle(2), x, 0x20);
    table.install(Handle(5), x, 0x50);
    let boot = BootServices { table };
    let search = LocateSearchType::ByProtocol(x);
    let mut probe: Vec<Handle> = Vec::new();
    assert_eq!(boot.locate_handle(search, &mut probe), Ok(Completion::Success(3)));
    let mut small = vec![Handle(0); 2];
    assert_eq!(boot.locate_handle(search, &mut small), Err(Status::BufferTooSmall));
    let mut big = vec![Handle(0); 5];
    assert_eq!(boot.locate_handle(search, &mut big), Ok(Completion::Success(3)));
    assert_eq!(big, vec![Handle(1), Handle(2), Handle(5)]);
}

#[test]
fn find_protocol_skips_handles_without_interface() {
    let mut table = SimulatedBoot::new();
    let x = capability(7);
    // Found by the search, but its interface is null.
    table.install(Handle(1), x, 0);
    table.install(Handle(2), x, 0x2000);
    table.install(Handle(3), x, 0x3000);
    let boot = BootServices { table };
    assert_eq!(boot.find_protocol(x), Some(0x2000));
    assert_eq!(boot.handle_protocol(Handle(1), &x), None);
    assert_eq!(boot.handle_protocol(Handle(3), &x), Some(0x3000));
    assert_eq!(boot.handle_protocol(Handle(3), &capability(8)), None);
}

#[test]
fn all_handles_search() {
    let mut table = SimulatedBoot::new();
    table.install(Handle(1), capability(1), 0x10);
    table.install(Handle(2), capability(2), 0x20);
    let boot = BootServices { table };
    let mut buffer = vec![Handle(0); 4];
    assert_eq!(boot.locate_handle(LocateSearchType::AllHandles, &mut buffer), Ok(Completion::Success(2)));
    assert_eq!(buffer, vec![Handle(1), Handle(2)]);
}

#[test]
fn protocols_name_their_identifiers() {
    assert_eq!(
        LocateSearchType::from_proto::<GraphicsOutput<()>>(),
        LocateSearchType::ByProtocol(GraphicsOutput::<()>::guid())
    );
    let fs = SimpleFileSystem::<SimulatedVolume>::guid();
    assert_eq!(fs.data1, 0x964e5b22);
    assert_ne!(fs, GraphicsOutput::<()>::guid());
}

#[test]
fn priority_raise_and_restore() {
    let mut boot = BootServices { table: SimulatedBoot::new() };
    let old = boot.raise_tpl(libuefi::boot::Tpl::Notify);
    assert_eq!(old, libuefi::boot::Tpl::Application);
    assert_eq!(boot.restore_tpl(old), libuefi::boot::Tpl::Notify);
    assert_eq!(boot.table.tpl, libuefi::boot::Tpl::Application);
    assert_eq!(boot.stall(10), Ok(Completion::Success(())));
    assert_eq!(boot.table.stalls, vec![10]);
}
