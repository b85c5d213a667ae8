use libuefi::console::TextOutput;
use libuefi::device_path::{DevicePath, DevicePathType, EndSubType};
use libuefi::input::{TextInput, TextInputKey};
use libuefi::runtime::{shutdown, ResetType, RuntimeServices};
use libuefi::simulated::{SimulatedConsole, SimulatedKeyboard, SimulatedRuntime};
use libuefi::status::{Completion, Status};

#[test]
fn keys_come_in_order_then_not_ready() {
    let a = TextInputKey { scan_code: 0, unicode_char: 97 };
    let up = TextInputKey { scan_code: 1, unicode_char: 0 };
    let mut input = TextInput { table: SimulatedKeyboard { keys: vec![a, up], next: 0 } };
    assert_eq!(input.read_key_stroke(), Ok(a));
    assert_eq!(input.read_key_stroke(), Ok(up));
    assert_eq!(input.read_key_stroke(), Err(Status::NotReady));
}

#[test]
fn input_reset_drops_pending_keys() {
    let mut input = TextInput { table: SimulatedKeyboard { keys: vec![TextInputKey::default()], next: 0 } };
    assert_eq!(input.reset(false), Ok(Completion::Success(())));
    assert_eq!(input.read_key_stroke(), Err(Status::NotReady));
}

#[test]
fn shutdown_asks_for_a_shutdown_reset() {
    let mut rt = RuntimeServices { table: SimulatedRuntime { resets: Vec::new() } };
    shutdown(&mut rt);
    assert_eq!(rt.table.resets, vec![(ResetType::EfiResetShutdown, Status::Success)]);
    assert_eq!(rt.reset_system(ResetType::EfiResetWarm, Status::Aborted), Ok(Completion::Success(())));
    assert_eq!(rt.table.resets.len(), 2);
}

#[test]
fn console_control_calls() {
    let mut out = TextOutput { table: SimulatedConsole::new(vec![(80, 25)]) };
    assert!(out.test_string(&vec![72u16, 105]));
    assert!(!out.test_string(&vec![0x263a_u16]));
    assert_eq!(out.reset(true), Ok(Completion::Success(())));
    assert_eq!(out.set_attribute(0x0f), Ok(Completion::Success(())));
    assert_eq!(out.clear_screen(), Ok(Completion::Success(())));
    assert_eq!(out.set_cursor_position(3, 4), Ok(Completion::Success(())));
    assert_eq!(out.enable_cursor(false), Ok(Completion::Success(())));
    assert!(out.table.sent.is_empty());
}

#[test]
fn device_path_header() {
    let end = DevicePath { ty: DevicePathType::End, sub_type: 0xff, len: 4 };
    assert_eq!(end.ty, DevicePathType::End);
    assert_ne!(EndSubType::EndEntireDPS, EndSubType::EndInstanceDPS);
}
