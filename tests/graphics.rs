use libuefi::graphics::{
    set_max_graphics_mode, BltOperation, BltPixel, BltRequest, GraphicsOutput, Mode, ModeInfo, PixelBitMask, PixelFormat,
    SimpleMode,
};
use libuefi::simulated::SimulatedGraphics;
use libuefi::status::{Completion, Status};
use libuefi::time::{Daylight, Time, TimeZone};

fn info(w: u32, h: u32) -> ModeInfo {
    ModeInfo {
        version: 0,
        horizontal_resolution: w,
        vertical_resolution: h,
        pixel_format: PixelFormat::PixelBlueGreenRedReserved8BitPerColor,
        pixel_info: PixelBitMask::default(),
        pixels_per_scan_line: w,
    }
}

#[test]
fn largest_graphics_mode_is_selected() {
    let mut gop = GraphicsOutput { table: SimulatedGraphics::new(vec![info(640, 480), info(1024, 768), info(800, 600)]) };
    set_max_graphics_mode(&mut gop);
    assert_eq!(gop.table.selected, vec![1]);
}

#[test]
fn no_graphics_modes_selects_mode_zero() {
    let mut gop = GraphicsOutput { table: SimulatedGraphics::new(vec![]) };
    set_max_graphics_mode(&mut gop);
    assert_eq!(gop.table.selected, vec![0]);
}

#[test]
fn graphics_query() {
    let gop = GraphicsOutput { table: SimulatedGraphics::new(vec![info(640, 480)]) };
    let mode = gop.query_mode(0).unwrap().unwrap();
    assert_eq!((mode.width(), mode.height()), (640, 480));
    assert_eq!(mode.index, 0);
    assert_eq!(mode.info().pixels_per_scan_line(), 640);
    assert_eq!(mode.info().pixel_format(), PixelFormat::PixelBlueGreenRedReserved8BitPerColor);
    assert_eq!(mode.info().pixel_info(), PixelBitMask::default());
    assert!(matches!(gop.query_mode(1), Err(Status::InvalidParameter)));
    assert_eq!(gop.mode().max_mode(), 1);
    assert_eq!(gop.mode().info(), ModeInfo::default());
    assert_eq!(gop.mode().base().get(), 0);
}

#[test]
fn blits_place_their_arguments() {
    let mut gop = GraphicsOutput { table: SimulatedGraphics::new(vec![info(640, 480)]) };
    let px = BltPixel::new(1, 2, 3);
    assert_eq!((px.red, px.green, px.blue, px.reserved), (1, 2, 3, 0));
    assert_eq!(gop.blt_fill(px, 10, 20, 30, 40), Ok(Completion::Success(())));
    let mut data = vec![px; 4];
    assert_eq!(gop.blt_from_video(&mut data, 2, 2, 5, 6), Ok(Completion::Success(())));
    assert_eq!(gop.blt_inner_video(3, 4, 1, 2, 7, 8), Ok(Completion::Success(())));
    assert_eq!(gop.blt_to_video(&mut data, 2, 2, 9, 9), Ok(Completion::Success(())));
    let fill = BltRequest { operation: BltOperation::EfiBltVideoFill, src_x: 0, src_y: 0, dst_x: 30, dst_y: 40, width: 10, height: 20, delta: 0 };
    let from = BltRequest { operation: BltOperation::EfiBltVideoToBltBuffer, src_x: 5, src_y: 6, dst_x: 0, dst_y: 0, width: 2, height: 2, delta: 0 };
    let inner = BltRequest { operation: BltOperation::EfiBltVideoToVideo, src_x: 1, src_y: 2, dst_x: 7, dst_y: 8, width: 3, height: 4, delta: 0 };
    let to = BltRequest { operation: BltOperation::EfiBltBufferToVideo, src_x: 0, src_y: 0, dst_x: 9, dst_y: 9, width: 2, height: 2, delta: 0 };
    assert_eq!(gop.table.blts, vec![fill, from, inner, to]);
}

#[test]
fn graphics_defaults() {
    let m = SimpleMode::default();
    assert_eq!((m.width(), m.height(), m.index), (0, 0, 0));
    assert_eq!(Mode::default().max_mode(), 0);
    let mut gop = GraphicsOutput { table: SimulatedGraphics::new(vec![info(1, 1)]) };
    assert_eq!(gop.set_mode(&m), Ok(Completion::Success(())));
}

#[test]
fn time_fields() {
    let t = Time { year: 2024, month: 5, day: 17, hour: 1, minute: 2, second: 3, nano_second: 0, time_zone: TimeZone::default(), day_light: Daylight::default() };
    assert_eq!((t.year(), t.month(), t.day()), (2024, 5, 17));
    assert_eq!(t.format_time(), "");
    assert_eq!(Time::default().time_zone, TimeZone::Unspecified);
    assert_eq!(Daylight::default(), Daylight::Adjust);
}
