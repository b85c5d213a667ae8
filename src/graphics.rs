//! Graphics output: display modes and block transfers.
use vstd::prelude::*;
use crate::boot::{Guid, Protocol};
use crate::memory::PhysAddress;
use crate::modes::{largest_mode, select_largest};
use crate::status::{Completion, Status, UefiResult, outcome, unit_outcome};

verus! {

/// The identifier of the graphics output protocol.
pub open spec fn graphics_output_guid() -> Guid {
    Guid { data1: 0x9042a9de, data2: 0x23dc, data3: 0x4a38, data4: 0x96fb_7ade_d080_516a }
}

/// How the bits of a pixel are laid out.
#[derive(Debug, Copy, Clone, PartialEq, Eq, Structural)]
pub enum PixelFormat {
    PixelRedGreenBlueReserved8BitPerColor,
    PixelBlueGreenRedReserved8BitPerColor,
    PixelBitMask,
    PixelBltOnly,
}

/// The bits of each colour, for the bit-mask pixel format.
#[derive(Debug, Copy, Clone, PartialEq, Eq, Structural)]
pub struct PixelBitMask {
    pub red_mask: u32,
    pub green_mask: u32,
    pub blue_mask: u32,
    pub reserved_mask: u32,
}

impl Default for PixelBitMask {
    fn default() -> (r: Self)
        ensures
            r == (PixelBitMask { red_mask: 0, green_mask: 0, blue_mask: 0, reserved_mask: 0 }),
    {
        PixelBitMask { red_mask: 0, green_mask: 0, blue_mask: 0, reserved_mask: 0 }
    }
}

/// The description of a display mode.
#[derive(Debug, Copy, Clone, PartialEq, Eq, Structural)]
pub struct ModeInfo {
    pub version: u32,
    pub horizontal_resolution: u32,
    pub vertical_resolution: u32,
    pub pixel_format: PixelFormat,
    pub pixel_info: PixelBitMask,
    pub pixels_per_scan_line: u32,
}

impl ModeInfo {
    pub fn width(&self) -> (r: u32)
        ensures
            r == self.horizontal_resolution,
    {
        self.horizontal_resolution
    }

    pub fn height(&self) -> (r: u32)
        ensures
            r == self.vertical_resolution,
    {
        self.vertical_resolution
    }

    pub fn pixel_format(&self) -> (r: PixelFormat)
        ensures
            r == self.pixel_format,
    {
        self.pixel_format
    }

    pub fn pixel_info(&self) -> (r: PixelBitMask)
        ensures
            r == self.pixel_info,
    {
        self.pixel_info
    }

    pub fn pixels_per_scan_line(&self) -> (r: u32)
        ensures
            r == self.pixels_per_scan_line,
    {
        self.pixels_per_scan_line
    }
}

/// The mode of no size.
pub open spec fn empty_mode_info() -> ModeInfo {
    ModeInfo {
        version: 0,
        horizontal_resolution: 0,
        vertical_resolution: 0,
        pixel_format: PixelFormat::PixelRedGreenBlueReserved8BitPerColor,
        pixel_info: PixelBitMask { red_mask: 0, green_mask: 0, blue_mask: 0, reserved_mask: 0 },
        pixels_per_scan_line: 0,
    }
}

impl Default for ModeInfo {
    fn default() -> (r: Self)
        ensures
            r == empty_mode_info(),
    {
        ModeInfo {
            version: 0,
            horizontal_resolution: 0,
            vertical_resolution: 0,
            pixel_format: PixelFormat::PixelRedGreenBlueReserved8BitPerColor,
            pixel_info: PixelBitMask::default(),
            pixels_per_scan_line: 0,
        }
    }
}

/// One pixel of a block transfer.
#[derive(Debug, Copy, Clone, PartialEq, Eq, Structural)]
pub struct BltPixel {
    pub blue: u8,
    pub green: u8,
    pub red: u8,
    pub reserved: u8,
}

impl BltPixel {
    pub fn new(red: u8, green: u8, blue: u8) -> (r: Self)
        ensures
            r == (BltPixel { blue, green, red, reserved: 0 }),
    {
        BltPixel { blue, green, red, reserved: 0 }
    }
}

/// The kinds of block transfer.
#[derive(Debug, Copy, Clone, PartialEq, Eq, Structural)]
pub enum BltOperation {
    EfiBltVideoFill,
    EfiBltVideoToBltBuffer,
    EfiBltBufferToVideo,
    EfiBltVideoToVideo,
    EfiGraphicsOutputBltOperationMax,
}

/// The arguments of one block transfer, besides its buffer.
#[derive(Debug, Copy, Clone, PartialEq, Eq, Structural)]
pub struct BltRequest {
    pub operation: BltOperation,
    pub src_x: usize,
    pub src_y: usize,
    pub dst_x: usize,
    pub dst_y: usize,
    pub width: usize,
    pub height: usize,
    pub delta: usize,
}

/// A display mode, as a query returns it.
#[derive(Debug, Copy, Clone, PartialEq, Eq, Structural)]
pub struct SimpleMode {
    pub index: u32,
    pub info_size: usize,
    pub info: ModeInfo,
}

impl SimpleMode {
    pub fn info(&self) -> (r: ModeInfo)
        ensures
            r == self.info,
    {
        self.info
    }

    pub fn width(&self) -> (r: u32)
        ensures
            r == self.info.horizontal_resolution,
    {
        self.info.width()
    }

    pub fn height(&self) -> (r: u32)
        ensures
            r == self.info.vertical_resolution,
    {
        self.info.height()
    }
}

impl Default for SimpleMode {
    fn default() -> (r: Self)
        ensures
            r == (SimpleMode { index: 0, info_size: 0, info: empty_mode_info() }),
    {
        SimpleMode { index: 0, info_size: 0, info: ModeInfo::default() }
    }
}

/// The state of the graphics output.
#[derive(Debug, Copy, Clone, PartialEq, Eq, Structural)]
pub struct Mode {
    pub max_mode: u32,
    pub mode: u32,
    pub info: ModeInfo,
    pub size_of_info: usize,
    pub frame_buffer_base: PhysAddress,
    pub frame_buffer_size: usize,
}

impl Mode {
    pub fn max_mode(&self) -> (r: u32)
        ensures
            r == self.max_mode,
    {
        self.max_mode
    }

    pub fn info(&self) -> (r: ModeInfo)
        ensures
            r == self.info,
    {
        self.info
    }

    pub fn base(&self) -> (r: PhysAddress)
        ensures
            r == self.frame_buffer_base,
    {
        self.frame_buffer_base
    }
}

impl Default for Mode {
    fn default() -> (r: Self)
        ensures
            r == (Mode {
                max_mode: 0,
                mode: 0,
                info: empty_mode_info(),
                size_of_info: 0,
                frame_buffer_base: PhysAddress(0),
                frame_buffer_size: 0,
            }),
    {
        Mode {
            max_mode: 0,
            mode: 0,
            info: ModeInfo::default(),
            size_of_info: 0,
            frame_buffer_base: PhysAddress(0),
            frame_buffer_size: 0,
        }
    }
}

/// The raw entries of a graphics output protocol.
///
/// The spec functions describe the answers of an implementation, which
/// defines them; their defaults name no particular value.
pub trait GraphicsOutputTable: Sized {
    /// What querying mode `index` reports: status, size of the description,
    /// and the description.
    closed spec fn query_response(&self, index: u32) -> (Status, usize, ModeInfo) {
        arbitrary()
    }

    closed spec fn set_mode_response(&self, index: u32) -> Status {
        arbitrary()
    }

    /// The modes selected so far, in order.
    closed spec fn selected_modes(&self) -> Seq<u32> {
        arbitrary()
    }

    closed spec fn spec_mode(&self) -> Mode {
        arbitrary()
    }

    closed spec fn blt_response(&self, request: BltRequest) -> Status {
        arbitrary()
    }

    /// The block transfers asked for so far, in order.
    closed spec fn blts(&self) -> Seq<BltRequest> {
        arbitrary()
    }

    fn query_mode_raw(&self, index: u32) -> (r: (Status, usize, ModeInfo))
        ensures
            r == self.query_response(index),
    ;

    fn set_mode_raw(&mut self, index: u32) -> (r: Status)
        ensures
            r == old(self).set_mode_response(index),
            final(self).selected_modes() == old(self).selected_modes().push(index),
            final(self).blts() == old(self).blts(),
    ;

    fn mode_raw(&self) -> (r: Mode)
        ensures
            r == self.spec_mode(),
    ;

    /// A block transfer; `buffer` holds the pixels read or written.
    fn blt_raw(&mut self, buffer: &mut Vec<BltPixel>, request: BltRequest) -> (r: Status)
        ensures
            r == old(self).blt_response(request),
            final(self).blts() == old(self).blts().push(request),
            final(self).selected_modes() == old(self).selected_modes(),
            final(buffer)@.len() == old(buffer)@.len(),
    ;
}

/// A graphics output.
pub struct GraphicsOutput<T> {
    pub table: T,
}

impl<T> Protocol for GraphicsOutput<T> {
    open spec fn spec_guid() -> Guid {
        graphics_output_guid()
    }

    fn guid() -> (r: Guid) {
        Guid { data1: 0x9042a9de, data2: 0x23dc, data3: 0x4a38, data4: 0x96fb_7ade_d080_516a }
    }
}

/// The block transfer that fills a rectangle with one colour.
pub open spec fn fill_request(w: usize, h: usize, x: usize, y: usize) -> BltRequest {
    BltRequest { operation: BltOperation::EfiBltVideoFill, src_x: 0, src_y: 0, dst_x: x, dst_y: y, width: w, height: h, delta: 0 }
}

impl<T: GraphicsOutputTable> GraphicsOutput<T> {
    /// Describes mode `index`.
    pub fn query_mode(&self, index: u32) -> (r: UefiResult<SimpleMode>)
        ensures
            ({
                let q = self.table.query_response(index);
                r == outcome(q.0, SimpleMode { index, info_size: q.1, info: q.2 })
            }),
    {
        let (status, info_size, info) = self.table.query_mode_raw(index);
        let mode = SimpleMode { index, info_size, info };
        status.into_with(|| -> (v: SimpleMode) ensures v == mode { mode })
    }

    /// The current state of the output.
    pub fn mode(&self) -> (r: Mode)
        ensures
            r == self.table.spec_mode(),
    {
        self.table.mode_raw()
    }

    /// Selects `mode`.
    pub fn set_mode(&mut self, mode: &SimpleMode) -> (r: UefiResult<()>)
        ensures
            r == unit_outcome(old(self).table.set_mode_response(mode.index)),
            final(self).table.selected_modes() == old(self).table.selected_modes().push(mode.index),
            final(self).table.blts() == old(self).table.blts(),
    {
        self.table.set_mode_raw(mode.index).into_result()
    }

    /// Fills the `w` by `h` rectangle at (`x`, `y`) with `px`.
    pub fn blt_fill(&mut self, px: BltPixel, w: usize, h: usize, x: usize, y: usize) -> (r: UefiResult<()>)
        ensures
            r == unit_outcome(old(self).table.blt_response(fill_request(w, h, x, y))),
            final(self).table.blts() == old(self).table.blts().push(fill_request(w, h, x, y)),
            final(self).table.selected_modes() == old(self).table.selected_modes(),
    {
        let mut buffer: Vec<BltPixel> = Vec::new();
        buffer.push(px);
        let request = BltRequest {
            operation: BltOperation::EfiBltVideoFill,
            src_x: 0,
            src_y: 0,
            dst_x: x,
            dst_y: y,
            width: w,
            height: h,
            delta: 0,
        };
        self.table.blt_raw(&mut buffer, request).into_result()
    }

    /// Copies the `w` by `h` pixels of `data` to (`x`, `y`) on screen.
    pub fn blt_to_video(&mut self, data: &mut Vec<BltPixel>, w: usize, h: usize, x: usize, y: usize) -> (r: UefiResult<()>)
        ensures
            ({
                let request = BltRequest {
                    operation: BltOperation::EfiBltBufferToVideo,
                    src_x: 0,
                    src_y: 0,
                    dst_x: x,
                    dst_y: y,
                    width: w,
                    height: h,
                    delta: 0,
                };
                &&& r == unit_outcome(old(self).table.blt_response(request))
                &&& final(self).table.blts() == old(self).table.blts().push(request)
            }),
            final(self).table.selected_modes() == old(self).table.selected_modes(),
            final(data)@.len() == old(data)@.len(),
    {
        let request = BltRequest {
            operation: BltOperation::EfiBltBufferToVideo,
            src_x: 0,
            src_y: 0,
            dst_x: x,
            dst_y: y,
            width: w,
            height: h,
            delta: 0,
        };
        self.table.blt_raw(data, request).into_result()
    }

    /// Copies the `w` by `h` pixels at (`x`, `y`) on screen into `data`.
    pub fn blt_from_video(&mut self, data: &mut Vec<BltPixel>, w: usize, h: usize, x: usize, y: usize) -> (r: UefiResult<()>)
        ensures
            ({
                let request = BltRequest {
                    operation: BltOperation::EfiBltVideoToBltBuffer,
                    src_x: x,
                    src_y: y,
                    dst_x: 0,
                    dst_y: 0,
                    width: w,
                    height: h,
                    delta: 0,
                };
                &&& r == unit_outcome(old(self).table.blt_response(request))
                &&& final(self).table.blts() == old(self).table.blts().push(request)
            }),
            final(self).table.selected_modes() == old(self).table.selected_modes(),
            final(data)@.len() == old(data)@.len(),
    {
        let request = BltRequest {
            operation: BltOperation::EfiBltVideoToBltBuffer,
            src_x: x,
            src_y: y,
            dst_x: 0,
            dst_y: 0,
            width: w,
            height: h,
            delta: 0,
        };
        self.table.blt_raw(data, request).into_result()
    }

    /// Copies the `w` by `h` pixels at (`src_x`, `src_y`) on screen to
    /// (`dst_x`, `dst_y`).
    pub fn blt_inner_video(&mut self, w: usize, h: usize, src_x: usize, src_y: usize, dst_x: usize, dst_y: usize) -> (r: UefiResult<()>)
        ensures
            ({
                let request = BltRequest {
                    operation: BltOperation::EfiBltVideoToVideo,
                    src_x,
                    src_y,
                    dst_x,
                    dst_y,
                    width: w,
                    height: h,
                    delta: 0,
                };
                &&& r == unit_outcome(old(self).table.blt_response(request))
                &&& final(self).table.blts() == old(self).table.blts().push(request)
            }),
            final(self).table.selected_modes() == old(self).table.selected_modes(),
    {
        let mut none: Vec<BltPixel> = Vec::new();
        let request = BltRequest {
            operation: BltOperation::EfiBltVideoToVideo,
            src_x,
            src_y,
            dst_x,
            dst_y,
            width: w,
            height: h,
            delta: 0,
        };
        self.table.blt_raw(&mut none, request).into_result()
    }
}

/// What querying a graphics mode tells the search for the largest: its
/// size, where the query plainly succeeded.
pub open spec fn usable_mode_size(q: (Status, usize, ModeInfo)) -> Option<(usize, usize)> {
    if q.0 == Status::Success {
        Some((q.2.horizontal_resolution as usize, q.2.vertical_resolution as usize))
    } else {
        None
    }
}

/// The sizes of the first `n` graphics modes, as the largest-mode search
/// sees them.
pub open spec fn graphics_mode_sizes<T: GraphicsOutputTable>(table: T, n: nat) -> Seq<Option<(usize, usize)>> {
    Seq::new(n, |i: int| usable_mode_size(table.query_response(i as u32)))
}

/// Selects the largest graphics mode: of the modes that query plainly, the
/// last one at least as wide and as tall as every one picked before it; mode
/// 0 where none queries plainly.
pub fn set_max_graphics_mode<T: GraphicsOutputTable>(output: &mut GraphicsOutput<T>) -> (r: ())
    ensures
        ({
            let sizes = graphics_mode_sizes(old(output).table, old(output).table.spec_mode().max_mode as nat);
            let chosen: u32 = match largest_mode(sizes) {
                Some(i) => i as u32,
                None => 0,
            };
            final(output).table.selected_modes() == old(output).table.selected_modes().push(chosen)
        }),
        final(output).table.blts() == old(output).table.blts(),
{
    let count = output.mode().max_mode();
    let ghost expected = graphics_mode_sizes(output.table, count as nat);
    let mut modes: Vec<SimpleMode> = Vec::new();
    let mut sizes: Vec<Option<(usize, usize)>> = Vec::new();
    let mut i: u32 = 0;
    while i < count
        invariant
            0 <= i <= count,
            sizes@ =~= expected.take(i as int),
            modes@.len() == i,
            forall|k: int| 0 <= k < i ==> (#[trigger] modes@[k]).index == k,
            expected == graphics_mode_sizes(output.table, count as nat),
        decreases count - i,
    {
        let (mode, size) = match output.query_mode(i) {
            Ok(Completion::Success(mode)) => {
                let size = (mode.width() as usize, mode.height() as usize);
                (mode, Some(size))
            },
            _ => (SimpleMode::default(), None),
        };
        let mode = SimpleMode { index: i, info_size: mode.info_size, info: mode.info };
        modes.push(mode);
        sizes.push(size);
        i = i + 1;
    }
    proof {
        assert(sizes@ =~= expected);
    }
    let chosen = match select_largest(&sizes) {
        Some(best) => modes[best],
        None => SimpleMode::default(),
    };
    let _ = output.set_mode(&chosen);
}

} // verus!
