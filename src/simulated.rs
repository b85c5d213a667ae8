//! In-memory firmware: service tables whose state is plain data, for
//! running the library away from a real firmware.
use vstd::prelude::*;
use crate::boot::{BootTable, Guid, Handle, LocateSearchType, Tpl};
use crate::console::{TextOutputMode, TextOutputTable};
use crate::file::{FileAttr, FileOpenMode, FileTable, VolumeTable, chunk};
use crate::input::{TextInputKey, TextInputTable};
use crate::runtime::{ResetType, RuntimeTable};
use crate::graphics::{BltPixel, BltRequest, GraphicsOutputTable, Mode, ModeInfo, empty_mode_info};
use crate::memory::MemoryType;
use crate::status::Status;

verus! {

/// A handle that exposes a protocol, with the address of its interface.
#[derive(Clone, Copy, Debug, PartialEq, Eq, Structural)]
pub struct Registration {
    pub handle: Handle,
    pub protocol: Guid,
    pub interface: u64,
}

/// Whether a registration is found by a search.
pub open spec fn found_by(r: Registration, search: LocateSearchType) -> bool {
    match search {
        LocateSearchType::AllHandles => true,
        LocateSearchType::ByRegisterNotify => false,
        LocateSearchType::ByProtocol(g) => r.protocol == g,
    }
}

/// The handles of the registrations that a search finds, in order.
pub open spec fn handles_found(regs: Seq<Registration>, search: LocateSearchType) -> Seq<Handle>
    decreases regs.len(),
{
    if regs.len() == 0 {
        Seq::empty()
    } else {
        let before = handles_found(regs.drop_last(), search);
        if found_by(regs.last(), search) {
            before.push(regs.last().handle)
        } else {
            before
        }
    }
}

/// The interface of the first registration of `protocol` on `handle`.
pub open spec fn registered_interface(regs: Seq<Registration>, handle: Handle, protocol: Guid) -> Option<u64>
    decreases regs.len(),
{
    if regs.len() == 0 {
        None
    } else {
        match registered_interface(regs.drop_last(), handle, protocol) {
            Some(a) => Some(a),
            None => if regs.last().handle == handle && regs.last().protocol == protocol {
                Some(regs.last().interface)
            } else {
                None
            },
        }
    }
}

proof fn lemma_handles_found_bounded(regs: Seq<Registration>, search: LocateSearchType)
    ensures
        handles_found(regs, search).len() <= regs.len(),
    decreases regs.len(),
{
    if regs.len() > 0 {
        lemma_handles_found_bounded(regs.drop_last(), search);
    }
}

/// The smallest multiple of 8 that is at least `a` and not 0.
pub open spec fn aligned_from(a: u64) -> int {
    if a <= 8 {
        8
    } else if a % 8 == 0 {
        a as int
    } else {
        a - a % 8 + 8
    }
}

/// Boot services over a table of registrations and a pool that hands out
/// fresh addresses upward.
pub struct SimulatedBoot {
    pub registrations: Vec<Registration>,
    /// Every block handed out lies below this address.
    pub next_address: u64,
    /// The pool requests made, in order: memory type and size.
    pub requests: Vec<(MemoryType, usize)>,
    pub blocks: Ghost<Map<u64, nat>>,
    pub tpl: Tpl,
    /// The waits asked for, in microseconds, in order.
    pub stalls: Vec<usize>,
}

impl SimulatedBoot {
    /// No registrations and an empty pool.
    pub fn new() -> (r: Self)
        ensures
            r.registrations@.len() == 0,
            r.requests@.len() == 0,
            r.pool() == Map::<u64, nat>::empty(),
    {
        let r = SimulatedBoot {
            registrations: Vec::new(),
            next_address: 0x1000,
            requests: Vec::new(),
            blocks: Ghost(Map::empty()),
            tpl: Tpl::Application,
            stalls: Vec::new(),
        };
        assert(r.pool() =~= Map::<u64, nat>::empty());
        r
    }

    /// Makes `handle` expose `protocol` at `interface`.
    pub fn install(&mut self, handle: Handle, protocol: Guid, interface: u64) -> (r: ())
        ensures
            final(self).registrations@ == old(self).registrations@.push(Registration { handle, protocol, interface }),
            final(self).requests@ == old(self).requests@,
            final(self).pool() == old(self).pool(),
    {
        self.registrations.push(Registration { handle, protocol, interface });
    }

    /// How many pool allocations have been asked for.
    pub fn request_count(&self) -> (r: usize)
        ensures
            r == self.requests@.len(),
    {
        self.requests.len()
    }
}

impl BootTable for SimulatedBoot {
    open spec fn locate_response(&self, search: LocateSearchType, capacity: nat) -> (Status, usize, Seq<Handle>) {
        let found = handles_found(self.registrations@, search);
        if capacity < found.len() {
            (Status::BufferTooSmall, found.len() as usize, Seq::empty())
        } else {
            (Status::Success, found.len() as usize, found)
        }
    }

    open spec fn protocol_response(&self, handle: Handle, protocol: Guid) -> (Status, u64) {
        match registered_interface(self.registrations@, handle, protocol) {
            Some(a) => (Status::Success, a),
            None => (Status::Unsupported, 0),
        }
    }

    open spec fn pool(&self) -> Map<u64, nat> {
        self.blocks@.restrict(Set::new(|a: u64| a < self.next_address))
    }

    open spec fn free_response(&self, address: u64) -> Status {
        Status::Success
    }

    open spec fn pool_requests(&self) -> Seq<(MemoryType, usize)> {
        self.requests@
    }

    open spec fn tpl(&self) -> Tpl {
        self.tpl
    }

    open spec fn stall_response(&self, microseconds: usize) -> Status {
        Status::Success
    }

    fn raise_tpl_raw(&mut self, new_tpl: Tpl) -> (r: Tpl) {
        let previous = self.tpl;
        self.tpl = new_tpl;
        previous
    }

    fn restore_tpl_raw(&mut self, old_tpl: Tpl) -> (r: Tpl) {
        let previous = self.tpl;
        self.tpl = old_tpl;
        previous
    }

    fn stall_raw(&mut self, microseconds: usize) -> (r: Status) {
        self.stalls.push(microseconds);
        Status::Success
    }

    fn locate_handle_raw(&self, search: LocateSearchType, capacity: usize) -> (r: (Status, usize, Vec<Handle>)) {
        let mut found: Vec<Handle> = Vec::new();
        let mut i: usize = 0;
        while i < self.registrations.len()
            invariant
                0 <= i <= self.registrations@.len(),
                found@ == handles_found(self.registrations@.take(i as int), search),
            decreases self.registrations@.len() - i,
        {
            proof {
                assert(self.registrations@.take(i + 1).drop_last() =~= self.registrations@.take(i as int));
                lemma_handles_found_bounded(self.registrations@.take(i as int), search);
            }
            let reg = self.registrations[i];
            let hit = match search {
                LocateSearchType::AllHandles => true,
                LocateSearchType::ByRegisterNotify => false,
                LocateSearchType::ByProtocol(g) => reg.protocol == g,
            };
            if hit {
                found.push(reg.handle);
            }
            i = i + 1;
        }
        assert(self.registrations@.take(i as int) =~= self.registrations@);
        let count = found.len();
        if capacity < count {
            (Status::BufferTooSmall, count, Vec::new())
        } else {
            (Status::Success, count, found)
        }
    }

    fn handle_protocol_raw(&self, handle: Handle, protocol: &Guid) -> (r: (Status, u64)) {
        let mut i: usize = 0;
        while i < self.registrations.len()
            invariant
                0 <= i <= self.registrations@.len(),
                registered_interface(self.registrations@.take(i as int), handle, *protocol) is None,
            decreases self.registrations@.len() - i,
        {
            proof {
                assert(self.registrations@.take(i + 1).drop_last() =~= self.registrations@.take(i as int));
            }
            let reg = self.registrations[i];
            if reg.handle == handle && reg.protocol == *protocol {
                proof {
                    lemma_first_stays(self.registrations@, (i + 1) as nat, handle, *protocol);
                }
                return (Status::Success, reg.interface);
            }
            i = i + 1;
        }
        assert(self.registrations@.take(i as int) =~= self.registrations@);
        (Status::Unsupported, 0)
    }

    fn allocate_pool_raw(&mut self, memory_type: MemoryType, size: usize) -> (r: (Status, u64)) {
        self.requests.push((memory_type, size));
        let next = self.next_address;
        if next > u64::MAX - 16 || (size as u64) > u64::MAX - 16 - next {
            return (Status::OutOfResources, 0);
        }
        let address: u64 = if next <= 8 {
            8
        } else if next % 8 == 0 {
            next
        } else {
            next - next % 8 + 8
        };
        let ghost before = self.pool();
        self.blocks = Ghost(self.blocks@.restrict(Set::new(|a: u64| a < next)).insert(address, size as nat));
        self.next_address = address + size as u64 + 1;
        assert(self.pool() =~= before.insert(address, size as nat));
        (Status::Success, address)
    }

    fn free_pool_raw(&mut self, address: u64) -> (r: Status) {
        let ghost before = self.pool();
        self.blocks = Ghost(self.blocks@.remove(address));
        assert(self.pool() =~= before.remove(address));
        Status::Success
    }
}

/// A registration found at `n` is the first one of all that matches, once
/// none before it did.
proof fn lemma_first_stays(regs: Seq<Registration>, n: nat, handle: Handle, protocol: Guid)
    requires
        0 < n <= regs.len(),
        registered_interface(regs.take(n - 1), handle, protocol) is None,
        regs[n - 1].handle == handle && regs[n - 1].protocol == protocol,
    ensures
        registered_interface(regs, handle, protocol) == Some(regs[n - 1].interface),
    decreases regs.len() - n,
{
    assert(regs.take(n as int).drop_last() =~= regs.take(n - 1));
    if n < regs.len() {
        lemma_first_stays_prefix(regs, n, handle, protocol);
    } else {
        assert(regs.take(n as int) =~= regs);
    }
}

/// Once a prefix finds an interface, every longer prefix finds the same one.
proof fn lemma_first_stays_prefix(regs: Seq<Registration>, n: nat, handle: Handle, protocol: Guid)
    requires
        0 < n <= regs.len(),
        registered_interface(regs.take(n as int), handle, protocol) is Some,
    ensures
        registered_interface(regs, handle, protocol) == registered_interface(regs.take(n as int), handle, protocol),
    decreases regs.len() - n,
{
    if n < regs.len() {
        assert(regs.take(n + 1 as int).drop_last() =~= regs.take(n as int));
        lemma_first_stays_prefix(regs, (n + 1) as nat, handle, protocol);
    } else {
        assert(regs.take(n as int) =~= regs);
    }
}

/// A copy of `v`.
pub fn copy_units(v: &Vec<u16>) -> (r: Vec<u16>)
    ensures
        r@ == v@,
{
    let mut out: Vec<u16> = Vec::new();
    let mut i: usize = 0;
    while i < v.len()
        invariant
            0 <= i <= v@.len(),
            out@ =~= v@.take(i as int),
        decreases v@.len() - i,
    {
        out.push(v[i]);
        i = i + 1;
    }
    assert(v@.take(i as int) =~= v@);
    out
}

/// Whether `text` holds `unit`.
fn contains_unit(text: &Vec<u16>, unit: u16) -> (r: bool)
    ensures
        r == text@.contains(unit),
{
    let mut i: usize = 0;
    while i < text.len()
        invariant
            0 <= i <= text@.len(),
            forall|k: int| 0 <= k < i ==> text@[k] != unit,
        decreases text@.len() - i,
    {
        if text[i] == unit {
            assert(text@[i as int] == unit);
            return true;
        }
        i = i + 1;
    }
    false
}

/// A text console that records what it is sent and offers modes of the
/// given sizes.
pub struct SimulatedConsole {
    /// The strings sent, in order.
    pub sent: Vec<Vec<u16>>,
    /// The columns and rows of each mode.
    pub mode_sizes: Vec<(usize, usize)>,
    /// The modes selected, in order.
    pub selected: Vec<usize>,
    /// The status of each string sent, in order.
    pub statuses: Vec<Status>,
    /// A code unit that the console fails to print, if any.
    pub rejected: Option<u16>,
    pub mode: TextOutputMode,
}

impl SimulatedConsole {
    /// A console with modes of the given sizes, of which it announces all.
    pub fn new(mode_sizes: Vec<(usize, usize)>) -> (r: Self)
        requires
            mode_sizes@.len() <= i32::MAX,
        ensures
            r.mode_sizes@ == mode_sizes@,
            r.sent@.len() == 0,
            r.selected@.len() == 0,
            r.mode.max_mode == mode_sizes@.len(),
    {
        let count = mode_sizes.len() as i32;
        SimulatedConsole {
            sent: Vec::new(),
            mode_sizes,
            selected: Vec::new(),
            statuses: Vec::new(),
            rejected: None,
            mode: TextOutputMode { max_mode: count, mode: 0, attribute: 0, cursor_x: 0, cursor_y: 0, cursor_visible: true },
        }
    }
}

impl TextOutputTable for SimulatedConsole {
    open spec fn sent(&self) -> Seq<Seq<u16>> {
        self.sent@.map_values(|v: Vec<u16>| v@)
    }

    open spec fn output_statuses(&self) -> Seq<Status> {
        self.statuses@
    }

    open spec fn query_response(&self, index: usize) -> (Status, usize, usize) {
        if index < self.mode_sizes@.len() {
            (Status::Success, self.mode_sizes@[index as int].0, self.mode_sizes@[index as int].1)
        } else {
            (Status::Unsupported, 0, 0)
        }
    }

    open spec fn set_mode_response(&self, index: usize) -> Status {
        if index < self.mode_sizes@.len() {
            Status::Success
        } else {
            Status::Unsupported
        }
    }

    open spec fn selected_modes(&self) -> Seq<usize> {
        self.selected@
    }

    open spec fn spec_mode(&self) -> TextOutputMode {
        self.mode
    }

    open spec fn reset_response(&self, extended: bool) -> Status {
        Status::Success
    }

    open spec fn test_response(&self, text: Seq<u16>) -> Status {
        if forall|i: int| 0 <= i < text.len() ==> text[i] < 0x80 {
            Status::Success
        } else {
            Status::Unsupported
        }
    }

    open spec fn attribute_response(&self, attribute: usize) -> Status {
        Status::Success
    }

    open spec fn clear_response(&self) -> Status {
        Status::Success
    }

    open spec fn cursor_response(&self, column: usize, row: usize) -> Status {
        Status::Success
    }

    open spec fn enable_cursor_response(&self, visible: bool) -> Status {
        Status::Success
    }

    fn reset_raw(&mut self, extended: bool) -> (r: Status) {
        Status::Success
    }

    fn test_string_raw(&mut self, text: &Vec<u16>) -> (r: Status) {
        let mut i: usize = 0;
        while i < text.len()
            invariant
                0 <= i <= text@.len(),
                forall|k: int| 0 <= k < i ==> text@[k] < 0x80,
            decreases text@.len() - i,
        {
            if text[i] >= 0x80 {
                return Status::Unsupported;
            }
            i = i + 1;
        }
        Status::Success
    }

    fn set_attribute_raw(&mut self, attribute: usize) -> (r: Status) {
        Status::Success
    }

    fn clear_screen_raw(&mut self) -> (r: Status) {
        Status::Success
    }

    fn set_cursor_position_raw(&mut self, column: usize, row: usize) -> (r: Status) {
        Status::Success
    }

    fn enable_cursor_raw(&mut self, visible: bool) -> (r: Status) {
        Status::Success
    }

    fn output_string_raw(&mut self, text: &Vec<u16>) -> (r: Status) {
        let copy = copy_units(text);
        let status = match self.rejected {
            Some(unit) => if contains_unit(text, unit) {
                Status::DeviceError
            } else {
                Status::Success
            },
            None => Status::Success,
        };
        self.sent.push(copy);
        self.statuses.push(status);
        assert(self.sent@.map_values(|v: Vec<u16>| v@) =~= old(self).sent@.map_values(|v: Vec<u16>| v@).push(text@));
        status
    }

    fn query_mode_raw(&self, index: usize) -> (r: (Status, usize, usize)) {
        if index < self.mode_sizes.len() {
            let (w, h) = self.mode_sizes[index];
            (Status::Success, w, h)
        } else {
            (Status::Unsupported, 0, 0)
        }
    }

    fn set_mode_raw(&mut self, index: usize) -> (r: Status) {
        self.selected.push(index);
        if index < self.mode_sizes.len() {
            Status::Success
        } else {
            Status::Unsupported
        }
    }

    fn mode_raw(&self) -> (r: TextOutputMode) {
        self.mode
    }
}

/// A keyboard that hands out the given key strokes in order, then reports
/// that none is ready.
pub struct SimulatedKeyboard {
    pub keys: Vec<TextInputKey>,
    pub next: usize,
}

impl TextInputTable for SimulatedKeyboard {
    open spec fn reset_response(&self, extended: bool) -> Status {
        Status::Success
    }

    open spec fn key_response(&self) -> (Status, TextInputKey) {
        if self.next < self.keys@.len() {
            (Status::Success, self.keys@[self.next as int])
        } else {
            (Status::NotReady, TextInputKey { scan_code: 0, unicode_char: 0 })
        }
    }

    fn reset_raw(&mut self, extended: bool) -> (r: Status) {
        self.next = self.keys.len();
        Status::Success
    }

    fn read_key_stroke_raw(&mut self) -> (r: (Status, TextInputKey)) {
        if self.next < self.keys.len() {
            let key = self.keys[self.next];
            self.next = self.next + 1;
            (Status::Success, key)
        } else {
            (Status::NotReady, TextInputKey::default())
        }
    }
}

/// A runtime table that records the resets asked of it and returns.
pub struct SimulatedRuntime {
    pub resets: Vec<(ResetType, Status)>,
}

impl RuntimeTable for SimulatedRuntime {
    open spec fn resets(&self) -> Seq<(ResetType, Status)> {
        self.resets@
    }

    open spec fn reset_response(&self, reset_type: ResetType, reset_status: Status) -> Status {
        Status::Success
    }

    fn reset_system_raw(&mut self, reset_type: ResetType, reset_status: Status) -> (r: Status) {
        self.resets.push((reset_type, reset_status));
        Status::Success
    }
}

/// The size of a mode description as the firmware reports it, in bytes.
pub const MODE_INFO_SIZE: usize = 36;

/// A graphics output that offers the given modes and records what it is
/// asked to do.
pub struct SimulatedGraphics {
    pub modes: Vec<ModeInfo>,
    pub selected: Vec<u32>,
    pub blts: Vec<BltRequest>,
    pub mode: Mode,
}

impl SimulatedGraphics {
    /// A graphics output with the given modes, of which it announces all.
    pub fn new(modes: Vec<ModeInfo>) -> (r: Self)
        requires
            modes@.len() <= u32::MAX,
        ensures
            r.modes@ == modes@,
            r.selected@.len() == 0,
            r.blts@.len() == 0,
            r.mode.max_mode == modes@.len(),
    {
        let count = modes.len() as u32;
        let mut mode = Mode::default();
        mode.max_mode = count;
        SimulatedGraphics { modes, selected: Vec::new(), blts: Vec::new(), mode }
    }
}

impl GraphicsOutputTable for SimulatedGraphics {
    open spec fn query_response(&self, index: u32) -> (Status, usize, ModeInfo) {
        if (index as int) < self.modes@.len() {
            (Status::Success, MODE_INFO_SIZE, self.modes@[index as int])
        } else {
            (Status::InvalidParameter, 0, empty_mode_info())
        }
    }

    open spec fn set_mode_response(&self, index: u32) -> Status {
        if (index as int) < self.modes@.len() {
            Status::Success
        } else {
            Status::Unsupported
        }
    }

    open spec fn selected_modes(&self) -> Seq<u32> {
        self.selected@
    }

    open spec fn spec_mode(&self) -> Mode {
        self.mode
    }

    open spec fn blt_response(&self, request: BltRequest) -> Status {
        Status::Success
    }

    open spec fn blts(&self) -> Seq<BltRequest> {
        self.blts@
    }

    fn query_mode_raw(&self, index: u32) -> (r: (Status, usize, ModeInfo)) {
        if (index as usize) < self.modes.len() {
            (Status::Success, MODE_INFO_SIZE, self.modes[index as usize])
        } else {
            (Status::InvalidParameter, 0, ModeInfo::default())
        }
    }

    fn set_mode_raw(&mut self, index: u32) -> (r: Status) {
        self.selected.push(index);
        if (index as usize) < self.modes.len() {
            Status::Success
        } else {
            Status::Unsupported
        }
    }

    fn mode_raw(&self) -> (r: Mode) {
        self.mode
    }

    fn blt_raw(&mut self, buffer: &mut Vec<BltPixel>, request: BltRequest) -> (r: Status) {
        self.blts.push(request);
        Status::Success
    }
}

/// A copy of `v`.
pub fn copy_bytes(v: &Vec<u8>) -> (r: Vec<u8>)
    ensures
        r@ == v@,
{
    let mut out: Vec<u8> = Vec::new();
    let mut i: usize = 0;
    while i < v.len()
        invariant
            0 <= i <= v@.len(),
            out@ =~= v@.take(i as int),
        decreases v@.len() - i,
    {
        out.push(v[i]);
        i = i + 1;
    }
    assert(v@.take(i as int) =~= v@);
    out
}

/// A named file of a directory: its UCS-2 name and its bytes.
pub struct Entry {
    pub name: Vec<u16>,
    pub contents: Vec<u8>,
}

/// The entries of a directory, by their views.
pub open spec fn entries_view(entries: Seq<Entry>) -> Seq<(Seq<u16>, Seq<u8>)> {
    entries.map_values(|e: Entry| (e.name@, e.contents@))
}

/// The bytes of the first entry named `name`.
pub open spec fn entry_named(entries: Seq<(Seq<u16>, Seq<u8>)>, name: Seq<u16>) -> Option<Seq<u8>>
    decreases entries.len(),
{
    if entries.len() == 0 {
        None
    } else {
        match entry_named(entries.drop_last(), name) {
            Some(c) => Some(c),
            None => if entries.last().0 == name {
                Some(entries.last().1)
            } else {
                None
            },
        }
    }
}

proof fn lemma_entry_found(entries: Seq<(Seq<u16>, Seq<u8>)>, n: nat, name: Seq<u16>)
    requires
        0 < n <= entries.len(),
        entry_named(entries.take(n - 1), name) is None,
        entries[n - 1].0 == name,
    ensures
        entry_named(entries, name) == Some(entries[n - 1].1),
    decreases entries.len() - n,
{
    assert(entries.take(n as int).drop_last() =~= entries.take(n - 1));
    lemma_entry_stays(entries, n, name);
}

proof fn lemma_entry_stays(entries: Seq<(Seq<u16>, Seq<u8>)>, n: nat, name: Seq<u16>)
    requires
        0 < n <= entries.len(),
        entry_named(entries.take(n as int), name) is Some,
    ensures
        entry_named(entries, name) == entry_named(entries.take(n as int), name),
    decreases entries.len() - n,
{
    if n < entries.len() {
        assert(entries.take(n + 1 as int).drop_last() =~= entries.take(n as int));
        lemma_entry_stays(entries, (n + 1) as nat, name);
    } else {
        assert(entries.take(n as int) =~= entries);
    }
}

/// Whether two code unit strings are equal.
fn same_units(a: &Vec<u16>, b: &Vec<u16>) -> (r: bool)
    ensures
        r == (a@ == b@),
{
    if a.len() != b.len() {
        return false;
    }
    let mut i: usize = 0;
    while i < a.len()
        invariant
            a@.len() == b@.len(),
            0 <= i <= a@.len(),
            forall|k: int| 0 <= k < i ==> a@[k] == b@[k],
        decreases a@.len() - i,
    {
        if a[i] != b[i] {
            return false;
        }
        i = i + 1;
    }
    assert(a@ =~= b@);
    true
}

/// The bytes of the entry named `name`, found as `entry_named` says.
fn find_entry(entries: &Vec<Entry>, name: &Vec<u16>) -> (r: Option<Vec<u8>>)
    ensures
        match (r, entry_named(entries_view(entries@), name@)) {
            (Some(v), Some(c)) => v@ == c,
            (None, None) => true,
            _ => false,
        },
{
    let ghost view = entries_view(entries@);
    let mut i: usize = 0;
    while i < entries.len()
        invariant
            0 <= i <= entries@.len(),
            view == entries_view(entries@),
            entry_named(view.take(i as int), name@) is None,
        decreases entries@.len() - i,
    {
        proof {
            assert(view.take(i + 1).drop_last() =~= view.take(i as int));
        }
        if same_units(&entries[i].name, name) {
            proof {
                lemma_entry_found(view, (i + 1) as nat, name@);
            }
            return Some(copy_bytes(&entries[i].contents));
        }
        i = i + 1;
    }
    assert(view.take(i as int) =~= view);
    None
}

/// A copy of `entries`.
fn copy_entries(entries: &Vec<Entry>) -> (r: Vec<Entry>)
    ensures
        entries_view(r@) == entries_view(entries@),
{
    let mut out: Vec<Entry> = Vec::new();
    let mut i: usize = 0;
    while i < entries.len()
        invariant
            0 <= i <= entries@.len(),
            entries_view(out@) =~= entries_view(entries@).take(i as int),
        decreases entries@.len() - i,
    {
        let e = Entry { name: copy_units(&entries[i].name), contents: copy_bytes(&entries[i].contents) };
        let ghost before = out@;
        out.push(e);
        proof {
            assert(out@ =~= before.push(e));
            assert(entries_view(out@) =~= entries_view(before).push((e.name@, e.contents@)));
            assert(entries_view(entries@).take(i + 1) =~= entries_view(entries@).take(i as int).push(
                entries_view(entries@)[i as int],
            ));
        }
        i = i + 1;
    }
    assert(entries_view(entries@).take(i as int) =~= entries_view(entries@));
    out
}

/// An open file held in memory; a directory is a file with entries.
pub struct SimulatedFile {
    pub contents: Vec<u8>,
    pub position: usize,
    pub entries: Vec<Entry>,
    /// The reads asked of the file, in order: capacity and status.
    pub reads: Vec<(usize, Status)>,
}

impl FileTable for SimulatedFile {
    open spec fn contents(&self) -> Seq<u8> {
        self.contents@
    }

    open spec fn position(&self) -> nat {
        self.position as nat
    }

    open spec fn readable(&self) -> bool {
        true
    }

    open spec fn open_response(&self, name: Seq<u16>, mode: FileOpenMode, attr: FileAttr) -> Status {
        if entry_named(entries_view(self.entries@), name) is Some {
            Status::Success
        } else {
            Status::NotFound
        }
    }

    open spec fn child_contents(&self, name: Seq<u16>) -> Seq<u8> {
        match entry_named(entries_view(self.entries@), name) {
            Some(c) => c,
            None => Seq::empty(),
        }
    }

    open spec fn child_readable(&self, name: Seq<u16>) -> bool {
        true
    }

    open spec fn reads(&self) -> Seq<(usize, Status)> {
        self.reads@
    }

    open spec fn read_response(&self, capacity: nat) -> Status {
        Status::Success
    }

    open spec fn write_response(&self, data: Seq<u8>) -> Status {
        Status::WriteProtected
    }

    open spec fn write_count(&self, data: Seq<u8>) -> usize {
        0
    }

    open spec fn position_response(&self) -> Status {
        Status::Success
    }

    open spec fn close_response(&self) -> Status {
        Status::Success
    }

    open spec fn delete_response(&self) -> Status {
        Status::Success
    }

    open spec fn flush_response(&self) -> Status {
        Status::Success
    }

    open spec fn set_position_response(&self, position: u64) -> Status {
        if position <= usize::MAX {
            Status::Success
        } else {
            Status::Unsupported
        }
    }

    fn open_raw(&mut self, name: &Vec<u16>, mode: FileOpenMode, attr: FileAttr) -> (r: (Status, Option<Self>)) {
        match find_entry(&self.entries, name) {
            Some(contents) => (Status::Success, Some(SimulatedFile { contents, position: 0, entries: Vec::new(), reads: Vec::new() })),
            None => (Status::NotFound, None),
        }
    }

    fn read_raw(&mut self, capacity: usize) -> (r: (Status, Vec<u8>)) {
        let len = self.contents.len();
        let start = if self.position < len {
            self.position
        } else {
            len
        };
        let end = if capacity < len - start {
            start + capacity
        } else {
            len
        };
        let mut out: Vec<u8> = Vec::new();
        let mut i: usize = start;
        while i < end
            invariant
                start <= i <= end,
                end <= self.contents@.len(),
                out@ =~= self.contents@.subrange(start as int, i as int),
            decreases end - i,
        {
            out.push(self.contents[i]);
            i = i + 1;
        }
        assert(out@ =~= chunk(self.contents@, self.position as nat, capacity as nat));
        if start < len {
            self.position = self.position + (end - start);
        }
        self.reads.push((capacity, Status::Success));
        (Status::Success, out)
    }

    fn write_raw(&mut self, data: &Vec<u8>) -> (r: (Status, usize)) {
        (Status::WriteProtected, 0)
    }

    fn get_position_raw(&self) -> (r: (Status, u64)) {
        (Status::Success, self.position as u64)
    }

    fn set_position_raw(&mut self, position: u64) -> (r: Status) {
        if position <= usize::MAX as u64 {
            self.position = position as usize;
            Status::Success
        } else {
            Status::Unsupported
        }
    }

    fn flush_raw(&mut self) -> (r: Status) {
        Status::Success
    }

    fn close_raw(self) -> (r: Status) {
        Status::Success
    }

    fn delete_raw(self) -> (r: Status) {
        Status::Success
    }
}

/// A volume whose root directory holds the given files.
pub struct SimulatedVolume {
    pub root: Vec<Entry>,
}

impl VolumeTable<SimulatedFile> for SimulatedVolume {
    open spec fn volume_response(&self) -> Status {
        Status::Success
    }

    open spec fn root_open_response(&self, name: Seq<u16>, mode: FileOpenMode, attr: FileAttr) -> Status {
        if entry_named(entries_view(self.root@), name) is Some {
            Status::Success
        } else {
            Status::NotFound
        }
    }

    open spec fn root_child_contents(&self, name: Seq<u16>) -> Seq<u8> {
        match entry_named(entries_view(self.root@), name) {
            Some(c) => c,
            None => Seq::empty(),
        }
    }

    open spec fn root_child_readable(&self, name: Seq<u16>) -> bool {
        true
    }

    fn open_volume_raw(&mut self) -> (r: (Status, Option<SimulatedFile>)) {
        let entries = copy_entries(&self.root);
        (Status::Success, Some(SimulatedFile { contents: Vec::new(), position: 0, entries, reads: Vec::new() }))
    }
}

} // verus!
