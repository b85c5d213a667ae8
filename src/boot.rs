//! Boot services: handle search, protocol lookup and pool memory.
use vstd::prelude::*;
use crate::memory::{MemoryType, PhysAddress};
use crate::status::{Completion, Status, UefiResult, outcome, unit_outcome};

verus! {

/// A 128-bit capability identifier, compared byte for byte.
#[derive(Clone, Copy, Debug, PartialEq, Eq, Structural)]
pub struct Guid {
    pub data1: u32,
    pub data2: u16,
    pub data3: u16,
    /// The eight trailing bytes, the first one in the highest position.
    pub data4: u64,
}

/// An opaque name of a firmware-managed object.
#[derive(Clone, Copy, Debug, PartialEq, Eq, Structural)]
pub struct Handle(pub u64);

/// A capability that a handle may expose, named by its identifier.
pub trait Protocol {
    spec fn spec_guid() -> Guid;

    fn guid() -> (r: Guid)
        ensures
            r == Self::spec_guid(),
    ;
}

/// Which handles a search returns.
#[derive(Clone, Copy, Debug, PartialEq, Eq, Structural)]
pub enum LocateSearchType {
    AllHandles,
    ByRegisterNotify,
    ByProtocol(Guid),
}

impl LocateSearchType {
    /// The search for the handles that expose `P`.
    pub fn from_proto<P: Protocol>() -> (r: Self)
        ensures
            r == LocateSearchType::ByProtocol(P::spec_guid()),
    {
        LocateSearchType::ByProtocol(P::guid())
    }
}

/// How a protocol interface is opened.
#[derive(Clone, Copy, Debug, PartialEq, Eq, Structural)]
pub enum ProtocolAttribute {
    ByHandleProtocol,
    GetProtocol,
    TestProtocol,
    ByChildProtocol,
    ByDriver,
    Exclusive,
}

/// The kinds of timer.
#[derive(Clone, Copy, Debug, PartialEq, Eq, Structural)]
pub enum TimerDelay {
    Cancel,
    Periodic,
    Relative,
}

/// The kinds of protocol interface.
#[derive(Clone, Copy, Debug, PartialEq, Eq, Structural)]
pub enum InterfaceType {
    Native,
}

/// Where a page allocation may be placed.
#[derive(Clone, Copy, Debug, PartialEq, Eq, Structural)]
pub enum AllocType {
    AnyPages,
    MaxAddress,
    Address,
}

/// Task priority levels.
#[derive(Clone, Copy, Debug, PartialEq, Eq, Structural)]
pub enum Tpl {
    Application,
    Callback,
    Notify,
    HighLevel,
}

/// The raw entries of the boot services table that this library calls.
///
/// The spec functions describe the table's answers as functions of its
/// current state and of the arguments.
///
/// The spec functions describe the answers of an implementation, which
/// defines them; their defaults name no particular value.
pub trait BootTable: Sized {
    /// What a handle search into a buffer of `capacity` handles reports:
    /// the status, the number of handles needed or written, and the handles
    /// written.
    closed spec fn locate_response(&self, search: LocateSearchType, capacity: nat) -> (Status, usize, Seq<Handle>) {
        arbitrary()
    }

    /// What asking `handle` for the interface of `protocol` reports: the
    /// status and the interface's address.
    closed spec fn protocol_response(&self, handle: Handle, protocol: Guid) -> (Status, u64) {
        arbitrary()
    }

    /// The live pool blocks, by address, with their sizes.
    closed spec fn pool(&self) -> Map<u64, nat> {
        arbitrary()
    }

    /// What returning the pool block at `address` reports.
    closed spec fn free_response(&self, address: u64) -> Status {
        arbitrary()
    }

    /// The pool allocations requested so far, in order: the memory type
    /// and the size of each.
    closed spec fn pool_requests(&self) -> Seq<(MemoryType, usize)> {
        arbitrary()
    }

    /// The current task priority level.
    closed spec fn tpl(&self) -> Tpl {
        arbitrary()
    }

    /// What waiting `microseconds` reports.
    closed spec fn stall_response(&self, microseconds: usize) -> Status {
        arbitrary()
    }

    fn raise_tpl_raw(&mut self, new_tpl: Tpl) -> (r: Tpl)
        ensures
            r == old(self).tpl(),
            final(self).tpl() == new_tpl,
            final(self).pool() == old(self).pool(),
            final(self).pool_requests() == old(self).pool_requests(),
    ;

    fn restore_tpl_raw(&mut self, old_tpl: Tpl) -> (r: Tpl)
        ensures
            r == old(self).tpl(),
            final(self).tpl() == old_tpl,
            final(self).pool() == old(self).pool(),
            final(self).pool_requests() == old(self).pool_requests(),
    ;

    fn stall_raw(&mut self, microseconds: usize) -> (r: Status)
        ensures
            r == old(self).stall_response(microseconds),
            final(self).tpl() == old(self).tpl(),
            final(self).pool() == old(self).pool(),
            final(self).pool_requests() == old(self).pool_requests(),
    ;

    fn locate_handle_raw(&self, search: LocateSearchType, capacity: usize) -> (r: (Status, usize, Vec<Handle>))
        ensures
            (r.0, r.1, r.2@) == self.locate_response(search, capacity as nat),
            !r.0.spec_is_error() && r.1 <= capacity ==> r.2@.len() >= r.1,
    ;

    fn handle_protocol_raw(&self, handle: Handle, protocol: &Guid) -> (r: (Status, u64))
        ensures
            r == self.protocol_response(handle, *protocol),
    ;

    /// Pool blocks are 8-byte aligned and not already live.
    fn allocate_pool_raw(&mut self, memory_type: MemoryType, size: usize) -> (r: (Status, u64))
        ensures
            final(self).pool_requests() == old(self).pool_requests().push((memory_type, size)),
            !r.0.spec_is_error() ==> {
                &&& r.1 != 0
                &&& r.1 % 8 == 0
                &&& !old(self).pool().contains_key(r.1)
                &&& final(self).pool() == old(self).pool().insert(r.1, size as nat)
            },
            r.0.spec_is_error() ==> final(self).pool() == old(self).pool(),
    ;

    fn free_pool_raw(&mut self, address: u64) -> (r: Status)
        ensures
            r == old(self).free_response(address),
            final(self).pool_requests() == old(self).pool_requests(),
            !r.spec_is_error() ==> final(self).pool() == old(self).pool().remove(address),
            r.spec_is_error() ==> final(self).pool() == old(self).pool(),
    ;
}

/// What a handle search amounts to: a probe with no buffer that is told the
/// buffer is too small has learnt the size it needs, which is no failure.
pub open spec fn locate_outcome(response: (Status, usize, Seq<Handle>), capacity: nat) -> UefiResult<usize> {
    if capacity == 0 && response.0 == Status::BufferTooSmall {
        Ok(Completion::Success(response.1))
    } else {
        outcome(response.0, response.1)
    }
}

/// The handles that the second call wrote, cut to the count it reported.
pub open spec fn settled(written: Seq<Handle>, count: usize) -> Seq<Handle> {
    if count < written.len() {
        written.take(count as int)
    } else {
        written
    }
}

/// The interface address that a protocol query yields: only a plain success
/// with a non-null address yields one.
pub open spec fn interface_of(response: (Status, u64)) -> Option<u64> {
    if response.0 == Status::Success && response.1 != 0 {
        Some(response.1)
    } else {
        None
    }
}

/// The boot services, over the table that performs the calls.
pub struct BootServices<B> {
    pub table: B,
}

impl<B: BootTable> BootServices<B> {
    /// The outcome of a search for all handles exposing `protocol`: probe the
    /// size, then fetch into a buffer of that size; the second call's count
    /// is the one that holds.
    pub open spec fn spec_find_handles(&self, protocol: Guid) -> UefiResult<Seq<Handle>> {
        let search = LocateSearchType::ByProtocol(protocol);
        match locate_outcome(self.table.locate_response(search, 0), 0) {
            Err(s) => Err(s),
            Ok(first) => {
                let n = first.spec_value();
                let response = self.table.locate_response(search, n as nat);
                match locate_outcome(response, n as nat) {
                    Err(s) => Err(s),
                    Ok(second) => {
                        let handles = settled(response.2, second.spec_value());
                        Ok(
                            match first {
                                Completion::Success(_) => if second.spec_status().spec_is_success() {
                                    Completion::Success(handles)
                                } else {
                                    Completion::Warning(handles, second.spec_status())
                                },
                                Completion::Warning(_, s) => Completion::Warning(handles, s),
                            },
                        )
                    },
                }
            },
        }
    }

    /// The first interface, in search order, that one of `handles` yields.
    pub open spec fn first_interface(&self, handles: Seq<Handle>, protocol: Guid) -> Option<u64>
        decreases handles.len(),
    {
        if handles.len() == 0 {
            None
        } else {
            match interface_of(self.table.protocol_response(handles[0], protocol)) {
                Some(a) => Some(a),
                None => self.first_interface(handles.drop_first(), protocol),
            }
        }
    }

    /// The interface that protocol resolution yields: none where the search
    /// does not plainly succeed.
    pub open spec fn spec_find_protocol(&self, protocol: Guid) -> Option<u64> {
        match self.spec_find_handles(protocol) {
            Ok(Completion::Success(handles)) => self.first_interface(handles, protocol),
            _ => None,
        }
    }

    /// Searches for handles into `buffer`, whose length is the capacity
    /// offered; an empty buffer probes for the size needed.
    pub fn locate_handle(&self, search: LocateSearchType, buffer: &mut Vec<Handle>) -> (r: UefiResult<usize>)
        ensures
            r == locate_outcome(self.table.locate_response(search, old(buffer)@.len()), old(buffer)@.len()),
            final(buffer)@ == self.table.locate_response(search, old(buffer)@.len()).2,
            locate_answer_fills(self.table, search, old(buffer)@.len() as usize),
    {
        let capacity = buffer.len();
        let (status, count, written) = self.table.locate_handle_raw(search, capacity);
        *buffer = written;
        if capacity == 0 && status == Status::BufferTooSmall {
            Ok(Completion::Success(count))
        } else {
            status.into_with(|| -> (v: usize) ensures v == count { count })
        }
    }

    /// The interface that `handle` exposes for `protocol`, if it yields one.
    pub fn handle_protocol(&self, handle: Handle, protocol: &Guid) -> (r: Option<u64>)
        ensures
            r == interface_of(self.table.protocol_response(handle, *protocol)),
    {
        let (status, address) = self.table.handle_protocol_raw(handle, protocol);
        if status == Status::Success && address != 0 {
            Some(address)
        } else {
            None
        }
    }
}

impl<B: BootTable> BootServices<B> {
    /// All handles that expose `protocol`, in the firmware's order; none is
    /// a valid answer.
    pub fn find_handles(&self, protocol: Guid) -> (r: UefiResult<Vec<Handle>>)
        ensures
            match (r, self.spec_find_handles(protocol)) {
                (Ok(c), Ok(d)) => c.spec_value()@ == d.spec_value() && c.spec_status() == d.spec_status()
                    && (c is Success <==> d is Success),
                (Err(s), Err(t)) => s == t,
                _ => false,
            },
            r is Ok ==> ({
                let search = LocateSearchType::ByProtocol(protocol);
                let n = locate_outcome(self.table.locate_response(search, 0), 0)->Ok_0.spec_value();
                let response = self.table.locate_response(search, n as nat);
                &&& locate_answer_fills(self.table, search, n)
                &&& response.1 <= n ==> r->Ok_0.spec_value()@.len() == response.1
            }),
    {
        let search = LocateSearchType::ByProtocol(protocol);
        let mut probe: Vec<Handle> = Vec::new();
        let first = match self.locate_handle(search, &mut probe) {
            Ok(c) => c,
            Err(s) => return Err(s),
        };
        let (size, first_status) = first.split();
        let mut buffer = blank_handles(size);
        let second = match self.locate_handle(search, &mut buffer) {
            Ok(c) => c,
            Err(s) => return Err(s),
        };
        let (count, second_status) = second.split();
        buffer.truncate(count);
        let ghost handles = buffer@;
        match first_status.into_with(|| -> (v: Vec<Handle>) ensures v@ == handles { buffer }) {
            Ok(c) => Ok(c.with_status(second_status)),
            Err(s) => Err(s),
        }
    }

    /// The first interface for `protocol`, probing the handles that the
    /// search returns in order; nothing where the search fails or warns, or
    /// where no handle yields one.
    pub fn find_protocol(&self, protocol: Guid) -> (r: Option<u64>)
        ensures
            r == self.spec_find_protocol(protocol),
            r matches Some(a) ==> a != 0,
    {
        let handles = match self.find_handles(protocol) {
            Ok(Completion::Success(hs)) => hs,
            _ => return None,
        };
        let ghost all = handles@;
        assert(all.subrange(0, all.len() as int) =~= all);
        assert(self.spec_find_protocol(protocol) == self.first_interface(all, protocol));
        let mut i: usize = 0;
        while i < handles.len()
            invariant
                all == handles@,
                0 <= i <= all.len(),
                self.spec_find_protocol(protocol) == self.first_interface(all, protocol),
                self.first_interface(all, protocol) == self.first_interface(all.subrange(i as int, all.len() as int), protocol),
            decreases all.len() - i,
        {
            proof {
                let rest = all.subrange(i as int, all.len() as int);
                assert(rest.drop_first() =~= all.subrange(i + 1, all.len() as int));
                assert(rest[0] == all[i as int]);
            }
            match self.handle_protocol(handles[i], &protocol) {
                Some(address) => {
                    proof {
                        let rest = all.subrange(i as int, all.len() as int);
                        assert(rest[0] == all[i as int]);
                        assert(self.first_interface(rest, protocol) == Some(address));
                    }
                    return Some(address);
                },
                None => {},
            }
            i = i + 1;
        }
        proof {
            assert(all.subrange(i as int, all.len() as int) =~= Seq::<Handle>::empty());
        }
        None
    }
}

impl<B: BootTable> BootServices<B> {
    /// Raises the task priority level; returns the level it had.
    pub fn raise_tpl(&mut self, new_tpl: Tpl) -> (r: Tpl)
        ensures
            r == old(self).table.tpl(),
            final(self).table.tpl() == new_tpl,
    {
        self.table.raise_tpl_raw(new_tpl)
    }

    /// Restores the task priority level that a raise returned.
    pub fn restore_tpl(&mut self, old_tpl: Tpl) -> (r: Tpl)
        ensures
            r == old(self).table.tpl(),
            final(self).table.tpl() == old_tpl,
    {
        self.table.restore_tpl_raw(old_tpl)
    }

    /// Waits `microseconds`.
    pub fn stall(&mut self, microseconds: usize) -> (r: UefiResult<()>)
        ensures
            r == unit_outcome(old(self).table.stall_response(microseconds)),
            final(self).table.tpl() == old(self).table.tpl(),
    {
        self.table.stall_raw(microseconds).into_result()
    }

    /// Allocates `size` bytes of pool memory of the given classification.
    pub fn allocate_pool(&mut self, memory_type: MemoryType, size: usize) -> (r: UefiResult<PhysAddress>)
        ensures
            final(self).table.pool_requests() == old(self).table.pool_requests().push((memory_type, size)),
            match r {
                Ok(c) => {
                    let a = c.spec_value().0;
                    &&& a != 0
                    &&& a % 8 == 0
                    &&& !old(self).table.pool().contains_key(a)
                    &&& final(self).table.pool() == old(self).table.pool().insert(a, size as nat)
                },
                Err(s) => s.spec_is_error() && final(self).table.pool() == old(self).table.pool(),
            },
    {
        let (status, address) = self.table.allocate_pool_raw(memory_type, size);
        status.into_with(|| -> (v: PhysAddress) ensures v.0 == address { PhysAddress(address) })
    }

    /// Returns a pool block.
    pub fn free_pool(&mut self, address: PhysAddress) -> (r: UefiResult<()>)
        ensures
            r == unit_outcome(old(self).table.free_response(address.0)),
            final(self).table.pool_requests() == old(self).table.pool_requests(),
            r is Ok ==> final(self).table.pool() == old(self).table.pool().remove(address.0),
            r is Err ==> final(self).table.pool() == old(self).table.pool(),
    {
        let status = self.table.free_pool_raw(address.0);
        status.into_result()
    }
}

/// A search answer that is no error and whose count fits the capacity
/// comes with at least that many handles written.
pub open spec fn locate_answer_fills<B: BootTable>(table: B, search: LocateSearchType, capacity: usize) -> bool {
    let response = table.locate_response(search, capacity as nat);
    !response.0.spec_is_error() && response.1 <= capacity ==> response.2.len() >= response.1
}

/// Negotiation of the handle buffer: where the probe is told that the buffer
/// is too small for `n` handles and the call with `n` places plainly
/// succeeds, the search yields what that call wrote, cut to the count it
/// reported, whatever that count is.
pub proof fn lemma_negotiated_handles<B: BootTable>(bs: &BootServices<B>, protocol: Guid, n: usize)
    requires
        locate_answer_fills(bs.table, LocateSearchType::ByProtocol(protocol), n),
        bs.table.locate_response(LocateSearchType::ByProtocol(protocol), 0).0 == Status::BufferTooSmall,
        bs.table.locate_response(LocateSearchType::ByProtocol(protocol), 0).1 == n,
        bs.table.locate_response(LocateSearchType::ByProtocol(protocol), n as nat).0 == Status::Success,
    ensures
        ({
            let response = bs.table.locate_response(LocateSearchType::ByProtocol(protocol), n as nat);
            &&& bs.spec_find_handles(protocol) == Ok::<Completion<Seq<Handle>>, Status>(
                Completion::Success(settled(response.2, response.1)),
            )
            &&& response.1 <= n ==> settled(response.2, response.1).len() == response.1
        }),
{
}

/// Discovery depends on the state of the table alone: boot services in the
/// same state find the same handles, in the same order, and the same
/// interface.
pub proof fn lemma_discovery_repeatable<B: BootTable>(a: &BootServices<B>, b: &BootServices<B>, protocol: Guid)
    requires
        a.table == b.table,
    ensures
        a.spec_find_handles(protocol) == b.spec_find_handles(protocol),
        a.spec_find_protocol(protocol) == b.spec_find_protocol(protocol),
{
}

/// A search that finds no handle resolves no interface.
pub proof fn lemma_no_handles_no_protocol<B: BootTable>(bs: &BootServices<B>, protocol: Guid)
    requires
        bs.spec_find_handles(protocol) is Ok,
        bs.spec_find_handles(protocol)->Ok_0.spec_value().len() == 0,
    ensures
        bs.spec_find_protocol(protocol) is None,
{
}

/// A buffer of `n` null handles, for the firmware to fill.
fn blank_handles(n: usize) -> (r: Vec<Handle>)
    ensures
        r@.len() == n,
{
    let mut v: Vec<Handle> = Vec::new();
    while v.len() < n
        invariant
            v@.len() <= n,
        decreases n - v@.len(),
    {
        v.push(Handle(0));
    }
    v
}

} // verus!
