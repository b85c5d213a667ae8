//! Files of a simple file system: open, read whole, close.
use vstd::prelude::*;
use crate::boot::{Guid, Protocol};
use crate::console::code_unit;
use crate::status::{Completion, Status, UefiResult, outcome, unit_outcome};
use crate::time::{Time, zero_time};

verus! {

/// The identifier of the simple file system protocol.
pub open spec fn file_system_guid() -> Guid {
    Guid { data1: 0x964e5b22, data2: 0x6459, data3: 0x11d2, data4: 0x8e39_00a0_c969_723b }
}

/// The size of the chunks in which a file is read.
pub const READ_CHUNK: usize = 8192;

/// The ways a file may be opened: the legal combinations of the read,
/// write and create flags.
#[derive(Debug, Copy, Clone, PartialEq, Eq, Structural)]
pub enum FileOpenMode {
    Read,
    ReadWrite,
    CreateReadWrite,
}

impl FileOpenMode {
    /// The flag bits that the firmware is given.
    pub fn bits(self) -> (r: u64)
        ensures
            r == match self {
                FileOpenMode::Read => 0x1u64,
                FileOpenMode::ReadWrite => 0x3u64,
                FileOpenMode::CreateReadWrite => 0x8000_0000_0000_0003u64,
            },
    {
        match self {
            FileOpenMode::Read => 0x1,
            FileOpenMode::ReadWrite => 0x3,
            FileOpenMode::CreateReadWrite => 0x8000_0000_0000_0003,
        }
    }
}

/// File attributes.
#[derive(Debug, Copy, Clone, PartialEq, Eq, Structural)]
pub enum FileAttr {
    Normal,
    ReadOnly,
    Hidden,
    System,
    Reserved,
    Directory,
    Archive,
    ValidAttr,
}

impl FileAttr {
    /// The attribute bits that the firmware is given.
    pub fn bits(self) -> (r: u64)
        ensures
            r == match self {
                FileAttr::Normal => 0x0u64,
                FileAttr::ReadOnly => 0x1u64,
                FileAttr::Hidden => 0x2u64,
                FileAttr::System => 0x4u64,
                FileAttr::Reserved => 0x8u64,
                FileAttr::Directory => 0x10u64,
                FileAttr::Archive => 0x20u64,
                FileAttr::ValidAttr => 0x37u64,
            },
    {
        match self {
            FileAttr::Normal => 0x0,
            FileAttr::ReadOnly => 0x1,
            FileAttr::Hidden => 0x2,
            FileAttr::System => 0x4,
            FileAttr::Reserved => 0x8,
            FileAttr::Directory => 0x10,
            FileAttr::Archive => 0x20,
            FileAttr::ValidAttr => 0x37,
        }
    }
}

/// The length of the name field of a file description.
pub const FILE_NAME_LEN: usize = 256;

/// The description of a file.
pub struct FileInfo {
    pub size: u64,
    pub file_size: u64,
    pub physical_size: u64,
    pub create_time: Time,
    pub last_access_time: Time,
    pub modification_time: Time,
    pub attribute: u64,
    pub file_name: Vec<u16>,
}

impl Default for FileInfo {
    fn default() -> (r: Self)
        ensures
            r.size == 0 && r.file_size == 0 && r.physical_size == 0 && r.attribute == 0,
            r.create_time == zero_time() && r.last_access_time == zero_time() && r.modification_time == zero_time(),
            r.file_name@ == Seq::new(FILE_NAME_LEN as nat, |i: int| 0u16),
    {
        let mut file_name: Vec<u16> = Vec::new();
        while file_name.len() < FILE_NAME_LEN
            invariant
                file_name@.len() <= FILE_NAME_LEN,
                forall|i: int| 0 <= i < file_name@.len() ==> file_name@[i] == 0u16,
            decreases FILE_NAME_LEN - file_name@.len(),
        {
            file_name.push(0);
        }
        assert(file_name@ =~= Seq::new(FILE_NAME_LEN as nat, |i: int| 0u16));
        FileInfo {
            size: 0,
            file_size: 0,
            physical_size: 0,
            create_time: Time::default(),
            last_access_time: Time::default(),
            modification_time: Time::default(),
            attribute: 0,
            file_name,
        }
    }
}

/// The UCS-2 name the firmware is given for a path, without its terminator.
pub open spec fn ucs2(path: Seq<char>) -> Seq<u16> {
    path.map_values(|c: char| code_unit(c))
}

/// The UCS-2 form of `path`, without its terminator.
pub fn to_ucs2(path: &str) -> (r: Vec<u16>)
    ensures
        r@ == ucs2(path@),
{
    let n = path.unicode_len();
    let mut units: Vec<u16> = Vec::new();
    let mut i: usize = 0;
    while i < n
        invariant
            n == path@.len(),
            0 <= i <= n,
            units@ =~= ucs2(path@.take(i as int)),
        decreases n - i,
    {
        let c = path.get_char(i);
        units.push((c as u32) as u16);
        i = i + 1;
    }
    assert(path@.take(n as int) =~= path@);
    units
}

/// The bytes that a read of `capacity` bytes at `position` returns.
pub open spec fn chunk(contents: Seq<u8>, position: nat, capacity: nat) -> Seq<u8> {
    let start = if position < contents.len() { position } else { contents.len() };
    let end = if start + capacity < contents.len() { start + capacity } else { contents.len() };
    contents.subrange(start as int, end as int)
}

/// The bytes of `contents` from `position` on.
pub open spec fn rest_of(contents: Seq<u8>, position: nat) -> Seq<u8> {
    chunk(contents, position, contents.len())
}

/// A file just opened: its bytes, its readability, and the position 0.
pub open spec fn opened_as<F: FileTable>(f: F, contents: Seq<u8>, readable: bool) -> bool {
    f.contents() == contents && f.readable() == readable && f.position() == 0
}

/// A directory that answers opens as the root of `v` does.
pub open spec fn is_root_of<F: FileTable, V: VolumeTable<F>>(f: F, v: V) -> bool {
    forall|name: Seq<u16>, mode: FileOpenMode, attr: FileAttr|
        #![trigger f.open_response(name, mode, attr)]
        f.open_response(name, mode, attr) == v.root_open_response(name, mode, attr)
        && f.child_contents(name) == v.root_child_contents(name)
        && f.child_readable(name) == v.root_child_readable(name)
}

/// The raw entries of an open file.
///
/// The spec functions describe the answers of an implementation, which
/// defines them; their defaults name no particular value.
pub trait FileTable: Sized {
    /// The bytes of the file.
    closed spec fn contents(&self) -> Seq<u8> {
        arbitrary()
    }

    /// The offset of the next read.
    closed spec fn position(&self) -> nat {
        arbitrary()
    }

    /// Whether reads of this file succeed, at any position.
    closed spec fn readable(&self) -> bool {
        arbitrary()
    }

    /// What opening `name` relative to this file reports.
    closed spec fn open_response(&self, name: Seq<u16>, mode: FileOpenMode, attr: FileAttr) -> Status {
        arbitrary()
    }

    /// The bytes of the file that opening `name` relative to this one reaches.
    closed spec fn child_contents(&self, name: Seq<u16>) -> Seq<u8> {
        arbitrary()
    }

    /// Whether reads of the file that opening `name` reaches succeed.
    closed spec fn child_readable(&self, name: Seq<u16>) -> bool {
        arbitrary()
    }

    /// The reads asked of this file so far, in order: the capacity offered
    /// and the status reported.
    closed spec fn reads(&self) -> Seq<(usize, Status)> {
        arbitrary()
    }

    /// What a read of `capacity` bytes reports.
    closed spec fn read_response(&self, capacity: nat) -> Status {
        arbitrary()
    }

    closed spec fn write_response(&self, data: Seq<u8>) -> Status {
        arbitrary()
    }

    /// How many bytes a write of `data` reports as written.
    closed spec fn write_count(&self, data: Seq<u8>) -> usize {
        arbitrary()
    }

    /// What asking for the position reports.
    closed spec fn position_response(&self) -> Status {
        arbitrary()
    }

    closed spec fn close_response(&self) -> Status {
        arbitrary()
    }

    closed spec fn delete_response(&self) -> Status {
        arbitrary()
    }

    closed spec fn flush_response(&self) -> Status {
        arbitrary()
    }

    closed spec fn set_position_response(&self, position: u64) -> Status {
        arbitrary()
    }

    fn open_raw(&mut self, name: &Vec<u16>, mode: FileOpenMode, attr: FileAttr) -> (r: (Status, Option<Self>))
        ensures
            r.0 == old(self).open_response(name@, mode, attr),
            !r.0.spec_is_error() ==> (r.1 matches Some(f) && f.contents() == old(self).child_contents(name@)
                && f.readable() == old(self).child_readable(name@) && f.position() == 0),
            r.0.spec_is_error() ==> r.1 is None,
            final(self).contents() == old(self).contents(),
            final(self).position() == old(self).position(),
            final(self).readable() == old(self).readable(),
    ;

    /// Reads at most `capacity` bytes from the current position.
    fn read_raw(&mut self, capacity: usize) -> (r: (Status, Vec<u8>))
        ensures
            r.0 == old(self).read_response(capacity as nat),
            final(self).reads() == old(self).reads().push((capacity, r.0)),
            old(self).readable() ==> !r.0.spec_is_error(),
            final(self).readable() == old(self).readable(),
            final(self).contents() == old(self).contents(),
            !r.0.spec_is_error() ==> {
                &&& r.1@ == chunk(old(self).contents(), old(self).position(), capacity as nat)
                &&& final(self).position() == old(self).position() + r.1@.len()
            },
            r.0.spec_is_error() ==> r.1@.len() == 0 && final(self).position() == old(self).position(),
    ;

    /// Writes `data`; reports how many bytes were written.
    fn write_raw(&mut self, data: &Vec<u8>) -> (r: (Status, usize))
        ensures
            r.0 == old(self).write_response(data@),
            r.1 == old(self).write_count(data@),
            r.1 <= data@.len(),
    ;

    fn get_position_raw(&self) -> (r: (Status, u64))
        ensures
            r.0 == self.position_response(),
            !r.0.spec_is_error() ==> r.1 as nat == self.position(),
    ;

    fn set_position_raw(&mut self, position: u64) -> (r: Status)
        ensures
            r == old(self).set_position_response(position),
            !r.spec_is_error() ==> final(self).position() == position as nat,
            final(self).contents() == old(self).contents(),
    ;

    fn flush_raw(&mut self) -> (r: Status)
        ensures
            r == old(self).flush_response(),
    ;

    fn close_raw(self) -> (r: Status)
        ensures
            r == self.close_response(),
    ;

    fn delete_raw(self) -> (r: Status)
        ensures
            r == self.delete_response(),
    ;
}

/// The raw entry of a simple file system: opening its volume.
///
/// The spec functions describe the answers of an implementation, which
/// defines them; their defaults name no particular value.
pub trait VolumeTable<F: FileTable>: Sized {
    closed spec fn volume_response(&self) -> Status {
        arbitrary()
    }

    /// What opening `name` in the root directory reports.
    closed spec fn root_open_response(&self, name: Seq<u16>, mode: FileOpenMode, attr: FileAttr) -> Status {
        arbitrary()
    }

    /// The bytes of the file `name` in the root directory.
    closed spec fn root_child_contents(&self, name: Seq<u16>) -> Seq<u8> {
        arbitrary()
    }

    /// Whether reads of the file `name` in the root directory succeed.
    closed spec fn root_child_readable(&self, name: Seq<u16>) -> bool {
        arbitrary()
    }

    fn open_volume_raw(&mut self) -> (r: (Status, Option<F>))
        ensures
            r.0 == old(self).volume_response(),
            !r.0.spec_is_error() ==> (r.1 matches Some(f) && forall|name: Seq<u16>, mode: FileOpenMode, attr: FileAttr|
                #![trigger f.open_response(name, mode, attr)]
                f.open_response(name, mode, attr) == old(self).root_open_response(name, mode, attr)
                && f.child_contents(name) == old(self).root_child_contents(name)
                && f.child_readable(name) == old(self).root_child_readable(name)),
            r.0.spec_is_error() ==> r.1 is None,
            *final(self) == *old(self),
    ;
}

/// A simple file system.
pub struct SimpleFileSystem<V> {
    pub revision: u64,
    pub table: V,
}

impl<V> Protocol for SimpleFileSystem<V> {
    open spec fn spec_guid() -> Guid {
        file_system_guid()
    }

    fn guid() -> (r: Guid) {
        Guid { data1: 0x964e5b22, data2: 0x6459, data3: 0x11d2, data4: 0x8e39_00a0_c969_723b }
    }
}

impl<V> SimpleFileSystem<V> {
    /// Opens the volume: its root directory.
    pub fn open<F: FileTable>(&mut self) -> (r: UefiResult<File<F>>)
        where
            V: VolumeTable<F>,
        ensures
            match r {
                Ok(c) => !old(self).table.volume_response().spec_is_error()
                    && is_root_of(c.spec_value().0, old(self).table)
                    && c.spec_status() == old(self).table.volume_response()
                    && (c is Success <==> old(self).table.volume_response() == Status::Success),
                Err(s) => s == old(self).table.volume_response() && s.spec_is_error(),
            },
    {
        let (status, root) = self.table.open_volume_raw();
        match root {
            Some(f) => {
                let file = File::new(f);
                status.into_with(|| -> (v: File<F>) ensures v == file { file })
            },
            None => Err(status),
        }
    }
}

/// An open file; it is given up by closing or deleting it.
pub struct File<F>(pub F);

impl<F: FileTable> File<F> {
    pub fn new(table: F) -> (r: Self)
        ensures
            r.0 == table,
    {
        File(table)
    }

    /// Opens `name`, given in UCS-2, relative to this file.
    pub fn inner_open(&mut self, name: &Vec<u16>, mode: FileOpenMode, attr: FileAttr) -> (r: UefiResult<File<F>>)
        ensures
            match r {
                Ok(c) => !old(self).0.open_response(name@, mode, attr).spec_is_error()
                    && opened_as(c.spec_value().0, old(self).0.child_contents(name@), old(self).0.child_readable(name@))
                    && c.spec_status() == old(self).0.open_response(name@, mode, attr)
                    && (c is Success <==> old(self).0.open_response(name@, mode, attr) == Status::Success),
                Err(s) => s == old(self).0.open_response(name@, mode, attr) && s.spec_is_error(),
            },
            final(self).0.contents() == old(self).0.contents(),
            final(self).0.position() == old(self).0.position(),
            final(self).0.readable() == old(self).0.readable(),
    {
        let (status, child) = self.0.open_raw(name, mode, attr);
        match child {
            Some(f) => {
                let file = File::new(f);
                status.into_with(|| -> (v: File<F>) ensures v == file { file })
            },
            None => Err(status),
        }
    }

    /// Opens `path` relative to this file.
    pub fn open(&mut self, path: &str, mode: FileOpenMode, attr: FileAttr) -> (r: UefiResult<File<F>>)
        ensures
            match r {
                Ok(c) => !old(self).0.open_response(ucs2(path@), mode, attr).spec_is_error()
                    && opened_as(c.spec_value().0, old(self).0.child_contents(ucs2(path@)), old(self).0.child_readable(ucs2(path@)))
                    && c.spec_status() == old(self).0.open_response(ucs2(path@), mode, attr)
                    && (c is Success <==> old(self).0.open_response(ucs2(path@), mode, attr) == Status::Success),
                Err(s) => s == old(self).0.open_response(ucs2(path@), mode, attr) && s.spec_is_error(),
            },
    {
        let name = to_ucs2(path);
        self.inner_open(&name, mode, attr)
    }

    /// Closes the file.
    pub fn close(self) -> (r: UefiResult<()>)
        ensures
            r == unit_outcome(self.0.close_response()),
    {
        self.0.close_raw().into_result()
    }

    /// Deletes the file, which closes it too.
    pub fn delete(self) -> (r: UefiResult<()>)
        ensures
            r == unit_outcome(self.0.delete_response()),
    {
        self.0.delete_raw().into_result()
    }

    /// Reads into the front of `buffer`, at most its length; reports how
    /// many bytes were read.
    pub fn inner_read(&mut self, buffer: &mut Vec<u8>) -> (r: UefiResult<usize>)
        ensures
            final(self).0.contents() == old(self).0.contents(),
            final(self).0.readable() == old(self).0.readable(),
            final(buffer)@.len() == old(buffer)@.len(),
            final(self).0.reads() == old(self).0.reads().push((old(buffer)@.len() as usize, old(self).0.read_response(old(buffer)@.len() as nat))),
            old(self).0.readable() ==> r is Ok,
            match r {
                Ok(c) => {
                    let data = chunk(old(self).0.contents(), old(self).0.position(), old(buffer)@.len());
                    &&& c.spec_value() == data.len()
                    &&& c.spec_status() == old(self).0.read_response(old(buffer)@.len())
                    &&& !c.spec_status().spec_is_error()
                    &&& (c is Success <==> c.spec_status() == Status::Success)
                    &&& final(buffer)@.take(data.len() as int) == data
                    &&& final(self).0.position() == old(self).0.position() + data.len()
                },
                Err(s) => s == old(self).0.read_response(old(buffer)@.len()) && s.spec_is_error()
                    && final(self).0.position() == old(self).0.position(),
            },
    {
        let (status, data) = self.0.read_raw(buffer.len());
        let size = data.len();
        let mut i: usize = 0;
        while i < size
            invariant
                size == data@.len(),
                size <= buffer@.len(),
                buffer@.len() == old(buffer)@.len(),
                0 <= i <= size,
                forall|k: int| 0 <= k < i ==> buffer@[k] == data@[k],
            decreases size - i,
        {
            buffer.set(i, data[i]);
            i = i + 1;
        }
        assert(buffer@.take(size as int) =~= data@);
        status.into_with(|| -> (v: usize) ensures v == size { size })
    }

    /// Writes `buffer`; reports how many bytes were written.
    pub fn inner_write(&mut self, buffer: &Vec<u8>) -> (r: UefiResult<usize>)
        ensures
            match r {
                Ok(c) => c.spec_value() == old(self).0.write_count(buffer@) && c.spec_value() <= buffer@.len()
                    && c.spec_status() == old(self).0.write_response(buffer@)
                    && (c is Success <==> old(self).0.write_response(buffer@) == Status::Success),
                Err(s) => s == old(self).0.write_response(buffer@) && s.spec_is_error(),
            },
    {
        let (status, written) = self.0.write_raw(buffer);
        status.into_with(|| -> (v: usize) ensures v == written { written })
    }

    /// The offset of the next read.
    pub fn get_position(&mut self) -> (r: UefiResult<u64>)
        ensures
            match r {
                Ok(c) => c.spec_value() as nat == old(self).0.position()
                    && c.spec_status() == old(self).0.position_response()
                    && (c is Success <==> old(self).0.position_response() == Status::Success),
                Err(s) => s == old(self).0.position_response() && s.spec_is_error(),
            },
            *final(self) == *old(self),
    {
        let (status, position) = self.0.get_position_raw();
        status.into_with(|| -> (v: u64) ensures v == position { position })
    }

    /// Moves the offset of the next read.
    pub fn set_position(&mut self, position: u64) -> (r: UefiResult<()>)
        ensures
            r == unit_outcome(old(self).0.set_position_response(position)),
            r is Ok ==> final(self).0.position() == position as nat,
            final(self).0.contents() == old(self).0.contents(),
    {
        self.0.set_position_raw(position).into_result()
    }

    /// Writes out what is buffered.
    pub fn flush(&mut self) -> (r: UefiResult<()>)
        ensures
            r == unit_outcome(old(self).0.flush_response()),
    {
        self.0.flush_raw().into_result()
    }
}

/// The position `position` clipped to the end of `contents`.
pub open spec fn clipped(contents: Seq<u8>, position: nat) -> nat {
    if position < contents.len() {
        position
    } else {
        contents.len()
    }
}

/// Appends the first `n` bytes of `buf` to `vec`.
fn append_prefix(vec: &mut Vec<u8>, buf: &Vec<u8>, n: usize)
    requires
        n <= buf@.len(),
    ensures
        final(vec)@ == old(vec)@ + buf@.take(n as int),
{
    let mut j: usize = 0;
    while j < n
        invariant
            0 <= j <= n,
            n <= buf@.len(),
            vec@ == old(vec)@ + buf@.take(j as int),
        decreases n - j,
    {
        proof {
            assert(buf@.take(j + 1) =~= buf@.take(j as int).push(buf@[j as int]));
        }
        vec.push(buf[j]);
        j = j + 1;
    }
}

/// How many bytes `reads` full reads of `READ_CHUNK` bytes take from a
/// rest of `rest` bytes.
pub open spec fn consumed_after(reads: nat, rest: nat) -> nat {
    if reads * READ_CHUNK < rest {
        (reads * READ_CHUNK) as nat
    } else {
        rest
    }
}

/// `n` zero bytes.
fn zero_bytes(n: usize) -> (r: Vec<u8>)
    ensures
        r@.len() == n,
{
    let mut v: Vec<u8> = Vec::new();
    while v.len() < n
        invariant
            v@.len() <= n,
        decreases n - v@.len(),
    {
        v.push(0);
    }
    v
}

impl<F: FileTable> File<F> {
    /// Appends the rest of the file to `vec`, reading it in chunks of
    /// `READ_CHUNK` bytes until a read returns nothing, and reports how many
    /// bytes were appended with the status of that last, empty read. A read
    /// that fails stops the reading; its error is returned and what the
    /// reads before it returned stays appended.
    pub fn read(&mut self, vec: &mut Vec<u8>) -> (r: UefiResult<usize>)
        ensures
            final(self).0.contents() == old(self).0.contents(),
            final(self).0.readable() == old(self).0.readable(),
            old(self).0.readable() ==> r is Ok,
            ({
                let contents = old(self).0.contents();
                let start = clipped(contents, old(self).0.position());
                let rest = rest_of(contents, old(self).0.position());
                let log = final(self).0.reads().skip(old(self).0.reads().len() as int);
                let count = log.len();
                let end = clipped(contents, final(self).0.position());
                &&& final(self).0.reads() == old(self).0.reads() + log
                &&& count >= 1
                &&& forall|k: int| 0 <= k < count ==> (#[trigger] log[k]).0 == READ_CHUNK
                &&& forall|k: int| 0 <= k < count - 1 ==> !(#[trigger] log[k]).1.spec_is_error()
                &&& start <= end
                &&& end - start == consumed_after((count - 1) as nat, rest.len())
                &&& final(vec)@ == old(vec)@ + contents.subrange(start as int, end as int)
                &&& match r {
                    Ok(_) => {
                        &&& r == outcome(log[count - 1].1, rest.len() as usize)
                        &&& end == contents.len()
                        &&& (count == 1 || (count - 2) * READ_CHUNK < rest.len())
                    },
                    Err(s) => s == log[count - 1].1 && s.spec_is_error(),
                }
            }),
    {
        let ghost contents = self.0.contents();
        let ghost p0 = self.0.position();
        let ghost start = vec@;
        let ghost reads0 = self.0.reads();
        let ghost rest_len = rest_of(contents, p0).len();
        let start_len = vec.len();
        let mut buf = zero_bytes(READ_CHUNK);
        loop
            invariant
                self.0.contents() == contents,
                self.0.readable() == old(self).0.readable(),
                contents == old(self).0.contents(),
                p0 == old(self).0.position(),
                start == old(vec)@,
                reads0 == old(self).0.reads(),
                rest_len == rest_of(contents, p0).len(),
                rest_len == contents.len() - clipped(contents, p0),
                start_len == start.len(),
                buf@.len() == READ_CHUNK,
                p0 <= self.0.position(),
                p0 <= contents.len() ==> self.0.position() <= contents.len(),
                p0 > contents.len() ==> self.0.position() == p0,
                vec@ == start + contents.subrange(clipped(contents, p0) as int, clipped(contents, self.0.position()) as int),
                self.0.reads().len() >= reads0.len(),
                self.0.reads().take(reads0.len() as int) == reads0,
                forall|k: int| reads0.len() <= k < self.0.reads().len() ==> (#[trigger] self.0.reads()[k]).0 == READ_CHUNK
                    && !self.0.reads()[k].1.spec_is_error(),
                clipped(contents, self.0.position()) - clipped(contents, p0)
                    == consumed_after((self.0.reads().len() - reads0.len()) as nat, rest_len),
                self.0.reads().len() == reads0.len()
                    || (self.0.reads().len() - reads0.len() - 1) * READ_CHUNK < rest_len,
            decreases contents.len() - clipped(contents, self.0.position()),
        {
            let ghost before = self.0.position();
            let ghost reads_before = self.0.reads();
            let result = self.inner_read(&mut buf);
            proof {
                let log = self.0.reads().skip(reads0.len() as int);
                assert(self.0.reads() =~= reads0 + log);
                assert(log =~= reads_before.skip(reads0.len() as int).push(self.0.reads().last()));
                assert(self.0.reads().take(reads0.len() as int) =~= reads0);
            }
            let (size, inner_status) = match result {
                Ok(c) => c.split(),
                Err(s) => return Err(s),
            };
            if size == 0 {
                let total = vec.len() - start_len;
                proof {
                    assert(contents.subrange(clipped(contents, p0) as int, contents.len() as int) =~= rest_of(contents, p0));
                }
                return inner_status.into_with(|| -> (v: usize) ensures v == total { total });
            }
            append_prefix(vec, &buf, size);
            proof {
                let data = chunk(contents, before, READ_CHUNK as nat);
                assert(buf@.take(size as int) == data);
                assert(contents.subrange(clipped(contents, p0) as int, clipped(contents, before) as int) + data
                    =~= contents.subrange(clipped(contents, p0) as int, clipped(contents, self.0.position()) as int));
            }
        }
    }

    /// Opens the root directory of `fs`.
    pub fn root<V: VolumeTable<F>>(fs: &mut SimpleFileSystem<V>) -> (r: UefiResult<File<F>>)
        ensures
            match r {
                Ok(c) => !old(fs).table.volume_response().spec_is_error()
                    && is_root_of(c.spec_value().0, old(fs).table)
                    && c.spec_status() == old(fs).table.volume_response()
                    && (c is Success <==> old(fs).table.volume_response() == Status::Success),
                Err(s) => s == old(fs).table.volume_response() && s.spec_is_error(),
            },
    {
        fs.open()
    }

    /// Opens `path`, relative to the root of `fs`, for reading. A missing
    /// file comes back as the firmware's `NotFound`, a negative answer that
    /// callers branch on; any other failure comes back as it came.
    pub fn find<V: VolumeTable<F>>(fs: &mut SimpleFileSystem<V>, path: &str) -> (r: UefiResult<File<F>>)
        ensures
            ({
                let volume = old(fs).table.volume_response();
                let name = ucs2(path@);
                let opened = old(fs).table.root_open_response(name, FileOpenMode::Read, FileAttr::Normal);
                if volume.spec_is_error() {
                    r == Err::<Completion<File<F>>, Status>(volume)
                } else if opened.spec_is_error() {
                    r == Err::<Completion<File<F>>, Status>(opened)
                } else {
                    r matches Ok(c) && c.spec_status() == opened && (c is Success <==> opened == Status::Success) && opened_as(
                        c.spec_value().0,
                        old(fs).table.root_child_contents(name),
                        old(fs).table.root_child_readable(name),
                    )
                }
            }),
    {
        let mut root = match File::root(fs) {
            Ok(c) => c.unwrap(),
            Err(s) => return Err(s),
        };
        root.open(path, FileOpenMode::Read, FileAttr::Normal)
    }

    /// The whole content of the file at `path`, relative to the root of
    /// `fs`. The file is not closed. The error of a failed read is returned
    /// as the read reported it.
    pub fn load<V: VolumeTable<F>>(fs: &mut SimpleFileSystem<V>, path: &str) -> (r: Result<Vec<u8>, Status>)
        ensures
            ({
                let volume = old(fs).table.volume_response();
                let name = ucs2(path@);
                let opened = old(fs).table.root_open_response(name, FileOpenMode::Read, FileAttr::Normal);
                &&& volume.spec_is_error() ==> r == Err::<Vec<u8>, Status>(volume)
                &&& !volume.spec_is_error() && opened.spec_is_error() ==> r == Err::<Vec<u8>, Status>(opened)
                &&& !volume.spec_is_error() && !opened.spec_is_error() && old(fs).table.root_child_readable(name) ==> r is Ok
                &&& r matches Ok(data) ==> data@ == old(fs).table.root_child_contents(name)
                &&& r matches Err(s) ==> s.spec_is_error()
                &&& r is Err && !volume.spec_is_error() && !opened.spec_is_error()
                    ==> !old(fs).table.root_child_readable(name)
            }),
    {
        let ghost volume = fs.table;
        let mut file = match File::find(fs, path) {
            Ok(c) => c.unwrap(),
            Err(s) => return Err(s),
        };
        let mut data: Vec<u8> = Vec::new();
        match file.read(&mut data) {
            Ok(_) => {
                proof {
                    let contents = volume.root_child_contents(ucs2(path@));
                    assert(rest_of(contents, 0) =~= contents);
                    assert(data@ =~= contents);
                }
                Ok(data)
            },
            Err(s) => Err(s),
        }
    }
}

} // verus!
