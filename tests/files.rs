use libuefi::file::{to_ucs2, File, FileAttr, FileInfo, FileOpenMode, SimpleFileSystem, READ_CHUNK};
use libuefi::simulated::{Entry, SimulatedFile, SimulatedVolume};
use libuefi::status::{Completion, Status};

fn volume(files: Vec<(&str, Vec<u8>)>) -> SimpleFileSystem<SimulatedVolume> {
    let root = files
        .into_iter()
        .map(|(name, contents)| Entry { name: to_ucs2(name), contents })
        .collect();
    SimpleFileSystem { revision: 0x10000, table: SimulatedVolume { root } }
}

fn pattern(n: usize) -> Vec<u8> {
    (0..n).map(|i| (i % 251) as u8).collect()
}

#[test]
fn load_across_chunk_boundaries() {
    let k = READ_CHUNK * 2 + 1;
    let data = pattern(k);
    let mut fs = volume(vec![("boot\\kernel.bin", data.clone())]);
    let loaded = File::<SimulatedFile>::load(&mut fs, "boot\\kernel.bin").unwrap();
    assert_eq!(loaded.len(), k);
    assert_eq!(loaded, data);
}

#[test]
fn load_small_and_empty_files() {
    let mut fs = volume(vec![("a.txt", b"hello".to_vec()), ("empty", Vec::new())]);
    assert_eq!(File::<SimulatedFile>::load(&mut fs, "a.txt"), Ok(b"hello".to_vec()));
    assert_eq!(File::<SimulatedFile>::load(&mut fs, "empty"), Ok(Vec::new()));
}

#[test]
fn load_exact_chunk() {
    let data = pattern(READ_CHUNK);
    let mut fs = volume(vec![("x", data.clone())]);
    assert_eq!(File::<SimulatedFile>::load(&mut fs, "x"), Ok(data));
}

#[test]
fn missing_file_is_not_found() {
    let mut fs = volume(vec![("a.txt", b"hi".to_vec())]);
    assert_eq!(File::<SimulatedFile>::load(&mut fs, "b.txt"), Err(Status::NotFound));
    assert!(matches!(File::<SimulatedFile>::find(&mut fs, "b.txt"), Err(Status::NotFound)));
}

#[test]
fn read_counts_chunked_bytes() {
    let data = pattern(READ_CHUNK + 10);
    let mut fs = volume(vec![("f", data.clone())]);
    let mut file = File::<SimulatedFile>::find(&mut fs, "f").unwrap().unwrap();
    let mut out = vec![1u8, 2];
    assert_eq!(file.read(&mut out), Ok(Completion::Success(READ_CHUNK + 10)));
    assert_eq!(out.len(), READ_CHUNK + 12);
    assert_eq!(&out[2..], &data[..]);
    assert_eq!(file.get_position(), Ok(Completion::Success((READ_CHUNK + 10) as u64)));
}

#[test]
fn inner_read_fills_front_of_buffer() {
    let mut fs = volume(vec![("f", b"abcdef".to_vec())]);
    let mut root = File::<SimulatedFile>::root(&mut fs).unwrap().unwrap();
    let mut file = root.open("f", FileOpenMode::Read, FileAttr::Normal).unwrap().unwrap();
    let mut buf = vec![0u8; 4];
    assert_eq!(file.inner_read(&mut buf), Ok(Completion::Success(4)));
    assert_eq!(buf, b"abcd".to_vec());
    assert_eq!(file.inner_read(&mut buf), Ok(Completion::Success(2)));
    assert_eq!(&buf[..2], b"ef");
    assert_eq!(file.inner_read(&mut buf), Ok(Completion::Success(0)));
    assert_eq!(file.set_position(1), Ok(Completion::Success(())));
    assert_eq!(file.inner_read(&mut buf), Ok(Completion::Success(4)));
    assert_eq!(buf, b"bcde".to_vec());
    assert_eq!(file.inner_write(&b"z".to_vec()), Err(Status::WriteProtected));
    assert_eq!(file.flush(), Ok(Completion::Success(())));
    assert_eq!(file.close(), Ok(Completion::Success(())));
}

#[test]
fn open_modes_and_attributes() {
    assert_eq!(FileOpenMode::Read.bits(), 1);
    assert_eq!(FileOpenMode::ReadWrite.bits(), 3);
    assert_eq!(FileOpenMode::CreateReadWrite.bits(), 0x8000_0000_0000_0003);
    assert_eq!(FileAttr::Directory.bits(), 0x10);
    assert_eq!(FileAttr::ValidAttr.bits(), 0x37);
}

#[test]
fn ucs2_names() {
    assert_eq!(to_ucs2("a\\b"), vec![97u16, 92, 98]);
    assert!(to_ucs2("").is_empty());
}

#[test]
fn file_info_default_is_zero() {
    let info = FileInfo::default();
    assert_eq!(info.size, 0);
    assert_eq!(info.file_name.len(), 256);
    assert!(info.file_name.iter().all(|u| *u == 0));
    assert_eq!(info.create_time.year(), 0);
}

#[test]
fn read_uses_chunks_and_stops_at_empty_read() {
    let k = READ_CHUNK * 2 + 1;
    let data = pattern(k);
    let mut fs = volume(vec![("f", data.clone())]);
    let mut file = File::<SimulatedFile>::find(&mut fs, "f").unwrap().unwrap();
    let mut out = Vec::new();
    assert_eq!(file.read(&mut out), Ok(Completion::Success(k)));
    assert_eq!(out, data);
    assert_eq!(&out[READ_CHUNK - 1..READ_CHUNK + 1], &data[READ_CHUNK - 1..READ_CHUNK + 1]);
    assert_eq!(file.0.reads, vec![(READ_CHUNK, Status::Success); 4]);
}
