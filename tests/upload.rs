use gdbloader::chunking::checksum;
use gdbloader::command::GdbCommand;
use gdbloader::error::LoaderError;
use gdbloader::uploader::{ChunkProgress, ChunkUploader};
use gdbloader::workspace::{chunk_file_name, chunk_file_path, get_abs_tmp_workspace_dir};

fn image(len: usize) -> Vec<u8> {
    (0..len).map(|i| (i * 7 + 3) as u8).collect()
}

fn reply(value: u32) -> Vec<String> {
    vec![format!("$5 = {value}")]
}

fn restore(count: u32) -> Vec<String> {
    let start: u32 = 0x2000_0000;
    vec![format!("Restoring binary file c.bin into memory (0x{start:x} to 0x{:x})", start + count)]
}

fn uploader(data: Vec<u8>, chunk: usize, offset: u64) -> ChunkUploader {
    ChunkUploader::new(data, "loader_ram_buffer".to_string(), "copy_to_flash".to_string(), chunk, offset)
}

fn copy_args(cmd: &GdbCommand) -> Vec<u64> {
    match cmd {
        GdbCommand::Call { function, args, has_return } => {
            assert_eq!(function, "copy_to_flash");
            assert!(*has_return);
            args.clone()
        }
        other => panic!("not a call: {other:?}"),
    }
}

#[test]
fn end_to_end_three_chunks() {
    let data = image(150_000);
    let mut up = uploader(data.clone(), 65_536, 0);
    assert_eq!(up.chunk_count(), 3);
    let mut sizes = vec![];
    let mut offsets = vec![];
    while let Some(chunk) = up.current_chunk() {
        assert_eq!(chunk.index, sizes.len());
        assert_eq!(chunk.bytes, data[chunk.offset..chunk.offset + chunk.bytes.len()].to_vec());
        assert_eq!(chunk.checksum, checksum(&chunk.bytes));
        let written = chunk.bytes.len() as u32;
        let path = chunk_file_path("/tmp/ws", chunk.index);
        match up.write_command(path.clone()) {
            GdbCommand::Restore { path: p, buffer } => {
                assert_eq!(p, path);
                assert_eq!(buffer, "loader_ram_buffer");
            }
            other => panic!("not a restore: {other:?}"),
        }
        assert_eq!(up.record_write(&restore(written)), Ok(written));
        let args = copy_args(&up.copy_command());
        offsets.push(args[0]);
        assert_eq!(args[1], written as u64);
        sizes.push(chunk.bytes.len());
        let progress = up.complete_chunk(reply(chunk.checksum)).unwrap();
        assert_eq!(progress.chunk_index, chunk.index);
        assert_eq!(progress.chunk_count, 3);
        assert_eq!(progress.total_bytes, 150_000);
    }
    assert_eq!(sizes, vec![65_536, 65_536, 18_928]);
    assert_eq!(offsets, vec![0, 65_536, 131_072]);
    assert!(up.is_complete());
    assert_eq!(up.bytes_transferred(), 150_000);
    assert_eq!(up.flash_offset(), 150_000);
}

#[test]
fn flash_offsets_start_at_base() {
    let mut up = uploader(image(10), 4, 0x8000);
    let mut offsets = vec![];
    while let Some(chunk) = up.current_chunk() {
        let written = chunk.bytes.len() as u32;
        up.record_write(&restore(written)).unwrap();
        offsets.push(copy_args(&up.copy_command())[0]);
        up.complete_chunk(reply(chunk.checksum)).unwrap();
    }
    assert_eq!(offsets, vec![0x8000, 0x8004, 0x8008]);
}

#[test]
fn mismatch_stops_upload() {
    for k in 0..3usize {
        let data = image(150_000);
        let mut up = uploader(data, 65_536, 0);
        let mut staged = vec![];
        let mut result = Ok(());
        while let Some(chunk) = up.current_chunk() {
            staged.push(chunk.index);
            let target = if chunk.index == k { chunk.checksum.wrapping_add(1) } else { chunk.checksum };
            up.record_write(&restore(chunk.bytes.len() as u32)).unwrap();
            match up.complete_chunk(reply(target)) {
                Ok(_) => {}
                Err(e) => {
                    let host = chunk.checksum;
                    assert_eq!(e, LoaderError::ChecksumMismatch { host, target, chunk_index: k });
                    result = Err(e);
                    break;
                }
            }
        }
        assert!(result.is_err());
        assert_eq!(staged, (0..=k).collect::<Vec<_>>());
        assert!(up.current_chunk().is_none());
        assert!(!up.has_pending_chunk());
        assert_eq!(up.chunk_index(), k);
        assert!(matches!(up.failure(), Some(LoaderError::ChecksumMismatch { .. })));
    }
}

#[test]
fn missing_checksum_fails_upload() {
    let mut up = uploader(image(5), 8, 0);
    up.record_write(&restore(5)).unwrap();
    assert_eq!(up.complete_chunk(vec![]), Err(LoaderError::NoReturnValue));
    assert!(up.current_chunk().is_none());
    let mut up = uploader(image(5), 8, 0);
    up.record_write(&restore(5)).unwrap();
    assert_eq!(
        up.complete_chunk(vec!["$1 = <error>".to_string()]),
        Err(LoaderError::MalformedResponse)
    );
    assert_eq!(up.failure(), Some(LoaderError::MalformedResponse));
}

#[test]
fn written_count_drives_progress() {
    let data = image(8);
    let sum = checksum(&data);
    let mut up = uploader(data, 8, 100);
    up.record_write(&restore(6)).unwrap();
    assert_eq!(copy_args(&up.copy_command()), vec![100, 6]);
    let progress = up.complete_chunk(reply(sum)).unwrap();
    assert_eq!(
        progress,
        ChunkProgress { chunk_index: 0, chunk_count: 1, bytes_transferred: 6, total_bytes: 8 }
    );
    assert_eq!(up.flash_offset(), 106);
    assert!(up.is_complete());
}

#[test]
fn offset_overflow_is_malformed() {
    let data = image(4);
    let sum = checksum(&data);
    let mut up = uploader(data, 4, u64::MAX - 1);
    up.record_write(&restore(4)).unwrap();
    assert_eq!(up.complete_chunk(reply(sum)), Err(LoaderError::MalformedResponse));
}

#[test]
fn empty_image_has_no_chunk() {
    let up = uploader(vec![], 16, 0);
    assert_eq!(up.chunk_count(), 0);
    assert!(up.current_chunk().is_none());
    assert!(up.is_complete());
    assert_eq!(up.total_bytes(), 0);
}

#[test]
fn workspace_names() {
    assert_eq!(get_abs_tmp_workspace_dir("/home/me/loader"), "/home/me/loader/tmp_bin_chunks");
    assert_eq!(get_abs_tmp_workspace_dir("/home/me/loader/"), "/home/me/loader/tmp_bin_chunks");
    assert_eq!(chunk_file_name(0), "chunk_0_.bin");
    assert_eq!(chunk_file_name(12), "chunk_12_.bin");
    assert_eq!(chunk_file_path("/ws", 3), "/ws/chunk_3_.bin");
}

#[test]
fn malformed_write_reply_fails_upload() {
    let mut up = uploader(image(5), 8, 0);
    assert_eq!(
        up.record_write(&vec!["Cannot access memory".to_string()]),
        Err(LoaderError::MalformedResponse)
    );
    assert!(up.current_chunk().is_none());
    assert_eq!(up.failure(), Some(LoaderError::MalformedResponse));
}
