//! The chunked upload: the source image is cut into chunks that are staged,
//! written into a RAM buffer of the target, copied to flash by a routine of the
//! target, and checked against the checksum that routine returns. Chunks go
//! strictly in index order; the first failure ends the upload for good.

use crate::chunking::{
    checksum, chunk_bounds, chunk_count, chunk_count_of, chunk_len_of, chunk_lengths_sum,
    chunk_start_of, lemma_chunk_plan_covers_file, lemma_chunk_starts_inside,
    lemma_full_chunks_sum, wrapping_sum,
};
use crate::command::GdbCommand;
use crate::error::LoaderError;
use crate::parser::{call_value_result, parse_call_value, parse_restore_reply, restore_reply_result};
use vstd::prelude::*;
use vstd::slice::{slice_subrange, slice_to_vec};

verus! {

/// One chunk of the source image: the bytes `[offset, offset + bytes.len())`
/// and their checksum.
#[derive(Debug, Clone, PartialEq, Eq)]
pub struct Chunk {
    pub index: usize,
    pub offset: usize,
    pub bytes: Vec<u8>,
    pub checksum: u32,
}

/// What is reported after a chunk has been verified.
#[derive(Debug, Clone, Copy, PartialEq, Eq, Structural)]
pub struct ChunkProgress {
    pub chunk_index: usize,
    pub chunk_count: usize,
    pub bytes_transferred: u64,
    pub total_bytes: usize,
}

/// The model of an upload in progress.
pub struct UploadState {
    pub data: Seq<u8>,
    pub buffer_name: Seq<char>,
    pub copy_function: Seq<char>,
    pub chunk_size: nat,
    pub chunk_count: nat,
    pub chunk_index: nat,
    pub flash_offset: nat,
    pub bytes_transferred: nat,
    pub written: Option<u32>,
    pub failure: Option<LoaderError>,
}

/// The bytes of chunk `i` of the plan for `data`.
pub open spec fn chunk_bytes_of(data: Seq<u8>, size: nat, i: nat) -> Seq<u8> {
    data.subrange(
        chunk_start_of(size, i) as int,
        (chunk_start_of(size, i) + chunk_len_of(data.len(), size, i)) as int,
    )
}

/// The upload still has a chunk to transfer.
pub open spec fn has_pending(s: UploadState) -> bool {
    s.failure is None && s.chunk_index < s.chunk_count
}

/// The upload follows its chunk plan from `flash_start`: the bytes transferred
/// are the summed lengths of the chunks confirmed so far, and the flash offset
/// lies that far past `flash_start`.
pub open spec fn on_plan(s: UploadState, flash_start: nat) -> bool {
    &&& s.bytes_transferred == chunk_lengths_sum(s.data.len(), s.chunk_size, s.chunk_index)
    &&& s.flash_offset == flash_start + s.bytes_transferred
}

/// An upload whose memory writes each report their chunk's full length keeps to
/// its plan: chunk `i` is copied to `flash_start + i * chunk_size`, each
/// confirmed chunk moves the upload one chunk on, and once the last of the
/// `ceil(len / chunk_size)` chunks is confirmed the whole image has been
/// transferred.
pub proof fn lemma_upload_follows_plan(o: UploadState, n: UploadState, flash_start: nat)
    requires
        o.chunk_size > 0,
        o.chunk_count == chunk_count_of(o.data.len(), o.chunk_size),
        has_pending(o),
        on_plan(o, flash_start),
        o.written matches Some(w) && w == chunk_len_of(o.data.len(), o.chunk_size, o.chunk_index),
        n == (UploadState {
            chunk_index: o.chunk_index + 1,
            flash_offset: (o.flash_offset + o.written->0) as nat,
            bytes_transferred: (o.bytes_transferred + o.written->0) as nat,
            written: None,
            ..o
        }),
    ensures
        o.flash_offset == flash_start + o.chunk_index * o.chunk_size,
        on_plan(n, flash_start),
        n.chunk_index == n.chunk_count ==> n.bytes_transferred == n.data.len(),
{
    let total = o.data.len();
    lemma_chunk_starts_inside(total, o.chunk_size, o.chunk_index);
    lemma_full_chunks_sum(total, o.chunk_size, o.chunk_index);
    assert(chunk_lengths_sum(total, o.chunk_size, o.chunk_index + 1) == chunk_lengths_sum(
        total,
        o.chunk_size,
        o.chunk_index,
    ) + chunk_len_of(total, o.chunk_size, o.chunk_index));
    lemma_chunk_plan_covers_file(total, o.chunk_size);
}

/// The transfer state of an upload.
pub struct ChunkUploader {
    data: Vec<u8>,
    buffer_name: String,
    copy_function: String,
    chunk_size: usize,
    chunk_count: usize,
    chunk_index: usize,
    flash_offset: u64,
    bytes_transferred: u64,
    written: Option<u32>,
    failure: Option<LoaderError>,
}

impl View for ChunkUploader {
    type V = UploadState;

    closed spec fn view(&self) -> UploadState {
        UploadState {
            data: self.data@,
            buffer_name: self.buffer_name@,
            copy_function: self.copy_function@,
            chunk_size: self.chunk_size as nat,
            chunk_count: self.chunk_count as nat,
            chunk_index: self.chunk_index as nat,
            flash_offset: self.flash_offset as nat,
            bytes_transferred: self.bytes_transferred as nat,
            written: self.written,
            failure: self.failure,
        }
    }
}

impl ChunkUploader {
    /// The invariant of an upload: chunks of a positive size, as many as the
    /// plan for the image has, and an index that never passes their count.
    pub open spec fn wf(&self) -> bool {
        &&& self@.chunk_size > 0
        &&& self@.chunk_count == chunk_count_of(self@.data.len(), self@.chunk_size)
        &&& self@.chunk_index <= self@.chunk_count
    }

    /// Starts an upload of `data` in chunks of `chunk_size` bytes, to flash from
    /// `flash_start_offset` on, through the RAM buffer `buffer_name` and the
    /// target's copy routine `copy_function`.
    pub fn new(
        data: Vec<u8>,
        buffer_name: String,
        copy_function: String,
        chunk_size: usize,
        flash_start_offset: u64,
    ) -> (r: Self)
        requires
            chunk_size > 0,
        ensures
            r.wf(),
            r@.data == data@,
            r@.buffer_name == buffer_name@,
            r@.copy_function == copy_function@,
            r@.chunk_size == chunk_size,
            r@.chunk_index == 0,
            r@.flash_offset == flash_start_offset,
            r@.bytes_transferred == 0,
            r@.written is None,
            r@.failure is None,
            on_plan(r@, flash_start_offset as nat),
    {
        let count = chunk_count(data.len(), chunk_size);
        ChunkUploader {
            data,
            buffer_name,
            copy_function,
            chunk_size,
            chunk_count: count,
            chunk_index: 0,
            flash_offset: flash_start_offset,
            bytes_transferred: 0,
            written: None,
            failure: None,
        }
    }

    /// How many chunks the image is cut into.
    pub fn chunk_count(&self) -> (r: usize)
        ensures
            r == self@.chunk_count,
    {
        self.chunk_count
    }

    /// The index of the next chunk to transfer.
    pub fn chunk_index(&self) -> (r: usize)
        ensures
            r == self@.chunk_index,
    {
        self.chunk_index
    }

    /// Where in flash the next chunk goes.
    pub fn flash_offset(&self) -> (r: u64)
        ensures
            r == self@.flash_offset,
    {
        self.flash_offset
    }

    /// How many bytes the target has confirmed so far.
    pub fn bytes_transferred(&self) -> (r: u64)
        ensures
            r == self@.bytes_transferred,
    {
        self.bytes_transferred
    }

    /// The size of the image.
    pub fn total_bytes(&self) -> (r: usize)
        ensures
            r == self@.data.len(),
    {
        self.data.len()
    }

    /// The failure that ended the upload, if one did.
    pub fn failure(&self) -> (r: Option<LoaderError>)
        ensures
            r == self@.failure,
    {
        self.failure
    }

    /// Whether a chunk is still to be transferred.
    pub fn has_pending_chunk(&self) -> (r: bool)
        ensures
            r == has_pending(self@),
    {
        self.failure.is_none() && self.chunk_index < self.chunk_count
    }

    /// All chunks went through.
    pub fn is_complete(&self) -> (r: bool)
        ensures
            r == (self@.failure is None && self@.chunk_index == self@.chunk_count),
    {
        self.failure.is_none() && self.chunk_index == self.chunk_count
    }

    /// The next chunk to stage, with its checksum; none once the upload
    /// completed or failed.
    pub fn current_chunk(&self) -> (r: Option<Chunk>)
        requires
            self.wf(),
        ensures
            !has_pending(self@) ==> r is None,
            has_pending(self@) ==> (r matches Some(c) && {
                &&& c.index == self@.chunk_index
                &&& c.offset == chunk_start_of(self@.chunk_size, self@.chunk_index)
                &&& c.bytes@ == chunk_bytes_of(self@.data, self@.chunk_size, self@.chunk_index)
                &&& c.checksum == wrapping_sum(c.bytes@)
            }),
    {
        if !self.has_pending_chunk() {
            return None;
        }
        let (start, end) = chunk_bounds(self.data.len(), self.chunk_size, self.chunk_index);
        let part = slice_subrange(self.data.as_slice(), start, end);
        let sum = checksum(part);
        Some(Chunk { index: self.chunk_index, offset: start, bytes: slice_to_vec(part), checksum: sum })
    }

    /// The memory write of a staged chunk into the target's RAM buffer.
    pub fn write_command(&self, staged_path: String) -> (r: GdbCommand)
        ensures
            (r matches GdbCommand::Restore { path, buffer } && path@ == staged_path@ && buffer@
                == self@.buffer_name),
    {
        GdbCommand::Restore { path: staged_path, buffer: self.buffer_name.clone() }
    }

    /// Takes the reply to the memory write of the current chunk. The byte count
    /// that the write reports (`end - start` of its address range) is kept as
    /// the chunk's count, for the copy call and the progress; a reply without
    /// such a range fails the upload.
    pub fn record_write(&mut self, reply: &Vec<String>) -> (r: Result<u32, LoaderError>)
        requires
            old(self).wf(),
            has_pending(old(self)@),
        ensures
            final(self).wf(),
            r == restore_reply_result(reply@),
            match restore_reply_result(reply@) {
                Ok(n) => final(self)@ == (UploadState { written: Some(n), ..old(self)@ }),
                Err(e) => final(self)@ == (UploadState { failure: Some(e), ..old(self)@ }),
            },
    {
        let r = parse_restore_reply(reply);
        match r {
            Ok(n) => {
                self.written = Some(n);
            },
            Err(e) => {
                self.failure = Some(e);
            },
        }
        r
    }

    /// The call of the target's copy routine for the current chunk:
    /// `copy(flash_offset, count)`, with the count that the memory write
    /// reported, and a return value expected.
    pub fn copy_command(&self) -> (r: GdbCommand)
        requires
            self@.written is Some,
        ensures
            (r matches GdbCommand::Call { function, args, has_return } && {
                &&& function@ == self@.copy_function
                &&& args@ == seq![self@.flash_offset as u64, self@.written->0 as u64]
                &&& has_return
            }),
    {
        let written = match self.written {
            Some(n) => n,
            None => 0,
        };
        let args = vec![self.flash_offset, written as u64];
        GdbCommand::Call { function: self.copy_function.clone(), args, has_return: true }
    }

    /// Closes the transfer of the current chunk, given the copy routine's reply.
    /// The target's checksum is the integer of that reply. Where it equals the
    /// host's, flash offset and bytes transferred advance by the count that the
    /// memory write reported and the next chunk is up. Where it differs, the
    /// upload fails with the two checksums and the chunk's index; a reply
    /// without a checksum fails it as its parse does; an advance past 64 bits is
    /// a malformed count. A failed upload offers no further chunk.
    pub fn complete_chunk(&mut self, reply: Vec<String>) -> (r: Result<
        ChunkProgress,
        LoaderError,
    >)
        requires
            old(self).wf(),
            has_pending(old(self)@),
            old(self)@.written is Some,
        ensures
            final(self).wf(),
            final(self)@.data == old(self)@.data,
            final(self)@.buffer_name == old(self)@.buffer_name,
            final(self)@.copy_function == old(self)@.copy_function,
            final(self)@.chunk_size == old(self)@.chunk_size,
            final(self)@.chunk_count == old(self)@.chunk_count,
            ({
                let o = old(self)@;
                let written = o.written->0;
                let host = wrapping_sum(chunk_bytes_of(o.data, o.chunk_size, o.chunk_index));
                let new_offset = (o.flash_offset + written) as nat;
                let new_bytes = (o.bytes_transferred + written) as nat;
                match call_value_result(reply@, true) {
                    Err(e) => r == Err::<ChunkProgress, LoaderError>(e) && final(self)@ == (
                    UploadState { failure: Some(e), ..o }),
                    Ok(target) => if host != target {
                        let e = LoaderError::ChecksumMismatch {
                            host,
                            target,
                            chunk_index: o.chunk_index as usize,
                        };
                        r == Err::<ChunkProgress, LoaderError>(e) && final(self)@ == (
                        UploadState { failure: Some(e), ..o })
                    } else if new_offset > u64::MAX || new_bytes > u64::MAX {
                        r == Err::<ChunkProgress, LoaderError>(LoaderError::MalformedResponse)
                            && final(self)@ == (UploadState {
                            failure: Some(LoaderError::MalformedResponse),
                            ..o
                        })
                    } else {
                        &&& final(self)@ == (UploadState {
                            chunk_index: o.chunk_index + 1,
                            flash_offset: new_offset,
                            bytes_transferred: new_bytes,
                            written: None,
                            ..o
                        })
                        &&& r == Ok::<ChunkProgress, LoaderError>(
                            ChunkProgress {
                                chunk_index: o.chunk_index as usize,
                                chunk_count: o.chunk_count as usize,
                                bytes_transferred: new_bytes as u64,
                                total_bytes: o.data.len() as usize,
                            },
                        )
                    }
                }
            }),
    {
        let written = match self.written {
            Some(n) => n,
            None => 0,
        };
        let target = match parse_call_value(reply, true) {
            Ok(v) => v,
            Err(e) => {
                self.failure = Some(e);
                return Err(e);
            },
        };
        let (start, end) = chunk_bounds(self.data.len(), self.chunk_size, self.chunk_index);
        let host = checksum(slice_subrange(self.data.as_slice(), start, end));
        if host != target {
            let e = LoaderError::ChecksumMismatch { host, target, chunk_index: self.chunk_index };
            self.failure = Some(e);
            return Err(e);
        }
        let new_offset = self.flash_offset.checked_add(written as u64);
        let new_bytes = self.bytes_transferred.checked_add(written as u64);
        match (new_offset, new_bytes) {
            (Some(offset), Some(bytes)) => {
                let index = self.chunk_index;
                self.flash_offset = offset;
                self.bytes_transferred = bytes;
                self.chunk_index = index + 1;
                self.written = None;
                Ok(
                    ChunkProgress {
                        chunk_index: index,
                        chunk_count: self.chunk_count,
                        bytes_transferred: bytes,
                        total_bytes: self.data.len(),
                    },
                )
            },
            _ => {
                self.failure = Some(LoaderError::MalformedResponse);
                Err(LoaderError::MalformedResponse)
            },
        }
    }
}

} // verus!
