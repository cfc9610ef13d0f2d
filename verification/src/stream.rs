//! What the host tells about a medium that it streams, and the cursor that
//! hands a loaded medium out in chunks.

use vstd::prelude::*;

verus! {

/// The most bytes that one chunk holds.
pub const CHUNK_SIZE: usize = 500_000;

/// What the host says of a stream that it has opened.
#[derive(Debug, Clone)]
pub struct VideoStreamMeta {
    pub file_path: String,
    pub current_position: u64,
    pub total_size: u64,
    pub chunk_size: usize,
}

impl VideoStreamMeta {
    pub fn new(file_path: String, current_position: u64, total_size: u64, chunk_size: usize) -> (meta:
        Self)
        ensures
            meta.file_path == file_path,
            meta.current_position == current_position,
            meta.total_size == total_size,
            meta.chunk_size == chunk_size,
    {
        Self { file_path, current_position, total_size, chunk_size }
    }
}

/// One piece of a stream.
#[derive(Debug)]
pub struct VideoStreamChunk {
    pub bytes: Vec<u8>,
    pub position: u64,
    pub is_final: bool,
}

/// The bytes of the medium that was loaded last, if any, and how many of
/// them have been handed out.
#[derive(Debug)]
pub struct VideoState {
    bytes: Option<Vec<u8>>,
    pos: usize,
}

/// The state of the cursor as plain data.
pub struct VideoStateView {
    pub bytes: Option<Seq<u8>>,
    pub pos: int,
}

impl VideoStateView {
    /// The cursor lies within the bytes.
    pub open spec fn wf(self) -> bool {
        match self.bytes {
            Some(bytes) => 0 <= self.pos <= bytes.len(),
            None => self.pos == 0,
        }
    }

    /// Where the next chunk ends: a full chunk further, or at the end of the
    /// bytes.
    pub open spec fn next_end(self) -> int
        recommends
            self.bytes is Some,
    {
        let len = self.bytes->Some_0.len() as int;
        if self.pos + CHUNK_SIZE >= len {
            len
        } else {
            self.pos + CHUNK_SIZE
        }
    }
}

impl View for VideoState {
    type V = VideoStateView;

    closed spec fn view(&self) -> VideoStateView {
        VideoStateView {
            bytes: match self.bytes {
                Some(bytes) => Some(bytes@),
                None => None,
            },
            pos: self.pos as int,
        }
    }
}

impl VideoState {
    #[verifier::type_invariant]
    closed spec fn cursor_in_bytes(self) -> bool {
        self@.wf()
    }

    /// The state with no medium loaded.
    pub fn new() -> (state: VideoState)
        ensures
            state@ == (VideoStateView { bytes: None, pos: 0 }),
    {
        VideoState { bytes: None, pos: 0 }
    }

    /// Loads a medium and puts the cursor at its start.
    pub fn set_bytes(&mut self, bytes: Vec<u8>)
        ensures
            final(self)@ == (VideoStateView { bytes: Some(bytes@), pos: 0 }),
    {
        *self = VideoState { bytes: Some(bytes), pos: 0 };
    }

    /// Hands out the next chunk of the medium and moves the cursor behind
    /// it. The chunk is empty once the medium has been handed out. With no
    /// medium loaded there is no chunk.
    pub fn get_bytes(&mut self) -> (chunk: Option<Vec<u8>>)
        ensures
            old(self)@.wf(),
            final(self)@.wf(),
            old(self)@.bytes is None ==> chunk is None && final(self)@ == old(self)@,
            old(self)@.bytes matches Some(bytes) ==> chunk is Some && chunk->Some_0@
                == bytes.subrange(old(self)@.pos, old(self)@.next_end()) && final(self)@ == (
            VideoStateView { bytes: Some(bytes), pos: old(self)@.next_end() }),
    {
        proof {
            use_type_invariant(&*self);
        }
        let start = self.pos;
        let (chunk, upper) = match &self.bytes {
            None => {
                return None;
            },
            Some(bytes) => {
                let upper = if bytes.len() - start <= CHUNK_SIZE {
                    bytes.len()
                } else {
                    start + CHUNK_SIZE
                };
                let mut slice: Vec<u8> = Vec::new();
                let mut i = start;
                while i < upper
                    invariant
                        start <= i <= upper <= bytes.len(),
                        slice@ == bytes@.subrange(start as int, i as int),
                    decreases upper - i,
                {
                    slice.push(bytes[i]);
                    i = i + 1;
                }
                (slice, upper)
            },
        };
        self.pos = upper;
        Some(chunk)
    }
}

} // verus!
