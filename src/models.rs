use vstd::prelude::*;
pub use crate::catalog::AudioDevice;

verus! {

/// A note block, or a page when `is_page` holds.
#[derive(Debug, Clone)]
pub struct Block {
    pub id: String,
    pub content: Option<String>,
    pub parent_id: Option<String>,
    pub order: i32,
    pub is_page: Option<bool>,
    pub page_title: Option<String>,
    pub created_at: Option<String>,
    pub updated_at: Option<String>,
    /// The recording position the block was written at, when there is one.
    pub audio_timestamp: Option<AudioTimestamp>,
}

/// What a caller supplies to create a block.
#[derive(Debug)]
pub struct CreateBlockRequest {
    pub content: Option<String>,
    pub parent_id: Option<String>,
    pub order: i32,
    pub is_page: bool,
    pub page_title: Option<String>,
}

/// Ties a new block to a position in a recording.
#[derive(Debug)]
pub struct AudioMeta {
    pub recording_id: String,
    /// Seconds since the beginning of the recording.
    pub timestamp: i32,
}

/// A recording made on a page.
#[derive(Debug, Clone)]
pub struct AudioRecording {
    pub id: String,
    pub page_id: String,
    pub file_path: String,
    pub duration_seconds: Option<i32>,
    pub recorded_at: Option<String>,
}

/// A block's position in a recording.
#[derive(Debug, Clone)]
pub struct AudioTimestamp {
    pub id: i32,
    pub block_id: String,
    pub recording_id: String,
    pub timestamp_seconds: i32,
    pub recording: Option<AudioRecording>,
}

} // verus!
