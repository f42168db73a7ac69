/// Trusted boundary to the outside encoding and parsing crates: base64
/// authorization values and ISO 8601 durations.
pub mod apis;
/// Chat-facing rendering of plain data: duration formatting.
pub mod display;
/// The event-driven hand-off that advances a guild's queue when a track
/// ends and decides what to start next.
pub mod playback;
/// One guild's playback queue: the current track, the pending list, and
/// the laws its transitions obey.
pub mod queue;
/// The process-wide map from guild id to that guild's queue, created
/// lazily and never duplicated.
pub mod registry;
/// Classification of raw track requests into searches, video links and
/// catalog links.
pub mod resolve;
/// Substring search and character-reference decoding over text.
pub mod text;
/// The track data model: display metadata, source reference, and the
/// playback session state.
pub mod track;
