//! Names under which the host appears in the audio graph.

use vstd::prelude::*;

verus! {

/// Name of the capture node.
pub const PW_CAPTURE_NODE_NAME: &'static str = "NAM-Audio-Pipe-input";

/// Description of the capture node.
pub const PW_CAPTURE_NODE_DESC: &'static str = "NAM-Audio-Pipe Input";

/// Name of the capture stream.
pub const PW_CAPTURE_STREAM_NAME: &'static str = "NAM-Audio-Pipe";

/// Name of the playback node.
pub const PW_PLAYBACK_NODE_NAME: &'static str = "NAM-Audio-Pipe-playback";

/// Description of the playback node.
pub const PW_PLAYBACK_NODE_DESC: &'static str = "NAM-Audio-Pipe Processed Output";

/// Name of the playback stream.
pub const PW_PLAYBACK_STREAM_NAME: &'static str = "NAM-Audio-Pipe-Output";

/// Group that has both streams scheduled by one driver.
pub const PW_NODE_GROUP: &'static str = "nam-audio-pipe-dsp";

/// Group that keeps both streams linked together.
pub const PW_LINK_GROUP: &'static str = "nam-audio-pipe-link-group";

/// Name of the audio server's thread loop.
pub const PW_THREAD_LOOP_NAME: &'static str = "nam-audio-pipe-loop";

} // verus!
