//! The video pipeline as the render loop steers it: one session at a time,
//! torn down in a fixed order, and the decisions of the decode worker.

use crate::errors::{MediaError, MediaFailure};
use crate::text::same_text;
use vstd::prelude::*;

verus! {

/// How many decoded frames wait between the worker and the consumer at most.
/// A full channel blocks the worker.
pub const FRAME_CHANNEL_CAPACITY: usize = 5;

/// How long the worker rests after each frame, in milliseconds: one
/// sixtieth of a second.
pub const FRAME_PACING_MILLIS: u64 = 1000 / 60;

/// One step that the owner of the worker and of the temporary file performs.
#[derive(Clone, Copy, Debug, PartialEq, Eq, Structural)]
pub enum VideoStep {
    /// Raise the cancellation flag.
    SignalCancel,
    /// Let go of the receiving end of the frame channel, so that a worker
    /// that waits on the full channel wakes, sees that nobody listens, and
    /// ends.
    CloseFrameChannel,
    /// Wait until the worker has ended.
    JoinWorker,
    /// Let go of the temporary file that backs the video.
    ReleaseTempFile,
    /// Forget the texture of the last frame.
    ClearTexture,
    /// Spawn the worker of the new session.
    SpawnWorker,
}

/// The steps that end a session, in their order: the flag first, then the
/// channel, so that the worker cannot wait for ever, then the join, and
/// only then the file.
pub open spec fn teardown_steps() -> Seq<VideoStep> {
    seq![
        VideoStep::SignalCancel,
        VideoStep::CloseFrameChannel,
        VideoStep::JoinWorker,
        VideoStep::ReleaseTempFile,
    ]
}

/// The session that is playing: the slide it belongs to and the video's
/// dimensions in pixels.
#[derive(Debug)]
pub struct VideoData {
    pub slide_name_key: String,
    pub width: u32,
    pub height: u32,
}

/// A session as plain values.
pub struct SessionView {
    /// The media key of the slide that the session belongs to.
    pub key: Seq<char>,
    /// The video's width in pixels.
    pub width: u32,
    /// The video's height in pixels.
    pub height: u32,
}

/// The view of a session.
pub open spec fn session_view(data: VideoData) -> SessionView {
    SessionView { key: data.slide_name_key@, width: data.width, height: data.height }
}

/// The pipeline as plain values.
pub struct PipelineState {
    /// The running session, if one runs.
    pub session: Option<SessionView>,
    /// Whether a texture of an earlier frame is held.
    pub has_texture: bool,
}

impl PipelineState {
    /// The steps of `stop`: the teardown where a session runs, then the
    /// texture where one is held.
    pub open spec fn stop_steps(self) -> Seq<VideoStep> {
        (if self.session is Some {
            teardown_steps()
        } else {
            Seq::<VideoStep>::empty()
        }) + (if self.has_texture {
            seq![VideoStep::ClearTexture]
        } else {
            Seq::<VideoStep>::empty()
        })
    }

    /// The pipeline after `stop`: no session, no texture.
    pub open spec fn stopped(self) -> PipelineState {
        PipelineState { session: None, has_texture: false }
    }

    /// Whether the running session, if any, belongs to another key than
    /// `current`.
    pub open spec fn stale_for(self, current: Seq<char>) -> bool {
        match self.session {
            Some(session) => session.key != current,
            None => false,
        }
    }
}

/// The video pipeline: at most one session, and the texture of its last
/// frame.
pub struct VideoPipeline {
    session: Option<VideoData>,
    has_texture: bool,
}

impl View for VideoPipeline {
    type V = PipelineState;

    closed spec fn view(&self) -> PipelineState {
        PipelineState {
            session: match self.session {
                Some(data) => Some(session_view(data)),
                None => None,
            },
            has_texture: self.has_texture,
        }
    }
}

impl VideoPipeline {
    /// A pipeline with no session.
    pub fn new() -> (pipeline: VideoPipeline)
        ensures
            pipeline@ == (PipelineState { session: None, has_texture: false }),
    {
        VideoPipeline { session: None, has_texture: false }
    }

    /// The running session, if one runs.
    pub fn session(&self) -> (data: Option<&VideoData>)
        ensures
            match data {
                Some(d) => self@.session == Some(session_view(*d)),
                None => self@.session is None,
            },
    {
        self.session.as_ref()
    }

    /// Ends the running session, if there is one, and returns what the
    /// owner is to do, in order: signal, close the frame channel, join,
    /// release the file, and drop the texture if one is held. With no session and no texture there is
    /// nothing to do, so stopping again is harmless.
    pub fn stop(&mut self) -> (steps: Vec<VideoStep>)
        ensures
            steps@ == old(self)@.stop_steps(),
            final(self)@ == old(self)@.stopped(),
    {
        let mut steps: Vec<VideoStep> = Vec::new();
        if self.session.is_some() {
            steps.push(VideoStep::SignalCancel);
            steps.push(VideoStep::CloseFrameChannel);
            steps.push(VideoStep::JoinWorker);
            steps.push(VideoStep::ReleaseTempFile);
        }
        if self.has_texture {
            steps.push(VideoStep::ClearTexture);
        }
        self.session = None;
        self.has_texture = false;
        assert(steps@ =~= old(self)@.stop_steps());
        steps
    }

    /// Starts a session for `key`: whatever ran before is torn down first,
    /// then the new worker is spawned.
    pub fn start(&mut self, key: String, width: u32, height: u32) -> (steps: Vec<VideoStep>)
        ensures
            steps@ == old(self)@.stop_steps().push(VideoStep::SpawnWorker),
            final(self)@ == (PipelineState {
                session: Some(SessionView { key: key@, width, height }),
                has_texture: false,
            }),
    {
        let mut steps = self.stop();
        steps.push(VideoStep::SpawnWorker);
        self.session = Some(VideoData { slide_name_key: key, width, height });
        steps
    }

    /// Records that a frame was received and its texture is now held.
    /// Without a session nothing is recorded.
    pub fn frame_shown(&mut self)
        ensures
            final(self)@ == (PipelineState {
                has_texture: old(self)@.has_texture || old(self)@.session is Some,
                ..old(self)@
            }),
    {
        if self.session.is_some() {
            self.has_texture = true;
        }
    }

    /// True exactly when a session runs and belongs to another slide than
    /// the one whose key is `current`: the pipeline must then be restarted.
    pub fn is_stale(&self, current: &str) -> (stale: bool)
        ensures
            stale == self@.stale_for(current@),
    {
        match &self.session {
            Some(data) => !same_text(data.slide_name_key.as_str(), current),
            None => false,
        }
    }
}

/// Stopping is safe to repeat: after one stop no session runs and no
/// texture is held, a second stop asks for nothing and changes nothing; and
/// whenever a stop releases the temporary file, the join of the worker
/// comes before it, the closing of the frame channel before the join, and
/// the signal first of all.
pub proof fn lemma_stop_twice(state: PipelineState)
    ensures
        state.stopped().session is None,
        state.stopped().stop_steps() == Seq::<VideoStep>::empty(),
        state.stopped().stopped() == state.stopped(),
        forall|i: int|
            0 <= i < state.stop_steps().len() && #[trigger] state.stop_steps()[i]
                == VideoStep::ReleaseTempFile ==> i == 3 && state.stop_steps()[0]
                == VideoStep::SignalCancel && state.stop_steps()[1]
                == VideoStep::CloseFrameChannel && state.stop_steps()[2] == VideoStep::JoinWorker,
{
    assert(state.stopped().stop_steps() =~= Seq::<VideoStep>::empty());
}

/// What reading the next packet brought.
#[derive(Debug)]
pub enum ReadOutcome {
    /// A packet of the stream with this index.
    Packet { stream_index: usize },
    /// The container has no more packets.
    EndOfStream,
    /// Reading failed; the field says why.
    Failed(String),
}

/// What the worker does with what it read.
#[derive(Debug)]
pub enum ReadDecision {
    /// Feed the packet to the decoder.
    Decode,
    /// Drop the packet: it belongs to another stream.
    Skip,
    /// Push this terminal error to the consumer and end.
    Finish(MediaError),
}

/// What the worker does after a decoded frame was scaled and pushed.
#[derive(Debug)]
pub enum FrameDecision {
    /// Rest `FRAME_PACING_MILLIS`, then take the next frame.
    Pace,
    /// Push this terminal error to the consumer and end.
    Finish(MediaError),
    /// End without a word: nobody is listening.
    Quit,
}

/// The text of the terminal error that stands for the end of the stream.
pub open spec fn end_of_stream_text() -> Seq<char> {
    "EOF"@
}

/// Whether the worker goes on: it ends as soon as it sees the cancellation
/// flag raised, which it looks at before each read.
pub fn worker_continues(cancelled: bool) -> (go_on: bool)
    ensures
        go_on == !cancelled,
{
    !cancelled
}

/// Decides on what was read: a packet of the selected stream is decoded,
/// another is skipped; the end of the stream and a failure each end the
/// worker with a terminal error of their own, so that the consumer can tell
/// them apart.
pub fn after_read(outcome: ReadOutcome, selected_stream: usize) -> (decision: ReadDecision)
    ensures
        match outcome {
            ReadOutcome::Packet { stream_index } => if stream_index == selected_stream {
                decision is Decode
            } else {
                decision is Skip
            },
            ReadOutcome::EndOfStream => decision matches ReadDecision::Finish(e) && e@
                == MediaFailure::Generic(end_of_stream_text()),
            ReadOutcome::Failed(why) => decision matches ReadDecision::Finish(e) && e@
                == MediaFailure::Ffmpeg(why@),
        },
{
    match outcome {
        ReadOutcome::Packet { stream_index } => if stream_index == selected_stream {
            ReadDecision::Decode
        } else {
            ReadDecision::Skip
        },
        ReadOutcome::EndOfStream => ReadDecision::Finish(
            MediaError::Generic(String::from_str("EOF")),
        ),
        ReadOutcome::Failed(why) => ReadDecision::Finish(MediaError::Ffmpeg(why)),
    }
}

/// Decides on the decoder's answer to a packet: a refusal ends the worker
/// with the decoder's error.
pub fn after_send_packet(refusal: Option<String>) -> (terminal: Option<MediaError>)
    ensures
        match refusal {
            Some(why) => terminal matches Some(e) && e@ == MediaFailure::Ffmpeg(why@),
            None => terminal is None,
        },
{
    match refusal {
        Some(why) => Some(MediaError::Ffmpeg(why)),
        None => None,
    }
}

/// Decides after one decoded frame: if it could not be scaled the worker
/// ends with an error; if it was scaled but the consumer is gone the worker
/// ends silently; otherwise the worker paces itself and goes on.
pub fn after_frame(scaled: bool, delivered: bool) -> (decision: FrameDecision)
    ensures
        !scaled ==> (decision matches FrameDecision::Finish(e) && e@ == MediaFailure::Generic(
            "Frame scaling failed"@,
        )),
        scaled && !delivered ==> decision is Quit,
        scaled && delivered ==> decision is Pace,
{
    if !scaled {
        FrameDecision::Finish(MediaError::Generic(String::from_str("Frame scaling failed")))
    } else if !delivered {
        FrameDecision::Quit
    } else {
        FrameDecision::Pace
    }
}

/// True exactly for the terminal error that stands for the end of the
/// stream, after which the last frame stays up; any other error means that
/// decoding failed.
pub fn is_end_of_stream(error: &MediaError) -> (ended: bool)
    ensures
        ended == (error@ == MediaFailure::Generic(end_of_stream_text())),
{
    match error {
        MediaError::Generic(text) => same_text(text.as_str(), "EOF"),
        _ => false,
    }
}

} // verus!
