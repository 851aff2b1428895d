//! Finishing the muxer and deciding whether the temporary file becomes the
//! recording or is removed.

use vstd::prelude::*;
use crate::error::{MuxError, RecordError};
use crate::muxer::{finish_step, movie_spec, MuxerModel, Mp4Writer, VideoParams};
use crate::text::joined;

verus! {

/// What becomes of the temporary file once the loop has ended.
#[derive(Debug, Clone, Copy, PartialEq, Eq)]
pub enum PublishAction {
    /// Rename it onto the requested output path.
    Promote,
    /// Remove it; the output path is left untouched.
    Discard,
}

/// The two paths a recording touches, as the publisher sees them.
pub struct FilesModel {
    /// The temporary file exists.
    pub temp_exists: bool,
    /// The output path holds a complete recording.
    pub output_complete: bool,
}

/// The action for a loop result and a finish result.
pub open spec fn publish_spec(copy_ok: bool, finish_ok: bool) -> PublishAction {
    if copy_ok && finish_ok {
        PublishAction::Promote
    } else {
        PublishAction::Discard
    }
}

/// The two paths after `action` was carried out, the rename or removal
/// succeeding.
pub open spec fn apply_publish(action: PublishAction, fs: FilesModel) -> FilesModel {
    match action {
        PublishAction::Promote => FilesModel { temp_exists: false, output_complete: true },
        PublishAction::Discard => FilesModel { temp_exists: false, output_complete: fs.output_complete },
    }
}

/// The temporary path a recording into `output` is written to.
pub fn partial_path(output: &str) -> (r: String)
    ensures
        r@ == output@ + ".partial"@,
{
    joined(output, ".partial")
}

/// Promote only when both the loop and finishing succeeded.
pub fn publish_action(copy_ok: bool, finish_ok: bool) -> (r: PublishAction)
    ensures
        r == publish_spec(copy_ok, finish_ok),
{
    if copy_ok && finish_ok {
        PublishAction::Promote
    } else {
        PublishAction::Discard
    }
}

/// What finishing yields: the movie box, or why there is none.
pub open spec fn finish_outcome(m: MuxerModel, video: Option<VideoParams>) -> Result<
    Seq<u8>,
    MuxError,
> {
    match finish_step(m).1 {
        Err(e) => Err(e),
        Ok(_) => match movie_spec(finish_step(m).0, video) {
            Some(b) => Ok(b),
            None => Err(MuxError::Unencodable),
        },
    }
}

/// Finishes the muxer whatever the loop's outcome, and returns what to do
/// with the temporary file, the movie box to append (or why finishing
/// failed, for the log), and the loop's own result, which is what the
/// caller sees.
pub fn finish_recording(
    mp4: &mut Mp4Writer,
    video: &Option<VideoParams>,
    copy_result: Result<(), RecordError>,
) -> (r: (PublishAction, Result<Vec<u8>, MuxError>, Result<(), RecordError>))
    requires
        old(mp4)@.wf(),
    ensures
        final(mp4)@.wf(),
        final(mp4)@ == finish_step(old(mp4)@).0,
        match r.1 {
            Ok(b) => finish_outcome(old(mp4)@, *video) == Ok::<Seq<u8>, MuxError>(b@),
            Err(e) => finish_outcome(old(mp4)@, *video) == Err::<Seq<u8>, MuxError>(e),
        },
        r.0 == publish_spec(copy_result.is_ok(), finish_outcome(old(mp4)@, *video).is_ok()),
        r.2 == copy_result,
{
    let finished: Result<Vec<u8>, MuxError> = match mp4.finish() {
        Err(e) => Err(e),
        Ok(()) => match mp4.moov(video) {
            Some(b) => Ok(b),
            None => Err(MuxError::Unencodable),
        },
    };
    let action = publish_action(copy_result.is_ok(), finished.is_ok());
    (action, finished, copy_result)
}

/// The output path holds a complete recording after publishing exactly when
/// both the loop and finishing succeeded, and the temporary file is gone
/// either way.
pub proof fn lemma_publish_is_atomic(
    m: MuxerModel,
    video: Option<VideoParams>,
    copy_ok: bool,
    fs: FilesModel,
)
    requires
        !fs.output_complete,
    ensures
        ({
            let finish_ok = finish_outcome(m, video).is_ok();
            let after = apply_publish(publish_spec(copy_ok, finish_ok), fs);
            &&& after.output_complete == (copy_ok && finish_ok)
            &&& !after.temp_exists
        }),
{
}

/// Finishing a muxer that accepted no sample fails, and nothing is
/// published.
pub proof fn lemma_empty_recording_not_published(
    m: MuxerModel,
    video: Option<VideoParams>,
    copy_ok: bool,
    fs: FilesModel,
)
    requires
        m.sample_count() == 0,
        !fs.output_complete,
    ensures
        finish_outcome(m, video).is_err(),
        publish_spec(copy_ok, finish_outcome(m, video).is_ok()) == PublishAction::Discard,
        !apply_publish(publish_spec(copy_ok, finish_outcome(m, video).is_ok()), fs).output_complete,
{
}

} // verus!
