//! The order of a run, as a sequence of decisions.
//!
//! A run reads the source, decompresses it where it is compressed, has the
//! image converted and the converted disk attached, and removes what it
//! created. The library decides; the caller acts. [`begin`] names the first
//! action. The caller performs it, reports its [`Outcome`] to [`advance`],
//! and is told the next one, until the run is [`Step::Finished`] or
//! [`Step::Failed`]. No step is taken unless the one before it succeeded,
//! and nothing is undone after a failure.

use vstd::prelude::*;
use crate::codec::zip_listing;
use crate::decompress::{
    copy_of, decoded, decompress, decompressed, over_lzma_ceiling, DecompressedView,
};
use crate::error::{DecodeFailure, Error, ErrorView, IoOperation, Program};
use crate::format::{format_of, select_format, selected, Codec};
use crate::path::{disk_name, disk_name_of, output_name_of};

verus! {

/// The storage pool that gets the disk where the operator names none.
pub const DEFAULT_STORAGE: &'static str = "local-lvm";

/// What a run is asked to do. Fixed when the run starts.
#[derive(Clone, Debug, PartialEq, Eq)]
pub struct Job {
    /// The source file, by its canonical absolute path.
    pub image: Vec<u8>,
    /// The working directory of the process, in which every file that the
    /// run creates is placed.
    pub work_dir: Vec<u8>,
    /// The number of the virtual machine that gets the disk.
    pub vm_id: usize,
    /// The storage pool on which the disk is placed.
    pub storage: String,
    /// The ceiling, in KiB, on the memory that decoding a legacy LZMA
    /// stream may ask for.
    pub lzma_memory_limit: u32,
}

/// A [`Job`] as a mathematical value.
pub struct JobView {
    pub image: Seq<u8>,
    pub work_dir: Seq<u8>,
    pub vm_id: usize,
    pub storage: Seq<char>,
    pub lzma_memory_limit: u32,
}

impl View for Job {
    type V = JobView;

    open spec fn view(&self) -> JobView {
        JobView {
            image: self.image@,
            work_dir: self.work_dir@,
            vm_id: self.vm_id,
            storage: self.storage@,
            lzma_memory_limit: self.lzma_memory_limit,
        }
    }
}

/// What the caller is to do next.
#[derive(Clone, Debug, PartialEq, Eq)]
pub enum Action {
    /// Read all of the file at `path`.
    ReadSource { path: Vec<u8> },
    /// Create the file at `path`, replacing one that is there, and write
    /// `data` to it.
    WriteOutput { path: Vec<u8>, data: Vec<u8> },
    /// Have the raw image at `source` converted into the disk at `target`.
    Convert { source: Vec<u8>, target: Vec<u8> },
    /// Have the disk at `disk` attached to the machine `vm_id` on the
    /// storage pool `storage`.
    Attach { vm_id: usize, disk: Vec<u8>, storage: String },
    /// Delete the file at `path`.
    Remove { path: Vec<u8> },
}

/// An [`Action`] as a mathematical value.
pub enum ActionView {
    ReadSource { path: Seq<u8> },
    WriteOutput { path: Seq<u8>, data: Seq<u8> },
    Convert { source: Seq<u8>, target: Seq<u8> },
    Attach { vm_id: usize, disk: Seq<u8>, storage: Seq<char> },
    Remove { path: Seq<u8> },
}

impl View for Action {
    type V = ActionView;

    open spec fn view(&self) -> ActionView {
        match *self {
            Action::ReadSource { path } => ActionView::ReadSource { path: path@ },
            Action::WriteOutput { path, data } => ActionView::WriteOutput {
                path: path@,
                data: data@,
            },
            Action::Convert { source, target } => ActionView::Convert {
                source: source@,
                target: target@,
            },
            Action::Attach { vm_id, disk, storage } => ActionView::Attach {
                vm_id,
                disk: disk@,
                storage: storage@,
            },
            Action::Remove { path } => ActionView::Remove { path: path@ },
        }
    }
}

/// How the action that the caller was given ended.
#[derive(Clone, Debug, PartialEq, Eq)]
pub enum Outcome {
    /// It was done. The bytes are what it produced: the contents of the
    /// file that was read, the output of a program, nothing otherwise.
    Succeeded(Vec<u8>),
    /// It could not be started: the file could not be opened or created,
    /// the program could not be run.
    NotStarted,
    /// It was started and did not succeed: reading or writing broke off,
    /// the program ended with a failure status. The bytes are what a
    /// program wrote to its error stream, nothing otherwise.
    Failed(Vec<u8>),
}

/// An [`Outcome`] as a mathematical value.
pub enum OutcomeView {
    Succeeded(Seq<u8>),
    NotStarted,
    Failed(Seq<u8>),
}

impl View for Outcome {
    type V = OutcomeView;

    open spec fn view(&self) -> OutcomeView {
        match *self {
            Outcome::Succeeded(bytes) => OutcomeView::Succeeded(bytes@),
            Outcome::NotStarted => OutcomeView::NotStarted,
            Outcome::Failed(bytes) => OutcomeView::Failed(bytes@),
        }
    }
}

/// Where a run stands: which action the caller is performing, and what of
/// the run's past is still needed.
#[derive(Clone, Debug, PartialEq, Eq)]
pub enum Stage {
    /// The source is being read, to be decoded as `codec`.
    ReadingSource { codec: Codec },
    /// The decompressed image is being written to `output`.
    WritingOutput { output: Vec<u8> },
    /// The image at `image` is being converted. `temporary` says that the
    /// run created that file, and so has to remove it.
    Converting { image: Vec<u8>, temporary: bool },
    /// The converted disk is being attached.
    Attaching { image: Vec<u8>, temporary: bool },
    /// The converted disk is being removed.
    RemovingDisk { image: Vec<u8>, temporary: bool },
    /// The decompressed image at `image` is being removed.
    RemovingImage { image: Vec<u8> },
}

/// A [`Stage`] as a mathematical value.
pub enum StageView {
    ReadingSource { codec: Codec },
    WritingOutput { output: Seq<u8> },
    Converting { image: Seq<u8>, temporary: bool },
    Attaching { image: Seq<u8>, temporary: bool },
    RemovingDisk { image: Seq<u8>, temporary: bool },
    RemovingImage { image: Seq<u8> },
}

impl View for Stage {
    type V = StageView;

    open spec fn view(&self) -> StageView {
        match *self {
            Stage::ReadingSource { codec } => StageView::ReadingSource { codec },
            Stage::WritingOutput { output } => StageView::WritingOutput { output: output@ },
            Stage::Converting { image, temporary } => StageView::Converting {
                image: image@,
                temporary,
            },
            Stage::Attaching { image, temporary } => StageView::Attaching {
                image: image@,
                temporary,
            },
            Stage::RemovingDisk { image, temporary } => StageView::RemovingDisk {
                image: image@,
                temporary,
            },
            Stage::RemovingImage { image } => StageView::RemovingImage { image: image@ },
        }
    }
}

/// What a decision comes to.
#[derive(Clone, Debug, PartialEq, Eq)]
pub enum Step {
    /// The run goes on: the caller performs `action` and reports how it
    /// ended together with `stage`.
    Next { stage: Stage, action: Action },
    /// The disk is attached, and all that the run created is removed.
    Finished,
    /// The run is over. What it had created by then is left in place.
    Failed(Error),
}

/// A [`Step`] as a mathematical value.
pub enum StepView {
    Next { stage: StageView, action: ActionView },
    Finished,
    Failed(ErrorView),
}

impl View for Step {
    type V = StepView;

    open spec fn view(&self) -> StepView {
        match *self {
            Step::Next { stage, action } => StepView::Next { stage: stage@, action: action@ },
            Step::Finished => StepView::Finished,
            Step::Failed(error) => StepView::Failed(error@),
        }
    }
}

/// The step that has the image at `image` converted.
pub open spec fn conversion_of(job: JobView, image: Seq<u8>, temporary: bool) -> StepView {
    StepView::Next {
        stage: StageView::Converting { image, temporary },
        action: ActionView::Convert { source: image, target: disk_name_of(job.work_dir) },
    }
}

/// How a run starts. A file that cannot be handled ends it at once. A raw
/// image is converted as it is, under its own path. Any other file is read
/// first.
pub open spec fn begun(job: JobView) -> StepView {
    match selected(job.image) {
        Err(error) => StepView::Failed(error),
        Ok(tag) => match tag.codec_of() {
            Some(codec) => StepView::Next {
                stage: StageView::ReadingSource { codec },
                action: ActionView::ReadSource { path: job.image },
            },
            None => conversion_of(job, job.image, false),
        },
    }
}

/// How a run goes on from `stage` when the action given with that stage
/// ended as `outcome` says.
pub open spec fn advanced(job: JobView, stage: StageView, outcome: OutcomeView) -> StepView {
    match stage {
        StageView::ReadingSource { codec } => match outcome {
            OutcomeView::Succeeded(contents) => match decompressed(
                codec,
                job.image,
                job.work_dir,
                contents,
                job.lzma_memory_limit,
            ) {
                Ok(image) => StepView::Next {
                    stage: StageView::WritingOutput { output: image.path },
                    action: ActionView::WriteOutput { path: image.path, data: image.data },
                },
                Err(error) => StepView::Failed(error),
            },
            OutcomeView::NotStarted => StepView::Failed(
                ErrorView::Io { operation: IoOperation::Open, path: job.image },
            ),
            OutcomeView::Failed(_) => StepView::Failed(
                ErrorView::Io { operation: IoOperation::Read, path: job.image },
            ),
        },
        StageView::WritingOutput { output } => match outcome {
            OutcomeView::Succeeded(_) => conversion_of(job, output, true),
            OutcomeView::NotStarted => StepView::Failed(
                ErrorView::Io { operation: IoOperation::Create, path: output },
            ),
            OutcomeView::Failed(_) => StepView::Failed(
                ErrorView::Io { operation: IoOperation::Write, path: output },
            ),
        },
        StageView::Converting { image, temporary } => match outcome {
            OutcomeView::Succeeded(_) => StepView::Next {
                stage: StageView::Attaching { image, temporary },
                action: ActionView::Attach {
                    vm_id: job.vm_id,
                    disk: disk_name_of(job.work_dir),
                    storage: job.storage,
                },
            },
            OutcomeView::NotStarted => StepView::Failed(
                ErrorView::ExternalProcess { program: Program::Convert, output: None },
            ),
            OutcomeView::Failed(output) => StepView::Failed(
                ErrorView::ExternalProcess { program: Program::Convert, output: Some(output) },
            ),
        },
        StageView::Attaching { image, temporary } => match outcome {
            OutcomeView::Succeeded(_) => StepView::Next {
                stage: StageView::RemovingDisk { image, temporary },
                action: ActionView::Remove { path: disk_name_of(job.work_dir) },
            },
            OutcomeView::NotStarted => StepView::Failed(
                ErrorView::ExternalProcess { program: Program::Attach, output: None },
            ),
            OutcomeView::Failed(output) => StepView::Failed(
                ErrorView::ExternalProcess { program: Program::Attach, output: Some(output) },
            ),
        },
        StageView::RemovingDisk { image, temporary } => match outcome {
            OutcomeView::Succeeded(_) => if temporary {
                StepView::Next {
                    stage: StageView::RemovingImage { image },
                    action: ActionView::Remove { path: image },
                }
            } else {
                StepView::Finished
            },
            _ => StepView::Failed(
                ErrorView::Io { operation: IoOperation::Remove, path: disk_name_of(job.work_dir) },
            ),
        },
        StageView::RemovingImage { image } => match outcome {
            OutcomeView::Succeeded(_) => StepView::Finished,
            _ => StepView::Failed(ErrorView::Io { operation: IoOperation::Remove, path: image }),
        },
    }
}

/// The step that has the image at `image` converted.
fn conversion(job: &Job, image: Vec<u8>, temporary: bool) -> (step: Step)
    ensures
        step@ == conversion_of(job@, image@, temporary),
{
    let source = copy_of(image.as_slice());
    Step::Next {
        stage: Stage::Converting { image, temporary },
        action: Action::Convert { source, target: disk_name(job.work_dir.as_slice()) },
    }
}

/// Starts a run: selects the format of the source file and names the first
/// action.
pub fn begin(job: &Job) -> (step: Step)
    ensures
        step@ == begun(job@),
{
    match select_format(job.image.as_slice()) {
        Err(error) => Step::Failed(error),
        Ok(tag) => match tag.codec() {
            Some(codec) => Step::Next {
                stage: Stage::ReadingSource { codec },
                action: Action::ReadSource { path: copy_of(job.image.as_slice()) },
            },
            None => conversion(job, copy_of(job.image.as_slice()), false),
        },
    }
}

/// Goes on with a run: takes note of how the action given with `stage`
/// ended, and names the next one. The source is decompressed here, when
/// its contents are reported.
pub fn advance(job: &Job, stage: Stage, outcome: Outcome) -> (step: Step)
    ensures
        step@ == advanced(job@, stage@, outcome@),
        outcome@ matches OutcomeView::Succeeded(contents) ==> (stage@ == (StageView::ReadingSource {
            codec: Codec::Lzma,
        }) && over_lzma_ceiling(contents, job.lzma_memory_limit) ==> step@ == StepView::Failed(
            ErrorView::Decode { codec: Codec::Lzma, failure: DecodeFailure::Stream },
        )),
{
    match stage {
        Stage::ReadingSource { codec } => match outcome {
            Outcome::Succeeded(contents) => match decompress(
                codec,
                job.image.as_slice(),
                job.work_dir.as_slice(),
                contents.as_slice(),
                job.lzma_memory_limit,
            ) {
                Ok(image) => {
                    let output = copy_of(image.path.as_slice());
                    Step::Next {
                        stage: Stage::WritingOutput { output },
                        action: Action::WriteOutput { path: image.path, data: image.data },
                    }
                },
                Err(error) => Step::Failed(error),
            },
            Outcome::NotStarted => Step::Failed(
                Error::Io { operation: IoOperation::Open, path: copy_of(job.image.as_slice()) },
            ),
            Outcome::Failed(_) => Step::Failed(
                Error::Io { operation: IoOperation::Read, path: copy_of(job.image.as_slice()) },
            ),
        },
        Stage::WritingOutput { output } => match outcome {
            Outcome::Succeeded(_) => conversion(job, output, true),
            Outcome::NotStarted => Step::Failed(
                Error::Io { operation: IoOperation::Create, path: output },
            ),
            Outcome::Failed(_) => Step::Failed(
                Error::Io { operation: IoOperation::Write, path: output },
            ),
        },
        Stage::Converting { image, temporary } => match outcome {
            Outcome::Succeeded(_) => Step::Next {
                stage: Stage::Attaching { image, temporary },
                action: Action::Attach {
                    vm_id: job.vm_id,
                    disk: disk_name(job.work_dir.as_slice()),
                    storage: job.storage.clone(),
                },
            },
            Outcome::NotStarted => Step::Failed(
                Error::ExternalProcess { program: Program::Convert, output: None },
            ),
            Outcome::Failed(output) => Step::Failed(
                Error::ExternalProcess { program: Program::Convert, output: Some(output) },
            ),
        },
        Stage::Attaching { image, temporary } => match outcome {
            Outcome::Succeeded(_) => Step::Next {
                stage: Stage::RemovingDisk { image, temporary },
                action: Action::Remove { path: disk_name(job.work_dir.as_slice()) },
            },
            Outcome::NotStarted => Step::Failed(
                Error::ExternalProcess { program: Program::Attach, output: None },
            ),
            Outcome::Failed(output) => Step::Failed(
                Error::ExternalProcess { program: Program::Attach, output: Some(output) },
            ),
        },
        Stage::RemovingDisk { image, temporary } => match outcome {
            Outcome::Succeeded(_) => if temporary {
                let path = copy_of(image.as_slice());
                Step::Next { stage: Stage::RemovingImage { image }, action: Action::Remove { path } }
            } else {
                Step::Finished
            },
            _ => Step::Failed(
                Error::Io {
                    operation: IoOperation::Remove,
                    path: disk_name(job.work_dir.as_slice()),
                },
            ),
        },
        Stage::RemovingImage { image } => match outcome {
            Outcome::Succeeded(_) => Step::Finished,
            _ => Step::Failed(Error::Io { operation: IoOperation::Remove, path: image }),
        },
    }
}

/// A run goes on only after a success: whatever the stage, an action that
/// was not started or did not succeed ends the run.
pub proof fn law_failure_ends_the_run(job: JobView, stage: StageView, outcome: OutcomeView)
    requires
        !(outcome is Succeeded),
    ensures
        advanced(job, stage, outcome) is Failed,
{
}

/// A source that cannot be decoded ends the run with the decoder's
/// failure: nothing is written, no program is started.
pub proof fn law_undecodable_source_is_not_written(job: JobView, codec: Codec, contents: Seq<u8>)
    ensures
        decoded(codec, contents, job.lzma_memory_limit) matches Err(failure) ==> advanced(
            job,
            StageView::ReadingSource { codec },
            OutcomeView::Succeeded(contents),
        ) == StepView::Failed(ErrorView::Decode { codec, failure }),
{
}

/// A zip archive without entries is refused, and the run ends there.
pub proof fn law_empty_archive_is_refused(job: JobView, contents: Seq<u8>)
    ensures
        zip_listing(contents) == Some(Seq::<Option<Seq<u8>>>::empty()) ==> {
            &&& decompressed(
                Codec::Zip,
                job.image,
                job.work_dir,
                contents,
                job.lzma_memory_limit,
            ) == Err::<
                DecompressedView,
                ErrorView,
            >(ErrorView::Decode { codec: Codec::Zip, failure: DecodeFailure::EmptyArchive })
            &&& advanced(
                job,
                StageView::ReadingSource { codec: Codec::Zip },
                OutcomeView::Succeeded(contents),
            ) is Failed
        },
{
}

/// A file is written only in answer to a source that was read and decoded
/// to its end: what is written is all of the decoded image, at the place
/// that the output namer gives it.
pub proof fn law_only_whole_images_are_written(
    job: JobView,
    stage: StageView,
    outcome: OutcomeView,
)
    ensures
        advanced(job, stage, outcome) matches StepView::Next {
            action: ActionView::WriteOutput { path, data },
            ..
        } ==> {
            &&& stage matches StageView::ReadingSource { codec }
            &&& outcome matches OutcomeView::Succeeded(contents)
            &&& decoded(codec, contents, job.lzma_memory_limit) == Ok::<Seq<u8>, DecodeFailure>(
                data,
            )
            &&& output_name_of(job.image, job.work_dir) == Some(path)
        },
        !(begun(job) matches StepView::Next { action: ActionView::WriteOutput { .. }, .. }),
{
}

/// No program is started for a compressed source before its image has
/// been written: conversion is asked for at the start of a run on a raw
/// image, and after a successful write, and nowhere else; attaching is
/// asked for after a successful conversion, and nowhere else.
pub proof fn law_programs_follow_the_image(job: JobView, stage: StageView, outcome: OutcomeView)
    ensures
        begun(job) matches StepView::Next { action: ActionView::Convert { source, .. }, .. }
            ==> format_of(job.image).raw() && source == job.image,
        !(begun(job) matches StepView::Next { action: ActionView::Attach { .. }, .. }),
        advanced(job, stage, outcome) matches StepView::Next {
            action: ActionView::Convert { source, .. },
            ..
        } ==> outcome is Succeeded && stage == (StageView::WritingOutput { output: source }),
        advanced(job, stage, outcome) matches StepView::Next {
            action: ActionView::Attach { .. },
            ..
        } ==> outcome is Succeeded && stage is Converting,
{
}

/// A raw image is used as it is. The run starts with its conversion, under
/// the path of the source itself; when every action succeeds, the run
/// attaches the disk, removes the disk, and is finished. The image is never
/// read into memory, written or removed.
pub proof fn law_run_on_raw_image(
    job: JobView,
    converted: Seq<u8>,
    attached: Seq<u8>,
    removed: Seq<u8>,
)
    requires
        format_of(job.image).raw(),
    ensures
        begun(job) == (StepView::Next {
            stage: StageView::Converting { image: job.image, temporary: false },
            action: ActionView::Convert { source: job.image, target: disk_name_of(job.work_dir) },
        }),
        advanced(
            job,
            StageView::Converting { image: job.image, temporary: false },
            OutcomeView::Succeeded(converted),
        ) == (StepView::Next {
            stage: StageView::Attaching { image: job.image, temporary: false },
            action: ActionView::Attach {
                vm_id: job.vm_id,
                disk: disk_name_of(job.work_dir),
                storage: job.storage,
            },
        }),
        advanced(
            job,
            StageView::Attaching { image: job.image, temporary: false },
            OutcomeView::Succeeded(attached),
        ) == (StepView::Next {
            stage: StageView::RemovingDisk { image: job.image, temporary: false },
            action: ActionView::Remove { path: disk_name_of(job.work_dir) },
        }),
        advanced(
            job,
            StageView::RemovingDisk { image: job.image, temporary: false },
            OutcomeView::Succeeded(removed),
        ) == StepView::Finished,
{
}

/// A compressed source is read, decompressed, and stored under the stem of
/// its name in the working directory. When every action succeeds, the run
/// converts the stored image, attaches the disk, removes the disk, removes
/// the stored image, and is finished.
pub proof fn law_run_on_compressed_image(
    job: JobView,
    contents: Seq<u8>,
    image: DecompressedView,
    done: Seq<u8>,
)
    requires
        format_of(job.image).compressed(),
        decompressed(
            format_of(job.image).codec_of()->Some_0,
            job.image,
            job.work_dir,
            contents,
            job.lzma_memory_limit,
        ) == Ok::<DecompressedView, ErrorView>(image),
    ensures
        begun(job) == (StepView::Next {
            stage: StageView::ReadingSource { codec: format_of(job.image).codec_of()->Some_0 },
            action: ActionView::ReadSource { path: job.image },
        }),
        advanced(
            job,
            StageView::ReadingSource { codec: format_of(job.image).codec_of()->Some_0 },
            OutcomeView::Succeeded(contents),
        ) == (StepView::Next {
            stage: StageView::WritingOutput { output: image.path },
            action: ActionView::WriteOutput { path: image.path, data: image.data },
        }),
        advanced(job, StageView::WritingOutput { output: image.path }, OutcomeView::Succeeded(done))
            == conversion_of(job, image.path, true),
        advanced(
            job,
            StageView::Converting { image: image.path, temporary: true },
            OutcomeView::Succeeded(done),
        ) == (StepView::Next {
            stage: StageView::Attaching { image: image.path, temporary: true },
            action: ActionView::Attach {
                vm_id: job.vm_id,
                disk: disk_name_of(job.work_dir),
                storage: job.storage,
            },
        }),
        advanced(
            job,
            StageView::Attaching { image: image.path, temporary: true },
            OutcomeView::Succeeded(done),
        ) == (StepView::Next {
            stage: StageView::RemovingDisk { image: image.path, temporary: true },
            action: ActionView::Remove { path: disk_name_of(job.work_dir) },
        }),
        advanced(
            job,
            StageView::RemovingDisk { image: image.path, temporary: true },
            OutcomeView::Succeeded(done),
        ) == (StepView::Next {
            stage: StageView::RemovingImage { image: image.path },
            action: ActionView::Remove { path: image.path },
        }),
        advanced(
            job,
            StageView::RemovingImage { image: image.path },
            OutcomeView::Succeeded(done),
        ) == StepView::Finished,
{
}

/// Once the format of the source is selected, its name never stops the
/// run: a file with a known extension has a stem.
pub proof fn law_selected_source_has_output_name(job: JobView)
    ensures
        selected(job.image) is Ok ==> output_name_of(job.image, job.work_dir) is Some,
{
}

} // verus!
