//! Jobs: one source file turned into one output file. Building a job decides
//! its output path and format; stepping it decides, from each thing that
//! happened to it, what to do next.

use crate::format::{
    detect_format, detected_format, extension_text, format_to_extension, lower_of, named_format,
    parse_format, OutputFormat,
};
use crate::raster::{decode, decoded, render, rendered, RenderError};
use crate::resize::ResizeSpec;
use vstd::prelude::*;

verus! {

/// What `Path::file_stem` gives for a path, as text.
pub uninterp spec fn stem_of(p: Seq<char>) -> Option<Seq<char>>;

/// What `Path::join` gives for a directory and a file name, as text.
pub uninterp spec fn joined(dir: Seq<char>, name: Seq<char>) -> Seq<char>;

/// Relies on `std::path::Path::file_stem`: the file name without its last
/// extension, if the path has a file name.
#[verifier::external_body]
fn path_stem(path: &str) -> (r: Option<String>)
    ensures
        match r {
            Some(s) => stem_of(path@) == Some(s@),
            None => stem_of(path@).is_none(),
        },
{
    std::path::Path::new(path).file_stem().and_then(|s| s.to_str()).map(|s| s.to_string())
}

/// Relies on `std::path::Path::join`: `name` placed inside `dir`. Both are
/// text, so the joined path is too and converts back without loss.
#[verifier::external_body]
fn path_join(dir: &str, name: &str) -> (r: String)
    ensures
        r@ == joined(dir@, name@),
{
    std::path::Path::new(dir).join(name).to_string_lossy().into_owned()
}

/// The settings shared by every job of a batch.
#[derive(Debug, PartialEq, Eq)]
pub struct Config {
    pub target_dir: String,
    pub resize: ResizeSpec,
    pub format: Option<OutputFormat>,
}

/// A batch cannot start.
#[derive(Debug)]
pub enum ConfigError {
    /// The watermark is not an image the decoder knows.
    WatermarkDecode(image::ImageError),
    /// The requested output format is not supported.
    UnsupportedFormat(String),
}

/// One unit of work: which file to read, where to write, and how.
#[derive(Debug, PartialEq, Eq)]
pub struct Job {
    pub source: String,
    pub output: String,
    pub resize: ResizeSpec,
    pub format: OutputFormat,
}

/// Why a job failed.
#[derive(Debug)]
pub enum JobError {
    /// The source path has no file name to derive the output's from.
    InvalidFileName,
    /// The source file could not be read.
    Read(String),
    /// The image could not be decoded, resized or encoded.
    Render(RenderError),
    /// The output file could not be written.
    Write(String),
}

/// How a job ended.
#[derive(Debug)]
pub enum Outcome {
    Success { output: String },
    Failure(JobError),
}

/// The report of one job.
#[derive(Debug)]
pub struct JobResult {
    pub source: String,
    pub outcome: Outcome,
}

/// What happened to a running job.
pub enum JobEvent {
    /// The source file's bytes were read.
    SourceRead(Vec<u8>),
    /// The source file could not be read, for the reason given.
    SourceUnreadable(String),
    /// The output file was written.
    OutputWritten,
    /// The output file could not be written, for the reason given.
    OutputUnwritable(String),
}

/// What a job does next.
pub enum JobStep {
    /// Write these bytes to this path, then report how that went.
    Write { path: String, bytes: Vec<u8> },
    /// The job is over.
    Finish(JobResult),
}

/// The format a job writes: the configured one, else the one the source's
/// extension names, else PNG.
pub open spec fn resolved_format(source: Seq<char>, config: Config) -> OutputFormat {
    match config.format {
        Some(f) => f,
        None => match detected_format(source) {
            Some(f) => f,
            None => OutputFormat::Png,
        },
    }
}

/// The output's file name: the source's stem, a dot, the format's extension.
pub open spec fn output_name(stem: Seq<char>, format: OutputFormat) -> Seq<char> {
    stem + "."@ + extension_text(format)
}

/// Where a job for `source` writes, or `None` where the source has no stem.
pub open spec fn planned_output(source: Seq<char>, config: Config) -> Option<Seq<char>> {
    match stem_of(source) {
        Some(stem) => Some(
            joined(config.target_dir@, output_name(stem, resolved_format(source, config))),
        ),
        None => None,
    }
}

/// Whether `job` is the job built for `source` under `config`.
pub open spec fn is_job_for(job: Job, source: Seq<char>, config: Config) -> bool {
    &&& planned_output(source, config) == Some(job.output@)
    &&& job.source@ == source
    &&& job.resize == config.resize
    &&& job.format == resolved_format(source, config)
}

/// The result of a finished job for `source`.
pub open spec fn finished(step: JobStep, source: Seq<char>) -> bool {
    step matches JobStep::Finish(res) && res.source@ == source
}

impl Config {
    /// The settings of a batch; a format name, in any letter case, must be
    /// one of the supported ones.
    pub fn new(
        target_dir: String,
        width: Option<u32>,
        height: Option<u32>,
        format: Option<String>,
    ) -> (r: Result<Config, ConfigError>)
        ensures
            match format {
                Some(name) => match named_format(lower_of(name@)) {
                    Some(f) => r is Ok && r->Ok_0.format == Some(f),
                    None => r is Err && (r->Err_0 matches ConfigError::UnsupportedFormat(n) && n@
                        == name@),
                },
                None => r is Ok && r->Ok_0.format.is_none(),
            },
            r is Ok ==> r->Ok_0.target_dir == target_dir && r->Ok_0.resize == (ResizeSpec {
                width,
                height,
            }),
    {
        let format = match format {
            Some(name) => match parse_format(name.as_str()) {
                Ok(f) => Some(f),
                Err(e) => return Err(ConfigError::UnsupportedFormat(e.name)),
            },
            None => None,
        };
        Ok(Config { target_dir, resize: ResizeSpec { width, height }, format })
    }

    /// The format a job for `source` writes.
    pub fn output_format(&self, source: &str) -> (r: OutputFormat)
        ensures
            r == resolved_format(source@, *self),
    {
        match self.format {
            Some(f) => f,
            None => match detect_format(source) {
                Some(f) => f,
                None => OutputFormat::Png,
            },
        }
    }

    /// Builds the job for one source file. Every output lands directly in the
    /// target directory, whichever input directory its source came from; two
    /// sources with the same stem and format share an output path, and the
    /// one written last is what remains.
    pub fn build_job(&self, source: &str) -> (r: Result<Job, JobError>)
        ensures
            planned_output(source@, *self) is Some <==> r is Ok,
            r is Ok ==> is_job_for(r->Ok_0, source@, *self),
            r is Err ==> r->Err_0 is InvalidFileName,
    {
        let stem = match path_stem(source) {
            Some(s) => s,
            None => return Err(JobError::InvalidFileName),
        };
        let format = self.output_format(source);
        let mut name = stem;
        name.append(".");
        name.append(format_to_extension(format));
        let output = path_join(self.target_dir.as_str(), name.as_str());
        Ok(Job { source: source.to_owned(), output, resize: self.resize, format })
    }
}

/// The step after a job's image was rendered, or failed to be.
pub fn after_render(job: &Job, rendered: Result<Vec<u8>, RenderError>) -> (r: JobStep)
    ensures
        match rendered {
            Ok(bytes) => r matches JobStep::Write { path, bytes: b } && path@ == job.output@ && b
                == bytes,
            Err(e) => finished(r, job.source@) && r->Finish_0.outcome == Outcome::Failure(
                JobError::Render(e),
            ),
        },
{
    match rendered {
        Ok(bytes) => JobStep::Write { path: job.output.clone(), bytes },
        Err(e) => JobStep::Finish(
            JobResult { source: job.source.clone(), outcome: Outcome::Failure(JobError::Render(e)) },
        ),
    }
}

/// The shared state of a batch: the decoded watermark, read by every job,
/// and the settings.
pub struct Watermarker {
    pub watermark: image::DynamicImage,
    pub config: Config,
}

impl Watermarker {
    /// Decodes the watermark once and checks the settings.
    pub fn new(
        watermark: &[u8],
        target_dir: String,
        width: Option<u32>,
        height: Option<u32>,
        format: Option<String>,
    ) -> (r: Result<Watermarker, ConfigError>)
        ensures
            r is Ok ==> r->Ok_0.config.target_dir == target_dir && r->Ok_0.config.resize == (
            ResizeSpec { width, height }),
            decoded(watermark@) is None ==> r is Err && r->Err_0 is WatermarkDecode,
            decoded(watermark@) is Some && (format is None || named_format(
                lower_of(format->Some_0@),
            ) is Some) ==> r is Ok && r->Ok_0.watermark == decoded(watermark@)->Some_0,
            r is Err && r->Err_0 is UnsupportedFormat ==> format is Some && named_format(
                lower_of(format->Some_0@),
            ) is None,
            format is Some && named_format(lower_of(format->Some_0@)) is None ==> r is Err,
            r is Ok ==> r->Ok_0.config.format == match format {
                Some(name) => named_format(lower_of(name@)),
                None => None,
            },
    {
        let mark = match decode(watermark) {
            Ok(img) => img,
            Err(e) => return Err(ConfigError::WatermarkDecode(e)),
        };
        Watermarker::with_watermark(mark, target_dir, width, height, format)
    }

    /// The shared state around an already decoded watermark.
    pub fn with_watermark(
        watermark: image::DynamicImage,
        target_dir: String,
        width: Option<u32>,
        height: Option<u32>,
        format: Option<String>,
    ) -> (r: Result<Watermarker, ConfigError>)
        ensures
            match format {
                Some(name) => (r is Ok <==> named_format(lower_of(name@)) is Some) && (r is Err
                    ==> (r->Err_0 matches ConfigError::UnsupportedFormat(n) && n@ == name@)),
                None => r is Ok,
            },
            r is Ok ==> r->Ok_0.watermark == watermark && r->Ok_0.config.target_dir == target_dir
                && r->Ok_0.config.resize == (ResizeSpec { width, height }) && (format is Some
                ==> r->Ok_0.config.format == named_format(lower_of(format->Some_0@)))
                && (format is None ==> r->Ok_0.config.format is None),
    {
        let config = Config::new(target_dir, width, height, format)?;
        Ok(Watermarker { watermark, config })
    }

    /// Decides a job's next step from what just happened to it. Reading the
    /// source leads to rendering it and, where that works, to writing the
    /// output; every failure ends the job with a report naming its source.
    pub fn advance(&self, job: &Job, event: JobEvent) -> (r: JobStep)
        ensures
            match event {
                JobEvent::SourceRead(b) => match rendered(
                    b@,
                    self.watermark,
                    job.resize,
                    job.format,
                ) {
                    Some(out) => r matches JobStep::Write { path, bytes } && path@ == job.output@
                        && bytes@ == out,
                    None => finished(r, job.source@) && (r->Finish_0.outcome matches Outcome::Failure(
                        JobError::Render(e),
                    ) && (decoded(b@) is None ==> e is Decode)),
                },
                JobEvent::SourceUnreadable(m) => finished(r, job.source@)
                    && (r->Finish_0.outcome matches Outcome::Failure(JobError::Read(why)) && why
                    == m),
                JobEvent::OutputWritten => finished(r, job.source@)
                    && (r->Finish_0.outcome matches Outcome::Success { output } && output@
                    == job.output@),
                JobEvent::OutputUnwritable(m) => finished(r, job.source@)
                    && (r->Finish_0.outcome matches Outcome::Failure(JobError::Write(why)) && why
                    == m),
            },
    {
        match event {
            JobEvent::SourceRead(bytes) => {
                let rendered = render(bytes.as_slice(), &self.watermark, job.resize, job.format);
                after_render(job, rendered)
            },
            JobEvent::SourceUnreadable(m) => JobStep::Finish(
                JobResult { source: job.source.clone(), outcome: Outcome::Failure(JobError::Read(m)) },
            ),
            JobEvent::OutputWritten => JobStep::Finish(
                JobResult {
                    source: job.source.clone(),
                    outcome: Outcome::Success { output: job.output.clone() },
                },
            ),
            JobEvent::OutputUnwritable(m) => JobStep::Finish(
                JobResult {
                    source: job.source.clone(),
                    outcome: Outcome::Failure(JobError::Write(m)),
                },
            ),
        }
    }
}

} // verus!
