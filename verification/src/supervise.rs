//! Process supervisor, modelled as a state machine. One `Conversion` value
//! supervises one encoder run: the driver performs each outside action
//! (existence check, directory creation, probe, spawn, stream read, wait)
//! and hands the observed outcome to the matching step below; every decision
//! — which event to emit, which error to return, how the phases may follow
//! one another — is made and proved here.

use vstd::prelude::*;

use crate::error::AppError;
use crate::ffmpeg::{spec_output_path, spec_parse_time, FfmpegConverter};
use crate::filter::{build_filter_graph, spec_filter_graph};
use crate::options::ConversionOptions;
use crate::progress::{
    converting_message, percent_hundredths, spec_converting_message, spec_percent_hundredths,
    ProgressPayload, ProgressStatus,
};

verus! {

/// Substitute total duration when the probe fails: ten seconds, in
/// centiseconds. Progress is then inaccurate but the conversion proceeds.
pub const FALLBACK_DURATION_CS: u64 = 1000;

/// Where one conversion stands.
#[derive(Debug, Clone, Copy, PartialEq, Eq, Structural)]
pub enum Phase {
    /// Constructed; the input file has not been validated yet.
    Preparing,
    /// Input validated; the encoder has not been spawned yet.
    Ready,
    /// The encoder runs and its diagnostic stream is being read.
    Running,
    /// Terminal: the encoder exited successfully.
    Succeeded,
    /// Terminal: validation, spawning or the encoder itself failed.
    Failed,
}

/// One outbound notification. During a conversion the caller observes
/// nothing else.
#[derive(Debug, Clone)]
pub enum Notification {
    /// The named `progress` event.
    Progress(ProgressPayload),
    /// The named `error` event, carrying a human-readable line.
    ErrorNote(String),
    /// The named `complete` event, carrying the output path.
    Complete(String),
}

/// Supervisor state of one conversion.
#[derive(Debug)]
pub struct Conversion {
    pub input_path: String,
    pub output_path: String,
    pub options: ConversionOptions,
    /// Total input duration in centiseconds, the denominator of every
    /// percentage; the fallback until a probe value is accepted.
    pub total_cs: u64,
    pub phase: Phase,
}

impl Conversion {
    /// The percentage denominator is never zero.
    pub open spec fn wf(&self) -> bool {
        self.total_cs > 0
    }

    /// Starts supervising one conversion: derives the output path and
    /// stands at `Preparing` with the fallback duration.
    pub fn new(input_path: &str, output_dir: &str, options: ConversionOptions) -> (r: Self)
        ensures
            r.phase == Phase::Preparing,
            r.input_path@ == input_path@,
            r.output_path@ == spec_output_path(input_path@, output_dir@),
            r.options == options,
            r.total_cs == FALLBACK_DURATION_CS,
            r.wf(),
    {
        Conversion {
            input_path: String::from_str(input_path),
            output_path: FfmpegConverter::output_path_for(input_path, output_dir),
            options,
            total_cs: FALLBACK_DURATION_CS,
            phase: Phase::Preparing,
        }
    }

    /// Accepts the driver's observation whether the input file exists. A
    /// missing input is the error `InvalidInput` and ends the conversion at
    /// `Failed`, before any spawn step can be taken.
    pub fn check_input(&mut self, input_exists: bool) -> (r: Result<(), AppError>)
        requires
            old(self).phase == Phase::Preparing,
        ensures
            final(self).input_path == old(self).input_path,
            final(self).output_path == old(self).output_path,
            final(self).options == old(self).options,
            final(self).total_cs == old(self).total_cs,
            input_exists ==> final(self).phase == Phase::Ready && r is Ok,
            !input_exists ==> (final(self).phase == Phase::Failed && (r matches Err(e) && e
                matches AppError::InvalidInput(m) && m@ == "Input file not found: "@ + old(
                self,
            ).input_path@)),
    {
        if input_exists {
            self.phase = Phase::Ready;
            Ok(())
        } else {
            self.phase = Phase::Failed;
            let msg = String::from_str("Input file not found: ").concat(self.input_path.as_str());
            Err(AppError::InvalidInput(msg))
        }
    }

    /// Accepts the probe's outcome. A failed probe (`None`) or a degenerate
    /// zero duration falls back to [`FALLBACK_DURATION_CS`] instead of
    /// aborting: the probe is advisory, only the percentage denominator.
    pub fn set_duration(&mut self, probe_cs: Option<u64>)
        requires
            old(self).phase == Phase::Ready,
        ensures
            final(self).input_path == old(self).input_path,
            final(self).output_path == old(self).output_path,
            final(self).options == old(self).options,
            final(self).phase == Phase::Ready,
            final(self).total_cs == (if probe_cs is Some && probe_cs->Some_0 > 0 {
                probe_cs->Some_0
            } else {
                FALLBACK_DURATION_CS
            }),
            final(self).wf(),
    {
        match probe_cs {
            Some(v) if v > 0 => {
                self.total_cs = v;
            },
            _ => {
                self.total_cs = FALLBACK_DURATION_CS;
            },
        }
    }

    /// The `starting` progress event, emitted once before the spawn: zero
    /// percent, palette generation begins.
    pub fn starting_event(&self) -> (r: ProgressPayload)
        requires
            self.phase == Phase::Ready,
        ensures
            r.percentage_hundredths == 0,
            r.status == ProgressStatus::Starting,
            r.message@ == "Generating color palette..."@,
            r.wf(),
    {
        ProgressPayload {
            percentage_hundredths: 0,
            status: ProgressStatus::Starting,
            message: String::from_str("Generating color palette..."),
        }
    }

    /// Argument list the encoder is spawned with: input, filter graph,
    /// overwrite flag, machine-readable progress to the diagnostic stream,
    /// output path.
    pub fn spawn_args(&self) -> (r: Vec<String>)
        requires
            self.phase == Phase::Ready,
        ensures
            r@.len() == 8,
            r@[0]@ == "-i"@,
            r@[1]@ == self.input_path@,
            r@[2]@ == "-filter_complex"@,
            r@[3]@ == spec_filter_graph(self.options),
            r@[4]@ == "-y"@,
            r@[5]@ == "-progress"@,
            r@[6]@ == "pipe:2"@,
            r@[7]@ == self.output_path@,
    {
        let filter = build_filter_graph(&self.options);
        FfmpegConverter::conversion_args(
            self.input_path.as_str(),
            filter.as_str(),
            self.output_path.as_str(),
        )
    }

    /// Accepts the spawn outcome. A spawn failure is the error
    /// `ConversionFailed` and ends the conversion at `Failed`; on success
    /// the diagnostic stream may be read.
    pub fn on_spawn(&mut self, spawn_ok: bool) -> (r: Option<AppError>)
        requires
            old(self).phase == Phase::Ready,
        ensures
            final(self).input_path == old(self).input_path,
            final(self).output_path == old(self).output_path,
            final(self).options == old(self).options,
            final(self).total_cs == old(self).total_cs,
            spawn_ok ==> final(self).phase == Phase::Running && r is None,
            !spawn_ok ==> (final(self).phase == Phase::Failed && (r matches Some(e) && e matches
                AppError::ConversionFailed(m) && m@ == "Failed to start ffmpeg"@)),
    {
        if spawn_ok {
            self.phase = Phase::Running;
            None
        } else {
            self.phase = Phase::Failed;
            Some(AppError::ConversionFailed(String::from_str("Failed to start ffmpeg")))
        }
    }

    /// Turns one diagnostic line into at most one `converting` progress
    /// event: a line with a well-formed `time=` marker yields the elapsed
    /// share of the total duration, capped at 99 %; any other line yields
    /// nothing and is no error.
    pub fn on_line(&self, line: &str) -> (r: Option<ProgressPayload>)
        requires
            self.phase == Phase::Running,
            self.wf(),
        ensures
            match spec_parse_time(line@) {
                Option::None => r is None,
                Option::Some(elapsed) => r matches Some(p) && p.status
                    == ProgressStatus::Converting && p.percentage_hundredths
                    == spec_percent_hundredths(elapsed, self.total_cs as int)
                    && p.percentage_hundredths <= 9900 && p.message@ == spec_converting_message(
                    elapsed,
                    self.total_cs as int,
                ) && p.wf(),
            },
    {
        match FfmpegConverter::parse_time(line) {
            None => None,
            Some(elapsed_cs) => {
                let pct = percent_hundredths(elapsed_cs, self.total_cs);
                let msg = converting_message(elapsed_cs, self.total_cs);
                Some(
                    ProgressPayload {
                        percentage_hundredths: pct,
                        status: ProgressStatus::Converting,
                        message: msg,
                    },
                )
            },
        }
    }

    /// Accepts the encoder's exit status, after the diagnostic stream is
    /// exhausted. Success yields the terminal `done` event (exactly 100 %)
    /// and the `complete` notification, then the output path; failure
    /// yields the `error` notification — observably before the returned
    /// error — and the error `ConversionFailed`.
    pub fn on_exit(&mut self, exit_success: bool) -> (r: (Vec<Notification>, Result<
        String,
        AppError,
    >))
        requires
            old(self).phase == Phase::Running,
        ensures
            final(self).input_path == old(self).input_path,
            final(self).output_path == old(self).output_path,
            final(self).options == old(self).options,
            final(self).total_cs == old(self).total_cs,
            exit_success ==> (final(self).phase == Phase::Succeeded && r.0@.len() == 2 && (r.1
                matches Ok(p) && p@ == old(self).output_path@) && (r.0@[0] matches
                Notification::Progress(pp) && pp.percentage_hundredths == 10000 && pp.status
                == ProgressStatus::Done && pp.message@ == "Conversion complete!"@) && (r.0@[1]
                matches Notification::Complete(c) && c@ == old(self).output_path@)),
            !exit_success ==> (final(self).phase == Phase::Failed && r.0@.len() == 1 && (r.1
                matches Err(e) && e matches AppError::ConversionFailed(m) && m@
                == "FFmpeg exited with non-zero status"@) && (r.0@[0] matches
                Notification::ErrorNote(n) && n@ == "FFmpeg exited with error"@)),
    {
        let mut notes: Vec<Notification> = Vec::new();
        if exit_success {
            self.phase = Phase::Succeeded;
            notes.push(
                Notification::Progress(
                    ProgressPayload {
                        percentage_hundredths: 10000,
                        status: ProgressStatus::Done,
                        message: String::from_str("Conversion complete!"),
                    },
                ),
            );
            notes.push(Notification::Complete(self.output_path.clone()));
            (notes, Ok(self.output_path.clone()))
        } else {
            self.phase = Phase::Failed;
            notes.push(
                Notification::ErrorNote(String::from_str("FFmpeg exited with error")),
            );
            (
                notes,
                Err(
                    AppError::ConversionFailed(
                        String::from_str("FFmpeg exited with non-zero status"),
                    ),
                ),
            )
        }
    }
}

} // verus!
