//! Video derivatives: the hardware and software transcoding scripts, the
//! fallback from one to the other, and the frame rate read from the log.

use vstd::prelude::*;
use crate::image_converter::{paths_preamble_text, preamble_of, touch_line};
use crate::processor::{
    line, prologue, CommandRunner, FileToBeProcessed, ProcessingMetrics, ProcessingResult,
    VideoMetrics,
};
use crate::text::{
    chars_of, decimal_u32, find, find_first, matches_at, parse_decimal_u32, split_chars, split_on,
    starts_with_chars, trim_chars, trim_char,
};

verus! {

/// Copies the tags of the input onto the output.
pub open spec fn copy_metadata_line() -> Seq<char> {
    r#"exiftool -overwrite_original -TagsFromFile "$input" "-all:all>all:all" "$output""#@
}

pub open spec fn hw_preview_line() -> Seq<char> {
    r#"ffmpeg -nostdin -y -noautorotate \
    -hwaccel vaapi -hwaccel_device /dev/dri/renderD128 \
    -hwaccel_output_format vaapi \
    -i "$input" \
    -vf "scale_vaapi=w='if(gt(iw,ih),1280,trunc(oh*a/2)*2)':h='if(gt(iw,ih),trunc(ow/a/2)*2,1280)':format=nv12" -c:v h264_vaapi \
    -movflags use_metadata_tags \
    "$output""#@
}

pub open spec fn hw_thumbnail_line() -> Seq<char> {
    r#"ffmpeg -nostdin -y -noautorotate \
    -hwaccel vaapi -hwaccel_device /dev/dri/renderD128 \
    -hwaccel_output_format vaapi \
    -i "$input" \
    -vf "scale_vaapi=w='if(gt(iw,ih),320,trunc(oh*a/2)*2)':h='if(gt(iw,ih),trunc(ow/a/2)*2,320)':format=nv12" -c:v h264_vaapi \
    -movflags use_metadata_tags \
    "$output""#@
}

pub open spec fn sw_preview_line() -> Seq<char> {
    r#"ffmpeg -nostdin -y -noautorotate \
   -i "$input" \
   -vf "scale=w='if(gt(iw,ih),1280,trunc(oh*a/2)*2)':h='if(gt(iw,ih),trunc(ow/a/2)*2,1280)'" -c:v libx264 \
   -pix_fmt yuv420p \
   -movflags use_metadata_tags \
   "$output""#@
}

pub open spec fn sw_thumbnail_line() -> Seq<char> {
    r#"ffmpeg -nostdin -y -noautorotate \
   -i "$input" \
   -vf "scale=w='if(gt(iw,ih),320,trunc(oh*a/2)*2)':h='if(gt(iw,ih),trunc(ow/a/2)*2,320)'" -c:v libx264 \
   -pix_fmt yuv420p \
   -movflags use_metadata_tags \
   "$output""#@
}

/// How a video is transcoded.
#[derive(Debug, PartialEq, Eq, Structural, Clone, Copy)]
pub enum TranscodeMode {
    /// On the GPU, through vaapi.
    Hardware,
    /// On the CPU, with libx264.
    Software,
}

/// The transcoding command of a preset in a mode.
pub open spec fn transcode_line(mode: TranscodeMode, preset: Seq<char>) -> Seq<char> {
    match mode {
        TranscodeMode::Hardware => if preset == "thumbnail"@ {
            hw_thumbnail_line()
        } else {
            hw_preview_line()
        },
        TranscodeMode::Software => if preset == "thumbnail"@ {
            sw_thumbnail_line()
        } else {
            sw_preview_line()
        },
    }
}

/// The whole script of a video in a mode.
pub open spec fn video_script_of(file: FileToBeProcessed, mode: TranscodeMode) -> Seq<char> {
    prologue() + line(preamble_of(file, "mp4"@)) + line(transcode_line(mode, file.preset_name@)) + line(
        copy_metadata_line(),
    ) + line(touch_line())
}

/// The frame rate a piece of a progress line reports: the digits between
/// `fps=` and ` q=`, with spaces around them allowed.
pub open spec fn fps_of_piece(piece: Seq<char>) -> Option<u32> {
    match (find(piece, "fps="@), find(piece, " q="@)) {
        (Some(f), Some(q)) => if f + "fps="@.len() <= q {
            decimal_u32(trim_char(piece.subrange(f + "fps="@.len(), q), ' '))
        } else {
            None
        },
        _ => None,
    }
}

/// The frame rates above 1 that the pieces report, in order.
pub open spec fn piece_samples(pieces: Seq<Seq<char>>) -> Seq<u32>
    decreases pieces.len(),
{
    if pieces.len() == 0 {
        Seq::empty()
    } else {
        piece_samples(pieces.drop_last()) + match fps_of_piece(pieces.last()) {
            Some(v) => if v > 1 {
                seq![v]
            } else {
                Seq::empty()
            },
            None => Seq::empty(),
        }
    }
}

/// The samples of the progress lines, those that begin with `frame=`, each
/// split into pieces at carriage returns.
pub open spec fn line_samples(lines: Seq<Seq<char>>) -> Seq<u32>
    decreases lines.len(),
{
    if lines.len() == 0 {
        Seq::empty()
    } else {
        line_samples(lines.drop_last()) + if matches_at(lines.last(), "frame="@, 0) {
            piece_samples(split_on(lines.last(), '\r'))
        } else {
            Seq::empty()
        }
    }
}

/// The frame-rate samples of a transcoding log.
pub open spec fn fps_samples(log: Seq<char>) -> Seq<u32> {
    line_samples(split_on(log, '\n'))
}

pub open spec fn sum_of(s: Seq<u32>) -> int
    decreases s.len(),
{
    if s.len() == 0 {
        0
    } else {
        sum_of(s.drop_last()) + s.last()
    }
}

/// The mean of the samples, rounded down, if there are any.
pub open spec fn mean_fps(log: Seq<char>) -> Option<u32> {
    let s = fps_samples(log);
    if s.len() > 0 {
        Some((sum_of(s) / (s.len() as int)) as u32)
    } else {
        None
    }
}

/// A successful result gains the mean frame rate of its log, where the log
/// reports one; any other result is kept as it is.
pub open spec fn with_fps_metrics(result: ProcessingResult) -> ProcessingResult {
    if result.has_succeeded {
        match mean_fps(result.command_log@) {
            Some(fps) => ProcessingResult {
                metrics: Some(ProcessingMetrics::Video(VideoMetrics { fps })),
                ..result
            },
            None => result,
        }
    } else {
        result
    }
}

/// What a video's transcoding does next.
pub enum VideoStep {
    /// Run this script in this mode, then report its result.
    Run(TranscodeMode, CommandRunner),
    /// Record this result: the video is done.
    Done(ProcessingResult),
}

/// Which step follows what has happened so far: nothing yet, or the
/// result of the last attempt in its mode.
pub open spec fn next_step_kind(last: Option<(TranscodeMode, ProcessingResult)>) -> Option<TranscodeMode> {
    match last {
        None => Some(TranscodeMode::Hardware),
        Some((TranscodeMode::Hardware, r)) => if r.has_succeeded {
            None
        } else {
            Some(TranscodeMode::Software)
        },
        Some((TranscodeMode::Software, _)) => None,
    }
}

/// Makes the derivative of one video.
pub struct VideoConverter<'a> {
    pub file: &'a FileToBeProcessed,
}

proof fn lemma_sum_bound(s: Seq<u32>)
    ensures
        0 <= sum_of(s) <= s.len() * 0xffff_ffff,
    decreases s.len(),
{
    if s.len() > 0 {
        lemma_sum_bound(s.drop_last());
    }
}

impl<'a> VideoConverter<'a> {
    pub fn from(file: &'a FileToBeProcessed) -> (r: VideoConverter<'a>)
        ensures
            r.file == file,
    {
        VideoConverter { file }
    }

    /// The next step of the fallback from hardware to software transcoding:
    /// first the hardware script; after a hardware success, done; after a
    /// hardware failure, the software script; after the software attempt,
    /// done with its result. A done result carries the frame rate.
    pub fn run_using_hw_or_sw_transcoding(&self, last: Option<(TranscodeMode, ProcessingResult)>) -> (r: VideoStep)
        ensures
            match next_step_kind(last) {
                Some(mode) => r matches VideoStep::Run(m, c) && m == mode && c.cwd@
                    == self.file.output_folder@ && c.cmd@ == video_script_of(*self.file, mode),
                None => match last {
                    Some(attempt) => r matches VideoStep::Done(x) && x == with_fps_metrics(attempt.1),
                    None => false,
                },
            },
    {
        match last {
            None => VideoStep::Run(TranscodeMode::Hardware, self.run_hw_transcoding_intel()),
            Some((mode, result)) => {
                if mode == TranscodeMode::Hardware && !result.has_succeeded {
                    VideoStep::Run(TranscodeMode::Software, self.run_software_transcoding())
                } else {
                    VideoStep::Done(self.add_metrics(result))
                }
            },
        }
    }

    /// A successful result with the mean frame rate of its log.
    pub fn add_metrics(&self, result: ProcessingResult) -> (r: ProcessingResult)
        ensures
            r == with_fps_metrics(result),
    {
        if !result.has_succeeded {
            return result;
        }
        let maybe_fps = self.parse_fps(result.command_log.as_str());
        match maybe_fps {
            Some(fps) => result.with_metrics(ProcessingMetrics::Video(VideoMetrics { fps })),
            None => result,
        }
    }

    /// The mean of the frame rates above 1 that the log's progress lines
    /// report, rounded down.
    pub fn parse_fps(&self, command_log: &str) -> (r: Option<u32>)
        ensures
            r == mean_fps(command_log@),
    {
        let samples = self.fps_samples(command_log);
        let mut sum: u128 = 0;
        let mut k: usize = 0;
        while k < samples.len()
            invariant
                k <= samples@.len(),
                sum == sum_of(samples@.take(k as int)),
            decreases samples.len() - k,
        {
            proof {
                assert(samples@.take(k + 1).drop_last() =~= samples@.take(k as int));
                lemma_sum_bound(samples@.take(k as int));
                assert(k * 0xffff_ffff <= 0xffff_ffff_ffff_ffff * 0xffff_ffff) by (nonlinear_arith)
                    requires
                        k <= 0xffff_ffff_ffff_ffff,
                ;
            }
            sum = sum + samples[k] as u128;
            k += 1;
        }
        proof {
            assert(samples@.take(k as int) =~= samples@);
            lemma_sum_bound(samples@);
        }
        if samples.len() == 0 {
            return None;
        }
        let count: u128 = samples.len() as u128;
        let mean: u128 = sum / count;
        proof {
            let n = samples@.len() as int;
            assert(sum / count <= 0xffff_ffff) by (nonlinear_arith)
                requires
                    sum <= n * 0xffff_ffff,
                    count == n,
                    n > 0,
            ;
        }
        Some(mean as u32)
    }

    /// The frame-rate samples of a log, in order.
    pub fn fps_samples(&self, command_log: &str) -> (r: Vec<u32>)
        ensures
            r@ == fps_samples(command_log@),
    {
        let log = chars_of(command_log);
        let lines = split_chars(log.as_slice(), '\n');
        let frame = chars_of("frame=");
        let mut samples: Vec<u32> = Vec::new();
        let ghost lv = lines@.map_values(|p: Vec<char>| p@);
        let mut i: usize = 0;
        while i < lines.len()
            invariant
                i <= lines@.len(),
                lv == lines@.map_values(|p: Vec<char>| p@),
                frame@ == "frame="@,
                samples@ == line_samples(lv.take(i as int)),
            decreases lines.len() - i,
        {
            proof {
                assert(lv.take(i + 1).drop_last() =~= lv.take(i as int));
                assert(lv[i as int] == lines@[i as int]@);
            }
            if starts_with_chars(lines[i].as_slice(), frame.as_slice()) {
                let pieces = split_chars(lines[i].as_slice(), '\r');
                let ghost pv = pieces@.map_values(|p: Vec<char>| p@);
                let ghost head = samples@;
                let mut k: usize = 0;
                while k < pieces.len()
                    invariant
                        k <= pieces@.len(),
                        pv == pieces@.map_values(|p: Vec<char>| p@),
                        samples@ == head + piece_samples(pv.take(k as int)),
                    decreases pieces.len() - k,
                {
                    proof {
                        assert(pv.take(k + 1).drop_last() =~= pv.take(k as int));
                        assert(pv[k as int] == pieces@[k as int]@);
                    }
                    let ghost before = samples@;
                    match self.parse_single_fps_line(pieces[k].as_slice()) {
                        Some(fps) => {
                            if fps > 1 {
                                samples.push(fps);
                            }
                        },
                        None => {},
                    }
                    k += 1;
                    proof {
                        assert(samples@ =~= head + piece_samples(pv.take(k as int)));
                    }
                }
                proof {
                    assert(pv.take(k as int) =~= pv);
                }
            }
            i += 1;
            proof {
                assert(samples@ =~= line_samples(lv.take(i as int)));
            }
        }
        proof {
            assert(lv.take(i as int) =~= lv);
        }
        samples
    }

    /// The frame rate one piece of a progress line reports.
    pub fn parse_single_fps_line(&self, piece: &[char]) -> (r: Option<u32>)
        ensures
            r == fps_of_piece(piece@),
    {
        let fps_mark = chars_of("fps=");
        let q_mark = chars_of(" q=");
        match (find_first(piece, fps_mark.as_slice()), find_first(piece, q_mark.as_slice())) {
            (Some(f), Some(q)) => {
                if f <= q && fps_mark.len() <= q - f {
                    let start = f + fps_mark.len();
                    let mut middle: Vec<char> = Vec::new();
                    let mut k: usize = start;
                    while k < q
                        invariant
                            start <= k <= q <= piece@.len(),
                            middle@ == piece@.subrange(start as int, k as int),
                        decreases q - k,
                    {
                        middle.push(piece[k]);
                        k += 1;
                        assert(piece@.subrange(start as int, k as int) =~= piece@.subrange(
                            start as int,
                            k - 1,
                        ).push(piece@[k - 1]));
                    }
                    let trimmed = trim_chars(middle.as_slice(), ' ');
                    parse_decimal_u32(trimmed.as_slice())
                } else {
                    None
                }
            },
            _ => None,
        }
    }

    fn run_hw_transcoding_intel(&self) -> (r: CommandRunner)
        ensures
            r.cwd@ == self.file.output_folder@,
            r.cmd@ == video_script_of(*self.file, TranscodeMode::Hardware),
    {
        let paths = self.define_input_and_output_paths();
        let transcode = if self.file.preset_name == "thumbnail".to_owned() {
            self.convert_video_preview_intel_hw_transcoding_thumbnail()
        } else {
            self.convert_video_preview_intel_hw_transcoding_preview()
        };
        CommandRunner::build(self.file.output_folder.as_str()).with(paths.as_str()).with(transcode).with(
            self.copy_metadata(),
        ).with(self.copy_file_modification_date())
    }

    fn run_software_transcoding(&self) -> (r: CommandRunner)
        ensures
            r.cwd@ == self.file.output_folder@,
            r.cmd@ == video_script_of(*self.file, TranscodeMode::Software),
    {
        let paths = self.define_input_and_output_paths();
        let transcode = if self.file.preset_name == "thumbnail".to_owned() {
            self.convert_video_preview_software_transcoding_thumbnail()
        } else {
            self.convert_video_preview_software_transcoding_preview()
        };
        CommandRunner::build(self.file.output_folder.as_str()).with(paths.as_str()).with(transcode).with(
            self.copy_metadata(),
        ).with(self.copy_file_modification_date())
    }

    fn define_input_and_output_paths(&self) -> (r: String)
        ensures
            r@ == preamble_of(*self.file, "mp4"@),
    {
        let output_filepath = self.file.relative_path_with_file_stem_and_a_given_extension("mp4");
        let relative = self.file.relative_path();
        paths_preamble_text(relative.as_str(), self.file.file_full_path(), output_filepath.as_str())
    }

    fn copy_metadata(&self) -> (r: &'static str)
        ensures
            r@ == copy_metadata_line(),
    {
        r#"exiftool -overwrite_original -TagsFromFile "$input" "-all:all>all:all" "$output""#
    }

    fn convert_video_preview_intel_hw_transcoding_preview(&self) -> (r: &'static str)
        ensures
            r@ == hw_preview_line(),
    {
        r#"ffmpeg -nostdin -y -noautorotate \
    -hwaccel vaapi -hwaccel_device /dev/dri/renderD128 \
    -hwaccel_output_format vaapi \
    -i "$input" \
    -vf "scale_vaapi=w='if(gt(iw,ih),1280,trunc(oh*a/2)*2)':h='if(gt(iw,ih),trunc(ow/a/2)*2,1280)':format=nv12" -c:v h264_vaapi \
    -movflags use_metadata_tags \
    "$output""#
    }

    fn convert_video_preview_intel_hw_transcoding_thumbnail(&self) -> (r: &'static str)
        ensures
            r@ == hw_thumbnail_line(),
    {
        r#"ffmpeg -nostdin -y -noautorotate \
    -hwaccel vaapi -hwaccel_device /dev/dri/renderD128 \
    -hwaccel_output_format vaapi \
    -i "$input" \
    -vf "scale_vaapi=w='if(gt(iw,ih),320,trunc(oh*a/2)*2)':h='if(gt(iw,ih),trunc(ow/a/2)*2,320)':format=nv12" -c:v h264_vaapi \
    -movflags use_metadata_tags \
    "$output""#
    }

    fn convert_video_preview_software_transcoding_preview(&self) -> (r: &'static str)
        ensures
            r@ == sw_preview_line(),
    {
        r#"ffmpeg -nostdin -y -noautorotate \
   -i "$input" \
   -vf "scale=w='if(gt(iw,ih),1280,trunc(oh*a/2)*2)':h='if(gt(iw,ih),trunc(ow/a/2)*2,1280)'" -c:v libx264 \
   -pix_fmt yuv420p \
   -movflags use_metadata_tags \
   "$output""#
    }

    fn convert_video_preview_software_transcoding_thumbnail(&self) -> (r: &'static str)
        ensures
            r@ == sw_thumbnail_line(),
    {
        r#"ffmpeg -nostdin -y -noautorotate \
   -i "$input" \
   -vf "scale=w='if(gt(iw,ih),320,trunc(oh*a/2)*2)':h='if(gt(iw,ih),trunc(ow/a/2)*2,320)'" -c:v libx264 \
   -pix_fmt yuv420p \
   -movflags use_metadata_tags \
   "$output""#
    }

    fn copy_file_modification_date(&self) -> (r: &'static str)
        ensures
            r@ == touch_line(),
    {
        r#"touch -r "$input" "$output""#
    }
}

/// The fallback from hardware to software transcoding: the hardware script
/// runs first; when it succeeds the video is done and no software attempt
/// follows; when it fails the software script runs, once, and whatever it
/// returns ends the video.
pub proof fn lemma_fallback(hardware: ProcessingResult, software: ProcessingResult)
    ensures
        next_step_kind(None) == Some(TranscodeMode::Hardware),
        hardware.has_succeeded ==> next_step_kind(Some((TranscodeMode::Hardware, hardware))) is None,
        !hardware.has_succeeded ==> next_step_kind(Some((TranscodeMode::Hardware, hardware))) == Some(
            TranscodeMode::Software,
        ),
        next_step_kind(Some((TranscodeMode::Software, software))) is None,
{
}

} // verus!
