//! What a run of the detector is asked to do.

use vstd::prelude::*;
use crate::common::SceneDetectError;
use crate::content_detector::{
    ComponentWeights,
    ContentDetector,
    DetectorState,
    DEFAULT_MIN_SCENE_LENGTH,
};
use crate::flash_filter::FilterMode;
use crate::float64::Float64;

verus! {

/// The bit pattern of `27.0`, the threshold of a run that names none.
pub const DEFAULT_THRESHOLD_BITS: u64 = 0x403b_0000_0000_0000;

/// How the cuts that were found are written out.
#[derive(Clone, Copy, Debug, PartialEq, Eq, Structural)]
pub enum OutputFormat {
    /// The frame numbers in one line.
    Simple,
    /// One line for each scene.
    Detailed,
    /// A JSON document.
    Json,
}

/// The options of one run.
#[derive(Clone, Debug)]
pub struct Args {
    pub video_path: String,
    pub threshold: Option<Float64>,
    pub min_scene_length: Option<u32>,
    pub filter_mode: FilterMode,
    pub luma_only: bool,
    pub verbose: bool,
    pub show_video_info: bool,
    pub output_format: OutputFormat,
}

impl Default for Args {
    fn default() -> (args: Args)
        ensures
            args.video_path@.len() == 0,
            args.threshold.is_none(),
            args.min_scene_length.is_none(),
            args.filter_mode == FilterMode::Suppress,
            !args.luma_only,
            !args.verbose,
            !args.show_video_info,
            args.output_format == OutputFormat::Simple,
    {
        Args {
            video_path: String::new(),
            threshold: None,
            min_scene_length: None,
            filter_mode: FilterMode::Suppress,
            luma_only: false,
            verbose: false,
            show_video_info: false,
            output_format: OutputFormat::Simple,
        }
    }
}

impl Args {
    /// The threshold that the run works with: the one named, or 27.
    pub open spec fn spec_threshold_or_default(&self) -> Float64 {
        match self.threshold {
            Some(threshold) => threshold,
            None => Float64 { bits: DEFAULT_THRESHOLD_BITS },
        }
    }

    /// The minimum scene length that the run works with: the one named, or
    /// 15 frames.
    pub open spec fn spec_min_scene_length_or_default(&self) -> u32 {
        match self.min_scene_length {
            Some(frames) => frames,
            None => DEFAULT_MIN_SCENE_LENGTH,
        }
    }

    /// Whether the run names a setting of the detector, so that the
    /// detector is made from the options and not with its defaults.
    pub open spec fn spec_uses_custom_config(&self) -> bool {
        self.threshold.is_some() || self.min_scene_length.is_some() || self.luma_only
    }

    /// The settings of the detector that the options ask for. A run for
    /// luminance only keeps the default minimum scene length and mode.
    pub open spec fn detector_state(&self) -> DetectorState {
        if self.luma_only {
            DetectorState::initial(
                self.spec_threshold_or_default(),
                ComponentWeights::spec_luma_only(),
                DEFAULT_MIN_SCENE_LENGTH,
                FilterMode::Suppress,
            )
        } else {
            DetectorState::initial(
                self.spec_threshold_or_default(),
                ComponentWeights::spec_default(),
                self.spec_min_scene_length_or_default(),
                self.filter_mode,
            )
        }
    }

    /// What is wrong with the settings that the options ask for, if
    /// anything is.
    pub open spec fn config_fault(&self) -> Option<Seq<char>> {
        if self.luma_only {
            if self.spec_threshold_or_default().spec_is_non_negative() {
                None
            } else {
                Some("Threshold must be non-negative"@)
            }
        } else {
            ContentDetector::config_fault(
                self.spec_threshold_or_default(),
                ComponentWeights::spec_default(),
                self.spec_min_scene_length_or_default(),
            )
        }
    }

    #[verifier::when_used_as_spec(spec_threshold_or_default)]
    pub fn threshold_or_default(&self) -> (threshold: Float64)
        ensures
            threshold == self.threshold_or_default(),
    {
        match self.threshold {
            Some(threshold) => threshold,
            None => Float64::from_bits(DEFAULT_THRESHOLD_BITS),
        }
    }

    #[verifier::when_used_as_spec(spec_min_scene_length_or_default)]
    pub fn min_scene_length_or_default(&self) -> (frames: u32)
        ensures
            frames == self.min_scene_length_or_default(),
    {
        match self.min_scene_length {
            Some(frames) => frames,
            None => DEFAULT_MIN_SCENE_LENGTH,
        }
    }

    #[verifier::when_used_as_spec(spec_uses_custom_config)]
    pub fn uses_custom_config(&self) -> (custom: bool)
        ensures
            custom == self.uses_custom_config(),
    {
        self.threshold.is_some() || self.min_scene_length.is_some() || self.luma_only
    }

    /// The detector that the options ask for, or the configuration error
    /// that says which setting is not valid.
    pub fn detector(&self) -> (result: Result<ContentDetector, SceneDetectError>)
        ensures
            match self.config_fault() {
                Some(message) => result matches Err(error) && error.is_config_error(message),
                None => result matches Ok(detector) && detector@ == self.detector_state()
                    && detector@.well_formed(),
            },
    {
        let threshold: Float64 = self.threshold_or_default();
        if self.luma_only {
            if !threshold.is_non_negative() {
                return Err(SceneDetectError::config_error("Threshold must be non-negative"));
            }
            Ok(ContentDetector::new_luma_only(threshold))
        } else {
            ContentDetector::new_with_config(
                threshold,
                ComponentWeights::default(),
                self.min_scene_length_or_default(),
                self.filter_mode,
            )
        }
    }
}


/// The options of one run, as values without storage.
pub struct ArgsView {
    pub video_path: Seq<char>,
    pub threshold: Option<Float64>,
    pub min_scene_length: Option<u32>,
    pub filter_mode: FilterMode,
    pub luma_only: bool,
    pub verbose: bool,
    pub show_video_info: bool,
    pub output_format: OutputFormat,
}

impl View for Args {
    type V = ArgsView;

    open spec fn view(&self) -> ArgsView {
        ArgsView {
            video_path: self.video_path@,
            threshold: self.threshold,
            min_scene_length: self.min_scene_length,
            filter_mode: self.filter_mode,
            luma_only: self.luma_only,
            verbose: self.verbose,
            show_video_info: self.show_video_info,
            output_format: self.output_format,
        }
    }
}

/// One word of the command line, with the number that it reads as, where it
/// reads as one.
#[derive(Clone, Debug)]
pub struct Argument {
    pub text: String,
    /// The word as a real number.
    pub as_number: Option<Float64>,
    /// The word as a count.
    pub as_count: Option<u32>,
}

/// What is said to a caller who names no video.
pub open spec fn usage_text(program: Seq<char>) -> Seq<char> {
    "Usage: "@ + program
        + " <video_path> [OPTIONS]\n\nOptions:\n--threshold <value>      Detection threshold (default: 27.0)\n--min-scene-length <n>   Minimum frames between cuts (default: 15)\n--filter-mode <mode>     Filter mode: suppress|merge (default: suppress)\n--luma-only              Use only brightness changes\n--verbose                Enable debug logging\n--info                   Show video information only\n--format <fmt>           Output format: simple|detailed|json (default: simple)\n--help                   Show this help message\n\nExamples:\n"@
        + program + " video.mp4\n"@ + program + " video.mp4 --threshold 30.0 --verbose\n"@ + program
        + " video.mp4 --luma-only --format detailed"@
}

/// What is said to a caller who asks for help.
pub open spec fn help_text(program: Seq<char>) -> Seq<char> {
    "Rust Scene Detection Tool\n\nUsage: "@ + program
        + " <video_path> [OPTIONS]\n\nFinds the frames at which the scenes of a video change,\nby the change of content from each frame to the next.\n\nOptions:\n--threshold <value>      Detection threshold (default: 27.0)\n--min-scene-length <n>   Minimum frames between cuts (default: 15)\n--filter-mode <mode>     Filter mode: suppress|merge (default: suppress)\n--luma-only              Use only brightness changes (ignore color)\n--verbose                Enable debug logging and tracing\n--info                   Show video information only\n--format <fmt>           Output format: simple|detailed|json\n--help                   Show this help message"@
}

/// The options before any word is read: the defaults, for the video at
/// `video_path`.
pub open spec fn initial_args(video_path: Seq<char>) -> ArgsView {
    ArgsView {
        video_path,
        threshold: None,
        min_scene_length: None,
        filter_mode: FilterMode::Suppress,
        luma_only: false,
        verbose: false,
        show_video_info: false,
        output_format: OutputFormat::Simple,
    }
}

/// Reads the words from position `at` on into `so_far`. Each word is an
/// option; some options take the word after them as their value. The first
/// word that cannot be read ends the reading with a message.
pub open spec fn parse_from(words: Seq<Argument>, at: int, so_far: ArgsView) -> Result<
    ArgsView,
    Seq<char>,
>
    decreases words.len() - at,
{
    if at < 0 || at >= words.len() {
        Ok(so_far)
    } else {
        let word = words[at].text@;
        let has_value = at + 1 < words.len();
        if word == "--threshold"@ {
            if !has_value {
                Err("--threshold requires a value"@)
            } else {
                match words[at + 1].as_number {
                    None => Err("Invalid threshold value"@),
                    Some(threshold) => parse_from(
                        words,
                        at + 2,
                        ArgsView { threshold: Some(threshold), ..so_far },
                    ),
                }
            }
        } else if word == "--min-scene-length"@ {
            if !has_value {
                Err("--min-scene-length requires a value"@)
            } else {
                match words[at + 1].as_count {
                    None => Err("Invalid min-scene-length value"@),
                    Some(frames) => parse_from(
                        words,
                        at + 2,
                        ArgsView { min_scene_length: Some(frames), ..so_far },
                    ),
                }
            }
        } else if word == "--filter-mode"@ {
            if !has_value {
                Err("--filter-mode requires a value"@)
            } else if words[at + 1].text@ == "suppress"@ {
                parse_from(words, at + 2, ArgsView { filter_mode: FilterMode::Suppress, ..so_far })
            } else if words[at + 1].text@ == "merge"@ {
                parse_from(words, at + 2, ArgsView { filter_mode: FilterMode::Merge, ..so_far })
            } else {
                Err("Invalid filter mode. Use 'suppress' or 'merge'"@)
            }
        } else if word == "--format"@ {
            if !has_value {
                Err("--format requires a value"@)
            } else if words[at + 1].text@ == "simple"@ {
                parse_from(
                    words,
                    at + 2,
                    ArgsView { output_format: OutputFormat::Simple, ..so_far },
                )
            } else if words[at + 1].text@ == "detailed"@ {
                parse_from(
                    words,
                    at + 2,
                    ArgsView { output_format: OutputFormat::Detailed, ..so_far },
                )
            } else if words[at + 1].text@ == "json"@ {
                parse_from(words, at + 2, ArgsView { output_format: OutputFormat::Json, ..so_far })
            } else {
                Err("Invalid format. Use 'simple', 'detailed', or 'json'"@)
            }
        } else if word == "--luma-only"@ {
            parse_from(words, at + 1, ArgsView { luma_only: true, ..so_far })
        } else if word == "--verbose"@ {
            parse_from(words, at + 1, ArgsView { verbose: true, ..so_far })
        } else if word == "--info"@ {
            parse_from(words, at + 1, ArgsView { show_video_info: true, ..so_far })
        } else if word == "--help"@ {
            Err(help_text(words[0].text@))
        } else {
            Err("Unknown option: "@ + word)
        }
    }
}

/// What the command line asks for: the first word is the program's name,
/// the second the video, and the rest are options. Without a video, how the
/// program is used is the message.
pub open spec fn parsed(words: Seq<Argument>) -> Result<ArgsView, Seq<char>> {
    if words.len() < 2 {
        Err(usage_text(words[0].text@))
    } else {
        parse_from(words, 2, initial_args(words[1].text@))
    }
}

/// Whether the word is `word`.
fn is_word(text: &String, word: &str) -> (same: bool)
    ensures
        same == (text@ == word@),
{
    let wanted: String = String::from_str(word);
    *text == wanted
}

/// The message with which the reading of the command line ends.
fn refuse(message: &str) -> (result: Result<Args, String>)
    ensures
        result matches Err(text) && text@ == message@,
{
    Err(String::from_str(message))
}

/// Reads the command line. The first word is the program's name.
pub fn parse_args(args: &Vec<Argument>) -> (result: Result<Args, String>)
    requires
        args@.len() >= 1,
    ensures
        match parsed(args@) {
            Ok(options) => result matches Ok(read) && read@ == options,
            Err(message) => result matches Err(text) && text@ == message,
        },
{
    if args.len() < 2 {
        let program: &str = args[0].text.as_str();
        return Err(
            String::from_str("Usage: ").concat(program).concat(
                " <video_path> [OPTIONS]\n\nOptions:\n--threshold <value>      Detection threshold (default: 27.0)\n--min-scene-length <n>   Minimum frames between cuts (default: 15)\n--filter-mode <mode>     Filter mode: suppress|merge (default: suppress)\n--luma-only              Use only brightness changes\n--verbose                Enable debug logging\n--info                   Show video information only\n--format <fmt>           Output format: simple|detailed|json (default: simple)\n--help                   Show this help message\n\nExamples:\n",
            ).concat(program).concat(" video.mp4\n").concat(program).concat(
                " video.mp4 --threshold 30.0 --verbose\n",
            ).concat(program).concat(" video.mp4 --luma-only --format detailed"),
        );
    }
    let mut parsed_args: Args = Args::default();
    parsed_args.video_path = args[1].text.clone();
    let mut i: usize = 2;
    while i < args.len()
        invariant
            2 <= i <= args@.len() + 1,
            args@.len() >= 2,
            parse_from(args@, i as int, parsed_args@) == parsed(args@),
        decreases args@.len() + 1 - i,
    {
        let word: &String = &args[i].text;
        let has_value: bool = i + 1 < args.len();
        if is_word(word, "--threshold") {
            if !has_value {
                return refuse("--threshold requires a value");
            }
            match args[i + 1].as_number {
                None => {
                    return refuse("Invalid threshold value");
                },
                Some(threshold) => {
                    parsed_args.threshold = Some(threshold);
                },
            }
            i = i + 2;
        } else if is_word(word, "--min-scene-length") {
            if !has_value {
                return refuse("--min-scene-length requires a value");
            }
            match args[i + 1].as_count {
                None => {
                    return refuse("Invalid min-scene-length value");
                },
                Some(frames) => {
                    parsed_args.min_scene_length = Some(frames);
                },
            }
            i = i + 2;
        } else if is_word(word, "--filter-mode") {
            if !has_value {
                return refuse("--filter-mode requires a value");
            }
            let value: &String = &args[i + 1].text;
            if is_word(value, "suppress") {
                parsed_args.filter_mode = FilterMode::Suppress;
            } else if is_word(value, "merge") {
                parsed_args.filter_mode = FilterMode::Merge;
            } else {
                return refuse("Invalid filter mode. Use 'suppress' or 'merge'");
            }
            i = i + 2;
        } else if is_word(word, "--format") {
            if !has_value {
                return refuse("--format requires a value");
            }
            let value: &String = &args[i + 1].text;
            if is_word(value, "simple") {
                parsed_args.output_format = OutputFormat::Simple;
            } else if is_word(value, "detailed") {
                parsed_args.output_format = OutputFormat::Detailed;
            } else if is_word(value, "json") {
                parsed_args.output_format = OutputFormat::Json;
            } else {
                return refuse("Invalid format. Use 'simple', 'detailed', or 'json'");
            }
            i = i + 2;
        } else if is_word(word, "--luma-only") {
            parsed_args.luma_only = true;
            i = i + 1;
        } else if is_word(word, "--verbose") {
            parsed_args.verbose = true;
            i = i + 1;
        } else if is_word(word, "--info") {
            parsed_args.show_video_info = true;
            i = i + 1;
        } else if is_word(word, "--help") {
            return Err(
                String::from_str("Rust Scene Detection Tool\n\nUsage: ").concat(
                    args[0].text.as_str(),
                ).concat(
                    " <video_path> [OPTIONS]\n\nFinds the frames at which the scenes of a video change,\nby the change of content from each frame to the next.\n\nOptions:\n--threshold <value>      Detection threshold (default: 27.0)\n--min-scene-length <n>   Minimum frames between cuts (default: 15)\n--filter-mode <mode>     Filter mode: suppress|merge (default: suppress)\n--luma-only              Use only brightness changes (ignore color)\n--verbose                Enable debug logging and tracing\n--info                   Show video information only\n--format <fmt>           Output format: simple|detailed|json\n--help                   Show this help message",
                ),
            );
        } else {
            return Err(String::from_str("Unknown option: ").concat(word.as_str()));
        }
    }
    Ok(parsed_args)
}

} // verus!
