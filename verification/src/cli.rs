//! The command line.

use vstd::arithmetic::power2::{
    lemma2_to64, lemma_pow2_adds, lemma_pow2_strictly_increases, lemma_pow2_unfold, pow2,
};
use vstd::prelude::*;
use vstd::string::*;

use crate::capture::MAX_RESAMP_BUF;
use crate::gate::{
    accepted_gate_is_in_range, answers, default_gate_is_in_range, gate_for, gate_in_range,
    gate_is_read, gate_levels_are_as_named, gate_message, number_read, parse_gate_mode,
    reads_numbers, GateConfig, GateModeError, GateRefusal, ParsedDb,
};
use crate::lexer::{
    lexed_next, lexed_value, next_arg, option_value, parser_mode, parser_unread, unread_size,
    ArgShape, NextView, OptionValue, ShapeView, ValueView,
};
use crate::payload::{factor_number_counts_doublings, OversampleFactor, SlimOverride};
use crate::single::{magnitude_nonnegative, scaled_magnitude, Single};
use crate::text::{
    append_decimal, decimal, decimal_reads_back, digit_value, is_digit, lowercase,
    numbers_are_runs_of_digits, parse_u32, parse_usize, same_text, to_lowercase, trimmed,
    unsigned_value,
};

verus! {

/// Block size that leaves the choice to the audio server.
pub const BUFFER_SIZE_AUTO: u32 = 0;

/// Smallest block size.
pub const BUFFER_SIZE_MIN: u32 = 16;

/// Largest block size.
pub const BUFFER_SIZE_MAX: u32 = 8192;

/// Block size where none is asked for.
pub const BUFFER_SIZE_DEFAULT: u32 = 256;

/// Lowest gain: -96 dB.
pub const GAIN_MIN_DB_BITS: u32 = 0xC2C0_0000;

/// Highest gain: 30 dB.
pub const GAIN_MAX_DB_BITS: u32 = 0x41F0_0000;

/// Why a block size is refused.
#[derive(Clone, Copy, Debug, PartialEq, Eq, Structural)]
pub enum BufferSizeError {
    /// Too small.
    BelowMinimum {
        /// The size.
        size: u32,
    },
    /// Too large.
    AboveMaximum {
        /// The size.
        size: u32,
    },
    /// No power of two.
    NotPowerOfTwo {
        /// The size.
        size: u32,
    },
}

/// Whether a block size can be asked for: zero, or a power of two from 2^4 to
/// 2^13.
pub open spec fn buffer_size_accepted(size: int) -> bool {
    size == 0 || exists|k: nat| 4 <= k <= 13 && size == #[trigger] pow2(k)
}

/// The verdict on a block size.
pub open spec fn buffer_size_verdict(size: u32) -> Result<u32, BufferSizeError> {
    if buffer_size_accepted(size as int) {
        Ok(size)
    } else if size < BUFFER_SIZE_MIN {
        Err(BufferSizeError::BelowMinimum { size })
    } else if size > BUFFER_SIZE_MAX {
        Err(BufferSizeError::AboveMaximum { size })
    } else {
        Err(BufferSizeError::NotPowerOfTwo { size })
    }
}

/// Every accepted block size fits the buffers, which are sized for the largest.
pub proof fn accepted_size_fits_buffers(size: int)
    requires
        buffer_size_accepted(size),
    ensures
        size == 0 || BUFFER_SIZE_MIN <= size <= BUFFER_SIZE_MAX,
        BUFFER_SIZE_MAX == MAX_RESAMP_BUF,
{
    lemma2_to64();
    if size != 0 {
        let k = choose|k: nat| 4 <= k <= 13 && size == #[trigger] pow2(k);
        if k > 4 {
            lemma_pow2_strictly_increases(4, k);
        }
        if k < 13 {
            lemma_pow2_strictly_increases(k, 13);
        }
    }
}

fn is_power_of_two(size: u32) -> (r: bool)
    requires
        BUFFER_SIZE_MIN <= size <= BUFFER_SIZE_MAX,
    ensures
        r == buffer_size_accepted(size as int),
{
    let mut power: u32 = 16;
    let mut k: u32 = 4;
    proof {
        lemma2_to64();
    }
    while power < size
        invariant
            16 <= size <= 8192,
            4 <= k <= 13,
            power == pow2(k as nat),
            16 <= power <= 8192,
            forall|j: nat| 4 <= j < k ==> #[trigger] pow2(j) < size,
        decreases 13 - k,
    {
        proof {
            lemma_pow2_unfold((k + 1) as nat);
            lemma2_to64();
            if k < 12 {
                lemma_pow2_strictly_increases((k + 1) as nat, 13);
            }
        }
        power = power * 2;
        k = k + 1;
    }
    proof {
        assert forall|j: nat| 4 <= j <= 13 && size == #[trigger] pow2(j) implies j == k by {
            if j > k {
                lemma_pow2_strictly_increases(k as nat, j);
            }
        }
    }
    power == size
}

/// Checks a block size.
pub fn validate_buffer_size(size: u32) -> (r: Result<u32, BufferSizeError>)
    ensures
        r == buffer_size_verdict(size),
{
    proof {
        if buffer_size_accepted(size as int) {
            accepted_size_fits_buffers(size as int);
        }
    }
    if size == BUFFER_SIZE_AUTO {
        Ok(size)
    } else if size < BUFFER_SIZE_MIN {
        Err(BufferSizeError::BelowMinimum { size })
    } else if size > BUFFER_SIZE_MAX {
        Err(BufferSizeError::AboveMaximum { size })
    } else if !is_power_of_two(size) {
        Err(BufferSizeError::NotPowerOfTwo { size })
    } else {
        Ok(size)
    }
}

/// The message for a refused block size.
pub open spec fn buffer_size_message(e: BufferSizeError) -> Seq<char> {
    match e {
        BufferSizeError::BelowMinimum { size } => {
            "Buffer size must be at least 16 (or 0 for auto), got "@ + decimal(size as nat)
        },
        BufferSizeError::AboveMaximum { size } => {
            "Buffer size cannot exceed 8192 (max bridge capacity), got "@ + decimal(size as nat)
        },
        BufferSizeError::NotPowerOfTwo { size } => {
            "Buffer size must be a power of two (e.g. 64, 128, 256, 512, 1024, 2048, 4096, 8192), got "@
                + decimal(size as nat)
        },
    }
}

impl BufferSizeError {
    /// The message.
    pub fn message(&self) -> (r: String)
        ensures
            r@ == buffer_size_message(*self),
    {
        match *self {
            BufferSizeError::BelowMinimum { size } => {
                let mut out = "Buffer size must be at least 16 (or 0 for auto), got ".to_owned();
                append_decimal(&mut out, size as u64);
                out
            },
            BufferSizeError::AboveMaximum { size } => {
                let mut out =
                    "Buffer size cannot exceed 8192 (max bridge capacity), got ".to_owned();
                append_decimal(&mut out, size as u64);
                out
            },
            BufferSizeError::NotPowerOfTwo { size } => {
                let mut out =
                    "Buffer size must be a power of two (e.g. 64, 128, 256, 512, 1024, 2048, 4096, 8192), got ".to_owned();
                append_decimal(&mut out, size as u64);
                out
            },
        }
    }
}

/// How exactly activations are computed.
#[derive(Clone, Copy, Debug, PartialEq, Eq, Structural)]
pub enum ActivationPrecision {
    /// As exactly as the model was trained.
    Standard,
    /// Faster, less exactly.
    Fast,
}

/// The arguments.
#[derive(Debug, Clone)]
pub struct CliArgs {
    /// Model file.
    pub model_path: Option<String>,
    /// Impulse response file.
    pub cab_path: Option<String>,
    /// Input gain, in dB.
    pub input_gain: Single,
    /// Output gain, in dB.
    pub output_gain: Single,
    /// Block size.
    pub buffer_size: u32,
    /// Print a diagnosis and exit.
    pub diagnose: bool,
    /// The same, with full paths.
    pub diagnose_full: bool,
    /// Manual quality override.
    pub slim_override: SlimOverride,
    /// Oversampling.
    pub oversample: OversampleFactor,
    /// Activation precision, where one is asked for.
    pub activation: Option<ActivationPrecision>,
    /// Processor for the audio thread, where one is asked for.
    pub cpu: Option<usize>,
    /// Record the input.
    pub record: bool,
    /// Do not reconnect.
    pub fail_fast: bool,
    /// The silence gate.
    pub gate: GateConfig,
}

/// The arguments as mathematical value.
pub struct CliView {
    /// Model file.
    pub model_path: Option<Seq<char>>,
    /// Impulse response file.
    pub cab_path: Option<Seq<char>>,
    /// Input gain, in dB.
    pub input_gain: Single,
    /// Output gain, in dB.
    pub output_gain: Single,
    /// Block size.
    pub buffer_size: u32,
    /// Print a diagnosis and exit.
    pub diagnose: bool,
    /// The same, with full paths.
    pub diagnose_full: bool,
    /// Manual quality override.
    pub slim_override: SlimOverride,
    /// Oversampling.
    pub oversample: OversampleFactor,
    /// Activation precision, where one is asked for.
    pub activation: Option<ActivationPrecision>,
    /// Processor for the audio thread, where one is asked for.
    pub cpu: Option<usize>,
    /// Record the input.
    pub record: bool,
    /// Do not reconnect.
    pub fail_fast: bool,
    /// The silence gate.
    pub gate: GateConfig,
}

/// A text, if there is one, as mathematical value.
pub open spec fn text_view(s: Option<String>) -> Option<Seq<char>> {
    match s {
        Some(t) => Some(t@),
        None => None,
    }
}

impl View for CliArgs {
    type V = CliView;

    open spec fn view(&self) -> CliView {
        CliView {
            model_path: text_view(self.model_path),
            cab_path: text_view(self.cab_path),
            input_gain: self.input_gain,
            output_gain: self.output_gain,
            buffer_size: self.buffer_size,
            diagnose: self.diagnose,
            diagnose_full: self.diagnose_full,
            slim_override: self.slim_override,
            oversample: self.oversample,
            activation: self.activation,
            cpu: self.cpu,
            record: self.record,
            fail_fast: self.fail_fast,
            gate: self.gate,
        }
    }
}

/// The arguments where nothing is asked for.
pub open spec fn default_args() -> CliView {
    CliView {
        model_path: None,
        cab_path: None,
        input_gain: Single { bits: 0 },
        output_gain: Single { bits: 0 },
        buffer_size: BUFFER_SIZE_DEFAULT,
        diagnose: false,
        diagnose_full: false,
        slim_override: SlimOverride::Auto,
        oversample: OversampleFactor::Off,
        activation: None,
        cpu: None,
        record: false,
        fail_fast: false,
        gate: GateConfig::default_on_spec(),
    }
}

impl Default for CliArgs {
    fn default() -> (r: Self)
        ensures
            r@ == default_args(),
    {
        CliArgs {
            model_path: None,
            cab_path: None,
            input_gain: Single { bits: 0 },
            output_gain: Single { bits: 0 },
            buffer_size: BUFFER_SIZE_DEFAULT,
            diagnose: false,
            diagnose_full: false,
            slim_override: SlimOverride::Auto,
            oversample: OversampleFactor::Off,
            activation: None,
            cpu: None,
            record: false,
            fail_fast: false,
            gate: GateConfig::default_on(),
        }
    }
}

/// What an argument asks for.
#[derive(Clone, Copy, Debug, PartialEq, Eq, Structural)]
pub enum CliOption {
    /// The help text.
    Help,
    /// A diagnosis.
    Diagnose,
    /// A diagnosis with full paths.
    DiagnoseFull,
    /// Recording.
    Record,
    /// No reconnection.
    FailFast,
    /// A gate.
    Gate,
    /// A processor.
    Cpu,
    /// A quality override.
    Slim,
    /// Oversampling.
    Oversample,
    /// An activation precision.
    Activation,
    /// A model.
    Model,
    /// An impulse response.
    Cab,
    /// An input gain.
    InputGain,
    /// An output gain.
    OutputGain,
    /// A block size.
    BufferSize,
    /// Nothing known.
    Unknown,
}

/// What an argument asks for.
pub open spec fn option_of(shape: ShapeView) -> CliOption {
    match shape {
        ShapeView::Short(c) => if c == 'h' {
            CliOption::Help
        } else if c == 'm' {
            CliOption::Model
        } else if c == 'c' {
            CliOption::Cab
        } else if c == 'i' {
            CliOption::InputGain
        } else if c == 'o' {
            CliOption::OutputGain
        } else if c == 'b' {
            CliOption::BufferSize
        } else {
            CliOption::Unknown
        },
        ShapeView::Long(s) => if s == "help"@ {
            CliOption::Help
        } else if s == "diagnose"@ {
            CliOption::Diagnose
        } else if s == "diagnose-full"@ {
            CliOption::DiagnoseFull
        } else if s == "record"@ {
            CliOption::Record
        } else if s == "fail-fast"@ {
            CliOption::FailFast
        } else if s == "gate"@ {
            CliOption::Gate
        } else if s == "cpu"@ {
            CliOption::Cpu
        } else if s == "slim"@ {
            CliOption::Slim
        } else if s == "oversample"@ {
            CliOption::Oversample
        } else if s == "activation"@ {
            CliOption::Activation
        } else if s == "model"@ {
            CliOption::Model
        } else if s == "cab"@ {
            CliOption::Cab
        } else if s == "input-gain"@ {
            CliOption::InputGain
        } else if s == "output-gain"@ {
            CliOption::OutputGain
        } else if s == "buffer-size"@ {
            CliOption::BufferSize
        } else {
            CliOption::Unknown
        },
        ShapeView::Value => CliOption::Unknown,
    }
}

/// Finds what an argument asks for.
pub fn classify(shape: &ArgShape) -> (r: CliOption)
    ensures
        r == option_of(shape@),
{
    match shape {
        ArgShape::Short(c) => {
            let c = *c;
            if c == 'h' {
                CliOption::Help
            } else if c == 'm' {
                CliOption::Model
            } else if c == 'c' {
                CliOption::Cab
            } else if c == 'i' {
                CliOption::InputGain
            } else if c == 'o' {
                CliOption::OutputGain
            } else if c == 'b' {
                CliOption::BufferSize
            } else {
                CliOption::Unknown
            }
        },
        ArgShape::Long(name) => {
            let s = name.as_str();
            if same_text(s, "help") {
                CliOption::Help
            } else if same_text(s, "diagnose") {
                CliOption::Diagnose
            } else if same_text(s, "diagnose-full") {
                CliOption::DiagnoseFull
            } else if same_text(s, "record") {
                CliOption::Record
            } else if same_text(s, "fail-fast") {
                CliOption::FailFast
            } else if same_text(s, "gate") {
                CliOption::Gate
            } else if same_text(s, "cpu") {
                CliOption::Cpu
            } else if same_text(s, "slim") {
                CliOption::Slim
            } else if same_text(s, "oversample") {
                CliOption::Oversample
            } else if same_text(s, "activation") {
                CliOption::Activation
            } else if same_text(s, "model") {
                CliOption::Model
            } else if same_text(s, "cab") {
                CliOption::Cab
            } else if same_text(s, "input-gain") {
                CliOption::InputGain
            } else if same_text(s, "output-gain") {
                CliOption::OutputGain
            } else if same_text(s, "buffer-size") {
                CliOption::BufferSize
            } else {
                CliOption::Unknown
            }
        },
        ArgShape::Value => CliOption::Unknown,
    }
}

/// Why the arguments are refused.
#[derive(Debug)]
pub enum CliError {
    /// For the reason in this text.
    Text(String),
    /// A gain is out of range.
    GainOutOfRange {
        /// Whether it is the output gain.
        output: bool,
        /// The gain.
        value: Single,
    },
    /// The silence gate argument is refused.
    Gate(GateModeError),
}

/// Why the arguments are refused, as mathematical value.
pub enum ErrorView {
    /// For the reason in this text.
    Text(Seq<char>),
    /// A gain is out of range; true for the output gain.
    GainOutOfRange(bool, Single),
    /// The silence gate argument, without white space around it, is refused.
    Gate(Seq<char>, GateRefusal),
}

impl View for CliError {
    type V = ErrorView;

    open spec fn view(&self) -> ErrorView {
        match self {
            CliError::Text(s) => ErrorView::Text(s@),
            CliError::GainOutOfRange { output, value } => ErrorView::GainOutOfRange(
                *output,
                *value,
            ),
            CliError::Gate(e) => ErrorView::Gate(e.trimmed@, e.refusal),
        }
    }
}

/// The message for an error, `shown` being the refused level with one decimal.
pub open spec fn error_message(e: ErrorView, shown: Seq<char>) -> Seq<char> {
    match e {
        ErrorView::Text(s) => s,
        ErrorView::GainOutOfRange(output, _) => (if output {
            "Output gain ("@
        } else {
            "Input gain ("@
        }) + shown + " dB) out of range [-96.0, 30.0]."@,
        ErrorView::Gate(text, refusal) => gate_message(text, refusal, shown),
    }
}

impl CliError {
    /// The message, `shown` being the refused level with one decimal.
    pub fn message(&self, shown: &str) -> (r: String)
        ensures
            r@ == error_message(self@, shown@),
    {
        match self {
            CliError::Text(s) => s.clone(),
            CliError::GainOutOfRange { output, .. } => {
                let mut out = if *output {
                    "Output gain (".to_owned()
                } else {
                    "Input gain (".to_owned()
                };
                out.append(shown);
                out.append(" dB) out of range [-96.0, 30.0].");
                out
            },
            CliError::Gate(e) => e.message(shown),
        }
    }
}

/// The text between two others.
pub open spec fn between(start: Seq<char>, value: Seq<char>, end: Seq<char>) -> Seq<char> {
    start + value + end
}

fn text_error(start: &str, value: &str, end: &str) -> (r: CliError)
    ensures
        r@ == ErrorView::Text(between(start@, value@, end@)),
{
    let mut out = start.to_owned();
    out.append(value);
    out.append(end);
    CliError::Text(out)
}

/// The message where a value is no text.
pub open spec fn not_unicode_message(option: CliOption) -> Seq<char> {
    match option {
        CliOption::Gate => "Invalid gate mode value."@,
        CliOption::Cpu => "Invalid CPU index value."@,
        CliOption::Slim => "Invalid slim override value."@,
        CliOption::Oversample => "Invalid oversample value."@,
        CliOption::Activation => "Invalid activation precision value."@,
        CliOption::Model => "Invalid model path (UTF-8)."@,
        CliOption::Cab => "Invalid cab IR path (UTF-8)."@,
        CliOption::InputGain => "Invalid input gain value."@,
        CliOption::OutputGain => "Invalid output gain value."@,
        _ => "Invalid buffer size value."@,
    }
}

fn not_unicode_error(option: CliOption) -> (r: CliError)
    ensures
        r@ == ErrorView::Text(not_unicode_message(option)),
{
    let text = match option {
        CliOption::Gate => "Invalid gate mode value.",
        CliOption::Cpu => "Invalid CPU index value.",
        CliOption::Slim => "Invalid slim override value.",
        CliOption::Oversample => "Invalid oversample value.",
        CliOption::Activation => "Invalid activation precision value.",
        CliOption::Model => "Invalid model path (UTF-8).",
        CliOption::Cab => "Invalid cab IR path (UTF-8).",
        CliOption::InputGain => "Invalid input gain value.",
        CliOption::OutputGain => "Invalid output gain value.",
        _ => "Invalid buffer size value.",
    };
    CliError::Text(text.to_owned())
}

/// Whether a path is relative to the home directory.
pub open spec fn starts_at_home(path: Seq<char>) -> bool {
    path.len() >= 2 && path[0] == '~' && path[1] == '/'
}

/// A path with a leading `~/` resolved, where the home directory is known.
pub open spec fn expanded(path: Seq<char>, home: Option<Seq<char>>) -> Seq<char> {
    if starts_at_home(path) && home is Some {
        home->0 + path.subrange(1, path.len() as int)
    } else {
        path
    }
}

/// Resolves a leading `~/`, where the home directory is known.
pub fn expand_home(path: &str, home: Option<&str>) -> (r: String)
    ensures
        r@ == expanded(
            path@,
            match home {
                Some(h) => Some(h@),
                None => None,
            },
        ),
{
    let n = path.unicode_len();
    if n >= 2 && path.get_char(0) == '~' && path.get_char(1) == '/' {
        if let Some(h) = home {
            let mut out = h.to_owned();
            out.append(path.substring_char(1, n));
            return out;
        }
    }
    path.to_owned()
}

/// A quality override by its name.
pub open spec fn slim_named(lower: Seq<char>) -> Option<SlimOverride> {
    if lower == "auto"@ {
        Some(SlimOverride::Auto)
    } else if lower == "full"@ {
        Some(SlimOverride::ForceFull)
    } else if lower == "lite"@ {
        Some(SlimOverride::ForceLite)
    } else {
        None
    }
}

/// An oversampling factor by its name.
pub open spec fn oversample_named(lower: Seq<char>) -> Option<OversampleFactor> {
    if lower == "off"@ || lower == "0"@ {
        Some(OversampleFactor::Off)
    } else if lower == "2x"@ || lower == "2"@ {
        Some(OversampleFactor::X2)
    } else if lower == "4x"@ || lower == "4"@ {
        Some(OversampleFactor::X4)
    } else {
        None
    }
}

/// An activation precision by its name.
pub open spec fn activation_named(lower: Seq<char>) -> Option<ActivationPrecision> {
    if lower == "standard"@ || lower == "std"@ {
        Some(ActivationPrecision::Standard)
    } else if lower == "fast"@ {
        Some(ActivationPrecision::Fast)
    } else {
        None
    }
}

/// Whether a gain lies in the accepted range.
pub open spec fn gain_accepted(gain: Single) -> bool {
    Single { bits: GAIN_MIN_DB_BITS }.le_spec(gain) && gain.le_spec(
        Single { bits: GAIN_MAX_DB_BITS },
    )
}

/// The gain that a text writes, numbers being read by `read`.
pub open spec fn gain_for<F: Fn(&str) -> Option<ParsedDb>>(
    output: bool,
    value: Seq<char>,
    read: F,
) -> Result<Single, ErrorView> {
    match number_read(read, value) {
        None => Err(
            ErrorView::Text(
                between(
                    if output {
                        "Invalid output gain: '"@
                    } else {
                        "Invalid input gain: '"@
                    },
                    value,
                    "'. Must be a number."@,
                ),
            ),
        ),
        Some(p) => if gain_accepted(p.value) {
            Ok(p.value)
        } else {
            Err(ErrorView::GainOutOfRange(output, p.value))
        },
    }
}

/// Reads a gain.
pub fn parse_gain<F: Fn(&str) -> Option<ParsedDb>>(output: bool, value: &str, read: &F) -> (r: Result<
    Single,
    CliError,
>)
    requires
        reads_numbers(*read),
    ensures
        match r {
            Ok(g) => gain_for(output, value@, *read) == Ok::<Single, ErrorView>(g),
            Err(e) => gain_for(output, value@, *read) == Err::<Single, ErrorView>(e@),
        },
{
    let parsed = read(value);
    proof {
        let p = number_read(*read, value@);
        assert(answers(*read, value@, parsed));
        assert(answers(*read, value@, p));
    }
    match parsed {
        None => {
            let start = if output {
                "Invalid output gain: '"
            } else {
                "Invalid input gain: '"
            };
            Err(text_error(start, value, "'. Must be a number."))
        },
        Some(p) => {
            let low = Single { bits: GAIN_MIN_DB_BITS };
            let high = Single { bits: GAIN_MAX_DB_BITS };
            if low.le(p.value) && p.value.le(high) {
                Ok(p.value)
            } else {
                Err(CliError::GainOutOfRange { output, value: p.value })
            }
        },
    }
}

/// Whether the block size, the gains and the silence gate are acceptable.
#[verifier::opaque]
pub open spec fn args_in_range(v: CliView) -> bool {
    &&& buffer_size_accepted(v.buffer_size as int)
    &&& gain_accepted(v.input_gain)
    &&& gain_accepted(v.output_gain)
    &&& gate_in_range(v.gate)
}

proof fn default_args_in_range()
    ensures
        args_in_range(default_args()),
{
    reveal(args_in_range);
    lemma2_to64();
    assert(buffer_size_accepted(pow2(8) as int));
    magnitude_nonnegative(0x42C0_0000);
    magnitude_nonnegative(0x41F0_0000);
    assert(scaled_magnitude(0) == 0);
    default_gate_is_in_range();
}

/// The arguments after an option with a value, or why the value is refused.
pub open spec fn value_applied<F: Fn(&str) -> Option<ParsedDb>>(
    option: CliOption,
    value: Seq<char>,
    home: Option<Seq<char>>,
    read: F,
    v: CliView,
) -> Result<CliView, ErrorView> {
    let lower = lowercase(value);
    match option {
        CliOption::Gate => match gate_for(value, read) {
            Ok(g) => Ok(CliView { gate: g, ..v }),
            Err(refusal) => Err(ErrorView::Gate(trimmed(value), refusal)),
        },
        CliOption::Cpu => match unsigned_value(value, usize::MAX as int) {
            Some(n) => Ok(CliView { cpu: Some(n as usize), ..v }),
            None => Err(
                ErrorView::Text(
                    between(
                        "Invalid CPU index: '"@,
                        value,
                        "'. Must be a non-negative integer."@,
                    ),
                ),
            ),
        },
        CliOption::Slim => match slim_named(lower) {
            Some(x) => Ok(CliView { slim_override: x, ..v }),
            None => Err(
                ErrorView::Text(
                    between(
                        "Invalid slim override: '"@,
                        lower,
                        "'. Expected 'auto', 'full', or 'lite'."@,
                    ),
                ),
            ),
        },
        CliOption::Oversample => match oversample_named(lower) {
            Some(x) => Ok(CliView { oversample: x, ..v }),
            None => Err(
                ErrorView::Text(
                    between(
                        "Invalid oversample factor: '"@,
                        lower,
                        "'. Expected 'off', '2x', or '4x'."@,
                    ),
                ),
            ),
        },
        CliOption::Activation => match activation_named(lower) {
            Some(x) => Ok(CliView { activation: Some(x), ..v }),
            None => Err(
                ErrorView::Text(
                    between(
                        "Invalid activation precision: '"@,
                        lower,
                        "'. Expected 'standard' or 'fast'."@,
                    ),
                ),
            ),
        },
        CliOption::Model => Ok(CliView { model_path: Some(expanded(value, home)), ..v }),
        CliOption::Cab => Ok(CliView { cab_path: Some(expanded(value, home)), ..v }),
        CliOption::InputGain => match gain_for(false, value, read) {
            Ok(g) => Ok(CliView { input_gain: g, ..v }),
            Err(e) => Err(e),
        },
        CliOption::OutputGain => match gain_for(true, value, read) {
            Ok(g) => Ok(CliView { output_gain: g, ..v }),
            Err(e) => Err(e),
        },
        CliOption::BufferSize => match unsigned_value(value, u32::MAX as int) {
            Some(n) => match buffer_size_verdict(n as u32) {
                Ok(_) => Ok(CliView { buffer_size: n as u32, ..v }),
                Err(e) => Err(ErrorView::Text(buffer_size_message(e))),
            },
            None => Err(
                ErrorView::Text(
                    between("Invalid buffer size: '"@, value, "'. Must be an integer."@),
                ),
            ),
        },
        _ => Ok(v),
    }
}

/// Applies an option with a value to the arguments.
pub fn apply_value<F: Fn(&str) -> Option<ParsedDb>>(
    option: CliOption,
    value: &str,
    home: Option<&str>,
    read: &F,
    args: &mut CliArgs,
) -> (r: Result<(), CliError>)
    requires
        reads_numbers(*read),
    ensures
        ({
            let h = match home {
                Some(x) => Some(x@),
                None => None,
            };
            match r {
                Ok(_) => value_applied(option, value@, h, *read, old(args)@) == Ok::<
                    CliView,
                    ErrorView,
                >(final(args)@),
                Err(e) => value_applied(option, value@, h, *read, old(args)@) == Err::<
                    CliView,
                    ErrorView,
                >(e@) && final(args)@ == old(args)@,
            }
        }),
        args_in_range(old(args)@) ==> args_in_range(final(args)@),
        gate_is_read(old(args).gate, *read) ==> gate_is_read(final(args).gate, *read),
{
    proof {
        reveal(args_in_range);
        accepted_gate_is_in_range(value@, *read);
    }
    match option {
        CliOption::Gate => match parse_gate_mode(value, read) {
            Ok(g) => {
                args.gate = g;
                Ok(())
            },
            Err(e) => Err(CliError::Gate(e)),
        },
        CliOption::Cpu => match parse_usize(value) {
            Some(n) => {
                args.cpu = Some(n);
                Ok(())
            },
            None => Err(
                text_error("Invalid CPU index: '", value, "'. Must be a non-negative integer."),
            ),
        },
        CliOption::Slim => {
            let lowered = to_lowercase(value);
            let lower = lowered.as_str();
            if same_text(lower, "auto") {
                args.slim_override = SlimOverride::Auto;
                Ok(())
            } else if same_text(lower, "full") {
                args.slim_override = SlimOverride::ForceFull;
                Ok(())
            } else if same_text(lower, "lite") {
                args.slim_override = SlimOverride::ForceLite;
                Ok(())
            } else {
                Err(
                    text_error(
                        "Invalid slim override: '",
                        lower,
                        "'. Expected 'auto', 'full', or 'lite'.",
                    ),
                )
            }
        },
        CliOption::Oversample => {
            let lowered = to_lowercase(value);
            let lower = lowered.as_str();
            if same_text(lower, "off") || same_text(lower, "0") {
                args.oversample = OversampleFactor::Off;
                Ok(())
            } else if same_text(lower, "2x") || same_text(lower, "2") {
                args.oversample = OversampleFactor::X2;
                Ok(())
            } else if same_text(lower, "4x") || same_text(lower, "4") {
                args.oversample = OversampleFactor::X4;
                Ok(())
            } else {
                Err(
                    text_error(
                        "Invalid oversample factor: '",
                        lower,
                        "'. Expected 'off', '2x', or '4x'.",
                    ),
                )
            }
        },
        CliOption::Activation => {
            let lowered = to_lowercase(value);
            let lower = lowered.as_str();
            if same_text(lower, "standard") || same_text(lower, "std") {
                args.activation = Some(ActivationPrecision::Standard);
                Ok(())
            } else if same_text(lower, "fast") {
                args.activation = Some(ActivationPrecision::Fast);
                Ok(())
            } else {
                Err(
                    text_error(
                        "Invalid activation precision: '",
                        lower,
                        "'. Expected 'standard' or 'fast'.",
                    ),
                )
            }
        },
        CliOption::Model => {
            args.model_path = Some(expand_home(value, home));
            Ok(())
        },
        CliOption::Cab => {
            args.cab_path = Some(expand_home(value, home));
            Ok(())
        },
        CliOption::InputGain => match parse_gain(false, value, read) {
            Ok(g) => {
                args.input_gain = g;
                Ok(())
            },
            Err(e) => Err(e),
        },
        CliOption::OutputGain => match parse_gain(true, value, read) {
            Ok(g) => {
                args.output_gain = g;
                Ok(())
            },
            Err(e) => Err(e),
        },
        CliOption::BufferSize => match parse_u32(value) {
            Some(n) => match validate_buffer_size(n) {
                Ok(_) => {
                    args.buffer_size = n;
                    Ok(())
                },
                Err(e) => Err(CliError::Text(e.message())),
            },
            None => Err(text_error("Invalid buffer size: '", value, "'. Must be an integer.")),
        },
        _ => Ok(()),
    }
}

/// The arguments after an option without a value.
pub open spec fn flag_applied(option: CliOption, v: CliView) -> CliView {
    match option {
        CliOption::Diagnose => CliView { diagnose: true, ..v },
        CliOption::DiagnoseFull => CliView { diagnose_full: true, ..v },
        CliOption::Record => CliView { record: true, ..v },
        CliOption::FailFast => CliView { fail_fast: true, ..v },
        _ => v,
    }
}

/// Whether the option is one of those without a value.
pub open spec fn is_flag(option: CliOption) -> bool {
    option is Diagnose || option is DiagnoseFull || option is Record || option is FailFast
}

/// Applies an option without a value. Returns whether it is one.
pub fn apply_flag(option: CliOption, args: &mut CliArgs) -> (r: bool)
    ensures
        r == is_flag(option),
        final(args)@ == flag_applied(option, old(args)@),
        final(args).gate == old(args).gate,
        args_in_range(old(args)@) ==> args_in_range(final(args)@),
{
    proof {
        reveal(args_in_range);
    }
    match option {
        CliOption::Diagnose => {
            args.diagnose = true;
            true
        },
        CliOption::DiagnoseFull => {
            args.diagnose_full = true;
            true
        },
        CliOption::Record => {
            args.record = true;
            true
        },
        CliOption::FailFast => {
            args.fail_fast = true;
            true
        },
        _ => false,
    }
}

/// Why no arguments come back.
#[derive(Debug)]
pub enum CliExit {
    /// The help text is wanted, or nothing was asked for.
    Help,
    /// The arguments are refused.
    Error(CliError),
}

/// Why no arguments come back, as mathematical value.
pub enum ExitView {
    /// The help text is wanted, or nothing was asked for.
    Help,
    /// The arguments are refused.
    Error(ErrorView),
}

impl View for CliExit {
    type V = ExitView;

    open spec fn view(&self) -> ExitView {
        match self {
            CliExit::Help => ExitView::Help,
            CliExit::Error(e) => ExitView::Error(e@),
        }
    }
}

/// The outcome of reading the rest of a command line. The two comparisons hold
/// of every parser, since an argument uses up some of what is unread; their
/// other branches are never taken.
pub open spec fn parse_rest<F: Fn(&str) -> Option<ParsedDb>>(
    unread: Seq<Seq<u8>>,
    mode: Seq<u8>,
    has_args: bool,
    v: CliView,
    home: Option<Seq<char>>,
    read: F,
) -> Result<CliView, ExitView>
    decreases unread_size(unread),
{
    let (found, unread1, mode1) = lexed_next(unread, mode);
    match found {
        NextView::End => if has_args {
            Ok(v)
        } else {
            Err(ExitView::Help)
        },
        NextView::Bad(e) => Err(ExitView::Error(ErrorView::Text(e))),
        NextView::Item(shape, refusal) => {
            let option = option_of(shape);
            if option is Help {
                Err(ExitView::Help)
            } else if option is Unknown {
                Err(ExitView::Error(ErrorView::Text(refusal)))
            } else if is_flag(option) {
                if unread_size(unread1) < unread_size(unread) {
                    parse_rest(unread1, mode1, true, flag_applied(option, v), home, read)
                } else {
                    Err(ExitView::Help)
                }
            } else {
                let (value, unread2, mode2) = lexed_value(unread1, mode1);
                match value {
                    ValueView::Missing(e) => Err(ExitView::Error(ErrorView::Text(e))),
                    ValueView::NotUnicode => Err(
                        ExitView::Error(ErrorView::Text(not_unicode_message(option))),
                    ),
                    ValueView::Text(t) => match value_applied(option, t, home, read, v) {
                        Err(e) => Err(ExitView::Error(e)),
                        Ok(w) => if unread_size(unread2) < unread_size(unread) {
                            parse_rest(unread2, mode2, true, w, home, read)
                        } else {
                            Err(ExitView::Help)
                        },
                    },
                }
            }
        },
    }
}

/// Whether a command line begins with a known option other than the one for
/// help.
pub open spec fn gives_an_option(unread: Seq<Seq<u8>>, mode: Seq<u8>) -> bool {
    lexed_next(unread, mode).0 matches NextView::Item(shape, _) && !(option_of(shape) is Help)
        && !(option_of(shape) is Unknown)
}

/// Reads a command line. `home` is the home directory, where it is known, and
/// `read` turns the text of a number into a number. Whatever the command line
/// holds, accepted arguments come with an option and have an acceptable block
/// size, gains and silence gate.
pub fn parse_args_from<F: Fn(&str) -> Option<ParsedDb>>(
    parser: lexopt::Parser,
    home: Option<&str>,
    read: &F,
) -> (r: Result<CliArgs, CliExit>)
    requires
        reads_numbers(*read),
    ensures
        ({
            let h = match home {
                Some(x) => Some(x@),
                None => None,
            };
            let outcome = parse_rest(
                parser_unread(parser),
                parser_mode(parser),
                false,
                default_args(),
                h,
                *read,
            );
            match r {
                Ok(args) => {
                    &&& outcome == Ok::<CliView, ExitView>(args@)
                    &&& args_in_range(args@)
                    &&& gate_is_read(args.gate, *read)
                    &&& gives_an_option(parser_unread(parser), parser_mode(parser))
                },
                Err(e) => outcome == Err::<CliView, ExitView>(e@),
            }
        }),
{
    let mut p = parser;
    let mut args = CliArgs::default();
    let mut has_args = false;
    proof {
        default_args_in_range();
    }
    let ghost h = match home {
        Some(x) => Some(x@),
        None => None,
    };
    let ghost outcome = parse_rest(
        parser_unread(p),
        parser_mode(p),
        false,
        default_args(),
        h,
        *read,
    );
    loop
        invariant
            reads_numbers(*read),
            args_in_range(args@),
            gate_is_read(args.gate, *read),
            has_args ==> gives_an_option(parser_unread(parser), parser_mode(parser)),
            !has_args ==> parser_unread(p) == parser_unread(parser) && parser_mode(p)
                == parser_mode(parser),
            h == (match home {
                Some(x) => Some(x@),
                None => None,
            }),
            outcome == parse_rest(parser_unread(p), parser_mode(p), has_args, args@, h, *read),
            outcome == parse_rest(
                parser_unread(parser),
                parser_mode(parser),
                false,
                default_args(),
                h,
                *read,
            ),
        decreases unread_size(parser_unread(p)),
    {
        let found = next_arg(&mut p);
        let arg = match found {
            Ok(Some(arg)) => arg,
            Ok(None) => {
                if has_args {
                    return Ok(args);
                }
                return Err(CliExit::Help);
            },
            Err(e) => {
                return Err(CliExit::Error(CliError::Text(e)));
            },
        };
        has_args = true;
        let option = classify(&arg.shape);
        match option {
            CliOption::Help => {
                return Err(CliExit::Help);
            },
            CliOption::Unknown => {
                return Err(CliExit::Error(CliError::Text(arg.refusal)));
            },
            _ => {},
        }
        if apply_flag(option, &mut args) {
            continue;
        }
        match option_value(&mut p) {
            OptionValue::Missing(e) => {
                return Err(CliExit::Error(CliError::Text(e)));
            },
            OptionValue::NotUnicode => {
                return Err(CliExit::Error(not_unicode_error(option)));
            },
            OptionValue::Text(text) => {
                match apply_value(option, text.as_str(), home, read, &mut args) {
                    Ok(_) => {},
                    Err(e) => {
                        return Err(CliExit::Error(e));
                    },
                }
            },
        }
    }
}

/// The long name of an option; none for an unknown one.
pub open spec fn long_name(option: CliOption) -> Seq<char> {
    match option {
        CliOption::Help => "help"@,
        CliOption::Diagnose => "diagnose"@,
        CliOption::DiagnoseFull => "diagnose-full"@,
        CliOption::Record => "record"@,
        CliOption::FailFast => "fail-fast"@,
        CliOption::Gate => "gate"@,
        CliOption::Cpu => "cpu"@,
        CliOption::Slim => "slim"@,
        CliOption::Oversample => "oversample"@,
        CliOption::Activation => "activation"@,
        CliOption::Model => "model"@,
        CliOption::Cab => "cab"@,
        CliOption::InputGain => "input-gain"@,
        CliOption::OutputGain => "output-gain"@,
        CliOption::BufferSize => "buffer-size"@,
        CliOption::Unknown => Seq::empty(),
    }
}

/// Every option is found under its long name and under no other, and a short
/// name is the first letter of the long one: for help, the model, the impulse
/// response, the two gains and the block size.
pub proof fn options_are_found_by_their_names(option: CliOption, s: Seq<char>, c: char)
    requires
        !(option is Unknown),
    ensures
        option_of(ShapeView::Long(s)) == option ==> s == long_name(option),
        option_of(ShapeView::Long(long_name(option))) == option,
        option_of(ShapeView::Short(c)) == option ==> c == long_name(option)[0],
        option is Help || option is Model || option is Cab || option is InputGain || option
            is OutputGain || option is BufferSize ==> option_of(
            ShapeView::Short(long_name(option)[0]),
        ) == option,
        !(option is Help || option is Model || option is Cab || option is InputGain || option
            is OutputGain || option is BufferSize) ==> option_of(ShapeView::Short(c)) != option,
        option_of(ShapeView::Value) is Unknown,
{
    reveal_strlit("help");
    reveal_strlit("diagnose");
    reveal_strlit("diagnose-full");
    reveal_strlit("record");
    reveal_strlit("fail-fast");
    reveal_strlit("gate");
    reveal_strlit("cpu");
    reveal_strlit("slim");
    reveal_strlit("oversample");
    reveal_strlit("activation");
    reveal_strlit("model");
    reveal_strlit("cab");
    reveal_strlit("input-gain");
    reveal_strlit("output-gain");
    reveal_strlit("buffer-size");
    assert("help"@.len() == 4);
    assert("diagnose"@.len() == 8);
    assert("diagnose-full"@.len() == 13);
    assert("record"@.len() == 6);
    assert("fail-fast"@.len() == 9);
    assert("gate"@.len() == 4);
    assert("cpu"@.len() == 3);
    assert("slim"@.len() == 4);
    assert("oversample"@.len() == 10);
    assert("activation"@.len() == 10);
    assert("model"@.len() == 5);
    assert("cab"@.len() == 3);
    assert("input-gain"@.len() == 10);
    assert("output-gain"@.len() == 11);
    assert("buffer-size"@.len() == 11);
    assert("help"@[0] == 'h' && "gate"@[0] == 'g' && "slim"@[0] == 's');
    assert("cpu"@[1] == 'p' && "cab"@[1] == 'a' && "cpu"@[0] == 'c' && "cab"@[0] == 'c');
    assert("oversample"@[0] == 'o' && "activation"@[0] == 'a' && "input-gain"@[0] == 'i');
    assert("output-gain"@[0] == 'o' && "buffer-size"@[0] == 'b' && "model"@[0] == 'm');
}

/// The value of `--oversample` names the factor by its digit: `2` or `2x` twice
/// the rate, `4` or `4x` four times, `0` or `off` none, in any case; nothing else
/// is accepted.
pub proof fn oversample_value_names_its_factor<F: Fn(&str) -> Option<ParsedDb>>(
    value: Seq<char>,
    home: Option<Seq<char>>,
    read: F,
    v: CliView,
)
    ensures
        ({
            let w = lowercase(value);
            let r = value_applied(CliOption::Oversample, value, home, read, v);
            let off = w == seq!['o', 'f', 'f'] || w == seq!['0'];
            let twice = w == seq!['2', 'x'] || w == seq!['2'];
            let four = w == seq!['4', 'x'] || w == seq!['4'];
            &&& r is Ok <==> off || twice || four
            &&& r is Ok ==> r->Ok_0 == CliView { oversample: r->Ok_0.oversample, ..v }
            &&& off ==> pow2(r->Ok_0.oversample.code_spec() as nat) == 1
            &&& twice ==> r->Ok_0.oversample is X2
            &&& four ==> r->Ok_0.oversample is X4
            &&& off ==> r->Ok_0.oversample is Off
            &&& r is Ok && is_digit(w[0]) && w[0] != '0' ==> pow2(
                r->Ok_0.oversample.code_spec() as nat,
            ) == digit_value(w[0])
        }),
{
    let r = value_applied(CliOption::Oversample, value, home, read, v);
    if r is Ok {
        factor_number_counts_doublings(r->Ok_0.oversample);
    }
    reveal_strlit("off");
    reveal_strlit("0");
    reveal_strlit("2x");
    reveal_strlit("2");
    reveal_strlit("4x");
    reveal_strlit("4");
    assert("off"@ =~= seq!['o', 'f', 'f']);
    assert("0"@ =~= seq!['0']);
    assert("2x"@ =~= seq!['2', 'x']);
    assert("2"@ =~= seq!['2']);
    assert("4x"@ =~= seq!['4', 'x']);
    assert("4"@ =~= seq!['4']);
    assert("off"@.len() == 3 && "2x"@.len() == 2 && "4x"@.len() == 2);
    assert("0"@.len() == 1 && "2"@.len() == 1 && "4"@.len() == 1);
    assert("0"@[0] == '0' && "2"@[0] == '2' && "4"@[0] == '4');
    assert("off"@[0] == 'o' && "2x"@[0] == '2' && "4x"@[0] == '4');
}

/// The value of `--slim` is `auto`, `full` or `lite`, and that of `--activation`
/// is `standard`, `std` or `fast`, in any case; each selects what it names, and
/// nothing else is accepted.
pub proof fn quality_values_select_what_they_name<F: Fn(&str) -> Option<ParsedDb>>(
    value: Seq<char>,
    home: Option<Seq<char>>,
    read: F,
    v: CliView,
)
    ensures
        ({
            let w = lowercase(value);
            let r = value_applied(CliOption::Slim, value, home, read, v);
            let auto = w == seq!['a', 'u', 't', 'o'];
            let full = w == seq!['f', 'u', 'l', 'l'];
            let lite = w == seq!['l', 'i', 't', 'e'];
            &&& r is Ok <==> auto || full || lite
            &&& r is Ok ==> r->Ok_0 == CliView { slim_override: r->Ok_0.slim_override, ..v }
            &&& auto ==> r->Ok_0.slim_override is Auto
            &&& full ==> r->Ok_0.slim_override is ForceFull
            &&& lite ==> r->Ok_0.slim_override is ForceLite
        }),
        ({
            let w = lowercase(value);
            let r = value_applied(CliOption::Activation, value, home, read, v);
            let standard = w == seq!['s', 't', 'a', 'n', 'd', 'a', 'r', 'd'] || w == seq![
                's',
                't',
                'd',
            ];
            let fast = w == seq!['f', 'a', 's', 't'];
            &&& r is Ok <==> standard || fast
            &&& r is Ok ==> r->Ok_0 == CliView { activation: r->Ok_0.activation, ..v }
            &&& standard ==> r->Ok_0.activation == Some(ActivationPrecision::Standard)
            &&& fast ==> r->Ok_0.activation == Some(ActivationPrecision::Fast)
        }),
{
    reveal_strlit("auto");
    reveal_strlit("full");
    reveal_strlit("lite");
    reveal_strlit("standard");
    reveal_strlit("std");
    reveal_strlit("fast");
    assert("auto"@ =~= seq!['a', 'u', 't', 'o']);
    assert("full"@ =~= seq!['f', 'u', 'l', 'l']);
    assert("lite"@ =~= seq!['l', 'i', 't', 'e']);
    assert("standard"@ =~= seq!['s', 't', 'a', 'n', 'd', 'a', 'r', 'd']);
    assert("std"@ =~= seq!['s', 't', 'd']);
    assert("fast"@ =~= seq!['f', 'a', 's', 't']);
}

/// The highest and the lowest gain are what they are named: 30 and -96, in units
/// of 2^-149.
pub proof fn gain_limits_are_as_named()
    ensures
        (Single { bits: GAIN_MIN_DB_BITS }).scaled() == -96 * pow2(149),
        (Single { bits: GAIN_MAX_DB_BITS }).scaled() == 30 * pow2(149),
{
    lemma2_to64();
    lemma_pow2_adds(17, 132);
    lemma_pow2_adds(19, 130);
    assert(131072 * pow2(132) == pow2(149));
    assert(524288 * pow2(130) == pow2(149));
    assert(scaled_magnitude(0x42C0_0000) == 0xC0_0000 * pow2(132));
    assert(scaled_magnitude(0x41F0_0000) == 0xF0_0000 * pow2(130));
}

/// A gain is taken exactly where the text is a number from -96 to 30; it is then
/// that number, for the side that the option names.
pub proof fn gains_are_taken_as_written<F: Fn(&str) -> Option<ParsedDb>>(
    value: Seq<char>,
    home: Option<Seq<char>>,
    read: F,
    v: CliView,
)
    ensures
        ({
            let number = number_read(read, value);
            let fits = number is Some && !number->0.value.is_nan_spec() && -96 * pow2(149)
                <= number->0.value.scaled() <= 30 * pow2(149);
            let i = value_applied(CliOption::InputGain, value, home, read, v);
            let o = value_applied(CliOption::OutputGain, value, home, read, v);
            &&& i is Ok <==> fits
            &&& o is Ok <==> fits
            &&& fits ==> i->Ok_0 == CliView { input_gain: number->0.value, ..v }
            &&& fits ==> o->Ok_0 == CliView { output_gain: number->0.value, ..v }
            &&& number is Some && !fits ==> i->Err_0 == ErrorView::GainOutOfRange(
                false,
                number->0.value,
            ) && o->Err_0 == ErrorView::GainOutOfRange(true, number->0.value)
            &&& number is None ==> i->Err_0 is Text && o->Err_0 is Text
        }),
{
    gain_limits_are_as_named();
}

/// A number written out selects itself: as block size where it is acceptable, as
/// processor where it is a number of the machine's width; a block size that is
/// not acceptable, and what is no number, are refused.
pub proof fn written_numbers_select_themselves<F: Fn(&str) -> Option<ParsedDb>>(
    n: nat,
    value: Seq<char>,
    home: Option<Seq<char>>,
    read: F,
    v: CliView,
)
    ensures
        ({
            let b = value_applied(CliOption::BufferSize, decimal(n), home, read, v);
            let c = value_applied(CliOption::Cpu, decimal(n), home, read, v);
            &&& n <= u32::MAX && buffer_size_accepted(n as int) ==> b == Ok::<CliView, ErrorView>(
                CliView { buffer_size: n as u32, ..v },
            )
            &&& !buffer_size_accepted(n as int) || n > u32::MAX ==> b is Err
            &&& n <= usize::MAX ==> c == Ok::<CliView, ErrorView>(
                CliView { cpu: Some(n as usize), ..v },
            )
            &&& n > usize::MAX ==> c is Err
        }),
        ({
            let b = value_applied(CliOption::BufferSize, value, home, read, v);
            let c = value_applied(CliOption::Cpu, value, home, read, v);
            &&& value.len() == 0 || !(value[0] == '+' || is_digit(value[0])) || !is_digit(
                value.last(),
            ) ==> b is Err && c is Err
            &&& b is Ok ==> buffer_size_accepted(b->Ok_0.buffer_size as int)
        }),
{
    decimal_reads_back(n);
    assert(is_digit(decimal(n)[0]));
    numbers_are_runs_of_digits(value, u32::MAX as int);
    numbers_are_runs_of_digits(value, usize::MAX as int);
}

/// A path is taken as written, but for a leading `~/`, which stands for the home
/// directory where that is known; the model's and the response's are kept apart.
pub proof fn paths_are_taken_as_written<F: Fn(&str) -> Option<ParsedDb>>(
    path: Seq<char>,
    dir: Seq<char>,
    home: Option<Seq<char>>,
    read: F,
    v: CliView,
)
    ensures
        ({
            let m = value_applied(CliOption::Model, path, home, read, v);
            let c = value_applied(CliOption::Cab, path, home, read, v);
            &&& m is Ok && c is Ok
            &&& m->Ok_0 == CliView { model_path: m->Ok_0.model_path, ..v }
            &&& c->Ok_0 == CliView { cab_path: c->Ok_0.cab_path, ..v }
            &&& m->Ok_0.model_path == c->Ok_0.cab_path
            &&& home is None || path.len() < 2 || path[0] != '~' || path[1] != '/'
                ==> m->Ok_0.model_path == Some(path)
        }),
        value_applied(CliOption::Model, seq!['~', '/'] + path, Some(dir), read, v)->Ok_0.model_path
            == Some(dir + seq!['/'] + path),
{
    let p = seq!['~', '/'] + path;
    assert(p[0] == '~' && p[1] == '/');
    assert(dir + p.subrange(1, p.len() as int) =~= dir + seq!['/'] + path);
}

/// An option without a value raises its own mark and no other.
pub proof fn flags_raise_their_own_mark(option: CliOption, v: CliView)
    ensures
        ({
            let w = flag_applied(option, v);
            &&& w.diagnose <==> v.diagnose || option is Diagnose
            &&& w.diagnose_full <==> v.diagnose_full || option is DiagnoseFull
            &&& w.record <==> v.record || option is Record
            &&& w.fail_fast <==> v.fail_fast || option is FailFast
            &&& w == CliView {
                diagnose: w.diagnose,
                diagnose_full: w.diagnose_full,
                record: w.record,
                fail_fast: w.fail_fast,
                ..v
            }
            &&& is_flag(option) <==> option is Diagnose || option is DiagnoseFull || option
                is Record || option is FailFast
        }),
{
}

/// An option with a value sets one thing and no other, whatever was set before;
/// given twice, the last value counts.
pub proof fn last_value_of_an_option_counts<F: Fn(&str) -> Option<ParsedDb>>(
    option: CliOption,
    first: Seq<char>,
    second: Seq<char>,
    home: Option<Seq<char>>,
    read: F,
    v: CliView,
    u: CliView,
)
    ensures
        ({
            let a = value_applied(option, first, home, read, v);
            let b = value_applied(option, first, home, read, u);
            &&& a is Ok <==> b is Ok
            &&& a is Err ==> a->Err_0 == b->Err_0
            &&& a is Ok ==> value_applied(option, second, home, read, a->Ok_0) == value_applied(
                option,
                second,
                home,
                read,
                v,
            )
            &&& a is Ok ==> {
                let w = a->Ok_0;
                &&& !(option is Model) ==> w.model_path == v.model_path
                &&& !(option is Cab) ==> w.cab_path == v.cab_path
                &&& !(option is InputGain) ==> w.input_gain == v.input_gain
                &&& !(option is OutputGain) ==> w.output_gain == v.output_gain
                &&& !(option is BufferSize) ==> w.buffer_size == v.buffer_size
                &&& !(option is Slim) ==> w.slim_override == v.slim_override
                &&& !(option is Oversample) ==> w.oversample == v.oversample
                &&& !(option is Activation) ==> w.activation == v.activation
                &&& !(option is Cpu) ==> w.cpu == v.cpu
                &&& !(option is Gate) ==> w.gate == v.gate
                &&& w.diagnose == v.diagnose && w.diagnose_full == v.diagnose_full
                &&& w.record == v.record && w.fail_fast == v.fail_fast
            }
            &&& a is Ok && option is Gate ==> gate_for(first, read) == Ok::<
                GateConfig,
                GateRefusal,
            >(a->Ok_0.gate)
            &&& option is Gate && gate_for(first, read) is Ok ==> a is Ok
        }),
{
}

/// The accepted block sizes are none, and sixteen doubled up to nine times: each
/// but the smallest is twice an accepted one. The others are refused as too
/// small, too large, or no power of two, as they are.
pub proof fn accepted_sizes_are_sixteen_doubled(size: u32)
    ensures
        ({
            let r = buffer_size_verdict(size);
            &&& r is Ok ==> r->Ok_0 == size
            &&& r is Ok && size != 0 ==> 16 <= size <= 8192 && (size == 16 || (size % 2 == 0
                && buffer_size_verdict((size / 2) as u32) is Ok))
            &&& r is Ok && size != 0 && size < 8192 ==> buffer_size_verdict((2 * size) as u32) is Ok
            &&& size == 0 || size == 16 ==> r is Ok
            &&& 0 < size < 16 ==> r == Err::<u32, BufferSizeError>(
                BufferSizeError::BelowMinimum { size },
            )
            &&& size > 8192 ==> r == Err::<u32, BufferSizeError>(
                BufferSizeError::AboveMaximum { size },
            )
            &&& r is Err && 16 <= size <= 8192 ==> r == Err::<u32, BufferSizeError>(
                BufferSizeError::NotPowerOfTwo { size },
            )
        }),
{
    lemma2_to64();
    assert(buffer_size_accepted(pow2(4) as int));
    if buffer_size_accepted(size as int) && size != 0 {
        accepted_size_fits_buffers(size as int);
        let k = choose|k: nat| 4 <= k <= 13 && size == #[trigger] pow2(k);
        lemma_pow2_unfold(k);
        lemma_pow2_unfold(k + 1);
        if k > 4 {
            assert(size / 2 == pow2((k - 1) as nat));
            assert(buffer_size_accepted(pow2((k - 1) as nat) as int));
        }
        if k < 13 {
            assert(buffer_size_accepted(pow2(k + 1) as int));
        }
    }
    if buffer_size_accepted(size as int) {
        accepted_size_fits_buffers(size as int);
    }
}

/// A command line without arguments, and one with an option for help before
/// anything wrong, ask for the help text; a flag or a value in front changes what
/// is set and nothing of how the rest is read.
pub proof fn arguments_are_read_one_by_one<F: Fn(&str) -> Option<ParsedDb>>(
    unread: Seq<Seq<u8>>,
    mode: Seq<u8>,
    has_args: bool,
    v: CliView,
    home: Option<Seq<char>>,
    read: F,
)
    ensures
        ({
            let (found, rest, rest_mode) = lexed_next(unread, mode);
            let r = parse_rest(unread, mode, has_args, v, home, read);
            match found {
                NextView::End => {
                    &&& has_args ==> r == Ok::<CliView, ExitView>(v)
                    &&& !has_args ==> r == Err::<CliView, ExitView>(ExitView::Help)
                },
                NextView::Bad(e) => r == Err::<CliView, ExitView>(
                    ExitView::Error(ErrorView::Text(e)),
                ),
                NextView::Item(shape, refusal) => {
                    &&& option_of(shape) is Help ==> r == Err::<CliView, ExitView>(ExitView::Help)
                    &&& option_of(shape) is Unknown ==> r == Err::<CliView, ExitView>(
                        ExitView::Error(ErrorView::Text(refusal)),
                    )
                    &&& is_flag(option_of(shape)) && unread_size(rest) < unread_size(unread)
                        ==> r == parse_rest(
                        rest,
                        rest_mode,
                        true,
                        flag_applied(option_of(shape), v),
                        home,
                        read,
                    )
                    &&& !(option_of(shape) is Help) && !(option_of(shape) is Unknown) && !is_flag(
                        option_of(shape),
                    ) ==> {
                        let (value, rest2, mode2) = lexed_value(rest, rest_mode);
                        match value {
                            ValueView::Missing(e) => r == Err::<CliView, ExitView>(
                                ExitView::Error(ErrorView::Text(e)),
                            ),
                            ValueView::NotUnicode => r is Err && r->Err_0 is Error,
                            ValueView::Text(t) => {
                                let set = value_applied(option_of(shape), t, home, read, v);
                                &&& set is Err ==> r == Err::<CliView, ExitView>(
                                    ExitView::Error(set->Err_0),
                                )
                                &&& set is Ok && unread_size(rest2) < unread_size(unread) ==> r
                                    == parse_rest(rest2, mode2, true, set->Ok_0, home, read)
                            },
                        }
                    }
                },
            }
        }),
{
}

/// Where nothing is asked for nothing is done: no file, no gain, no mark, an
/// acceptable block size, and a gate that is on, in range and closes below where
/// it opens.
pub proof fn defaults_are_acceptable()
    ensures
        ({
            let d = default_args();
            &&& args_in_range(d)
            &&& d.model_path is None && d.cab_path is None && d.cpu is None && d.activation is None
            &&& d.input_gain.scaled() == 0 && d.output_gain.scaled() == 0
            &&& d.buffer_size == 256
            &&& !d.diagnose && !d.diagnose_full && !d.record && !d.fail_fast
            &&& d.slim_override is Auto && d.oversample is Off
            &&& d.gate is Threshold && d.gate->threshold_open_db.scaled() == -70 * pow2(149)
            &&& d.gate->threshold_close_db.scaled() == -80 * pow2(149)
        }),
{
    default_args_in_range();
    gate_levels_are_as_named();
    assert(scaled_magnitude(0) == 0);
}

/// Acceptable arguments are those within the limits that the options name.
pub proof fn acceptable_arguments_are_within_limits(v: CliView)
    ensures
        args_in_range(v) ==> {
            &&& v.buffer_size == 0 || 16 <= v.buffer_size <= 8192
            &&& -96 * pow2(149) <= v.input_gain.scaled() <= 30 * pow2(149)
            &&& -96 * pow2(149) <= v.output_gain.scaled() <= 30 * pow2(149)
            &&& v.gate is Threshold ==> -96 * pow2(149) <= v.gate->threshold_open_db.scaled()
                <= -20 * pow2(149) && -96 * pow2(149) <= v.gate->threshold_close_db.scaled()
        },
{
    reveal(args_in_range);
    gain_limits_are_as_named();
    gate_levels_are_as_named();
    if args_in_range(v) {
        accepted_size_fits_buffers(v.buffer_size as int);
    }
}

} // verus!
