//! Configuration of the silence gate.

use vstd::arithmetic::power2::{lemma2_to64, lemma_pow2_adds, pow2};
use vstd::prelude::*;
use vstd::string::*;

use crate::payload::GateParams;
use crate::single::{magnitude_order, negation_is_exact, scaled_magnitude, Single};
use crate::text::{
    ends_with_spec, lowercase, same_text, strip_suffix, to_lowercase, trim, trimmed,
};

verus! {

/// Default opening threshold: -70 dBFS.
pub const GATE_DEFAULT_OPEN_BITS: u32 = 0xC28C_0000;

/// Closing threshold of the default gate: -80 dBFS.
pub const GATE_DEFAULT_CLOSE_BITS: u32 = 0xC2A0_0000;

/// Lowest accepted threshold: -96 dBFS.
pub const GATE_MIN_THRESHOLD_BITS: u32 = 0xC2C0_0000;

/// Highest accepted threshold: -20 dBFS.
pub const GATE_MAX_THRESHOLD_BITS: u32 = 0xC1A0_0000;

/// Silent frames before a gate closes, where nothing else is set.
pub const GATE_HOLD_FRAMES: usize = 2048;

/// Frames of a fade, where nothing else is set.
pub const GATE_FADE_FRAMES: usize = 256;

/// Reciprocal of the default fade: 1/256.
pub const GATE_INV_FADE_BITS: u32 = 0x3B80_0000;

/// Default channel difference below which a signal counts as mono: 0.0001.
pub const GATE_MONO_EPSILON_BITS: u32 = 0x38D1_B717;

/// The silence gate: off, or open above one level and closed below another.
#[derive(Clone, Copy, Debug, PartialEq, Eq, Structural)]
pub enum GateConfig {
    /// No gate: silence passes through.
    Off,
    /// A gate with two thresholds, in dBFS.
    Threshold {
        /// Energy above this level opens the silence gate.
        threshold_open_db: Single,
        /// Energy below this level closes it.
        threshold_close_db: Single,
    },
}

/// A level read from text, and the level ten decibels below its attenuation
/// (`-|value| - 10`, in single precision).
#[derive(Clone, Copy, Debug, PartialEq, Eq, Structural)]
pub struct ParsedDb {
    /// The number as written.
    pub value: Single,
    /// Ten below the number taken as an attenuation.
    pub lowered: Single,
}

/// The lowest accepted threshold as a number.
pub open spec fn gate_floor() -> Single {
    Single { bits: GATE_MIN_THRESHOLD_BITS }
}

/// The greater of a level and the lowest accepted threshold; the latter where
/// the level is no number.
pub open spec fn floored(level: Single) -> Single {
    if gate_floor().le_spec(level) {
        level
    } else {
        gate_floor()
    }
}

/// Whether a threshold lies between the lowest and the highest accepted one.
pub open spec fn gate_level_accepted(level: Single) -> bool {
    gate_floor().le_spec(level) && level.le_spec(Single { bits: GATE_MAX_THRESHOLD_BITS })
}

impl GateConfig {
    /// The silence gate that opens at `open_db` and closes at `lowered_db`, but
    /// not below the lowest accepted threshold.
    pub open spec fn from_open_db_spec(open_db: Single, lowered_db: Single) -> GateConfig {
        GateConfig::Threshold { threshold_open_db: open_db, threshold_close_db: floored(lowered_db) }
    }

    /// The default gate.
    pub open spec fn default_on_spec() -> GateConfig {
        GateConfig::Threshold {
            threshold_open_db: Single { bits: GATE_DEFAULT_OPEN_BITS },
            threshold_close_db: Single { bits: GATE_DEFAULT_CLOSE_BITS },
        }
    }

    /// The default gate: opens at -70 dBFS, closes at -80 dBFS.
    pub fn default_on() -> (r: Self)
        ensures
            r == GateConfig::default_on_spec(),
    {
        GateConfig::Threshold {
            threshold_open_db: Single { bits: GATE_DEFAULT_OPEN_BITS },
            threshold_close_db: Single { bits: GATE_DEFAULT_CLOSE_BITS },
        }
    }

    /// A gate from its opening threshold and the level one hysteresis band
    /// (10 dB) below it.
    pub fn from_open_db(open_db: Single, lowered_db: Single) -> (r: Self)
        ensures
            r == GateConfig::from_open_db_spec(open_db, lowered_db),
    {
        let floor = Single { bits: GATE_MIN_THRESHOLD_BITS };
        let close = if floor.le(lowered_db) {
            lowered_db
        } else {
            floor
        };
        GateConfig::Threshold { threshold_open_db: open_db, threshold_close_db: close }
    }

    /// The silence gate settings that the DSP starts with.
    pub fn params(self) -> (r: GateParams)
        ensures
            r == gate_params_of(self),
    {
        let mut params = GateParams {
            threshold_open_db: Single { bits: GATE_DEFAULT_OPEN_BITS },
            threshold_close_db: Single { bits: GATE_DEFAULT_CLOSE_BITS },
            hold_frames: GATE_HOLD_FRAMES,
            fade_frames: GATE_FADE_FRAMES,
            inv_fade_frames: Single { bits: GATE_INV_FADE_BITS },
            mono_epsilon: Single { bits: GATE_MONO_EPSILON_BITS },
        };
        if let GateConfig::Threshold { threshold_open_db, threshold_close_db } = self {
            params.threshold_open_db = threshold_open_db;
            params.threshold_close_db = threshold_close_db;
        }
        params
    }

    /// The squared linear thresholds that the DSP starts with: `squares`, which
    /// stand for the two configured levels, or zeros where the silence gate is
    /// off, so that it never closes.
    pub fn threshold_squares(self, squares: (Single, Single)) -> (r: (Single, Single))
        ensures
            self is Off ==> r == (Single { bits: 0 }, Single { bits: 0 }),
            !(self is Off) ==> r == squares,
    {
        match self {
            GateConfig::Off => (Single { bits: 0 }, Single { bits: 0 }),
            GateConfig::Threshold { .. } => squares,
        }
    }
}

/// The silence gate settings of a configuration: its thresholds where it has
/// any, the default everywhere else.
pub open spec fn gate_params_of(g: GateConfig) -> GateParams {
    GateParams {
        threshold_open_db: match g {
            GateConfig::Off => Single { bits: GATE_DEFAULT_OPEN_BITS },
            GateConfig::Threshold { threshold_open_db, .. } => threshold_open_db,
        },
        threshold_close_db: match g {
            GateConfig::Off => Single { bits: GATE_DEFAULT_CLOSE_BITS },
            GateConfig::Threshold { threshold_close_db, .. } => threshold_close_db,
        },
        hold_frames: GATE_HOLD_FRAMES,
        fade_frames: GATE_FADE_FRAMES,
        inv_fade_frames: Single { bits: GATE_INV_FADE_BITS },
        mono_epsilon: Single { bits: GATE_MONO_EPSILON_BITS },
    }
}

/// What a gate argument says before any number in it is read.
pub enum GateSyntax {
    /// One of the mode words.
    Mode(GateConfig),
    /// This text, which should be a number.
    Number(String),
}

/// Whether the word turns the default gate on.
pub open spec fn is_on_word(w: Seq<char>) -> bool {
    w == "on"@ || w == "true"@ || w == "default"@
}

/// Whether the word turns the silence gate off.
pub open spec fn is_off_word(w: Seq<char>) -> bool {
    w == "off"@ || w == "false"@ || w == "0"@
}

/// The part of a lower-case argument that should be a number: without a unit,
/// which is `dbfs` or `db`.
pub open spec fn number_part(lower: Seq<char>) -> Seq<char> {
    if ends_with_spec(lower, "dbfs"@) {
        trimmed(lower.subrange(0, lower.len() - "dbfs"@.len()))
    } else if ends_with_spec(lower, "db"@) {
        trimmed(lower.subrange(0, lower.len() - "db"@.len()))
    } else {
        lower
    }
}

/// Whether `r` is what the argument says.
pub open spec fn gate_syntax_is(value: Seq<char>, r: GateSyntax) -> bool {
    let lower = lowercase(trimmed(value));
    match r {
        GateSyntax::Mode(g) => {
            ||| is_on_word(lower) && g == GateConfig::default_on_spec()
            ||| !is_on_word(lower) && is_off_word(lower) && g == GateConfig::Off
        },
        GateSyntax::Number(t) => {
            &&& !is_on_word(lower)
            &&& !is_off_word(lower)
            &&& t@ == number_part(lower)
        },
    }
}

/// Splits a gate argument into a mode word or the text of a number. Case, and
/// white space around it, do not matter.
pub fn gate_syntax(value: &str) -> (r: GateSyntax)
    ensures
        gate_syntax_is(value@, r),
{
    let lowered = to_lowercase(trim(value));
    let lower = lowered.as_str();
    if same_text(lower, "on") || same_text(lower, "true") || same_text(lower, "default") {
        return GateSyntax::Mode(GateConfig::default_on());
    }
    if same_text(lower, "off") || same_text(lower, "false") || same_text(lower, "0") {
        return GateSyntax::Mode(GateConfig::Off);
    }
    match strip_suffix(lower, "dbfs") {
        Some(rest) => GateSyntax::Number(trim(rest).to_owned()),
        None => match strip_suffix(lower, "db") {
            Some(rest) => GateSyntax::Number(trim(rest).to_owned()),
            None => GateSyntax::Number(lower.to_owned()),
        },
    }
}

/// Why a gate argument is refused.
#[derive(Clone, Copy, Debug, PartialEq, Eq, Structural)]
pub enum GateRefusal {
    /// Neither a mode word nor a finite number.
    NotAMode,
    /// A threshold outside the accepted range.
    OutOfRange {
        /// The threshold, its sign turned where it was written positive.
        open_db: Single,
        /// Whether it was written positive.
        typed_positive: bool,
    },
}

/// The silence gate for a number read from the argument: a positive number
/// counts as an attenuation, and the threshold must lie in the accepted range.
pub open spec fn gate_for_number(parsed: Option<ParsedDb>) -> Result<GateConfig, GateRefusal> {
    match parsed {
        None => Err(GateRefusal::NotAMode),
        Some(p) => if !p.value.is_finite_spec() {
            Err(GateRefusal::NotAMode)
        } else {
            let typed_positive = p.value.scaled() > 0;
            let open_db = if typed_positive { p.value.negated_spec() } else { p.value };
            if gate_level_accepted(open_db) {
                Ok(GateConfig::from_open_db_spec(open_db, p.lowered))
            } else {
                Err(GateRefusal::OutOfRange { open_db, typed_positive })
            }
        },
    }
}

/// Decides on the number read from a gate argument; `None` where the text was
/// no number.
pub fn gate_threshold(parsed: Option<ParsedDb>) -> (r: Result<GateConfig, GateRefusal>)
    ensures
        r == gate_for_number(parsed),
{
    let number = match parsed {
        Some(p) => p,
        None => {
            return Err(GateRefusal::NotAMode);
        },
    };
    if !number.value.is_finite() {
        return Err(GateRefusal::NotAMode);
    }
    let typed_positive = number.value.is_positive();
    let open_db = if typed_positive {
        number.value.negated()
    } else {
        number.value
    };
    let floor = Single { bits: GATE_MIN_THRESHOLD_BITS };
    let ceiling = Single { bits: GATE_MAX_THRESHOLD_BITS };
    if floor.le(open_db) && open_db.le(ceiling) {
        Ok(GateConfig::from_open_db(open_db, number.lowered))
    } else {
        Err(GateRefusal::OutOfRange { open_db, typed_positive })
    }
}

/// A refused gate argument.
#[derive(Debug)]
pub struct GateModeError {
    /// The argument without surrounding white space.
    pub trimmed: String,
    /// Why it is refused.
    pub refusal: GateRefusal,
}

/// The message for a refused gate argument, `shown` being the threshold with
/// one decimal.
pub open spec fn gate_message(trimmed: Seq<char>, refusal: GateRefusal, shown: Seq<char>) -> Seq<
    char,
> {
    let start = "Invalid gate mode: '"@ + trimmed;
    match refusal {
        GateRefusal::NotAMode => start
            + "'. Expected 'on', 'off', 'false', '0', or a dBFS threshold in [-96, -20] (e.g. -60, -45dB)."@,
        GateRefusal::OutOfRange { typed_positive, .. } => start + "'. Threshold "@ + shown
            + " dBFS is out of the accepted range [-96.0, -20.0] dBFS."@ + (if typed_positive {
            " Positive values are read as attenuation and auto-normalized (e.g. '10' becomes -10.0 dBFS)."@
        } else {
            Seq::empty()
        }),
    }
}

impl GateModeError {
    /// The message, `shown` being the refused threshold with one decimal.
    pub fn message(&self, shown: &str) -> (r: String)
        ensures
            r@ == gate_message(self.trimmed@, self.refusal, shown@),
    {
        let mut out = "Invalid gate mode: '".to_owned();
        out.append(self.trimmed.as_str());
        match self.refusal {
            GateRefusal::NotAMode => {
                out.append(
                    "'. Expected 'on', 'off', 'false', '0', or a dBFS threshold in [-96, -20] (e.g. -60, -45dB).",
                );
            },
            GateRefusal::OutOfRange { typed_positive, .. } => {
                out.append("'. Threshold ");
                out.append(shown);
                out.append(" dBFS is out of the accepted range [-96.0, -20.0] dBFS.");
                if typed_positive {
                    out.append(
                        " Positive values are read as attenuation and auto-normalized (e.g. '10' becomes -10.0 dBFS).",
                    );
                }
            },
        }
        assert(out@ =~= gate_message(self.trimmed@, self.refusal, shown@));
        out
    }
}

/// Whether the closure that reads numbers can be asked about every text and
/// always answers the same text in the same way.
pub open spec fn reads_numbers<F: Fn(&str) -> Option<ParsedDb>>(read: F) -> bool {
    &&& forall|s: &str| #[trigger] call_requires(read, (s,))
    &&& forall|s: &str, t: &str, a: Option<ParsedDb>, b: Option<ParsedDb>|
        #![trigger call_ensures(read, (s,), a), call_ensures(read, (t,), b)]
        s@ == t@ && call_ensures(read, (s,), a) && call_ensures(read, (t,), b) ==> a == b
}

/// Whether the closure answers the text with `p`.
pub open spec fn answers<F: Fn(&str) -> Option<ParsedDb>>(
    read: F,
    text: Seq<char>,
    p: Option<ParsedDb>,
) -> bool {
    exists|s: &str| s@ == text && #[trigger] call_ensures(read, (s,), p)
}

/// What the closure answers to the text.
pub open spec fn number_read<F: Fn(&str) -> Option<ParsedDb>>(
    read: F,
    text: Seq<char>,
) -> Option<ParsedDb> {
    choose|p: Option<ParsedDb>| answers(read, text, p)
}

/// The silence gate for an argument, numbers being read by `read`.
pub open spec fn gate_for<F: Fn(&str) -> Option<ParsedDb>>(value: Seq<char>, read: F) -> Result<
    GateConfig,
    GateRefusal,
> {
    let lower = lowercase(trimmed(value));
    if is_on_word(lower) {
        Ok(GateConfig::default_on_spec())
    } else if is_off_word(lower) {
        Ok(GateConfig::Off)
    } else {
        gate_for_number(number_read(read, number_part(lower)))
    }
}

/// Whether a configuration is off, or has its thresholds in the accepted range.
pub open spec fn gate_in_range(g: GateConfig) -> bool {
    match g {
        GateConfig::Off => true,
        GateConfig::Threshold { threshold_open_db, threshold_close_db } => {
            &&& gate_level_accepted(threshold_open_db)
            &&& gate_floor().le_spec(threshold_close_db)
        },
    }
}

/// Whether a configuration is off, the default, or made from a number that
/// `read` gives: the closing threshold is then the number's lowered level, or
/// the lowest accepted one where that is higher.
pub open spec fn gate_is_read<F: Fn(&str) -> Option<ParsedDb>>(g: GateConfig, read: F) -> bool {
    ||| g is Off
    ||| g == GateConfig::default_on_spec()
    ||| exists|text: Seq<char>|
        gate_for_number(#[trigger] number_read(read, text)) == Ok::<GateConfig, GateRefusal>(g)
}

/// An accepted argument gives a configuration in range, made from what it says.
pub proof fn accepted_gate_is_in_range<F: Fn(&str) -> Option<ParsedDb>>(value: Seq<char>, read: F)
    ensures
        gate_for(value, read) matches Ok(g) ==> gate_in_range(g) && gate_is_read(g, read),
{
    default_gate_is_in_range();
}

/// The default configuration is in range.
pub proof fn default_gate_is_in_range()
    ensures
        gate_in_range(GateConfig::default_on_spec()),
{
    magnitude_order(0x41A0_0000, 0x428C_0000);
    magnitude_order(0x428C_0000, 0x42C0_0000);
    magnitude_order(0x42A0_0000, 0x42C0_0000);
}

/// Reads a gate argument: a mode word, or a threshold with an optional unit.
/// `read` turns the text of a number into a number.
pub fn parse_gate_mode<F: Fn(&str) -> Option<ParsedDb>>(value: &str, read: &F) -> (r: Result<
    GateConfig,
    GateModeError,
>)
    requires
        reads_numbers(*read),
    ensures
        match r {
            Ok(g) => gate_for(value@, *read) == Ok::<GateConfig, GateRefusal>(g),
            Err(e) => gate_for(value@, *read) == Err::<GateConfig, GateRefusal>(e.refusal)
                && e.trimmed@ == trimmed(value@),
        },
{
    match gate_syntax(value) {
        GateSyntax::Mode(g) => Ok(g),
        GateSyntax::Number(text) => {
            let parsed = read(text.as_str());
            proof {
                let p = number_read(*read, text@);
                assert(answers(*read, text@, parsed));
                assert(answers(*read, text@, p));
            }
            match gate_threshold(parsed) {
                Ok(g) => Ok(g),
                Err(refusal) => Err(GateModeError { trimmed: trim(value).to_owned(), refusal }),
            }
        },
    }
}

/// An accepted threshold closes no higher than it opens, and not below the
/// lowest accepted level, as long as the lowered level is below the opening one.
pub proof fn gate_has_hysteresis(p: ParsedDb)
    requires
        gate_for_number(Some(p)) is Ok,
        ({
            let open_db = if p.value.scaled() > 0 { p.value.negated_spec() } else { p.value };
            p.lowered.le_spec(open_db)
        }),
    ensures
        gate_for_number(Some(p))->Ok_0 matches GateConfig::Threshold {
            threshold_open_db,
            threshold_close_db,
        } && threshold_close_db.le_spec(threshold_open_db) && gate_floor().le_spec(
            threshold_close_db,
        ) && gate_level_accepted(threshold_open_db),
{
}

/// The levels are what they are named: the accepted ones reach from -96 to -20,
/// and the default gate opens at -70 and closes at -80, in units of 2^-149.
pub proof fn gate_levels_are_as_named()
    ensures
        gate_floor().scaled() == -96 * pow2(149),
        (Single { bits: GATE_MAX_THRESHOLD_BITS }).scaled() == -20 * pow2(149),
        (Single { bits: GATE_DEFAULT_OPEN_BITS }).scaled() == -70 * pow2(149),
        (Single { bits: GATE_DEFAULT_CLOSE_BITS }).scaled() == -80 * pow2(149),
{
    lemma2_to64();
    lemma_pow2_adds(17, 132);
    lemma_pow2_adds(19, 130);
    let p = pow2(132) as int;
    let q = pow2(130) as int;
    assert(131072 * p == pow2(149));
    assert(524288 * q == pow2(149));
    assert(scaled_magnitude(0x42C0_0000) == 0xC0_0000 * p);
    assert(scaled_magnitude(0x428C_0000) == 0x8C_0000 * p);
    assert(scaled_magnitude(0x42A0_0000) == 0xA0_0000 * p);
    assert(scaled_magnitude(0x41A0_0000) == 0xA0_0000 * q);
}

/// A threshold counts as an attenuation, whichever sign it is written with, and
/// is accepted exactly from 20 to 96 dB of it. The silence gate then opens at
/// that level and closes at the lowered one, though not below -96.
pub proof fn threshold_is_an_attenuation(p: ParsedDb)
    ensures
        ({
            let x = p.value.scaled();
            let size = if x < 0 { -x } else { x };
            let r = gate_for_number(Some(p));
            &&& r is Ok <==> p.value.is_finite_spec() && 20 * pow2(149) <= size <= 96 * pow2(149)
            &&& r is Ok ==> r->Ok_0 is Threshold && r->Ok_0->threshold_open_db.scaled() == -size
            &&& r is Ok && !p.lowered.is_nan_spec() ==> {
                let close = r->Ok_0->threshold_close_db.scaled();
                &&& p.lowered.scaled() >= -96 * pow2(149) ==> close == p.lowered.scaled()
                &&& p.lowered.scaled() < -96 * pow2(149) ==> close == -96 * pow2(149)
            }
            &&& !p.value.is_finite_spec() ==> r == Err::<GateConfig, GateRefusal>(
                GateRefusal::NotAMode,
            )
            &&& r is Err && p.value.is_finite_spec() ==> r->Err_0 is OutOfRange
                && r->Err_0->open_db.scaled() == -size && r->Err_0->typed_positive == (x > 0)
        }),
        gate_for_number(None) == Err::<GateConfig, GateRefusal>(GateRefusal::NotAMode),
{
    gate_levels_are_as_named();
    negation_is_exact(p.value);
}

/// The words `on`, `true` and `default` give the default gate, the words `off`,
/// `false` and `0` none, and every other argument is read as a number.
pub proof fn gate_words_mean_what_they_say<F: Fn(&str) -> Option<ParsedDb>>(
    value: Seq<char>,
    read: F,
)
    ensures
        ({
            let w = lowercase(trimmed(value));
            let on = w == seq!['o', 'n'] || w == seq!['t', 'r', 'u', 'e'] || w == seq![
                'd',
                'e',
                'f',
                'a',
                'u',
                'l',
                't',
            ];
            let off = w == seq!['o', 'f', 'f'] || w == seq!['f', 'a', 'l', 's', 'e'] || w == seq![
                '0',
            ];
            &&& on ==> {
                let g = gate_for(value, read);
                &&& g is Ok && g->Ok_0 is Threshold
                &&& g->Ok_0->threshold_open_db.scaled() == -70 * pow2(149)
                &&& g->Ok_0->threshold_close_db.scaled() == -80 * pow2(149)
            }
            &&& off ==> gate_for(value, read) == Ok::<GateConfig, GateRefusal>(GateConfig::Off)
            &&& !on && !off ==> gate_for(value, read) == gate_for_number(
                number_read(read, number_part(w)),
            ) && !(gate_for(value, read) matches Ok(GateConfig::Off))
        }),
{
    gate_levels_are_as_named();
    reveal_strlit("on");
    reveal_strlit("true");
    reveal_strlit("default");
    reveal_strlit("off");
    reveal_strlit("false");
    reveal_strlit("0");
    assert("on"@ =~= seq!['o', 'n']);
    assert("true"@ =~= seq!['t', 'r', 'u', 'e']);
    assert("default"@ =~= seq!['d', 'e', 'f', 'a', 'u', 'l', 't']);
    assert("off"@ =~= seq!['o', 'f', 'f']);
    assert("false"@ =~= seq!['f', 'a', 'l', 's', 'e']);
    assert("0"@ =~= seq!['0']);
}

/// A unit behind the number, `db` or `dbfs`, changes nothing but the white space
/// before it; a text that ends otherwise is taken whole.
pub proof fn units_change_nothing(t: Seq<char>)
    ensures
        number_part(t + seq!['d', 'b']) == trimmed(t),
        number_part(t + seq!['d', 'b', 'f', 's']) == trimmed(t),
        t.len() == 0 || (t.last() != 'b' && t.last() != 's') ==> number_part(t) == t,
{
    reveal_strlit("db");
    reveal_strlit("dbfs");
    let short = t + seq!['d', 'b'];
    let long = t + seq!['d', 'b', 'f', 's'];
    assert(short.subrange(short.len() - 2, short.len() as int) =~= "db"@);
    assert(short.subrange(0, short.len() - 2) =~= t);
    assert(long.subrange(long.len() - 4, long.len() as int) =~= "dbfs"@);
    assert(long.subrange(0, long.len() - 4) =~= t);
    if short.len() >= 4 {
        assert(short.subrange(short.len() - 4, short.len() as int)[3] == 'b');
    }
    if t.len() >= 2 {
        assert(t.subrange(t.len() - 2, t.len() as int)[1] == t.last());
    }
    if t.len() >= 4 {
        assert(t.subrange(t.len() - 4, t.len() as int)[3] == t.last());
    }
}

/// The DSP gets the configured thresholds; everything else of its gate is the
/// same for every configuration.
pub proof fn configured_thresholds_reach_the_dsp(g: GateConfig, h: GateConfig)
    ensures
        g matches GateConfig::Threshold { threshold_open_db, threshold_close_db } ==> {
            &&& gate_params_of(g).threshold_open_db == threshold_open_db
            &&& gate_params_of(g).threshold_close_db == threshold_close_db
        },
        gate_params_of(GateConfig::Off) == gate_params_of(GateConfig::default_on_spec()),
        gate_params_of(g).hold_frames == gate_params_of(h).hold_frames,
        gate_params_of(g).fade_frames == gate_params_of(h).fade_frames,
        gate_params_of(g).inv_fade_frames == gate_params_of(h).inv_fade_frames,
        gate_params_of(g).mono_epsilon == gate_params_of(h).mono_epsilon,
        gate_params_of(g).fade_frames > 0 && gate_params_of(g).inv_fade_frames.scaled()
            * gate_params_of(g).fade_frames == pow2(149),
{
    lemma2_to64();
    lemma_pow2_adds(23, 118);
    lemma_pow2_adds(8, 141);
    assert(scaled_magnitude(0x3B80_0000) == 0x80_0000 * pow2(118));
}

} // verus!
