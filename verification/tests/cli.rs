use nam_audio_pipe::cli::{
    apply_flag, apply_value, classify, expand_home, parse_args_from, parse_gain,
    validate_buffer_size, ActivationPrecision, BufferSizeError, CliArgs, CliError, CliExit,
    CliOption, BUFFER_SIZE_AUTO, BUFFER_SIZE_MAX, BUFFER_SIZE_MIN,
};
use nam_audio_pipe::gate::{parse_gate_mode, GateConfig, GateModeError, GateRefusal, ParsedDb};
use nam_audio_pipe::lexer::ArgShape;
use nam_audio_pipe::payload::{OversampleFactor, SlimOverride};
use nam_audio_pipe::single::Single;

fn single(x: f32) -> Single {
    Single { bits: x.to_bits() }
}

fn read_number(text: &str) -> Option<ParsedDb> {
    match text.parse::<f32>() {
        Ok(x) => Some(ParsedDb { value: single(x), lowered: single(-x.abs() - 10.0) }),
        Err(_) => None,
    }
}

fn shown(level: Single) -> String {
    format!("{:.1}", f32::from_bits(level.bits))
}

fn gate_text(e: &GateModeError) -> String {
    match e.refusal {
        GateRefusal::OutOfRange { open_db, .. } => e.message(&shown(open_db)),
        GateRefusal::NotAMode => e.message(""),
    }
}

fn gate(value: &str) -> Result<GateConfig, String> {
    parse_gate_mode(value, &read_number).map_err(|e| gate_text(&e))
}

fn from_open_db(open_db: f32) -> GateConfig {
    GateConfig::from_open_db(single(open_db), single(open_db - 10.0))
}

fn thresholds(open_db: f32, close_db: f32) -> GateConfig {
    GateConfig::Threshold {
        threshold_open_db: single(open_db),
        threshold_close_db: single(close_db),
    }
}

fn try_parse(args: Vec<&str>) -> Result<CliArgs, CliExit> {
    parse_args_from(lexopt::Parser::from_iter(args), Some("/home/me"), &read_number)
}

fn parse(args: Vec<&str>) -> CliArgs {
    try_parse(args).unwrap()
}

fn refusal(args: Vec<&str>) -> String {
    match try_parse(args) {
        Err(CliExit::Error(CliError::GainOutOfRange { output, value })) => {
            CliError::GainOutOfRange { output, value }.message(&shown(value))
        }
        Err(CliExit::Error(CliError::Gate(e))) => gate_text(&e),
        Err(CliExit::Error(e)) => e.message(""),
        other => panic!("not refused: {:?}", other),
    }
}

#[test]
fn test_parse_args_diagnose() {
    let cli_args = parse(vec!["nam-audio-pipe", "--diagnose"]);
    assert!(cli_args.diagnose);
    assert!(!cli_args.diagnose_full);
}

#[test]
fn test_parse_args_diagnose_full() {
    let cli_args = parse(vec!["nam-audio-pipe", "--diagnose-full"]);
    assert!(!cli_args.diagnose);
    assert!(cli_args.diagnose_full);
}

#[test]
fn test_parse_args_model_and_gains() {
    let cli_args = parse(vec![
        "nam-audio-pipe",
        "-m",
        "my_model.nam",
        "-i",
        "6.0",
        "-o",
        "-3.5",
        "-b",
        "512",
    ]);
    assert_eq!(cli_args.model_path, Some("my_model.nam".to_string()));
    assert_eq!(cli_args.input_gain, single(6.0));
    assert_eq!(cli_args.output_gain, single(-3.5));
    assert_eq!(cli_args.buffer_size, 512);
    assert!(!cli_args.diagnose);
    assert!(!cli_args.diagnose_full);
}

#[test]
fn test_parse_args_activation_standard() {
    let cli_args = parse(vec!["nam-audio-pipe", "--activation", "standard"]);
    assert_eq!(cli_args.activation, Some(ActivationPrecision::Standard));
}

#[test]
fn test_parse_args_activation_fast() {
    let cli_args = parse(vec!["nam-audio-pipe", "--activation", "fast"]);
    assert_eq!(cli_args.activation, Some(ActivationPrecision::Fast));
}

#[test]
fn test_parse_args_activation_std_alias() {
    let cli_args = parse(vec!["nam-audio-pipe", "--activation", "std"]);
    assert_eq!(cli_args.activation, Some(ActivationPrecision::Standard));
}

#[test]
fn test_parse_args_activation_default() {
    let cli_args = parse(vec!["nam-audio-pipe", "--buffer-size", "256"]);
    assert_eq!(cli_args.activation, None);
}

#[test]
fn test_parse_args_fail_fast_defaults_to_disabled() {
    let cli_args = parse(vec!["nam-audio-pipe", "--buffer-size", "256"]);
    assert!(!cli_args.fail_fast, "reconnect must be enabled by default");
}

#[test]
fn test_parse_args_fail_fast_flag_enables_fail_fast() {
    let cli_args = parse(vec!["nam-audio-pipe", "--fail-fast", "--buffer-size", "256"]);
    assert!(cli_args.fail_fast);
}

#[test]
fn test_parse_args_record_keeps_reconnect_enabled() {
    let cli_args = parse(vec!["nam-audio-pipe", "--record", "--buffer-size", "256"]);
    assert!(cli_args.record);
    assert!(!cli_args.fail_fast);
}

#[test]
fn test_parse_args_gate_defaults_to_on() {
    let cli_args = parse(vec!["nam-audio-pipe", "--buffer-size", "256"]);
    assert_eq!(cli_args.gate, GateConfig::default_on());
}

#[test]
fn test_parse_args_gate_off_flag() {
    let cli_args = parse(vec!["nam-audio-pipe", "--gate", "off"]);
    assert_eq!(cli_args.gate, GateConfig::Off);
}

#[test]
fn test_parse_args_gate_on_explicit() {
    let cli_args = parse(vec!["nam-audio-pipe", "--gate", "on"]);
    assert_eq!(cli_args.gate, GateConfig::default_on());
}

#[test]
fn test_parse_args_gate_case_insensitive() {
    let cli_args = parse(vec!["nam-audio-pipe", "--gate", "OFF"]);
    assert_eq!(cli_args.gate, GateConfig::Off);
}

#[test]
fn test_parse_args_gate_numeric_threshold_accepted() {
    let cli_args = parse(vec!["nam-audio-pipe", "--gate", "-60"]);
    assert_eq!(cli_args.gate, from_open_db(-60.0));
}

#[test]
fn test_parse_args_gate_invalid_value_exits() {
    let err = gate("invalid").unwrap_err();
    assert!(err.contains("Invalid gate mode"), "unexpected message: {err}");
    let err = gate("").unwrap_err();
    assert!(err.contains("Invalid gate mode"), "unexpected message: {err}");
    assert_eq!(gate("ON"), Ok(GateConfig::default_on()));
    assert_eq!(gate("oFf"), Ok(GateConfig::Off));
}

#[test]
fn gate_mode_literals_accept_all_synonyms() {
    for literal in ["on", "ON", "On", "true", "True", "default"] {
        assert_eq!(
            gate(literal),
            Ok(GateConfig::default_on()),
            "literal '{literal}' must enable the default gate"
        );
    }
    for literal in ["off", "oFf", "OFF", "false", "FALSE", "0"] {
        assert_eq!(
            gate(literal),
            Ok(GateConfig::Off),
            "literal '{literal}' must disable the silence gate"
        );
    }
}

#[test]
fn gate_numeric_thresholds_are_accepted() {
    assert_eq!(gate("-60"), Ok(from_open_db(-60.0)));
    assert_eq!(gate("-65.5"), Ok(from_open_db(-65.5)));
    assert_eq!(gate("-45dB"), Ok(from_open_db(-45.0)));
    assert_eq!(gate("-45db"), Ok(from_open_db(-45.0)));
    assert_eq!(gate("-50dbfs"), Ok(from_open_db(-50.0)));
    assert_eq!(gate("-50dB"), Ok(from_open_db(-50.0)));
    assert_eq!(gate("-50db"), Ok(from_open_db(-50.0)));
    assert_eq!(gate("60"), Ok(from_open_db(-60.0)));
    assert_eq!(gate("60dB"), Ok(from_open_db(-60.0)));
}

#[test]
fn gate_numeric_thresholds_derive_schmitt_hysteresis() {
    assert_eq!(gate("-60"), Ok(thresholds(-60.0, -70.0)));
    assert_eq!(gate("-65.5"), Ok(thresholds(-65.5, -75.5)));
    assert_eq!(gate("-90"), Ok(thresholds(-90.0, -96.0)));
    assert!(gate("-20").is_ok());
    assert!(gate("-96").is_ok());
}

#[test]
fn gate_out_of_range_and_malformed_values_are_rejected() {
    for bad in ["-120", "-100", "-10", "-5", "10", "15"] {
        let err = gate(bad).expect_err(&format!("'{bad}' must be rejected"));
        assert!(
            err.contains("Invalid gate mode") && err.contains("out of the accepted range"),
            "rejection of '{bad}' must be didactic, got: {err}"
        );
    }
    for bad in ["abc", "", "invalid", "NaN", "inf", "-60dBx", "-60dbs", "--60"] {
        let err = gate(bad).expect_err(&format!("'{bad}' must be rejected"));
        assert!(
            err.contains("Invalid gate mode"),
            "malformed '{bad}' must carry the Invalid gate mode prefix, got: {err}"
        );
    }
}

#[test]
fn buffer_size_domain_constants_document_the_contract() {
    assert_eq!(BUFFER_SIZE_AUTO, 0);
    assert_eq!(BUFFER_SIZE_MIN, 16);
    assert_eq!(BUFFER_SIZE_MAX, 8192);
}

#[test]
fn validate_buffer_size_accepts_auto_and_all_valid_powers_of_two() {
    for size in [0u32, 16, 32, 64, 128, 256, 512, 1024, 2048, 4096, 8192] {
        assert_eq!(validate_buffer_size(size), Ok(size), "size {size} must be accepted");
    }
}

#[test]
fn validate_buffer_size_rejects_out_of_domain_values() {
    for size in [1u32, 2, 8, 15, 63, 100, 500, 8193, 16384, 65536, u32::MAX] {
        assert!(validate_buffer_size(size).is_err(), "size {size} must be rejected");
    }
}

#[test]
fn validate_buffer_size_rejects_with_typed_variants() {
    assert_eq!(validate_buffer_size(1), Err(BufferSizeError::BelowMinimum { size: 1 }));
    assert_eq!(validate_buffer_size(15), Err(BufferSizeError::BelowMinimum { size: 15 }));
    assert_eq!(validate_buffer_size(8193), Err(BufferSizeError::AboveMaximum { size: 8193 }));
    assert_eq!(
        validate_buffer_size(u32::MAX),
        Err(BufferSizeError::AboveMaximum { size: u32::MAX })
    );
    assert_eq!(validate_buffer_size(100), Err(BufferSizeError::NotPowerOfTwo { size: 100 }));
    assert_eq!(validate_buffer_size(500), Err(BufferSizeError::NotPowerOfTwo { size: 500 }));
}

#[test]
fn validate_buffer_size_errors_are_explanatory_and_implement_std_error() {
    assert_eq!(
        validate_buffer_size(1).unwrap_err().message(),
        "Buffer size must be at least 16 (or 0 for auto), got 1"
    );
    assert_eq!(
        validate_buffer_size(16384).unwrap_err().message(),
        "Buffer size cannot exceed 8192 (max bridge capacity), got 16384"
    );
    assert_eq!(
        validate_buffer_size(100).unwrap_err().message(),
        "Buffer size must be a power of two (e.g. 64, 128, 256, 512, 1024, 2048, 4096, 8192), got 100"
    );
}

#[test]
fn parse_args_accepts_buffer_size_auto_zero() {
    let cli_args = parse(vec!["nam-audio-pipe", "-b", "0"]);
    assert_eq!(cli_args.buffer_size, 0);
}

#[test]
fn parse_args_accepts_buffer_size_max_boundary() {
    let cli_args = parse(vec!["nam-audio-pipe", "-b", "8192"]);
    assert_eq!(cli_args.buffer_size, 8192);
}

#[test]
fn parse_args_accepts_cpu_flag() {
    let cli_args = parse(vec!["nam-audio-pipe", "--cpu", "3"]);
    assert_eq!(cli_args.cpu, Some(3));
}

#[test]
fn parse_args_accepts_cpu_zero() {
    let cli_args = parse(vec!["nam-audio-pipe", "--cpu", "0"]);
    assert_eq!(cli_args.cpu, Some(0));
}

#[test]
fn no_arguments_ask_for_help() {
    assert!(matches!(try_parse(vec!["nam-audio-pipe"]), Err(CliExit::Help)));
    assert!(matches!(try_parse(vec!["nam-audio-pipe", "-h"]), Err(CliExit::Help)));
    assert!(matches!(try_parse(vec!["nam-audio-pipe", "--record", "--help"]), Err(CliExit::Help)));
    assert!(matches!(try_parse(vec!["nam-audio-pipe", "--"]), Err(CliExit::Help)));
}

#[test]
fn every_option_takes_effect_and_the_last_one_wins() {
    let args = parse(vec![
        "nam-audio-pipe",
        "--slim=LITE",
        "--oversample",
        "4X",
        "--model=~/a.nam",
        "-c~/b.wav",
        "--input-gain",
        "-96",
        "--output-gain=30",
        "-b",
        "64",
        "--buffer-size=128",
    ]);
    assert_eq!(args.slim_override, SlimOverride::ForceLite);
    assert_eq!(args.oversample, OversampleFactor::X4);
    assert_eq!(args.model_path, Some("/home/me/a.nam".to_string()));
    assert_eq!(args.cab_path, Some("/home/me/b.wav".to_string()));
    assert_eq!(args.input_gain, single(-96.0));
    assert_eq!(args.output_gain, single(30.0));
    assert_eq!(args.buffer_size, 128);
    assert_eq!(args.cpu, None);
    assert_eq!(parse(vec!["x", "--slim", "full"]).slim_override, SlimOverride::ForceFull);
    assert_eq!(parse(vec!["x", "--slim", "Auto"]).slim_override, SlimOverride::Auto);
    assert_eq!(parse(vec!["x", "--oversample", "2"]).oversample, OversampleFactor::X2);
    assert_eq!(parse(vec!["x", "--oversample", "0"]).oversample, OversampleFactor::Off);
}

#[test]
fn every_refusal_has_its_message() {
    let p = "nam-audio-pipe";
    assert_eq!(refusal(vec![p, "--bogus"]), "invalid option '--bogus'");
    assert_eq!(refusal(vec![p, "-x"]), "invalid option '-x'");
    assert_eq!(refusal(vec![p, "stray"]), "unexpected argument \"stray\"");
    assert_eq!(refusal(vec![p, "--gate"]), "missing argument for option '--gate'");
    assert_eq!(
        refusal(vec![p, "--record=yes", "--diagnose"]),
        "unexpected argument for option '--record': \"yes\""
    );
    assert_eq!(
        refusal(vec![p, "--cpu", "-1"]),
        "Invalid CPU index: '-1'. Must be a non-negative integer."
    );
    assert_eq!(
        refusal(vec![p, "--slim", "HEAVY"]),
        "Invalid slim override: 'heavy'. Expected 'auto', 'full', or 'lite'."
    );
    assert_eq!(
        refusal(vec![p, "--oversample", "8X"]),
        "Invalid oversample factor: '8x'. Expected 'off', '2x', or '4x'."
    );
    assert_eq!(
        refusal(vec![p, "--activation", "HF"]),
        "Invalid activation precision: 'hf'. Expected 'standard' or 'fast'."
    );
    assert_eq!(refusal(vec![p, "-i", "loud"]), "Invalid input gain: 'loud'. Must be a number.");
    assert_eq!(refusal(vec![p, "-o", ""]), "Invalid output gain: ''. Must be a number.");
    assert_eq!(refusal(vec![p, "-i", "30.5"]), "Input gain (30.5 dB) out of range [-96.0, 30.0].");
    assert_eq!(refusal(vec![p, "-o", "-97"]), "Output gain (-97.0 dB) out of range [-96.0, 30.0].");
    assert_eq!(refusal(vec![p, "-o", "NaN"]), "Output gain (NaN dB) out of range [-96.0, 30.0].");
    assert_eq!(refusal(vec![p, "-b", "12a"]), "Invalid buffer size: '12a'. Must be an integer.");
    assert_eq!(
        refusal(vec![p, "-b", "4294967296"]),
        "Invalid buffer size: '4294967296'. Must be an integer."
    );
    assert_eq!(
        refusal(vec![p, "-b", "100"]),
        "Buffer size must be a power of two (e.g. 64, 128, 256, 512, 1024, 2048, 4096, 8192), got 100"
    );
    assert_eq!(
        refusal(vec![p, "--gate", " loud "]),
        "Invalid gate mode: 'loud'. Expected 'on', 'off', 'false', '0', or a dBFS threshold in [-96, -20] (e.g. -60, -45dB)."
    );
    assert_eq!(
        refusal(vec![p, "--gate", "10"]),
        "Invalid gate mode: '10'. Threshold -10.0 dBFS is out of the accepted range [-96.0, -20.0] dBFS. Positive values are read as attenuation and auto-normalized (e.g. '10' becomes -10.0 dBFS)."
    );
    assert_eq!(
        refusal(vec![p, "--gate", "-120"]),
        "Invalid gate mode: '-120'. Threshold -120.0 dBFS is out of the accepted range [-96.0, -20.0] dBFS."
    );
}

#[test]
fn a_tilde_is_resolved_only_at_the_start_of_a_home_path() {
    assert_eq!(expand_home("~/x", Some("/h")), "/h/x");
    assert_eq!(expand_home("~/x", None), "~/x");
    assert_eq!(expand_home("~x", Some("/h")), "~x");
    assert_eq!(expand_home("/a/~/x", Some("/h")), "/a/~/x");
    assert_eq!(expand_home("~", Some("/h")), "~");
    assert_eq!(expand_home("~/", Some("/h")), "/h/");
}

#[test]
fn options_are_recognised_by_both_their_names() {
    assert_eq!(classify(&ArgShape::Short('m')), CliOption::Model);
    assert_eq!(classify(&ArgShape::Long("model".to_string())), CliOption::Model);
    assert_eq!(classify(&ArgShape::Short('o')), CliOption::OutputGain);
    assert_eq!(classify(&ArgShape::Long("oversample".to_string())), CliOption::Oversample);
    assert_eq!(classify(&ArgShape::Long("o".to_string())), CliOption::Unknown);
    assert_eq!(classify(&ArgShape::Value), CliOption::Unknown);
}

#[test]
fn a_refused_value_leaves_the_arguments_alone() {
    let mut args = CliArgs::default();
    assert!(apply_value(CliOption::BufferSize, "512", None, &read_number, &mut args).is_ok());
    assert!(apply_value(CliOption::BufferSize, "513", None, &read_number, &mut args).is_err());
    assert_eq!(args.buffer_size, 512);
    assert!(apply_flag(CliOption::Record, &mut args));
    assert!(!apply_flag(CliOption::Gate, &mut args));
    assert!(args.record);
    assert_eq!(parse_gain(true, "1e1", &read_number).unwrap(), single(10.0));
}
