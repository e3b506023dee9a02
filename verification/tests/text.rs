use nam_audio_pipe::gate::{gate_syntax, gate_threshold, GateConfig, GateRefusal, GateSyntax, ParsedDb};
use nam_audio_pipe::single::Single;
use nam_audio_pipe::text::{append_decimal, parse_u32, parse_usize, same_text, strip_suffix};

fn single(x: f32) -> Single {
    Single { bits: x.to_bits() }
}

#[test]
fn unsigned_numbers_are_read_as_by_the_standard_library() {
    for text in ["0", "7", "+7", "007", "4294967295", "4294967296", "", "+", "-0", "-1", "1a", " 1", "1_0", "٣"] {
        assert_eq!(parse_u32(text), text.parse::<u32>().ok(), "{text:?}");
        assert_eq!(parse_usize(text), text.parse::<usize>().ok(), "{text:?}");
    }
    assert_eq!(parse_usize("99999999999999999999999"), None);
}

#[test]
fn a_written_number_reads_back() {
    for n in [0u32, 9, 10, 48000, 1_000_000_007, u32::MAX] {
        let mut out = String::new();
        append_decimal(&mut out, n as u64);
        assert_eq!(out, format!("{n}"));
        assert_eq!(parse_u32(&out), Some(n));
    }
}

#[test]
fn suffixes_are_stripped_once() {
    assert_eq!(strip_suffix("-45dbdb", "db"), Some("-45db"));
    assert_eq!(strip_suffix("db", "db"), Some(""));
    assert_eq!(strip_suffix("d", "db"), None);
    assert_eq!(strip_suffix("-45", "db"), None);
    assert!(same_text("on", "on"));
    assert!(!same_text("on", "onn"));
}

#[test]
fn the_unit_of_a_gate_level_is_dropped_with_the_space_before_it() {
    for text in ["-45 dB", "  -45DBFS ", "-45"] {
        match gate_syntax(text) {
            GateSyntax::Number(number) => assert_eq!(number, "-45"),
            GateSyntax::Mode(_) => panic!("{text:?} is no mode"),
        }
    }
    assert!(matches!(gate_syntax(" Off "), GateSyntax::Mode(GateConfig::Off)));
}

#[test]
fn a_gate_level_opens_above_where_it_closes() {
    let read = |x: f32| Some(ParsedDb { value: single(x), lowered: single(-x.abs() - 10.0) });
    for x in [-96.0f32, -95.5, -86.0, -70.25, -20.0, 20.0, 55.5, 96.0] {
        match gate_threshold(read(x)) {
            Ok(GateConfig::Threshold { threshold_open_db, threshold_close_db }) => {
                assert_eq!(threshold_open_db, single(-x.abs()));
                assert_eq!(threshold_close_db, single((-x.abs() - 10.0).max(-96.0)));
                assert!(threshold_close_db.le(threshold_open_db));
            }
            other => panic!("{x} was not accepted: {other:?}"),
        }
    }
    assert_eq!(
        gate_threshold(read(-19.5)),
        Err(GateRefusal::OutOfRange { open_db: single(-19.5), typed_positive: false })
    );
    assert_eq!(gate_threshold(read(f32::NAN)), Err(GateRefusal::NotAMode));
    assert_eq!(gate_threshold(read(f32::NEG_INFINITY)), Err(GateRefusal::NotAMode));
    assert_eq!(gate_threshold(None), Err(GateRefusal::NotAMode));
}

#[test]
fn bit_patterns_are_ordered_as_the_numbers() {
    let numbers = [
        f32::NEG_INFINITY,
        f32::MIN,
        -96.0,
        -1.0e-40,
        -0.0,
        0.0,
        1.0e-45,
        0.5,
        30.0,
        f32::MAX,
        f32::INFINITY,
        f32::NAN,
    ];
    for a in numbers {
        assert_eq!(single(a).is_finite(), a.is_finite());
        assert_eq!(single(a).is_positive(), a > 0.0);
        assert_eq!(single(a).negated().bits, (-a).to_bits());
        for b in numbers {
            assert_eq!(single(a).le(single(b)), a <= b, "{a} <= {b}");
        }
    }
}
