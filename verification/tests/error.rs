use pp_core::{ChartError, ParseFailure};
use rosu_pp::Beatmap;

const HEAD: &str = "osu file format v14\n\n";

const DIFFICULTY: &str = "[Difficulty]\nHPDrainRate:5\nCircleSize:4\nOverallDifficulty:8\n\
ApproachRate:9\nSliderMultiplier:1.4\nSliderTickRate:1\n\n";

fn failure(content: &[u8]) -> ChartError {
    match Beatmap::parse(content) {
        Ok(_) => panic!("the content was taken for a chart"),
        Err(why) => ChartError::from_parse_error(&why),
    }
}

fn with_objects(lines: &str) -> Vec<u8> {
    format!("{}{}[HitObjects]\n{}", HEAD, DIFFICULTY, lines).into_bytes()
}

#[test]
fn a_file_that_is_not_there_is_a_load_error() {
    match Beatmap::from_path("no/such/directory/no_such_chart.osu") {
        Ok(_) => panic!("a chart came from nowhere"),
        Err(why) => assert_eq!(ChartError::from_parse_error(&why), ChartError::Load),
    }
}

#[test]
fn content_that_cannot_be_read_as_text_is_a_load_error() {
    assert_eq!(failure(&[0x6f, 0x73, 0x75, 0xff, 0xfe, 0x0a]), ChartError::Load);
}

#[test]
fn content_without_the_header_is_a_parse_error() {
    assert_eq!(failure(b"hello\n"), ChartError::Parse(ParseFailure::IncorrectFileHeader));
    assert_eq!(failure(b""), ChartError::Parse(ParseFailure::IncorrectFileHeader));
}

#[test]
fn a_version_that_is_no_number_is_a_parse_error() {
    assert_eq!(
        failure(b"osu file format vX\n"),
        ChartError::Parse(ParseFailure::InvalidInteger)
    );
}

#[test]
fn a_line_without_a_colon_is_a_parse_error() {
    let content = format!("{}[General]\nMode 0\n", HEAD);
    assert_eq!(failure(content.as_bytes()), ChartError::Parse(ParseFailure::BadLine));
}

#[test]
fn an_unknown_mode_is_a_parse_error() {
    let content = format!("{}[General]\nMode: 7\n", HEAD);
    assert_eq!(failure(content.as_bytes()), ChartError::Parse(ParseFailure::InvalidMode));
}

#[test]
fn a_difficulty_that_is_no_number_is_a_parse_error() {
    let content = format!("{}[Difficulty]\nApproachRate:fast\n", HEAD);
    assert_eq!(
        failure(content.as_bytes()),
        ChartError::Parse(ParseFailure::InvalidDecimalNumber)
    );
}

#[test]
fn a_missing_difficulty_field_is_a_parse_error() {
    let content = format!("{}[Difficulty]\nHPDrainRate:5\n", HEAD);
    assert_eq!(failure(content.as_bytes()), ChartError::Parse(ParseFailure::MissingField));
}

#[test]
fn a_bad_curve_point_is_a_parse_error() {
    assert_eq!(
        failure(&with_objects("100,100,1000,2,0,L|here:there,1,100\n")),
        ChartError::Parse(ParseFailure::InvalidCurvePoints)
    );
}

#[test]
fn too_many_repeats_are_a_parse_error() {
    assert_eq!(
        failure(&with_objects("100,100,1000,2,0,L|200:100,9001,100\n")),
        ChartError::Parse(ParseFailure::TooManyRepeats)
    );
}

#[test]
fn an_unknown_kind_of_object_is_a_parse_error() {
    assert_eq!(
        failure(&with_objects("100,100,1000,64,0\n")),
        ChartError::Parse(ParseFailure::UnknownHitObjectKind)
    );
}

#[test]
fn failures_are_classified() {
    assert_eq!(ChartError::classify(ParseFailure::Io), ChartError::Load);
    let others = [
        ParseFailure::IncorrectFileHeader,
        ParseFailure::BadLine,
        ParseFailure::InvalidCurvePoints,
        ParseFailure::InvalidDecimalNumber,
        ParseFailure::InvalidInteger,
        ParseFailure::InvalidMode,
        ParseFailure::MissingField,
        ParseFailure::TooManyRepeats,
        ParseFailure::UnknownHitObjectKind,
    ];
    for failure in others {
        assert_eq!(ChartError::classify(failure), ChartError::Parse(failure));
    }
}

#[test]
fn errors_describe_themselves() {
    assert_eq!(ChartError::Load.message(), "could not open file");
    assert_eq!(ChartError::Parse(ParseFailure::BadLine).message(), "error while parsing map");
    assert_eq!(ChartError::Parse(ParseFailure::InvalidMode).message(), "error while parsing map");
}
