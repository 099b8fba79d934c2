//! Tests of the diagnostic mapper: mapped positions, the fallback scan,
//! and the wire format.

use missionreviewer::annotation::{Annotation, Level, MapEntry, Mapping};
use missionreviewer::tree::Span;

fn entry(
    processed_start: usize,
    processed_end: usize,
    start: (usize, usize),
    end: (usize, usize),
) -> MapEntry {
    MapEntry {
        processed_start,
        processed_end,
        original_start_line: start.0,
        original_start_column: start.1,
        original_end_line: end.0,
        original_end_column: end.1,
    }
}

#[test]
fn zero_span_without_mapping_lands_on_first_position() {
    let a = Annotation::new(
        None,
        "mission.sqm".to_string(),
        "class Mission {\n};\n",
        Span { start: 0, end: 0 },
        "note".to_string(),
        Level::Notice,
    );
    assert_eq!(a.start_line, 1);
    assert_eq!(a.start_column, 1);
    assert_eq!(a.end_line, 1);
    assert_eq!(a.end_column, 1);
}

#[test]
fn mapped_span_bypasses_the_fallback_scan() {
    let mapping = Mapping {
        entries: vec![
            entry(5, 6, (3, 2), (99, 99)),
            entry(12, 13, (88, 88), (3, 9)),
        ],
    };
    let a = Annotation::new(
        Some(&mapping),
        "mission.sqm".to_string(),
        "0123456789012345678901234567890",
        Span { start: 5, end: 12 },
        "mapped".to_string(),
        Level::Warning,
    );
    assert_eq!(a.start_line, 3);
    assert_eq!(a.start_column, 2);
    assert_eq!(a.end_line, 3);
    assert_eq!(a.end_column, 9);
}

#[test]
fn failing_lookup_falls_back_to_the_scan() {
    // the mapping resolves neither span end, so the raw text decides
    let mapping = Mapping { entries: vec![entry(100, 101, (7, 7), (7, 7))] };
    let a = Annotation::new(
        Some(&mapping),
        "mission.sqm".to_string(),
        "ab\ncd\nef",
        Span { start: 4, end: 7 },
        "scanned".to_string(),
        Level::Error,
    );
    // offset 4 is the 'd' on line 2, offset 7 the 'f' on line 3
    assert_eq!(a.start_line, 2);
    assert_eq!(a.start_column, 2);
    assert_eq!(a.end_line, 3);
    assert_eq!(a.end_column, 2);
}

#[test]
fn scan_counts_lines_and_columns_from_one() {
    let a = Annotation::new(
        None,
        "mission.sqm".to_string(),
        "first\nsecond line",
        Span { start: 6, end: 13 },
        "m".to_string(),
        Level::Error,
    );
    assert_eq!(a.start_line, 2);
    assert_eq!(a.start_column, 1);
    assert_eq!(a.end_line, 2);
    assert_eq!(a.end_column, 8);
}

#[test]
fn line_renders_the_delimited_record() {
    let a = Annotation {
        path: "contracts/CO10_Test/mission.sqm".to_string(),
        start_line: 3,
        end_line: 3,
        start_column: 2,
        end_column: 9,
        level: Level::Error,
        message: "Trigger not set to server only".to_string(),
        title: String::new(),
    };
    assert_eq!(
        a.line(),
        "3||3||2||9||error||||Trigger not set to server only||contracts/CO10_Test/mission.sqm\n"
    );
}

#[test]
fn level_tokens_are_fixed() {
    assert_eq!(Level::Notice.as_str(), "notice");
    assert_eq!(Level::Warning.as_str(), "warning");
    assert_eq!(Level::Error.as_str(), "error");
}

#[test]
fn lookup_takes_the_first_containing_entry() {
    let mapping = Mapping {
        entries: vec![entry(0, 10, (1, 1), (1, 10)), entry(5, 15, (2, 1), (2, 10))],
    };
    assert_eq!(mapping.lookup(7), Some(entry(0, 10, (1, 1), (1, 10))));
    assert_eq!(mapping.lookup(12), Some(entry(5, 15, (2, 1), (2, 10))));
    assert_eq!(mapping.lookup(20), None);
}
