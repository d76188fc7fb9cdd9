use asciivid::names::decimal_string;
use asciivid::names::extracted_frame_name;
use asciivid::names::output_frame_name;
use asciivid::names::padded_index_string;

#[test]
fn decimal_digits_come_most_significant_first() {
    assert_eq!(decimal_string(0), "0");
    assert_eq!(decimal_string(7), "7");
    assert_eq!(decimal_string(42), "42");
    assert_eq!(decimal_string(120345), "120345");
}

#[test]
fn indices_are_zero_padded_to_four_digits() {
    assert_eq!(padded_index_string(1), "0001");
    assert_eq!(padded_index_string(42), "0042");
    assert_eq!(padded_index_string(999), "0999");
    assert_eq!(padded_index_string(9999), "9999");
    assert_eq!(padded_index_string(10000), "10000");
}

#[test]
fn output_frames_are_named_from_their_position_alone() {
    assert_eq!(output_frame_name(1), "ascii_frame0001.png");
    assert_eq!(output_frame_name(42), "ascii_frame0042.png");
    assert_eq!(output_frame_name(10000), "ascii_frame10000.png");
}

#[test]
fn extracted_frames_follow_the_extraction_naming_convention() {
    assert_eq!(extracted_frame_name(1), "frame0001.png");
    assert_eq!(extracted_frame_name(7), "frame0007.png");
}

#[test]
fn distinct_positions_get_distinct_names() {
    let mut names: Vec<String> = (1..=25u64).map(output_frame_name).collect();
    names.sort();
    names.dedup();
    assert_eq!(names.len(), 25);
}
