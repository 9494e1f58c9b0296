use auxin::logic_parser::{
    detect_logic_version, parse_sample_rate_placeholder, parse_string_at_offset, parse_u32_at_offset, LogicParser,
    ProjectDataFile, ProjectError, ProjectLayout,
};

#[test]
fn test_parse_u32_at_offset() {
    let data = vec![0, 0, 0, 0, 0x80, 0xBB, 0x00, 0x00];
    let value = parse_u32_at_offset(&data, 4).unwrap();
    assert_eq!(value, 48000);
}

#[test]
fn test_parse_string_at_offset() {
    let data = vec![0, 0, 0x48, 0x65, 0x6C, 0x6C, 0x6F, 0x00, 0xFF];
    let string = parse_string_at_offset(&data, 2, 10).unwrap();
    assert_eq!(string, "Hello");
}

#[test]
fn test_detect_logic_version() {
    let data = vec![0; 100];
    let version = detect_logic_version(&data).unwrap();
    assert!(!version.is_empty());
}

#[test]
fn test_is_valid_project() {
    let layout = ProjectLayout {
        exists: true,
        is_dir: true,
        has_alternatives: true,
        has_project_data_001: true,
        has_project_data_000: false,
    };
    assert!(LogicParser::is_valid_project(&layout));
}

#[test]
fn test_invalid_project() {
    let layout = ProjectLayout {
        exists: false,
        is_dir: false,
        has_alternatives: false,
        has_project_data_001: false,
        has_project_data_000: false,
    };
    assert!(!LogicParser::is_valid_project(&layout));
}

#[test]
fn out_of_bounds_reads_are_errors() {
    let data = vec![1u8, 2, 3, 4, 5];
    assert_eq!(parse_u32_at_offset(&data, 1).unwrap(), 0x05040302);
    assert_eq!(parse_u32_at_offset(&data, 2).unwrap_err().message, "Offset 2 out of bounds for u32");
    assert_eq!(parse_string_at_offset(&data, 5, 3).unwrap_err().message, "Offset 5 out of bounds");
    assert_eq!(parse_string_at_offset(&[0xC3, 0x28], 0, 2).unwrap_err().message, "Invalid UTF-8 in string");
    assert_eq!(parse_string_at_offset(b"abcdef", 1, 3).unwrap(), "bcd");
}

#[test]
fn version_of_short_data_is_unknown() {
    assert_eq!(detect_logic_version(&[1, 2, 3]).unwrap(), "Unknown");
    assert_eq!(detect_logic_version(&[1, 2, 3, 4]).unwrap(), "11.0.0");
}

#[test]
fn sample_rate_is_the_first_common_rate_on_a_word_boundary() {
    let mut data = vec![0u8; 16];
    data[8..12].copy_from_slice(&96000u32.to_le_bytes());
    assert_eq!(parse_sample_rate_placeholder(&data), 96000);
    assert_eq!(parse_sample_rate_placeholder(&[0u8; 16]), 48000);
    let mut unaligned = vec![0u8; 16];
    unaligned[2..6].copy_from_slice(&44100u32.to_le_bytes());
    assert_eq!(parse_sample_rate_placeholder(&unaligned), 48000);
}

#[test]
fn a_package_needs_one_of_the_project_data_files() {
    let mut layout = ProjectLayout {
        exists: true,
        is_dir: true,
        has_alternatives: true,
        has_project_data_001: false,
        has_project_data_000: true,
    };
    assert!(LogicParser::is_valid_project(&layout));
    layout.has_project_data_000 = false;
    assert!(!LogicParser::is_valid_project(&layout));
    layout.has_project_data_001 = true;
    layout.is_dir = false;
    assert!(!LogicParser::is_valid_project(&layout));
}

fn layout(exists: bool, is_dir: bool, alt: bool, d001: bool, d000: bool) -> ProjectLayout {
    ProjectLayout { exists, is_dir, has_alternatives: alt, has_project_data_001: d001, has_project_data_000: d000 }
}

#[test]
fn project_data_file_is_chosen_in_order() {
    assert_eq!(LogicParser::project_data_file(&layout(false, false, false, false, false)), Err(ProjectError::Missing));
    assert_eq!(LogicParser::project_data_file(&layout(true, false, true, true, true)), Err(ProjectError::NotADirectory));
    assert_eq!(LogicParser::project_data_file(&layout(true, true, false, true, true)), Err(ProjectError::NoAlternatives));
    assert_eq!(LogicParser::project_data_file(&layout(true, true, true, true, true)), Ok(ProjectDataFile::First));
    assert_eq!(LogicParser::project_data_file(&layout(true, true, true, false, true)), Ok(ProjectDataFile::Fallback));
    assert_eq!(LogicParser::project_data_file(&layout(true, true, true, false, false)), Err(ProjectError::NoProjectData));
}

#[test]
fn project_settings_of_binary_data() {
    let short = vec![0u8; 15];
    assert_eq!(LogicParser::parse(&short).unwrap_err().message, "ProjectData file too small");
    let mut data = vec![0u8; 24];
    // 96000 little-endian at offset 8.
    data[8] = 0x00;
    data[9] = 0x77;
    data[10] = 0x01;
    data[11] = 0x00;
    let p = LogicParser::parse(&data).unwrap();
    assert_eq!(p.sample_rate, 96000);
    assert_eq!(p.key_signature, "C Major");
    assert_eq!(p.time_signature, (4, 4));
    assert_eq!(p.bit_depth, 24);
    assert_eq!(p.logic_version, "11.0.0");
    let plain = LogicParser::parse(&vec![0u8; 16]).unwrap();
    assert_eq!(plain.sample_rate, 48000);
}

#[test]
fn project_version_needs_sixteen_bytes() {
    assert_eq!(LogicParser::detect_version(&vec![1u8; 15]).unwrap_err().message, "ProjectData too small");
    assert_eq!(LogicParser::detect_version(&vec![1u8; 16]).unwrap(), "11.0.0");
}
