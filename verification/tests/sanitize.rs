use mfutil::organize;
use mfutil::utils;

#[test]
fn organize_test_sanitize_filename_basic() {
    // Test basic sanitization
    assert_eq!(organize::sanitize_filename("normal_name"), "normal_name");
    assert_eq!(organize::sanitize_filename("file with spaces"), "file with spaces");
    assert_eq!(organize::sanitize_filename("file/with\\bad:chars*"), "file_with_bad_chars_");
}

#[test]
fn organize_test_sanitize_filename_edge_cases() {
    // Test edge cases
    assert_eq!(organize::sanitize_filename(""), "");
    assert_eq!(organize::sanitize_filename("   "), "");
    assert_eq!(
        organize::sanitize_filename("file\x00with\x01control\x02chars"),
        "file_with_control_chars"
    );
}

#[test]
fn reorganize_test_sanitize_filename_basic() {
    // Test basic sanitization
    assert_eq!(organize::sanitize_filename("normal_name"), "normal_name");
    assert_eq!(organize::sanitize_filename("file with spaces"), "file with spaces");
    assert_eq!(organize::sanitize_filename("file/with\\bad:chars*"), "file_with_bad_chars_");
}

#[test]
fn reorganize_test_sanitize_filename_edge_cases() {
    // Test edge cases
    assert_eq!(organize::sanitize_filename(""), "");
    assert_eq!(organize::sanitize_filename("   "), "");
    assert_eq!(
        organize::sanitize_filename("file\x00with\x01control\x02chars"),
        "file_with_control_chars"
    );
}

#[test]
fn cd_test_sanitize_filename_basic() {
    assert_eq!(utils::sanitize_filename("normal_name"), "normal_name");
    assert_eq!(utils::sanitize_filename("file with spaces"), "file with spaces");
    assert_eq!(utils::sanitize_filename("file/with\\bad:chars*"), "file_with_bad_chars_");
}

#[test]
fn cd_test_sanitize_filename_edge_cases() {
    assert_eq!(utils::sanitize_filename(""), "");
    assert_eq!(utils::sanitize_filename("   "), "");
    assert_eq!(
        utils::sanitize_filename("file\x00with\x01control\x02chars"),
        "file_with_control_chars"
    );
}

#[test]
fn import_test_sanitize_filename_basic() {
    // Test basic sanitization
    assert_eq!(utils::sanitize_filename("normal_name"), "normal_name");
    assert_eq!(utils::sanitize_filename("file with spaces"), "file with spaces");
    assert_eq!(utils::sanitize_filename("file/with\\bad:chars*"), "file_with_bad_chars_");
}

#[test]
fn import_test_sanitize_filename_edge_cases() {
    // Test edge cases
    assert_eq!(utils::sanitize_filename(""), "");
    assert_eq!(utils::sanitize_filename("   "), "");
    assert_eq!(
        utils::sanitize_filename("file\x00with\x01control\x02chars"),
        "file_with_control_chars"
    );
}

#[test]
fn every_forbidden_character_becomes_an_underscore() {
    assert_eq!(utils::sanitize_filename("a/b\\c:d*e?f\"g<h>i|j'k"), "a_b_c_d_e_f_g_h_i_j_k");
    assert_eq!(organize::sanitize_filename("a/b\\c:d*e?f\"g<h>i|j'k"), "a_b_c_d_e_f_g_h_i_j'k");
}

#[test]
fn white_space_is_trimmed_after_replacing() {
    assert_eq!(utils::sanitize_filename("  padded name  "), "padded name");
    assert_eq!(utils::sanitize_filename("  padded name \t"), "padded name _");
    assert_eq!(utils::sanitize_filename("\u{a0}wide\u{3000}"), "wide");
    // A control character at the edge is replaced first, so it stays as an underscore.
    assert_eq!(utils::sanitize_filename("\ttab"), "_tab");
    assert_eq!(utils::sanitize_filename(" \u{7f} "), "_");
    assert_eq!(utils::sanitize_filename("in  side"), "in  side");
}

#[test]
fn sanitizing_twice_changes_nothing_more() {
    for name in ["  a/b  ", "x", "", " \u{85} ", "don't", "Mr. X: The \"Album\""] {
        let once = utils::sanitize_filename(name);
        assert_eq!(utils::sanitize_filename(&once), once);
    }
}
