use robots_harness::loader::{load_test_cases, LoadError};

#[test]
fn loads_three_records_exactly() {
    let content = "googlebot,/search,true\nbingbot,/private,false\nduckbot,/,yes\n";
    let cases = load_test_cases(content).unwrap();
    assert_eq!(cases.len(), 3);
    assert_eq!(cases[0].user_agent, "googlebot");
    assert_eq!(cases[0].url, "/search");
    assert_eq!(cases[0].expected_result, true);
    assert_eq!(cases[1].user_agent, "bingbot");
    assert_eq!(cases[1].url, "/private");
    assert_eq!(cases[1].expected_result, false);
    assert_eq!(cases[2].user_agent, "duckbot");
    assert_eq!(cases[2].url, "/");
    assert_eq!(cases[2].expected_result, true);
}

#[test]
fn empty_content_loads_no_cases() {
    let cases = load_test_cases("").unwrap();
    assert_eq!(cases.len(), 0);
}

#[test]
fn malformed_row_fails_with_malformed_row() {
    let content = "bot,/x,true\nbot,/y\n";
    assert_eq!(load_test_cases(content).unwrap_err(), LoadError::MalformedRow);
}

#[test]
fn row_with_four_fields_fails_with_malformed_row() {
    let content = "bot,/x,true,extra\n";
    assert_eq!(load_test_cases(content).unwrap_err(), LoadError::MalformedRow);
}

#[test]
fn bad_boolean_fails_with_invalid_boolean() {
    let content = "bot,/x,maybe\n";
    assert_eq!(load_test_cases(content).unwrap_err(), LoadError::InvalidBoolean);
}

#[test]
fn first_bad_row_decides_the_error() {
    let content = "bot,/x,true\nbot,/y\nbot,/z,maybe\n";
    assert_eq!(load_test_cases(content).unwrap_err(), LoadError::MalformedRow);
    let content = "bot,/x,true\nbot,/z,maybe\nbot,/y\n";
    assert_eq!(load_test_cases(content).unwrap_err(), LoadError::InvalidBoolean);
}

#[test]
fn header_row_is_ordinary_data() {
    let content = "user_agent,url,expected_result\nbot,/x,true\n";
    assert_eq!(load_test_cases(content).unwrap_err(), LoadError::InvalidBoolean);
}

#[test]
fn lenient_true_spellings_are_accepted() {
    for token in ["true", "TRUE", "True", "t", "T", "yes", "Yes", "YES", "y", "Y", "1"] {
        let content = format!("bot,/x,{}\n", token);
        let cases = load_test_cases(&content).unwrap();
        assert_eq!(cases.len(), 1);
        assert_eq!(cases[0].expected_result, true);
    }
}

#[test]
fn lenient_false_spellings_are_accepted() {
    for token in ["false", "FALSE", "False", "f", "F", "no", "No", "NO", "n", "N", "0"] {
        let content = format!("bot,/x,{}\n", token);
        let cases = load_test_cases(&content).unwrap();
        assert_eq!(cases.len(), 1);
        assert_eq!(cases[0].expected_result, false);
    }
}

#[test]
fn numeric_spellings_admit_no_case_padding() {
    assert_eq!(load_test_cases("bot,/x,01\n").unwrap_err(), LoadError::InvalidBoolean);
    assert_eq!(load_test_cases("bot,/x, 1\n").unwrap_err(), LoadError::InvalidBoolean);
}

#[test]
fn quoted_field_keeps_its_comma() {
    let content = "bot,\"/a,b\",true\n";
    let cases = load_test_cases(content).unwrap();
    assert_eq!(cases.len(), 1);
    assert_eq!(cases[0].url, "/a,b");
}

#[test]
fn load_error_descriptions() {
    assert_eq!(LoadError::Io.describe(), "cannot read the test case file");
    assert_eq!(
        LoadError::MalformedRow.describe(),
        "a row does not have exactly three fields"
    );
    assert_eq!(
        LoadError::InvalidBoolean.describe(),
        "a row's expected result is not a boolean"
    );
}

#[test]
fn repeated_loads_of_identical_content_agree() {
    let content = "bot,/x,true\nbot,/y,no\n";
    let first = load_test_cases(content).unwrap();
    let second = load_test_cases(content).unwrap();
    assert_eq!(first.len(), second.len());
    for (a, b) in first.iter().zip(second.iter()) {
        assert_eq!(a.user_agent, b.user_agent);
        assert_eq!(a.url, b.url);
        assert_eq!(a.expected_result, b.expected_result);
    }
    assert_eq!(
        load_test_cases("bot,/x\n").unwrap_err(),
        load_test_cases("bot,/x\n").unwrap_err()
    );
}
