//! The test-case loader: turn comma-separated text into an ordered sequence
//! of test-case definitions, or fail with the first row that is not a
//! three-field record whose last field is a lenient boolean.
//!
//! The row splitting is `csv`'s; every row is treated as data (a header, if
//! present, must be stripped by the caller). The boolean spellings are
//! `lenient_bool`'s.

use vstd::prelude::*;

use crate::cases::{TestCaseDefView, TestCaseDefinition};

verus! {

/// Why loading failed.
#[derive(Clone, Copy, Debug, PartialEq, Eq, Structural)]
pub enum LoadError {
    /// The test-case file could not be read.
    Io,
    /// A row does not have exactly three fields.
    MalformedRow,
    /// A row's third field is not a recognized boolean spelling.
    InvalidBoolean,
}

impl LoadError {
    /// A human-readable description of the error.
    pub fn describe(&self) -> (r: &'static str)
        ensures
            self is Io ==> r@ == "cannot read the test case file"@,
            self is MalformedRow ==> r@ == "a row does not have exactly three fields"@,
            self is InvalidBoolean ==> r@ == "a row's expected result is not a boolean"@,
    {
        match self {
            LoadError::Io => "cannot read the test case file",
            LoadError::MalformedRow => "a row does not have exactly three fields",
            LoadError::InvalidBoolean => "a row's expected result is not a boolean",
        }
    }
}

/// Does `a` match `b`, where `b` is a lower-case ASCII character, up to
/// ASCII case?
pub open spec fn char_matches_lower(a: char, b: char) -> bool {
    a == b || ('a' <= b <= 'z' && a as int == b as int - 32)
}

/// Does `s` equal the lower-case ASCII string `t` up to ASCII case?
pub open spec fn matches_ascii_lower(s: Seq<char>, t: Seq<char>) -> bool {
    s.len() == t.len() && forall|i: int| 0 <= i < s.len() ==> char_matches_lower(s[i], #[trigger] t[i])
}

/// The lenient reading of a boolean token: the spellings `true`, `t`, `yes`
/// and `y` (any ASCII case) and `1` mean true; `false`, `f`, `no`, `n` (any
/// ASCII case) and `0` mean false; anything else is not a boolean.
pub open spec fn lenient_bool_of(s: Seq<char>) -> Option<bool> {
    if matches_ascii_lower(s, "true"@) || matches_ascii_lower(s, "t"@) || matches_ascii_lower(
        s,
        "yes"@,
    ) || matches_ascii_lower(s, "y"@) || s == "1"@ {
        Some(true)
    } else if matches_ascii_lower(s, "false"@) || matches_ascii_lower(s, "f"@)
        || matches_ascii_lower(s, "no"@) || matches_ascii_lower(s, "n"@) || s == "0"@ {
        Some(false)
    } else {
        None
    }
}

/// Relies on `lenient_bool::LenientBool::from_str`: it accepts exactly the
/// spellings `true`, `t`, `yes`, `y` (compared ignoring ASCII case) and the
/// bare `1` as true, and `false`, `f`, `no`, `n` and `0` as false, and
/// rejects every other string.
#[verifier::external_body]
fn parse_lenient_bool(field: &str) -> (r: Option<bool>)
    ensures
        r == lenient_bool_of(field@),
{
    match field.parse::<lenient_bool::LenientBool>() {
        Ok(b) => Some(b.0),
        Err(_) => None,
    }
}

/// The records that the comma-separated text splits into: a sequence of
/// rows, each a sequence of fields. The splitting is `csv`'s and depends on
/// the text alone, so it is given a name without a body.
pub uninterp spec fn csv_records(content: Seq<char>) -> Seq<Seq<Seq<char>>>;

/// Relies on `csv::ReaderBuilder`: a reader over the text with no header
/// handling and no field-count check splits it into exactly the records the
/// text holds, deterministically. Reading valid UTF-8 from memory with the
/// field-count check off cannot fail at all — no read error can arise from a
/// byte slice, unequal record lengths are tolerated, and fields split at
/// ASCII delimiters stay valid UTF-8 — so the records are always returned.
#[verifier::external_body]
fn split_records(content: &str) -> (r: Option<Vec<Vec<String>>>)
    ensures
        r is Some,
        r matches Some(rows) ==> rows.deep_view() == csv_records(content@),
{
    let mut reader = csv::ReaderBuilder::new().has_headers(false).flexible(true).from_reader(
        content.as_bytes(),
    );
    let mut rows: Vec<Vec<String>> = Vec::new();
    for record in reader.records() {
        match record {
            Ok(rec) => rows.push(rec.iter().map(|field| field.to_string()).collect()),
            Err(_) => return None,
        }
    }
    Some(rows)
}

/// Is this record a well-formed test case: exactly three fields, the third a
/// lenient boolean?
pub open spec fn record_ok(rec: Seq<Seq<char>>) -> bool {
    rec.len() == 3 && lenient_bool_of(rec[2]) is Some
}

/// Are all records of the split well formed?
pub open spec fn records_ok(recs: Seq<Seq<Seq<char>>>) -> bool {
    forall|i: int| 0 <= i < recs.len() ==> record_ok(#[trigger] recs[i])
}

/// The definition a well-formed record describes.
pub open spec fn case_of_record(rec: Seq<Seq<char>>) -> TestCaseDefView {
    TestCaseDefView {
        user_agent: rec[0],
        url: rec[1],
        expected_result: lenient_bool_of(rec[2]).unwrap(),
    }
}

/// The definitions that a fully well-formed split describes, in order.
pub open spec fn cases_of_records(recs: Seq<Seq<Seq<char>>>) -> Seq<TestCaseDefView> {
    recs.map_values(|rec: Seq<Seq<char>>| case_of_record(rec))
}

/// The error the first ill-formed record draws: a wrong field count before a
/// bad boolean.
pub open spec fn record_error(rec: Seq<Seq<char>>) -> LoadError {
    if rec.len() != 3 {
        LoadError::MalformedRow
    } else {
        LoadError::InvalidBoolean
    }
}

/// The error of the first ill-formed record of the split, if any, in record
/// order.
pub open spec fn first_error(recs: Seq<Seq<Seq<char>>>) -> Option<LoadError>
    decreases recs.len(),
{
    if recs.len() == 0 {
        None
    } else if !record_ok(recs.first()) {
        Some(record_error(recs.first()))
    } else {
        first_error(recs.drop_first())
    }
}

/// What loading a split must yield: the definitions its records describe
/// when every record is well formed, else the first ill-formed record's
/// error.
pub open spec fn load_result_of(recs: Seq<Seq<Seq<char>>>) -> Result<Seq<TestCaseDefView>, LoadError> {
    match first_error(recs) {
        None => Ok(cases_of_records(recs)),
        Some(e) => Err(e),
    }
}

proof fn lemma_first_error_at(recs: Seq<Seq<Seq<char>>>, i: int)
    requires
        0 <= i < recs.len(),
        forall|j: int| 0 <= j < i ==> record_ok(#[trigger] recs[j]),
        !record_ok(recs[i]),
    ensures
        first_error(recs) == Some(record_error(recs[i])),
    decreases i,
{
    if i > 0 {
        assert(record_ok(recs[0]));
        assert forall|j: int| 0 <= j < i - 1 implies record_ok(#[trigger] recs.drop_first()[j]) by {
            assert(recs.drop_first()[j] == recs[j + 1]);
        }
        assert(recs.drop_first()[i - 1] == recs[i]);
        lemma_first_error_at(recs.drop_first(), i - 1);
    }
}

proof fn lemma_first_error_none(recs: Seq<Seq<Seq<char>>>)
    ensures
        first_error(recs) is None <==> records_ok(recs),
    decreases recs.len(),
{
    if recs.len() > 0 {
        lemma_first_error_none(recs.drop_first());
        assert forall|j: int| 0 <= j < recs.drop_first().len() implies (record_ok(
            #[trigger] recs.drop_first()[j],
        ) <==> record_ok(recs[j + 1])) by {
            assert(recs.drop_first()[j] == recs[j + 1]);
        }
        if records_ok(recs) {
            assert(record_ok(recs[0]));
        }
        if first_error(recs) is None {
            assert forall|j: int| 0 <= j < recs.len() implies record_ok(#[trigger] recs[j]) by {
                if j > 0 {
                    assert(recs.drop_first()[j - 1] == recs[j]);
                }
            }
        }
    }
}

proof fn lemma_first_error_not_io(recs: Seq<Seq<Seq<char>>>)
    ensures
        first_error(recs) matches Some(e) ==> e != LoadError::Io,
    decreases recs.len(),
{
    if recs.len() > 0 && record_ok(recs.first()) {
        lemma_first_error_not_io(recs.drop_first());
    }
}

/// Loading succeeds exactly on fully well-formed splits, and then yields
/// exactly the definitions the records describe.
pub proof fn lemma_load_result_ok_iff(recs: Seq<Seq<Seq<char>>>)
    ensures
        load_result_of(recs) is Ok <==> records_ok(recs),
        load_result_of(recs) is Ok ==> load_result_of(recs) == Ok::<
            Seq<TestCaseDefView>,
            LoadError,
        >(cases_of_records(recs)),
{
    lemma_first_error_none(recs);
}

/// Loading is deterministic: two results that both load identical content
/// are equal, in the success case and in the error case alike.
pub proof fn lemma_load_deterministic(
    content: Seq<char>,
    r1: Result<Seq<TestCaseDefView>, LoadError>,
    r2: Result<Seq<TestCaseDefView>, LoadError>,
)
    requires
        r1 == load_result_of(csv_records(content)),
        r2 == load_result_of(csv_records(content)),
    ensures
        r1 == r2,
{
}

/// Build the definitions from the split records: one definition per record,
/// in order, when every record is well formed, else the error of the first
/// ill-formed record.
pub fn cases_from_records(rows: &Vec<Vec<String>>) -> (r: Result<Vec<TestCaseDefinition>, LoadError>)
    ensures
        r is Ok <==> records_ok(rows.deep_view()),
        r matches Ok(cases) ==> load_result_of(rows.deep_view()) == Ok::<
            Seq<TestCaseDefView>,
            LoadError,
        >(cases.deep_view()),
        r matches Err(e) ==> load_result_of(rows.deep_view()) == Err::<
            Seq<TestCaseDefView>,
            LoadError,
        >(e),
{
    let ghost recs = rows.deep_view();
    let mut cases: Vec<TestCaseDefinition> = Vec::new();
    let n = rows.len();
    for i in 0..n
        invariant
            recs == rows.deep_view(),
            n == rows@.len(),
            cases@.len() == i,
            forall|j: int| 0 <= j < i ==> record_ok(#[trigger] recs[j]),
            cases.deep_view() =~= cases_of_records(recs).take(i as int),
    {
        let row = &rows[i];
        if row.len() != 3 {
            proof {
                assert(!record_ok(recs[i as int]));
                lemma_first_error_at(recs, i as int);
            }
            return Err(LoadError::MalformedRow);
        }
        let expected = match parse_lenient_bool(row[2].as_str()) {
            Some(b) => b,
            None => {
                proof {
                    assert(!record_ok(recs[i as int]));
                    lemma_first_error_at(recs, i as int);
                }
                return Err(LoadError::InvalidBoolean);
            },
        };
        let case = TestCaseDefinition {
            user_agent: row[0].clone(),
            url: row[1].clone(),
            expected_result: expected,
        };
        cases.push(case);
        assert(cases.deep_view() =~= cases_of_records(recs).take(i + 1));
    }
    proof {
        lemma_first_error_none(recs);
        assert(cases.deep_view() =~= cases_of_records(recs));
    }
    Ok(cases)
}

/// Load the test-case definitions from comma-separated text: split it into
/// records, then build one definition per record. Loading returns exactly
/// what `load_result_of` says of the text's records: the definitions they
/// describe when every record is well formed, else the first ill-formed
/// record's error; `Io` is never returned here.
pub fn load_test_cases(content: &str) -> (r: Result<Vec<TestCaseDefinition>, LoadError>)
    ensures
        r matches Ok(cases) ==> load_result_of(csv_records(content@)) == Ok::<
            Seq<TestCaseDefView>,
            LoadError,
        >(cases.deep_view()),
        r matches Err(e) ==> load_result_of(csv_records(content@)) == Err::<
            Seq<TestCaseDefView>,
            LoadError,
        >(e),
        r is Ok <==> records_ok(csv_records(content@)),
        r matches Err(e) ==> e != LoadError::Io,
{
    proof {
        lemma_first_error_none(csv_records(content@));
        lemma_first_error_not_io(csv_records(content@));
    }
    match split_records(content) {
        Some(rows) => cases_from_records(&rows),
        None => Err(LoadError::MalformedRow),
    }
}

} // verus!
