use vstd::prelude::*;
use vstd::string::StringSliceAdditionalSpecFns;

verus! {

/// One reference/output file pair taken from the manifest for a test case.
#[derive(Debug, PartialEq, Eq)]
pub struct FileEntry {
    pub reference: String,
    pub output: String,
}

/// Why the manifest could not supply the entries of a test case. Any of
/// these ends the whole run before a single comparison is launched.
#[derive(Debug, PartialEq, Eq)]
pub enum ManifestError {
    /// The manifest document could not be read at all.
    ManifestNotFound,
    /// The document is not valid JSON.
    ManifestParseError,
    /// The document holds no value under the test-case name.
    TestCaseNotFound,
    /// An entry of the test case lacks a `ref` or an `output` string field.
    MalformedEntry,
}

#[verifier::external_type_specification]
#[verifier::external_body]
pub struct ExJsonValue(json::JsonValue);

#[verifier::external_type_specification]
#[verifier::external_body]
pub struct ExJsonError(json::Error);

/// Whether the text is a JSON document that the parser accepts.
pub uninterp spec fn json_doc_ok(s: Seq<char>) -> bool;

/// The value tree the parser builds for the text; meaningful only where
/// `json_doc_ok` holds of the text.
pub uninterp spec fn doc_of(s: Seq<char>) -> json::JsonValue;

/// The member of an object under the key; the JSON null for a missing
/// member or a value of any other kind.
pub uninterp spec fn jv_member(v: json::JsonValue, key: Seq<char>) -> json::JsonValue;

/// The member of an array at the position; the JSON null out of range or
/// for a value of any other kind.
pub uninterp spec fn jv_member_at(v: json::JsonValue, i: usize) -> json::JsonValue;

/// Whether the parsed value is the JSON null.
pub uninterp spec fn jv_is_null(v: json::JsonValue) -> bool;

/// How many members an array holds or keys an object holds; 0 for any
/// other parsed value.
pub uninterp spec fn jv_len(v: json::JsonValue) -> usize;

/// The text of a string value; nothing for a value of any other kind.
pub uninterp spec fn jv_text(v: json::JsonValue) -> Option<Seq<char>>;

/// Longest run of consecutive ASCII digit bytes the loader hands to the
/// parser. The parser counts the fractional digits of a number literal down
/// in a 16-bit exponent with no guard, so a longer run could drive that
/// counter out of range and abort; a run of this length keeps it exactly
/// within range, and no plausible manifest comes near it.
pub const MAX_DIGIT_RUN: usize = 32768;

/// Whether the byte is an ASCII decimal digit.
pub open spec fn is_digit_byte(b: u8) -> bool {
    48 <= b <= 57
}

/// `len` consecutive digit bytes stand at position `start`.
pub open spec fn digit_run_at(s: Seq<u8>, start: int, len: int) -> bool {
    &&& 0 <= start
    &&& start + len <= s.len()
    &&& forall|j: int| start <= j < start + len ==> is_digit_byte(s[j])
}

/// No run of consecutive digit bytes is longer than `limit`.
pub open spec fn digit_runs_bounded(s: Seq<u8>, limit: int) -> bool {
    forall|start: int| !(#[trigger] digit_run_at(s, start, limit + 1))
}

/// Decides whether every run of consecutive ASCII digit bytes in the text
/// is at most `MAX_DIGIT_RUN` long.
pub fn digit_runs_are_bounded(text: &str) -> (r: bool)
    ensures
        r == digit_runs_bounded(text.spec_bytes(), MAX_DIGIT_RUN as int),
{
    let bytes: &[u8] = text.as_bytes();
    let n: usize = bytes.len();
    let mut i: usize = 0;
    let mut run: usize = 0;
    while i < n
        invariant
            bytes@ == text.spec_bytes(),
            n == bytes@.len(),
            i <= n,
            run <= i,
            run <= MAX_DIGIT_RUN,
            digit_run_at(bytes@, i - run, run as int),
            i == run || !is_digit_byte(bytes@[i - run - 1]),
            forall|start: int|
                start + MAX_DIGIT_RUN + 1 <= i ==> !(#[trigger] digit_run_at(
                    bytes@,
                    start,
                    MAX_DIGIT_RUN + 1,
                )),
        decreases n - i,
    {
        let b: u8 = bytes[i];
        if 48 <= b && b <= 57 {
            run = run + 1;
            if run > MAX_DIGIT_RUN {
                proof {
                    assert(digit_run_at(bytes@, i + 1 - run, run as int));
                    assert(!digit_runs_bounded(bytes@, MAX_DIGIT_RUN as int));
                }
                return false;
            }
            proof {
                assert forall|start: int| start + MAX_DIGIT_RUN + 1 <= i + 1 implies !(
                #[trigger] digit_run_at(bytes@, start, MAX_DIGIT_RUN + 1)) by {
                    if start + MAX_DIGIT_RUN + 1 == i + 1 && digit_run_at(
                        bytes@,
                        start,
                        MAX_DIGIT_RUN + 1,
                    ) {
                        // The run before position `i + 1` is only `run` long,
                        // so the byte just before it is not a digit yet lies
                        // inside any digit run of greater length ending there.
                        assert(start <= i - run < i + 1);
                        assert(is_digit_byte(bytes@[i - run]));
                    }
                }
            }
        } else {
            run = 0;
        }
        i += 1;
    }
    true
}

/// Relies on json::parse: it builds the value tree of a well-formed document
/// and fails exactly on text that is not valid JSON. Its number parser
/// counts fractional digits down in a 16-bit exponent with no guard, so
/// texts whose digit runs exceed `MAX_DIGIT_RUN` are excluded here and must
/// be rejected by the caller before the call.
#[verifier::external_body]
fn parse_document(text: &str) -> (r: Result<json::JsonValue, json::Error>)
    requires
        digit_runs_bounded(text.spec_bytes(), MAX_DIGIT_RUN as int),
    ensures
        r is Ok <==> json_doc_ok(text@),
        r matches Ok(v) ==> v == doc_of(text@),
{
    json::parse(text)
}

/// Relies on JsonValue's indexing by key: the named member of an object, and
/// the JSON null for a missing member or a value of any other kind. The
/// lookup is total and depends on the value and the key alone.
#[verifier::external_body]
fn member<'a>(v: &'a json::JsonValue, key: &str) -> (r: &'a json::JsonValue)
    ensures
        *r == jv_member(*v, key@),
{
    &v[key]
}

/// Relies on JsonValue's indexing by position: the array member at the
/// index, and the JSON null out of range or for a value of any other kind.
/// The lookup is total and depends on the value and the position alone.
#[verifier::external_body]
fn member_at<'a>(v: &'a json::JsonValue, i: usize) -> (r: &'a json::JsonValue)
    ensures
        *r == jv_member_at(*v, i),
{
    &v[i]
}

/// Relies on JsonValue::is_null.
#[verifier::external_body]
fn value_is_null(v: &json::JsonValue) -> (r: bool)
    ensures
        r == jv_is_null(*v),
{
    v.is_null()
}

/// Relies on JsonValue::len: the number of array members or object keys,
/// 0 for any other kind of value.
#[verifier::external_body]
fn value_len(v: &json::JsonValue) -> (r: usize)
    ensures
        r == jv_len(*v),
{
    v.len()
}

/// Relies on JsonValue::as_str: the text of a string value, nothing for a
/// value of any other kind.
#[verifier::external_body]
fn value_text<'a>(v: &'a json::JsonValue) -> (r: Option<&'a str>)
    ensures
        match r {
            Some(t) => jv_text(*v) == Some(t@),
            None => jv_text(*v) is None,
        },
{
    v.as_str()
}

/// Every entry has both of its string fields.
pub open spec fn all_fields_present(raw: Seq<(Option<String>, Option<String>)>) -> bool {
    forall|i: int| 0 <= i < raw.len() ==> (#[trigger] raw[i]).0 is Some && raw[i].1 is Some
}

/// Builds the entry list from the `ref` and `output` text fields found for
/// each manifest entry, in order: the whole list is returned exactly when
/// every entry had both fields, and a single absent field anywhere makes the
/// entry list malformed.
pub fn entries_from_fields(raw: &Vec<(Option<String>, Option<String>)>) -> (r: Result<
    Vec<FileEntry>,
    ManifestError,
>)
    ensures
        r is Ok <==> all_fields_present(raw@),
        r matches Ok(es) ==> es@.len() == raw@.len() && forall|i: int|
            0 <= i < raw@.len() ==> (#[trigger] es@[i]).reference == raw@[i].0.unwrap()
                && es@[i].output == raw@[i].1.unwrap(),
        r matches Err(e) ==> e == ManifestError::MalformedEntry,
{
    let mut entries: Vec<FileEntry> = Vec::new();
    let n: usize = raw.len();
    let mut i: usize = 0;
    while i < n
        invariant
            n == raw@.len(),
            i <= n,
            entries@.len() == i,
            forall|j: int| 0 <= j < i ==> (#[trigger] raw@[j]).0 is Some && raw@[j].1 is Some,
            forall|j: int|
                0 <= j < i ==> (#[trigger] entries@[j]).reference == raw@[j].0.unwrap()
                    && entries@[j].output == raw@[j].1.unwrap(),
        decreases n - i,
    {
        match (&raw[i].0, &raw[i].1) {
            (Some(r), Some(o)) => {
                entries.push(FileEntry { reference: r.clone(), output: o.clone() });
            },
            _ => {
                return Err(ManifestError::MalformedEntry);
            },
        }
        i += 1;
    }
    Ok(entries)
}

/// The value of the test case in the parsed manifest text.
pub open spec fn case_value(text: Seq<char>, test_name: Seq<char>) -> json::JsonValue {
    jv_member(doc_of(text), test_name)
}

/// The `files` array of the test case in the parsed manifest text.
pub open spec fn files_value(text: Seq<char>, test_name: Seq<char>) -> json::JsonValue {
    jv_member(case_value(text, test_name), "files"@)
}

/// The text of the `ref` field of the entry at position `i` of the files
/// array; nothing where the field is absent or not a string.
pub open spec fn entry_ref_text(files: json::JsonValue, i: int) -> Option<Seq<char>> {
    jv_text(jv_member(jv_member_at(files, i as usize), "ref"@))
}

/// The text of the `output` field of the entry at position `i` of the files
/// array; nothing where the field is absent or not a string.
pub open spec fn entry_output_text(files: json::JsonValue, i: int) -> Option<Seq<char>> {
    jv_text(jv_member(jv_member_at(files, i as usize), "output"@))
}

/// Every entry of the files array has both of its string fields.
pub open spec fn all_entries_wellformed(files: json::JsonValue) -> bool {
    forall|i: int|
        0 <= i < jv_len(files) ==> (#[trigger] entry_ref_text(files, i)) is Some
            && entry_output_text(files, i) is Some
}

/// An extracted optional field agrees with the text the manifest holds.
pub open spec fn text_field_matches(field: Option<String>, text: Option<Seq<char>>) -> bool {
    match field {
        Some(s) => text == Some(s@),
        None => text is None,
    }
}

/// The loader accepts the manifest text: its digit runs keep the parser's
/// fraction counter in range, and it is valid JSON.
pub open spec fn manifest_text_ok(text: &str) -> bool {
    digit_runs_bounded(text.spec_bytes(), MAX_DIGIT_RUN as int) && json_doc_ok(text@)
}

/// Extracts the ordered entry list of one test case from the manifest text:
/// the document is parsed, the test-case name is looked up, and each member
/// of its `files` array contributes one entry built from its `ref` and
/// `output` string fields. Exactly one condition is reported per text: a
/// parse error for text that is not valid JSON (or that holds a digit run
/// beyond `MAX_DIGIT_RUN`, which is kept away from the parser), an unknown
/// test case where the name leads to the JSON null, a malformed entry where
/// some entry of the files array lacks a string field, and otherwise the
/// full entry list, whose texts are the manifest's, in order.
pub fn load_entries(text: &str, test_name: &str) -> (r: Result<Vec<FileEntry>, ManifestError>)
    ensures
        (r matches Err(e) && e == ManifestError::ManifestParseError) <==> !manifest_text_ok(text),
        (r matches Err(e) && e == ManifestError::TestCaseNotFound) <==> (manifest_text_ok(text)
            && jv_is_null(case_value(text@, test_name@))),
        (r matches Err(e) && e == ManifestError::MalformedEntry) <==> (manifest_text_ok(text)
            && !jv_is_null(case_value(text@, test_name@)) && !all_entries_wellformed(
            files_value(text@, test_name@),
        )),
        r is Ok <==> (manifest_text_ok(text) && !jv_is_null(case_value(text@, test_name@))
            && all_entries_wellformed(files_value(text@, test_name@))),
        r matches Ok(es) ==> es@.len() == jv_len(files_value(text@, test_name@)) && forall|i: int|
            0 <= i < es@.len() ==> (#[trigger] es@[i]).reference@ == entry_ref_text(
                files_value(text@, test_name@),
                i,
            ).unwrap() && es@[i].output@ == entry_output_text(
                files_value(text@, test_name@),
                i,
            ).unwrap(),
        r matches Err(e) ==> e != ManifestError::ManifestNotFound,
{
    if !digit_runs_are_bounded(text) {
        return Err(ManifestError::ManifestParseError);
    }
    let doc = match parse_document(text) {
        Ok(doc) => doc,
        Err(_) => {
            return Err(ManifestError::ManifestParseError);
        },
    };
    let case = member(&doc, test_name);
    if value_is_null(case) {
        return Err(ManifestError::TestCaseNotFound);
    }
    let files = member(case, "files");
    let ghost fv = files_value(text@, test_name@);
    let n: usize = value_len(files);
    let mut raw: Vec<(Option<String>, Option<String>)> = Vec::new();
    let mut i: usize = 0;
    while i < n
        invariant
            *files == fv,
            fv == files_value(text@, test_name@),
            n == jv_len(fv),
            i <= n,
            raw@.len() == i,
            forall|j: int|
                0 <= j < i ==> text_field_matches((#[trigger] raw@[j]).0, entry_ref_text(fv, j))
                    && text_field_matches(raw@[j].1, entry_output_text(fv, j)),
        decreases n - i,
    {
        let entry = member_at(files, i);
        let reference = match value_text(member(entry, "ref")) {
            Some(t) => Some(t.to_owned()),
            None => None,
        };
        let output = match value_text(member(entry, "output")) {
            Some(t) => Some(t.to_owned()),
            None => None,
        };
        raw.push((reference, output));
        i += 1;
    }
    let r = entries_from_fields(&raw);
    proof {
        if all_fields_present(raw@) {
            assert forall|j: int| 0 <= j < jv_len(fv) implies (#[trigger] entry_ref_text(
                fv,
                j,
            )) is Some && entry_output_text(fv, j) is Some by {
                assert(text_field_matches(raw@[j].0, entry_ref_text(fv, j)));
                assert(text_field_matches(raw@[j].1, entry_output_text(fv, j)));
            }
        }
        if all_entries_wellformed(fv) {
            assert forall|j: int| 0 <= j < raw@.len() implies (#[trigger] raw@[j]).0 is Some
                && raw@[j].1 is Some by {
                assert(entry_ref_text(fv, j) is Some && entry_output_text(fv, j) is Some);
            }
        }
        if let Ok(es) = &r {
            assert forall|j: int| 0 <= j < es@.len() implies (#[trigger] es@[j]).reference@
                == entry_ref_text(fv, j).unwrap() && es@[j].output@ == entry_output_text(
                fv,
                j,
            ).unwrap() by {
                assert(text_field_matches(raw@[j].0, entry_ref_text(fv, j)));
                assert(text_field_matches(raw@[j].1, entry_output_text(fv, j)));
                assert(es@[j].reference == raw@[j].0.unwrap());
                assert(es@[j].output == raw@[j].1.unwrap());
            }
        }
    }
    r
}

} // verus!
