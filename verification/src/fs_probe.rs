//! The decision logic of the filesystem round-trip probe: it expects file
//! creation under a missing parent directory to fail with a not-found
//! error, then writes a known payload and checks that the bytes read back
//! are exactly the bytes written.

use vstd::prelude::*;

verus! {

/// The error category observed when creating the test file before its
/// parent directory exists, reduced to what the probe decides on.
#[derive(PartialEq, Eq, Structural, Clone, Copy, Debug)]
pub enum FsErrorKind {
    /// The parent directory was missing.
    NotFound,
    /// Creation failed for another reason.
    Other,
}

/// The message for an unexpected result of creating a file under a missing
/// parent: creation succeeded, or failed with the wrong error.
pub open spec fn missing_parent_err_spec(observed: Option<FsErrorKind>) -> Seq<char> {
    match observed {
        None => "Incorrect open error: None, should be NotFound"@,
        Some(FsErrorKind::NotFound) => Seq::<char>::empty(),
        Some(FsErrorKind::Other) => "Incorrect open error: Some(Other), should be NotFound"@,
    }
}

/// Decides the probe's first step: creating the file must have failed
/// because the parent directory did not exist.
pub fn check_missing_parent(observed: Option<FsErrorKind>) -> (r: Result<(), String>)
    ensures
        r is Ok <==> observed == Some(FsErrorKind::NotFound),
        r matches Err(m) ==> m@ == missing_parent_err_spec(observed),
{
    match observed {
        Some(FsErrorKind::NotFound) => Ok(()),
        Some(FsErrorKind::Other) => Err(
            String::from_str("Incorrect open error: Some(Other), should be NotFound"),
        ),
        None => Err(String::from_str("Incorrect open error: None, should be NotFound")),
    }
}

/// The directory the probe creates.
pub fn test_dir_path() -> (r: String)
    ensures
        r@ == "benos_test_dir"@,
{
    String::from_str("benos_test_dir")
}

/// The file the probe writes and reads back, inside the test directory.
pub fn test_file_path() -> (r: String)
    ensures
        r@ == "benos_test_dir/bgtest_file"@,
{
    String::from_str("benos_test_dir/bgtest_file")
}

/// The known bytes the probe writes.
pub open spec fn test_payload_spec() -> Seq<u8> {
    Seq::new("BenGreen test data"@.len(), |i: int| "BenGreen test data"@[i] as u8)
}

pub fn test_payload() -> (r: Vec<u8>)
    ensures
        r@ == test_payload_spec(),
{
    let s = "BenGreen test data";
    proof {
        reveal_strlit("BenGreen test data");
        assert(vstd::string::is_ascii(s));
    }
    let v = s.as_bytes_vec();
    proof {
        broadcast use vstd::string::is_ascii_spec_bytes;

        assert(v@ =~= test_payload_spec());
    }
    v
}

/// The message when the file's content does not match what was written.
pub open spec fn mismatch_err_spec(path: Seq<char>) -> Seq<char> {
    "BenGreen: "@ + path + " did not contain the correct data"@
}

/// The round-trip judgement: the bytes read back are exactly the bytes
/// written.
pub open spec fn round_trip_ok(written: Seq<u8>, read_back: Seq<u8>) -> bool {
    written == read_back
}

/// Byte-for-byte comparison of what was written against what was read
/// back: the probe's round-trip judgement. Succeeds exactly when the two
/// payloads are identical.
pub fn check_round_trip(path: &String, written: &Vec<u8>, read_back: &Vec<u8>) -> (r: Result<
    (),
    String,
>)
    ensures
        r is Ok <==> round_trip_ok(written@, read_back@),
        r matches Err(m) ==> m@ == mismatch_err_spec(path@),
{
    let n = written.len();
    if n != read_back.len() {
        return Err(mismatch_message(path));
    }
    let mut i: usize = 0;
    while i < n
        invariant
            n == written@.len(),
            n == read_back@.len(),
            i <= n,
            forall|k: int| 0 <= k < i ==> written@[k] == read_back@[k],
        decreases n - i,
    {
        if written[i] != read_back[i] {
            return Err(mismatch_message(path));
        }
        i += 1;
    }
    proof {
        assert(written@ =~= read_back@);
    }
    Ok(())
}

fn mismatch_message(path: &String) -> (r: String)
    ensures
        r@ == mismatch_err_spec(path@),
{
    let mut s = String::from_str("BenGreen: ");
    s.append(path.as_str());
    s.append(" did not contain the correct data");
    s
}

/// Round-trip law: for every payload — the fixed one included — reading
/// back exactly the bytes that were written satisfies the probe's
/// round-trip judgement, and a satisfied judgement can only mean the
/// payloads were identical.
pub proof fn lemma_round_trip(payload: Seq<u8>, read_back: Seq<u8>)
    ensures
        round_trip_ok(payload, payload),
        round_trip_ok(payload, read_back) ==> payload =~= read_back,
{
}

} // verus!
