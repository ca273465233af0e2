use vstd::prelude::*;
use vstd::utf8::{decode_utf8, valid_utf8};
use bstr::ByteSlice;
use crate::verdict::{spec_verdict_for, verdict_for, ExitStatus, Verdict};

verus! {

/// What `bstr::ByteSlice::trim` returns for a byte string: the byte string
/// with leading and trailing Unicode whitespace removed.
pub uninterp spec fn bstr_trim(bytes: Seq<u8>) -> Seq<u8>;

/// The ASCII bytes that are Unicode whitespace: tab, line feed, vertical
/// tab, form feed, carriage return and space.
pub open spec fn is_ascii_whitespace(b: u8) -> bool {
    b == 9u8 || b == 10u8 || b == 11u8 || b == 12u8 || b == 13u8 || b == 32u8
}

/// Every byte is ASCII whitespace.
pub open spec fn all_ascii_whitespace(bytes: Seq<u8>) -> bool {
    forall|i: int| 0 <= i < bytes.len() ==> is_ascii_whitespace(#[trigger] bytes[i])
}

/// An ASCII byte that is not whitespace.
pub open spec fn is_ascii_non_whitespace(b: u8) -> bool {
    b < 128u8 && !is_ascii_whitespace(b)
}

/// A non-empty byte string that starts and ends with an ASCII byte that is
/// not whitespace, so that trimming leaves it as it is.
pub open spec fn is_plain(bytes: Seq<u8>) -> bool {
    bytes.len() > 0 && is_ascii_non_whitespace(bytes[0]) && is_ascii_non_whitespace(bytes.last())
}

/// Surrounding a byte string with ASCII whitespace does not change what it
/// trims to.
pub open spec fn padding_ignored(trimmed: Seq<u8>, bytes: Seq<u8>) -> bool {
    forall|p: Seq<u8>, q: Seq<u8>|
        all_ascii_whitespace(p) && all_ascii_whitespace(q) ==> #[trigger] bstr_trim(p + bytes + q)
            == trimmed
}

/// `part` is a contiguous run of the bytes of `whole`.
pub open spec fn is_contiguous_part(part: Seq<u8>, whole: Seq<u8>) -> bool {
    exists|i: int, j: int| 0 <= i <= j <= whole.len() && part == whole.subrange(i, j)
}

/// `trimmed` is a contiguous part of `bytes` that neither starts nor ends
/// with an ASCII whitespace byte.
pub open spec fn trimmed_form(trimmed: Seq<u8>, bytes: Seq<u8>) -> bool {
    &&& is_contiguous_part(trimmed, bytes)
    &&& trimmed.len() > 0 ==> !is_ascii_whitespace(trimmed[0]) && !is_ascii_whitespace(
        trimmed.last(),
    )
}

/// Calls `bstr::ByteSlice::trim` and copies the trimmed slice out. Its result
/// is named by `bstr_trim`. `trim` removes the longest run of `White_Space`
/// characters from each end (an anchored `\s+` search from the front, then
/// from the back), and returns the subslice that is left. Stated of it:
/// - the result is a contiguous part of the input;
/// - it neither starts nor ends with an ASCII whitespace byte, since each of
///   bytes 9 to 13 and 32 is a whole `White_Space` character;
/// - ASCII whitespace added at either end is removed with the rest, so the
///   input with such padding trims to the same result;
/// - an input that starts and ends with an ASCII byte that is not whitespace
///   is left whole.
/// Which non-ASCII bytes count as whitespace (the Unicode `White_Space`
/// property, decoded from UTF-8) is left to the name.
#[verifier::external_body]
fn trim_whitespace(bytes: &[u8]) -> (res: Vec<u8>)
    ensures
        res@ == bstr_trim(bytes@),
        trimmed_form(res@, bytes@),
        padding_ignored(res@, bytes@),
        is_plain(bytes@) ==> res@ == bytes@,
{
    bytes.trim().to_vec()
}

/// Calls `bstr::ByteSlice::to_str`: it succeeds exactly on valid UTF-8, and
/// the string it gives back decodes those bytes.
#[verifier::external_body]
pub(crate) fn utf8_string(bytes: &[u8]) -> (res: Option<String>)
    ensures
        res is Some <==> valid_utf8(bytes@),
        res matches Some(s) ==> s@ == decode_utf8(bytes@),
{
    match bytes.to_str() {
        Ok(s) => Some(s.to_string()),
        Err(_) => None,
    }
}

/// True when two byte strings hold the same bytes.
pub fn bytes_equal(a: &[u8], b: &[u8]) -> (res: bool)
    ensures
        res == (a@ == b@),
{
    if a.len() != b.len() {
        return false;
    }
    let mut i: usize = 0;
    while i < a.len()
        invariant
            a@.len() == b@.len(),
            i <= a@.len(),
            forall|j: int| 0 <= j < i ==> a@[j] == b@[j],
        decreases a@.len() - i,
    {
        if a[i] != b[i] {
            return false;
        }
        i = i + 1;
    }
    assert(a@ =~= b@);
    true
}

/// Whether a program's output is taken to equal the expected output: both
/// are compared after trimming surrounding whitespace.
pub fn outputs_match(stdout: &[u8], expected: &[u8]) -> (res: bool)
    ensures
        res == (bstr_trim(stdout@) == bstr_trim(expected@)),
        trimmed_form(bstr_trim(stdout@), stdout@),
        trimmed_form(bstr_trim(expected@), expected@),
        padding_ignored(bstr_trim(stdout@), stdout@),
        padding_ignored(bstr_trim(expected@), expected@),
        is_plain(stdout@) && is_plain(expected@) ==> (res <==> stdout@ == expected@),
{
    let got = trim_whitespace(stdout);
    let want = trim_whitespace(expected);
    bytes_equal(got.as_slice(), want.as_slice())
}

/// The verdict of a successful run from its output and the expected output.
/// It is accepted exactly when both match once trimmed. So surrounding
/// either output with more ASCII whitespace gives the same verdict, while two
/// plain outputs (see `is_plain`) are accepted only when they are the same
/// bytes: a difference inside them, in whitespace or not, is a wrong answer.
pub fn output_verdict(stdout: &[u8], expected: &[u8]) -> (res: Verdict)
    ensures
        res == spec_verdict_for(
            ExitStatus::Success,
            bstr_trim(stdout@) == bstr_trim(expected@),
        ),
        padding_ignored(bstr_trim(stdout@), stdout@),
        padding_ignored(bstr_trim(expected@), expected@),
        forall|p: Seq<u8>, q: Seq<u8>|
            all_ascii_whitespace(p) && all_ascii_whitespace(q) ==> spec_verdict_for(
                ExitStatus::Success,
                #[trigger] bstr_trim(p + stdout@ + q) == bstr_trim(expected@),
            ) == res,
        forall|p: Seq<u8>, q: Seq<u8>|
            all_ascii_whitespace(p) && all_ascii_whitespace(q) ==> spec_verdict_for(
                ExitStatus::Success,
                bstr_trim(stdout@) == #[trigger] bstr_trim(p + expected@ + q),
            ) == res,
        is_plain(stdout@) && is_plain(expected@) ==> (res == Verdict::Accepted <==> stdout@
            == expected@),
        is_plain(stdout@) && is_plain(expected@) && stdout@ != expected@ ==> res
            == Verdict::WrongAnswer,
{
    let matched = outputs_match(stdout, expected);
    verdict_for(ExitStatus::Success, matched)
}

} // verus!
