//! Character encodings of file names inside archives: UTF-8 checks, decoding
//! and encoding through `encoding_rs`, and detection of a common East Asian
//! encoding for names that are not UTF-8.
use vstd::prelude::*;
use vstd::utf8::{decode_utf8, encode_utf8, valid_utf8};

use crate::error::DecmpError;
use crate::text::concat2;

verus! {

/// Whether `encoding_rs::Encoding::for_label` knows `label`.
pub uninterp spec fn spec_label_known(label: Seq<char>) -> bool;

/// What `encoding_rs::Encoding::decode` gives for `raw` in the encoding that
/// `label` names: the text and whether malformed sequences were replaced.
pub uninterp spec fn spec_decode(label: Seq<char>, raw: Seq<u8>) -> (Seq<char>, bool);

/// What `encoding_rs::Encoding::encode` gives for `text` in the encoding that
/// `label` names: the bytes and whether unmappable characters were replaced.
pub uninterp spec fn spec_encode(label: Seq<char>, text: Seq<char>) -> (Seq<u8>, bool);

/// The UTF-8 byte order mark.
pub open spec fn starts_with_utf8_bom(raw: Seq<u8>) -> bool {
    raw.len() >= 3 && raw[0] == 0xEF && raw[1] == 0xBB && raw[2] == 0xBF
}

/// Looks `label` up with `encoding_rs::Encoding::for_label` and decodes `raw`
/// with `encoding_rs::Encoding::decode`. The contract names both results and
/// states what the crate's source shows for the label `utf-8`: valid UTF-8 that
/// does not start with a byte order mark comes back unchanged, without errors.
/// What other encodings decode to is left unsaid.
#[verifier::external_body]
fn decode_with_label(label: &str, raw: &[u8]) -> (r: Option<(String, bool)>)
    ensures
        r.is_some() == spec_label_known(label@),
        r.is_some() ==> r.unwrap().0@ == spec_decode(label@, raw@).0 && r.unwrap().1 == spec_decode(
            label@,
            raw@,
        ).1,
        label@ == "utf-8"@ && valid_utf8(raw@) && !starts_with_utf8_bom(raw@) ==> r.is_some()
            && r.unwrap().0@ == decode_utf8(raw@) && !r.unwrap().1,
{
    match encoding_rs::Encoding::for_label(label.as_bytes()) {
        Some(encoding) => {
            let (text, _used, had_errors) = encoding.decode(raw);
            Some((text.into_owned(), had_errors))
        },
        None => None,
    }
}

/// Looks `label` up with `encoding_rs::Encoding::for_label` and encodes `text`
/// with `encoding_rs::Encoding::encode`. The contract names both results and
/// states what the crate's source shows for the label `utf-8`: the bytes are the
/// UTF-8 encoding of the text, without errors. What other encodings produce is
/// left unsaid.
#[verifier::external_body]
fn encode_with_label(label: &str, text: &str) -> (r: Option<(Vec<u8>, bool)>)
    ensures
        r.is_some() == spec_label_known(label@),
        r.is_some() ==> r.unwrap().0@ == spec_encode(label@, text@).0 && r.unwrap().1 == spec_encode(
            label@,
            text@,
        ).1,
        label@ == "utf-8"@ ==> r.is_some() && r.unwrap().0@ == encode_utf8(text@) && !r.unwrap().1,
{
    match encoding_rs::Encoding::for_label(label.as_bytes()) {
        Some(encoding) => {
            let (bytes, _used, had_errors) = encoding.encode(text);
            Some((bytes.into_owned(), had_errors))
        },
        None => None,
    }
}

/// The outcome of decoding a file name, given what the lookup and the decoder
/// reported: an unknown encoding and a malformed name are refused.
pub fn decode_outcome(encoding_name: &str, decoded: Option<(String, bool)>) -> (r: Result<
    String,
    DecmpError,
>)
    ensures
        decoded is None ==> (r matches Err(DecmpError::EncodingError(m)) && m@
            == "unknown encoding: "@ + encoding_name@),
        decoded matches Some((_, true)) ==> (r matches Err(DecmpError::EncodingError(m)) && m@
            == "failed to decode with "@ + encoding_name@),
        decoded matches Some((s, false)) ==> (r matches Ok(t) && t@ == s@),
{
    match decoded {
        None => Err(DecmpError::EncodingError(concat2("unknown encoding: ", encoding_name))),
        Some((s, had_errors)) => {
            if had_errors {
                Err(DecmpError::EncodingError(concat2("failed to decode with ", encoding_name)))
            } else {
                Ok(s)
            }
        },
    }
}

/// Decodes a raw file name in the encoding named `encoding_name`.
pub fn decode_filename(raw: &[u8], encoding_name: &str) -> (r: Result<String, DecmpError>)
    ensures
        !spec_label_known(encoding_name@) ==> (r matches Err(DecmpError::EncodingError(m)) && m@
            == "unknown encoding: "@ + encoding_name@),
        spec_label_known(encoding_name@) && spec_decode(encoding_name@, raw@).1 ==> (r matches Err(
            DecmpError::EncodingError(m),
        ) && m@ == "failed to decode with "@ + encoding_name@),
        spec_label_known(encoding_name@) && !spec_decode(encoding_name@, raw@).1 ==> (r matches Ok(
            t,
        ) && t@ == spec_decode(encoding_name@, raw@).0),
        encoding_name@ == "utf-8"@ && valid_utf8(raw@) && !starts_with_utf8_bom(raw@) ==> (r matches Ok(
            t,
        ) && t@ == decode_utf8(raw@)),
{
    decode_outcome(encoding_name, decode_with_label(encoding_name, raw))
}

/// The outcome of encoding a file name, given what the lookup and the encoder
/// reported: an unknown encoding and an unmappable name are refused.
pub fn encode_outcome(encoding_name: &str, encoded: Option<(Vec<u8>, bool)>) -> (r: Result<
    Vec<u8>,
    DecmpError,
>)
    ensures
        encoded is None ==> (r matches Err(DecmpError::EncodingError(m)) && m@
            == "unknown encoding: "@ + encoding_name@),
        encoded matches Some((_, true)) ==> (r matches Err(DecmpError::EncodingError(m)) && m@
            == "failed to encode with "@ + encoding_name@),
        encoded matches Some((b, false)) ==> (r matches Ok(c) && c@ == b@),
{
    match encoded {
        None => Err(DecmpError::EncodingError(concat2("unknown encoding: ", encoding_name))),
        Some((b, had_errors)) => {
            if had_errors {
                Err(DecmpError::EncodingError(concat2("failed to encode with ", encoding_name)))
            } else {
                Ok(b)
            }
        },
    }
}

/// Encodes a file name in the encoding named `encoding_name`.
pub fn encode_filename(name: &str, encoding_name: &str) -> (r: Result<Vec<u8>, DecmpError>)
    ensures
        !spec_label_known(encoding_name@) ==> (r matches Err(DecmpError::EncodingError(m)) && m@
            == "unknown encoding: "@ + encoding_name@),
        spec_label_known(encoding_name@) && spec_encode(encoding_name@, name@).1 ==> (r matches Err(
            DecmpError::EncodingError(m),
        ) && m@ == "failed to encode with "@ + encoding_name@),
        spec_label_known(encoding_name@) && !spec_encode(encoding_name@, name@).1 ==> (r matches Ok(
            b,
        ) && b@ == spec_encode(encoding_name@, name@).0),
        encoding_name@ == "utf-8"@ ==> (r matches Ok(b) && b@ == encode_utf8(name@)),
{
    encode_outcome(encoding_name, encode_with_label(encoding_name, name))
}

/// Calls `std::str::from_utf8` and reports whether it accepted `raw`; it
/// accepts exactly the well-formed UTF-8 byte sequences.
#[verifier::external_body]
pub fn is_utf8(raw: &[u8]) -> (r: bool)
    ensures
        r == valid_utf8(raw@),
{
    std::str::from_utf8(raw).is_ok()
}

/// What `String::from_utf8_lossy` gives for `raw`.
pub uninterp spec fn spec_utf8_lossy(raw: Seq<u8>) -> Seq<char>;

/// Calls `String::from_utf8_lossy`. The contract names the result and states
/// what the documentation promises: well-formed UTF-8 is decoded as it is, and
/// otherwise the text holds U+FFFD REPLACEMENT CHARACTER where invalid sequences
/// were. Where exactly the replacements stand is left unsaid.
#[verifier::external_body]
pub fn try_decode_utf8(raw: &[u8]) -> (r: String)
    ensures
        r@ == spec_utf8_lossy(raw@),
        valid_utf8(raw@) ==> r@ == decode_utf8(raw@),
        !valid_utf8(raw@) ==> r@.contains('\u{FFFD}'),
{
    String::from_utf8_lossy(raw).into_owned()
}

/// The encodings tried, in order, when file names are not UTF-8.
pub open spec fn common_encodings() -> Seq<Seq<char>> {
    seq!["gbk"@, "gb18030"@, "big5"@, "shift_jis"@, "euc-jp"@, "euc-kr"@]
}

/// The encodings tried, in order, when file names are not UTF-8.
pub fn common_encoding_names() -> (r: Vec<&'static str>)
    ensures
        r@.len() == common_encodings().len(),
        forall|i: int| 0 <= i < r@.len() ==> #[trigger] r@[i]@ == common_encodings()[i],
{
    let r = vec!["gbk", "gb18030", "big5", "shift_jis", "euc-jp", "euc-kr"];
    assert(r@.len() == 6);
    r
}

/// The views of a list of byte strings.
pub open spec fn byte_views(names: Seq<&[u8]>) -> Seq<Seq<u8>> {
    names.map_values(|n: &[u8]| n@)
}

/// Whether `raw` decodes without errors in the encoding named `label`.
pub open spec fn decodes_cleanly(label: Seq<char>, raw: Seq<u8>) -> bool {
    spec_label_known(label) && !spec_decode(label, raw).1
}

/// How many of `names` decode without errors in the encoding named `label`.
pub open spec fn clean_count(label: Seq<char>, names: Seq<Seq<u8>>) -> nat
    decreases names.len(),
{
    if names.len() == 0 {
        0
    } else {
        clean_count(label, names.drop_last()) + if decodes_cleanly(label, names.last()) {
            1nat
        } else {
            0nat
        }
    }
}

/// The first of `candidates` that is known and decodes more than half of
/// `names` without errors.
pub open spec fn first_majority(candidates: Seq<Seq<char>>, names: Seq<Seq<u8>>) -> Option<
    Seq<char>,
>
    decreases candidates.len(),
{
    if candidates.len() == 0 {
        None
    } else if spec_label_known(candidates[0]) && 2 * clean_count(candidates[0], names)
        > names.len() {
        Some(candidates[0])
    } else {
        first_majority(candidates.drop_first(), names)
    }
}

/// The encoding guessed for a list of raw names: none for an empty list or when
/// all are UTF-8, else the first common encoding that decodes most of them.
pub open spec fn spec_auto_detect(names: Seq<Seq<u8>>) -> Option<Seq<char>> {
    if names.len() == 0 {
        None
    } else if forall|i: int| 0 <= i < names.len() ==> valid_utf8(#[trigger] names[i]) {
        None
    } else {
        first_majority(common_encodings(), names)
    }
}

/// Guesses the encoding of a list of raw file names. "Most" is a share above
/// one half.
pub fn auto_detect_encoding(raw_names: &[&[u8]]) -> (r: Option<&'static str>)
    requires
        raw_names@.len() < 0x20_0000_0000_0000,
    ensures
        r matches Some(s) ==> spec_auto_detect(byte_views(raw_names@)) == Some(s@),
        r is None ==> spec_auto_detect(byte_views(raw_names@)) is None,
{
    let ghost names = byte_views(raw_names@);
    let len = raw_names.len();
    if len == 0 {
        return None;
    }
    let mut all_utf8 = true;
    let mut i: usize = 0;
    while i < len
        invariant
            len == raw_names@.len(),
            names == byte_views(raw_names@),
            i <= len,
            all_utf8 == forall|j: int| 0 <= j < i ==> valid_utf8(#[trigger] names[j]),
        decreases len - i,
    {
        let ok = is_utf8(raw_names[i]);
        assert(names[i as int] == raw_names@[i as int]@);
        all_utf8 = all_utf8 && ok;
        i = i + 1;
    }
    if all_utf8 {
        return None;
    }
    let candidates = common_encoding_names();
    let ghost cands = common_encodings();
    assert(cands.skip(0) =~= cands);
    let mut k: usize = 0;
    while k < candidates.len()
        invariant
            len == raw_names@.len(),
            len < 0x20_0000_0000_0000,
            0 < len,
            names == byte_views(raw_names@),
            !(forall|j: int| 0 <= j < names.len() ==> valid_utf8(#[trigger] names[j])),
            cands == common_encodings(),
            candidates@.len() == cands.len(),
            forall|j: int| 0 <= j < candidates@.len() ==> #[trigger] candidates@[j]@ == cands[j],
            k <= candidates@.len(),
            first_majority(cands, names) == first_majority(cands.skip(k as int), names),
        decreases candidates.len() - k,
    {
        let label = candidates[k];
        let mut known = true;
        let mut count: usize = 0;
        let mut j: usize = 0;
        while j < len
            invariant
                len == raw_names@.len(),
                names == byte_views(raw_names@),
                j <= len,
                count <= j,
                count == clean_count(label@, names.take(j as int)),
                j > 0 ==> known == spec_label_known(label@),
                j == 0 ==> known,
            decreases len - j,
        {
            let d = decode_with_label(label, raw_names[j]);
            assert(names.take(j + 1).drop_last() =~= names.take(j as int));
            assert(names[j as int] == raw_names@[j as int]@);
            match d {
                Some((_, had_errors)) => {
                    if !had_errors {
                        count = count + 1;
                    }
                },
                None => {
                    known = false;
                },
            }
            j = j + 1;
        }
        assert(names.take(len as int) =~= names);
        assert(cands.skip(k as int)[0] == cands[k as int]);
        if known && count > len - count {
            return Some(label);
        }
        assert(cands.skip(k as int).drop_first() =~= cands.skip(k + 1));
        k = k + 1;
    }
    None
}

} // verus!
