//! Choosing the character encoding of a fetched page, and decoding it.

use vstd::prelude::*;
use vstd::utf8::{decode_utf8, valid_utf8};

use crate::text::{contains, contains_exec, lowercase, to_lowercase};

verus! {

/// The encodings that pages are decoded with.
#[derive(Debug, Clone, Copy, PartialEq, Eq)]
pub enum Charset {
    Utf8,
    Gbk,
    Big5,
    EucJp,
    ShiftJis,
    EucKr,
}

/// The encoding named by a (lower-cased) `Content-Type` header, checked in
/// this order: UTF-8, GBK family, Big5, EUC-JP, Shift_JIS, EUC-KR.
pub open spec fn spec_charset_from_content_type(ct: Seq<char>) -> Option<Charset> {
    if contains(ct, "utf-8"@) || contains(ct, "utf8"@) {
        Some(Charset::Utf8)
    } else if contains(ct, "gbk"@) || contains(ct, "gb2312"@) || contains(ct, "gb18030"@) {
        Some(Charset::Gbk)
    } else if contains(ct, "big5"@) {
        Some(Charset::Big5)
    } else if contains(ct, "euc-jp"@) {
        Some(Charset::EucJp)
    } else if contains(ct, "shift_jis"@) || contains(ct, "shift-jis"@) {
        Some(Charset::ShiftJis)
    } else if contains(ct, "euc-kr"@) {
        Some(Charset::EucKr)
    } else {
        None
    }
}

/// The encoding named by a `Content-Type` header, if any.
pub fn encoding_from_content_type(content_type: &str) -> (r: Option<Charset>)
    ensures
        r == spec_charset_from_content_type(content_type@),
{
    if contains_exec(content_type, "utf-8") || contains_exec(content_type, "utf8") {
        return Some(Charset::Utf8);
    }
    if contains_exec(content_type, "gbk") || contains_exec(content_type, "gb2312")
        || contains_exec(content_type, "gb18030") {
        return Some(Charset::Gbk);
    }
    if contains_exec(content_type, "big5") {
        return Some(Charset::Big5);
    }
    if contains_exec(content_type, "euc-jp") {
        return Some(Charset::EucJp);
    }
    if contains_exec(content_type, "shift_jis") || contains_exec(content_type, "shift-jis") {
        return Some(Charset::ShiftJis);
    }
    if contains_exec(content_type, "euc-kr") {
        return Some(Charset::EucKr);
    }
    None
}

/// The encoding declared by a `<meta charset=…>` in a (lower-cased) page head.
pub open spec fn spec_charset_from_meta(head: Seq<char>) -> Option<Charset> {
    if contains(head, "charset=gbk"@) || contains(head, "charset=gb2312"@) || contains(
        head,
        "charset=\"gbk\""@,
    ) || contains(head, "charset=\"gb2312\""@) {
        Some(Charset::Gbk)
    } else if contains(head, "charset=big5"@) || contains(head, "charset=\"big5\""@) {
        Some(Charset::Big5)
    } else if contains(head, "charset=euc-jp"@) {
        Some(Charset::EucJp)
    } else if contains(head, "charset=shift_jis"@) || contains(head, "charset=shift-jis"@) {
        Some(Charset::ShiftJis)
    } else {
        None
    }
}

/// Length of the page head that is scanned for a charset declaration.
pub const META_SCAN_LEN: usize = 4096;

/// Lossy UTF-8 decoding, invalid sequences replaced by U+FFFD
/// (`String::from_utf8_lossy`).
pub uninterp spec fn utf8_lossy(bytes: Seq<u8>) -> Seq<char>;

/// `String::from_utf8_lossy`: its result depends on the bytes alone.
#[verifier::external_body]
fn from_utf8_lossy(bytes: &[u8]) -> (r: String)
    ensures
        r@ == utf8_lossy(bytes@),
{
    String::from_utf8_lossy(bytes).into_owned()
}

/// `std::str::from_utf8`: succeeds exactly on valid UTF-8, with the decoded text.
#[verifier::external_body]
fn from_utf8(bytes: &[u8]) -> (r: Option<String>)
    ensures
        r is Some <==> valid_utf8(bytes@),
        r matches Some(s) ==> s@ == decode_utf8(bytes@),
{
    match std::str::from_utf8(bytes) {
        Ok(s) => Some(s.to_string()),
        Err(_) => None,
    }
}

/// The first `n` bytes of `bytes`.
fn prefix_bytes(bytes: &[u8], n: usize) -> (r: Vec<u8>)
    requires
        n <= bytes@.len(),
    ensures
        r@ == bytes@.take(n as int),
{
    let mut r: Vec<u8> = Vec::new();
    let mut i: usize = 0;
    while i < n
        invariant
            i <= n <= bytes@.len(),
            r@ =~= bytes@.take(i as int),
        decreases n - i,
    {
        r.push(bytes[i]);
        i += 1;
    }
    r
}

/// The scanned head of a page: its first 4096 bytes, decoded lossily and
/// lower-cased.
pub open spec fn page_head(bytes: Seq<u8>) -> Seq<char> {
    let n = if bytes.len() < META_SCAN_LEN {
        bytes.len() as int
    } else {
        META_SCAN_LEN as int
    };
    lowercase(utf8_lossy(bytes.take(n)))
}

/// The encoding declared in the head of a page, if any.
pub fn encoding_from_html_meta(bytes: &[u8]) -> (r: Option<Charset>)
    ensures
        r == spec_charset_from_meta(page_head(bytes@)),
{
    let scan_len = if bytes.len() < META_SCAN_LEN {
        bytes.len()
    } else {
        META_SCAN_LEN
    };
    let head = prefix_bytes(bytes, scan_len);
    let partial = to_lowercase(from_utf8_lossy(head.as_slice()).as_str());
    let p = partial.as_str();
    if contains_exec(p, "charset=gbk") || contains_exec(p, "charset=gb2312") || contains_exec(
        p,
        "charset=\"gbk\"",
    ) || contains_exec(p, "charset=\"gb2312\"") {
        return Some(Charset::Gbk);
    }
    if contains_exec(p, "charset=big5") || contains_exec(p, "charset=\"big5\"") {
        return Some(Charset::Big5);
    }
    if contains_exec(p, "charset=euc-jp") {
        return Some(Charset::EucJp);
    }
    if contains_exec(p, "charset=shift_jis") || contains_exec(p, "charset=shift-jis") {
        return Some(Charset::ShiftJis);
    }
    None
}

/// The text that `encoding_rs` decodes `bytes` to with an encoding (BOM
/// sniffing, malformed sequences replaced by U+FFFD).
pub uninterp spec fn decoded(charset: Charset, bytes: Seq<u8>) -> Seq<char>;

/// `encoding_rs::Encoding::decode` with the encoding for `charset`.
#[verifier::external_body]
fn decode_with(charset: Charset, bytes: &[u8]) -> (r: String)
    ensures
        r@ == decoded(charset, bytes@),
{
    let enc = match charset {
        Charset::Utf8 => encoding_rs::UTF_8,
        Charset::Gbk => encoding_rs::GBK,
        Charset::Big5 => encoding_rs::BIG5,
        Charset::EucJp => encoding_rs::EUC_JP,
        Charset::ShiftJis => encoding_rs::SHIFT_JIS,
        Charset::EucKr => encoding_rs::EUC_KR,
    };
    enc.decode(bytes).0.into_owned()
}

/// How a page body is decoded: the header's charset if it names one; else
/// the body itself if it is valid UTF-8; else the charset its head declares;
/// else GBK.
pub open spec fn spec_decode_response(bytes: Seq<u8>, content_type: Seq<char>) -> Seq<char> {
    match spec_charset_from_content_type(content_type) {
        Some(cs) => decoded(cs, bytes),
        None => if valid_utf8(bytes) {
            decode_utf8(bytes)
        } else {
            match spec_charset_from_meta(page_head(bytes)) {
                Some(cs) => decoded(cs, bytes),
                None => decoded(Charset::Gbk, bytes),
            }
        },
    }
}

/// Decodes a page body given its (lower-cased) `Content-Type` header.
pub fn decode_response(bytes: &[u8], content_type: &str) -> (r: String)
    ensures
        r@ == spec_decode_response(bytes@, content_type@),
{
    if let Some(cs) = encoding_from_content_type(content_type) {
        return decode_with(cs, bytes);
    }
    if let Some(text) = from_utf8(bytes) {
        return text;
    }
    if let Some(cs) = encoding_from_html_meta(bytes) {
        return decode_with(cs, bytes);
    }
    decode_with(Charset::Gbk, bytes)
}

/// Decodes a page body with a fixed encoding.
pub fn decode_as(charset: Charset, bytes: &[u8]) -> (r: String)
    ensures
        r@ == decoded(charset, bytes@),
{
    decode_with(charset, bytes)
}

/// Which encoding a lower-cased `Content-Type` header selects: a header
/// naming UTF-8 gives UTF-8; else one naming gbk, gb2312 or gb18030 gives
/// GBK; else big5 gives Big5; else euc-jp, Shift_JIS and euc-kr give theirs;
/// a header naming none of them selects nothing.
pub proof fn lemma_content_type_choice(ct: Seq<char>)
    ensures
        contains(ct, "utf-8"@) || contains(ct, "utf8"@) ==> spec_charset_from_content_type(ct) == Some(Charset::Utf8),
        !contains(ct, "utf-8"@) && !contains(ct, "utf8"@) && (contains(ct, "gbk"@) || contains(ct, "gb2312"@)
            || contains(ct, "gb18030"@)) ==> spec_charset_from_content_type(ct) == Some(Charset::Gbk),
        !contains(ct, "utf-8"@) && !contains(ct, "utf8"@) && !contains(ct, "gbk"@) && !contains(ct, "gb2312"@)
            && !contains(ct, "gb18030"@) && contains(ct, "big5"@) ==> spec_charset_from_content_type(ct) == Some(
            Charset::Big5,
        ),
        spec_charset_from_content_type(ct) is None <==> (!contains(ct, "utf-8"@) && !contains(ct, "utf8"@)
            && !contains(ct, "gbk"@) && !contains(ct, "gb2312"@) && !contains(ct, "gb18030"@) && !contains(
            ct,
            "big5"@,
        ) && !contains(ct, "euc-jp"@) && !contains(ct, "shift_jis"@) && !contains(ct, "shift-jis"@) && !contains(
            ct,
            "euc-kr"@,
        )),
{
}

/// A page whose header names an encoding is decoded with it; in particular
/// a header that names gbk and no UTF-8 gives the GBK decoding of the bytes.
/// A header naming none leaves valid UTF-8 decoded as UTF-8.
pub proof fn lemma_decode_by_header(bytes: Seq<u8>, ct: Seq<char>)
    ensures
        spec_charset_from_content_type(ct) matches Some(cs) ==> spec_decode_response(bytes, ct) == decoded(cs, bytes),
        !contains(ct, "utf-8"@) && !contains(ct, "utf8"@) && contains(ct, "gbk"@) ==> spec_decode_response(bytes, ct)
            == decoded(Charset::Gbk, bytes),
        contains(ct, "utf-8"@) ==> spec_decode_response(bytes, ct) == decoded(Charset::Utf8, bytes),
        spec_charset_from_content_type(ct) is None && valid_utf8(bytes) ==> spec_decode_response(bytes, ct)
            == decode_utf8(bytes),
        spec_charset_from_content_type(ct) is None && !valid_utf8(bytes) ==> spec_decode_response(bytes, ct)
            == decoded(
            match spec_charset_from_meta(page_head(bytes)) {
                Some(cs) => cs,
                None => Charset::Gbk,
            },
            bytes,
        ),
{
    lemma_content_type_choice(ct);
}

/// Which encoding a (lower-cased) page head declares: `charset=gbk` or
/// `charset=gb2312` (bare or quoted) gives GBK; else `charset=big5` gives
/// Big5; else `charset=euc-jp` gives EUC-JP; else `charset=shift_jis` or
/// `charset=shift-jis` gives Shift_JIS; a head with none declares nothing.
pub proof fn lemma_meta_choice(head: Seq<char>)
    ensures
        contains(head, "charset=gbk"@) || contains(head, "charset=gb2312"@) || contains(head, "charset=\"gbk\""@)
            || contains(head, "charset=\"gb2312\""@) ==> spec_charset_from_meta(head) == Some(Charset::Gbk),
        !contains(head, "charset=gbk"@) && !contains(head, "charset=gb2312"@) && !contains(head, "charset=\"gbk\""@)
            && !contains(head, "charset=\"gb2312\""@) && (contains(head, "charset=big5"@) || contains(
            head,
            "charset=\"big5\""@,
        )) ==> spec_charset_from_meta(head) == Some(Charset::Big5),
        spec_charset_from_meta(head) is None <==> (!contains(head, "charset=gbk"@) && !contains(head, "charset=gb2312"@)
            && !contains(head, "charset=\"gbk\""@) && !contains(head, "charset=\"gb2312\""@) && !contains(
            head,
            "charset=big5"@,
        ) && !contains(head, "charset=\"big5\""@) && !contains(head, "charset=euc-jp"@) && !contains(
            head,
            "charset=shift_jis"@,
        ) && !contains(head, "charset=shift-jis"@)),
{
}

} // verus!
