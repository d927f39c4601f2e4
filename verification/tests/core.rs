use novel_downloader::charset::{decode_as, decode_response, encoding_from_content_type, encoding_from_html_meta, Charset};
use novel_downloader::json::{as_str, as_u64, get, parse_or_null, Json};
use novel_downloader::markup::{clean_content, html_to_text, strip_html};
use novel_downloader::text::{
    after_last_exec, before_first_exec, i64_to_string, join_exec, parse_i64_exec, parse_usize_exec, replace_exec,
    trim_end_matches_exec, trim_exec, u64_to_string,
};

#[test]
fn text_trim_removes_unicode_whitespace() {
    assert_eq!(trim_exec("\u{3000} 标题 \n\t"), "标题");
    assert_eq!(trim_exec(""), "");
    assert_eq!(trim_exec("   "), "");
}

#[test]
fn text_after_last_and_before_first() {
    assert_eq!(after_last_exec("/book/12/345.html", "/"), "345.html");
    assert_eq!(after_last_exec("no-slash", "/"), "no-slash");
    assert_eq!(before_first_exec("345.html", "."), "345");
    assert_eq!(before_first_exec("plain", "."), "plain");
}

#[test]
fn text_trim_end_matches_repeats() {
    assert_eq!(trim_end_matches_exec("a.html.html", ".html"), "a");
    assert_eq!(trim_end_matches_exec("a//", "/"), "a");
}

#[test]
fn text_replace_all_occurrences() {
    assert_eq!(replace_exec("a-b-c", "-", "/"), "a/b/c");
    assert_eq!(replace_exec("aaa", "aa", "b"), "ba");
}

#[test]
fn text_join_with_separator() {
    let parts = vec!["a".to_string(), "b".to_string(), "c".to_string()];
    assert_eq!(join_exec(&parts, "\n"), "a\nb\nc");
    assert_eq!(join_exec(&Vec::new(), "\n"), "");
}

#[test]
fn text_number_formatting() {
    assert_eq!(u64_to_string(0), "0");
    assert_eq!(u64_to_string(18446744073709551615), "18446744073709551615");
    assert_eq!(i64_to_string(-42), "-42");
    assert_eq!(i64_to_string(i64::MIN), "-9223372036854775808");
}

#[test]
fn text_number_parsing_matches_std() {
    for s in ["0", "42", "-7", "+9", "9223372036854775807", "-9223372036854775808", "", "-", "1a", "9223372036854775808", " 1"] {
        assert_eq!(parse_i64_exec(s), s.parse::<i64>().ok(), "input {:?}", s);
    }
    for s in ["0", "17", "+3", "-1", "", "x"] {
        assert_eq!(parse_usize_exec(s), s.parse::<usize>().ok(), "input {:?}", s);
    }
}

#[test]
fn markup_html_to_text_breaks_lines() {
    let html = "<p>第一段</p><p>  第二段 </p>line<br/>next&nbsp;word &amp; more<script>x</script>";
    let t = html_to_text(html);
    assert!(t.starts_with("第一段\n第二段\nline\nnext"));
    assert!(t.contains("& more"));
}

#[test]
fn markup_clean_content_drops_empty_lines() {
    assert_eq!(clean_content("  a \n\n   \n b\n"), "a\nb");
    assert_eq!(clean_content(""), "");
}

#[test]
fn markup_cleaning_twice_is_cleaning_once() {
    for s in ["  a \n\n   \n b\n", "", "\n\n", "x", " 一\u{3000}\n\t二 \n"] {
        let once = clean_content(s);
        assert_eq!(clean_content(&once), once);
    }
    let t = html_to_text("<p> 甲 </p><br><div>乙<br/> </div>");
    assert_eq!(clean_content(&t), t);
    assert_eq!(t, "甲\n乙");
}

#[test]
fn markup_strip_html_removes_tags() {
    assert_eq!(strip_html("<b>粗</b>体<i>x</i>"), "粗体x");
}

#[test]
fn charset_from_content_type() {
    assert_eq!(encoding_from_content_type("text/html; charset=utf-8"), Some(Charset::Utf8));
    assert_eq!(encoding_from_content_type("text/html; charset=gb2312"), Some(Charset::Gbk));
    assert_eq!(encoding_from_content_type("text/html; charset=big5"), Some(Charset::Big5));
    assert_eq!(encoding_from_content_type("text/html; charset=shift_jis"), Some(Charset::ShiftJis));
    assert_eq!(encoding_from_content_type("text/html"), None);
}

#[test]
fn charset_from_meta_tag() {
    let page = b"<html><head><meta charset=\"GBK\"></head>";
    assert_eq!(encoding_from_html_meta(page), Some(Charset::Gbk));
    assert_eq!(encoding_from_html_meta(b"<html></html>"), None);
}

#[test]
fn charset_decode_gbk_bytes() {
    // "中文" in GBK
    let bytes: &[u8] = &[0xD6, 0xD0, 0xCE, 0xC4];
    assert_eq!(decode_as(Charset::Gbk, bytes), "中文");
    // Not UTF-8, no header, no meta: decoded as GBK
    assert_eq!(decode_response(bytes, "text/html"), "中文");
    // Valid UTF-8 is kept
    assert_eq!(decode_response("中文".as_bytes(), "text/html"), "中文");
}

#[test]
fn json_parse_and_read_members() {
    let j = parse_or_null("{\"a\": {\"b\": \"x\"}, \"n\": 5}");
    let a = get(&j, "a");
    assert!(a.is_some());
    assert_eq!(as_str(get(a.unwrap(), "b")), Some("x"));
    assert_eq!(as_u64(get(&j, "n")), Some(5));
    assert!(matches!(parse_or_null("not json"), Json::Null));
}
