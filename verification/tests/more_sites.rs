use novel_downloader::providers::bixiange::BixiangeProvider;
use novel_downloader::providers::kadokado::KadokadoProvider;
use novel_downloader::providers::linovelib::LinovelibProvider;
use novel_downloader::providers::lnovel::LnovelProvider;
use novel_downloader::providers::lvsewx::LvsewxProvider;
use novel_downloader::providers::n23qb::N23qbProvider;
use novel_downloader::providers::n37yq::N37yqProvider;
use novel_downloader::providers::n8novel::{is_n8novel_ad, N8novelProvider};
use novel_downloader::providers::pilibook::PilibookProvider;
use novel_downloader::providers::qidian::html_escape_decode;
use novel_downloader::providers::novelpia::NovelpiaProvider;
use novel_downloader::providers::quanben5::{custom_base64, rand_small, Quanben5Provider};
use novel_downloader::providers::ruochu::fastrand_simple;

fn page(body: &str) -> String {
    format!("<html><head><title>t</title></head><body>{}</body></html>", body)
}

#[test]
fn kadokado_chapter_from_json_answers() {
    let info = "{\"chapterDisplayName\": \"第1章\"}";
    let content = "{\"content\": \"<p>一</p><p> </p><p>二</p>\"}";
    let c = KadokadoProvider::parse_chapter(info, content, "77").expect("both answers are JSON");
    assert_eq!(c.title, "第1章");
    assert_eq!(c.content, "一\n二");
    assert_eq!(c.id, "77");
    assert!(KadokadoProvider::parse_chapter("not json", content, "77").is_none());
    let bare = KadokadoProvider::parse_chapter(info, "{\"content\": \"甲<br>乙\"}", "77").unwrap();
    assert_eq!(bare.content, "甲\n乙");
}

#[test]
fn n8novel_address_pieces_from_the_chapter_page() {
    let page = "var a='%2f7%'; var s=\"11,22,3456789012\".split(\",\");";
    assert_eq!(N8novelProvider::txt_dir(page), "7");
    assert_eq!(N8novelProvider::txt_dir("nothing"), "1");
    assert_eq!(N8novelProvider::url_seed(page), "3456789012");
    assert_eq!(N8novelProvider::url_seed("nothing"), "00000");
    // chapter 2 starts at (2 * 3) % 100 = 6
    assert_eq!(N8novelProvider::seed_segment("0123456789abcdef", "2"), "6789a");
    assert_eq!(N8novelProvider::seed_segment("0123", "2"), "");
    assert_eq!(
        N8novelProvider::content_url("7", "100", "2", "6789a"),
        "https://article.8novel.com/txt/7/100/26789a.html"
    );
}

#[test]
fn n8novel_lookalike_address_is_an_ad() {
    assert!(is_n8novel_ad("8NovEL.com"));
    assert!(!is_n8novel_ad("8novel.com"));
    assert!(is_n8novel_ad("８ＮＯＶＥＬ．ＣＯＭ"));
    assert!(!is_n8novel_ad("今天天气很好啊哈"));
}

#[test]
fn linovelib_volume_ids_escape_the_book_id() {
    let p = LinovelibProvider;
    let html = "<a href=\"/novel/1x2/vol_9.html\"></a><a href=\"/novel/1.2/vol_3.html\"></a><a href=\"/novel/1.2/55.html\"></a><a href=\"/novel/1.2/vol_3.html\"></a><a href=\"/novel/1.2/vol_4.html\"></a>";
    assert_eq!(p.volume_ids(html, "1.2"), vec!["vol_3".to_string(), "vol_4".to_string()]);
    assert_eq!(p.info_volume_ids(html, "1.2"), vec!["vol_4".to_string(), "vol_3".to_string()]);
}

#[test]
fn linovelib_catalog_read_only_without_info_ids() {
    let p = LinovelibProvider;
    assert_eq!(p.catalog_fallback(&Vec::new(), "12"), Some("https://www.linovelib.com/novel/12/catalog".to_string()));
    assert_eq!(p.catalog_fallback(&vec!["vol_1".to_string()], "12"), None);
}

#[test]
fn n23qb_catalog_rows_under_titles() {
    let catalog = page(concat_parts(&[
        "<div class=\"box\">",
        "<h2 class=\"module-title\">第一卷</h2>",
        "<div class=\"module-row-info\"><a class=\"module-row-text\" href=\"/book/1/100.html\"><span>第一章</span></a></div>",
        "<div class=\"module-row-info\"><a class=\"module-row-text\" href=\"javascript:cid(0)\"><span>锁</span></a></div>",
        "<h2 class=\"module-title\">第二卷</h2>",
        "<div class=\"module-row-info\"><a class=\"module-row-text\" href=\"/book/1/101.html\"><span>第二章</span></a></div>",
        "</div>",
    ])
    .as_str());
    let vols = N23qbProvider::parse_volumes(&catalog);
    assert_eq!(vols.len(), 2);
    assert_eq!(vols[0].volume_name, "第一卷");
    assert_eq!(vols[0].chapters.len(), 1);
    assert_eq!(vols[0].chapters[0].chapter_id, "100");
    assert_eq!(vols[0].chapters[0].title, "第一章");
    assert_eq!(vols[1].chapters[0].url, "https://www.23qb.com/book/1/101.html");
}

#[test]
fn n37yq_first_text_piece_titles_a_chapter() {
    let catalog = page("<ul class=\"chapter-list\"><li><a href=\"/b/1/10.html\">序</a></li><div class=\"volume\">卷一</div><li><a href=\"/b/1/11.html\"><b> 第一章 </b><i>x</i></a></li></ul>");
    let vols = N37yqProvider::parse_volumes(&catalog);
    assert_eq!(vols.len(), 2);
    assert_eq!(vols[0].volume_name, "正文");
    assert_eq!(vols[0].chapters[0].title, "序");
    assert_eq!(vols[1].volume_name, "卷一");
    assert_eq!(vols[1].chapters[0].title, "第一章");
    assert_eq!(vols[1].chapters[0].chapter_id, "11");
}

#[test]
fn lnovel_labelled_definitions() {
    let html = page("<dl><dt>作者</dt><dd><a href=\"/a\">某人</a></dd><dt>状态</dt><dd>连载中</dd><dt>更新</dt><dd>2024-02-03</dd></dl>");
    let info = LnovelProvider.parse_book_info(&html);
    assert_eq!(info.author, "某人");
    assert_eq!(info.serial_status, "连载中");
    assert_eq!(info.update_time, "2024-02-03");
    let plain = page("<dl><dt>作者：</dt><dd> 无链接 </dd><dd><a>不读</a></dd></dl>");
    assert_eq!(LnovelProvider.parse_book_info(&plain).author, "无链接");
}

#[test]
fn quanben5_scramble_shape() {
    let s = custom_base64("abc");
    assert_eq!(s.chars().count(), 9);
    let t = custom_base64("abc");
    let middle = |x: &str| -> String { x.chars().skip(1).step_by(3).collect() };
    assert_eq!(middle(&s), middle(&t));
    assert_ne!(middle(&s), "abc");
    let k = Quanben5Provider::search_scramble("三");
    assert_eq!(k.chars().count(), 3 * "%E4%B8%89".len());
}

#[test]
fn quanben5_shift_back_recovers_keyword() {
    let alpha: Vec<char> = "PXhw7UT1B0a9kQDKZsjIASmOezxYG4CHo5Jyfg2b8FLpEvRr3WtVnlqMidu6cN".chars().collect();
    let o: Vec<char> = custom_base64("PN%").chars().collect();
    assert_eq!((o[1], o[4], o[7]), ('w', 'h', '%'));
    let back = |c: char| match alpha.iter().position(|&a| a == c) {
        Some(i) => alpha[(i + 59) % 62],
        None => c,
    };
    let s = "Quanben%E4x9";
    let o: Vec<char> = custom_base64(s).chars().collect();
    let got: String = (0..s.chars().count()).map(|k| back(o[3 * k + 1])).collect();
    assert_eq!(got, s);
    for k in 0..s.chars().count() {
        assert!(alpha.contains(&o[3 * k]) && alpha.contains(&o[3 * k + 2]));
    }
}

#[test]
fn qidian_entities_decoded() {
    assert_eq!(html_escape_decode("a &amp;lt; b &lt;i&gt; &quot;x&quot; &#39;y&#39;&nbsp;z"), "a < b <i> \"x\" 'y' z");
}

#[test]
fn small_id_helpers() {
    assert!(BixiangeProvider::is_special_prefix("khjj"));
    assert!(!BixiangeProvider::is_special_prefix("xuanhuan"));
    assert_eq!(LvsewxProvider::chapter_prefix("12345"), "12");
    assert_eq!(LvsewxProvider::chapter_prefix("123"), "0");
    assert_eq!(LvsewxProvider::chapter_prefix("中abc"), "中");
    assert_eq!(LvsewxProvider::chapter_prefix("中"), "0");
    assert_eq!(LvsewxProvider::chapter_prefix("12中"), "12");
    assert_eq!(LvsewxProvider::chapter_prefix("ab"), "0");
    assert_eq!(PilibookProvider::normalize_book_id("x-1-2"), "x/1/2");
}

fn concat_parts(parts: &[&str]) -> String {
    parts.concat()
}

#[test]
fn clock_values_have_their_shape() {
    let d = fastrand_simple();
    assert!(!d.is_empty() && d.len() <= 16);
    assert!(d.chars().all(|c| c.is_ascii_digit()));
    assert!(d == "0" || !d.starts_with('0'));
    assert!(NovelpiaProvider::timestamp() > 1_600_000_000_000);
    for _ in 0..20 {
        assert!(rand_small() < 62);
    }
}
