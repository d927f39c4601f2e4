use novel_downloader::providers::ciyuanji::CiyuanjiProvider;
use novel_downloader::providers::linovelib::LinovelibProvider;
use novel_downloader::providers::novelpia::NovelpiaProvider;
use novel_downloader::providers::quanben5::below_62;
use novel_downloader::providers::ruochu::callback_digits;
use novel_downloader::providers::shaoniandream::ShaoniandreamProvider;
use novel_downloader::types::BookInfo;
use novel_downloader::providers::n101kanshu::N101kanshuProvider;
use novel_downloader::providers::n71ge::N71geProvider;
use novel_downloader::providers::piaotia::PiaotiaProvider;
use novel_downloader::providers::quanben5::Quanben5Provider;
use novel_downloader::providers::sfacg::SfacgProvider;

#[test]
fn piaotia_chapter_reads_the_repaired_content_block() {
    let raw = [
        "<html><head><title>x</title></head><body>",
        "<script language=\"javascript\">GetFont();</script>",
        "<h1>第一章</h1><div class=\"toplink\">nav</div>甲<br>乙",
        "<table><tr><td>表</td></tr></table><p>丙</p></div></body></html>"
    ].join("");
    let c = PiaotiaProvider::parse_chapter(&raw, "5");
    assert_eq!(c.id, "5");
    assert_eq!(c.title, "第一章");
    assert_eq!(c.content, "甲\n乙\n丙");
}

#[test]
fn piaotia_catalog_titles_from_first_text_piece() {
    let p = PiaotiaProvider;
    let info = "<html><body><span style=\"x\"><h1>书</h1></span></body></html>";
    let catalog = [
        "<html><body><div class=\"centent\"><ul>",
        "<li><a href=\"1.html\">第一章</a></li>",
        "<li><a href=\"2.html\"> </a></li>",
        "<li><a href=\"3.html\">第三章<b>附</b></a></li>",
        "</ul></div></body></html>"
    ].join("");
    let b = p.parse_book_info(info, &catalog, "1-123");
    assert_eq!(b.book_name, "书");
    assert_eq!(b.volumes.len(), 1);
    let chs = &b.volumes[0].chapters;
    assert_eq!(chs.len(), 2);
    assert_eq!(chs[0].title, "第一章");
    assert_eq!(chs[0].chapter_id, "1");
    assert_eq!(chs[0].url, "https://www.piaotia.com/html/1/123/1.html");
    assert_eq!(chs[1].title, "第三章");
    assert_eq!(chs[1].chapter_id, "3");
}

#[test]
fn n101kanshu_chapter_walks_text_and_skips_ads() {
    let html = [
        "<html><body><div class=\"txtnav\"><h1>章</h1>",
        "<div id=\"txtcontent\">一<script>x()</script><div class=\"txtad\">广告</div>",
        "<p>二<span>三</span></p>  <style>p{}</style></div></div></body></html>"
    ].join("");
    let c = N101kanshuProvider::parse_chapter(&html, "9");
    assert_eq!(c.title, "章");
    assert_eq!(c.content, "一\n二\n三");
    assert_eq!(c.id, "9");
}

#[test]
fn n71ge_catalog_links_need_a_first_text_piece() {
    let p = N71geProvider;
    let html = [
        "<html><body><div class=\"ml_list\"><ul>",
        "<li><a href=\"/1/2/10.html\">第十章<i>x</i></a></li>",
        "<li><a href=\"/1/2/11.html\"></a></li>",
        "</ul></div></body></html>"
    ].join("");
    let b = p.parse_book_info(&html);
    assert_eq!(b.volumes.len(), 1);
    assert_eq!(b.volumes[0].volume_name, "正文");
    let chs = &b.volumes[0].chapters;
    assert_eq!(chs.len(), 1);
    assert_eq!(chs[0].title, "第十章");
    assert_eq!(chs[0].chapter_id, "10");
    assert_eq!(chs[0].url, "https://www.71ge.com/1/2/10.html");
}

#[test]
fn sfacg_update_time_is_the_last_text_piece() {
    let p = SfacgProvider;
    let info = "<html><body><span class=\"book_info3\">作者 / 10万字<br>2024-01-01 </span></body></html>";
    let b = p.parse_book_info(info, "<html></html>");
    assert_eq!(b.update_time, "2024-01-01");
    assert_eq!(b.author, "作者");
}

#[test]
fn quanben5_search_answer_fields() {
    let resp = [
        "search({\"content\":\"<div class=\\\"pic_txt_list\\\"><h3><a href=\\\"/n/abc/\\\">",
        "<span class=\\\"name\\\">书名</span></a></h3>",
        "<p class=\\\"info\\\"><span class=\\\"author\\\">作者</span></p></div>\"});"
    ].join("");
    let r = Quanben5Provider::parse_search(&resp, 5).expect("the body is JSON");
    assert_eq!(r.len(), 1);
    assert_eq!(r[0].book_id, "abc");
    assert_eq!(r[0].title, "书名");
    assert_eq!(r[0].author, "作者");
    assert_eq!(r[0].site, "quanben5");
    assert_eq!(Quanben5Provider::parse_search("search({\"content\":\"\"});", 5).unwrap().len(), 0);
    assert!(Quanben5Provider::parse_search("search(oops);", 5).is_none());
}

#[test]
fn ciyuanji_search_word_count_is_json_text() {
    let html = [
        "<html><body><script id=\"__NEXT_DATA__\" type=\"application/json\">",
        "{\"props\":{\"pageProps\":{\"list\":[",
        "{\"bookId\":12,\"bookName\":\"甲\",\"authorName\":\"乙\",\"wordCount\":34567},",
        "{\"bookId\":\"x9\",\"bookName\":\"丙\",\"wordCount\":\"1万\"}",
        "]}}}</script></body></html>"
    ].join("");
    let r = CiyuanjiProvider::parse_search(&html, 10);
    assert_eq!(r.len(), 2);
    assert_eq!(r[0].book_id, "12");
    assert_eq!(r[0].title, "甲");
    assert_eq!(r[0].author, "乙");
    assert_eq!(r[0].word_count, "34567");
    assert_eq!(r[1].book_id, "x9");
    assert_eq!(r[1].word_count, "\"1万\"");
    assert_eq!(CiyuanjiProvider::parse_search(&html, 1).len(), 1);
}

#[test]
fn shaoniandream_directory_only_with_a_key() {
    assert!(ShaoniandreamProvider::dir_form("").is_none());
    let f = ShaoniandreamProvider::dir_form("k1").unwrap();
    assert_eq!(f, vec![("access_key".to_string(), "k1".to_string())]);
    let info = BookInfo { book_name: "书".to_string(), ..BookInfo::empty() };
    let kept = ShaoniandreamProvider::with_directory(info.clone(), None);
    assert_eq!(kept.book_name, "书");
    assert!(kept.volumes.is_empty());
    let dir = "{\"readdir\":[{\"volume_name\":\"卷一\",\"chapters\":[{\"id\":5,\"title\":\"第一章\"}]},{\"name\":\"空\",\"list\":[]}]}";
    let full = ShaoniandreamProvider::with_directory(info, Some(dir));
    assert_eq!(full.book_name, "书");
    assert_eq!(full.volumes.len(), 1);
    assert_eq!(full.volumes[0].volume_name, "卷一");
    assert_eq!(full.volumes[0].chapters[0].title, "第一章");
}

#[test]
fn linovelib_volume_step_keeps_fetched_volumes() {
    let p = LinovelibProvider;
    let mut info = BookInfo { book_name: "书名".to_string(), ..BookInfo::empty() };
    let page = "<html><head><meta property=\"og:title\" content=\"书名 第一卷\"></head><body><div class=\"book-new-chapter\"><a href=\"/novel/7/100.html\">一</a></div></body></html>";
    p.add_volume(&mut info, None, "7");
    assert!(info.volumes.is_empty());
    p.add_volume(&mut info, Some("<html></html>"), "7");
    assert!(info.volumes.is_empty());
    p.add_volume(&mut info, Some(page), "7");
    assert_eq!(info.volumes.len(), 1);
    assert_eq!(info.volumes[0].volume_name, "第一卷");
    assert_eq!(info.book_name, "书名");
}

#[test]
fn clock_readings_processed() {
    assert_eq!(NovelpiaProvider::timestamp_of(None), 0);
    assert_eq!(NovelpiaProvider::timestamp_of(Some(1_700_000_000_123)), 1_700_000_000_123);
    assert_eq!(NovelpiaProvider::timestamp_of(Some((1u128 << 64) + 5)), 5);
    assert_eq!(callback_digits(None), "0");
    assert_eq!(callback_digits(Some(123_4567890123456789)), "4567890123456789");
    assert_eq!(below_62(124), 0);
    assert_eq!(below_62(63), 1);
}
