use novel_downloader::providers::akatsuki_novels::AkatsukiNovelsProvider;
use novel_downloader::providers::alicesw::AliceswProvider;
use novel_downloader::providers::alphapolis::AlphapolisProvider;
use novel_downloader::providers::b520::B520Provider;
use novel_downloader::providers::dxmwx::DxmwxProvider;
use novel_downloader::providers::esjzone::EsjzoneProvider;
use novel_downloader::providers::guidaye::GuidayeProvider;
use novel_downloader::providers::hongxiuzhao::{self, HongxiuzhaoProvider};
use novel_downloader::providers::kunnu::{self, KunnuProvider};
use novel_downloader::providers::laoyaoxs::LaoyaoxsProvider;
use novel_downloader::providers::mangg_com::{self, ManggComProvider};
use novel_downloader::providers::n17k::N17kProvider;
use novel_downloader::providers::n69shuba::N69shubaProvider;
use novel_downloader::providers::qbtr::QbtrProvider;

fn cat(parts: &[&str]) -> String {
    parts.concat()
}

fn page(body: &str) -> String {
    format!("<html><head><title>t</title></head><body>{}</body></html>", body)
}

#[test]
fn alphapolis_ids_use_dash_for_slash() {
    assert_eq!(AlphapolisProvider::normalize_book_id("123-456"), "123/456");
    let p = AlphapolisProvider;
    assert_eq!(p.book_url("123-456"), "https://www.alphapolis.co.jp/novel/123/456");
    assert_eq!(p.chapter_url("123-456", "789"), "https://www.alphapolis.co.jp/novel/123/456/episode/789");
}

#[test]
fn alphapolis_groups_episodes_by_heading() {
    let html = page(&cat(&[
        "<h1 class=\"title\">題名</h1><div class=\"author\"><a href=\"/u\">作家</a></div>",
        "<table class=\"detail\"><tr><th>初回公開日時</th><td>2020</td></tr><tr><th>更新日時</th><td>2024.01.02</td></tr></table>",
        "<div class=\"episodes\">",
        "<h3>第一章</h3>",
        "<div><a href=\"/novel/1/2/episode/10\"><span class=\"title\">話一</span></a></div>",
        "<div><a href=\"/novel/1/2/episode/11\">話二</a></div>",
        "<h3>空</h3><h3>第二章</h3>",
        "<div><a href=\"/novel/1/2/episode/12\"><span class=\"title\">話三</span></a></div>",
        "</div>"
    ]));
    let p = AlphapolisProvider;
    let info = p.parse_book_info(&html);
    assert_eq!(info.book_name, "題名");
    assert_eq!(info.author, "作家");
    assert_eq!(info.update_time, "2024.01.02");
    assert_eq!(info.volumes.len(), 2);
    assert_eq!(info.volumes[0].volume_name, "第一章");
    let ids: Vec<&str> = info.volumes[0].chapters.iter().map(|c| c.chapter_id.as_str()).collect();
    assert_eq!(ids, vec!["10", "11"]);
    assert_eq!(info.volumes[0].chapters[1].title, "話二");
    assert_eq!(info.volumes[1].volume_name, "第二章");
    assert_eq!(info.volumes[1].chapters[0].url, "https://www.alphapolis.co.jp/novel/1/2/episode/12");
}

#[test]
fn guidaye_reads_meta_and_list() {
    assert_eq!(GuidayeProvider::normalize_book_id("a-b"), "a/b");
    let html = format!(
        "<html><head><meta property=\"og:novel:book_name\" content=\"红楼梦\"><meta property=\"og:novel:author\" content=\"曹雪芹\"></head><body>{}</body></html>",
        "<ol id=\"list-ol\"><li><a href=\"/hlm/1.html\">第一回</a></li><li><a href=\"/hlm/2.html\"> </a></li></ol>"
    );
    let info = GuidayeProvider.parse_book_info(&html);
    assert_eq!(info.book_name, "红楼梦");
    assert_eq!(info.author, "曹雪芹");
    assert_eq!(info.volumes.len(), 1);
    assert_eq!(info.volumes[0].volume_name, "正文");
    assert_eq!(info.volumes[0].chapters.len(), 1);
    assert_eq!(info.volumes[0].chapters[0].chapter_id, "1");
    assert_eq!(info.volumes[0].chapters[0].url, "https://b.guidaye.com/hlm/1.html");
}

#[test]
fn hongxiuzhao_ad_lines_ignore_case() {
    assert!(hongxiuzhao::is_ad_line("请访问 WWW.SITE.COM"));
    assert!(hongxiuzhao::is_ad_line("HongXiuZhao 最新"));
    assert!(!hongxiuzhao::is_ad_line("他走进了房间。"));
}

#[test]
fn hongxiuzhao_chapter_drops_ads_and_empty_paragraphs() {
    let html = page("<div class=\"article-content\"><h1>第一章</h1><p>甲</p><p> </p><p>请收藏本站</p><p>乙</p></div>");
    let c = HongxiuzhaoProvider.parse_chapter(&html, "9");
    assert_eq!(c.title, "第一章");
    assert_eq!(c.content, "甲\n乙");
    assert_eq!(HongxiuzhaoProvider.chapter_url("b", "9"), "https://hongxiuzhao.net/9.html");
}

#[test]
fn hongxiuzhao_cover_made_absolute() {
    let html = page("<a class=\"cover\"><img src=\"//img.x/1.jpg\"></a><section class=\"yd-chapter\"><ul><a href=\"/b/3.html\">三</a></ul></section>");
    let info = HongxiuzhaoProvider.parse_book_info(&html);
    assert_eq!(info.cover_url, "https://img.x/1.jpg");
    assert_eq!(info.volumes[0].volume_name, "");
    assert_eq!(info.volumes[0].chapters[0].chapter_id, "3");
}

#[test]
fn kunnu_metadata_and_volumes() {
    assert!(kunnu::is_ad_line("本文来自 KUNNU.COM"));
    let html = page(&cat(&[
        "<div class=\"book-img\"><img src=\"/cover.jpg\"></div>",
        "<div class=\"book-describe\"><h1>书</h1><p>作者：某人</p><p>状态:完结</p><p>最近更新：昨天</p></div>",
        "<div class=\"describe-html\"><p>简介一</p><p></p><p>简介二</p></div>",
        "<div id=\"content-list\">",
        "<div class=\"title\">卷一</div>",
        "<div class=\"book-list\"><a href=\"/b/1.htm\">一</a><a href=\"/b/2.html\">二</a></div>",
        "<div class=\"title\">卷二</div>",
        "<div class=\"book-list\"><a href=\"/b/3.htm\">三</a></div>",
        "</div>"
    ]));
    let info = KunnuProvider.parse_book_info(&html);
    assert_eq!(info.book_name, "书");
    assert_eq!(info.author, "某人");
    assert_eq!(info.serial_status, "完结");
    assert_eq!(info.update_time, "昨天");
    assert_eq!(info.summary, "简介一\n简介二");
    assert_eq!(info.cover_url, "https://www.kunnu.com/cover.jpg");
    assert_eq!(info.volumes.len(), 2);
    let ids: Vec<&str> = info.volumes[0].chapters.iter().map(|c| c.chapter_id.as_str()).collect();
    assert_eq!(ids, vec!["1", "2"]);
    assert_eq!(info.volumes[1].volume_name, "卷二");
    assert_eq!(KunnuProvider.chapter_url("b", "1"), "https://www.kunnu.com/b/1.htm");
}

#[test]
fn mangg_com_info_fields_and_filtered_chapter() {
    assert!(mangg_com::is_ad_line("记住 MANGG.COM"));
    let html = page(&cat(&[
        "<div id=\"info\"><h1>名</h1><p>作\u{a0}者：张三</p><p>状态：连载,</p><p>最后更新：2024-05-01</p></div>",
        "<div id=\"sidebar\"><img src=\"/c.jpg\"></div><div id=\"intro\">介绍</div>",
        "<div id=\"list\"><dl><dd><a href=\"/1/11.html\">一</a></dd></dl></div>"
    ]));
    let info = ManggComProvider.parse_book_info(&html);
    assert_eq!(info.author, "张三");
    assert_eq!(info.serial_status, "连载");
    assert_eq!(info.update_time, "2024-05-01");
    assert_eq!(info.cover_url, "https://www.mangg.com/c.jpg");
    assert_eq!(info.volumes[0].chapters[0].chapter_id, "11");
    let c = ManggComProvider.parse_chapter(&page("<div class=\"bookname\"><h1>章</h1></div><div id=\"content\">一行<br>追书网提醒<br>二行</div>"), "11");
    assert_eq!(c.title, "章");
    assert_eq!(c.content, "一行\n二行");
}

#[test]
fn akatsuki_chapter_ids_from_story_links() {
    let html = page(&cat(&[
        "<h3 class=\"font-bb\"><a href=\"/s\">暁の物語</a></h3>",
        "<h3 class=\"font-bb\">作者：<a href=\"/u\">筆者</a></h3>",
        "<table class=\"list\"><tbody>",
        "<tr><td><a href=\"/stories/view/555/novel_id~12\">第一話</a></td></tr>",
        "<tr><td><a href=\"/other/1\">外</a></td></tr>",
        "</tbody></table>"
    ]));
    let info = AkatsukiNovelsProvider.parse_book_info(&html);
    assert_eq!(info.book_name, "暁の物語");
    assert_eq!(info.author, "筆者");
    assert_eq!(info.volumes[0].volume_name, "正文");
    assert_eq!(info.volumes[0].chapters.len(), 1);
    assert_eq!(info.volumes[0].chapters[0].chapter_id, "555");
    assert_eq!(AkatsukiNovelsProvider.chapter_url("12", "555"), "https://www.akatsuki-novels.com/stories/view/555/novel_id~12");
}

#[test]
fn n17k_volumes_named_or_numbered() {
    let catalog = page(&cat(&[
        "<div class=\"Author\"><a>作者乙</a></div>",
        "<dl class=\"Volume\"><dt><span class=\"tit\">正文卷</span></dt><dd><a href=\"/chapter/1/100.html\"><span>第一章</span></a></dd></dl>",
        "<dl class=\"Volume\"><dt></dt><dd></dd></dl>",
        "<dl class=\"Volume\"><dt></dt><dd><a href=\"/chapter/1/101.html\"><span>第二章</span></a><a href=\" \"><span>x</span></a></dd></dl>"
    ]));
    let vols = N17kProvider.parse_catalog(&catalog);
    assert_eq!(vols.len(), 2);
    assert_eq!(vols[0].volume_name, "正文卷");
    assert_eq!(vols[1].volume_name, "未命名卷 2");
    assert_eq!(vols[1].chapters.len(), 1);
    assert_eq!(vols[1].chapters[0].chapter_id, "101");
    assert_eq!(vols[0].chapters[0].url, "https://www.17k.com/chapter/1/100.html");
}

#[test]
fn n17k_locked_chapter_notice() {
    let c = N17kProvider.parse_chapter("<p>VIP章节, 余下还有 2000 字</p>", "7");
    assert_eq!(c.title, "");
    assert_eq!(c.content, "[VIP章节，需要购买后阅读]");
    let c = N17kProvider.parse_chapter(&page("<div id=\"readArea\"><h1>章</h1><div class=\"p\"><p>一</p><p class=\"copy\">x</p><p>二</p></div></div>"), "7");
    assert_eq!(c.title, "章");
    assert_eq!(c.content, "一\n二");
}

#[test]
fn laoyaoxs_fragments_sorted_by_order_number() {
    let html = page(&cat(&[
        "<div id=\"chapter-name\"><h2>第九章</h2></div>",
        "<div class=\"main_content\">",
        "<dd data-id=\"3\"><p>丙</p></dd>",
        "<dd data-id=\"1\"><p>甲</p><p>甲二</p></dd>",
        "<dd data-id=\"x\"><p>坏</p></dd>",
        "<dd data-id=\"-2\"><p>负</p></dd>",
        "<dd data-id=\" 2 \"><p>乙</p></dd>",
        "<dd data-id=\"1\"><p>甲三</p></dd>",
        "</div>"
    ]));
    let c = LaoyaoxsProvider.parse_chapter(&html, "9");
    assert_eq!(c.title, "第九章");
    assert_eq!(c.content, "甲\n甲二\n甲三\n乙\n丙");
}

#[test]
fn qbtr_form_patterns_and_title() {
    let p = QbtrProvider;
    let form = p.search_form("三体");
    assert_eq!(form[0], ("keyboard".to_string(), "三体".to_string()));
    assert_eq!(p.book_url("tongren-8850"), "https://www.qbtr.cc/tongren/8850.html");
    let html = page(&cat(&[
        "<div class=\"infos\"><h1>书</h1><p>简介</p></div>",
        "<div class=\"date\">作者：某某 日期：2023-04-05</div>",
        "<div class=\"book_list\"><ul><li><a href=\"/tongren/8850/123.html\">一</a></li><li><a href=\"/x.html\">二</a></li></ul></div>"
    ]));
    let info = p.parse_book_info(&html);
    assert_eq!(info.author, "某某");
    assert_eq!(info.update_time, "2023-04-05");
    assert_eq!(info.volumes[0].chapters[0].chapter_id, "123");
    assert_eq!(info.volumes[0].chapters[1].chapter_id, "");
    let c = p.parse_chapter(&page("<div class=\"readTop\"><a>首页</a><a>书</a></div><div class=\"read_chapterName\"><h1>书 第一章</h1></div><div class=\"read_chapterDetail\"><p>正文</p></div>"), "123");
    assert_eq!(c.title, "第一章");
    assert_eq!(c.content, "正文");
}

#[test]
fn qbtr_search_ids_from_links() {
    let html = page("<div class=\"books m-cols\"><div class=\"bk\"><h3><a href=\"/tongren/8850.html\">书</a></h3><div class=\"booknews\">作者：甲 <label class=\"date\">2024</label></div></div></div>");
    let r = QbtrProvider.parse_search(&html, 5);
    assert_eq!(r.len(), 1);
    assert_eq!(r[0].book_id, "tongren-8850");
    assert_eq!(r[0].update_date, "2024");
    assert_eq!(r[0].site, "qbtr");
}

#[test]
fn n69shuba_chapter_block() {
    let html = page(&cat(&[
        "<div class=\"txtnav\">",
        "<h1>第一章 开始</h1>",
        "<div class=\"txtinfo\">2024</div>",
        "<div id=\"txtright\">广告</div>",
        "<p>第一章 开始</p>",
        "<p>正文一</p>",
        "<p>正文二(本章完)</p>",
        "</div>"
    ]));
    let c = N69shubaProvider.parse_chapter(&html, "5");
    assert_eq!(c.title, "第一章 开始");
    assert_eq!(c.content, "正文一\n正文二");
    assert_eq!(N69shubaProvider.chapter_referer("5"), "https://www.69shuba.com/book/5/");
}

#[test]
fn n69shuba_catalog_put_back_in_order() {
    let info_html = page("<div class=\"booknav2\"><h1><a>书</a></h1><p>作者：<a>甲</a></p><p>123.4万字 | 连载</p><p>更新：2024-01-01</p></div>");
    let catalog = page("<div id=\"catalog\"><ul><li><a href=\"/txt/1/3\">三</a></li><li><a href=\"/txt/1/2\">二</a></li><li><a href=\"/txt/1/1/\">一</a></li></ul></div>");
    let info = N69shubaProvider.parse_book_info(&info_html, &catalog);
    assert_eq!(info.word_count, "123.4万字");
    assert_eq!(info.serial_status, "连载");
    assert_eq!(info.update_time, "2024-01-01");
    let ids: Vec<&str> = info.volumes[0].chapters.iter().map(|c| c.chapter_id.as_str()).collect();
    assert_eq!(ids, vec!["1", "2", "3"]);
}

#[test]
fn dxmwx_reading_link_ids() {
    let catalog = page("<div style=\"height:40px; border-bottom: 1px\"><a href=\"/read/57215_50197663.html\">第一章</a></div>");
    let info = DxmwxProvider.parse_book_info(&page("<img class=\"imgwidth\" src=\"/c.jpg\">"), &catalog);
    assert_eq!(info.cover_url, "https://www.dxmwx.org/c.jpg");
    assert_eq!(info.volumes[0].chapters[0].chapter_id, "50197663");
    assert_eq!(DxmwxProvider.chapter_url("57215", "50197663"), "https://www.dxmwx.org/read/57215_50197663.html");
}

#[test]
fn b520_search_skips_header_and_stops_at_limit() {
    let row = |id: u32| format!("<tr><td><a href=\"http://www.b520.cc/{}/\">书{}</a></td><td><a>新章</a></td><td>作者</td><td>10万</td><td>2024</td></tr>", id, id);
    let html = page(&format!("<table class=\"grid\"><tr><th>书名</th></tr><tr><td>无链接</td></tr>{}{}{}</table>", row(1), row(2), row(3)));
    let r = B520Provider.parse_search(&html, 2);
    assert_eq!(r.len(), 2);
    assert_eq!(r[0].book_id, "1");
    assert_eq!(r[1].title, "书2");
    assert_eq!(r[0].word_count, "10万");
    assert_eq!(B520Provider.parse_search(&html, 0).len(), 0);
}

#[test]
fn alicesw_chapter_ids_keep_the_path() {
    let catalog = page("<ul class=\"mulu_list\"><li><a href=\"/book/123/456.html\">一</a></li></ul>");
    let info = AliceswProvider.parse_book_info(&page(""), &catalog);
    assert_eq!(info.volumes[0].chapters[0].chapter_id, "123-456");
    assert_eq!(AliceswProvider.chapter_url("x", "123-456"), "https://www.alicesw.com/book/123/456.html");
    assert_eq!(AliceswProvider.info_url("1-2"), "https://www.alicesw.com/novel/1/2.html");
}

#[test]
fn esjzone_keeps_only_site_links() {
    let html = page(&cat(&[
        "<div id=\"chapterList\">",
        "<a href=\"https://www.esjzone.cc/forum/1/22.html\" data-title=\" 標題 \">x</a>",
        "<a href=\"https://elsewhere.com/1.html\">y</a>",
        "<a href=\"https://www.esjzone.cc/forum/1/23.html\">第二</a>",
        "</div>"
    ]));
    let info = EsjzoneProvider.parse_book_info(&html);
    let cs = &info.volumes[0].chapters;
    assert_eq!(cs.len(), 2);
    assert_eq!(cs[0].title, "標題");
    assert_eq!(cs[0].chapter_id, "22");
    assert_eq!(cs[1].url, "https://www.esjzone.cc/forum/1/23.html");
}

#[test]
fn search_urls_encode_the_keyword() {
    assert_eq!(DxmwxProvider.search_url("三 体"), "https://www.dxmwx.org/list/%E4%B8%89%20%E4%BD%93.html");
    assert_eq!(EsjzoneProvider.search_url("a&b"), "https://www.esjzone.cc/tags/a%26b/");
}
