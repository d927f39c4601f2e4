use novel_downloader::providers::{get_all_providers, Site};
use novel_downloader::types::SearchResult;
use novel_downloader::{best_match, find_provider, list_providers};

fn result(site: &str, title: &str) -> SearchResult {
    SearchResult {
        site: site.to_string(),
        book_id: "1".to_string(),
        title: title.to_string(),
        author: String::new(),
        latest_chapter: String::new(),
        update_date: String::new(),
        word_count: String::new(),
    }
}

#[test]
fn listing_matches_the_sites() {
    let metas = list_providers();
    let sites = get_all_providers();
    assert_eq!(metas.len(), sites.len());
    for (m, s) in metas.iter().zip(sites.iter()) {
        assert_eq!(m.name, s.name());
        assert_eq!(m.url, s.base_url());
        assert_eq!(m.supports_search, s.supports_search());
    }
    assert_eq!(metas.len(), 83);
    let at = |i: usize| (metas[i].name.as_str(), metas[i].url.as_str(), metas[i].supports_search);
    assert_eq!(at(2), ("bxwx9", "https://www.bxwx9.org", true));
    assert_eq!(at(4), ("fsshu", "https://www.fsshu.com", true));
    assert_eq!(at(11), ("n69hao", "https://www.69hao.com", false));
    assert_eq!(at(47), ("qidian", "https://www.qidian.com", true));
    assert_eq!(at(82), ("qqbook", "https://book.qq.com", false));
    assert_eq!(at(0), ("biquge5", "", false));
    assert_eq!(at(49), ("wenku8", "", false));
}

#[test]
fn registry_keeps_the_full_list_order() {
    let ps = get_all_providers();
    assert_eq!(ps.len(), 83);
    let at = |i: usize| (ps[i].name(), ps[i].base_url(), ps[i].supports_search());
    assert_eq!(at(8), ("blqudu", "https://www.blqudu.cc", false));
    assert_eq!(at(14), ("alicesw", "https://www.alicesw.com", true));
    assert_eq!(at(64), ("pilibook", "https://www.pilibook.net", false));
    assert_eq!(at(81), ("n69shuba", "https://www.69shuba.com", false));
    assert_eq!(ps[79].name(), "zhenhunxiaoshuo");
    assert_eq!(ps[79].display_name(), "zhenhunxiaoshuo");
}

#[test]
fn listed_names_are_distinct() {
    let metas = list_providers();
    let mut names: Vec<&str> = metas.iter().map(|m| m.name.as_str()).collect();
    names.sort();
    let n = names.len();
    names.dedup();
    assert_eq!(names.len(), n);
}

#[test]
fn every_listed_site_is_found_by_name() {
    for m in list_providers() {
        let s = find_provider(&m.name).expect("listed site found");
        assert_eq!(s.name(), m.name);
        assert_eq!(s.base_url(), m.url);
    }
    assert!(find_provider("no-such-site").is_none());
}

#[test]
fn search_support_per_site() {
    let q = find_provider("qidian").unwrap();
    assert!(q.supports_search());
    assert_eq!(q.display_name(), "起点中文网");
    let k = find_provider("kunnu").unwrap();
    assert!(!k.supports_search());
    let h = find_provider("n69hao").unwrap();
    assert!(matches!(h, Site::Layout3(_)));
    assert!(!h.supports_search());
    assert_eq!(find_provider("blqudu").unwrap().display_name(), "blqudu");
}

#[test]
fn best_match_prefers_exact_then_partial_then_first() {
    let rs = vec![result("a", "斗罗大陆外传"), result("b", "Douluo"), result("c", "斗罗大陆")];
    assert_eq!(best_match(&rs, "斗罗大陆"), Some(2));
    assert_eq!(best_match(&rs, "douluo"), Some(1));
    assert_eq!(best_match(&rs, "外传"), Some(0));
    assert_eq!(best_match(&rs, "完全不同"), Some(0));
    assert_eq!(best_match(&Vec::new(), "x"), None);
}
