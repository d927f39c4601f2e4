use novel_downloader::download::{
    book_event, build_flat, chapter_outcome, delivery_event, done_event, output_file_name, txt_block, txt_header,
    txt_outcome, DeliveryQueue, Outcome, CONCURRENCY, FAILED_MARK,
};
use novel_downloader::types::{BookInfo, Chapter, ChapterInfo, DownloadEvent, Volume};

fn ch(id: &str, title: &str) -> ChapterInfo {
    ChapterInfo { title: title.to_string(), chapter_id: id.to_string(), url: format!("https://x/{}", id) }
}

fn book(vols: Vec<Volume>) -> BookInfo {
    let mut b = BookInfo::empty();
    b.book_name = "书名".to_string();
    b.author = "作者甲".to_string();
    b.summary = "简介".to_string();
    b.volumes = vols;
    b
}

fn ok_outcome(i: usize) -> Outcome {
    Outcome { vol_header: None, title: format!("t{}", i), content: format!("c{}", i), ok: true }
}

#[test]
fn flat_toc_numbers_chapters_and_marks_volume_starts() {
    let info = book(vec![
        Volume { volume_name: "第一卷".to_string(), chapters: vec![ch("1", "一"), ch("2", "二")] },
        Volume { volume_name: String::new(), chapters: vec![ch("3", "三")] },
        Volume { volume_name: "第三卷".to_string(), chapters: vec![] },
        Volume { volume_name: "第四卷".to_string(), chapters: vec![ch("4", "四")] },
    ]);
    let flat = build_flat(&info);
    assert_eq!(flat.len(), 4);
    let idx: Vec<usize> = flat.iter().map(|f| f.idx).collect();
    assert_eq!(idx, vec![0, 1, 2, 3]);
    assert_eq!(flat[0].vol_header.as_deref(), Some("第一卷"));
    assert_eq!(flat[1].vol_header, None);
    assert_eq!(flat[2].vol_header, None);
    assert_eq!(flat[3].vol_header.as_deref(), Some("第四卷"));
    assert_eq!(flat[2].chapter_id, "3");
    assert_eq!(flat[3].title, "四");
}

#[test]
fn queue_first_requests_are_the_window() {
    let q = DeliveryQueue::new(30);
    assert_eq!(q.initial_requests(), (0..CONCURRENCY).collect::<Vec<_>>());
    let small = DeliveryQueue::new(3);
    assert_eq!(small.initial_requests(), vec![0, 1, 2]);
    assert!(DeliveryQueue::new(0).is_finished());
}

#[test]
fn queue_delivers_in_order_whatever_the_arrival_order() {
    let total = 20;
    let mut q = DeliveryQueue::new(total);
    let mut pending: Vec<usize> = q.initial_requests();
    let mut delivered: Vec<usize> = Vec::new();
    let mut requested: Vec<usize> = pending.clone();
    let mut completed = 0usize;
    // complete the newest request first each time
    while let Some(i) = pending.pop() {
        let o = if i % 7 == 3 {
            Outcome { vol_header: None, title: format!("t{}", i), content: "boom".to_string(), ok: false }
        } else {
            ok_outcome(i)
        };
        let (out, next) = q.complete(i, o);
        completed += 1;
        for d in out {
            delivered.push(d.index);
        }
        if let Some(n) = next {
            requested.push(n);
            pending.insert(0, n);
        }
        // never more than the window in flight
        assert!(requested.len() - completed <= CONCURRENCY);
    }
    assert_eq!(delivered, (0..total).collect::<Vec<_>>());
    assert!(q.is_finished());
    let (ok, failed) = q.counts();
    assert_eq!(ok + failed, total);
    assert_eq!(failed, 3); // 3, 10, 17
    match done_event(&q) {
        DownloadEvent::Done { downloaded, failed } => {
            assert_eq!(downloaded, 17);
            assert_eq!(failed, 3);
        },
        _ => panic!("expected Done"),
    }
}

#[test]
fn queue_requests_each_chapter_once() {
    let total = 25;
    let mut q = DeliveryQueue::new(total);
    let mut pending: Vec<usize> = q.initial_requests();
    let mut requested: Vec<usize> = pending.clone();
    while !pending.is_empty() {
        let i = pending.remove(0);
        let (_, next) = q.complete(i, ok_outcome(i));
        if let Some(n) = next {
            requested.push(n);
            pending.push(n);
        }
    }
    requested.sort();
    assert_eq!(requested, (0..total).collect::<Vec<_>>());
    assert!(q.is_finished());
}

#[test]
fn outcome_uses_fallback_title_and_error() {
    let o = chapter_outcome(Some("卷".to_string()), "目录标题".to_string(), Ok(Chapter { id: "1".into(), title: String::new(), content: "正文".into() }));
    assert_eq!(o.title, "目录标题");
    assert!(o.ok);
    assert_eq!(o.vol_header.as_deref(), Some("卷"));
    let o = chapter_outcome(None, "目录标题".to_string(), Err("timeout".to_string()));
    assert!(!o.ok);
    assert_eq!(o.content, "timeout");
    let o = txt_outcome(None, "目录标题".to_string(), None);
    assert_eq!(o.content, FAILED_MARK);
    assert!(!o.ok);
    let o = txt_outcome(None, "x".to_string(), Some(Chapter { id: "1".into(), title: "页".into(), content: "c".into() }));
    assert_eq!(o.title, "页");
    assert!(o.ok);
}

#[test]
fn events_carry_book_and_chapters() {
    let info = book(vec![]);
    match book_event(&info, 9) {
        DownloadEvent::BookInfo { title, author, summary, total } => {
            assert_eq!((title.as_str(), author.as_str(), summary.as_str(), total), ("书名", "作者甲", "简介", 9));
        },
        _ => panic!("expected BookInfo"),
    }
    let mut q = DeliveryQueue::new(1);
    let (out, _) = q.complete(0, ok_outcome(0));
    let d = out.into_iter().next().unwrap();
    match delivery_event(d) {
        DownloadEvent::Chapter { index, title, content, .. } => {
            assert_eq!((index, title.as_str(), content.as_str()), (0, "t0", "c0"));
        },
        _ => panic!("expected Chapter"),
    }
}

#[test]
fn text_file_layout() {
    let info = book(vec![]);
    assert_eq!(txt_header(&info), "《书名》\n作者：作者甲\n\n简介\n\n");
    let mut q = DeliveryQueue::new(1);
    let o = Outcome { vol_header: Some("卷一".to_string()), title: "章".to_string(), content: "文".to_string(), ok: true };
    let (out, _) = q.complete(0, o);
    assert_eq!(txt_block(&out[0]), "\n\n卷一\n\n章\n\n文\n\n");
}

#[test]
fn output_name_replaces_unsafe_characters() {
    assert_eq!(output_file_name("a/b:c*d?\"e<f>g|h\\i"), "a_b_c_d__e_f_g_h_i.txt");
    assert_eq!(output_file_name("斗罗大陆"), "斗罗大陆.txt");
}
