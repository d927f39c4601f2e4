//! The values that pages are parsed into, and their mathematical views.

use vstd::prelude::*;

verus! {

/// One entry of a table of contents.
#[derive(Debug, Clone)]
pub struct ChapterInfo {
    pub title: String,
    pub chapter_id: String,
    pub url: String,
}

/// View of a [`ChapterInfo`].
pub struct ChapterInfoView {
    pub title: Seq<char>,
    pub chapter_id: Seq<char>,
    pub url: Seq<char>,
}

impl View for ChapterInfo {
    type V = ChapterInfoView;

    open spec fn view(&self) -> ChapterInfoView {
        ChapterInfoView { title: self.title@, chapter_id: self.chapter_id@, url: self.url@ }
    }
}

/// A named group of chapters; the name may be empty.
#[derive(Debug, Clone)]
pub struct Volume {
    pub volume_name: String,
    pub chapters: Vec<ChapterInfo>,
}

/// View of a [`Volume`].
pub struct VolumeView {
    pub volume_name: Seq<char>,
    pub chapters: Seq<ChapterInfoView>,
}

impl View for Volume {
    type V = VolumeView;

    open spec fn view(&self) -> VolumeView {
        VolumeView {
            volume_name: self.volume_name@,
            chapters: self.chapters@.map_values(|c: ChapterInfo| c@),
        }
    }
}

/// Book metadata and table of contents.
#[derive(Debug, Clone)]
pub struct BookInfo {
    pub book_name: String,
    pub author: String,
    pub summary: String,
    pub cover_url: String,
    pub serial_status: String,
    pub update_time: String,
    pub word_count: String,
    pub volumes: Vec<Volume>,
}

/// View of a [`BookInfo`].
pub struct BookInfoView {
    pub book_name: Seq<char>,
    pub author: Seq<char>,
    pub summary: Seq<char>,
    pub cover_url: Seq<char>,
    pub serial_status: Seq<char>,
    pub update_time: Seq<char>,
    pub word_count: Seq<char>,
    pub volumes: Seq<VolumeView>,
}

impl View for BookInfo {
    type V = BookInfoView;

    open spec fn view(&self) -> BookInfoView {
        BookInfoView {
            book_name: self.book_name@,
            author: self.author@,
            summary: self.summary@,
            cover_url: self.cover_url@,
            serial_status: self.serial_status@,
            update_time: self.update_time@,
            word_count: self.word_count@,
            volumes: self.volumes@.map_values(|v: Volume| v@),
        }
    }
}

impl BookInfo {
    /// A book with every field empty.
    pub fn empty() -> (r: BookInfo)
        ensures
            r@.book_name.len() == 0,
            r@.author.len() == 0,
            r@.summary.len() == 0,
            r@.cover_url.len() == 0,
            r@.serial_status.len() == 0,
            r@.update_time.len() == 0,
            r@.word_count.len() == 0,
            r@.volumes.len() == 0,
    {
        BookInfo {
            book_name: String::new(),
            author: String::new(),
            summary: String::new(),
            cover_url: String::new(),
            serial_status: String::new(),
            update_time: String::new(),
            word_count: String::new(),
            volumes: Vec::new(),
        }
    }
}

/// The text of one chapter.
#[derive(Debug, Clone)]
pub struct Chapter {
    pub id: String,
    pub title: String,
    pub content: String,
}

/// View of a [`Chapter`].
pub struct ChapterView {
    pub id: Seq<char>,
    pub title: Seq<char>,
    pub content: Seq<char>,
}

impl View for Chapter {
    type V = ChapterView;

    open spec fn view(&self) -> ChapterView {
        ChapterView { id: self.id@, title: self.title@, content: self.content@ }
    }
}

/// One hit of a site search.
#[derive(Debug, Clone)]
pub struct SearchResult {
    pub site: String,
    pub book_id: String,
    pub title: String,
    pub author: String,
    pub latest_chapter: String,
    pub update_date: String,
    pub word_count: String,
}

/// View of a [`SearchResult`].
pub struct SearchResultView {
    pub site: Seq<char>,
    pub book_id: Seq<char>,
    pub title: Seq<char>,
    pub author: Seq<char>,
    pub latest_chapter: Seq<char>,
    pub update_date: Seq<char>,
    pub word_count: Seq<char>,
}

impl View for SearchResult {
    type V = SearchResultView;

    open spec fn view(&self) -> SearchResultView {
        SearchResultView {
            site: self.site@,
            book_id: self.book_id@,
            title: self.title@,
            author: self.author@,
            latest_chapter: self.latest_chapter@,
            update_date: self.update_date@,
            word_count: self.word_count@,
        }
    }
}

/// What a streaming download reports, in this order: the book, then one
/// chapter (or chapter error) per table-of-contents entry in order, then the
/// totals.
#[derive(Debug, Clone)]
pub enum DownloadEvent {
    BookInfo { title: String, author: String, summary: String, total: usize },
    Chapter { index: usize, volume: Option<String>, title: String, content: String },
    ChapterError { index: usize, title: String, error: String },
    Done { downloaded: usize, failed: usize },
}

} // verus!
