//! Previews of a paste's files: which files get one, and what it is made of.
//!
//! Part of the work is done elsewhere: HTML is post-processed, CSV becomes a table, and a file's
//! address is written out. [`jobs`] says what is to be done for each file, and [`assemble`] takes
//! what came of it.
use vstd::prelude::*;

use crate::file_map::{entries, insert, new_map};
use crate::markup::{markdown, preview_svg, render_markdown, sanitized, svg_preview};
use crate::reply::{FileId, PasteId, RawAddress, RawAddressView};
use crate::text::ends_with;

verus! {

/// The content of a file.
#[derive(Debug, PartialEq, Eq)]
pub enum Content {
    Text(String),
    /// Content that is not text.
    Binary,
}

/// A file of a paste.
#[derive(Debug, PartialEq, Eq)]
pub struct OutputFile {
    pub id: FileId,
    pub name: Option<String>,
    /// The language that its highlighting was set to, by the highlighter's name for it.
    pub highlight_language: Option<String>,
    pub content: Option<Content>,
}

/// The kinds of files that have a preview.
#[derive(Debug, Clone, Copy, PartialEq, Eq, Structural)]
pub enum Kind {
    Markdown,
    Csv,
    Svg,
}

/// The lower case of `text`.
pub uninterp spec fn lowercase(text: Seq<char>) -> Seq<char>;

/// `str::to_lowercase`: what it returns depends on the text, and on nothing else.
pub assume_specification[ str::to_lowercase ](text: &str) -> (lower: String)
    ensures
        lower@ == lowercase(text@),
;

/// The characters of a text that may be missing.
pub open spec fn optional_text(text: Option<String>) -> Option<Seq<char>> {
    match text {
        Some(text) => Some(text@),
        None => None,
    }
}

/// What kind of preview a file has, given its name in lower case, the language that its
/// highlighting was set to, and the highlighter's name for Markdown.
pub open spec fn kind_of(
    lower: Seq<char>,
    language: Option<Seq<char>>,
    markdown_language: Seq<char>,
) -> Option<Kind> {
    if language is None && ".md"@.is_suffix_of(lower) || ".mdown"@.is_suffix_of(lower)
        || ".markdown"@.is_suffix_of(lower) || language == Some(markdown_language) {
        Some(Kind::Markdown)
    } else if language is None && ".csv"@.is_suffix_of(lower) {
        Some(Kind::Csv)
    } else if ".svg"@.is_suffix_of(lower) {
        Some(Kind::Svg)
    } else {
        None
    }
}

/// Says what kind of preview a file has.
pub fn kind(lower: &str, language: &Option<String>, markdown_language: &String) -> (kind: Option<
    Kind,
>)
    ensures
        kind == kind_of(lower@, optional_text(*language), markdown_language@),
{
    let marked = match language {
        Some(language) => *language == *markdown_language,
        None => false,
    };
    if language.is_none() && ends_with(lower, ".md") || ends_with(lower, ".mdown") || ends_with(
        lower,
        ".markdown",
    ) || marked {
        Some(Kind::Markdown)
    } else if language.is_none() && ends_with(lower, ".csv") {
        Some(Kind::Csv)
    } else if ends_with(lower, ".svg") {
        Some(Kind::Svg)
    } else {
        None
    }
}

/// What is left to do for a file's preview.
#[derive(Debug, PartialEq, Eq)]
pub enum Work {
    /// Post-process HTML that passed the sanitizer.
    PostProcess { html: String },
    /// Make a table of CSV.
    MakeTable { csv: String },
    /// Write out the address of the file's content, to show the image called `name`.
    MakeAddress { name: String, address: RawAddress },
}

/// [`Work`] with its text as a sequence of characters.
pub enum WorkView {
    PostProcess { html: Seq<char> },
    MakeTable { csv: Seq<char> },
    MakeAddress { name: Seq<char>, address: RawAddressView },
}

impl View for Work {
    type V = WorkView;

    open spec fn view(&self) -> WorkView {
        match *self {
            Work::PostProcess { html } => WorkView::PostProcess { html: html@ },
            Work::MakeTable { csv } => WorkView::MakeTable { csv: csv@ },
            Work::MakeAddress { name, address } => WorkView::MakeAddress {
                name: name@,
                address: address@,
            },
        }
    }
}

/// What is left to do, and for which file.
#[derive(Debug, PartialEq, Eq)]
pub struct Job {
    pub file: FileId,
    pub work: Work,
}

/// [`Job`] with its text as a sequence of characters.
pub struct JobView {
    pub file: FileId,
    pub work: WorkView,
}

impl View for Job {
    type V = JobView;

    open spec fn view(&self) -> JobView {
        JobView { file: self.file, work: self.work@ }
    }
}

/// Jobs with their text as sequences of characters.
pub open spec fn job_views(jobs: Seq<Job>) -> Seq<JobView> {
    jobs.map_values(|job: Job| job@)
}

/// What the previews of a paste's files depend on besides the files.
pub struct Setting {
    /// The name that the paste's address puts it under.
    pub username: String,
    pub paste: PasteId,
    /// The highlighter's name for Markdown.
    pub markdown_language: String,
}

/// [`Setting`] with its text as sequences of characters.
pub struct SettingView {
    pub username: Seq<char>,
    pub paste: PasteId,
    pub markdown_language: Seq<char>,
}

impl View for Setting {
    type V = SettingView;

    open spec fn view(&self) -> SettingView {
        SettingView {
            username: self.username@,
            paste: self.paste,
            markdown_language: self.markdown_language@,
        }
    }
}

/// The address that the preview of an image shows.
pub open spec fn image_address(setting: SettingView, file: FileId) -> RawAddressView {
    RawAddressView {
        username: setting.username,
        paste: setting.paste,
        file,
        preview: Some(true),
    }
}

/// The work for a preview of `kind` of the file called `name` with the content `text`.
pub open spec fn work_for(
    kind: Kind,
    file: FileId,
    name: Seq<char>,
    text: Seq<char>,
    setting: SettingView,
) -> WorkView {
    match kind {
        Kind::Markdown => WorkView::PostProcess { html: sanitized(markdown(text)) },
        Kind::Csv => WorkView::MakeTable { csv: text },
        Kind::Svg => WorkView::MakeAddress { name, address: image_address(setting, file) },
    }
}

/// The job for a file. Files without a name, without text or of another kind have none.
pub open spec fn job_for(file: OutputFile, setting: SettingView) -> Option<JobView> {
    match (file.name, file.content) {
        (Some(name), Some(Content::Text(text))) => match kind_of(
            lowercase(name@),
            optional_text(file.highlight_language),
            setting.markdown_language,
        ) {
            Some(kind) => Some(
                JobView { file: file.id, work: work_for(kind, file.id, name@, text@, setting) },
            ),
            None => None,
        },
        _ => None,
    }
}

/// The jobs for files, in the order of the files.
pub open spec fn jobs_for(files: Seq<OutputFile>, setting: SettingView) -> Seq<JobView>
    decreases files.len(),
{
    if files.len() == 0 {
        Seq::empty()
    } else {
        let before = jobs_for(files.drop_last(), setting);
        match job_for(files.last(), setting) {
            Some(job) => before.push(job),
            None => before,
        }
    }
}

/// Says what is left to do for one file's preview, if it has one.
pub fn job(file: &OutputFile, setting: &Setting) -> (job: Option<Job>)
    ensures
        job is Some <==> job_for(*file, setting@) is Some,
        job matches Some(job) ==> Some(job@) == job_for(*file, setting@),
{
    let name = match &file.name {
        Some(name) => name,
        None => return None,
    };
    let lower = name.as_str().to_lowercase();
    let kind = match kind(lower.as_str(), &file.highlight_language, &setting.markdown_language) {
        Some(kind) => kind,
        None => return None,
    };
    let text = match &file.content {
        Some(Content::Text(text)) => text,
        _ => return None,
    };
    let work = match kind {
        Kind::Markdown => Work::PostProcess { html: render_markdown(text.as_str()) },
        Kind::Csv => Work::MakeTable { csv: text.clone() },
        Kind::Svg => {
            let address = RawAddress {
                username: setting.username.clone(),
                paste: setting.paste,
                file: file.id,
                preview: Some(true),
            };
            Work::MakeAddress { name: name.clone(), address }
        },
    };
    Some(Job { file: file.id, work })
}

/// Says what is left to do for the previews of files.
pub fn jobs(files: &Vec<OutputFile>, setting: &Setting) -> (jobs: Vec<Job>)
    ensures
        job_views(jobs@) == jobs_for(files@, setting@),
{
    let mut jobs: Vec<Job> = Vec::new();
    let mut i: usize = 0;
    assert(job_views(jobs@) =~= jobs_for(files@.take(0), setting@));
    while i < files.len()
        invariant
            i <= files.len(),
            job_views(jobs@) == jobs_for(files@.take(i as int), setting@),
        decreases files.len() - i,
    {
        let ghost before = jobs@;
        assert(files@.take(i + 1).drop_last() == files@.take(i as int));
        if let Some(next) = job(&files[i], setting) {
            jobs.push(next);
            assert(job_views(jobs@) =~= job_views(before).push(next@));
        }
        i += 1;
    }
    assert(files@.take(files@.len() as int) == files@);
    jobs
}

/// What came of a job.
#[derive(Debug, PartialEq, Eq)]
pub enum Answer {
    /// The post-processed HTML.
    PostProcessed(String),
    /// The table as HTML, or what to tell the viewer if there is none.
    Table(Result<String, String>),
    /// The address.
    Address(String),
    /// No table could be made, and nothing can be told of it.
    Failed,
}

/// What is shown of a file.
pub enum Shown {
    Preview(Seq<char>),
    Notice(Seq<char>),
    Nothing,
}

/// What is shown of a file when `answer` came of its job. An answer that does not fit the job
/// shows nothing.
pub open spec fn shown(work: WorkView, answer: Answer) -> Shown {
    match (work, answer) {
        (WorkView::PostProcess { .. }, Answer::PostProcessed(html)) => Shown::Preview(html@),
        (WorkView::MakeTable { .. }, Answer::Table(Ok(html))) => Shown::Preview(html@),
        (WorkView::MakeTable { .. }, Answer::Table(Err(notice))) => Shown::Notice(notice@),
        (WorkView::MakeAddress { name, .. }, Answer::Address(address)) => Shown::Preview(
            svg_preview(address@, name),
        ),
        _ => Shown::Nothing,
    }
}

/// The previews of the first `n` jobs, by file. The later of two for the same file wins.
pub open spec fn previews_of(jobs: Seq<JobView>, answers: Seq<Answer>, n: nat) -> Map<
    FileId,
    Seq<char>,
>
    decreases n,
{
    if n == 0 {
        Map::empty()
    } else {
        let before = previews_of(jobs, answers, (n - 1) as nat);
        match shown(jobs[n - 1].work, answers[n - 1]) {
            Shown::Preview(html) => before.insert(jobs[n - 1].file, html),
            _ => before,
        }
    }
}

/// The notices of the first `n` jobs, by file. The later of two for the same file wins.
pub open spec fn notices_of(jobs: Seq<JobView>, answers: Seq<Answer>, n: nat) -> Map<
    FileId,
    Seq<char>,
>
    decreases n,
{
    if n == 0 {
        Map::empty()
    } else {
        let before = notices_of(jobs, answers, (n - 1) as nat);
        match shown(jobs[n - 1].work, answers[n - 1]) {
            Shown::Notice(notice) => before.insert(jobs[n - 1].file, notice),
            _ => before,
        }
    }
}

/// How many of the jobs have an answer.
pub open spec fn answered(jobs: nat, answers: nat) -> nat {
    if jobs <= answers {
        jobs
    } else {
        answers
    }
}

/// Whether one of the first `n` jobs was to make a table and failed.
pub open spec fn table_failed(jobs: Seq<JobView>, answers: Seq<Answer>, n: nat) -> bool {
    exists|k: int|
        0 <= k < n && (#[trigger] jobs[k]).work is MakeTable && answers[k] == Answer::Failed
}

/// The previews of a paste's files, and what the viewer is told where there is none.
#[derive(Debug, PartialEq, Eq)]
pub struct Previews {
    pub rendered: hashbrown::HashMap<FileId, String>,
    pub notices: hashbrown::HashMap<FileId, String>,
}

/// [`Previews`] as maps to sequences of characters.
pub struct PreviewsView {
    pub rendered: Map<FileId, Seq<char>>,
    pub notices: Map<FileId, Seq<char>>,
}

impl View for Previews {
    type V = PreviewsView;

    open spec fn view(&self) -> PreviewsView {
        PreviewsView { rendered: entries(self.rendered), notices: entries(self.notices) }
    }
}

/// The previews that come of jobs with their answers, each with the answer of the same place.
/// There are none if a table failed.
pub open spec fn assembled_of(jobs: Seq<JobView>, answers: Seq<Answer>) -> Option<PreviewsView> {
    let n = answered(jobs.len(), answers.len());
    if table_failed(jobs, answers, n) {
        None
    } else {
        Some(
            PreviewsView {
                rendered: previews_of(jobs, answers, n),
                notices: notices_of(jobs, answers, n),
            },
        )
    }
}

/// The view of previews that may be missing.
pub open spec fn optional_previews(previews: Option<Previews>) -> Option<PreviewsView> {
    match previews {
        Some(previews) => Some(previews@),
        None => None,
    }
}

/// Puts the previews together: each job with the answer of the same place. There are none if a
/// table failed.
pub fn assemble(jobs: Vec<Job>, answers: Vec<Answer>) -> (assembled: Option<Previews>)
    ensures
        optional_previews(assembled) == assembled_of(job_views(jobs@), answers@),
{
    let ghost views = job_views(jobs@);
    let mut rendered = new_map();
    let mut notices = new_map();
    let mut i: usize = 0;
    while i < jobs.len() && i < answers.len()
        invariant
            i <= jobs.len(),
            i <= answers.len(),
            views == job_views(jobs@),
            entries(rendered) == previews_of(views, answers@, i as nat),
            entries(notices) == notices_of(views, answers@, i as nat),
            !table_failed(views, answers@, i as nat),
        decreases jobs.len() - i,
    {
        let file = jobs[i].file;
        assert(views[i as int] == jobs[i as int]@);
        match (&jobs[i].work, &answers[i]) {
            (Work::PostProcess { .. }, Answer::PostProcessed(html)) => {
                insert(&mut rendered, file, html.clone());
            },
            (Work::MakeTable { .. }, Answer::Table(Ok(html))) => {
                insert(&mut rendered, file, html.clone());
            },
            (Work::MakeTable { .. }, Answer::Table(Err(notice))) => {
                insert(&mut notices, file, notice.clone());
            },
            (Work::MakeTable { .. }, Answer::Failed) => {
                return None;
            },
            (Work::MakeAddress { name, .. }, Answer::Address(address)) => {
                insert(&mut rendered, file, preview_svg(address.as_str(), name.as_str()));
            },
            _ => {},
        }
        i += 1;
    }
    Some(Previews { rendered, notices })
}

} // verus!
