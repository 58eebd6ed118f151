//! The pages of a paste: who may see, delete and edit it, and what the page shows.
//!
//! The handlers that read the paste are step functions. A step names what is to be done next;
//! what came of it is an event; the handler's function takes both and gives the next step.
use vstd::prelude::*;

use crate::previews::{
    assemble, assembled_of, job_views, jobs, jobs_for, optional_previews, optional_text, Answer,
    Job, JobView, OutputFile, Previews, PreviewsView, Setting, SettingView,
};
use crate::reply::{
    Page, PasteId, RawAddress, RawAddressView, Reply, ReplyView, Target, TargetView, UserId,
    FORBIDDEN, NOT_FOUND,
};
use crate::text::{hex_text, simple};

verus! {

/// The author of a paste.
#[derive(Debug, PartialEq, Eq)]
pub struct Author {
    pub id: UserId,
    pub username: String,
}

/// A paste, as far as it decides who may see it.
#[derive(Debug, PartialEq, Eq)]
pub struct Paste {
    pub id: PasteId,
    /// The author, unless the paste is anonymous.
    pub author: Option<Author>,
    pub private: bool,
    /// The status with which the viewer is refused, if the viewer may not see the paste.
    pub refused: Option<u16>,
}

/// A paste that was looked for by its identifier alone.
#[derive(Debug, PartialEq, Eq)]
pub struct FoundPaste {
    /// The author's username, unless the paste is anonymous.
    pub owner: Option<String>,
    /// The status with which the viewer is refused, if the viewer may not see the paste.
    pub refused: Option<u16>,
}

/// Who looks at a page.
#[derive(Debug, Clone, Copy, PartialEq, Eq, Structural)]
pub struct Viewer {
    pub id: UserId,
    pub is_admin: bool,
}

/// The name that a paste stands under: its author's, or that of no one.
pub open spec fn name_or_anonymous(owner: Option<Seq<char>>) -> Seq<char> {
    match owner {
        Some(name) => name,
        None => "anonymous"@,
    }
}

/// The author's username, unless the paste is anonymous.
pub open spec fn username_of(author: Option<Author>) -> Option<Seq<char>> {
    match author {
        Some(author) => Some(author.username@),
        None => None,
    }
}

/// The author's identifier, unless the paste is anonymous.
pub open spec fn id_of(author: Option<Author>) -> Option<UserId> {
    match author {
        Some(author) => Some(author.id),
        None => None,
    }
}

/// The name that a paste stands under.
pub open spec fn author_name(paste: Paste) -> Seq<char> {
    name_or_anonymous(username_of(paste.author))
}

/// Whether the viewer wrote the paste. Nobody wrote an anonymous one.
pub open spec fn owns(viewer: Option<UserId>, paste: Paste) -> bool {
    paste.author is Some && viewer == id_of(paste.author)
}

/// The paste that is found under `username`: none if it stands under another name.
pub open spec fn under(username: Seq<char>, found: Option<Paste>) -> Option<Paste> {
    match found {
        Some(paste) if author_name(paste) == username => Some(paste),
        _ => None,
    }
}

/// Copies a text.
fn copy(text: &str) -> (copied: String)
    ensures
        copied@ == text@,
{
    text.to_owned()
}

/// The name that `author`'s pastes stand under.
fn name_of(author: &Option<Author>) -> (name: String)
    ensures
        name@ == name_or_anonymous(username_of(*author)),
{
    match author {
        Some(author) => author.username.clone(),
        None => copy("anonymous"),
    }
}

/// Whether the viewer is the author, for an author and a viewer who may both be missing.
fn same_user(author: &Option<Author>, viewer: Option<UserId>) -> (same: bool)
    ensures
        same == (id_of(*author) == viewer),
{
    match (author, viewer) {
        (Some(author), Some(viewer)) => author.id == viewer,
        (None, None) => true,
        _ => false,
    }
}

/// Whether a paste stands under `username`.
fn stands_under(paste: &Paste, username: &String) -> (stands: bool)
    ensures
        stands == (author_name(*paste) == username@),
{
    name_of(&paste.author) == *username
}

/// The reply to a request for a paste by its identifier alone.
pub open spec fn id_reply(found: Option<FoundPaste>, id: PasteId) -> ReplyView {
    match found {
        None => ReplyView::Status(NOT_FOUND),
        Some(paste) => match paste.refused {
            Some(status) => ReplyView::Status(status),
            None => ReplyView::Redirect(
                TargetView::Paste {
                    username: name_or_anonymous(
                        match paste.owner {
                            Some(owner) => Some(owner@),
                            None => None,
                        },
                    ),
                    id,
                },
            ),
        },
    }
}

/// Sends a viewer who knows a paste's identifier to its page, if they may see it.
pub fn id(found: Option<FoundPaste>, paste_id: PasteId) -> (reply: Reply)
    ensures
        reply@ == id_reply(found, paste_id),
{
    match found {
        None => Reply::Status(NOT_FOUND),
        Some(paste) => match paste.refused {
            Some(status) => Reply::Status(status),
            None => {
                let username = match paste.owner {
                    Some(owner) => owner,
                    None => copy("anonymous"),
                };
                Reply::Redirect(Target::Paste { username, id: paste_id })
            },
        },
    }
}

/// Sends a viewer to a paste's page from its old address.
pub fn username_id(username: String, id: PasteId) -> (target: Target)
    ensures
        target@ == (TargetView::Paste { username: username@, id }),
{
    Target::Paste { username, id }
}

/// A paste as it is stored, as far as it decides who may see it.
#[derive(Debug, Clone, Copy, PartialEq, Eq, Structural)]
pub struct StoredPaste {
    pub id: PasteId,
    /// The author, unless the paste is anonymous.
    pub author: Option<UserId>,
    pub private: bool,
    /// The status with which the viewer is refused, if the viewer may not see the paste.
    pub refused: Option<u16>,
}

/// A request for one of a paste's pages.
pub struct PasteRequest {
    /// The name that the address puts the paste under.
    pub username: String,
    pub id: PasteId,
    pub viewer: Option<Viewer>,
    /// The highlighter's name for Markdown.
    pub markdown_language: String,
}

/// What a page shows of a paste.
#[derive(Debug, PartialEq, Eq)]
pub struct PageData {
    pub paste: Paste,
    pub files: Vec<OutputFile>,
    /// The previews of the files, on a page that has any.
    pub previews: Option<Previews>,
    /// When the paste was last changed, as it is written out, unless that cannot be told.
    pub update_time: Option<String>,
}

/// [`PageData`] over sequences and maps.
pub struct PageDataView {
    pub paste: Paste,
    pub files: Seq<OutputFile>,
    pub previews: Option<PreviewsView>,
    pub update_time: Option<Seq<char>>,
}

impl View for PageData {
    type V = PageDataView;

    open spec fn view(&self) -> PageDataView {
        PageDataView {
            paste: self.paste,
            files: self.files@,
            previews: optional_previews(self.previews),
            update_time: optional_text(self.update_time),
        }
    }
}

/// What the handler of one of a paste's pages does next.
#[derive(Debug, PartialEq, Eq)]
pub enum PasteStep {
    /// Look for the paste.
    FindPaste { id: PasteId },
    /// Look for the paste's author.
    FindAuthor { stored: StoredPaste, author: UserId },
    /// Read the paste's files.
    ReadFiles { paste: Paste },
    /// Do the jobs that the previews of the paste's files need.
    MakePreviews { paste: Paste, files: Vec<OutputFile>, jobs: Vec<Job> },
    /// Read when the paste was last changed.
    ReadUpdateTime { paste: Paste, files: Vec<OutputFile>, previews: Option<Previews> },
    /// Gather what every page is given.
    MakeContext { data: PageData },
    /// Count the paste's revisions.
    CountCommits { data: PageData },
    /// Take what the session keeps under `key` out of it.
    TakeDeletionKey { data: PageData, commits: u64, key: String },
    /// Show the paste's page: the handler is done.
    Show { data: PageData, commits: u64, deletion_key: Option<String> },
    /// Show the page that edits the paste: the handler is done.
    ShowEdit { data: PageData, commits: u64 },
    /// Show the page that deletes the paste: the handler is done.
    ShowDelete { paste: Paste },
    /// Keep the text of an error in the session, to be shown.
    AddError { error: PasteError },
    /// Answer without a page: the handler is done.
    Answer(Reply),
    /// Give up because something that a step asked for failed: the handler is done.
    Fail,
}

/// [`PasteStep`] over sequences and maps.
pub enum PasteStepView {
    FindPaste { id: PasteId },
    FindAuthor { stored: StoredPaste, author: UserId },
    ReadFiles { paste: Paste },
    MakePreviews { paste: Paste, files: Seq<OutputFile>, jobs: Seq<JobView> },
    ReadUpdateTime { paste: Paste, files: Seq<OutputFile>, previews: Option<PreviewsView> },
    MakeContext { data: PageDataView },
    CountCommits { data: PageDataView },
    TakeDeletionKey { data: PageDataView, commits: u64, key: Seq<char> },
    Show { data: PageDataView, commits: u64, deletion_key: Option<Seq<char>> },
    ShowEdit { data: PageDataView, commits: u64 },
    ShowDelete { paste: Paste },
    AddError { error: PasteError },
    Answer(ReplyView),
    Fail,
}

impl View for PasteStep {
    type V = PasteStepView;

    open spec fn view(&self) -> PasteStepView {
        match *self {
            PasteStep::FindPaste { id } => PasteStepView::FindPaste { id },
            PasteStep::FindAuthor { stored, author } => PasteStepView::FindAuthor {
                stored,
                author,
            },
            PasteStep::ReadFiles { paste } => PasteStepView::ReadFiles { paste },
            PasteStep::MakePreviews { paste, files, jobs } => PasteStepView::MakePreviews {
                paste,
                files: files@,
                jobs: job_views(jobs@),
            },
            PasteStep::ReadUpdateTime { paste, files, previews } => PasteStepView::ReadUpdateTime {
                paste,
                files: files@,
                previews: optional_previews(previews),
            },
            PasteStep::MakeContext { data } => PasteStepView::MakeContext { data: data@ },
            PasteStep::CountCommits { data } => PasteStepView::CountCommits { data: data@ },
            PasteStep::TakeDeletionKey { data, commits, key } => PasteStepView::TakeDeletionKey {
                data: data@,
                commits,
                key: key@,
            },
            PasteStep::Show { data, commits, deletion_key } => PasteStepView::Show {
                data: data@,
                commits,
                deletion_key: optional_text(deletion_key),
            },
            PasteStep::ShowEdit { data, commits } => PasteStepView::ShowEdit {
                data: data@,
                commits,
            },
            PasteStep::ShowDelete { paste } => PasteStepView::ShowDelete { paste },
            PasteStep::AddError { error } => PasteStepView::AddError { error },
            PasteStep::Answer(reply) => PasteStepView::Answer(reply@),
            PasteStep::Fail => PasteStepView::Fail,
        }
    }
}

/// What came of a step of the handler of one of a paste's pages.
#[derive(Debug, PartialEq, Eq)]
pub enum PasteEvent {
    /// The paste, if there is one.
    PasteFound(Option<StoredPaste>),
    /// The author's username.
    AuthorFound(String),
    /// The paste's files.
    FilesRead(Vec<OutputFile>),
    /// What came of each of the jobs, in their order.
    JobsAnswered(Vec<Answer>),
    /// When the paste was last changed, as it is written out.
    UpdateTimeRead(String),
    /// The number of the paste's revisions.
    CommitsCounted(u64),
    /// What the session kept, if it kept anything.
    KeyTaken(Option<String>),
    /// It was done.
    Performed,
    /// It failed.
    Failed,
}

/// What a viewer is told about a paste.
#[derive(Debug, Clone, Copy, PartialEq, Eq, Structural)]
pub enum PasteError {
    /// The paste has no author who could edit it.
    AnonymousEdit,
}

/// The text of an error.
pub open spec fn error_text(error: PasteError) -> Seq<char> {
    match error {
        PasteError::AnonymousEdit => "Cannot edit anonymous pastes."@,
    }
}

impl PasteError {
    /// The text of the error.
    pub fn text(self) -> (text: &'static str)
        ensures
            text@ == error_text(self),
    {
        match self {
            PasteError::AnonymousEdit => "Cannot edit anonymous pastes.",
        }
    }
}

/// What a paste is asked for.
#[derive(Debug, Clone, Copy, PartialEq, Eq, Structural)]
pub enum Purpose {
    Show,
    Delete,
    Edit,
}

/// The page that a paste is asked for.
pub open spec fn purpose_page(purpose: Purpose) -> Page {
    match purpose {
        Purpose::Show => Page::Paste,
        Purpose::Delete => Page::DeletePaste,
        Purpose::Edit => Page::EditPaste,
    }
}

/// Says which page a paste is asked for.
pub fn page_for(purpose: Purpose) -> (page: Page)
    ensures
        page == purpose_page(purpose),
{
    match purpose {
        Purpose::Show => Page::Paste,
        Purpose::Delete => Page::DeletePaste,
        Purpose::Edit => Page::EditPaste,
    }
}

/// What the previews of a paste's files depend on besides the files.
pub open spec fn setting_of(request: PasteRequest, paste: Paste) -> SettingView {
    SettingView {
        username: request.username@,
        paste: paste.id,
        markdown_language: request.markdown_language@,
    }
}

/// What the session keeps a paste's deletion key under.
pub open spec fn deletion_key_name(id: PasteId) -> Seq<char> {
    "deletion_key_"@ + hex_text(id as nat, 32)
}

/// Names what the session keeps a paste's deletion key under.
fn deletion_key(id: PasteId) -> (key: String)
    ensures
        key@ == deletion_key_name(id),
{
    let mut key = String::new();
    key.append("deletion_key_");
    key.append(simple(id).as_str());
    assert(key@ =~= deletion_key_name(id));
    key
}

/// The step after looking for a paste in order to show it.
pub open spec fn show_step(request: PasteRequest, found: Option<Paste>) -> PasteStepView {
    match under(request.username@, found) {
        None => PasteStepView::Answer(ReplyView::Status(NOT_FOUND)),
        Some(paste) => match paste.refused {
            Some(status) => PasteStepView::Answer(ReplyView::Status(status)),
            None => PasteStepView::ReadFiles { paste },
        },
    }
}

/// The step after looking for a paste in order to delete it.
pub open spec fn delete_step(request: PasteRequest, found: Option<Paste>) -> PasteStepView {
    match under(request.username@, found) {
        None => PasteStepView::Answer(ReplyView::Status(NOT_FOUND)),
        Some(paste) => if paste.author is None || owns(viewer_id(request.viewer), paste) {
            PasteStepView::ShowDelete { paste }
        } else {
            PasteStepView::Answer(
                ReplyView::Redirect(
                    TargetView::Paste { username: request.username@, id: request.id },
                ),
            )
        },
    }
}

/// The step after looking for a paste in order to edit it.
pub open spec fn edit_step(request: PasteRequest, found: Option<Paste>) -> PasteStepView {
    match under(request.username@, found) {
        None => PasteStepView::Answer(ReplyView::Status(NOT_FOUND)),
        Some(paste) => match (paste.refused, paste.author) {
            (Some(status), _) => PasteStepView::Answer(ReplyView::Status(status)),
            (None, None) => PasteStepView::AddError { error: PasteError::AnonymousEdit },
            (None, Some(_)) => if owns(viewer_id(request.viewer), paste) {
                PasteStepView::ReadFiles { paste }
            } else if paste.private {
                PasteStepView::Answer(ReplyView::Status(NOT_FOUND))
            } else {
                PasteStepView::Answer(ReplyView::Status(FORBIDDEN))
            },
        },
    }
}

/// The step after looking for a paste.
pub open spec fn found_step(
    purpose: Purpose,
    request: PasteRequest,
    found: Option<Paste>,
) -> PasteStepView {
    match purpose {
        Purpose::Show => show_step(request, found),
        Purpose::Delete => delete_step(request, found),
        Purpose::Edit => edit_step(request, found),
    }
}

/// The paste that is stored, with its author.
pub open spec fn loaded(stored: StoredPaste, author: Option<Author>) -> Paste {
    Paste { id: stored.id, author, private: stored.private, refused: stored.refused }
}

/// The first step of the handler of one of a paste's pages. Who is not logged in is sent to log
/// in before they edit.
pub open spec fn paste_first(purpose: Purpose, request: PasteRequest) -> PasteStepView {
    if purpose == Purpose::Edit && request.viewer is None {
        PasteStepView::Answer(ReplyView::Redirect(TargetView::Login))
    } else {
        PasteStepView::FindPaste { id: request.id }
    }
}

/// The step that follows `step` when `event` came of it. An event that does not answer the step
/// changes nothing. A page is shown without the time of the last change where that cannot be
/// read; any other failure ends the handler.
pub open spec fn paste_next(
    purpose: Purpose,
    request: PasteRequest,
    step: PasteStepView,
    event: PasteEvent,
) -> PasteStepView {
    match (step, event) {
        (PasteStepView::FindPaste { .. }, PasteEvent::PasteFound(None)) => found_step(
            purpose,
            request,
            None,
        ),
        (
            PasteStepView::FindPaste { .. },
            PasteEvent::PasteFound(Some(stored)),
        ) => match stored.author {
            Some(author) => PasteStepView::FindAuthor { stored, author },
            None => found_step(purpose, request, Some(loaded(stored, None))),
        },
        (
            PasteStepView::FindAuthor { stored, author },
            PasteEvent::AuthorFound(username),
        ) => found_step(
            purpose,
            request,
            Some(loaded(stored, Some(Author { id: author, username }))),
        ),
        (PasteStepView::ReadFiles { paste }, PasteEvent::FilesRead(files)) => if purpose
            == Purpose::Show {
            PasteStepView::MakePreviews {
                paste,
                files: files@,
                jobs: jobs_for(files@, setting_of(request, paste)),
            }
        } else {
            PasteStepView::ReadUpdateTime { paste, files: files@, previews: None }
        },
        (
            PasteStepView::MakePreviews { paste, files, jobs },
            PasteEvent::JobsAnswered(answers),
        ) => match assembled_of(jobs, answers@) {
            Some(previews) => PasteStepView::ReadUpdateTime {
                paste,
                files,
                previews: Some(previews),
            },
            None => PasteStepView::Fail,
        },
        (
            PasteStepView::ReadUpdateTime { paste, files, previews },
            PasteEvent::UpdateTimeRead(time),
        ) => PasteStepView::MakeContext {
            data: PageDataView { paste, files, previews, update_time: Some(time@) },
        },
        (
            PasteStepView::ReadUpdateTime { paste, files, previews },
            PasteEvent::Failed,
        ) => PasteStepView::MakeContext {
            data: PageDataView { paste, files, previews, update_time: None },
        },
        (
            PasteStepView::MakeContext { data },
            PasteEvent::Performed,
        ) => PasteStepView::CountCommits { data },
        (PasteStepView::CountCommits { data }, PasteEvent::CommitsCounted(commits)) => if purpose
            == Purpose::Show {
            PasteStepView::TakeDeletionKey {
                data,
                commits,
                key: deletion_key_name(data.paste.id),
            }
        } else {
            PasteStepView::ShowEdit { data, commits }
        },
        (
            PasteStepView::TakeDeletionKey { data, commits, .. },
            PasteEvent::KeyTaken(deletion_key),
        ) => PasteStepView::Show { data, commits, deletion_key: optional_text(deletion_key) },
        (PasteStepView::AddError { .. }, PasteEvent::Performed) => PasteStepView::Answer(
            ReplyView::Redirect(TargetView::LastPage),
        ),
        (
            PasteStepView::FindPaste { .. }
            | PasteStepView::FindAuthor { .. }
            | PasteStepView::ReadFiles { .. }
            | PasteStepView::CountCommits { .. },
            PasteEvent::Failed,
        ) => PasteStepView::Fail,
        _ => step,
    }
}

/// Decides what to do about a paste that was looked for.
fn decide(purpose: Purpose, request: &PasteRequest, found: Option<Paste>) -> (step: PasteStep)
    ensures
        step@ == found_step(purpose, *request, found),
{
    let paste = match found {
        Some(paste) => paste,
        None => return PasteStep::Answer(Reply::Status(NOT_FOUND)),
    };
    if !stands_under(&paste, &request.username) {
        return PasteStep::Answer(Reply::Status(NOT_FOUND));
    }
    let viewer = match request.viewer {
        Some(viewer) => Some(viewer.id),
        None => None,
    };
    let anonymous = paste.author.is_none();
    let is_author = same_user(&paste.author, viewer);
    match purpose {
        Purpose::Show => match paste.refused {
            Some(status) => PasteStep::Answer(Reply::Status(status)),
            None => PasteStep::ReadFiles { paste },
        },
        Purpose::Delete => {
            if !anonymous && !is_author {
                let target = Target::Paste { username: request.username.clone(), id: request.id };
                PasteStep::Answer(Reply::Redirect(target))
            } else {
                PasteStep::ShowDelete { paste }
            }
        },
        Purpose::Edit => match paste.refused {
            Some(status) => PasteStep::Answer(Reply::Status(status)),
            None => {
                if anonymous {
                    PasteStep::AddError { error: PasteError::AnonymousEdit }
                } else if is_author {
                    PasteStep::ReadFiles { paste }
                } else if paste.private {
                    PasteStep::Answer(Reply::Status(NOT_FOUND))
                } else {
                    PasteStep::Answer(Reply::Status(FORBIDDEN))
                }
            },
        },
    }
}

/// Goes on with a request for one of a paste's pages when `event` came of `step`.
fn go_on(purpose: Purpose, request: &PasteRequest, step: PasteStep, event: PasteEvent) -> (next:
    PasteStep)
    ensures
        next@ == paste_next(purpose, *request, step@, event),
{
    match (step, event) {
        (PasteStep::FindPaste { .. }, PasteEvent::PasteFound(None)) => decide(
            purpose,
            request,
            None,
        ),
        (PasteStep::FindPaste { .. }, PasteEvent::PasteFound(Some(stored))) => {
            match stored.author {
                Some(author) => PasteStep::FindAuthor { stored, author },
                None => {
                    let paste = Paste {
                        id: stored.id,
                        author: None,
                        private: stored.private,
                        refused: stored.refused,
                    };
                    decide(purpose, request, Some(paste))
                },
            }
        },
        (PasteStep::FindAuthor { stored, author }, PasteEvent::AuthorFound(username)) => {
            let paste = Paste {
                id: stored.id,
                author: Some(Author { id: author, username }),
                private: stored.private,
                refused: stored.refused,
            };
            decide(purpose, request, Some(paste))
        },
        (PasteStep::ReadFiles { paste }, PasteEvent::FilesRead(files)) => match purpose {
            Purpose::Show => {
                let setting = Setting {
                    username: request.username.clone(),
                    paste: paste.id,
                    markdown_language: request.markdown_language.clone(),
                };
                let jobs = jobs(&files, &setting);
                PasteStep::MakePreviews { paste, files, jobs }
            },
            _ => PasteStep::ReadUpdateTime { paste, files, previews: None },
        },
        (PasteStep::MakePreviews { paste, files, jobs }, PasteEvent::JobsAnswered(answers)) => {
            match assemble(jobs, answers) {
                Some(previews) => PasteStep::ReadUpdateTime {
                    paste,
                    files,
                    previews: Some(previews),
                },
                None => PasteStep::Fail,
            }
        },
        (
            PasteStep::ReadUpdateTime { paste, files, previews },
            PasteEvent::UpdateTimeRead(time),
        ) => PasteStep::MakeContext {
            data: PageData { paste, files, previews, update_time: Some(time) },
        },
        (
            PasteStep::ReadUpdateTime { paste, files, previews },
            PasteEvent::Failed,
        ) => PasteStep::MakeContext {
            data: PageData { paste, files, previews, update_time: None },
        },
        (PasteStep::MakeContext { data }, PasteEvent::Performed) => PasteStep::CountCommits {
            data,
        },
        (PasteStep::CountCommits { data }, PasteEvent::CommitsCounted(commits)) => match purpose {
            Purpose::Show => {
                let key = deletion_key(data.paste.id);
                PasteStep::TakeDeletionKey { data, commits, key }
            },
            _ => PasteStep::ShowEdit { data, commits },
        },
        (
            PasteStep::TakeDeletionKey { data, commits, .. },
            PasteEvent::KeyTaken(deletion_key),
        ) => PasteStep::Show { data, commits, deletion_key },
        (PasteStep::AddError { .. }, PasteEvent::Performed) => PasteStep::Answer(
            Reply::Redirect(Target::LastPage),
        ),
        (
            PasteStep::FindPaste { .. }
            | PasteStep::FindAuthor { .. }
            | PasteStep::ReadFiles { .. }
            | PasteStep::CountCommits { .. },
            PasteEvent::Failed,
        ) => PasteStep::Fail,
        (step, _) => step,
    }
}

/// Starts to handle a request for one of a paste's pages.
pub fn begin(purpose: Purpose, request: &PasteRequest) -> (step: PasteStep)
    ensures
        step@ == paste_first(purpose, *request),
{
    match (purpose, request.viewer) {
        (Purpose::Edit, None) => PasteStep::Answer(Reply::Redirect(Target::Login)),
        _ => PasteStep::FindPaste { id: request.id },
    }
}

/// Goes on with a request for a paste's page when `event` came of `step`.
pub fn users_username_id(request: &PasteRequest, step: PasteStep, event: PasteEvent) -> (next:
    PasteStep)
    ensures
        next@ == paste_next(Purpose::Show, *request, step@, event),
{
    go_on(Purpose::Show, request, step, event)
}

/// Goes on with a request for the page that deletes a paste when `event` came of `step`.
pub fn delete(request: &PasteRequest, step: PasteStep, event: PasteEvent) -> (next: PasteStep)
    ensures
        next@ == paste_next(Purpose::Delete, *request, step@, event),
{
    go_on(Purpose::Delete, request, step, event)
}

/// Goes on with a request for the page that edits a paste when `event` came of `step`.
pub fn edit(request: &PasteRequest, step: PasteStep, event: PasteEvent) -> (next: PasteStep)
    ensures
        next@ == paste_next(Purpose::Edit, *request, step@, event),
{
    go_on(Purpose::Edit, request, step, event)
}

/// The links that a paste's pages add to those that all of them have.
#[derive(Debug, Clone, Copy, PartialEq, Eq, Structural)]
pub enum PasteLink {
    /// The raw content of each file.
    RawFiles,
    /// Deletes the paste, for administrators.
    AdminDelete,
    /// Asks an administrator whether to delete the paste.
    AdminDeleteStandalone,
    /// Submits an edit of the paste.
    Patch,
}

/// The name under which a page finds a link.
pub open spec fn link_name(link: PasteLink) -> Seq<char> {
    match link {
        PasteLink::RawFiles => "raw_files"@,
        PasteLink::AdminDelete => "admin_delete"@,
        PasteLink::AdminDeleteStandalone => "admin_delete_standalone"@,
        PasteLink::Patch => "patch"@,
    }
}

impl PasteLink {
    /// The name under which a page finds the link.
    pub fn name(self) -> (name: &'static str)
        ensures
            name@ == link_name(self),
    {
        match self {
            PasteLink::RawFiles => "raw_files",
            PasteLink::AdminDelete => "admin_delete",
            PasteLink::AdminDeleteStandalone => "admin_delete_standalone",
            PasteLink::Patch => "patch",
        }
    }
}

/// A file among the links to raw content.
#[derive(Debug, PartialEq, Eq)]
pub struct RawFile {
    /// The file's identifier in its simple form: the name under which a page finds the link.
    pub name: String,
    pub address: RawAddress,
}

/// [`RawFile`] with its text as a sequence of characters.
pub struct RawFileView {
    pub name: Seq<char>,
    pub address: RawAddressView,
}

impl View for RawFile {
    type V = RawFileView;

    open spec fn view(&self) -> RawFileView {
        RawFileView { name: self.name@, address: self.address@ }
    }
}

/// Links with their text as sequences of characters.
pub open spec fn raw_views(links: Seq<RawFile>) -> Seq<RawFileView> {
    links.map_values(|link: RawFile| link@)
}

/// What a paste's page shows besides the paste itself.
pub struct PasteContext {
    pub is_owner: bool,
    pub author_name: String,
    pub links: Vec<PasteLink>,
    pub raw_files: Vec<RawFile>,
}

/// The links that a paste's page adds.
pub open spec fn page_links(viewer: Option<Viewer>) -> Seq<PasteLink> {
    match viewer {
        Some(viewer) if viewer.is_admin => seq![
            PasteLink::RawFiles,
            PasteLink::AdminDelete,
            PasteLink::AdminDeleteStandalone,
        ],
        _ => seq![PasteLink::RawFiles],
    }
}

/// The viewer's identifier.
pub open spec fn viewer_id(viewer: Option<Viewer>) -> Option<UserId> {
    match viewer {
        Some(viewer) => Some(viewer.id),
        None => None,
    }
}

/// The link to the raw content of a file of a paste.
pub open spec fn raw_link(paste: Paste, file: OutputFile) -> RawFileView {
    RawFileView {
        name: hex_text(file.id as nat, 32),
        address: RawAddressView {
            username: author_name(paste),
            paste: paste.id,
            file: file.id,
            preview: None,
        },
    }
}

/// The links to the raw content of a paste's files, in the order of the files.
pub open spec fn raw_links(paste: Paste, files: Seq<OutputFile>) -> Seq<RawFileView> {
    files.map_values(|file: OutputFile| raw_link(paste, file))
}

/// Makes the links to the raw content of a paste's files.
fn raw_files(paste: &Paste, files: &Vec<OutputFile>) -> (links: Vec<RawFile>)
    ensures
        raw_views(links@) == raw_links(*paste, files@),
{
    let mut links: Vec<RawFile> = Vec::new();
    let mut i: usize = 0;
    while i < files.len()
        invariant
            i <= files.len(),
            links.len() == i,
            forall|j: int| 0 <= j < i ==> (#[trigger] links[j])@ == raw_link(*paste, files[j]),
        decreases files.len() - i,
    {
        let file = files[i].id;
        let address = RawAddress {
            username: name_of(&paste.author),
            paste: paste.id,
            file,
            preview: None,
        };
        links.push(RawFile { name: simple(file), address });
        i += 1;
    }
    assert(raw_views(links@) =~= raw_links(*paste, files@));
    links
}

/// Gathers what a paste's page shows besides the paste itself.
pub fn paste_context(paste: &Paste, viewer: Option<Viewer>, files: &Vec<OutputFile>) -> (context:
    PasteContext)
    ensures
        context.is_owner == owns(viewer_id(viewer), *paste),
        context.author_name@ == author_name(*paste),
        context.links@ == page_links(viewer),
        raw_views(context.raw_files@) == raw_links(*paste, files@),
{
    let (id, is_admin) = match viewer {
        Some(viewer) => (Some(viewer.id), viewer.is_admin),
        None => (None, false),
    };
    let links: Vec<PasteLink> = if is_admin {
        vec![PasteLink::RawFiles, PasteLink::AdminDelete, PasteLink::AdminDeleteStandalone]
    } else {
        vec![PasteLink::RawFiles]
    };
    assert(links@ =~= page_links(viewer));
    PasteContext {
        is_owner: paste.author.is_some() && same_user(&paste.author, id),
        author_name: name_of(&paste.author),
        links,
        raw_files: raw_files(paste, files),
    }
}

/// What the page that deletes a paste shows.
pub struct DeleteContext {
    pub paste_id: PasteId,
    pub anonymous: bool,
    pub author_name: String,
}

/// Gathers what the page that deletes a paste shows.
pub fn delete_context(paste: &Paste) -> (context: DeleteContext)
    ensures
        context.paste_id == paste.id,
        context.anonymous == (paste.author is None),
        context.author_name@ == author_name(*paste),
{
    DeleteContext {
        paste_id: paste.id,
        anonymous: paste.author.is_none(),
        author_name: name_of(&paste.author),
    }
}

/// What the page that edits a paste shows besides the paste itself.
pub struct EditContext<L> {
    pub is_owner: bool,
    pub author_name: String,
    /// The languages that a file's highlighting can be set to.
    pub languages: L,
    pub links: Vec<PasteLink>,
}

/// Gathers what the page that edits a paste shows besides the paste itself. `languages` is the
/// list of the highlighter's languages.
pub fn edit_context<L>(paste: &Paste, viewer: Option<Viewer>, languages: L) -> (context:
    EditContext<L>)
    ensures
        context.is_owner == owns(viewer_id(viewer), *paste),
        context.author_name@ == author_name(*paste),
        context.languages == languages,
        context.links@ == seq![PasteLink::Patch],
{
    let id = match viewer {
        Some(viewer) => Some(viewer.id),
        None => None,
    };
    let links = vec![PasteLink::Patch];
    assert(links@ =~= seq![PasteLink::Patch]);
    EditContext {
        is_owner: paste.author.is_some() && same_user(&paste.author, id),
        author_name: name_of(&paste.author),
        languages,
        links,
    }
}

} // verus!
