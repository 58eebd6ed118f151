//! What comes of a request for one of a paste's pages, for every request and every paste: who
//! sees which page, who is refused it and how, and what the page shows.
use vstd::prelude::*;

use crate::pastes::{
    author_name, deletion_key_name, id_reply, owns, page_links, paste_first, paste_next, raw_links,
    raw_views, viewer_id, Author, FoundPaste, PageData, PageDataView, Paste, PasteError, PasteEvent,
    PasteLink, PasteRequest, PasteStep, PasteStepView, Purpose, RawFile, StoredPaste, Viewer,
};
use crate::previews::{
    assembled_of, job_views, jobs_for, Answer, Job, OutputFile, Previews, PreviewsView, SettingView,
};
use crate::reply::{
    Page, PasteId, RawAddressView, Reply, ReplyView, Target, TargetView, UserId,
};
use crate::text::hex_text;

verus! {

/// By its identifier alone a paste leads to its page under exactly its author's username, or
/// under no one's; who may not see it is given the status that refuses it; and what is not there
/// is not found.
pub proof fn identifier_is_answered(found: FoundPaste, id: PasteId)
    ensures
        id_reply(None, id) == ReplyView::Status(404),
        found.refused matches Some(status) ==> id_reply(Some(found), id) == ReplyView::Status(
            status,
        ),
        found.refused is None ==> (found.owner matches Some(owner) ==> id_reply(Some(found), id)
            == ReplyView::Redirect(TargetView::Paste { username: owner@, id })),
        found.refused is None && found.owner is None ==> id_reply(Some(found), id)
            == ReplyView::Redirect(TargetView::Paste { username: "anonymous"@, id }),
{
}

/// A request begins with looking for the paste that it names, but for one to edit by nobody:
/// they are sent to log in.
pub proof fn paste_is_looked_for(purpose: Purpose, request: PasteRequest)
    ensures
        purpose == Purpose::Edit && request.viewer is None ==> paste_first(purpose, request)
            == PasteStepView::Answer(ReplyView::Redirect(TargetView::Login)),
        purpose != Purpose::Edit || request.viewer is Some ==> paste_first(purpose, request) == (
        PasteStepView::FindPaste { id: request.id }),
{
}

/// A paste that is not there is not found, whatever it is asked for; the author of one that is
/// there is looked for, if it has one.
pub proof fn missing_paste_is_not_found(
    purpose: Purpose,
    request: PasteRequest,
    id: PasteId,
    stored: StoredPaste,
    author: UserId,
)
    requires
        stored.author == Some(author),
    ensures
        paste_next(
            purpose,
            request,
            PasteStepView::FindPaste { id },
            PasteEvent::PasteFound(None),
        ) == PasteStepView::Answer(ReplyView::Status(404)),
        paste_next(
            purpose,
            request,
            PasteStepView::FindPaste { id },
            PasteEvent::PasteFound(Some(stored)),
        ) == (PasteStepView::FindAuthor { stored, author }),
{
}

/// A paste with an author is found under exactly the author's username, character by character,
/// and under no other name.
pub proof fn other_names_are_not_found(
    purpose: Purpose,
    request: PasteRequest,
    stored: StoredPaste,
    author: UserId,
    username: String,
)
    requires
        username@ != request.username@,
    ensures
        paste_next(
            purpose,
            request,
            PasteStepView::FindAuthor { stored, author },
            PasteEvent::AuthorFound(username),
        ) == PasteStepView::Answer(ReplyView::Status(404)),
{
}

/// A paste without an author is found under no other name than that of no one.
pub proof fn anonymous_paste_has_no_other_name(
    purpose: Purpose,
    request: PasteRequest,
    id: PasteId,
    stored: StoredPaste,
)
    requires
        stored.author is None,
        request.username@ != "anonymous"@,
    ensures
        paste_next(
            purpose,
            request,
            PasteStepView::FindPaste { id },
            PasteEvent::PasteFound(Some(stored)),
        ) == PasteStepView::Answer(ReplyView::Status(404)),
{
}

/// Under its author's own username a paste is shown to everyone whom it is not refused to,
/// whoever the author is and whoever looks, private or not; to the others, the status that
/// refuses it is.
pub proof fn paste_is_shown_under_its_authors_name(
    request: PasteRequest,
    stored: StoredPaste,
    author: UserId,
    username: String,
)
    requires
        username@ == request.username@,
    ensures
        ({
            let step = paste_next(
                Purpose::Show,
                request,
                PasteStepView::FindAuthor { stored, author },
                PasteEvent::AuthorFound(username),
            );
            let paste = Paste {
                id: stored.id,
                author: Some(Author { id: author, username }),
                private: stored.private,
                refused: stored.refused,
            };
            &&& stored.refused is None ==> step == (PasteStepView::ReadFiles { paste })
            &&& stored.refused matches Some(status) ==> step == PasteStepView::Answer(
                ReplyView::Status(status),
            )
        }),
{
}

/// Under the name of no one a paste without an author is shown to everyone whom it is not
/// refused to, and the page that deletes it to everyone; nobody can edit it, and who tries is
/// told so and goes back to where they were.
pub proof fn anonymous_paste_is_anyones(request: PasteRequest, id: PasteId, stored: StoredPaste)
    requires
        stored.author is None,
        request.username@ == "anonymous"@,
    ensures
        ({
            let found = PasteEvent::PasteFound(Some(stored));
            let asked = PasteStepView::FindPaste { id };
            let show = paste_next(Purpose::Show, request, asked, found);
            let delete = paste_next(Purpose::Delete, request, asked, found);
            let edit = paste_next(Purpose::Edit, request, asked, found);
            let told = paste_next(Purpose::Edit, request, edit, PasteEvent::Performed);
            let paste = Paste {
                id: stored.id,
                author: None,
                private: stored.private,
                refused: stored.refused,
            };
            &&& delete == (PasteStepView::ShowDelete { paste })
            &&& stored.refused is None ==> show == (PasteStepView::ReadFiles { paste })
            &&& stored.refused is None ==> edit == (PasteStepView::AddError {
                error: PasteError::AnonymousEdit,
            })
            &&& stored.refused is None ==> told == PasteStepView::Answer(
                ReplyView::Redirect(TargetView::LastPage),
            )
            &&& stored.refused matches Some(status) ==> show == PasteStepView::Answer(
                ReplyView::Status(status),
            )
            &&& stored.refused matches Some(status) ==> edit == PasteStepView::Answer(
                ReplyView::Status(status),
            )
        }),
{
}

/// The author always gets the page that deletes their paste, private or not, refused or not;
/// everyone else is sent to the paste's page.
pub proof fn authors_may_delete(
    request: PasteRequest,
    stored: StoredPaste,
    author: UserId,
    username: String,
)
    requires
        username@ == request.username@,
    ensures
        ({
            let step = paste_next(
                Purpose::Delete,
                request,
                PasteStepView::FindAuthor { stored, author },
                PasteEvent::AuthorFound(username),
            );
            let paste = Paste {
                id: stored.id,
                author: Some(Author { id: author, username }),
                private: stored.private,
                refused: stored.refused,
            };
            let is_author = request.viewer is Some && request.viewer->0.id == author;
            &&& is_author ==> step == (PasteStepView::ShowDelete { paste })
            &&& !is_author ==> step == PasteStepView::Answer(
                ReplyView::Redirect(
                    TargetView::Paste { username: request.username@, id: request.id },
                ),
            )
        }),
{
}

/// The author always gets to edit a paste that is not refused to them, private or not. Everyone
/// else is forbidden to, and of a private paste does not learn that it is there.
pub proof fn authors_may_edit(
    request: PasteRequest,
    stored: StoredPaste,
    author: UserId,
    username: String,
)
    requires
        username@ == request.username@,
    ensures
        ({
            let step = paste_next(
                Purpose::Edit,
                request,
                PasteStepView::FindAuthor { stored, author },
                PasteEvent::AuthorFound(username),
            );
            let paste = Paste {
                id: stored.id,
                author: Some(Author { id: author, username }),
                private: stored.private,
                refused: stored.refused,
            };
            let is_author = request.viewer is Some && request.viewer->0.id == author;
            &&& stored.refused matches Some(status) ==> step == PasteStepView::Answer(
                ReplyView::Status(status),
            )
            &&& stored.refused is None && is_author ==> step == (PasteStepView::ReadFiles { paste })
            &&& stored.refused is None && !is_author && stored.private ==> step
                == PasteStepView::Answer(ReplyView::Status(404))
            &&& stored.refused is None && !is_author && !stored.private ==> step
                == PasteStepView::Answer(ReplyView::Status(403))
        }),
{
}

/// The files of a paste that is shown get the jobs that their previews need, under the name in
/// the address and for this paste; the previews are what comes of them.
pub proof fn shown_files_are_previewed(
    request: PasteRequest,
    paste: Paste,
    files: Vec<OutputFile>,
    answers: Vec<Answer>,
)
    ensures
        ({
            let jobs = jobs_for(
                files@,
                SettingView {
                    username: request.username@,
                    paste: paste.id,
                    markdown_language: request.markdown_language@,
                },
            );
            let asked = paste_next(
                Purpose::Show,
                request,
                PasteStepView::ReadFiles { paste },
                PasteEvent::FilesRead(files),
            );
            let step = paste_next(Purpose::Show, request, asked, PasteEvent::JobsAnswered(answers));
            &&& asked == (PasteStepView::MakePreviews { paste, files: files@, jobs })
            &&& assembled_of(jobs, answers@) is None ==> step == PasteStepView::Fail
            &&& assembled_of(jobs, answers@) matches Some(previews) ==> step == (
            PasteStepView::ReadUpdateTime { paste, files: files@, previews: Some(previews) })
        }),
{
}

/// A paste's page shows the paste, its files and previews, the time of the last change as it was
/// read, the number of revisions as it was counted, and what the session kept under the name of
/// this paste's deletion key.
pub proof fn page_shows_the_paste(
    request: PasteRequest,
    paste: Paste,
    files: Seq<OutputFile>,
    previews: PreviewsView,
    time: String,
    commits: u64,
    kept: String,
)
    ensures
        ({
            let purpose = Purpose::Show;
            let data = PageDataView {
                paste,
                files,
                previews: Some(previews),
                update_time: Some(time@),
            };
            let step = PasteStepView::ReadUpdateTime { paste, files, previews: Some(previews) };
            let gather = paste_next(purpose, request, step, PasteEvent::UpdateTimeRead(time));
            let count = paste_next(purpose, request, gather, PasteEvent::Performed);
            let take = paste_next(purpose, request, count, PasteEvent::CommitsCounted(commits));
            &&& gather == (PasteStepView::MakeContext { data })
            &&& count == (PasteStepView::CountCommits { data })
            &&& take == (PasteStepView::TakeDeletionKey {
                data,
                commits,
                key: "deletion_key_"@ + hex_text(paste.id as nat, 32),
            })
            &&& paste_next(purpose, request, take, PasteEvent::KeyTaken(Some(kept))) == (
            PasteStepView::Show { data, commits, deletion_key: Some(kept@) })
            &&& paste_next(purpose, request, take, PasteEvent::KeyTaken(None)) == (
            PasteStepView::Show { data, commits, deletion_key: None })
        }),
{
}

/// The page that edits a paste shows the paste and its files, without previews, the time of the
/// last change as it was read, and the number of revisions as it was counted.
pub proof fn edit_page_shows_the_paste(
    request: PasteRequest,
    paste: Paste,
    files: Vec<OutputFile>,
    time: String,
    commits: u64,
)
    ensures
        ({
            let purpose = Purpose::Edit;
            let data = PageDataView {
                paste,
                files: files@,
                previews: None,
                update_time: Some(time@),
            };
            let step = PasteStepView::ReadFiles { paste };
            let read = paste_next(purpose, request, step, PasteEvent::FilesRead(files));
            let gather = paste_next(purpose, request, read, PasteEvent::UpdateTimeRead(time));
            let count = paste_next(purpose, request, gather, PasteEvent::Performed);
            &&& read == (PasteStepView::ReadUpdateTime { paste, files: files@, previews: None })
            &&& gather == (PasteStepView::MakeContext { data })
            &&& count == (PasteStepView::CountCommits { data })
            &&& paste_next(purpose, request, count, PasteEvent::CommitsCounted(commits)) == (
            PasteStepView::ShowEdit { data, commits })
        }),
{
}

/// What can fail ends the handler where it does fail, but for reading the time of the last
/// change: the page is shown without it.
pub proof fn failure_ends_the_request(purpose: Purpose, request: PasteRequest, step: PasteStepView)
    ensures
        step is FindPaste || step is FindAuthor || step is ReadFiles || step is CountCommits
            ==> paste_next(purpose, request, step, PasteEvent::Failed) == PasteStepView::Fail,
        step matches PasteStepView::ReadUpdateTime { paste, files, previews } ==> paste_next(
            purpose,
            request,
            step,
            PasteEvent::Failed,
        ) == (PasteStepView::MakeContext {
            data: PageDataView { paste, files, previews, update_time: None },
        }),
{
}

/// Nothing moves the handler but an answer to what it asked for; at its end, nothing does.
pub proof fn paste_waits_for_its_answer(
    purpose: Purpose,
    request: PasteRequest,
    step: PasteStepView,
    event: PasteEvent,
)
    requires
        step is FindPaste ==> event !is PasteFound && event !is Failed,
        step is FindAuthor ==> event !is AuthorFound && event !is Failed,
        step is ReadFiles ==> event !is FilesRead && event !is Failed,
        step is MakePreviews ==> event !is JobsAnswered,
        step is ReadUpdateTime ==> event !is UpdateTimeRead && event !is Failed,
        step is MakeContext || step is AddError ==> event !is Performed,
        step is CountCommits ==> event !is CommitsCounted && event !is Failed,
        step is TakeDeletionKey ==> event !is KeyTaken,
    ensures
        paste_next(purpose, request, step, event) == step,
{
}

/// A page calls a paste by exactly its author's username, or by the name of no one.
pub proof fn page_names_the_author(paste: Paste)
    ensures
        paste.author matches Some(author) ==> author_name(paste) == author.username@,
        paste.author is None ==> author_name(paste) == "anonymous"@,
{
}

/// A page tells the author, and nobody else, that the paste is theirs.
pub proof fn page_knows_its_owner(viewer: Option<Viewer>, paste: Paste)
    ensures
        owns(viewer_id(viewer), paste) <==> (viewer is Some && paste.author is Some
            && viewer->0.id == paste.author->0.id),
{
}

/// A page links to the raw files for everyone, and to what administrators do with the paste for
/// administrators and nobody else.
pub proof fn administrators_get_their_links(viewer: Option<Viewer>)
    ensures
        page_links(viewer).contains(PasteLink::RawFiles),
        page_links(viewer).contains(PasteLink::AdminDelete) <==> (viewer is Some
            && viewer->0.is_admin),
        page_links(viewer).contains(PasteLink::AdminDeleteStandalone) <==> (viewer is Some
            && viewer->0.is_admin),
        !page_links(viewer).contains(PasteLink::Patch),
        page_links(viewer).no_duplicates(),
{
    let plain = seq![PasteLink::RawFiles];
    let all = seq![
        PasteLink::RawFiles,
        PasteLink::AdminDelete,
        PasteLink::AdminDeleteStandalone,
    ];
    assert(plain[0] == PasteLink::RawFiles);
    assert(all[0] == PasteLink::RawFiles);
    assert(all[1] == PasteLink::AdminDelete);
    assert(all[2] == PasteLink::AdminDeleteStandalone);
}

/// Every file has its link to the raw content, in the order of the files: found by the file's
/// identifier, under exactly the author's username or that of no one, and not for a preview.
pub proof fn files_link_to_their_content(paste: Paste, files: Seq<OutputFile>, i: int)
    requires
        0 <= i < files.len(),
    ensures
        raw_links(paste, files).len() == files.len(),
        raw_links(paste, files)[i].name == hex_text(files[i].id as nat, 32),
        ({
            let address = raw_links(paste, files)[i].address;
            &&& paste.author matches Some(author) ==> address == (RawAddressView {
                username: author.username@,
                paste: paste.id,
                file: files[i].id,
                preview: None,
            })
            &&& paste.author is None ==> address == (RawAddressView {
                username: "anonymous"@,
                paste: paste.id,
                file: files[i].id,
                preview: None,
            })
        }),
{
}

/// The view of links holds the name and the address of each.
pub proof fn links_are_viewed_whole(links: Seq<RawFile>, i: int)
    requires
        0 <= i < links.len(),
    ensures
        raw_views(links).len() == links.len(),
        raw_views(links)[i].name == links[i].name@,
        raw_views(links)[i].address == (RawAddressView {
            username: links[i].address.username@,
            paste: links[i].address.paste,
            file: links[i].address.file,
            preview: links[i].address.preview,
        }),
{
}

/// The name of a deletion key ends in the paste's identifier in its simple form.
pub proof fn deletion_key_names_the_paste(id: PasteId)
    ensures
        deletion_key_name(id) =~= "deletion_key_"@ + hex_text(id as nat, 32),
{
}

/// The view of what a page shows holds all of it.
pub proof fn page_data_is_viewed_whole(data: PageData)
    ensures
        data@.paste == data.paste,
        data@.files == data.files@,
        data.previews is Some <==> data@.previews is Some,
        data.previews matches Some(previews) ==> data@.previews == Some(previews@),
        data.update_time is Some <==> data@.update_time is Some,
        data.update_time matches Some(time) ==> data@.update_time == Some(time@),
{
}

/// The view of an answer holds all of it, and so do those of the first steps.
pub proof fn answers_are_viewed_whole(
    username: String,
    id: PasteId,
    status: u16,
    page: Page,
    stored: StoredPaste,
    author: UserId,
    error: PasteError,
    reply: Reply,
)
    ensures
        Target::LastPage@ == TargetView::LastPage,
        Target::Login@ == TargetView::Login,
        Target::Tfa@ == TargetView::Tfa,
        (Target::Paste { username, id })@ == (TargetView::Paste { username: username@, id }),
        Reply::Status(status)@ == ReplyView::Status(status),
        Reply::Page(page)@ == ReplyView::Page(page),
        Reply::Redirect(Target::Paste { username, id })@ == ReplyView::Redirect(
            TargetView::Paste { username: username@, id },
        ),
        (PasteStep::FindPaste { id })@ == (PasteStepView::FindPaste { id }),
        (PasteStep::FindAuthor { stored, author })@ == (PasteStepView::FindAuthor {
            stored,
            author,
        }),
        (PasteStep::AddError { error })@ == (PasteStepView::AddError { error }),
        PasteStep::Answer(reply)@ == PasteStepView::Answer(reply@),
        PasteStep::Fail@ == PasteStepView::Fail,
{
}

/// The view of a step that is on its way to a page holds all of it.
pub proof fn steps_to_a_page_are_viewed_whole(
    paste: Paste,
    files: Vec<OutputFile>,
    jobs: Vec<Job>,
    previews: Option<Previews>,
    data: PageData,
)
    ensures
        (PasteStep::MakePreviews { paste, files, jobs })@ == (PasteStepView::MakePreviews {
            paste,
            files: files@,
            jobs: job_views(jobs@),
        }),
        (PasteStep::ReadFiles { paste })@ == (PasteStepView::ReadFiles { paste }),
        (PasteStep::ShowDelete { paste })@ == (PasteStepView::ShowDelete { paste }),
        previews matches Some(made) ==> (PasteStep::ReadUpdateTime { paste, files, previews })@ == (
        PasteStepView::ReadUpdateTime { paste, files: files@, previews: Some(made@) }),
        previews is None ==> (PasteStep::ReadUpdateTime { paste, files, previews })@ == (
        PasteStepView::ReadUpdateTime { paste, files: files@, previews: None }),
        (PasteStep::MakeContext { data })@ == (PasteStepView::MakeContext { data: data@ }),
        (PasteStep::CountCommits { data })@ == (PasteStepView::CountCommits { data: data@ }),
{
}

/// The view of a step that ends in a page holds all of it.
pub proof fn shown_pages_are_viewed_whole(
    data: PageData,
    commits: u64,
    key: String,
    deletion_key: Option<String>,
)
    ensures
        (PasteStep::TakeDeletionKey { data, commits, key })@ == (PasteStepView::TakeDeletionKey {
            data: data@,
            commits,
            key: key@,
        }),
        deletion_key matches Some(kept) ==> (PasteStep::Show { data, commits, deletion_key })@ == (
        PasteStepView::Show { data: data@, commits, deletion_key: Some(kept@) }),
        deletion_key is None ==> (PasteStep::Show { data, commits, deletion_key })@ == (
        PasteStepView::Show { data: data@, commits, deletion_key: None }),
        (PasteStep::ShowEdit { data, commits })@ == (PasteStepView::ShowEdit {
            data: data@,
            commits,
        }),
{
}

} // verus!
