//! What holds of the handlers of a paste's pages, whatever happens.
use vstd::prelude::*;

use crate::pastes::{
    author_name, deletion_key_name, edit_step, found_step, id_reply, loaded, owns, paste_first,
    paste_next, purpose_page, setting_of, show_step, under, username_of, viewer_id, Author,
    FoundPaste, PageDataView, Paste, PasteEvent, PasteRequest, PasteStepView, Purpose, StoredPaste,
};
use crate::previews::{assembled_of, jobs_for, optional_text, Answer, OutputFile, PreviewsView};
use crate::reply::{Page, PasteId, ReplyView, TargetView, NOT_FOUND};
use crate::text::{hex_text, simple_is_unique};

verus! {

/// The step that the handler has reached after `events`.
pub open spec fn paste_reached(
    purpose: Purpose,
    request: PasteRequest,
    events: Seq<PasteEvent>,
) -> PasteStepView
    decreases events.len(),
{
    if events.len() == 0 {
        paste_first(purpose, request)
    } else {
        paste_next(
            purpose,
            request,
            paste_reached(purpose, request, events.drop_last()),
            events.last(),
        )
    }
}

/// Whether `event` is among those that came.
pub open spec fn came(events: Seq<PasteEvent>, event: PasteEvent) -> bool {
    exists|i: int| 0 <= i < events.len() && #[trigger] events[i] == event
}

/// Whether `paste` was found, with the author whom the stored paste names.
pub open spec fn paste_found(events: Seq<PasteEvent>, paste: Paste) -> bool {
    exists|stored: StoredPaste| #[trigger]
        came(events, PasteEvent::PasteFound(Some(stored))) && paste == loaded(stored, paste.author)
            && (match (stored.author, paste.author) {
            (Some(id), Some(author)) => author.id == id,
            (None, None) => true,
            _ => false,
        })
}

/// Whether `files` were read.
pub open spec fn files_read(events: Seq<PasteEvent>, files: Seq<OutputFile>) -> bool {
    exists|read: Vec<OutputFile>| #[trigger]
        came(events, PasteEvent::FilesRead(read)) && read@ == files
}

/// Whether `previews` are what came of the jobs of `files`.
pub open spec fn previews_made(
    request: PasteRequest,
    events: Seq<PasteEvent>,
    paste: Paste,
    files: Seq<OutputFile>,
    previews: PreviewsView,
) -> bool {
    exists|answers: Vec<Answer>| #[trigger]
        came(events, PasteEvent::JobsAnswered(answers)) && assembled_of(
            jobs_for(files, setting_of(request, paste)),
            answers@,
        ) == Some(previews)
}

/// Whether `time` was read as the time of the last change.
pub open spec fn update_time_read(events: Seq<PasteEvent>, time: Seq<char>) -> bool {
    exists|read: String| #[trigger] came(events, PasteEvent::UpdateTimeRead(read)) && read@ == time
}

/// The paste that a step is about to show.
pub open spec fn paste_at(step: PasteStepView) -> Option<Paste> {
    match step {
        PasteStepView::ReadFiles { paste } => Some(paste),
        PasteStepView::MakePreviews { paste, .. } => Some(paste),
        PasteStepView::ReadUpdateTime { paste, .. } => Some(paste),
        PasteStepView::MakeContext { data } => Some(data.paste),
        PasteStepView::CountCommits { data } => Some(data.paste),
        PasteStepView::TakeDeletionKey { data, .. } => Some(data.paste),
        PasteStepView::Show { data, .. } => Some(data.paste),
        PasteStepView::ShowEdit { data, .. } => Some(data.paste),
        PasteStepView::ShowDelete { paste } => Some(paste),
        _ => None,
    }
}

/// Whether the paste was found and its files may be read.
spec fn readable(
    purpose: Purpose,
    request: PasteRequest,
    events: Seq<PasteEvent>,
    paste: Paste,
) -> bool {
    &&& paste_found(events, paste)
    &&& found_step(purpose, request, Some(paste)) == (PasteStepView::ReadFiles { paste })
}

/// Whether the previews are those of the files, on a page that has any.
spec fn previewed(
    purpose: Purpose,
    request: PasteRequest,
    events: Seq<PasteEvent>,
    paste: Paste,
    files: Seq<OutputFile>,
    previews: Option<PreviewsView>,
) -> bool {
    &&& files_read(events, files)
    &&& previews is Some <==> purpose == Purpose::Show
    &&& previews matches Some(previews) ==> previews_made(request, events, paste, files, previews)
}

/// Whether all that a page shows of a paste was read.
spec fn data_read(
    purpose: Purpose,
    request: PasteRequest,
    events: Seq<PasteEvent>,
    data: PageDataView,
) -> bool {
    &&& readable(purpose, request, events, data.paste)
    &&& previewed(purpose, request, events, data.paste, data.files, data.previews)
    &&& data.update_time matches Some(time) ==> update_time_read(events, time)
}

/// What must have happened for the handler to be at `step`.
spec fn paste_justified(
    purpose: Purpose,
    request: PasteRequest,
    events: Seq<PasteEvent>,
    step: PasteStepView,
) -> bool {
    match step {
        PasteStepView::FindAuthor { stored, author } => came(
            events,
            PasteEvent::PasteFound(Some(stored)),
        ) && stored.author == Some(author),
        PasteStepView::ReadFiles { paste } => readable(purpose, request, events, paste),
        PasteStepView::MakePreviews { paste, files, jobs } => readable(
            purpose,
            request,
            events,
            paste,
        ) && purpose == Purpose::Show && files_read(events, files) && jobs == jobs_for(
            files,
            setting_of(request, paste),
        ),
        PasteStepView::ReadUpdateTime { paste, files, previews } => readable(
            purpose,
            request,
            events,
            paste,
        ) && previewed(purpose, request, events, paste, files, previews),
        PasteStepView::MakeContext { data } => data_read(purpose, request, events, data),
        PasteStepView::CountCommits { data } => data_read(purpose, request, events, data),
        PasteStepView::TakeDeletionKey { data, commits, key } => data_read(
            purpose,
            request,
            events,
            data,
        ) && purpose == Purpose::Show && came(events, PasteEvent::CommitsCounted(commits)) && key
            == deletion_key_name(data.paste.id),
        PasteStepView::Show { data, commits, .. } => data_read(purpose, request, events, data)
            && purpose == Purpose::Show && came(events, PasteEvent::CommitsCounted(commits)),
        PasteStepView::ShowEdit { data, commits } => data_read(purpose, request, events, data)
            && purpose == Purpose::Edit && came(events, PasteEvent::CommitsCounted(commits)),
        PasteStepView::ShowDelete { paste } => paste_found(events, paste) && purpose
            == Purpose::Delete && found_step(purpose, request, Some(paste)) == step,
        _ => true,
    }
}

/// What happened stays so when more happens.
proof fn paste_history_grows(events: Seq<PasteEvent>)
    requires
        events.len() > 0,
    ensures
        forall|event: PasteEvent| #[trigger]
            came(events.drop_last(), event) ==> came(events, event),
        forall|paste: Paste| #[trigger]
            paste_found(events.drop_last(), paste) ==> paste_found(events, paste),
        came(events, events.last()),
{
    let before = events.drop_last();
    assert forall|event: PasteEvent| #[trigger] came(before, event) implies came(events, event) by {
        let i = choose|i: int| 0 <= i < before.len() && #[trigger] before[i] == event;
        assert(events[i] == event);
    }
    assert forall|paste: Paste| #[trigger] paste_found(before, paste) implies paste_found(
        events,
        paste,
    ) by {
        let stored = choose|stored: StoredPaste| #[trigger]
            came(before, PasteEvent::PasteFound(Some(stored))) && paste == loaded(
                stored,
                paste.author,
            ) && (match (stored.author, paste.author) {
                (Some(id), Some(author)) => author.id == id,
                (None, None) => true,
                _ => false,
            });
        assert(came(events, PasteEvent::PasteFound(Some(stored))));
    }
    assert(events[events.len() - 1] == events.last());
}

proof fn paste_is_justified(purpose: Purpose, request: PasteRequest, events: Seq<PasteEvent>)
    ensures
        paste_justified(purpose, request, events, paste_reached(purpose, request, events)),
    decreases events.len(),
{
    if events.len() > 0 {
        let before = events.drop_last();
        let step = paste_reached(purpose, request, before);
        paste_is_justified(purpose, request, before);
        paste_history_grows(events);
        match (step, events.last()) {
            (PasteStepView::FindPaste { .. }, PasteEvent::PasteFound(Some(stored))) => {
                if stored.author is None {
                    assert(paste_found(events, loaded(stored, None)));
                }
            },
            (PasteStepView::FindAuthor { stored, author }, PasteEvent::AuthorFound(username)) => {
                assert(came(events, PasteEvent::PasteFound(Some(stored))));
                assert(paste_found(events, loaded(stored, Some(Author { id: author, username }))));
            },
            _ => {},
        }
    }
}

/// Whatever happens and in whatever order, the files of a paste are read and shown only if the
/// paste was found, stands under the name that the address puts it under, and is not refused to
/// the viewer.
pub proof fn show_is_allowed(request: PasteRequest, events: Seq<PasteEvent>, paste: Paste)
    requires
        paste_at(paste_reached(Purpose::Show, request, events)) == Some(paste),
    ensures
        paste_found(events, paste),
        author_name(paste) == request.username@,
        paste.refused is None,
{
    paste_is_justified(Purpose::Show, request, events);
}

/// Whatever happens and in whatever order, the page that edits a paste is shown to nobody but
/// the paste's author, and only on the same conditions.
pub proof fn edit_is_the_authors(request: PasteRequest, events: Seq<PasteEvent>, paste: Paste)
    requires
        paste_at(paste_reached(Purpose::Edit, request, events)) == Some(paste),
    ensures
        paste_found(events, paste),
        author_name(paste) == request.username@,
        paste.refused is None,
        request.viewer is Some,
        paste.author is Some,
        paste.author->0.id == request.viewer->0.id,
        owns(viewer_id(request.viewer), paste),
{
    paste_is_justified(Purpose::Edit, request, events);
}

/// Whatever happens and in whatever order, the page that deletes a paste is shown only to its
/// author, or to anyone if the paste is anonymous.
pub proof fn delete_is_the_authors(request: PasteRequest, events: Seq<PasteEvent>, paste: Paste)
    requires
        paste_at(paste_reached(Purpose::Delete, request, events)) == Some(paste),
    ensures
        paste_found(events, paste),
        author_name(paste) == request.username@,
        paste.author is None || owns(viewer_id(request.viewer), paste),
{
    paste_is_justified(Purpose::Delete, request, events);
}

/// A paste that stands under another name is answered as one that does not exist.
pub proof fn misnamed_looks_missing(purpose: Purpose, request: PasteRequest, paste: Paste)
    requires
        author_name(paste) != request.username@,
    ensures
        found_step(purpose, request, Some(paste)) == found_step(purpose, request, None),
        found_step(purpose, request, None) == PasteStepView::Answer(ReplyView::Status(NOT_FOUND)),
{
}

/// To who would edit it, somebody else's private paste that is not refused already looks like
/// one that does not exist.
pub proof fn private_looks_missing(request: PasteRequest, paste: Paste)
    requires
        paste.private,
        paste.refused is None,
        paste.author is Some,
        !owns(viewer_id(request.viewer), paste),
    ensures
        edit_step(request, Some(paste)) == edit_step(request, None),
{
}

/// An identifier leads to the paste's page: who may see the paste is sent to the address under
/// which its page is shown.
pub proof fn id_leads_to_the_page(paste: Paste, found: FoundPaste, request: PasteRequest)
    requires
        paste.refused is None,
        found.refused is None,
        found.owner is Some <==> paste.author is Some,
        found.owner matches Some(owner) ==> Some(owner@) == username_of(paste.author),
        id_reply(Some(found), paste.id) == ReplyView::Redirect(
            TargetView::Paste { username: request.username@, id: request.id },
        ),
    ensures
        request.id == paste.id,
        show_step(request, Some(paste)) == (PasteStepView::ReadFiles { paste }),
{
}

/// Who may not see a paste is told so in the same way by its identifier, by its page and by the
/// page that edits it.
pub proof fn refusal_is_the_same(
    paste: Paste,
    found: FoundPaste,
    request: PasteRequest,
    status: u16,
)
    requires
        paste.refused == Some(status),
        found.refused == Some(status),
        author_name(paste) == request.username@,
    ensures
        id_reply(Some(found), paste.id) == ReplyView::Status(status),
        show_step(request, Some(paste)) == PasteStepView::Answer(ReplyView::Status(status)),
        edit_step(request, Some(paste)) == PasteStepView::Answer(ReplyView::Status(status)),
{
}

/// Who may not delete a paste is sent to an address that the paste does stand under.
pub proof fn delete_leads_to_the_page(
    request: PasteRequest,
    found: Option<Paste>,
    target: TargetView,
)
    requires
        found_step(Purpose::Delete, request, found) == PasteStepView::Answer(
            ReplyView::Redirect(target),
        ),
    ensures
        target == (TargetView::Paste { username: request.username@, id: request.id }),
        under(request.username@, found) is Some,
{
}

/// The page that a step shows.
pub open spec fn page_shown(step: PasteStepView) -> Option<Page> {
    match step {
        PasteStepView::Show { .. } => Some(Page::Paste),
        PasteStepView::ShowEdit { .. } => Some(Page::EditPaste),
        PasteStepView::ShowDelete { .. } => Some(Page::DeletePaste),
        _ => None,
    }
}

/// Whatever happens and in whatever order, no page is shown but the one that was asked for.
pub proof fn page_is_the_one_asked_for(
    purpose: Purpose,
    request: PasteRequest,
    events: Seq<PasteEvent>,
)
    ensures
        page_shown(paste_reached(purpose, request, events)) matches Some(page) ==> page
            == purpose_page(purpose),
{
    paste_is_justified(purpose, request, events);
}

/// Whatever happens and in whatever order, a paste's page shows the files that were read, the
/// previews that came of the jobs of just these files, no other time of the last change than one
/// that was read, and the number of revisions that was counted.
pub proof fn page_shows_what_was_read(
    request: PasteRequest,
    events: Seq<PasteEvent>,
    data: PageDataView,
    commits: u64,
    deletion_key: Option<Seq<char>>,
)
    requires
        paste_reached(Purpose::Show, request, events) == (PasteStepView::Show {
            data,
            commits,
            deletion_key,
        }),
    ensures
        files_read(events, data.files),
        data.previews is Some,
        previews_made(request, events, data.paste, data.files, data.previews->0),
        data.update_time matches Some(time) ==> update_time_read(events, time),
        came(events, PasteEvent::CommitsCounted(commits)),
{
    paste_is_justified(Purpose::Show, request, events);
}

/// The page that edits a paste shows the files that were read, no other time of the last change
/// than one that was read, and the number of revisions that was counted.
pub proof fn edit_page_shows_what_was_read(
    request: PasteRequest,
    events: Seq<PasteEvent>,
    data: PageDataView,
    commits: u64,
)
    requires
        paste_reached(Purpose::Edit, request, events) == (PasteStepView::ShowEdit {
            data,
            commits,
        }),
    ensures
        files_read(events, data.files),
        data.previews is None,
        data.update_time matches Some(time) ==> update_time_read(events, time),
        came(events, PasteEvent::CommitsCounted(commits)),
{
    paste_is_justified(Purpose::Edit, request, events);
}

/// Where the time of the last change cannot be read, the page is shown all the same, without it:
/// that failure ends no request.
pub proof fn update_time_may_be_missing(
    purpose: Purpose,
    request: PasteRequest,
    paste: Paste,
    files: Seq<OutputFile>,
    previews: Option<PreviewsView>,
    commits: u64,
    deletion_key: Option<String>,
)
    ensures
        ({
            let step = PasteStepView::ReadUpdateTime { paste, files, previews };
            let data = PageDataView { paste, files, previews, update_time: None };
            let step = paste_next(purpose, request, step, PasteEvent::Failed);
            let step = paste_next(purpose, request, step, PasteEvent::Performed);
            let step = paste_next(purpose, request, step, PasteEvent::CommitsCounted(commits));
            let step = paste_next(purpose, request, step, PasteEvent::KeyTaken(deletion_key));
            step == if purpose == Purpose::Show {
                PasteStepView::Show { data, commits, deletion_key: optional_text(deletion_key) }
            } else {
                PasteStepView::ShowEdit { data, commits }
            }
        }),
        forall|event: PasteEvent| #[trigger]
            paste_next(
                purpose,
                request,
                PasteStepView::ReadUpdateTime { paste, files, previews },
                event,
            ) !is Fail,
{
}

/// The session keeps the deletion keys of different pastes under different names.
pub proof fn deletion_keys_differ(a: PasteId, b: PasteId)
    requires
        deletion_key_name(a) == deletion_key_name(b),
    ensures
        a == b,
{
    let start = "deletion_key_"@.len() as int;
    let (name_a, name_b) = (deletion_key_name(a), deletion_key_name(b));
    assert(hex_text(a as nat, 32) =~= name_a.subrange(start, name_a.len() as int));
    assert(hex_text(b as nat, 32) =~= name_b.subrange(start, name_b.len() as int));
    simple_is_unique(a, b);
}

/// What is left of `keys`, which the session keeps, after `events`: what the handler took is gone.
pub open spec fn keys_left(
    purpose: Purpose,
    request: PasteRequest,
    keys: Map<Seq<char>, String>,
    events: Seq<PasteEvent>,
) -> Map<Seq<char>, String>
    decreases events.len(),
{
    if events.len() == 0 {
        keys
    } else {
        let before = events.drop_last();
        let left = keys_left(purpose, request, keys, before);
        match (paste_reached(purpose, request, before), events.last()) {
            (PasteStepView::TakeDeletionKey { key, .. }, PasteEvent::KeyTaken(_)) => left.remove(
                key,
            ),
            _ => left,
        }
    }
}

/// Whether the session handed out what it kept, each time that it was asked to.
pub open spec fn keys_handed_out(
    purpose: Purpose,
    request: PasteRequest,
    keys: Map<Seq<char>, String>,
    events: Seq<PasteEvent>,
) -> bool
    decreases events.len(),
{
    events.len() > 0 ==> {
        let before = events.drop_last();
        let left = keys_left(purpose, request, keys, before);
        &&& keys_handed_out(purpose, request, keys, before)
        &&& match (paste_reached(purpose, request, before), events.last()) {
            (PasteStepView::TakeDeletionKey { key, .. }, PasteEvent::KeyTaken(taken)) => taken
                == left.get(key),
            _ => true,
        }
    }
}

proof fn keys_go_as_pages_are_shown(
    purpose: Purpose,
    request: PasteRequest,
    keys: Map<Seq<char>, String>,
    events: Seq<PasteEvent>,
)
    ensures
        match paste_reached(purpose, request, events) {
            PasteStepView::Show { data, deletion_key, .. } => keys_left(
                purpose,
                request,
                keys,
                events,
            ) == keys.remove(deletion_key_name(data.paste.id)) && (keys_handed_out(
                purpose,
                request,
                keys,
                events,
            ) ==> deletion_key == optional_text(keys.get(deletion_key_name(data.paste.id)))),
            _ => keys_left(purpose, request, keys, events) == keys,
        },
    decreases events.len(),
{
    if events.len() > 0 {
        keys_go_as_pages_are_shown(purpose, request, keys, events.drop_last());
        paste_is_justified(purpose, request, events.drop_last());
    }
}

/// A deletion key is shown at most once: the first page that shows the paste shows the key that
/// the session kept, the session keeps it no longer, and the next page that shows the paste shows
/// none, whatever happens on the way and whoever asks.
pub proof fn deletion_key_is_shown_once(
    keys: Map<Seq<char>, String>,
    first: PasteRequest,
    first_events: Seq<PasteEvent>,
    second: PasteRequest,
    second_events: Seq<PasteEvent>,
    id: PasteId,
)
    requires
        keys_handed_out(Purpose::Show, first, keys, first_events),
        paste_reached(Purpose::Show, first, first_events) matches PasteStepView::Show { data, .. }
            && data.paste.id == id,
        keys_handed_out(
            Purpose::Show,
            second,
            keys_left(Purpose::Show, first, keys, first_events),
            second_events,
        ),
        paste_reached(Purpose::Show, second, second_events) matches PasteStepView::Show { data, .. }
            && data.paste.id == id,
    ensures
        paste_reached(Purpose::Show, first, first_events)->Show_deletion_key == optional_text(
            keys.get(deletion_key_name(id)),
        ),
        !keys_left(Purpose::Show, first, keys, first_events).contains_key(deletion_key_name(id)),
        paste_reached(Purpose::Show, second, second_events)->Show_deletion_key is None,
{
    let left = keys_left(Purpose::Show, first, keys, first_events);
    keys_go_as_pages_are_shown(Purpose::Show, first, keys, first_events);
    keys_go_as_pages_are_shown(Purpose::Show, second, left, second_events);
}

/// Unless the paste's page is shown, its deletion key stays in the session: neither showing
/// another paste nor a request that fails or is refused takes it.
pub proof fn deletion_key_stays_until_shown(
    purpose: Purpose,
    request: PasteRequest,
    keys: Map<Seq<char>, String>,
    events: Seq<PasteEvent>,
    id: PasteId,
)
    requires
        paste_reached(purpose, request, events) matches PasteStepView::Show { data, .. }
            ==> data.paste.id != id,
    ensures
        keys_left(purpose, request, keys, events).get(deletion_key_name(id)) == keys.get(
            deletion_key_name(id),
        ),
{
    keys_go_as_pages_are_shown(purpose, request, keys, events);
    if let PasteStepView::Show { data, .. } = paste_reached(purpose, request, events) {
        if deletion_key_name(id) == deletion_key_name(data.paste.id) {
            deletion_keys_differ(id, data.paste.id);
        }
    }
}

/// How many steps are left at most.
pub open spec fn paste_left(step: PasteStepView) -> nat {
    match step {
        PasteStepView::FindPaste { .. } => 8,
        PasteStepView::FindAuthor { .. } => 7,
        PasteStepView::ReadFiles { .. } => 6,
        PasteStepView::MakePreviews { .. } => 5,
        PasteStepView::ReadUpdateTime { .. } => 4,
        PasteStepView::MakeContext { .. } => 3,
        PasteStepView::CountCommits { .. } => 2,
        PasteStepView::TakeDeletionKey { .. } => 1,
        PasteStepView::AddError { .. } => 1,
        _ => 0,
    }
}

/// Every event that answers a step brings the handler nearer to its end, so it comes to one.
pub proof fn paste_comes_to_an_end(
    purpose: Purpose,
    request: PasteRequest,
    step: PasteStepView,
    event: PasteEvent,
)
    ensures
        paste_next(purpose, request, step, event) == step || paste_left(
            paste_next(purpose, request, step, event),
        ) < paste_left(step),
{
}

/// How everything that the handler asks for turns out.
pub struct PasteWorld {
    pub stored: Option<StoredPaste>,
    /// The username of the paste's author.
    pub username: String,
    pub files: Vec<OutputFile>,
    /// What comes of the jobs of the files.
    pub answers: Vec<Answer>,
    /// When the paste was last changed, unless that cannot be read.
    pub update_time: Option<String>,
    pub commits: u64,
    /// What the session keeps under the name of the paste's deletion key.
    pub deletion_key: Option<String>,
}

/// What comes of `step` where everything turns out as `world` says.
pub open spec fn paste_outcome(world: PasteWorld, step: PasteStepView) -> PasteEvent {
    match step {
        PasteStepView::FindPaste { .. } => PasteEvent::PasteFound(world.stored),
        PasteStepView::FindAuthor { .. } => PasteEvent::AuthorFound(world.username),
        PasteStepView::ReadFiles { .. } => PasteEvent::FilesRead(world.files),
        PasteStepView::MakePreviews { .. } => PasteEvent::JobsAnswered(world.answers),
        PasteStepView::ReadUpdateTime { .. } => match world.update_time {
            Some(time) => PasteEvent::UpdateTimeRead(time),
            None => PasteEvent::Failed,
        },
        PasteStepView::CountCommits { .. } => PasteEvent::CommitsCounted(world.commits),
        PasteStepView::TakeDeletionKey { .. } => PasteEvent::KeyTaken(world.deletion_key),
        _ => PasteEvent::Performed,
    }
}

/// The steps that the handler goes through from `step` on, `n` of them at most before the last.
pub open spec fn paste_steps(
    purpose: Purpose,
    request: PasteRequest,
    world: PasteWorld,
    step: PasteStepView,
    n: nat,
) -> Seq<PasteStepView>
    decreases n,
{
    if n == 0 || paste_left(step) == 0 {
        seq![step]
    } else {
        seq![step] + paste_steps(
            purpose,
            request,
            world,
            paste_next(purpose, request, step, paste_outcome(world, step)),
            (n - 1) as nat,
        )
    }
}

/// What follows once the files of the paste may be read.
pub open spec fn reading_story(
    purpose: Purpose,
    request: PasteRequest,
    world: PasteWorld,
    paste: Paste,
) -> Seq<PasteStepView> {
    let files = world.files@;
    let jobs = jobs_for(files, setting_of(request, paste));
    let commits = world.commits;
    let update_time = optional_text(world.update_time);
    seq![PasteStepView::ReadFiles { paste }] + if purpose == Purpose::Show {
        seq![PasteStepView::MakePreviews { paste, files, jobs }] + match assembled_of(
            jobs,
            world.answers@,
        ) {
            None => seq![PasteStepView::Fail],
            Some(previews) => {
                let previews = Some(previews);
                let data = PageDataView { paste, files, previews, update_time };
                let key = deletion_key_name(paste.id);
                let deletion_key = optional_text(world.deletion_key);
                seq![
                    PasteStepView::ReadUpdateTime { paste, files, previews },
                    PasteStepView::MakeContext { data },
                    PasteStepView::CountCommits { data },
                    PasteStepView::TakeDeletionKey { data, commits, key },
                    PasteStepView::Show { data, commits, deletion_key },
                ]
            },
        }
    } else {
        let data = PageDataView { paste, files, previews: None, update_time };
        seq![
            PasteStepView::ReadUpdateTime { paste, files, previews: None },
            PasteStepView::MakeContext { data },
            PasteStepView::CountCommits { data },
            PasteStepView::ShowEdit { data, commits },
        ]
    }
}

/// What follows once it is decided what to do about the paste.
pub open spec fn decided_story(
    purpose: Purpose,
    request: PasteRequest,
    world: PasteWorld,
    step: PasteStepView,
) -> Seq<PasteStepView> {
    match step {
        PasteStepView::ReadFiles { paste } => reading_story(purpose, request, world, paste),
        PasteStepView::AddError { .. } => seq![
            step,
            PasteStepView::Answer(ReplyView::Redirect(TargetView::LastPage)),
        ],
        _ => seq![step],
    }
}

/// What handling a request for one of a paste's pages comes to.
pub open spec fn paste_story(
    purpose: Purpose,
    request: PasteRequest,
    world: PasteWorld,
) -> Seq<PasteStepView> {
    if purpose == Purpose::Edit && request.viewer is None {
        seq![PasteStepView::Answer(ReplyView::Redirect(TargetView::Login))]
    } else {
        seq![PasteStepView::FindPaste { id: request.id }] + match world.stored {
            None => seq![PasteStepView::Answer(ReplyView::Status(NOT_FOUND))],
            Some(stored) => match stored.author {
                None => decided_story(
                    purpose,
                    request,
                    world,
                    found_step(purpose, request, Some(loaded(stored, None))),
                ),
                Some(id) => seq![PasteStepView::FindAuthor { stored, author: id }] + decided_story(
                    purpose,
                    request,
                    world,
                    found_step(
                        purpose,
                        request,
                        Some(loaded(stored, Some(Author { id, username: world.username }))),
                    ),
                ),
            },
        }
    }
}

proof fn deciding(
    purpose: Purpose,
    request: PasteRequest,
    world: PasteWorld,
    found: Option<Paste>,
    n: nat,
)
    requires
        n >= 6,
    ensures
        paste_steps(purpose, request, world, found_step(purpose, request, found), n)
            == decided_story(purpose, request, world, found_step(purpose, request, found)),
{
    reveal_with_fuel(paste_steps, 8);
    assert(paste_steps(purpose, request, world, found_step(purpose, request, found), n)
        =~= decided_story(purpose, request, world, found_step(purpose, request, found)));
}

/// Where nothing fails but what `world` says, the handler does what the story says, step by
/// step: what it asks for, with what, in which order, and how it answers.
pub proof fn paste_follows_the_story(purpose: Purpose, request: PasteRequest, world: PasteWorld)
    ensures
        paste_steps(purpose, request, world, paste_first(purpose, request), 8) == paste_story(
            purpose,
            request,
            world,
        ),
{
    reveal_with_fuel(paste_steps, 3);
    deciding(purpose, request, world, None, 7);
    if let Some(stored) = world.stored {
        deciding(purpose, request, world, Some(loaded(stored, None)), 7);
        if let Some(id) = stored.author {
            let author = Author { id, username: world.username };
            deciding(purpose, request, world, Some(loaded(stored, Some(author))), 6);
        }
    }
    assert(paste_steps(purpose, request, world, paste_first(purpose, request), 8) =~= paste_story(
        purpose,
        request,
        world,
    ));
}

/// The handler gives up only where something that it asked for failed, be it a table that one of
/// the jobs was to make.
pub proof fn paste_gives_up_on_failure(
    purpose: Purpose,
    request: PasteRequest,
    step: PasteStepView,
    event: PasteEvent,
)
    requires
        paste_left(step) > 0,
        paste_next(purpose, request, step, event) == PasteStepView::Fail,
    ensures
        event == PasteEvent::Failed || (step matches PasteStepView::MakePreviews { jobs, .. }
            && event matches PasteEvent::JobsAnswered(answers) && assembled_of(jobs, answers@)
            is None),
{
}

} // verus!
