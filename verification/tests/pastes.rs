use webserver::pastes::{
    begin, delete, delete_context, edit, edit_context, id, page_for, paste_context, username_id,
    users_username_id, Author, FoundPaste, PageData, Paste, PasteError, PasteEvent, PasteLink,
    PasteRequest, PasteStep, Purpose, RawFile, StoredPaste, Viewer,
};
use webserver::previews::{Answer, Content, Job, OutputFile, Work};
use webserver::reply::{Page, RawAddress, Reply, Target};

fn request(username: &str, viewer: Option<u128>) -> PasteRequest {
    PasteRequest {
        username: username.to_string(),
        id: 5,
        viewer: viewer.map(|id| Viewer { id, is_admin: false }),
        markdown_language: "markdown".to_string(),
    }
}

fn stored(author: Option<u128>) -> StoredPaste {
    StoredPaste { id: 5, author, private: false, refused: None }
}

fn anns() -> Paste {
    Paste {
        id: 5,
        author: Some(Author { id: 7, username: "ann".to_string() }),
        private: false,
        refused: None,
    }
}

fn nobodys() -> Paste {
    Paste { id: 5, author: None, private: false, refused: None }
}

/// Goes on up to the step after the paste was looked for.
fn found(
    go_on: fn(&PasteRequest, PasteStep, PasteEvent) -> PasteStep,
    request: &PasteRequest,
    stored: Option<StoredPaste>,
) -> PasteStep {
    let step = go_on(request, PasteStep::FindPaste { id: 5 }, PasteEvent::PasteFound(stored));
    match step {
        PasteStep::FindAuthor { author: 7, .. } => {
            go_on(request, step, PasteEvent::AuthorFound("ann".to_string()))
        }
        step => step,
    }
}

fn status(code: u16) -> PasteStep {
    PasteStep::Answer(Reply::Status(code))
}

#[test]
fn identifiers_lead_to_pages() {
    assert_eq!(id(None, 5), Reply::Status(404));
    let refused = FoundPaste { owner: Some("ann".to_string()), refused: Some(403) };
    assert_eq!(id(Some(refused), 5), Reply::Status(403));
    let owned = FoundPaste { owner: Some("ann".to_string()), refused: None };
    assert_eq!(
        id(Some(owned), 5),
        Reply::Redirect(Target::Paste { username: "ann".to_string(), id: 5 }),
    );
    let anonymous = FoundPaste { owner: None, refused: None };
    let reply = id(Some(anonymous), 5);
    assert_eq!(
        reply,
        Reply::Redirect(Target::Paste { username: "anonymous".to_string(), id: 5 }),
    );
    let there = request("anonymous", None);
    assert_eq!(
        found(users_username_id, &there, Some(stored(None))),
        PasteStep::ReadFiles { paste: nobodys() },
    );
}

#[test]
fn old_addresses_lead_to_pages() {
    assert_eq!(
        username_id("ann".to_string(), 5),
        Target::Paste { username: "ann".to_string(), id: 5 },
    );
}

#[test]
fn handlers_begin_with_the_paste() {
    for purpose in [Purpose::Show, Purpose::Delete, Purpose::Edit] {
        assert_eq!(begin(purpose, &request("ann", Some(7))), PasteStep::FindPaste { id: 5 });
    }
    for purpose in [Purpose::Show, Purpose::Delete] {
        assert_eq!(begin(purpose, &request("ann", None)), PasteStep::FindPaste { id: 5 });
    }
    assert_eq!(
        begin(Purpose::Edit, &request("ann", None)),
        PasteStep::Answer(Reply::Redirect(Target::Login)),
    );
}

#[test]
fn the_author_is_looked_for() {
    let step = users_username_id(
        &request("ann", None),
        PasteStep::FindPaste { id: 5 },
        PasteEvent::PasteFound(Some(stored(Some(7)))),
    );
    assert_eq!(step, PasteStep::FindAuthor { stored: stored(Some(7)), author: 7 });
}

fn text_file(id: u128, name: &str, text: &str) -> OutputFile {
    OutputFile {
        id,
        name: Some(name.to_string()),
        highlight_language: None,
        content: Some(Content::Text(text.to_string())),
    }
}

/// Goes on from the files to the page, and gives what stood under the deletion key's name.
fn show(
    files: Vec<OutputFile>,
    answers: Vec<Answer>,
    time: PasteEvent,
    key: Option<&str>,
) -> (String, PasteStep) {
    let request = request("ann", None);
    let step = found(users_username_id, &request, Some(stored(Some(7))));
    let step = users_username_id(&request, step, PasteEvent::FilesRead(files));
    let step = users_username_id(&request, step, PasteEvent::JobsAnswered(answers));
    let step = users_username_id(&request, step, time);
    let step = users_username_id(&request, step, PasteEvent::Performed);
    let step = users_username_id(&request, step, PasteEvent::CommitsCounted(3));
    let name = match &step {
        PasteStep::TakeDeletionKey { key, .. } => key.clone(),
        step => panic!("{:?}", step),
    };
    let taken = PasteEvent::KeyTaken(key.map(|key| key.to_string()));
    (name, users_username_id(&request, step, taken))
}

#[test]
fn a_paste_is_shown() {
    let request = request("ann", None);
    let files = || vec![text_file(1, "a.csv", "x,y"), text_file(2, "b.svg", "<svg/>")];
    let step = found(users_username_id, &request, Some(stored(Some(7))));
    assert_eq!(step, PasteStep::ReadFiles { paste: anns() });
    let step = users_username_id(&request, step, PasteEvent::FilesRead(files()));
    let address = RawAddress { username: "ann".to_string(), paste: 5, file: 2, preview: Some(true) };
    let jobs = vec![
        Job { file: 1, work: Work::MakeTable { csv: "x,y".to_string() } },
        Job { file: 2, work: Work::MakeAddress { name: "b.svg".to_string(), address } },
    ];
    assert_eq!(step, PasteStep::MakePreviews { paste: anns(), files: files(), jobs });
    let answers =
        vec![Answer::Table(Err("too long".to_string())), Answer::Address("raw".to_string())];
    let time = PasteEvent::UpdateTimeRead("today".to_string());
    let (name, step) = show(files(), answers, time, Some("secret"));
    assert_eq!(name, "deletion_key_00000000000000000000000000000005");
    let (data, commits, key) = match step {
        PasteStep::Show { data, commits, deletion_key } => (data, commits, deletion_key),
        step => panic!("{:?}", step),
    };
    assert_eq!(data.paste, anns());
    assert_eq!(data.files, files());
    assert_eq!(data.update_time, Some("today".to_string()));
    assert_eq!((commits, key), (3, Some("secret".to_string())));
    let previews = data.previews.unwrap();
    assert_eq!(previews.rendered.len(), 1);
    assert_eq!(previews.rendered[&2], "<img src=\"raw\" alt=\"b.svg SVG preview\"/>");
    assert_eq!(previews.notices.len(), 1);
    assert_eq!(previews.notices[&1], "too long");
}

#[test]
fn pages_do_without_update_time_and_key() {
    let (_, step) = show(vec![], vec![], PasteEvent::Failed, None);
    match step {
        PasteStep::Show { data, commits: 3, deletion_key: None } => {
            assert_eq!(data.update_time, None);
        }
        step => panic!("{:?}", step),
    }
}

#[test]
fn a_deletion_key_is_shown_at_most_once() {
    let mut session = vec![
        ("deletion_key_00000000000000000000000000000005".to_string(), "secret"),
        ("deletion_key_00000000000000000000000000000006".to_string(), "other"),
    ];
    for expected in [Some("secret".to_string()), None] {
        let time = || PasteEvent::UpdateTimeRead("today".to_string());
        let (name, _) = show(vec![], vec![], time(), None);
        let place = session.iter().position(|(kept, _)| *kept == name);
        let key = place.map(|place| session.remove(place).1);
        match show(vec![], vec![], time(), key).1 {
            PasteStep::Show { deletion_key, .. } => assert_eq!(deletion_key, expected),
            step => panic!("{:?}", step),
        }
    }
    assert_eq!(session.len(), 1);
    assert_eq!(session[0].1, "other");
}

#[test]
fn a_failed_table_ends_the_request() {
    let request = request("ann", None);
    let step = PasteStep::MakePreviews {
        paste: anns(),
        files: vec![],
        jobs: vec![Job { file: 1, work: Work::MakeTable { csv: String::new() } }],
    };
    let event = PasteEvent::JobsAnswered(vec![Answer::Failed]);
    assert_eq!(users_username_id(&request, step, event), PasteStep::Fail);
}

#[test]
fn a_failed_count_leaves_the_key_alone() {
    let request = request("ann", None);
    let data =
        PageData { paste: anns(), files: vec![], previews: None, update_time: None };
    let step = PasteStep::CountCommits { data };
    assert_eq!(users_username_id(&request, step, PasteEvent::Failed), PasteStep::Fail);
}

#[test]
fn purposes_have_their_pages() {
    assert_eq!(page_for(Purpose::Show), Page::Paste);
    assert_eq!(page_for(Purpose::Delete), Page::DeletePaste);
    assert_eq!(page_for(Purpose::Edit), Page::EditPaste);
}

#[test]
fn missing_and_misnamed_pastes_look_alike() {
    for go_on in [users_username_id, delete, edit] {
        assert_eq!(found(go_on, &request("ann", Some(7)), None), status(404));
        assert_eq!(found(go_on, &request("bob", Some(7)), Some(stored(Some(7)))), status(404));
        assert_eq!(found(go_on, &request("ann", Some(7)), Some(stored(None))), status(404));
    }
}

#[test]
fn refused_pastes_are_not_shown() {
    let refused = StoredPaste { refused: Some(404), ..stored(Some(7)) };
    assert_eq!(found(users_username_id, &request("ann", None), Some(refused)), status(404));
    let refused = StoredPaste { refused: Some(403), ..stored(Some(7)) };
    assert_eq!(found(users_username_id, &request("ann", None), Some(refused)), status(403));
    assert_eq!(found(edit, &request("ann", Some(8)), Some(refused)), status(403));
}

#[test]
fn deleting_is_for_authors() {
    assert_eq!(
        found(delete, &request("ann", Some(7)), Some(stored(Some(7)))),
        PasteStep::ShowDelete { paste: anns() },
    );
    for viewer in [None, Some(8)] {
        assert_eq!(
            found(delete, &request("ann", viewer), Some(stored(Some(7)))),
            PasteStep::Answer(Reply::Redirect(Target::Paste { username: "ann".to_string(), id: 5 })),
        );
        assert_eq!(
            found(delete, &request("anonymous", viewer), Some(stored(None))),
            PasteStep::ShowDelete { paste: nobodys() },
        );
    }
}

#[test]
fn editing_is_for_authors() {
    assert_eq!(
        found(edit, &request("ann", Some(7)), Some(stored(Some(7)))),
        PasteStep::ReadFiles { paste: anns() },
    );
    let author = request("ann", Some(7));
    let step = PasteStep::ReadFiles { paste: anns() };
    let step = edit(&author, step, PasteEvent::FilesRead(vec![]));
    assert_eq!(
        step,
        PasteStep::ReadUpdateTime { paste: anns(), files: vec![], previews: None },
    );
    let step = edit(&author, step, PasteEvent::Failed);
    let step = edit(&author, step, PasteEvent::Performed);
    let step = edit(&author, step, PasteEvent::CommitsCounted(4));
    let data = PageData { paste: anns(), files: vec![], previews: None, update_time: None };
    assert_eq!(step, PasteStep::ShowEdit { data, commits: 4 });
    assert_eq!(found(edit, &request("ann", Some(8)), Some(stored(Some(7)))), status(403));
    let private = StoredPaste { private: true, ..stored(Some(7)) };
    assert_eq!(found(edit, &request("ann", Some(8)), Some(private)), status(404));
}

#[test]
fn anonymous_pastes_cannot_be_edited() {
    let request = request("anonymous", Some(8));
    let step = found(edit, &request, Some(stored(None)));
    assert_eq!(step, PasteStep::AddError { error: PasteError::AnonymousEdit });
    assert_eq!(PasteError::AnonymousEdit.text(), "Cannot edit anonymous pastes.");
    let step = edit(&request, step, PasteEvent::Performed);
    assert_eq!(step, PasteStep::Answer(Reply::Redirect(Target::LastPage)));
}

#[test]
fn outside_failures_end_the_request() {
    let request = request("ann", Some(7));
    for go_on in [users_username_id, delete, edit] {
        assert_eq!(
            go_on(&request, PasteStep::FindPaste { id: 5 }, PasteEvent::Failed),
            PasteStep::Fail,
        );
        assert_eq!(
            go_on(&request, PasteStep::ReadFiles { paste: anns() }, PasteEvent::Failed),
            PasteStep::Fail,
        );
        assert_eq!(
            go_on(&request, PasteStep::ShowDelete { paste: anns() }, PasteEvent::Failed),
            PasteStep::ShowDelete { paste: anns() },
        );
    }
}

#[test]
fn pages_know_their_owner_and_links() {
    let files = vec![OutputFile {
        id: 0x1f,
        name: None,
        highlight_language: None,
        content: Some(Content::Binary),
    }];
    let owner = Viewer { id: 7, is_admin: false };
    let context = paste_context(&anns(), Some(owner), &files);
    assert!(context.is_owner);
    assert_eq!(context.author_name, "ann");
    assert_eq!(context.links, vec![PasteLink::RawFiles]);
    let address = RawAddress { username: "ann".to_string(), paste: 5, file: 0x1f, preview: None };
    let name = "0000000000000000000000000000001f".to_string();
    assert_eq!(context.raw_files, vec![RawFile { name, address }]);
    let admin = Viewer { id: 1, is_admin: true };
    let context = paste_context(&anns(), Some(admin), &vec![]);
    assert!(!context.is_owner);
    assert_eq!(
        context.links,
        vec![PasteLink::RawFiles, PasteLink::AdminDelete, PasteLink::AdminDeleteStandalone],
    );
    assert!(context.raw_files.is_empty());
    let context = paste_context(&nobodys(), None, &vec![]);
    assert!(!context.is_owner);
    assert_eq!(context.author_name, "anonymous");
}

#[test]
fn links_have_their_names() {
    assert_eq!(PasteLink::RawFiles.name(), "raw_files");
    assert_eq!(PasteLink::AdminDelete.name(), "admin_delete");
    assert_eq!(PasteLink::AdminDeleteStandalone.name(), "admin_delete_standalone");
    assert_eq!(PasteLink::Patch.name(), "patch");
}

#[test]
fn the_other_pages_know_what_to_show() {
    let context = delete_context(&nobodys());
    assert_eq!((context.paste_id, context.anonymous), (5, true));
    assert_eq!(context.author_name, "anonymous");
    let context = delete_context(&anns());
    assert!(!context.anonymous);
    let viewer = Viewer { id: 7, is_admin: false };
    let context = edit_context(&anns(), Some(viewer), vec!["rust", "xml"]);
    assert_eq!(context.languages, vec!["rust", "xml"]);
    assert!(context.is_owner);
    assert_eq!(context.author_name, "ann");
    assert_eq!(context.links, vec![PasteLink::Patch]);
}
