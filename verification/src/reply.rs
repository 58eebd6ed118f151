//! What a handler answers: a status, a redirect or a page.
use vstd::prelude::*;

verus! {

/// The number of a user's identifier.
pub type UserId = u128;

/// The number of a paste's identifier.
pub type PasteId = u128;

/// The number of a file's identifier.
pub type FileId = u128;

/// The status of a reply for something that is not there, or that must look as if it were not.
pub const NOT_FOUND: u16 = 404;

/// The status of a reply for something that the viewer may see but not do.
pub const FORBIDDEN: u16 = 403;

/// Where a redirect leads.
#[derive(Debug, PartialEq, Eq)]
pub enum Target {
    /// The page that the visitor saw last.
    LastPage,
    /// The login form.
    Login,
    /// The form for the second factor.
    Tfa,
    /// The page of a paste under the name of its author.
    Paste { username: String, id: PasteId },
}

/// [`Target`] with its text as a sequence of characters.
pub enum TargetView {
    LastPage,
    Login,
    Tfa,
    Paste { username: Seq<char>, id: PasteId },
}

impl View for Target {
    type V = TargetView;

    open spec fn view(&self) -> TargetView {
        match *self {
            Target::LastPage => TargetView::LastPage,
            Target::Login => TargetView::Login,
            Target::Tfa => TargetView::Tfa,
            Target::Paste { username, id } => TargetView::Paste { username: username@, id },
        }
    }
}

/// The address of a file's raw content, as far as it is made up of anything.
#[derive(Debug, PartialEq, Eq)]
pub struct RawAddress {
    pub username: String,
    pub paste: PasteId,
    pub file: FileId,
    /// Whether the content is for a preview, where the address says so.
    pub preview: Option<bool>,
}

/// [`RawAddress`] with its text as a sequence of characters.
pub struct RawAddressView {
    pub username: Seq<char>,
    pub paste: PasteId,
    pub file: FileId,
    pub preview: Option<bool>,
}

impl View for RawAddress {
    type V = RawAddressView;

    open spec fn view(&self) -> RawAddressView {
        RawAddressView {
            username: self.username@,
            paste: self.paste,
            file: self.file,
            preview: self.preview,
        }
    }
}

/// The pages that are rendered from a template.
#[derive(Debug, Clone, Copy, PartialEq, Eq, Structural)]
pub enum Page {
    Login,
    Tfa,
    Paste,
    DeletePaste,
    EditPaste,
}

/// The routes that a page's fixed links lead to.
#[derive(Debug, Clone, Copy, PartialEq, Eq, Structural)]
pub enum Route {
    /// Submits the login form.
    LoginAction,
    /// Submits the form for the second factor.
    TfaAction,
    /// The form that resets a forgotten password.
    ForgotPassword,
}

/// The file name of a page's template.
pub open spec fn template_name(page: Page) -> Seq<char> {
    match page {
        Page::Login => "auth/login"@,
        Page::Tfa => "auth/2fa"@,
        Page::Paste => "paste/index"@,
        Page::DeletePaste => "paste/delete/delete"@,
        Page::EditPaste => "paste/edit"@,
    }
}

/// The links that a page carries whatever it shows, in order.
pub open spec fn fixed_links(page: Page) -> Seq<Route> {
    match page {
        Page::Login => seq![Route::LoginAction, Route::ForgotPassword],
        Page::Tfa => seq![Route::TfaAction],
        _ => Seq::empty(),
    }
}

impl Page {
    /// The file name of the page's template.
    pub fn template(self) -> (name: &'static str)
        ensures
            name@ == template_name(self),
    {
        match self {
            Page::Login => "auth/login",
            Page::Tfa => "auth/2fa",
            Page::Paste => "paste/index",
            Page::DeletePaste => "paste/delete/delete",
            Page::EditPaste => "paste/edit",
        }
    }

    /// The links that the page carries whatever it shows.
    pub fn links(self) -> (links: Vec<Route>)
        ensures
            links@ == fixed_links(self),
    {
        let links: Vec<Route> = match self {
            Page::Login => vec![Route::LoginAction, Route::ForgotPassword],
            Page::Tfa => vec![Route::TfaAction],
            _ => Vec::new(),
        };
        assert(links@ =~= fixed_links(self));
        links
    }
}

/// The name under which a page finds a route.
pub open spec fn route_name(route: Route) -> Seq<char> {
    match route {
        Route::LoginAction => "login_action"@,
        Route::TfaAction => "tfa_action"@,
        Route::ForgotPassword => "forgot_password"@,
    }
}

impl Route {
    /// The name under which a page finds the route.
    pub fn name(self) -> (name: &'static str)
        ensures
            name@ == route_name(self),
    {
        match self {
            Route::LoginAction => "login_action",
            Route::TfaAction => "tfa_action",
            Route::ForgotPassword => "forgot_password",
        }
    }
}

/// The two forms of logging in carry the links that they need, each once and no other; the pages
/// of pastes carry none whatever they show.
pub proof fn forms_carry_their_links(page: Page)
    ensures
        fixed_links(page).contains(Route::LoginAction) <==> page == Page::Login,
        fixed_links(page).contains(Route::ForgotPassword) <==> page == Page::Login,
        fixed_links(page).contains(Route::TfaAction) <==> page == Page::Tfa,
        fixed_links(page).no_duplicates(),
{
    let login = seq![Route::LoginAction, Route::ForgotPassword];
    let tfa = seq![Route::TfaAction];
    assert(login[0] == Route::LoginAction);
    assert(login[1] == Route::ForgotPassword);
    assert(tfa[0] == Route::TfaAction);
}

/// What a handler answers.
#[derive(Debug, PartialEq, Eq)]
pub enum Reply {
    Status(u16),
    Redirect(Target),
    Page(Page),
}

/// [`Reply`] with its text as a sequence of characters.
pub enum ReplyView {
    Status(u16),
    Redirect(TargetView),
    Page(Page),
}

impl View for Reply {
    type V = ReplyView;

    open spec fn view(&self) -> ReplyView {
        match *self {
            Reply::Status(code) => ReplyView::Status(code),
            Reply::Redirect(target) => ReplyView::Redirect(target@),
            Reply::Page(page) => ReplyView::Page(page),
        }
    }
}

} // verus!
