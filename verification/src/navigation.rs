//! What happens to a request for a new window.
//!
//! The shell has one window. A link that asks for another one stays in that
//! window where it leads to the server that is open, and leaves the shell
//! otherwise.

use vstd::prelude::*;

use crate::servers::ServerConfig;
use crate::servers::{parsed_url_of, url_model_of};
use crate::web_url::{UrlModel, WebUrl};

verus! {

/// What is done about a request for a new window.
#[derive(Debug, PartialEq, Eq)]
pub enum NewWindowAction {
    /// The window of the shell goes to this URL.
    Navigate(String),
    /// The default browser opens this URL.
    OpenInBrowser(String),
    /// The mail program opens this URL.
    OpenInMail(String),
    /// Nothing.
    Ignore,
}

/// What is done about a request for a new window, in contracts.
pub enum NewWindowModel {
    Navigate(Seq<char>),
    OpenInBrowser(Seq<char>),
    OpenInMail(Seq<char>),
    Ignore,
}

impl View for NewWindowAction {
    type V = NewWindowModel;

    open spec fn view(&self) -> NewWindowModel {
        match *self {
            NewWindowAction::Navigate(u) => NewWindowModel::Navigate(u@),
            NewWindowAction::OpenInBrowser(u) => NewWindowModel::OpenInBrowser(u@),
            NewWindowAction::OpenInMail(u) => NewWindowModel::OpenInMail(u@),
            NewWindowAction::Ignore => NewWindowModel::Ignore,
        }
    }
}

/// The request leads to the server that is open.
pub open spec fn leads_to_server(server: Option<UrlModel>, url: UrlModel) -> bool {
    server matches Some(s) && s.origin().same(url.origin())
}

/// What is done about a request for `url` while `server` is open.
pub open spec fn new_window_action(server: Option<UrlModel>, url: UrlModel) -> NewWindowModel {
    if url.is_web() {
        if leads_to_server(server, url) {
            NewWindowModel::Navigate(url.href)
        } else {
            NewWindowModel::OpenInBrowser(url.href)
        }
    } else if url.scheme == "mailto"@ {
        NewWindowModel::OpenInMail(url.href)
    } else {
        NewWindowModel::Ignore
    }
}

/// Decides about a request for `url` while `server` is open: an `http` or `https`
/// URL with the server's origin stays in the window, any other goes to the
/// browser, a `mailto` URL goes to the mail program, and the rest (`blob`, `data`,
/// `about` and the like) is dropped.
pub fn route_new_window(server: &Option<WebUrl>, url: &WebUrl) -> (r: NewWindowAction)
    ensures
        r@ == new_window_action(url_model_of(*server), url@),
        r matches NewWindowAction::Navigate(t) ==> t@ == url.href@,
        r matches NewWindowAction::OpenInBrowser(t) ==> t@ == url.href@,
        r matches NewWindowAction::OpenInMail(t) ==> t@ == url.href@,
        r is Navigate || r is OpenInBrowser <==> url.scheme@ == "http"@ || url.scheme@ == "https"@,
        url.scheme@ == "mailto"@ ==> r is OpenInMail,
        url@.valid() && url@.is_web() ==> (server matches Some(s) && s@.origin() == url@.origin()
            ==> r@ == NewWindowModel::Navigate(url@.href)),
{
    proof {
        law_scheme_and_origin_decide(url_model_of(*server), url@);
    }
    if url.is_web() {
        let same_server = match server {
            Some(s) => s.same_origin(url),
            None => false,
        };
        if same_server {
            NewWindowAction::Navigate(url.href.clone())
        } else {
            NewWindowAction::OpenInBrowser(url.href.clone())
        }
    } else if *url.scheme.as_str() == *"mailto" {
        NewWindowAction::OpenInMail(url.href.clone())
    } else {
        NewWindowAction::Ignore
    }
}

impl ServerConfig {
    /// Decides about a request for a new window, by the server that is open.
    pub fn handle_new_window(&self, url: &WebUrl) -> (r: NewWindowAction)
        ensures
            r@ == new_window_action(parsed_url_of(self@.chosen()), url@),
            r matches NewWindowAction::Navigate(t) ==> t@ == url.href@,
            r matches NewWindowAction::OpenInBrowser(t) ==> t@ == url.href@,
            r matches NewWindowAction::OpenInMail(t) ==> t@ == url.href@,
            r is Navigate || r is OpenInBrowser <==> url.scheme@ == "http"@ || url.scheme@ == "https"@,
            url.scheme@ == "mailto"@ ==> r is OpenInMail,
            url@.valid() && url@.is_web() ==> (parsed_url_of(self@.chosen()) matches Some(s)
                && s.origin() == url@.origin() ==> r@ == NewWindowModel::Navigate(url@.href)),
    {
        route_new_window(&self.current_server_url(), url)
    }
}

/// What is done about a request stands for just the URL in it.
pub proof fn law_new_window_is_taken_whole(action: NewWindowAction)
    ensures
        action matches NewWindowAction::Navigate(u) ==> action@ == NewWindowModel::Navigate(u@),
        action matches NewWindowAction::OpenInBrowser(u) ==> action@
            == NewWindowModel::OpenInBrowser(u@),
        action matches NewWindowAction::OpenInMail(u) ==> action@ == NewWindowModel::OpenInMail(u@),
        action is Ignore ==> action@ is Ignore,
{
}

/// Wherever a request is sent, the whole URL is sent there, whatever server is open.
pub proof fn law_whole_url_is_handed_on(server: Option<UrlModel>, url: UrlModel)
    ensures
        new_window_action(server, url) matches NewWindowModel::Navigate(t) ==> t == url.href,
        new_window_action(server, url) matches NewWindowModel::OpenInBrowser(t) ==> t == url.href,
        new_window_action(server, url) matches NewWindowModel::OpenInMail(t) ==> t == url.href,
{
}

/// The scheme decides whether a request stays on the web, goes to the mail program
/// or is dropped, whatever server is open; of the web ones, those stay in the window
/// whose origin is the open server's and not opaque, and all others go to the browser.
pub proof fn law_scheme_and_origin_decide(server: Option<UrlModel>, url: UrlModel)
    ensures
        url.scheme == "http"@ || url.scheme == "https"@ ==> {
            if server is Some && server->0.origin() is Tuple && server->0.origin() == url.origin() {
                new_window_action(server, url) is Navigate
            } else {
                new_window_action(server, url) is OpenInBrowser
            }
        },
        url.scheme == "mailto"@ ==> new_window_action(server, url) is OpenInMail,
        url.scheme != "http"@ && url.scheme != "https"@ && url.scheme != "mailto"@
            ==> new_window_action(server, url) is Ignore,
{
    reveal_strlit("http");
    reveal_strlit("https");
    reveal_strlit("mailto");
    assert("mailto"@[0] == 'm' && "http"@[0] == 'h' && "https"@[0] == 'h');
}

}
