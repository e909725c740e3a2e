//! The list of known servers and the one that was chosen last.

use vstd::prelude::*;

use crate::text::text_of;
use crate::web_url::{UrlModel, WebUrl};
use crate::web_url::{parse_of, url_parse};

verus! {

/// What is answered when no server has the requested id.
pub const SERVER_NOT_FOUND: &'static str = "서버를 찾을 수 없습니다.";

/// What is answered when the launcher's own URL is not known.
pub const LAUNCHER_NOT_FOUND: &'static str = "런처 URL 을 찾을 수 없습니다.";

/// A server that was added: its id, the name shown for it, its URL.
#[derive(Debug, PartialEq, Eq)]
pub struct ServerEntry {
    pub id: String,
    pub name: String,
    pub url: String,
}

/// The known servers, in the order in which they were added, and the id of the
/// server to open at the next start.
#[derive(Debug, PartialEq, Eq)]
pub struct ServerConfig {
    pub servers: Vec<ServerEntry>,
    pub last: Option<String>,
}

/// A server, in contracts.
pub struct EntryModel {
    pub id: Seq<char>,
    pub name: Seq<char>,
    pub url: Seq<char>,
}

/// The configuration, in contracts.
pub struct ConfigModel {
    pub servers: Seq<EntryModel>,
    pub last: Option<Seq<char>>,
}

impl View for ServerEntry {
    type V = EntryModel;

    open spec fn view(&self) -> EntryModel {
        EntryModel { id: self.id@, name: self.name@, url: self.url@ }
    }
}

impl View for ServerConfig {
    type V = ConfigModel;

    open spec fn view(&self) -> ConfigModel {
        ConfigModel { servers: entries_of(self.servers@), last: text_of(self.last) }
    }
}

/// The servers of a list, in contracts.
pub open spec fn entries_of(servers: Seq<ServerEntry>) -> Seq<EntryModel> {
    servers.map_values(|s: ServerEntry| s@)
}

/// The first server with the given id.
pub open spec fn first_with_id(servers: Seq<EntryModel>, id: Seq<char>) -> Option<EntryModel>
    decreases servers.len(),
{
    if servers.len() == 0 {
        None
    } else if servers.first().id == id {
        Some(servers.first())
    } else {
        first_with_id(servers.drop_first(), id)
    }
}

/// No two servers of the list have the same id.
pub open spec fn all_ids_differ(servers: Seq<EntryModel>) -> bool {
    forall|i: int, j: int|
        0 <= i < j < servers.len() ==> (#[trigger] servers[i]).id != (#[trigger] servers[j]).id
}

impl ConfigModel {
    /// The configuration that holds nothing.
    pub open spec fn empty() -> ConfigModel {
        ConfigModel { servers: Seq::empty(), last: None }
    }

    /// The first server with the given id.
    pub open spec fn find(self, id: Seq<char>) -> Option<EntryModel> {
        first_with_id(self.servers, id)
    }

    /// The server that was chosen last, where it is still known.
    pub open spec fn chosen(self) -> Option<EntryModel> {
        match self.last {
            Some(id) => self.find(id),
            None => None,
        }
    }

    /// With one more server at the end of the list.
    pub open spec fn with_server(self, entry: EntryModel) -> ConfigModel {
        ConfigModel { servers: self.servers.push(entry), ..self }
    }

    /// Without the servers that have the given id, the others in their order;
    /// the choice is forgotten where it was that id.
    pub open spec fn without_server(self, id: Seq<char>) -> ConfigModel {
        ConfigModel {
            servers: self.servers.filter(|s: EntryModel| s.id != id),
            last: if self.last == Some(id) {
                None
            } else {
                self.last
            },
        }
    }

    /// With the given id as the choice.
    pub open spec fn with_choice(self, id: Seq<char>) -> ConfigModel {
        ConfigModel { last: Some(id), ..self }
    }

    /// With no choice.
    pub open spec fn without_choice(self) -> ConfigModel {
        ConfigModel { last: None, ..self }
    }

    /// The choice, if there is one, is a known server.
    pub open spec fn choice_is_known(self) -> bool {
        self.last is Some ==> self.chosen() is Some
    }

    /// No two servers have the same id.
    pub open spec fn ids_are_distinct(self) -> bool {
        all_ids_differ(self.servers)
    }
}

impl Clone for ServerEntry {
    fn clone(&self) -> (r: ServerEntry)
        ensures
            r@ == self@,
    {
        ServerEntry { id: self.id.clone(), name: self.name.clone(), url: self.url.clone() }
    }
}

impl Clone for ServerConfig {
    fn clone(&self) -> (r: ServerConfig)
        ensures
            r@ == self@,
    {
        let mut servers: Vec<ServerEntry> = Vec::new();
        let mut i: usize = 0;
        while i < self.servers.len()
            invariant
                i <= self.servers@.len(),
                servers@.len() == i,
                forall|j: int| 0 <= j < i ==> (#[trigger] servers@[j])@ == self.servers@[j]@,
            decreases self.servers@.len() - i,
        {
            servers.push(self.servers[i].clone());
            i = i + 1;
        }
        proof {
            assert(entries_of(servers@) =~= entries_of(self.servers@));
        }
        ServerConfig { servers, last: self.last.clone() }
    }
}

impl Default for ServerConfig {
    fn default() -> (r: ServerConfig)
        ensures
            r@ == ConfigModel::empty(),
            r.servers@.len() == 0,
            r.last is None,
    {
        let r = ServerConfig { servers: Vec::new(), last: None };
        proof {
            assert(entries_of(r.servers@) =~= Seq::<EntryModel>::empty());
        }
        r
    }
}

/// What became of a request to open a server.
#[derive(Debug, PartialEq, Eq)]
pub enum Connection {
    /// No server has the id. The configuration is as it was.
    Refused(String),
    /// The choice is recorded, and is to be saved. The window goes to the URL;
    /// where the stored text is no URL, the parser's message is reported.
    Chosen(Result<WebUrl, String>),
}

/// What became of a request to open a server, in contracts.
pub enum ConnectionModel {
    Refused(Seq<char>),
    Chosen(Result<UrlModel, Seq<char>>),
}

impl View for Connection {
    type V = ConnectionModel;

    open spec fn view(&self) -> ConnectionModel {
        match *self {
            Connection::Refused(m) => ConnectionModel::Refused(m@),
            Connection::Chosen(p) => ConnectionModel::Chosen(parse_of(p)),
        }
    }
}

/// The URL text of a server.
pub open spec fn url_of(entry: Option<EntryModel>) -> Option<Seq<char>> {
    match entry {
        Some(e) => Some(e.url),
        None => None,
    }
}

/// The URL that a server's URL text parses to, where it does.
pub open spec fn parsed_url_of(entry: Option<EntryModel>) -> Option<UrlModel> {
    match entry {
        Some(e) => match url_parse(e.url) {
            Ok(u) => Some(u),
            Err(_) => None,
        },
        None => None,
    }
}

/// The URL inside an option, in contracts.
pub open spec fn url_model_of(url: Option<WebUrl>) -> Option<UrlModel> {
    match url {
        Some(u) => Some(u@),
        None => None,
    }
}

/// The configuration at start: what the settings file held, or nothing where
/// the file was missing or could not be read as a configuration.
pub fn load_config(stored: Option<ServerConfig>) -> (r: ServerConfig)
    ensures
        stored matches Some(c) ==> r == c,
        stored is None ==> r@ == ConfigModel::empty(),
        stored is None ==> r.servers@.len() == 0 && r.last is None,
{
    match stored {
        Some(config) => config,
        None => ServerConfig::default(),
    }
}

/// Searching from `i` on finds what searching everything finds, where no server
/// before `i` has the id.
proof fn lemma_search_continues(servers: Seq<EntryModel>, id: Seq<char>, i: int)
    requires
        0 <= i <= servers.len(),
        forall|j: int| 0 <= j < i ==> (#[trigger] servers[j]).id != id,
    ensures
        first_with_id(servers, id) == first_with_id(servers.skip(i), id),
    decreases i,
{
    if i > 0 {
        let rest = servers.drop_first();
        assert forall|j: int| 0 <= j < i - 1 implies (#[trigger] rest[j]).id != id by {
            assert(rest[j] == servers[j + 1]);
        }
        assert(servers[0].id != id);
        lemma_search_continues(rest, id, i - 1);
        assert(rest.skip(i - 1) =~= servers.skip(i));
    } else {
        assert(servers.skip(0) =~= servers);
    }
}

/// Keeping the servers of a longer prefix: the next server is kept or not.
proof fn lemma_filter_next(servers: Seq<EntryModel>, keep: spec_fn(EntryModel) -> bool, i: int)
    requires
        0 <= i < servers.len(),
    ensures
        servers.take(i + 1).filter(keep) == if keep(servers[i]) {
            servers.take(i).filter(keep).push(servers[i])
        } else {
            servers.take(i).filter(keep)
        },
{
    assert(servers.take(i + 1).drop_last() =~= servers.take(i));
    reveal_with_fuel(Seq::filter, 1);
}

impl ServerConfig {
    /// The configuration as the launcher shows it.
    pub fn list_servers(&self) -> (r: ServerConfig)
        ensures
            r@ == self@,
    {
        self.clone()
    }

    /// The first server with the given id.
    pub fn find_server(&self, id: &str) -> (r: Option<&ServerEntry>)
        ensures
            match r {
                Some(e) => self@.find(id@) == Some(e@) && e.id@ == id@,
                None => self@.find(id@) is None,
            },
    {
        let mut i: usize = 0;
        while i < self.servers.len()
            invariant
                i <= self.servers@.len(),
                forall|j: int| 0 <= j < i ==> (#[trigger] self@.servers[j]).id != id@,
            decreases self.servers@.len() - i,
        {
            if *self.servers[i].id.as_str() == *id {
                proof {
                    lemma_search_continues(self@.servers, id@, i as int);
                }
                return Some(&self.servers[i]);
            }
            i = i + 1;
        }
        proof {
            lemma_search_continues(self@.servers, id@, i as int);
        }
        None
    }

    /// Forgets every server with the given id, and the choice if it was that id.
    /// Returns the configuration that is left.
    pub fn remove_server(&mut self, id: &str) -> (r: ServerConfig)
        ensures
            final(self)@ == old(self)@.without_server(id@),
            r@ == final(self)@,
    {
        let ghost all = self@.servers;
        let ghost keep = |s: EntryModel| s.id != id@;
        let mut kept: Vec<ServerEntry> = Vec::new();
        let mut i: usize = 0;
        while i < self.servers.len()
            invariant
                i <= self.servers@.len(),
                all == self@.servers,
                keep == (|s: EntryModel| s.id != id@),
                entries_of(kept@) == all.take(i as int).filter(keep),
            decreases self.servers@.len() - i,
        {
            proof {
                lemma_filter_next(all, keep, i as int);
            }
            if !(*self.servers[i].id.as_str() == *id) {
                let ghost before = kept@;
                kept.push(self.servers[i].clone());
                proof {
                    assert(entries_of(kept@) =~= entries_of(before).push(all[i as int]));
                }
            }
            i = i + 1;
        }
        proof {
            assert(all.take(i as int) =~= all);
        }
        self.servers = kept;
        let forget = match &self.last {
            Some(last) => *last.as_str() == *id,
            None => false,
        };
        if forget {
            self.last = None;
        }
        self.clone()
    }

    /// Makes the server with the given id the choice and returns its URL text;
    /// refuses, and changes nothing, where there is none.
    pub fn choose_server(&mut self, id: &str) -> (r: Result<String, String>)
        ensures
            match old(self)@.find(id@) {
                Some(e) => {
                    &&& r matches Ok(url)
                    &&& url@ == e.url
                    &&& final(self)@ == old(self)@.with_choice(id@)
                },
                None => {
                    &&& r matches Err(m)
                    &&& m@ == SERVER_NOT_FOUND@
                    &&& final(self)@ == old(self)@
                },
            },
            final(self).servers == old(self).servers,
            r is Ok ==> (final(self).last matches Some(last) && last@ == id@),
            r is Err ==> final(self).last == old(self).last,
    {
        let url = match self.find_server(id) {
            Some(entry) => entry.url.clone(),
            None => {
                return Err(SERVER_NOT_FOUND.to_owned());
            },
        };
        self.last = Some(id.to_owned());
        Ok(url)
    }

    /// Opens the server with the given id: it becomes the choice whether or not
    /// its stored text parses as a URL.
    pub fn connect(&mut self, id: &str) -> (r: Connection)
        ensures
            match old(self)@.find(id@) {
                Some(e) => {
                    &&& r@ == ConnectionModel::Chosen(url_parse(e.url))
                    &&& final(self)@ == old(self)@.with_choice(id@)
                },
                None => {
                    &&& r@ == ConnectionModel::Refused(SERVER_NOT_FOUND@)
                    &&& final(self)@ == old(self)@
                },
            },
            final(self).servers == old(self).servers,
            r is Chosen ==> (final(self).last matches Some(last) && last@ == id@),
            r is Refused ==> final(self).last == old(self).last,
            r matches Connection::Chosen(Ok(u)) ==> u@.valid(),
    {
        match self.choose_server(id) {
            Ok(url) => Connection::Chosen(WebUrl::parse(url.as_str())),
            Err(message) => Connection::Refused(message),
        }
    }

    /// Goes back to the launcher: nothing is chosen any more, so the next start
    /// shows the launcher too. Refuses, and changes nothing, where the
    /// launcher's URL is not known.
    pub fn open_launcher(&mut self, launcher: Option<&str>) -> (r: Result<String, String>)
        ensures
            match launcher {
                Some(url) => {
                    &&& r matches Ok(u)
                    &&& u@ == url@
                    &&& final(self)@ == old(self)@.without_choice()
                },
                None => {
                    &&& r matches Err(m)
                    &&& m@ == LAUNCHER_NOT_FOUND@
                    &&& final(self)@ == old(self)@
                },
            },
            final(self).servers == old(self).servers,
            final(self).last == if launcher is Some {
                None
            } else {
                old(self).last
            },
    {
        match launcher {
            Some(url) => {
                self.last = None;
                Ok(url.to_owned())
            },
            None => Err(LAUNCHER_NOT_FOUND.to_owned()),
        }
    }

    /// The URL text of the server that was chosen last, where it is known.
    pub fn last_server_url(&self) -> (r: Option<String>)
        ensures
            text_of(r) == url_of(self@.chosen()),
            self.last is None ==> r is None,
    {
        match &self.last {
            Some(id) => match self.find_server(id.as_str()) {
                Some(entry) => Some(entry.url.clone()),
                None => None,
            },
            None => None,
        }
    }

    /// The URL of the server that is open: the one that was chosen last. None
    /// while the launcher is shown, or where the stored text is no URL.
    pub fn current_server_url(&self) -> (r: Option<WebUrl>)
        ensures
            url_model_of(r) == parsed_url_of(self@.chosen()),
            r matches Some(u) ==> u@.valid(),
            self.last is None ==> r is None,
    {
        match self.last_server_url() {
            Some(text) => match WebUrl::parse(text.as_str()) {
                Ok(url) => Some(url),
                Err(_) => None,
            },
            None => None,
        }
    }
}

/// A configuration stands for just what it holds: each server with its id, its name
/// and its URL, in its place, and the choice.
pub proof fn law_config_is_taken_whole(config: ServerConfig)
    ensures
        config@.servers.len() == config.servers@.len(),
        forall|i: int|
            0 <= i < config.servers@.len() ==> {
                &&& (#[trigger] config@.servers[i]).id == config.servers@[i].id@
                &&& config@.servers[i].name == config.servers@[i].name@
                &&& config@.servers[i].url == config.servers@[i].url@
            },
        config.last is None ==> config@.last is None,
        config.last matches Some(id) ==> config@.last == Some(id@),
{
}

/// What becomes of opening a server stands for just the message, or the parse, in it.
pub proof fn law_connection_is_taken_whole(connection: Connection)
    ensures
        connection matches Connection::Refused(m) ==> connection@ == ConnectionModel::Refused(m@),
        connection matches Connection::Chosen(Ok(u)) ==> connection@ == ConnectionModel::Chosen(
            Ok(u@),
        ),
        connection matches Connection::Chosen(Err(m)) ==> connection@ == ConnectionModel::Chosen(
            Err(m@),
        ),
{
}

/// The empty configuration has no server and no choice.
pub proof fn law_empty_holds_nothing()
    ensures
        ConfigModel::empty().servers.len() == 0,
        ConfigModel::empty().last is None,
{
}

/// The server that is found under an id is the first in the list that has it.
pub proof fn law_first_of_an_id_is_found(config: ConfigModel, id: Seq<char>, i: int)
    requires
        0 <= i < config.servers.len(),
        config.servers[i].id == id,
        forall|j: int| 0 <= j < i ==> (#[trigger] config.servers[j]).id != id,
    ensures
        config.find(id) == Some(config.servers[i]),
{
    lemma_search_continues(config.servers, id, i);
}

/// Adding a server puts it behind all others, which keep their places, and leaves
/// the choice alone.
pub proof fn law_adding_appends(config: ConfigModel, entry: EntryModel)
    ensures
        config.with_server(entry).servers.len() == config.servers.len() + 1,
        config.with_server(entry).servers.last() == entry,
        forall|i: int|
            0 <= i < config.servers.len() ==> #[trigger] config.with_server(entry).servers[i]
                == config.servers[i],
        config.with_server(entry).last == config.last,
{
}

/// Opening a server changes the choice and nothing else: the list is as it was, and
/// every server in it is found as before.
pub proof fn law_opening_keeps_the_list(config: ConfigModel, id: Seq<char>, other: Seq<char>)
    ensures
        config.with_choice(id).servers == config.servers,
        config.with_choice(id).last == Some(id),
        config.with_choice(id).find(other) == config.find(other),
{
}

/// Going back to the launcher changes the choice and nothing else.
pub proof fn law_launcher_keeps_the_list(config: ConfigModel, other: Seq<char>)
    ensures
        config.without_choice().servers == config.servers,
        config.without_choice().last is None,
        config.without_choice().find(other) == config.find(other),
{
}

/// Removing looks at each server by itself: from a list with one more server at its
/// end, it leaves what it leaves of the list, and that server behind it unless it has
/// the id. An empty list stays empty.
pub proof fn law_removing_goes_server_by_server(
    config: ConfigModel,
    entry: EntryModel,
    gone: Seq<char>,
)
    ensures
        config.servers.len() == 0 ==> config.without_server(gone).servers.len() == 0,
        entry.id == gone ==> (ConfigModel { servers: config.servers.push(entry), ..config })
            .without_server(gone).servers == config.without_server(gone).servers,
        entry.id != gone ==> (ConfigModel { servers: config.servers.push(entry), ..config })
            .without_server(gone).servers == config.without_server(gone).servers.push(entry),
{
    reveal_with_fuel(Seq::filter, 1);
    assert(config.servers.push(entry).drop_last() =~= config.servers);
}

/// Removing forgets the choice exactly where it was the id that goes.
pub proof fn law_removing_forgets_only_that_choice(config: ConfigModel, gone: Seq<char>)
    ensures
        config.last == Some(gone) ==> config.without_server(gone).last is None,
        config.last != Some(gone) ==> config.without_server(gone).last == config.last,
{
}

/// The server that is open is the first in the list that has the chosen id; its URL
/// is the text that is stored of it, and the URL that this text parses to. Without a
/// choice, or with one that nobody in the list has, none is open.
pub proof fn law_open_server_is_the_chosen(config: ConfigModel, i: int)
    ensures
        config.last is None ==> config.chosen() is None,
        (config.last is Some && forall|j: int|
            0 <= j < config.servers.len() ==> (#[trigger] config.servers[j]).id
                != config.last->0) ==> config.chosen() is None,
        (config.last is Some && 0 <= i < config.servers.len() && config.servers[i].id
            == config.last->0 && forall|j: int|
            0 <= j < i ==> (#[trigger] config.servers[j]).id != config.last->0) ==> {
            &&& config.chosen() == Some(config.servers[i])
            &&& url_of(config.chosen()) == Some(config.servers[i].url)
            &&& url_parse(config.servers[i].url) matches Ok(u) ==> parsed_url_of(config.chosen())
                == Some(u)
            &&& url_parse(config.servers[i].url) is Err ==> parsed_url_of(config.chosen()) is None
        },
        config.chosen() is None ==> url_of(config.chosen()) is None && parsed_url_of(
            config.chosen(),
        ) is None,
{
    if let Some(id) = config.last {
        if forall|j: int| 0 <= j < config.servers.len() ==> (#[trigger] config.servers[j]).id != id {
            lemma_search_continues(config.servers, id, config.servers.len() as int);
        }
        if 0 <= i < config.servers.len() && config.servers[i].id == id && (forall|j: int|
            0 <= j < i ==> (#[trigger] config.servers[j]).id != id) {
            lemma_search_continues(config.servers, id, i);
        }
    }
}

/// An optional URL stands for just the URL in it.
pub proof fn law_optional_url_is_taken_whole(url: WebUrl)
    ensures
        url_model_of(Some(url)) == Some(url@),
        url_model_of(None) is None,
{
}

}
