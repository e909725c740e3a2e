//! What holds of adding, removing and opening servers, whatever the input.

use vstd::prelude::*;

use crate::navigation::NewWindowModel;
use crate::navigation::{leads_to_server, new_window_action};
use crate::registration::{PingModel, RequestModel};
use crate::registration::{PING_PATH, is_slash_or_space, kept_url, normalized, ping_refusal, request_for};
use crate::servers::{ConfigModel, EntryModel};
use crate::servers::{all_ids_differ, first_with_id, parsed_url_of};
use crate::text::{is_white_space, law_trimming, lemma_without_trailing, trimmed};
use crate::web_url::UrlModel;
use crate::web_url::url_parse;

verus! {

/// A URL that is kept has no white space at either end and no slash at its end, and
/// is an `http` or `https` URL.
pub proof fn law_kept_url_is_clean(raw: Seq<char>, text: Seq<char>)
    requires
        kept_url(raw) == Ok::<Seq<char>, Seq<char>>(text),
    ensures
        trimmed(text) == text,
        text.len() > 0 ==> {
            &&& !is_white_space(text.first())
            &&& !is_white_space(text.last())
            &&& text.last() != '/'
        },
        url_parse(text) is Ok,
        url_parse(text)->Ok_0.is_web(),
{
    let tail = |c: char| is_slash_or_space(c);
    law_trimming(raw);
    lemma_without_trailing(trimmed(raw), tail);
    assert(text == normalized(raw));
    if text.len() > 0 {
        assert(text.first() == trimmed(raw).first());
        assert(!tail(text.last()));
    }
    law_trimming(text);
}

/// Bringing a URL into the form in which it is kept a second time changes nothing.
pub proof fn law_normalizing_is_stable(raw: Seq<char>, text: Seq<char>)
    requires
        kept_url(raw) == Ok::<Seq<char>, Seq<char>>(text),
    ensures
        kept_url(text) == Ok::<Seq<char>, Seq<char>>(text),
{
    law_kept_url_is_clean(raw, text);
    assert(normalized(text) == text);
}

/// Only an answer with a status from 200 to 299 lets a server in.
pub proof fn law_only_success_lets_in(outcome: PingModel)
    ensures
        ping_refusal(outcome) is None <==> (outcome matches PingModel::Answered(code) && 200 <= code
            < 300),
{
}

/// A server that may be added has a name, which has no white space around it; its
/// URL is an `http` or `https` URL; and what is asked is the health endpoint below
/// that URL.
pub proof fn law_request_is_in_order(name: Seq<char>, url: Seq<char>, request: RequestModel)
    requires
        request_for(name, kept_url(url)) == Ok::<RequestModel, Seq<char>>(request),
    ensures
        request.name.len() > 0,
        trimmed(request.name) == request.name,
        url_parse(request.url) is Ok,
        url_parse(request.url)->Ok_0.is_web(),
        request.ping == request.url + PING_PATH@,
{
    law_trimming(name);
    law_trimming(trimmed(name));
    law_kept_url_is_clean(url, request.url);
}

proof fn lemma_find_in_longer(servers: Seq<EntryModel>, entry: EntryModel, id: Seq<char>)
    ensures
        first_with_id(servers.push(entry), id) == match first_with_id(servers, id) {
            Some(e) => Some(e),
            None => if entry.id == id {
                Some(entry)
            } else {
                None
            },
        },
    decreases servers.len(),
{
    let longer = servers.push(entry);
    if servers.len() == 0 {
        assert(longer.drop_first() =~= Seq::<EntryModel>::empty());
    } else {
        assert(longer.drop_first() =~= servers.drop_first().push(entry));
        lemma_find_in_longer(servers.drop_first(), entry, id);
    }
}

proof fn lemma_found_is_in(servers: Seq<EntryModel>, id: Seq<char>)
    ensures
        first_with_id(servers, id) matches Some(e) ==> e.id == id && servers.contains(e),
        first_with_id(servers, id) is None ==> forall|i: int|
            0 <= i < servers.len() ==> (#[trigger] servers[i]).id != id,
    decreases servers.len(),
{
    if servers.len() > 0 {
        let rest = servers.drop_first();
        lemma_found_is_in(rest, id);
        if servers.first().id == id {
            assert(servers[0] == servers.first());
        } else {
            if let Some(e) = first_with_id(rest, id) {
                let i = choose|i: int| 0 <= i < rest.len() && rest[i] == e;
                assert(servers[i + 1] == e);
            } else {
                assert forall|i: int| 0 <= i < servers.len() implies (#[trigger] servers[i]).id
                    != id by {
                    if i > 0 {
                        assert(rest[i - 1] == servers[i]);
                    }
                }
            }
        }
    }
}

proof fn lemma_find_after_removal(servers: Seq<EntryModel>, gone: Seq<char>, id: Seq<char>)
    ensures
        first_with_id(servers.filter(|s: EntryModel| s.id != gone), id) == if id == gone {
            None
        } else {
            first_with_id(servers, id)
        },
    decreases servers.len(),
{
    reveal_with_fuel(Seq::filter, 1);
    if servers.len() > 0 {
        let shorter = servers.drop_last();
        lemma_find_after_removal(shorter, gone, id);
        assert(shorter.push(servers.last()) =~= servers);
        lemma_find_in_longer(shorter, servers.last(), id);
        lemma_find_in_longer(
            shorter.filter(|s: EntryModel| s.id != gone),
            servers.last(),
            id,
        );
    }
}

proof fn lemma_filter_keeps_all(servers: Seq<EntryModel>, gone: Seq<char>)
    requires
        first_with_id(servers, gone) is None,
    ensures
        servers.filter(|s: EntryModel| s.id != gone) == servers,
    decreases servers.len(),
{
    reveal_with_fuel(Seq::filter, 1);
    lemma_found_is_in(servers, gone);
    if servers.len() > 0 {
        let shorter = servers.drop_last();
        assert(shorter.push(servers.last()) =~= servers);
        lemma_find_in_longer(shorter, servers.last(), gone);
        lemma_filter_keeps_all(shorter, gone);
        assert(servers[servers.len() - 1].id != gone);
    }
}

/// Whoever is found under an id has that id and is in the list; where nobody is
/// found, nobody in the list has it.
pub proof fn law_find(config: ConfigModel, id: Seq<char>)
    ensures
        config.find(id) matches Some(e) ==> e.id == id && config.servers.contains(e),
        config.find(id) is None ==> forall|i: int|
            0 <= i < config.servers.len() ==> (#[trigger] config.servers[i]).id != id,
{
    lemma_found_is_in(config.servers, id);
}

/// A server that is added under a new id is found under it, and hides no other.
pub proof fn law_added_server_is_found(config: ConfigModel, entry: EntryModel, id: Seq<char>)
    requires
        config.find(entry.id) is None,
    ensures
        config.with_server(entry).find(entry.id) == Some(entry),
        id != entry.id ==> config.with_server(entry).find(id) == config.find(id),
{
    lemma_find_in_longer(config.servers, entry, entry.id);
    lemma_find_in_longer(config.servers, entry, id);
}

/// A server that is removed is not found any more, and every other still is.
pub proof fn law_removed_server_is_gone(config: ConfigModel, gone: Seq<char>, id: Seq<char>)
    ensures
        config.without_server(gone).find(gone) is None,
        id != gone ==> config.without_server(gone).find(id) == config.find(id),
{
    lemma_find_after_removal(config.servers, gone, gone);
    lemma_find_after_removal(config.servers, gone, id);
}

/// Removing a server a second time changes nothing.
pub proof fn law_removing_twice(config: ConfigModel, gone: Seq<char>)
    ensures
        config.without_server(gone).without_server(gone) == config.without_server(gone),
{
    lemma_find_after_removal(config.servers, gone, gone);
    lemma_filter_keeps_all(config.without_server(gone).servers, gone);
}

/// Removing a server that was just added under a new id undoes the adding.
pub proof fn law_removing_undoes_adding(config: ConfigModel, entry: EntryModel)
    requires
        config.find(entry.id) is None,
        config.last != Some(entry.id),
    ensures
        config.with_server(entry).without_server(entry.id) == config,
{
    let longer = config.servers.push(entry);
    reveal_with_fuel(Seq::filter, 1);
    lemma_filter_keeps_all(config.servers, entry.id);
    assert(longer.drop_last() =~= config.servers);
}

/// Once a server was opened, it is the one that is open, and the one that the next
/// start opens.
pub proof fn law_opened_server_is_chosen(config: ConfigModel, id: Seq<char>)
    ensures
        config.with_choice(id).chosen() == config.find(id),
{
}

/// Once the launcher was opened, no server is open, and the next start shows the
/// launcher; the list is as it was.
pub proof fn law_launcher_forgets_choice(config: ConfigModel)
    ensures
        config.without_choice().chosen() is None,
        config.without_choice().servers == config.servers,
{
}

/// Removing the server that is open leaves none open; removing another leaves it
/// open.
pub proof fn law_removing_and_choice(config: ConfigModel, gone: Seq<char>)
    ensures
        config.last == Some(gone) ==> config.without_server(gone).chosen() is None,
        config.last != Some(gone) ==> config.without_server(gone).chosen() == config.chosen(),
{
    if let Some(id) = config.last {
        lemma_find_after_removal(config.servers, gone, id);
    }
}

/// A change of the configuration.
pub enum ConfigChange {
    Add(EntryModel),
    Remove(Seq<char>),
    Choose(Seq<char>),
    OpenLauncher,
}

/// The configuration after a change. An unknown server is not chosen.
pub open spec fn changed(config: ConfigModel, change: ConfigChange) -> ConfigModel {
    match change {
        ConfigChange::Add(entry) => config.with_server(entry),
        ConfigChange::Remove(id) => config.without_server(id),
        ConfigChange::Choose(id) => if config.find(id) is Some {
            config.with_choice(id)
        } else {
            config
        },
        ConfigChange::OpenLauncher => config.without_choice(),
    }
}

/// The configuration after a row of changes.
pub open spec fn changed_by(config: ConfigModel, changes: Seq<ConfigChange>) -> ConfigModel
    decreases changes.len(),
{
    if changes.len() == 0 {
        config
    } else {
        changed(changed_by(config, changes.drop_last()), changes.last())
    }
}

/// Whatever is done, the choice stays a known server where it was one, and so from
/// the empty configuration on.
pub proof fn law_choice_stays_known(config: ConfigModel, changes: Seq<ConfigChange>)
    requires
        config.choice_is_known(),
    ensures
        changed_by(config, changes).choice_is_known(),
    decreases changes.len(),
{
    if changes.len() > 0 {
        law_choice_stays_known(config, changes.drop_last());
        let before = changed_by(config, changes.drop_last());
        match changes.last() {
            ConfigChange::Add(entry) => {
                if let Some(id) = before.last {
                    lemma_find_in_longer(before.servers, entry, id);
                }
            },
            ConfigChange::Remove(id) => {
                law_removing_and_choice(before, id);
            },
            ConfigChange::Choose(_) => {},
            ConfigChange::OpenLauncher => {},
        }
    }
}

/// Every added server is in order: its URL is an `http` or `https` URL.
pub open spec fn adds_web_servers(changes: Seq<ConfigChange>) -> bool {
    forall|i: int|
        0 <= i < changes.len() ==> (#[trigger] changes[i] matches ConfigChange::Add(entry)
            ==> is_web_server(entry))
}

/// The server's URL is an `http` or `https` URL.
pub open spec fn is_web_server(entry: EntryModel) -> bool {
    url_parse(entry.url) matches Ok(u) && u.is_web()
}

/// Every known server is in order.
pub open spec fn has_web_servers(config: ConfigModel) -> bool {
    forall|i: int| 0 <= i < config.servers.len() ==> is_web_server(#[trigger] config.servers[i])
}

/// Whatever is done, every known server keeps an `http` or `https` URL where every
/// one had it and those that are added have it, as `law_request_is_in_order` says
/// they do.
pub proof fn law_servers_stay_web(config: ConfigModel, changes: Seq<ConfigChange>)
    requires
        has_web_servers(config),
        adds_web_servers(changes),
    ensures
        has_web_servers(changed_by(config, changes)),
    decreases changes.len(),
{
    if changes.len() > 0 {
        let earlier = changes.drop_last();
        assert forall|i: int| 0 <= i < earlier.len() implies (
        #[trigger] earlier[i] matches ConfigChange::Add(entry) ==> is_web_server(entry)) by {
            assert(earlier[i] == changes[i]);
        }
        law_servers_stay_web(config, earlier);
        let before = changed_by(config, earlier);
        assert(changes[changes.len() - 1] == changes.last());
        match changes.last() {
            ConfigChange::Remove(id) => {
                let keep = |s: EntryModel| s.id != id;
                let kept = before.servers.filter(keep);
                assert forall|i: int| 0 <= i < kept.len() implies is_web_server(
                    #[trigger] kept[i],
                ) by {
                    before.servers.lemma_filter_contains_rev(keep, kept[i]);
                }
            },
            _ => {},
        }
    }
}

/// Where every known server is in order, opening any of them leads to an `http` or
/// `https` URL.
pub proof fn law_known_servers_open(config: ConfigModel, id: Seq<char>)
    requires
        has_web_servers(config),
        config.find(id) is Some,
    ensures
        parsed_url_of(config.with_choice(id).chosen()) matches Some(u) && u.is_web(),
{
    lemma_found_is_in(config.servers, id);
    let entry = config.find(id)->0;
    let i = choose|i: int| 0 <= i < config.servers.len() && config.servers[i] == entry;
    assert(is_web_server(config.servers[i]));
}

/// No two servers have one id as long as no server is added under an id that is in
/// use.
pub proof fn law_ids_stay_distinct(config: ConfigModel, change: ConfigChange)
    requires
        config.ids_are_distinct(),
        change matches ConfigChange::Add(entry) ==> config.find(entry.id) is None,
    ensures
        changed(config, change).ids_are_distinct(),
{
    match change {
        ConfigChange::Add(entry) => {
            lemma_found_is_in(config.servers, entry.id);
        },
        ConfigChange::Remove(id) => {
            lemma_removal_keeps_distinct(config.servers, id);
        },
        _ => {},
    }
}

proof fn lemma_removal_keeps_distinct(servers: Seq<EntryModel>, gone: Seq<char>)
    requires
        all_ids_differ(servers),
    ensures
        all_ids_differ(servers.filter(|s: EntryModel| s.id != gone)),
    decreases servers.len(),
{
    reveal_with_fuel(Seq::filter, 1);
    if servers.len() > 0 {
        let shorter = servers.drop_last();
        let last = servers.last();
        let keep = |s: EntryModel| s.id != gone;
        lemma_removal_keeps_distinct(shorter, gone);
        let kept = shorter.filter(keep);
        assert forall|i: int| 0 <= i < kept.len() implies (#[trigger] kept[i]).id != last.id by {
            shorter.lemma_filter_contains_rev(keep, kept[i]);
            let k = choose|k: int| 0 <= k < shorter.len() && shorter[k] == kept[i];
            assert(servers[k].id != servers[servers.len() - 1].id);
        }
    }
}

/// The window goes nowhere but to `http` and `https` URLs of the server that is
/// open.
pub proof fn law_window_stays_on_server(server: Option<UrlModel>, url: UrlModel)
    ensures
        new_window_action(server, url) is Navigate ==> {
            &&& url.is_web()
            &&& server matches Some(s)
            &&& s.origin() == url.origin()
            &&& new_window_action(server, url) == NewWindowModel::Navigate(url.href)
        },
{
}

/// A link to an `http` or `https` URL of the server's origin, its own URL among
/// them, stays in the window. The origin of such a URL is never opaque, as
/// `WebUrl::origin` says.
pub proof fn law_server_links_stay(server: UrlModel, url: UrlModel)
    requires
        url.is_web(),
        url.origin() is Tuple,
        server.origin() == url.origin(),
    ensures
        new_window_action(Some(server), url) == NewWindowModel::Navigate(url.href),
{
}

/// While the launcher is shown, no link takes the window anywhere.
pub proof fn law_launcher_sends_links_out(config: ConfigModel, url: UrlModel)
    requires
        config.last is None,
    ensures
        !(new_window_action(parsed_url_of(config.chosen()), url) is Navigate),
        url.is_web() ==> new_window_action(parsed_url_of(config.chosen()), url)
            == NewWindowModel::OpenInBrowser(url.href),
{
}

/// Nothing but `http`, `https` and `mailto` URLs is ever handed on, each as it is.
pub proof fn law_other_schemes_are_dropped(server: Option<UrlModel>, url: UrlModel)
    ensures
        new_window_action(server, url) is Ignore <==> !url.is_web() && url.scheme != "mailto"@,
        new_window_action(server, url) is OpenInMail <==> !url.is_web() && url.scheme == "mailto"@,
        new_window_action(server, url) is OpenInBrowser <==> url.is_web() && !leads_to_server(
            server,
            url,
        ),
{
}

}
