//! The registry of notifiers: by id, and by the server each one watches.

use std::collections::{BTreeMap, BTreeSet, HashMap};
use vstd::prelude::*;
use vstd::string::StringExecFns;
use crate::channel::server::handler::plan_for;
use crate::channel::server::types::ServerMessage;
use crate::channel::server::utils::{status_changed, StatusModel};
use crate::model::notifier::Notifier;
use crate::model::server_log::ServerLogLine;
use crate::notify::error::Error;
use crate::notify::formatter::{formatted, loadable, HJSFormatter};
use crate::notify::template::calls_template;
use crate::notify::ids::{ascending, ids_of, lemma_ascending_occurrences, occurrences};
use crate::text::{decimal, push_signed, same_text};

verus! {

broadcast use vstd::laws_cmp::group_laws_cmp;

/// The providers the registry knows.
#[derive(Debug, Clone, Copy, PartialEq, Eq, Structural)]
pub enum NotifierType {
    Telegram,
    Discord,
}

impl NotifierType {
    /// The name a provider goes by.
    pub open spec fn name(self) -> Seq<char> {
        match self {
            NotifierType::Telegram => "telegram"@,
            NotifierType::Discord => "discord"@,
        }
    }

    /// Resolves a provider by its name; any other name is refused and handed
    /// back in the error.
    pub fn from_str(s: &str) -> (provider: Result<NotifierType, Error>)
        ensures
            match provider {
                Ok(p) => s@ == p.name(),
                Err(Error::UnknownProvider(given)) => given@ == s@ && !known_provider(s@),
                Err(_) => false,
            },
    {
        if same_text(s, "telegram") {
            Ok(NotifierType::Telegram)
        } else if same_text(s, "discord") {
            Ok(NotifierType::Discord)
        } else {
            Err(Error::UnknownProvider(s.to_owned()))
        }
    }
}

/// Whether a provider of that name exists.
pub open spec fn known_provider(name: Seq<char>) -> bool {
    name == "telegram"@ || name == "discord"@
}

/// The key a notifier's template is stored under: its id, the server's id,
/// the owner's id and the provider's name, joined by dots.
pub open spec fn notifier_key_text(notifier: Notifier) -> Seq<char> {
    decimal(notifier.id as int) + seq!['.'] + decimal(notifier.server_id as int) + seq!['.']
        + decimal(notifier.user_id as int) + seq!['.'] + notifier.provider@
}

pub fn notifier_key(notifier: &Notifier) -> (key: String)
    ensures
        key@ == notifier_key_text(*notifier),
{
    proof {
        reveal_strlit(".");
    }
    let mut key = String::new();
    push_signed(&mut key, notifier.id);
    key.append(".");
    push_signed(&mut key, notifier.server_id);
    key.append(".");
    push_signed(&mut key, notifier.user_id);
    key.append(".");
    key.append(notifier.provider.as_str());
    key
}

/// What the registry keeps of one notifier. `notifier` is the transport that
/// delivers its messages.
pub struct NotifierMeta<T> {
    pub server_id: i64,
    pub notifier_key: String,
    pub notifier: T,
}

pub struct NotifierMetaView<T> {
    pub server_id: i64,
    pub notifier_key: Seq<char>,
    pub notifier: T,
}

impl<T> View for NotifierMeta<T> {
    type V = NotifierMetaView<T>;

    open spec fn view(&self) -> NotifierMetaView<T> {
        NotifierMetaView {
            server_id: self.server_id,
            notifier_key: self.notifier_key@,
            notifier: self.notifier,
        }
    }
}

/// Whether a set of ids has a member.
pub open spec fn inhabited(ids: Set<i64>) -> bool {
    exists|n: i64| ids.contains(n)
}

/// The registry as mathematics.
pub struct NotifyModel<T> {
    /// Each registered notifier, by its id.
    pub by_id: Map<i64, NotifierMetaView<T>>,
    /// For each server that has notifiers, their ids.
    pub by_server: Map<i64, Set<i64>>,
    /// The template store: the source stored under each key.
    pub templates: Map<Seq<char>, Seq<char>>,
}

impl<T> NotifyModel<T> {
    /// The two indexes agree: every registered notifier is in the set of its
    /// server, every member of a server's set is registered for that server,
    /// and no server has an empty set.
    pub open spec fn indexed(self) -> bool {
        &&& (forall|n: i64| #[trigger]
            self.by_id.contains_key(n) ==> self.by_server.contains_key(self.by_id[n].server_id)
                && self.by_server[self.by_id[n].server_id].contains(n))
        &&& (forall|s: i64, n: i64|
            self.by_server.contains_key(s) && #[trigger] self.by_server[s].contains(n)
                ==> self.by_id.contains_key(n) && self.by_id[n].server_id == s)
        &&& (forall|s: i64| #[trigger]
            self.by_server.contains_key(s) ==> exists|n: i64| self.by_server[s].contains(n))
    }

    /// Every registered notifier has a template under its key.
    pub open spec fn templated(self) -> bool {
        forall|n: i64| #[trigger]
            self.by_id.contains_key(n) ==> self.templates.contains_key(self.by_id[n].notifier_key)
    }

    /// The ids of the notifiers of a server.
    pub open spec fn notifiers_of(self, server_id: i64) -> Set<i64> {
        if self.by_server.contains_key(server_id) {
            self.by_server[server_id]
        } else {
            Set::empty()
        }
    }

    /// Who is told of an observation of a server: its notifiers where the
    /// observation is a transition, nobody where it is none.
    pub open spec fn told(self, transition: bool, server_id: i64) -> Set<i64> {
        if transition {
            self.notifiers_of(server_id)
        } else {
            Set::empty()
        }
    }

    /// The registry without the notifier `id`: it leaves both indexes, and a
    /// server whose last notifier it was leaves the second.
    pub open spec fn without(self, id: i64) -> NotifyModel<T> {
        if self.by_id.contains_key(id) {
            let server_id = self.by_id[id].server_id;
            let rest = self.notifiers_of(server_id).remove(id);
            NotifyModel {
                by_id: self.by_id.remove(id),
                by_server: if inhabited(rest) {
                    self.by_server.insert(server_id, rest)
                } else {
                    self.by_server.remove(server_id)
                },
                templates: self.templates,
            }
        } else {
            self
        }
    }

    /// The registry with the notifier `id` registered as `meta`, in place of
    /// what was registered under that id.
    pub open spec fn with(self, id: i64, meta: NotifierMetaView<T>) -> NotifyModel<T> {
        let base = self.without(id);
        NotifyModel {
            by_id: base.by_id.insert(id, meta),
            by_server: base.by_server.insert(
                meta.server_id,
                base.notifiers_of(meta.server_id).insert(id),
            ),
            templates: base.templates,
        }
    }

    /// The registry without any notifier of the server.
    pub open spec fn without_server(self, server_id: i64) -> NotifyModel<T> {
        NotifyModel {
            by_id: self.by_id.remove_keys(self.notifiers_of(server_id)),
            by_server: self.by_server.remove(server_id),
            templates: self.templates,
        }
    }

    /// The registry after an attempt to add `notifier` with the outcome of
    /// building its transport: unchanged where the provider is unknown, the
    /// transport could not be built or the template cannot be loaded.
    pub open spec fn admitted(
        self,
        notifier: Notifier,
        transport: Result<T, Error>,
    ) -> NotifyModel<T> {
        let key = notifier_key_text(notifier);
        if known_provider(notifier.provider@) && transport is Ok && loadable(
            key,
            notifier.format@,
        ) {
            let added = self.with(
                notifier.id,
                NotifierMetaView {
                    server_id: notifier.server_id,
                    notifier_key: key,
                    notifier: transport->Ok_0,
                },
            );
            NotifyModel { templates: self.templates.insert(key, notifier.format@), ..added }
        } else {
            self
        }
    }

    /// Whether such an attempt succeeds.
    pub open spec fn admits(notifier: Notifier, transport: Result<T, Error>) -> bool {
        known_provider(notifier.provider@) && transport is Ok && loadable(
            notifier_key_text(notifier),
            notifier.format@,
        )
    }

    /// The registry after loading the given rows, in order, on top of it:
    /// active rows are added, rows that are not active or cannot be added are
    /// passed over.
    pub open spec fn loaded(self, rows: Seq<(Notifier, Result<T, Error>)>) -> NotifyModel<T>
        decreases rows.len(),
    {
        if rows.len() == 0 {
            self
        } else {
            let before = self.loaded(rows.drop_last());
            let row = rows.last();
            if row.0.active {
                before.admitted(row.0, row.1)
            } else {
                before
            }
        }
    }

    /// The registry emptied of notifiers; the template store stays.
    pub open spec fn cleared(self) -> NotifyModel<T> {
        NotifyModel { by_id: Map::empty(), by_server: Map::empty(), templates: self.templates }
    }
}

/// A row that startup passed over, and why.
#[derive(Debug)]
pub struct Skipped {
    pub notifier_id: i64,
    pub error: Error,
}

/// A message for one notifier: the transport to send it through, and the
/// rendered text or the reason it could not be rendered.
pub struct Dispatch<'a, T> {
    pub notifier_id: i64,
    pub notifier: &'a T,
    pub message: Result<String, Error>,
}

/// The registry of notifiers. `T` is the transport a notifier delivers
/// through.
pub struct NotifyManager<T> {
    by_id: BTreeMap<i64, NotifierMeta<T>>,
    by_server: HashMap<i64, BTreeSet<i64>>,
    formatter: HJSFormatter,
}

impl<T> View for NotifyManager<T> {
    type V = NotifyModel<T>;

    closed spec fn view(&self) -> NotifyModel<T> {
        NotifyModel {
            by_id: Map::new(|n: i64| self.by_id@.contains_key(n), |n: i64| self.by_id@[n]@),
            by_server: Map::new(
                |s: i64| self.by_server@.contains_key(s),
                |s: i64| self.by_server@[s]@,
            ),
            templates: self.formatter.templates(),
        }
    }
}

impl<T> NotifyManager<T> {
    /// The registry is well formed: its indexes agree, every notifier has a
    /// template, and the template store is well formed.
    pub closed spec fn wf(&self) -> bool {
        &&& self@.indexed()
        &&& self@.templated()
        &&& self.formatter.wf()
    }

    /// A well-formed registry has agreeing indexes and a template for every
    /// notifier.
    pub proof fn lemma_wf(&self)
        requires
            self.wf(),
        ensures
            self@.indexed(),
            self@.templated(),
    {}

    /// An empty registry.
    pub fn new() -> (manager: Self)
        ensures
            manager.wf(),
            manager@.by_id == Map::<i64, NotifierMetaView<T>>::empty(),
            manager@.by_server == Map::<i64, Set<i64>>::empty(),
            manager@.templates == Map::<Seq<char>, Seq<char>>::empty(),
    {
        let manager = NotifyManager {
            by_id: BTreeMap::new(),
            by_server: HashMap::new(),
            formatter: HJSFormatter::new(),
        };
        manager
    }

    /// Takes the notifier `id` out of both indexes.
    fn unlink(&mut self, notifier_id: i64)
        requires
            old(self).wf(),
        ensures
            final(self).wf(),
            final(self)@ == old(self)@.without(notifier_id),
    {
        let ghost before = self@;
        match self.by_id.remove(&notifier_id) {
            Some(meta) => {
                let server_id = meta.server_id;
                match self.by_server.remove(&server_id) {
                    Some(ids) => {
                        let mut ids = ids;
                        ids.remove(&notifier_id);
                        let ghost rest = before.notifiers_of(server_id).remove(notifier_id);
                        if !ids.is_empty() {
                            self.by_server.insert(server_id, ids);
                            assert(self@.by_server =~= before.by_server.insert(server_id, rest));
                        } else {
                            assert(self@.by_server =~= before.by_server.remove(server_id));
                        }
                    },
                    None => {},
                }
                assert(self@.by_id =~= before.by_id.remove(notifier_id));
                proof {
                    lemma_without_keeps_shape(before, notifier_id);
                }
            },
            None => {
                assert(self@.by_id =~= before.by_id);
            },
        }
    }

    /// Adds a notifier, given the outcome of building its transport. The
    /// provider is resolved first, then the transport is looked at, then the
    /// template is compiled and stored under the notifier's key; only then
    /// does the notifier enter both indexes, in place of any notifier that
    /// had its id. A failure at any step leaves the registry as it was.
    pub fn add(&mut self, notifier: &Notifier, transport: Result<T, Error>) -> (outcome: Result<
        (),
        Error,
    >)
        requires
            old(self).wf(),
        ensures
            final(self).wf(),
            final(self)@ == old(self)@.admitted(*notifier, transport),
            outcome is Ok == NotifyModel::<T>::admits(*notifier, transport),
            !known_provider(notifier.provider@) ==> (outcome matches Err(
                Error::UnknownProvider(given),
            ) && given@ == notifier.provider@),
            known_provider(notifier.provider@) && transport is Err ==> outcome == Err::<(), Error>(
                transport->Err_0,
            ),
            known_provider(notifier.provider@) && transport is Ok && outcome is Err ==> (
            if calls_template(notifier.format@) {
                outcome matches Err(Error::TemplateCall)
            } else {
                outcome matches Err(Error::TemplateErr(_))
            }),
    {
        match NotifierType::from_str(notifier.provider.as_str()) {
            Ok(_) => {},
            Err(e) => {
                return Err(e);
            },
        }
        let transport = match transport {
            Ok(t) => t,
            Err(e) => {
                return Err(e);
            },
        };
        let key = notifier_key(notifier);
        match self.formatter.load_format(key.as_str(), notifier.format.as_str()) {
            Ok(()) => {},
            Err(e) => {
                return Err(e);
            },
        }
        let ghost loaded = self@;
        assert(loaded.by_id =~= old(self)@.by_id);
        assert(loaded.by_server =~= old(self)@.by_server);
        self.unlink(notifier.id);
        let ghost base = self@;
        let server_id = notifier.server_id;
        let ghost meta = NotifierMetaView {
            server_id,
            notifier_key: key@,
            notifier: transport,
        };
        self.by_id.insert(
            notifier.id,
            NotifierMeta { server_id, notifier_key: key, notifier: transport },
        );
        let mut ids = match self.by_server.remove(&server_id) {
            Some(ids) => ids,
            None => BTreeSet::new(),
        };
        ids.insert(notifier.id);
        self.by_server.insert(server_id, ids);
        assert(self@.by_id =~= base.by_id.insert(notifier.id, meta));
        assert(self@.by_server =~= base.by_server.insert(
            server_id,
            base.notifiers_of(server_id).insert(notifier.id),
        ));
        proof {
            lemma_without_keeps_shape(loaded, notifier.id);
            lemma_with_keeps_shape(loaded, notifier.id, meta);
        }
        Ok(())
    }

    /// Takes a notifier out of the registry. Never fails; an id that is not
    /// registered changes nothing.
    pub fn remove_by_nid(&mut self, notifier_id: i64) -> (outcome: Result<(), Error>)
        requires
            old(self).wf(),
        ensures
            outcome is Ok,
            final(self).wf(),
            final(self)@ == old(self)@.without(notifier_id),
    {
        self.unlink(notifier_id);
        Ok(())
    }

    /// Takes every notifier of a server out of the registry. Never fails.
    pub fn remove_by_sid(&mut self, server_id: i64) -> (outcome: Result<(), Error>)
        requires
            old(self).wf(),
        ensures
            outcome is Ok,
            final(self).wf(),
            final(self)@ == old(self)@.without_server(server_id),
    {
        let ghost before = self@;
        match self.by_server.remove(&server_id) {
            Some(members) => {
                let ids = ids_of(&members);
                let mut i: usize = 0;
                while i < ids.len()
                    invariant
                        i <= ids.len(),
                        ids@.to_set() == before.notifiers_of(server_id),
                        self@.by_id == before.by_id.remove_keys(ids@.take(i as int).to_set()),
                        self@.by_server == before.by_server.remove(server_id),
                        self@.templates == before.templates,
                        self.by_server@ == old(self).by_server@.remove(server_id),
                        self.formatter.wf(),
                    decreases ids.len() - i,
                {
                    let ghost so_far = self@.by_id;
                    self.by_id.remove(&ids[i]);
                    assert(self@.by_id =~= so_far.remove(ids@[i as int]));
                    proof {
                        let prev = ids@.take(i as int);
                        let next = ids@.take(i + 1);
                        let id = ids@[i as int];
                        assert forall|x: i64| next.to_set().contains(x) <==> prev.to_set().insert(
                            id,
                        ).contains(x) by {
                            if prev.contains(x) {
                                let k = choose|k: int| 0 <= k < prev.len() && prev[k] == x;
                                assert(next[k] == x);
                            }
                            if x == id {
                                assert(next[prev.len() as int] == x);
                            }
                        }
                    }
                    i = i + 1;
                }
                assert(ids@.take(i as int) =~= ids@);
            },
            None => {
                assert(self@.by_id =~= before.by_id.remove_keys(before.notifiers_of(server_id)));
                assert(self@.by_server =~= before.by_server.remove(server_id));
            },
        }
        proof {
            lemma_without_server_keeps_shape(before, server_id);
        }
        Ok(())
    }

    /// Empties the registry and loads the given rows, each with the outcome of
    /// building its transport. Rows that are not active are passed over in
    /// silence; rows that cannot be added are passed over and reported.
    pub fn extend_from_db(&mut self, rows: Vec<(Notifier, Result<T, Error>)>) -> (skipped: Vec<
        Skipped,
    >)
        requires
            old(self).wf(),
        ensures
            final(self).wf(),
            final(self)@ == old(self)@.cleared().loaded(rows@),
            skipped@.len() == refused_rows(rows@).len(),
            forall|i: int|
                0 <= i < skipped@.len() ==> refusal(
                    refused_rows(rows@)[i],
                    #[trigger] skipped@[i],
                ),
    {
        let ghost before = self@;
        self.by_id.clear();
        self.by_server.clear();
        assert(self@.by_id =~= before.cleared().by_id);
        assert(self@.by_server =~= before.cleared().by_server);
        let mut skipped: Vec<Skipped> = Vec::new();
        let mut rows = rows;
        let ghost all = rows@;
        let mut pending: Vec<(Notifier, Result<T, Error>)> = Vec::new();
        while rows.len() > 0
            invariant
                rows@.len() + pending@.len() == all.len(),
                forall|i: int| 0 <= i < rows@.len() ==> rows@[i] == all[i],
                forall|i: int|
                    0 <= i < pending@.len() ==> pending@[i] == all[all.len() - 1 - i],
            decreases rows.len(),
        {
            let row = rows.pop().unwrap();
            pending.push(row);
        }
        let ghost n = all.len() as int;
        while pending.len() > 0
            invariant
                n == all.len(),
                pending@.len() <= n,
                forall|i: int|
                    0 <= i < pending@.len() ==> pending@[i] == all[all.len() - 1 - i],
                self.wf(),
                self@ == before.cleared().loaded(all.take(n - pending@.len())),
                skipped@.len() == refused_rows(all.take(n - pending@.len())).len(),
                forall|i: int|
                    0 <= i < skipped@.len() ==> refusal(
                        refused_rows(all.take(n - pending@.len()))[i],
                        #[trigger] skipped@[i],
                    ),
            decreases pending.len(),
        {
            let ghost done = n - pending@.len();
            let row = pending.pop().unwrap();
            proof {
                assert(all.take(done + 1).drop_last() =~= all.take(done));
            }
            let (notifier, transport) = row;
            if notifier.active {
                match self.add(&notifier, transport) {
                    Ok(()) => {},
                    Err(error) => {
                        skipped.push(Skipped { notifier_id: notifier.id, error });
                    },
                }
            }
        }
        assert(all.take(n) =~= all);
        skipped
    }

    /// The notifiers of a server, in ascending order of their ids.
    pub fn get_by_sid(&self, server_id: i64) -> (found: Vec<(i64, &NotifierMeta<T>)>)
        requires
            self.wf(),
        ensures
            ascending(found_ids(found@)),
            found_ids(found@).to_set()
                == self@.notifiers_of(server_id),
            forall|i: int|
                0 <= i < found@.len() ==> self@.by_id.contains_key((#[trigger] found@[i]).0)
                    && found@[i].1@ == self@.by_id[found@[i].0],
    {
        let mut found: Vec<(i64, &NotifierMeta<T>)> = Vec::new();
        match self.by_server.get(&server_id) {
            Some(members) => {
                let ids = ids_of(members);
                let mut i: usize = 0;
                while i < ids.len()
                    invariant
                        i <= ids.len(),
                        self.wf(),
                        self.by_server@.contains_key(server_id),
                        ids@.to_set() == self.by_server@[server_id]@,
                        found@.len() == i,
                        forall|k: int| 0 <= k < i ==> (#[trigger] found@[k]).0 == ids@[k],
                        forall|k: int|
                            0 <= k < found@.len() ==> self@.by_id.contains_key(
                                (#[trigger] found@[k]).0,
                            ) && found@[k].1@ == self@.by_id[found@[k].0],
                    decreases ids.len() - i,
                {
                    let id = ids[i];
                    assert(self@.by_server[server_id].contains(id));
                    match self.by_id.get(&id) {
                        Some(meta) => {
                            found.push((id, meta));
                        },
                        None => {},
                    }
                    i = i + 1;
                }
                assert(found_ids(found@) =~= ids@);
            },
            None => {},
        }
        found
    }

    /// Renders, for every notifier of the server in ascending order of ids,
    /// the message that tells of the log line. A notifier whose template
    /// cannot be rendered gets the error in place of the text; the others are
    /// not affected.
    pub fn notify<'a>(&'a self, server_id: i64, line: &ServerLogLine) -> (dispatches: Vec<
        Dispatch<'a, T>,
    >)
        requires
            self.wf(),
        ensures
            ascending(dispatch_ids(dispatches@)),
            dispatch_ids(dispatches@).to_set()
                == self@.notifiers_of(server_id),
            forall|i: int|
                0 <= i < dispatches@.len() ==> {
                    let d = #[trigger] dispatches@[i];
                    &&& self@.by_id.contains_key(d.notifier_id)
                    &&& *d.notifier == self@.by_id[d.notifier_id].notifier
                    &&& message_for(
                        self@.templates,
                        self@.by_id[d.notifier_id].notifier_key,
                        *line,
                        d.message,
                    )
                },
    {
        let found = self.get_by_sid(server_id);
        let mut dispatches: Vec<Dispatch<'a, T>> = Vec::new();
        let mut i: usize = 0;
        while i < found.len()
            invariant
                i <= found.len(),
                self.wf(),
                dispatches@.len() == i,
                forall|k: int|
                    0 <= k < i ==> (#[trigger] dispatches@[k]).notifier_id == found@[k].0,
                forall|k: int|
                    0 <= k < found@.len() ==> self@.by_id.contains_key((#[trigger] found@[k]).0)
                        && found@[k].1@ == self@.by_id[found@[k].0],
                forall|k: int|
                    0 <= k < dispatches@.len() ==> {
                        let d = #[trigger] dispatches@[k];
                        &&& self@.by_id.contains_key(d.notifier_id)
                        &&& *d.notifier == self@.by_id[d.notifier_id].notifier
                        &&& message_for(
                            self@.templates,
                            self@.by_id[d.notifier_id].notifier_key,
                            *line,
                            d.message,
                        )
                    },
            decreases found.len() - i,
        {
            let (notifier_id, meta) = found[i];
            let message = self.formatter.format(meta.notifier_key.as_str(), line);
            dispatches.push(Dispatch { notifier_id, notifier: &meta.notifier, message });
            i = i + 1;
        }
        assert(dispatch_ids(dispatches@) =~= found_ids(found@));
        dispatches
    }

    /// The round of messages an observation gives rise to, once its log row
    /// is written: where the observation is a transition, one message for
    /// every notifier of the server the line is about, as `notify` renders
    /// them; where it is none, no message at all.
    pub fn announce<'a>(&'a self, transition: bool, line: &ServerLogLine) -> (dispatches: Vec<
        Dispatch<'a, T>,
    >)
        requires
            self.wf(),
        ensures
            ascending(dispatch_ids(dispatches@)),
            dispatch_ids(dispatches@).to_set() == self@.told(transition, line.server.id),
            forall|i: int|
                0 <= i < dispatches@.len() ==> {
                    let d = #[trigger] dispatches@[i];
                    &&& self@.by_id.contains_key(d.notifier_id)
                    &&& *d.notifier == self@.by_id[d.notifier_id].notifier
                    &&& message_for(
                        self@.templates,
                        self@.by_id[d.notifier_id].notifier_key,
                        *line,
                        d.message,
                    )
                },
    {
        if transition {
            self.notify(line.server.id, line)
        } else {
            let dispatches: Vec<Dispatch<'a, T>> = Vec::new();
            assert(dispatch_ids(dispatches@).to_set() =~= Set::<i64>::empty());
            dispatches
        }
    }

    /// Whether a notifier with this id is registered.
    pub fn contains(&self, notifier_id: i64) -> (present: bool)
        ensures
            present == self@.by_id.contains_key(notifier_id),
    {
        self.by_id.contains_key(&notifier_id)
    }

    /// How many notifiers are registered.
    pub fn len(&self) -> (count: usize)
        ensures
            count == self@.by_id.dom().len(),
    {
        assert(self@.by_id.dom() =~= self.by_id@.dom());
        self.by_id.len()
    }
}

/// The ids of the notifiers found, in order.
pub open spec fn found_ids<T>(found: Seq<(i64, &NotifierMeta<T>)>) -> Seq<i64> {
    Seq::new(found.len(), |i: int| found[i].0)
}

/// The ids of the notifiers the messages are for, in order.
pub open spec fn dispatch_ids<T>(dispatches: Seq<Dispatch<'_, T>>) -> Seq<i64> {
    Seq::new(dispatches.len(), |i: int| dispatches[i].notifier_id)
}

/// What it means for `message` to be the message of the template under `key`
/// for the log line: the text `handlebars` renders in strict mode, or a
/// rendering error where it renders none.
pub open spec fn message_for(
    templates: Map<Seq<char>, Seq<char>>,
    key: Seq<char>,
    line: ServerLogLine,
    message: Result<String, Error>,
) -> bool {
    match message {
        Ok(text) => formatted(templates, key, line) == Some(text@),
        Err(e) => e is FormatterErr && formatted(templates, key, line) is None,
    }
}

/// The active rows that cannot be added, in order.
pub open spec fn refused_rows<T>(rows: Seq<(Notifier, Result<T, Error>)>) -> Seq<
    (Notifier, Result<T, Error>),
>
    decreases rows.len(),
{
    if rows.len() == 0 {
        Seq::empty()
    } else {
        let row = rows.last();
        if row.0.active && !NotifyModel::<T>::admits(row.0, row.1) {
            refused_rows(rows.drop_last()).push(row)
        } else {
            refused_rows(rows.drop_last())
        }
    }
}

/// What is reported of a row that could not be added: its id, and the first
/// thing that stood in the way, which is an unknown provider, else the error
/// of building the transport, else a template that calls another template,
/// else a template that does not compile.
pub open spec fn refusal<T>(row: (Notifier, Result<T, Error>), skipped: Skipped) -> bool {
    &&& skipped.notifier_id == row.0.id
    &&& if !known_provider(row.0.provider@) {
        skipped.error matches Error::UnknownProvider(given) && given@ == row.0.provider@
    } else if row.1 is Err {
        skipped.error == row.1->Err_0
    } else if calls_template(row.0.format@) {
        skipped.error is TemplateCall
    } else {
        skipped.error is TemplateErr
    }
}

/// The outcome of a round of deliveries: the first failure, in the order of
/// the deliveries, or success where none failed.
pub fn first_error(outcomes: Vec<Result<(), Error>>) -> (outcome: Result<(), Error>)
    ensures
        match outcome {
            Ok(()) => forall|i: int| 0 <= i < outcomes@.len() ==> outcomes@[i] is Ok,
            Err(e) => exists|i: int|
                0 <= i < outcomes@.len() && outcomes@[i] == Err::<(), Error>(e) && forall|j: int|
                    0 <= j < i ==> outcomes@[j] is Ok,
        },
{
    let mut outcomes = outcomes;
    let ghost all = outcomes@;
    let mut first: Result<(), Error> = Ok(());
    while outcomes.len() > 0
        invariant
            outcomes@.len() <= all.len(),
            outcomes@ == all.take(outcomes@.len() as int),
            match first {
                Ok(()) => forall|i: int| outcomes@.len() <= i < all.len() ==> all[i] is Ok,
                Err(e) => exists|i: int|
                    outcomes@.len() <= i < all.len() && all[i] == Err::<(), Error>(e)
                        && forall|j: int| outcomes@.len() <= j < i ==> all[j] is Ok,
            },
        decreases outcomes.len(),
    {
        let last = outcomes.pop().unwrap();
        match last {
            Ok(()) => {},
            Err(e) => {
                first = Err(e);
            },
        }
    }
    first
}

/// Taking a notifier out keeps the indexes in agreement.
pub proof fn lemma_without_keeps_shape<T>(model: NotifyModel<T>, id: i64)
    requires
        model.indexed(),
    ensures
        model.without(id).indexed(),
        model.templated() ==> model.without(id).templated(),
        !model.without(id).by_id.contains_key(id),
{
    let after = model.without(id);
    if model.by_id.contains_key(id) {
        let server_id = model.by_id[id].server_id;
        let rest = model.notifiers_of(server_id).remove(id);
        assert forall|s: i64| #[trigger] after.by_server.contains_key(s) implies exists|n: i64|
            after.by_server[s].contains(n) by {
            if s != server_id {
                let n = choose|n: i64| model.by_server[s].contains(n);
                assert(after.by_server[s].contains(n));
            } else {
                let n = choose|n: i64| rest.contains(n);
                assert(after.by_server[s].contains(n));
            }
        }
        assert forall|n: i64| #[trigger]
            after.by_id.contains_key(n) implies after.by_server.contains_key(
            after.by_id[n].server_id,
        ) && after.by_server[after.by_id[n].server_id].contains(n) by {
            assert(model.by_server[model.by_id[n].server_id].contains(n));
        }
    }
}

/// Registering a notifier keeps the indexes in agreement.
pub proof fn lemma_with_keeps_shape<T>(model: NotifyModel<T>, id: i64, meta: NotifierMetaView<T>)
    requires
        model.indexed(),
    ensures
        model.with(id, meta).indexed(),
        model.with(id, meta).by_id.contains_key(id),
        model.with(id, meta).by_id[id] == meta,
{
    lemma_without_keeps_shape(model, id);
    let base = model.without(id);
    let after = model.with(id, meta);
    assert forall|s: i64| #[trigger] after.by_server.contains_key(s) implies exists|n: i64|
        after.by_server[s].contains(n) by {
        if s == meta.server_id {
            assert(after.by_server[s].contains(id));
        } else {
            assert(base.by_server.contains_key(s));
            let n = choose|n: i64| base.by_server[s].contains(n);
            assert(after.by_server[s].contains(n));
        }
    }
}

/// Taking all notifiers of a server out keeps the indexes in agreement.
pub proof fn lemma_without_server_keeps_shape<T>(model: NotifyModel<T>, server_id: i64)
    requires
        model.indexed(),
    ensures
        model.without_server(server_id).indexed(),
        model.templated() ==> model.without_server(server_id).templated(),
        model.without_server(server_id).notifiers_of(server_id) == Set::<i64>::empty(),
{
    let after = model.without_server(server_id);
    assert forall|s: i64| #[trigger] after.by_server.contains_key(s) implies exists|n: i64|
        after.by_server[s].contains(n) by {
        let n = choose|n: i64| model.by_server[s].contains(n);
        assert(after.by_server[s].contains(n));
    }
    assert forall|n: i64| #[trigger]
        after.by_id.contains_key(n) implies after.by_server.contains_key(
        after.by_id[n].server_id,
    ) && after.by_server[after.by_id[n].server_id].contains(n) by {
        assert(model.by_server[model.by_id[n].server_id].contains(n));
    }
}

/// Adding a notifier whose id is not registered and then removing it by that
/// id leaves both indexes exactly as they were.
pub proof fn lemma_add_then_remove<T>(
    model: NotifyModel<T>,
    notifier: Notifier,
    transport: Result<T, Error>,
)
    requires
        model.indexed(),
        !model.by_id.contains_key(notifier.id),
    ensures
        model.admitted(notifier, transport).without(notifier.id).by_id == model.by_id,
        model.admitted(notifier, transport).without(notifier.id).by_server == model.by_server,
{
    let added = model.admitted(notifier, transport);
    if NotifyModel::<T>::admits(notifier, transport) {
        let server_id = notifier.server_id;
        let rest = added.notifiers_of(server_id).remove(notifier.id);
        assert(rest =~= model.notifiers_of(server_id));
        if model.by_server.contains_key(server_id) {
            let n = choose|n: i64| model.by_server[server_id].contains(n);
            assert(rest.contains(n));
        }
    }
}

/// In a registry whose indexes agree, a notifier is in the set of a server
/// exactly when it is registered for that server.
pub proof fn lemma_index_agreement<T>(model: NotifyModel<T>, server_id: i64, notifier_id: i64)
    requires
        model.indexed(),
    ensures
        (model.by_server.contains_key(server_id) && model.by_server[server_id].contains(
            notifier_id,
        )) <==> (model.by_id.contains_key(notifier_id) && model.by_id[notifier_id].server_id
            == server_id),
{}

/// Adding, loading and emptying keep the indexes in agreement.
pub proof fn lemma_admitted_keeps_shape<T>(
    model: NotifyModel<T>,
    notifier: Notifier,
    transport: Result<T, Error>,
)
    requires
        model.indexed(),
    ensures
        model.admitted(notifier, transport).indexed(),
        model.cleared().indexed(),
{
    if NotifyModel::<T>::admits(notifier, transport) {
        let meta = NotifierMetaView {
            server_id: notifier.server_id,
            notifier_key: notifier_key_text(notifier),
            notifier: transport->Ok_0,
        };
        lemma_with_keeps_shape(model, notifier.id, meta);
    }
}

/// In one round of messages for a server, every notifier registered for
/// that server gets exactly one message, and no other notifier gets any.
pub proof fn lemma_one_message_each<T>(
    model: NotifyModel<T>,
    server_id: i64,
    round: Seq<i64>,
    notifier_id: i64,
)
    requires
        model.indexed(),
        ascending(round),
        round.to_set() == model.notifiers_of(server_id),
    ensures
        occurrences(round, notifier_id) == (if model.by_id.contains_key(notifier_id)
            && model.by_id[notifier_id].server_id == server_id {
            1nat
        } else {
            0nat
        }),
{
    lemma_ascending_occurrences(round, notifier_id);
    lemma_index_agreement(model, server_id, notifier_id);
    assert(round.contains(notifier_id) <==> round.to_set().contains(notifier_id));
}

/// Of one observation, a notifier gets exactly one message where the
/// observation is a transition by the transition rule and the notifier is
/// registered for the server observed, and none otherwise: not where the
/// status did not change, and not where it watches another server.
pub proof fn lemma_told_on_transitions_only<T>(
    model: NotifyModel<T>,
    cache: StatusModel,
    msg: ServerMessage,
    round: Seq<i64>,
    notifier_id: i64,
)
    requires
        model.indexed(),
        ascending(round),
        round.to_set() == model.told(plan_for(cache, msg).notify, msg.server().id),
    ensures
        occurrences(round, notifier_id) == (if status_changed(
            cache,
            msg.server().id,
            msg.code(),
            msg.reason(),
        ) && model.by_id.contains_key(notifier_id) && model.by_id[notifier_id].server_id
            == msg.server().id {
            1nat
        } else {
            0nat
        }),
{
    lemma_ascending_occurrences(round, notifier_id);
    lemma_index_agreement(model, msg.server().id, notifier_id);
    assert(round.contains(notifier_id) <==> round.to_set().contains(notifier_id));
}

} // verus!
