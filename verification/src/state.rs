//! The server's directory: logical model names mapped to their serving
//! infrastructure, plus the default model name.
//!
//! Built once at process start from an ordered list of model repository
//! identifiers.  Entries that fail to parse or fail to load are skipped, not
//! fatal; only an empty input list refuses construction.  The default model
//! name is the first identifier as given — whether or not that entry loaded,
//! so a lookup of the default can come up empty and must do so gracefully.

use std::sync::Arc;
use vstd::prelude::*;

use crate::error::{ConfigError, HandlerError};
use crate::executor::{Client, DedicatedExecutor};
use crate::ext::share_arc;
use crate::queue::RequestHandler;
use crate::repo::{parse_ok, parse_repo_string, repo_part};
use crate::task::{TaskRequest, TaskResponse};

verus! {

/// What the directory files under one logical name: the client handle and
/// the executor that keeps that model's worker alive.
pub type ModelEntry<TReq, TResp, TProc> = (
    Client<TReq, TResp>,
    Arc<DedicatedExecutor<TReq, TResp, TProc>>,
);

/// The directory's backing store: name/entry pairs with pairwise distinct
/// names, looked up by first match.
pub type ModelMap<TReq, TResp, TProc> = Vec<(String, ModelEntry<TReq, TResp, TProc>)>;

/// A request handler that can be built from a model repository identifier
/// and a compute device.  The device stays abstract here: only the factory
/// implementation reads it.
pub trait HandlerFactory<D>: Sized {
    /// Parses, fetches and loads whatever the identifier names, bound to
    /// the given device.
    fn from_repo_string(repo: &str, device: &D) -> Result<Self, HandlerError>;
}

/// First-match lookup over name/entry pairs: the mathematical reading of
/// [`ModelMap`].
pub open spec fn map_lookup<V>(entries: Seq<(String, V)>, name: Seq<char>) -> Option<V>
    decreases entries.len(),
{
    if entries.len() == 0 {
        None
    } else if entries[0].0@ == name {
        Some(entries[0].1)
    } else {
        map_lookup(entries.drop_first(), name)
    }
}

/// No two entries answer to the same name.
pub open spec fn keys_unique<V>(entries: Seq<(String, V)>) -> bool {
    forall|a: int, b: int|
        #![auto]
        0 <= a < b < entries.len() ==> entries[a].0@ != entries[b].0@
}

/// Whether `k` is the logical name of one of the first `upto` input
/// identifiers that parse.
pub open spec fn key_from_inputs(repos: Seq<String>, upto: int, k: Seq<char>) -> bool {
    exists|j: int|
        #![auto]
        0 <= j < upto && parse_ok(repos[j]@) && repo_part(repos[j]@) == k
}

/// Replacing the first holder of a name changes exactly that name's lookup:
/// with a clean prefix before position `j`, every other name still finds
/// what it found before.
proof fn lemma_lookup_update<V>(entries: Seq<(String, V)>, j: int, el: (String, V), k: Seq<char>)
    requires
        0 <= j < entries.len(),
        el.0@ == entries[j].0@,
        forall|l: int| 0 <= l < j ==> entries[l].0@ != entries[j].0@,
    ensures
        map_lookup(entries.update(j, el), k) == if k == el.0@ {
            Some(el.1)
        } else {
            map_lookup(entries, k)
        },
    decreases j,
{
    let updated = entries.update(j, el);
    if j == 0 {
        assert(updated.drop_first() =~= entries.drop_first());
    } else {
        assert(updated[0] == entries[0]);
        assert(updated.drop_first() =~= entries.drop_first().update(j - 1, el));
        let rest = entries.drop_first();
        assert(forall|l: int| 0 <= l < j - 1 ==> #[trigger] rest[l].0@ != rest[j - 1].0@);
        lemma_lookup_update(entries.drop_first(), j - 1, el, k);
    }
}

/// Files one load outcome in the directory: a loaded entry is recorded
/// under its name — replacing a previous holder of that name, so the latest
/// successful load wins — and a failed load (`None`) leaves the directory
/// unchanged.  Distinctness of the filed names is preserved.
pub fn file_entry<TReq, TResp, TProc>(
    map: &mut ModelMap<TReq, TResp, TProc>,
    name: String,
    loaded: Option<ModelEntry<TReq, TResp, TProc>>,
) where TReq: TaskRequest, TResp: TaskResponse, TProc: RequestHandler<TReq, TResp>
    ensures
        loaded matches Some(e) ==> (forall|k: Seq<char>|
            #![auto]
            map_lookup(final(map)@, k) == (if k == name@ {
                Some(e)
            } else {
                map_lookup(old(map)@, k)
            })),
        loaded is None ==> final(map)@ == old(map)@,
        old(map)@.len() <= final(map)@.len() <= old(map)@.len() + 1,
        keys_unique(old(map)@) ==> keys_unique(final(map)@),
{
    let entry = match loaded {
        None => {
            return ;
        },
        Some(entry) => entry,
    };

    let mut found: Option<usize> = None;
    let mut j: usize = 0;
    while j < map.len()
        invariant_except_break
            j <= map@.len(),
            found is None,
            forall|l: int| #![auto] 0 <= l < j ==> map@[l].0@ != name@,
        ensures
            found matches Some(fj) ==> fj < map@.len() && map@[fj as int].0@ == name@ && (forall|
                l: int,
            |
                #![auto]
                0 <= l < fj ==> map@[l].0@ != name@),
            found is None ==> forall|l: int| #![auto] 0 <= l < map@.len() ==> map@[l].0@ != name@,
        decreases map@.len() - j,
    {
        if map[j].0 == name {
            found = Some(j);
            break;
        }
        j = j + 1;
    }

    let ghost prev = map@;
    let new_el = (name, entry);
    let ghost gel = new_el;
    match found {
        Some(fj) => {
            map.set(fj, new_el);
            proof {
                assert forall|k: Seq<char>| #![auto]
                    map_lookup(map@, k) == (if k == gel.0@ {
                        Some(gel.1)
                    } else {
                        map_lookup(prev, k)
                    }) by {
                    lemma_lookup_update(prev, fj as int, gel, k);
                }
                if keys_unique(prev) {
                    assert forall|a: int, b: int|
                        #![auto]
                        0 <= a < b < map@.len() implies map@[a].0@ != map@[b].0@ by {
                        assert(prev[a].0@ != prev[b].0@);
                        assert(map@[a].0@ == prev[a].0@);
                        assert(map@[b].0@ == prev[b].0@);
                    }
                }
            }
        },
        None => {
            map.insert(0, new_el);
            proof {
                assert(map@.drop_first() =~= prev);
                assert(map@[0] == gel);
                assert forall|k: Seq<char>| #![auto]
                    map_lookup(map@, k) == (if k == gel.0@ {
                        Some(gel.1)
                    } else {
                        map_lookup(prev, k)
                    }) by {
                    if k != gel.0@ {
                        assert(map_lookup(map@, k) == map_lookup(map@.drop_first(), k));
                    }
                }
                if keys_unique(prev) {
                    assert forall|a: int, b: int|
                        #![auto]
                        0 <= a < b < map@.len() implies map@[a].0@ != map@[b].0@ by {
                        if a == 0 {
                            assert(map@[b] == map@.drop_first()[b - 1]);
                            assert(prev[b - 1].0@ != gel.0@);
                        } else {
                            assert(map@[a] == map@.drop_first()[a - 1]);
                            assert(map@[b] == map@.drop_first()[b - 1]);
                            assert(prev[a - 1].0@ != prev[b - 1].0@);
                        }
                    }
                }
            }
        },
    }
}

/// A name that no input identifier parses to is never served.
///
/// Construction guarantees that every filed name is the parsed name of some
/// input identifier; this is the contrapositive a caller of a lookup leans
/// on: when the wanted name is not among the parsed inputs — the default
/// name of an unparsable identifier, say — the lookup comes up empty rather
/// than serving a stranger.
pub proof fn lemma_unknown_name_unserved<V>(entries: Seq<(String, V)>, repos: Seq<String>, k: Seq<
    char,
>)
    requires
        forall|k2: Seq<char>|
            #![auto]
            map_lookup(entries, k2) is Some ==> key_from_inputs(repos, repos.len() as int, k2),
        forall|j: int|
            #![auto]
            0 <= j < repos.len() ==> !(parse_ok(repos[j]@) && repo_part(repos[j]@) == k),
    ensures
        map_lookup(entries, k) is None,
{
    if map_lookup(entries, k) is Some {
        assert(key_from_inputs(repos, repos.len() as int, k));
        let j = choose|j: int|
            #![auto]
            0 <= j < repos.len() && parse_ok(repos[j]@) && repo_part(repos[j]@) == k;
        assert(false);
    }
}

/// The state of the server: the model directory and the default model name.
#[verifier::reject_recursive_types(TReq)]
#[verifier::reject_recursive_types(TResp)]
pub struct ServerState<TReq, TResp, TProc> where
    TReq: TaskRequest,
    TResp: TaskResponse,
    TProc: RequestHandler<TReq, TResp>,
 {
    /// Name of the model used when a caller names none: the first input
    /// identifier, as given.
    pub default_model: String,
    /// The directory itself.
    pub model_map: ModelMap<TReq, TResp, TProc>,
}

impl<TReq, TResp, TProc> ServerState<TReq, TResp, TProc> where
    TReq: TaskRequest,
    TResp: TaskResponse,
    TProc: RequestHandler<TReq, TResp> + Send + 'static,
 {
    /// Builds the directory from an ordered list of model repository
    /// identifiers.
    ///
    /// Fails exactly when the list is empty.  Otherwise each identifier, in
    /// order, is parsed into its logical name and loaded through the
    /// factory; each per-entry outcome is filed exactly as [`file_entry`]
    /// states — recorded on success, skipped on failure, the latest
    /// successful load winning a name clash.  Every name filed in the
    /// directory is the parsed name of some input identifier, and the filed
    /// names are pairwise distinct.
    pub fn new<D>(model_repos: Vec<String>, device: &D) -> (r: Result<Self, ConfigError>) where
        TProc: HandlerFactory<D>,

        ensures
            model_repos@.len() == 0 <==> r is Err,
            r matches Err(e) ==> e == ConfigError::NoModelsProvided,
            r matches Ok(s) ==> s.default_model@ == model_repos@[0]@,
            r matches Ok(s) ==> forall|k: Seq<char>|
                #![auto]
                map_lookup(s.model_map@, k) is Some ==> key_from_inputs(
                    model_repos@,
                    model_repos@.len() as int,
                    k,
                ),
            r matches Ok(s) ==> keys_unique(s.model_map@),
            r matches Ok(s) ==> s.model_map@.len() <= model_repos@.len(),
            r matches Ok(s) ==> ((forall|j: int|
                #![auto]
                0 <= j < model_repos@.len() ==> !parse_ok(model_repos@[j]@))
                ==> s.model_map@.len() == 0),
    {
        if model_repos.len() == 0 {
            return Err(ConfigError::NoModelsProvided);
        }
        let default_model = model_repos[0].clone();
        let mut model_map: ModelMap<TReq, TResp, TProc> = Vec::new();
        let mut i: usize = 0;
        while i < model_repos.len()
            invariant
                i <= model_repos@.len(),
                model_map@.len() <= i,
                keys_unique(model_map@),
                (forall|j: int| #![auto] 0 <= j < i ==> !parse_ok(model_repos@[j]@))
                    ==> model_map@.len() == 0,
                forall|k: Seq<char>|
                    #![auto]
                    map_lookup(model_map@, k) is Some ==> key_from_inputs(
                        model_repos@,
                        model_repos@.len() as int,
                        k,
                    ),
            decreases model_repos@.len() - i,
        {
            match parse_repo_string(model_repos[i].as_str()) {
                Err(_) => {},
                Ok(parts) => {
                    let loaded: Option<ModelEntry<TReq, TResp, TProc>> = match
                    TProc::from_repo_string(model_repos[i].as_str(), device) {
                        Err(_) => None,
                        Ok(handler) => {
                            match DedicatedExecutor::new(handler) {
                                Err(_) => None,
                                Ok(executor) => {
                                    let client = Client::new(&executor);
                                    Some((client, Arc::new(executor)))
                                },
                            }
                        },
                    };
                    let ghost prev = model_map@;
                    let ghost gname = parts.0@;
                    let ghost gloaded = loaded;
                    file_entry(&mut model_map, parts.0, loaded);
                    proof {
                        assert(parse_ok(model_repos@[i as int]@));
                        assert(repo_part(model_repos@[i as int]@) == gname);
                        if gloaded is Some {
                            assert forall|k: Seq<char>| #![auto]
                                map_lookup(model_map@, k) is Some implies key_from_inputs(
                                model_repos@,
                                model_repos@.len() as int,
                                k,
                            ) by {
                                if k == gname {
                                    assert(key_from_inputs(
                                        model_repos@,
                                        model_repos@.len() as int,
                                        k,
                                    ));
                                } else {
                                    assert(map_lookup(model_map@, k) == map_lookup(prev, k));
                                }
                            }
                        }
                    }
                },
            }
            i = i + 1;
        }
        Ok(ServerState { default_model, model_map })
    }

    /// Looks a logical model name up in the directory and hands back its
    /// client handle, or nothing when no model of that name was loaded.
    pub fn get(&self, name: &str) -> (r: Option<&Client<TReq, TResp>>)
        ensures
            r is Some <==> map_lookup(self.model_map@, name@) is Some,
            r matches Some(c) ==> map_lookup(self.model_map@, name@) matches Some(v) && *c == v.0,
    {
        let key: String = name.to_owned();
        proof {
            assert(self.model_map@.skip(0) =~= self.model_map@);
        }
        let mut j: usize = 0;
        while j < self.model_map.len()
            invariant
                j <= self.model_map@.len(),
                key@ == name@,
                map_lookup(self.model_map@, name@) == map_lookup(
                    self.model_map@.skip(j as int),
                    name@,
                ),
            decreases self.model_map@.len() - j,
        {
            proof {
                assert(self.model_map@.skip(j as int)[0] == self.model_map@[j as int]);
                assert(self.model_map@.skip(j as int).drop_first() =~= self.model_map@.skip(
                    j as int + 1,
                ));
            }
            if self.model_map[j].0 == key {
                return Some(&self.model_map[j].1.0);
            }
            j = j + 1;
        }
        None
    }

    /// Looks the default model up; empty exactly when the entry the default
    /// name points at never loaded.
    pub fn get_default(&self) -> (r: Option<&Client<TReq, TResp>>)
        ensures
            r is Some <==> map_lookup(self.model_map@, self.default_model@) is Some,
            r matches Some(c) ==> map_lookup(self.model_map@, self.default_model@) matches Some(v)
                && *c == v.0,
    {
        self.get(self.default_model.as_str())
    }
}

impl<TReq, TResp, TProc> Clone for ServerState<TReq, TResp, TProc> where
    TReq: TaskRequest,
    TResp: TaskResponse,
    TProc: RequestHandler<TReq, TResp>,
 {
    /// A snapshot of the directory: the same default name and, entry for
    /// entry, the same clients and the same shared executors.
    fn clone(&self) -> (r: Self)
        ensures
            r.default_model == self.default_model,
            r.model_map@ == self.model_map@,
    {
        let mut entries: ModelMap<TReq, TResp, TProc> = Vec::new();
        let mut i: usize = 0;
        while i < self.model_map.len()
            invariant
                i <= self.model_map@.len(),
                entries@ == self.model_map@.take(i as int),
            decreases self.model_map@.len() - i,
        {
            let name = self.model_map[i].0.clone();
            let client = self.model_map[i].1.0.clone();
            let executor = share_arc(&self.model_map[i].1.1);
            entries.push((name, (client, executor)));
            proof {
                assert(entries@ =~= self.model_map@.take(i as int + 1));
            }
            i = i + 1;
        }
        proof {
            assert(self.model_map@.take(self.model_map@.len() as int) =~= self.model_map@);
        }
        ServerState { default_model: self.default_model.clone(), model_map: entries }
    }
}

} // verus!
