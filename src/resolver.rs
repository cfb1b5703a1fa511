//! The resolver: a state machine that walks the search plan one query at a
//! time and stops at the first validated directory.
use vstd::prelude::*;

use crate::plan::{marker_file, marker_path, plan, search_plan, text, NameFilterView, Source, SourceView};
use crate::platform::{Application, Hive, Platform};
use crate::query::{names_of, opt_text, texts, Query, QueryView, Reply, ReplyView, Step, StepView};
use crate::search::{
    display_name, either, entry_key, hit_at, install_location, lemma_first_hit_wins,
    lemma_skip_empty_prefix, location_hit, probe, resolution, scan_hit, source_hit, World,
};
use crate::text::join_path;

verus! {

/// Where the resolver stands within the current source.
pub enum Phase {
    /// Waiting for the `InstallLocation` of a fixed registry key.
    Location,
    /// Waiting for the per-user directory of a user folder source.
    Directory,
    /// Waiting to learn whether the marker file under `candidate` exists.
    Marker { candidate: String },
    /// Waiting for the subkeys of the uninstall root being scanned.
    Subkeys,
    /// Waiting for the display name of uninstall entry `names[index]`.
    DisplayName { names: Vec<String>, index: usize },
    /// Waiting for the `InstallLocation` of uninstall entry `names[index]`.
    EntryLocation { names: Vec<String>, index: usize },
    /// Waiting to learn whether the marker file under `candidate`, the
    /// location of entry `names[index]`, exists.
    EntryMarker { names: Vec<String>, index: usize, candidate: String },
    /// The search is over.
    Done { found: Option<String> },
}

/// A search for one application on one platform, in progress.
pub struct Resolver {
    pub platform: Platform,
    pub app: Application,
    /// The search plan, highest priority first.
    pub sources: Vec<Source>,
    /// The source being tried.
    pub current: usize,
    pub phase: Phase,
}

/// The registry root and name filter of a scanning source.
pub open spec fn scan_parts(src: SourceView) -> (Hive, Seq<char>, NameFilterView) {
    match src {
        SourceView::RegistryScan { hive, root, filter } => (hive, root, filter),
        _ => (Hive::CurrentUser, Seq::empty(), NameFilterView { wanted: Seq::empty(), exclude: Seq::empty() }),
    }
}

impl Resolver {
    /// The source being tried.
    pub open spec fn source(&self) -> SourceView {
        plan(self.platform, self.app)[self.current as int]
    }

    pub open spec fn is_scan(&self) -> bool {
        self.source() is RegistryScan
    }

    /// The state is one that the resolver can be in.
    pub open spec fn wf(&self) -> bool {
        &&& self.sources@.map_values(|s: Source| s@) == plan(self.platform, self.app)
        &&& self.current <= self.sources.len()
        &&& (self.phase is Done || self.current < self.sources.len())
        &&& match self.phase {
            Phase::Location => self.source() is RegistryKey,
            Phase::Directory => self.source() is UserFolder,
            Phase::Subkeys => self.is_scan(),
            Phase::DisplayName { names, index } => self.is_scan() && index < names.len(),
            Phase::EntryLocation { names, index } => self.is_scan() && index < names.len(),
            Phase::EntryMarker { names, index, .. } => self.is_scan() && index < names.len(),
            _ => true,
        }
    }

    /// What the entries after `names[index]` and the sources after the
    /// current one yield, when the rest of the current scan is `names`.
    pub open spec fn scan_rest(&self, w: World, names: Seq<Seq<char>>, index: nat) -> Option<Seq<char>> {
        let (hive, root, filter) = scan_parts(self.source());
        scan_hit(w, self.platform, self.app, hive, root, filter, names, index)
    }

    /// The state is the one that a search on a machine answering as `w`
    /// reaches: every source before the current one yielded nothing, the
    /// part of the current source still ahead yields what the whole source
    /// yields, and a finished search holds the resolution.
    pub open spec fn agrees(&self, w: World) -> bool {
        let (p, app) = (self.platform, self.app);
        let here = source_hit(w, p, app, self.source());
        &&& forall|k: int| 0 <= k < self.current ==> #[trigger] hit_at(w, p, app, k) is None
        &&& match self.phase {
            Phase::Done { found } => opt_text(found) == resolution(w, p, app),
            Phase::Marker { candidate } => here == probe(w, p, app, candidate@),
            Phase::DisplayName { names, index } => here == self.scan_rest(w, texts(names@), index as nat),
            Phase::EntryLocation { names, index } => {
                let (hive, root, filter) = scan_parts(self.source());
                here == either(
                    location_hit(w, p, app, hive, entry_key(root, texts(names@)[index as int])),
                    self.scan_rest(w, texts(names@), (index + 1) as nat),
                )
            },
            Phase::EntryMarker { names, index, candidate } => here == either(
                probe(w, p, app, candidate@),
                self.scan_rest(w, texts(names@), (index + 1) as nat),
            ),
            _ => true,
        }
    }

    /// What the resolver asks for next, or its result once it is done.
    pub open spec fn pending(&self) -> StepView {
        let (p, app) = (self.platform, self.app);
        let (hive, root, filter) = scan_parts(self.source());
        match self.phase {
            Phase::Done { found } => StepView::Finished(opt_text(found)),
            Phase::Location => match self.source() {
                SourceView::RegistryKey { hive, key } => StepView::Ask(
                    QueryView::RegistryValue { hive, key, value: install_location() },
                ),
                _ => StepView::Finished(None),
            },
            Phase::Directory => match self.source() {
                SourceView::UserFolder { base, .. } => StepView::Ask(QueryView::Directory { dir: base }),
                _ => StepView::Finished(None),
            },
            Phase::Marker { candidate } => StepView::Ask(
                QueryView::FileExists { path: marker_path(p, app, candidate@) },
            ),
            Phase::Subkeys => StepView::Ask(QueryView::RegistrySubkeys { hive, key: root }),
            Phase::DisplayName { names, index } => StepView::Ask(
                QueryView::RegistryValue {
                    hive,
                    key: entry_key(root, texts(names@)[index as int]),
                    value: display_name(),
                },
            ),
            Phase::EntryLocation { names, index } => StepView::Ask(
                QueryView::RegistryValue {
                    hive,
                    key: entry_key(root, texts(names@)[index as int]),
                    value: install_location(),
                },
            ),
            Phase::EntryMarker { candidate, .. } => StepView::Ask(
                QueryView::FileExists { path: marker_path(p, app, candidate@) },
            ),
        }
    }

    /// The search is over.
    pub open spec fn finished(&self) -> bool {
        self.phase is Done
    }

    /// How far the state is from leaving the current source: a scan phase
    /// lies below the first query of a source, a marker check below both.
    pub open spec fn level(&self) -> nat {
        match self.phase {
            Phase::Location | Phase::Directory | Phase::Subkeys => 2,
            Phase::DisplayName { .. } | Phase::EntryLocation { .. } | Phase::EntryMarker { .. } => 1,
            _ => 0,
        }
    }

    /// The queries at most still ahead in the current scan.
    pub open spec fn scan_left(&self) -> nat {
        match self.phase {
            Phase::DisplayName { names, index } => (3 * (names.len() - index)) as nat,
            Phase::EntryLocation { names, index } => (3 * (names.len() - index) - 1) as nat,
            Phase::EntryMarker { names, index, .. } => (3 * (names.len() - index) - 2) as nat,
            _ => 0,
        }
    }
}

/// `next` lies strictly closer to the end of the search than `prev`: it is
/// finished, or at a later source, or at a lower level of the same source,
/// or with fewer scan queries left. Since the plan and every scan are
/// finite, a search that keeps moving this way ends.
pub open spec fn advances(next: Resolver, prev: Resolver) -> bool {
    ||| next.finished()
    ||| next.current > prev.current
    ||| (next.current == prev.current && next.level() < prev.level())
    ||| (next.current == prev.current && next.level() == prev.level() && next.scan_left() < prev.scan_left())
}

/// `reply` is what a machine answering as `w` gives to the query of `step`.
pub open spec fn answers(w: World, step: StepView, reply: ReplyView) -> bool {
    match step {
        StepView::Ask(q) => w(q) == reply,
        StepView::Finished(_) => true,
    }
}

/// The resolver about to try source number `k` of the plan, or finished with
/// nothing once the plan is used up.
fn enter(p: Platform, app: Application, sources: Vec<Source>, k: usize) -> (r: Resolver)
    requires
        sources@.map_values(|s: Source| s@) == plan(p, app),
        k <= sources.len(),
    ensures
        r.wf(),
        r.platform == p,
        r.app == app,
        r.current == k,
        k == sources.len() ==> r.pending() == StepView::Finished(None),
        forall|w: World|
            (forall|j: int| 0 <= j < k ==> #[trigger] hit_at(w, p, app, j) is None) ==> r.agrees(w),
{
    let ghost views = sources@.map_values(|s: Source| s@);
    if k == sources.len() {
        let r = Resolver { platform: p, app, sources, current: k, phase: Phase::Done { found: None } };
        proof {
            assert forall|w: World|
                (forall|j: int| 0 <= j < k ==> #[trigger] hit_at(w, p, app, j) is None) implies r.agrees(w) by {
                lemma_skip_empty_prefix(w, p, app, k as nat);
            }
        }
        return r;
    }
    assert(views[k as int] == sources[k as int]@);
    let phase = match &sources[k] {
        Source::RegistryKey { .. } => Phase::Location,
        Source::RegistryScan { .. } => Phase::Subkeys,
        Source::Literal { path } => Phase::Marker { candidate: path.clone() },
        Source::UserFolder { .. } => Phase::Directory,
    };
    Resolver { platform: p, app, sources, current: k, phase }
}

/// Goes on with the scan that is source number `k` at entry
/// `names[index]`, or with the next source when no entry is left.
fn resume_scan(
    p: Platform,
    app: Application,
    sources: Vec<Source>,
    k: usize,
    names: Vec<String>,
    index: usize,
) -> (r: Resolver)
    requires
        sources@.map_values(|s: Source| s@) == plan(p, app),
        k < sources.len(),
        plan(p, app)[k as int] is RegistryScan,
        index <= names.len(),
    ensures
        r.wf(),
        r.platform == p,
        r.app == app,
        r.current >= k,
        r.current == k ==> r.level() == 1 && r.scan_left() == 3 * (names.len() - index),
        forall|w: World|
            #![trigger r.agrees(w)]
            (forall|j: int| 0 <= j < k ==> #[trigger] hit_at(w, p, app, j) is None) && hit_at(w, p, app, k as int)
                == ({
                let (hive, root, filter) = scan_parts(plan(p, app)[k as int]);
                scan_hit(w, p, app, hive, root, filter, texts(names@), index as nat)
            }) ==> r.agrees(w),
{
    if index < names.len() {
        Resolver { platform: p, app, sources, current: k, phase: Phase::DisplayName { names, index } }
    } else {
        let r = enter(p, app, sources, k + 1);
        proof {
            assert forall|w: World|
                (forall|j: int| 0 <= j < k ==> #[trigger] hit_at(w, p, app, j) is None) && hit_at(w, p, app, k as int)
                    == ({
                    let (hive, root, filter) = scan_parts(plan(p, app)[k as int]);
                    scan_hit(w, p, app, hive, root, filter, texts(names@), index as nat)
                }) implies r.agrees(w) by {
                assert forall|j: int| 0 <= j < k + 1 implies #[trigger] hit_at(w, p, app, j) is None by {
                    if j < k {
                    }
                }
            }
        }
        r
    }
}

fn entry_path(root: &String, name: &String) -> (r: String)
    ensures
        r@ == entry_key(root@, name@),
{
    let mut r = root.clone();
    r.append("\\");
    r.append(name.as_str());
    r
}

fn clone_text(o: &Option<String>) -> (r: Option<String>)
    ensures
        opt_text(r) == opt_text(*o),
{
    match o {
        Some(s) => Some(s.clone()),
        None => None,
    }
}

impl Resolver {
    /// Starts the search for `app` on `p`. On a platform without a plan the
    /// resolver is finished at once, with nothing found and nothing asked.
    pub fn new(p: Platform, app: Application) -> (r: Resolver)
        ensures
            r.wf(),
            r.platform == p,
            r.app == app,
            r.current == 0,
            forall|w: World| #[trigger] r.agrees(w),
            p == Platform::Unsupported ==> r.pending() == StepView::Finished(None),
    {
        let sources = search_plan(p, app);
        assert(sources@.len() == plan(p, app).len());
        enter(p, app, sources, 0)
    }

    /// What the resolver asks for next, or its result once it is done.
    pub fn next_step(&self) -> (r: Step)
        requires
            self.wf(),
        ensures
            r@ == self.pending(),
    {
        let p = self.platform;
        let app = self.app;
        if let Phase::Done { found } = &self.phase {
            return Step::Finished(clone_text(found));
        }
        assert(self.sources@.map_values(|s: Source| s@)[self.current as int] == self.sources[self.current as int]@);
        let src = &self.sources[self.current];
        match &self.phase {
            Phase::Location => match src {
                Source::RegistryKey { hive, key } => Step::Ask(
                    Query::RegistryValue { hive: *hive, key: key.clone(), value: text("InstallLocation") },
                ),
                _ => Step::Finished(None),
            },
            Phase::Directory => match src {
                Source::UserFolder { base, .. } => Step::Ask(Query::Directory { dir: *base }),
                _ => Step::Finished(None),
            },
            Phase::Marker { candidate } => Step::Ask(
                Query::FileExists { path: marker_file(p, app, candidate.as_str()) },
            ),
            Phase::Subkeys => match src {
                Source::RegistryScan { hive, root, .. } => Step::Ask(
                    Query::RegistrySubkeys { hive: *hive, key: root.clone() },
                ),
                _ => Step::Finished(None),
            },
            Phase::DisplayName { names, index } => match src {
                Source::RegistryScan { hive, root, .. } => {
                    assert(texts(names@)[*index as int] == names[*index as int]@);
                    Step::Ask(
                        Query::RegistryValue {
                            hive: *hive,
                            key: entry_path(root, &names[*index]),
                            value: text("DisplayName"),
                        },
                    )
                },
                _ => Step::Finished(None),
            },
            Phase::EntryLocation { names, index } => match src {
                Source::RegistryScan { hive, root, .. } => {
                    assert(texts(names@)[*index as int] == names[*index as int]@);
                    Step::Ask(
                        Query::RegistryValue {
                            hive: *hive,
                            key: entry_path(root, &names[*index]),
                            value: text("InstallLocation"),
                        },
                    )
                },
                _ => Step::Finished(None),
            },
            Phase::EntryMarker { candidate, .. } => Step::Ask(
                Query::FileExists { path: marker_file(p, app, candidate.as_str()) },
            ),
            Phase::Done { .. } => Step::Finished(None),
        }
    }

    /// Takes the answer to the pending query and moves to the next state.
    /// Any reply is accepted: one of the wrong kind counts as a missing
    /// value, no subkeys, or a missing file. On a machine that answers as
    /// `w`, a state that agrees with `w` moves to one that still does, so
    /// the search ends with the resolution of `w`, and it never moves past a
    /// source that yields a directory. A finished resolver stays as it is.
    pub fn answer(self, reply: Reply) -> (next: Resolver)
        requires
            self.wf(),
        ensures
            next.wf(),
            next.platform == self.platform,
            next.app == self.app,
            next.current >= self.current,
            self.finished() ==> next.pending() == self.pending(),
            !self.finished() ==> advances(next, self),
            forall|w: World|
                #![trigger next.agrees(w)]
                self.agrees(w) && answers(w, self.pending(), reply@) ==> next.agrees(w),
    {
        let ghost old_self = self;
        let ghost rv = reply@;
        let ghost step = self.pending();
        let Resolver { platform: p, app, sources, current: k, phase } = self;
        if let Phase::Done { found } = phase {
            return Resolver { platform: p, app, sources, current: k, phase: Phase::Done { found } };
        }
        assert(sources@.map_values(|s: Source| s@)[k as int] == sources[k as int]@);
        match phase {
            Phase::Location => match reply {
                Reply::Text(Some(loc)) => Resolver { platform: p, app, sources, current: k, phase: Phase::Marker { candidate: loc } },
                _ => {
                    let r = enter(p, app, sources, k + 1);
                    proof {
                        assert forall|w: World| old_self.agrees(w) && answers(w, step, rv) implies r.agrees(w) by {
                            assert forall|j: int| 0 <= j < k + 1 implies #[trigger] hit_at(w, p, app, j) is None by {
                                if j < k {
                                }
                            }
                        }
                    }
                    r
                },
            },
            Phase::Directory => match reply {
                Reply::Text(Some(d)) => {
                    let candidate = match &sources[k] {
                        Source::UserFolder { parent, name, .. } => {
                            let under = join_path(d.as_str(), parent.as_str(), p);
                            join_path(under.as_str(), name.as_str(), p)
                        },
                        _ => d,
                    };
                    Resolver { platform: p, app, sources, current: k, phase: Phase::Marker { candidate } }
                },
                _ => {
                    let r = enter(p, app, sources, k + 1);
                    proof {
                        assert forall|w: World| old_self.agrees(w) && answers(w, step, rv) implies r.agrees(w) by {
                            assert forall|j: int| 0 <= j < k + 1 implies #[trigger] hit_at(w, p, app, j) is None by {
                                if j < k {
                                }
                            }
                        }
                    }
                    r
                },
            },
            Phase::Marker { candidate } => match reply {
                Reply::Exists(true) => {
                    let r = Resolver { platform: p, app, sources, current: k, phase: Phase::Done { found: Some(candidate) } };
                    proof {
                        assert forall|w: World| old_self.agrees(w) && answers(w, step, rv) implies r.agrees(w) by {
                            lemma_first_hit_wins(w, p, app, k as nat);
                        }
                    }
                    r
                },
                _ => {
                    let r = enter(p, app, sources, k + 1);
                    proof {
                        assert forall|w: World| old_self.agrees(w) && answers(w, step, rv) implies r.agrees(w) by {
                            assert forall|j: int| 0 <= j < k + 1 implies #[trigger] hit_at(w, p, app, j) is None by {
                                if j < k {
                                }
                            }
                        }
                    }
                    r
                },
            },
            Phase::Subkeys => {
                let names = match reply {
                    Reply::Names(names) => names,
                    _ => Vec::new(),
                };
                let r = resume_scan(p, app, sources, k, names, 0);
                proof {
                    assert forall|w: World| old_self.agrees(w) && answers(w, step, rv) implies r.agrees(w) by {
                        assert(names_of(rv) == texts(names@));
                    }
                }
                r
            },
            Phase::DisplayName { names, index } => {
                let keep = match reply {
                    Reply::Text(Some(d)) => match &sources[k] {
                        Source::RegistryScan { filter, .. } => filter.admits(d.as_str()),
                        _ => false,
                    },
                    _ => false,
                };
                if keep {
                    Resolver { platform: p, app, sources, current: k, phase: Phase::EntryLocation { names, index } }
                } else {
                    let r = resume_scan(p, app, sources, k, names, index + 1);
                    r
                }
            },
            Phase::EntryLocation { names, index } => match reply {
                Reply::Text(Some(loc)) => Resolver {
                    platform: p,
                    app,
                    sources,
                    current: k,
                    phase: Phase::EntryMarker { names, index, candidate: loc },
                },
                _ => resume_scan(p, app, sources, k, names, index + 1),
            },
            Phase::EntryMarker { names, index, candidate } => match reply {
                Reply::Exists(true) => {
                    let r = Resolver { platform: p, app, sources, current: k, phase: Phase::Done { found: Some(candidate) } };
                    proof {
                        assert forall|w: World| old_self.agrees(w) && answers(w, step, rv) implies r.agrees(w) by {
                            lemma_first_hit_wins(w, p, app, k as nat);
                        }
                    }
                    r
                },
                _ => resume_scan(p, app, sources, k, names, index + 1),
            },
            Phase::Done { found } => Resolver { platform: p, app, sources, current: k, phase: Phase::Done { found } },
        }
    }
}

/// A finished search that agrees with a machine holds what the search
/// finds there: the first validated directory of the plan, or `None`.
pub proof fn lemma_finished_is_resolution(r: Resolver, w: World)
    requires
        r.wf(),
        r.agrees(w),
        r.finished(),
    ensures
        r.pending() == StepView::Finished(resolution(w, r.platform, r.app)),
{
}

/// A search never gets past a source that yields a directory: while it
/// agrees with a machine, every source it has moved beyond yielded nothing
/// there, so no source after the first hit is ever asked about.
pub proof fn lemma_never_past_a_hit(r: Resolver, w: World, j: int)
    requires
        r.wf(),
        r.agrees(w),
        0 <= j < plan(r.platform, r.app).len(),
        hit_at(w, r.platform, r.app, j) is Some,
    ensures
        j >= r.current,
{
}

} // verus!
