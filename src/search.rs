//! What a search finds, stated over the machine's answers to every query.
//!
//! A [`World`] gives the reply that each query would get. Against a world,
//! each source of the plan yields at most one validated directory, and the
//! resolution is the first source, in plan order, that yields one.
use vstd::prelude::*;

use crate::plan::{admits, marker_path, plan, NameFilterView, SourceView};
use crate::platform::{Application, Hive, Platform};
use crate::query::{exists_of, names_of, text_of, QueryView, ReplyView};
use crate::text::{join, lower_of};

verus! {

/// The reply that each query gets on some machine.
pub type World = spec_fn(QueryView) -> ReplyView;

/// `a` when it holds a directory, else `b`.
pub open spec fn either(a: Option<Seq<char>>, b: Option<Seq<char>>) -> Option<Seq<char>> {
    if a is Some {
        a
    } else {
        b
    }
}

/// The registry value that holds an installation directory.
pub open spec fn install_location() -> Seq<char> {
    "InstallLocation"@
}

/// The registry value that holds a product's name.
pub open spec fn display_name() -> Seq<char> {
    "DisplayName"@
}

/// The full path of the subkey `name` of registry key `root`.
pub open spec fn entry_key(root: Seq<char>, name: Seq<char>) -> Seq<char> {
    root + "\\"@ + name
}

/// `dir` when its marker file exists in `w`.
pub open spec fn probe(w: World, p: Platform, app: Application, dir: Seq<char>) -> Option<Seq<char>> {
    if exists_of(w(QueryView::FileExists { path: marker_path(p, app, dir) })) {
        Some(dir)
    } else {
        None
    }
}

/// The `InstallLocation` of registry key `key`, when it is a valid installation.
pub open spec fn location_hit(
    w: World,
    p: Platform,
    app: Application,
    hive: Hive,
    key: Seq<char>,
) -> Option<Seq<char>> {
    match text_of(w(QueryView::RegistryValue { hive, key, value: install_location() })) {
        Some(loc) => probe(w, p, app, loc),
        None => None,
    }
}

/// What the uninstall entry `name` under `root` yields: its location, when
/// its display name passes `filter` and the location is a valid installation.
pub open spec fn entry_hit(
    w: World,
    p: Platform,
    app: Application,
    hive: Hive,
    root: Seq<char>,
    filter: NameFilterView,
    name: Seq<char>,
) -> Option<Seq<char>> {
    let key = entry_key(root, name);
    match text_of(w(QueryView::RegistryValue { hive, key, value: display_name() })) {
        Some(d) => if admits(filter, lower_of(d)) {
            location_hit(w, p, app, hive, key)
        } else {
            None
        },
        None => None,
    }
}

/// The first of the entries `names[i..]` that yields a directory.
pub open spec fn scan_hit(
    w: World,
    p: Platform,
    app: Application,
    hive: Hive,
    root: Seq<char>,
    filter: NameFilterView,
    names: Seq<Seq<char>>,
    i: nat,
) -> Option<Seq<char>>
    decreases names.len() - i,
{
    if i >= names.len() {
        None
    } else {
        either(
            entry_hit(w, p, app, hive, root, filter, names[i as int]),
            scan_hit(w, p, app, hive, root, filter, names, i + 1),
        )
    }
}

/// The validated directory that source `src` yields in `w`, if any.
pub open spec fn source_hit(w: World, p: Platform, app: Application, src: SourceView) -> Option<
    Seq<char>,
> {
    match src {
        SourceView::RegistryKey { hive, key } => location_hit(w, p, app, hive, key),
        SourceView::RegistryScan { hive, root, filter } => scan_hit(
            w,
            p,
            app,
            hive,
            root,
            filter,
            names_of(w(QueryView::RegistrySubkeys { hive, key: root })),
            0,
        ),
        SourceView::Literal { path } => probe(w, p, app, path),
        SourceView::UserFolder { base, parent, name } => match text_of(
            w(QueryView::Directory { dir: base }),
        ) {
            Some(d) => probe(w, p, app, join(join(d, parent, p), name, p)),
            None => None,
        },
    }
}

/// What source number `k` of the plan yields in `w`.
pub open spec fn hit_at(w: World, p: Platform, app: Application, k: int) -> Option<Seq<char>> {
    source_hit(w, p, app, plan(p, app)[k])
}

/// The first directory that the sources `k..` of the plan yield.
pub open spec fn hit_from(w: World, p: Platform, app: Application, k: nat) -> Option<Seq<char>>
    decreases plan(p, app).len() - k,
{
    if k >= plan(p, app).len() {
        None
    } else {
        either(hit_at(w, p, app, k as int), hit_from(w, p, app, k + 1))
    }
}

/// Where `app` is found on `p` in `w`: the first validated directory of the
/// plan, or `None`.
pub open spec fn resolution(w: World, p: Platform, app: Application) -> Option<Seq<char>> {
    hit_from(w, p, app, 0)
}

/// When no source before `k` yields anything, the search comes down to the
/// sources from `k` on.
pub proof fn lemma_skip_empty_prefix(w: World, p: Platform, app: Application, k: nat)
    requires
        k <= plan(p, app).len(),
        forall|j: int| 0 <= j < k ==> #[trigger] hit_at(w, p, app, j) is None,
    ensures
        resolution(w, p, app) == hit_from(w, p, app, k),
    decreases k,
{
    if k > 0 {
        let j = (k - 1) as nat;
        assert(hit_at(w, p, app, j as int) is None);
        lemma_skip_empty_prefix(w, p, app, j);
    }
}

/// The first source that yields a directory decides the search: a directory
/// that a later source would also yield is never the result.
pub proof fn lemma_first_hit_wins(w: World, p: Platform, app: Application, k: nat)
    requires
        k < plan(p, app).len(),
        hit_at(w, p, app, k as int) is Some,
        forall|j: int| 0 <= j < k ==> #[trigger] hit_at(w, p, app, j) is None,
    ensures
        resolution(w, p, app) == hit_at(w, p, app, k as int),
{
    lemma_skip_empty_prefix(w, p, app, k);
}

proof fn lemma_hit_from_none(w: World, p: Platform, app: Application, k: nat)
    ensures
        hit_from(w, p, app, k) is None <==> (forall|j: int|
            k <= j < plan(p, app).len() ==> #[trigger] hit_at(w, p, app, j) is None),
    decreases plan(p, app).len() - k,
{
    if k < plan(p, app).len() {
        lemma_hit_from_none(w, p, app, k + 1);
        if hit_from(w, p, app, k) is None {
            assert forall|j: int| k <= j < plan(p, app).len() implies #[trigger] hit_at(
                w,
                p,
                app,
                j,
            ) is None by {
                if j > k {
                    assert(k + 1 <= j);
                }
            }
        }
    }
}

/// The search finds nothing exactly when no source of the plan yields a
/// validated directory.
pub proof fn lemma_nothing_found(w: World, p: Platform, app: Application)
    ensures
        resolution(w, p, app) is None <==> (forall|j: int|
            0 <= j < plan(p, app).len() ==> #[trigger] hit_at(w, p, app, j) is None),
{
    lemma_hit_from_none(w, p, app, 0);
}

/// Whatever a directory holds, the search only ever returns one whose marker
/// file exists.
pub proof fn lemma_result_is_validated(w: World, p: Platform, app: Application)
    ensures
        resolution(w, p, app) matches Some(d) ==> exists_of(
            w(QueryView::FileExists { path: marker_path(p, app, d) }),
        ),
{
    lemma_validated_from(w, p, app, 0);
}

proof fn lemma_scan_validated(
    w: World,
    p: Platform,
    app: Application,
    hive: Hive,
    root: Seq<char>,
    filter: NameFilterView,
    names: Seq<Seq<char>>,
    i: nat,
)
    ensures
        scan_hit(w, p, app, hive, root, filter, names, i) matches Some(d) ==> exists_of(
            w(QueryView::FileExists { path: marker_path(p, app, d) }),
        ),
    decreases names.len() - i,
{
    if i < names.len() {
        lemma_scan_validated(w, p, app, hive, root, filter, names, i + 1);
    }
}

proof fn lemma_validated_from(w: World, p: Platform, app: Application, k: nat)
    ensures
        hit_from(w, p, app, k) matches Some(d) ==> exists_of(
            w(QueryView::FileExists { path: marker_path(p, app, d) }),
        ),
    decreases plan(p, app).len() - k,
{
    if k < plan(p, app).len() {
        lemma_validated_from(w, p, app, k + 1);
        if let SourceView::RegistryScan { hive, root, filter } = plan(p, app)[k as int] {
            lemma_scan_validated(
                w,
                p,
                app,
                hive,
                root,
                filter,
                names_of(w(QueryView::RegistrySubkeys { hive, key: root })),
                0,
            );
        }
    }
}

/// On a platform without a plan nothing is ever found.
pub proof fn lemma_unsupported_finds_nothing(w: World, app: Application)
    ensures
        resolution(w, Platform::Unsupported, app) is None,
{
}

} // verus!
