use vstd::prelude::*;
use vstd::string::StringExecFns;
use crate::document::{
    DepKey, doc_deps, doc_item_texts, edit_version, simple_key, nested_key, version_places,
    version_slot,
};
use crate::errors::Error;
use toml_edit::DocumentMut;

verus! {

/// One applied upgrade, as the tool reports it: which dependency group it
/// happened in, what was recorded before, and what is recorded now.
pub struct Change {
    pub group: String,
    pub old_version: String,
    pub new_version: String,
}

pub type ChangeView = (Seq<char>, Seq<char>, Seq<char>);

pub open spec fn change_views(cs: Seq<Change>) -> Seq<ChangeView> {
    cs.map_values(|c: Change| (c.group@, c.old_version@, c.new_version@))
}

/// The document's editable fields after the version recorded for
/// `package` under `group` has been replaced by `v`; a document without a
/// located field is unchanged.
pub open spec fn upgraded(
    m: Map<DepKey, Seq<char>>,
    group: Seq<char>,
    package: Seq<char>,
    v: Seq<char>,
) -> Map<DepKey, Seq<char>> {
    match version_slot(m, group, package) {
        Some(slot) => m.insert(slot, v),
        None => m,
    }
}

/// What replacing the version for `package` under `group` by `v` reports:
/// one change when a version was located and differed from `v`, and
/// nothing otherwise.
pub open spec fn group_change(
    m: Map<DepKey, Seq<char>>,
    group: Seq<char>,
    package: Seq<char>,
    v: Seq<char>,
) -> Seq<ChangeView> {
    match version_slot(m, group, package) {
        Some(slot) => if m[slot] != v {
            seq![(group, m[slot], v)]
        } else {
            Seq::empty()
        },
        None => Seq::empty(),
    }
}

fn upgrade_group(
    doc: &mut DocumentMut,
    changes: &mut Vec<Change>,
    group: &str,
    package: &str,
    newest: &str,
)
    ensures
        doc_deps(*final(doc)) == upgraded(doc_deps(*old(doc)), group@, package@, newest@),
        change_views(final(changes)@) == change_views(old(changes)@) + group_change(
            doc_deps(*old(doc)),
            group@,
            package@,
            newest@,
        ),
        doc_item_texts(*final(doc)).remove_keys(version_places(group@, package@))
            == doc_item_texts(*old(doc)).remove_keys(version_places(group@, package@)),
{
    let ghost m0 = doc_deps(*doc);
    if let Some(prev) = edit_version(doc, group, package, newest) {
        let newest_s = newest.to_owned();
        if prev == newest_s {
            proof {
                assert(change_views(changes@) =~= change_views(changes@) + Seq::<
                    ChangeView,
                >::empty());
            }
        } else {
            let rec = Change { group: group.to_owned(), old_version: prev, new_version: newest_s };
            let ghost cs0 = changes@;
            changes.push(rec);
            proof {
                assert(change_views(changes@) =~= change_views(cs0) + group_change(
                    m0,
                    group@,
                    package@,
                    newest@,
                ));
            }
        }
    } else {
        proof {
            assert(change_views(changes@) =~= change_views(changes@) + Seq::<ChangeView>::empty());
        }
    }
}

/// Every place where a version of `package` may stand, over the three
/// fixed dependency groups.
pub open spec fn package_version_places(package: Seq<char>) -> Set<DepKey> {
    version_places("dependencies"@, package).union(
        version_places("dev-dependencies"@, package),
    ).union(version_places("build-dependencies"@, package))
}

/// Replaces the recorded version of `package` with `newest` in each of the
/// three dependency groups where an editable entry is found, and reports
/// each replacement whose previous version differed from `newest`, in
/// group order.  Every value outside the package's version places keeps
/// the text it prints as.
pub fn upgrade_package(doc: &mut DocumentMut, package: &str, newest: &str) -> (changes: Vec<Change>)
    ensures
        ({
            let m0 = doc_deps(*old(doc));
            let m1 = upgraded(m0, "dependencies"@, package@, newest@);
            let m2 = upgraded(m1, "dev-dependencies"@, package@, newest@);
            let m3 = upgraded(m2, "build-dependencies"@, package@, newest@);
            &&& doc_deps(*final(doc)) == m3
            &&& change_views(changes@) == group_change(m0, "dependencies"@, package@, newest@)
                + group_change(m1, "dev-dependencies"@, package@, newest@) + group_change(
                m2,
                "build-dependencies"@,
                package@,
                newest@,
            )
        }),
        doc_item_texts(*final(doc)).remove_keys(package_version_places(package@))
            == doc_item_texts(*old(doc)).remove_keys(package_version_places(package@)),
{
    let mut changes: Vec<Change> = Vec::new();
    let ghost t0 = doc_item_texts(*doc);
    upgrade_group(doc, &mut changes, "dependencies", package, newest);
    let ghost t1 = doc_item_texts(*doc);
    upgrade_group(doc, &mut changes, "dev-dependencies", package, newest);
    let ghost t2 = doc_item_texts(*doc);
    upgrade_group(doc, &mut changes, "build-dependencies", package, newest);
    let ghost t3 = doc_item_texts(*doc);
    proof {
        let u = package_version_places(package@);
        assert(t1.remove_keys(u) =~= t1.remove_keys(
            version_places("dependencies"@, package@),
        ).remove_keys(u));
        assert(t0.remove_keys(u) =~= t0.remove_keys(
            version_places("dependencies"@, package@),
        ).remove_keys(u));
        assert(t2.remove_keys(u) =~= t2.remove_keys(
            version_places("dev-dependencies"@, package@),
        ).remove_keys(u));
        assert(t1.remove_keys(u) =~= t1.remove_keys(
            version_places("dev-dependencies"@, package@),
        ).remove_keys(u));
        assert(t3.remove_keys(u) =~= t3.remove_keys(
            version_places("build-dependencies"@, package@),
        ).remove_keys(u));
        assert(t2.remove_keys(u) =~= t2.remove_keys(
            version_places("build-dependencies"@, package@),
        ).remove_keys(u));
    }
    changes
}

/// Replacing a located version touches only the located field: the
/// presence and value of every other editable field of the document stay
/// as they were.
pub proof fn lemma_localized_mutation(
    m: Map<DepKey, Seq<char>>,
    group: Seq<char>,
    package: Seq<char>,
    v: Seq<char>,
    other: DepKey,
)
    requires
        version_slot(m, group, package) matches Some(slot) && other != slot,
    ensures
        upgraded(m, group, package, v).contains_key(other) == m.contains_key(other),
        m.contains_key(other) ==> upgraded(m, group, package, v)[other] == m[other],
{
}

/// A package's versions in two different dependency groups are
/// independent: replacing the version under one group locates the same
/// field under the other group afterwards, with the same recorded value.
pub proof fn lemma_group_independence(
    m: Map<DepKey, Seq<char>>,
    group_a: Seq<char>,
    group_b: Seq<char>,
    package: Seq<char>,
    v: Seq<char>,
)
    requires
        group_a != group_b,
    ensures
        version_slot(upgraded(m, group_a, package, v), group_b, package) == version_slot(
            m,
            group_b,
            package,
        ),
        version_slot(m, group_b, package) matches Some(slot) ==> m.contains_key(slot) && upgraded(
            m,
            group_a,
            package,
            v,
        )[slot] == m[slot],
{
}

/// An upgrade of one package touches at most that package's version
/// fields: every editable field of any other package keeps its presence
/// and its value through the whole three-group upgrade.
pub proof fn lemma_upgrade_localized(
    m: Map<DepKey, Seq<char>>,
    package: Seq<char>,
    v: Seq<char>,
    other: DepKey,
)
    requires
        other.1 != package,
    ensures
        ({
            let m1 = upgraded(m, "dependencies"@, package, v);
            let m2 = upgraded(m1, "dev-dependencies"@, package, v);
            let m3 = upgraded(m2, "build-dependencies"@, package, v);
            &&& m3.contains_key(other) == m.contains_key(other)
            &&& m.contains_key(other) ==> m3[other] == m[other]
        }),
{
}

/// Across the three fixed dependency groups an upgrade acts on each group
/// as if it were alone: what the later groups report is determined by the
/// document as it stood before the whole upgrade.
pub proof fn lemma_groups_report_independently(
    m: Map<DepKey, Seq<char>>,
    package: Seq<char>,
    v: Seq<char>,
)
    ensures
        ({
            let m1 = upgraded(m, "dependencies"@, package, v);
            let m2 = upgraded(m1, "dev-dependencies"@, package, v);
            &&& group_change(m1, "dev-dependencies"@, package, v) == group_change(
                m,
                "dev-dependencies"@,
                package,
                v,
            )
            &&& group_change(m2, "build-dependencies"@, package, v) == group_change(
                m,
                "build-dependencies"@,
                package,
                v,
            )
        }),
{
    reveal_strlit("dependencies");
    reveal_strlit("dev-dependencies");
    reveal_strlit("build-dependencies");
    assert("dependencies"@.len() == 12);
    assert("dev-dependencies"@.len() == 16);
    assert("build-dependencies"@.len() == 18);
    let m1 = upgraded(m, "dependencies"@, package, v);
    let m2 = upgraded(m1, "dev-dependencies"@, package, v);
    lemma_group_independence(m, "dependencies"@, "dev-dependencies"@, package, v);
    lemma_group_independence(m, "dependencies"@, "build-dependencies"@, package, v);
    lemma_group_independence(m1, "dev-dependencies"@, "build-dependencies"@, package, v);
}

/// When the newest published version is the one already recorded, an
/// upgrade neither changes any editable field nor reports anything.
pub proof fn lemma_noop_suppression(
    m: Map<DepKey, Seq<char>>,
    group: Seq<char>,
    package: Seq<char>,
    v: Seq<char>,
)
    requires
        version_slot(m, group, package) matches Some(slot) ==> m[slot] == v,
    ensures
        group_change(m, group, package, v) == Seq::<ChangeView>::empty(),
        upgraded(m, group, package, v) =~= m,
{
}

/// One registry search result, reduced to what the tool reads: the
/// package's name and its newest published version.
pub struct CrateInfo {
    pub name: String,
    pub max_version: String,
}

/// The newest version the search results give for `name`: the
/// `max_version` of the first result whose name is exactly `name`.
pub open spec fn newest_version_spec(results: Seq<CrateInfo>, name: Seq<char>) -> Option<Seq<char>>
    decreases results.len(),
{
    if results.len() == 0 {
        None
    } else if results[0].name@ == name {
        Some(results[0].max_version@)
    } else {
        newest_version_spec(results.drop_first(), name)
    }
}

/// Picks the newest published version of `package` out of registry search
/// results: the first result whose name matches exactly.  When no result
/// matches, the registry did not know the package, and that is reported as
/// the registry-lookup error.
pub fn newest_version_from(results: &Vec<CrateInfo>, package: &str) -> (r: Result<String, Error>)
    ensures
        match newest_version_spec(results@, package@) {
            Some(v) => r matches Ok(s) && s@ == v,
            None => r matches Err(e) && e matches Error::CratesIOError(m) && m@ == package@
                + " not found in crates.io"@,
        },
{
    let pkg = package.to_owned();
    let n = results.len();
    let mut i: usize = 0;
    proof {
        assert(results@.skip(0) =~= results@);
    }
    while i < n
        invariant
            pkg@ == package@,
            n == results@.len(),
            i <= n,
            newest_version_spec(results@, package@) == newest_version_spec(
                results@.skip(i as int),
                package@,
            ),
        decreases n - i,
    {
        if results[i].name == pkg {
            proof {
                assert(results@.skip(i as int)[0] == results@[i as int]);
            }
            return Ok(results[i].max_version.clone());
        }
        proof {
            assert(results@.skip(i as int).drop_first() =~= results@.skip(i as int + 1));
        }
        i += 1;
    }
    proof {
        assert(results@.skip(n as int) =~= Seq::<CrateInfo>::empty());
    }
    Err(Error::CratesIOError(pkg.concat(" not found in crates.io")))
}

/// When package names were given on the command line they are the ones to
/// upgrade; otherwise every dependency name the manifest records is.
pub fn choose_packages(requested: &Vec<String>, fallback: Vec<String>) -> (r: Vec<String>)
    ensures
        requested@.len() > 0 ==> r@ == requested@,
        requested@.len() == 0 ==> r@ == fallback@,
{
    if requested.len() > 0 {
        clone_names(requested)
    } else {
        fallback
    }
}

pub fn clone_names(names: &Vec<String>) -> (r: Vec<String>)
    ensures
        r@ == names@,
{
    let mut r: Vec<String> = Vec::new();
    let n = names.len();
    let mut i: usize = 0;
    while i < n
        invariant
            n == names@.len(),
            i <= n,
            r@ == names@.take(i as int),
        decreases n - i,
    {
        r.push(names[i].clone());
        proof {
            assert(r@ =~= names@.take(i as int + 1));
        }
        i += 1;
    }
    proof {
        assert(names@.take(n as int) =~= names@);
    }
    r
}

/// Directory names the manifest search never descends into:
/// version-control stores and the build-output cache.
pub open spec fn skipped_dir(name: Seq<char>) -> bool {
    ||| name == ".git"@
    ||| name == ".hg"@
    ||| name == "node_modules"@
    ||| name == "target"@
}

/// Whether the manifest search should enter a directory with this name.
pub fn should_scan_directory(name: &str) -> (r: bool)
    ensures
        r == !skipped_dir(name@),
{
    let n = name.to_owned();
    let skip = n == ".git".to_owned() || n == ".hg".to_owned() || n == "node_modules".to_owned()
        || n == "target".to_owned();
    !skip
}

/// Whether a file name is the manifest file the tool edits.
pub fn is_manifest_name(name: &str) -> (r: bool)
    ensures
        r == (name@ == "Cargo.toml"@),
{
    let n = name.to_owned();
    n == "Cargo.toml".to_owned()
}

} // verus!
