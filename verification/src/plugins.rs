//! The plugin manager: the plugins the user has, the compendium of published
//! plugins, and the edits the manager makes to the user's list.
use vstd::prelude::*;
use crate::number::dec_spec;
use crate::number::push_dec;

verus! {

/// A plugin in the user's configuration.
#[derive(Clone, PartialEq, Eq, Debug)]
pub struct PluginState {
    pub id: String,
    pub enabled: bool,
    pub version: String,
}

/// A plugin as the compendium publishes it.
#[derive(Clone, PartialEq, Eq, Debug)]
pub struct CompendiumManifest {
    pub id: String,
    pub display_name: String,
    pub version: String,
    pub description: String,
}

/// The id, enabled flag and version of a plugin.
pub struct PluginView {
    pub id: Seq<char>,
    pub enabled: bool,
    pub version: Seq<char>,
}

/// The id, name, version and description of a published plugin.
pub struct ManifestView {
    pub id: Seq<char>,
    pub display_name: Seq<char>,
    pub version: Seq<char>,
    pub description: Seq<char>,
}

impl View for PluginState {
    type V = PluginView;

    open spec fn view(&self) -> PluginView {
        PluginView { id: self.id@, enabled: self.enabled, version: self.version@ }
    }
}

impl View for CompendiumManifest {
    type V = ManifestView;

    open spec fn view(&self) -> ManifestView {
        ManifestView {
            id: self.id@,
            display_name: self.display_name@,
            version: self.version@,
            description: self.description@,
        }
    }
}

impl PluginState {
    /// A copy of this plugin entry.
    pub fn copied(&self) -> (r: PluginState)
        ensures
            r@ == self@,
    {
        PluginState { id: self.id.clone(), enabled: self.enabled, version: self.version.clone() }
    }
}

impl CompendiumManifest {
    /// A copy of this published plugin.
    pub fn copied(&self) -> (r: CompendiumManifest)
        ensures
            r@ == self@,
    {
        CompendiumManifest {
            id: self.id.clone(),
            display_name: self.display_name.clone(),
            version: self.version.clone(),
            description: self.description.clone(),
        }
    }
}

/// The plugins of a list, by their views.
pub open spec fn plugins_view(v: Seq<PluginState>) -> Seq<PluginView> {
    v.map_values(|p: PluginState| p@)
}

/// The published plugins of a list, by their views.
pub open spec fn manifests_view(v: Seq<CompendiumManifest>) -> Seq<ManifestView> {
    v.map_values(|m: CompendiumManifest| m@)
}

/// The first position at or after `i` of a published plugin with id `id`.
pub open spec fn first_manifest_from(c: Seq<ManifestView>, id: Seq<char>, i: int) -> Option<int>
    decreases c.len() - i,
{
    if i < 0 || i >= c.len() {
        None
    } else if c[i].id == id {
        Some(i)
    } else {
        first_manifest_from(c, id, i + 1)
    }
}

/// The first published plugin with id `id`.
pub open spec fn first_manifest(c: Seq<ManifestView>, id: Seq<char>) -> Option<int> {
    first_manifest_from(c, id, 0)
}

/// The update the compendium offers for one installed plugin: the first
/// published plugin with its id, when that one has another version.
pub open spec fn offered_update(c: Seq<ManifestView>, p: PluginView) -> Option<ManifestView> {
    match first_manifest(c, p.id) {
        Some(j) => if c[j].version != p.version {
            Some(c[j])
        } else {
            None
        },
        None => None,
    }
}

/// The installed plugins that have an update, each with the offer, in the
/// order of the installed list.
pub open spec fn updates_spec(s: Seq<PluginView>, c: Seq<ManifestView>) -> Seq<
    (PluginView, ManifestView),
>
    decreases s.len(),
{
    if s.len() == 0 {
        Seq::empty()
    } else {
        let rest = updates_spec(s.drop_last(), c);
        match offered_update(c, s.last()) {
            Some(m) => rest.push((s.last(), m)),
            None => rest,
        }
    }
}

/// Some installed plugin has id `id`.
pub open spec fn has_plugin(s: Seq<PluginView>, id: Seq<char>) -> bool {
    exists|i: int| 0 <= i < s.len() && (#[trigger] s[i]).id == id
}

/// The published plugins that are not installed, in compendium order.
pub open spec fn discover_spec(s: Seq<PluginView>, c: Seq<ManifestView>) -> Seq<ManifestView>
    decreases c.len(),
{
    if c.len() == 0 {
        Seq::empty()
    } else {
        let rest = discover_spec(s, c.drop_last());
        if has_plugin(s, c.last().id) {
            rest
        } else {
            rest.push(c.last())
        }
    }
}

/// The installed plugins without those with id `id`, in order.
pub open spec fn without_spec(s: Seq<PluginView>, id: Seq<char>) -> Seq<PluginView>
    decreases s.len(),
{
    if s.len() == 0 {
        Seq::empty()
    } else {
        let rest = without_spec(s.drop_last(), id);
        if s.last().id == id {
            rest
        } else {
            rest.push(s.last())
        }
    }
}

/// The first installed plugin with id `id`.
pub open spec fn first_plugin_from(s: Seq<PluginView>, id: Seq<char>, i: int) -> Option<int>
    decreases s.len() - i,
{
    if i < 0 || i >= s.len() {
        None
    } else if s[i].id == id {
        Some(i)
    } else {
        first_plugin_from(s, id, i + 1)
    }
}

/// The position of the first plugin with id `id` in `v`.
fn find_plugin(v: &Vec<PluginState>, id: &String) -> (r: Option<usize>)
    ensures
        r matches Some(k) ==> first_plugin_from(plugins_view(v@), id@, 0) == Some(k as int),
        r matches Some(k) ==> k < v@.len() && v@[k as int].id@ == id@,
        r is None ==> first_plugin_from(plugins_view(v@), id@, 0) is None,
{
    let ghost s = plugins_view(v@);
    let mut i: usize = 0;
    while i < v.len()
        invariant
            i <= v@.len(),
            s == plugins_view(v@),
            first_plugin_from(s, id@, 0) == first_plugin_from(s, id@, i as int),
        decreases v@.len() - i,
    {
        if v[i].id == *id {
            return Some(i);
        }
        i = i + 1;
    }
    None
}

/// The position of the first published plugin with id `id`.
fn find_manifest(c: &Vec<CompendiumManifest>, id: &String) -> (r: Option<usize>)
    ensures
        r matches Some(k) ==> first_manifest(manifests_view(c@), id@) == Some(k as int),
        r matches Some(k) ==> k < c@.len() && c@[k as int].id@ == id@,
        r is None ==> first_manifest(manifests_view(c@), id@) is None,
{
    let ghost m = manifests_view(c@);
    let mut i: usize = 0;
    while i < c.len()
        invariant
            i <= c@.len(),
            m == manifests_view(c@),
            first_manifest_from(m, id@, 0) == first_manifest_from(m, id@, i as int),
        decreases c@.len() - i,
    {
        if c[i].id == *id {
            return Some(i);
        }
        i = i + 1;
    }
    None
}

/// The installed plugins that the compendium has in another version, each
/// with the published plugin it would update to.
pub fn updates_available(current: &Vec<PluginState>, compendium: &Vec<CompendiumManifest>) -> (r:
    Vec<(PluginState, CompendiumManifest)>)
    ensures
        r@.map_values(|e: (PluginState, CompendiumManifest)| (e.0@, e.1@)) == updates_spec(
            plugins_view(current@),
            manifests_view(compendium@),
        ),
{
    let ghost s = plugins_view(current@);
    let ghost c = manifests_view(compendium@);
    let mut r: Vec<(PluginState, CompendiumManifest)> = Vec::new();
    let mut i: usize = 0;
    while i < current.len()
        invariant
            i <= current@.len(),
            s == plugins_view(current@),
            c == manifests_view(compendium@),
            r@.map_values(|e: (PluginState, CompendiumManifest)| (e.0@, e.1@)) == updates_spec(
                s.take(i as int),
                c,
            ),
        decreases current@.len() - i,
    {
        proof {
            assert(s.take(i + 1).drop_last() =~= s.take(i as int));
            assert(s.take(i + 1).last() == current@[i as int]@);
        }
        let local = &current[i];
        match find_manifest(compendium, &local.id) {
            Some(j) => {
                if compendium[j].version != local.version {
                    let ghost before = r@.map_values(
                        |e: (PluginState, CompendiumManifest)| (e.0@, e.1@),
                    );
                    let entry = (local.copied(), compendium[j].copied());
                    r.push(entry);
                    proof {
                        assert(r@.map_values(|e: (PluginState, CompendiumManifest)| (e.0@, e.1@))
                            =~= before.push((local@, compendium@[j as int]@)));
                    }
                }
            },
            None => {},
        }
        i = i + 1;
    }
    proof {
        assert(s.take(current@.len() as int) =~= s);
    }
    r
}

/// Whether a plugin with id `id` is installed.
pub fn is_installed(current: &Vec<PluginState>, id: &String) -> (b: bool)
    ensures
        b == has_plugin(plugins_view(current@), id@),
{
    let ghost s = plugins_view(current@);
    let mut i: usize = 0;
    while i < current.len()
        invariant
            i <= current@.len(),
            s == plugins_view(current@),
            forall|k: int| 0 <= k < i ==> s[k].id != id@,
        decreases current@.len() - i,
    {
        if current[i].id == *id {
            proof {
                assert(s[i as int].id == id@);
            }
            return true;
        }
        i = i + 1;
    }
    false
}

/// The published plugins that are not installed yet.
pub fn discoverable(current: &Vec<PluginState>, compendium: &Vec<CompendiumManifest>) -> (r: Vec<
    CompendiumManifest,
>)
    ensures
        manifests_view(r@) == discover_spec(plugins_view(current@), manifests_view(compendium@)),
{
    let ghost s = plugins_view(current@);
    let ghost c = manifests_view(compendium@);
    let mut r: Vec<CompendiumManifest> = Vec::new();
    let mut i: usize = 0;
    while i < compendium.len()
        invariant
            i <= compendium@.len(),
            s == plugins_view(current@),
            c == manifests_view(compendium@),
            manifests_view(r@) == discover_spec(s, c.take(i as int)),
        decreases compendium@.len() - i,
    {
        proof {
            assert(c.take(i + 1).drop_last() =~= c.take(i as int));
            assert(c.take(i + 1).last() == compendium@[i as int]@);
        }
        if !is_installed(current, &compendium[i].id) {
            let ghost before = manifests_view(r@);
            r.push(compendium[i].copied());
            proof {
                assert(manifests_view(r@) =~= before.push(compendium@[i as int]@));
            }
        }
        i = i + 1;
    }
    proof {
        assert(c.take(compendium@.len() as int) =~= c);
    }
    r
}

/// Turns the first plugin with id `id` on or off; nothing else changes.
pub fn set_enabled(current: &mut Vec<PluginState>, id: &String, on: bool)
    ensures
        first_plugin_from(plugins_view(old(current)@), id@, 0) matches Some(k) ==> plugins_view(
            final(current)@,
        ) == plugins_view(old(current)@).update(
            k,
            PluginView { id: old(current)@[k].id@, enabled: on, version: old(current)@[k].version@ },
        ),
        first_plugin_from(plugins_view(old(current)@), id@, 0) is None ==> plugins_view(
            final(current)@,
        ) == plugins_view(old(current)@),
{
    match find_plugin(current, id) {
        Some(k) => {
            let p = PluginState {
                id: current[k].id.clone(),
                enabled: on,
                version: current[k].version.clone(),
            };
            let ghost before = current@;
            current.set(k, p);
            proof {
                assert(plugins_view(current@) =~= plugins_view(before).update(k as int, p@));
            }
        },
        None => {},
    }
}

/// Sets the version of the first plugin with id `id`; nothing else changes.
pub fn sync_update(current: &mut Vec<PluginState>, id: &String, version: &String)
    ensures
        first_plugin_from(plugins_view(old(current)@), id@, 0) matches Some(k) ==> plugins_view(
            final(current)@,
        ) == plugins_view(old(current)@).update(
            k,
            PluginView { id: old(current)@[k].id@, enabled: old(current)@[k].enabled, version: version@ },
        ),
        first_plugin_from(plugins_view(old(current)@), id@, 0) is None ==> plugins_view(
            final(current)@,
        ) == plugins_view(old(current)@),
{
    match find_plugin(current, id) {
        Some(k) => {
            let p = PluginState {
                id: current[k].id.clone(),
                enabled: current[k].enabled,
                version: version.clone(),
            };
            let ghost before = current@;
            current.set(k, p);
            proof {
                assert(plugins_view(current@) =~= plugins_view(before).update(k as int, p@));
            }
        },
        None => {},
    }
}

/// Removes every plugin with id `id`, keeping the others in order.
pub fn remove_plugin(current: &mut Vec<PluginState>, id: &String)
    ensures
        plugins_view(final(current)@) == without_spec(plugins_view(old(current)@), id@),
{
    let ghost s = plugins_view(current@);
    let mut kept: Vec<PluginState> = Vec::new();
    let mut i: usize = 0;
    while i < current.len()
        invariant
            i <= current@.len(),
            s == plugins_view(current@),
            plugins_view(kept@) == without_spec(s.take(i as int), id@),
        decreases current@.len() - i,
    {
        proof {
            assert(s.take(i + 1).drop_last() =~= s.take(i as int));
            assert(s.take(i + 1).last() == current@[i as int]@);
        }
        if current[i].id != *id {
            let ghost before = plugins_view(kept@);
            kept.push(current[i].copied());
            proof {
                assert(plugins_view(kept@) =~= before.push(current@[i as int]@));
            }
        }
        i = i + 1;
    }
    proof {
        assert(s.take(current@.len() as int) =~= s);
    }
    *current = kept;
}

/// Adds a published plugin to the user's list, enabled, at its published
/// version.
pub fn install(current: &mut Vec<PluginState>, remote: &CompendiumManifest)
    ensures
        plugins_view(final(current)@) == plugins_view(old(current)@).push(
            PluginView { id: remote.id@, enabled: true, version: remote.version@ },
        ),
{
    let ghost before = current@;
    current.push(PluginState { id: remote.id.clone(), enabled: true, version: remote.version.clone() });
    proof {
        assert(plugins_view(current@) =~= plugins_view(before).push(
            PluginView { id: remote.id@, enabled: true, version: remote.version@ },
        ));
    }
}

/// Whether the plugin list differs from the one the app started with (the
/// changes take effect after a restart).
pub fn needs_restart(launch: &Vec<PluginState>, current: &Vec<PluginState>) -> (r: bool)
    ensures
        r == (plugins_view(launch@) != plugins_view(current@)),
{
    let ghost a = plugins_view(launch@);
    let ghost b = plugins_view(current@);
    if launch.len() != current.len() {
        proof {
            assert(a.len() != b.len());
        }
        return true;
    }
    let mut i: usize = 0;
    while i < launch.len()
        invariant
            i <= launch@.len(),
            launch@.len() == current@.len(),
            a == plugins_view(launch@),
            b == plugins_view(current@),
            forall|k: int| 0 <= k < i ==> a[k] == b[k],
        decreases launch@.len() - i,
    {
        let x = &launch[i];
        let y = &current[i];
        if x.id != y.id || x.enabled != y.enabled || x.version != y.version {
            proof {
                assert(a[i as int] != b[i as int]);
            }
            return true;
        }
        i = i + 1;
    }
    proof {
        assert(a =~= b);
    }
    false
}

/// After a removal no plugin with the removed id is left.
pub proof fn lemma_removed_plugin_is_gone(s: Seq<PluginView>, id: Seq<char>)
    ensures
        !has_plugin(without_spec(s, id), id),
    decreases s.len(),
{
    if s.len() > 0 {
        lemma_removed_plugin_is_gone(s.drop_last(), id);
        let rest = without_spec(s.drop_last(), id);
        if s.last().id != id {
            assert forall|i: int| 0 <= i < rest.push(s.last()).len() implies (#[trigger] rest.push(
                s.last(),
            )[i]).id != id by {
                if i < rest.len() {
                    assert(rest.push(s.last())[i] == rest[i]);
                }
            }
        }
    }
}

/// Every published plugin that the manager offers to install is one the
/// user does not have.
pub proof fn lemma_discovered_not_installed(s: Seq<PluginView>, c: Seq<ManifestView>)
    ensures
        forall|i: int|
            0 <= i < discover_spec(s, c).len() ==> !has_plugin(s, (#[trigger] discover_spec(s, c)[i]).id),
    decreases c.len(),
{
    if c.len() > 0 {
        lemma_discovered_not_installed(s, c.drop_last());
        let rest = discover_spec(s, c.drop_last());
        if !has_plugin(s, c.last().id) {
            assert forall|i: int| 0 <= i < rest.push(c.last()).len() implies !has_plugin(
                s,
                (#[trigger] rest.push(c.last())[i]).id,
            ) by {
                if i < rest.len() {
                    assert(rest.push(c.last())[i] == rest[i]);
                }
            }
        }
    }
}

/// Once a published plugin is installed, the manager no longer offers it.
pub proof fn lemma_installed_not_offered(
    s: Seq<PluginView>,
    c: Seq<ManifestView>,
    remote: ManifestView,
)
    ensures
        forall|i: int|
            0 <= i < discover_spec(
                s.push(PluginView { id: remote.id, enabled: true, version: remote.version }),
                c,
            ).len() ==> (#[trigger] discover_spec(
                s.push(PluginView { id: remote.id, enabled: true, version: remote.version }),
                c,
            )[i]).id != remote.id,
{
    let s2 = s.push(PluginView { id: remote.id, enabled: true, version: remote.version });
    lemma_discovered_not_installed(s2, c);
    assert(s2[s.len() as int].id == remote.id);
    assert(has_plugin(s2, remote.id));
}

/// Bringing a plugin to the version the compendium offers for it leaves no
/// update to offer for it.
pub proof fn lemma_synced_plugin_is_current(c: Seq<ManifestView>, p: PluginView)
    requires
        offered_update(c, p) is Some,
    ensures
        offered_update(
            c,
            PluginView { id: p.id, enabled: p.enabled, version: offered_update(c, p)->0.version },
        ) is None,
{
}

/// A search from `i <= j` finds the published plugin `id` first at `j` when no
/// earlier entry has that id.
proof fn lemma_first_manifest_at(c: Seq<ManifestView>, id: Seq<char>, j: int, i: int)
    requires
        0 <= i <= j < c.len(),
        c[j].id == id,
        forall|k: int| 0 <= k < j ==> (#[trigger] c[k]).id != id,
    ensures
        first_manifest_from(c, id, i) == Some(j),
    decreases j - i,
{
    if i < j {
        lemma_first_manifest_at(c, id, j, i + 1);
    }
}

/// Every installed plugin whose first entry in the compendium has another
/// version is offered that entry as an update, enabled or not.
pub proof fn law_update_offered_for_every_plugin(s: Seq<PluginView>, c: Seq<ManifestView>, i: int, j: int)
    requires
        0 <= i < s.len(),
        0 <= j < c.len(),
        c[j].id == s[i].id,
        forall|k: int| 0 <= k < j ==> (#[trigger] c[k]).id != s[i].id,
        c[j].version != s[i].version,
    ensures
        updates_spec(s, c).contains((s[i], c[j])),
    decreases s.len(),
{
    lemma_first_manifest_at(c, s[i].id, j, 0);
    let rest = updates_spec(s.drop_last(), c);
    if i == s.len() - 1 {
        assert(offered_update(c, s.last()) == Some(c[j]));
        assert(updates_spec(s, c) == rest.push((s.last(), c[j])));
        assert(updates_spec(s, c)[rest.len() as int] == (s[i], c[j]));
    } else {
        assert(s.drop_last()[i] == s[i]);
        law_update_offered_for_every_plugin(s.drop_last(), c, i, j);
        let k = choose|k: int| 0 <= k < rest.len() && rest[k] == (s[i], c[j]);
        match offered_update(c, s.last()) {
            Some(m) => {
                assert(updates_spec(s, c)[k] == rest.push((s.last(), m))[k]);
            },
            None => {},
        }
        assert(updates_spec(s, c)[k] == (s[i], c[j]));
    }
}

/// Every offered update pairs an installed plugin with a published plugin of
/// the same id and another version.
pub proof fn law_offers_are_newer_entries(s: Seq<PluginView>, c: Seq<ManifestView>, k: int)
    requires
        0 <= k < updates_spec(s, c).len(),
    ensures
        s.contains(updates_spec(s, c)[k].0),
        c.contains(updates_spec(s, c)[k].1),
        updates_spec(s, c)[k].1.id == updates_spec(s, c)[k].0.id,
        updates_spec(s, c)[k].1.version != updates_spec(s, c)[k].0.version,
    decreases s.len(),
{
    let rest = updates_spec(s.drop_last(), c);
    if k < rest.len() {
        law_offers_are_newer_entries(s.drop_last(), c, k);
        match offered_update(c, s.last()) {
            Some(m) => {
                assert(updates_spec(s, c)[k] == rest[k]);
            },
            None => {},
        }
        let i = choose|i: int| 0 <= i < s.drop_last().len() && s.drop_last()[i] == rest[k].0;
        assert(s[i] == rest[k].0);
    } else {
        lemma_first_manifest_in_range(c, s.last().id, 0);
        let j = first_manifest(c, s.last().id).unwrap();
        assert(updates_spec(s, c)[k] == (s.last(), c[j]));
        assert(s[s.len() - 1] == s.last());
    }
}

/// A position found by `first_manifest_from` is in range and has the id.
proof fn lemma_first_manifest_in_range(c: Seq<ManifestView>, id: Seq<char>, i: int)
    ensures
        first_manifest_from(c, id, i) matches Some(j) ==> 0 <= i <= j < c.len() && c[j].id == id,
    decreases c.len() - i,
{
    if i >= 0 && i < c.len() && c[i].id != id {
        lemma_first_manifest_in_range(c, id, i + 1);
    }
}

/// No two installed plugins share an id.
pub open spec fn ids_unique(s: Seq<PluginView>) -> bool {
    forall|i: int, j: int| 0 <= i < j < s.len() ==> (#[trigger] s[i]).id != (#[trigger] s[j]).id
}

/// Installing a plugin the manager offers (one the user does not have) keeps
/// the ids of the user's plugins distinct, and so does removing one.
pub proof fn lemma_edits_keep_ids_unique(s: Seq<PluginView>, remote: ManifestView, id: Seq<char>)
    requires
        ids_unique(s),
        !has_plugin(s, remote.id),
    ensures
        ids_unique(s.push(PluginView { id: remote.id, enabled: true, version: remote.version })),
        ids_unique(without_spec(s, id)),
{
    let t = s.push(PluginView { id: remote.id, enabled: true, version: remote.version });
    assert forall|i: int, j: int| 0 <= i < j < t.len() implies (#[trigger] t[i]).id != (#[trigger] t[j]).id by {
        assert(t[i] == s[i]);
        if j < s.len() {
            assert(t[j] == s[j]);
        }
    }
    lemma_without_keeps_unique(s, id);
}

/// Removing the plugins with one id keeps the others' ids distinct, and
/// keeps only plugins the list had.
proof fn lemma_without_keeps_unique(s: Seq<PluginView>, id: Seq<char>)
    requires
        ids_unique(s),
    ensures
        ids_unique(without_spec(s, id)),
        forall|k: int| 0 <= k < without_spec(s, id).len() ==> s.contains(#[trigger] without_spec(s, id)[k]),
    decreases s.len(),
{
    if s.len() > 0 {
        let p = s.drop_last();
        assert forall|i: int, j: int| 0 <= i < j < p.len() implies (#[trigger] p[i]).id != (#[trigger] p[j]).id by {
            assert(p[i] == s[i] && p[j] == s[j]);
        }
        lemma_without_keeps_unique(p, id);
        let r = without_spec(p, id);
        assert forall|k: int| 0 <= k < r.len() implies s.contains(#[trigger] r[k]) by {
            let m = choose|m: int| 0 <= m < p.len() && p[m] == r[k];
            assert(s[m] == r[k]);
        }
        if s.last().id != id {
            let t = r.push(s.last());
            assert forall|i: int, j: int| 0 <= i < j < t.len() implies (#[trigger] t[i]).id != (#[trigger] t[j]).id by {
                if j == r.len() {
                    assert(t[i] == r[i]);
                    assert(p.contains(r[i]));
                    let m = choose|m: int| 0 <= m < p.len() && p[m] == r[i];
                    assert(s[m] == p[m]);
                    assert(s[s.len() - 1] == s.last());
                } else {
                    assert(t[i] == r[i] && t[j] == r[j]);
                }
            }
            assert forall|k: int| 0 <= k < t.len() implies s.contains(#[trigger] t[k]) by {
                if k == r.len() {
                    assert(s[s.len() - 1] == t[k]);
                } else {
                    assert(t[k] == r[k]);
                }
            }
        }
    }
}

/// What came of installing a plugin from outside the compendium.
pub enum InstallOutcome {
    /// A binary picked on disk was registered with the AI clients; `copied`
    /// tells whether it was first copied into the editor's own folder.
    DiskInstalled { copied: bool },
    /// Registering a binary picked on disk failed; the reason.
    DiskFailed(String),
    /// A plugin was fetched from GitHub into this file.
    GithubInstalled(String),
    /// Fetching from GitHub failed; the reason.
    GithubFailed(String),
}

/// The status line after an install: a success message or an error message.
pub open spec fn install_status_spec(o: InstallOutcome) -> Result<Seq<char>, Seq<char>> {
    match o {
        InstallOutcome::DiskInstalled { copied } => Ok(
            if copied {
                "Successfully installed MCP plugin (copied to internal config dir)!"@
            } else {
                "Successfully installed MCP plugin directly!"@
            },
        ),
        InstallOutcome::DiskFailed(e) => Err("Failed to install MCP: "@ + e@),
        InstallOutcome::GithubInstalled(f) => Ok("Successfully installed plugin: "@ + f@),
        InstallOutcome::GithubFailed(e) => Err("GitHub Install Failed: "@ + e@),
    }
}

/// `prefix` followed by `rest`.
fn prefixed(prefix: &str, rest: &String) -> (r: String)
    ensures
        r@ == prefix@ + rest@,
{
    let mut r = String::from_str(prefix);
    r.append(rest.as_str());
    r
}

/// The status line after an install.
pub fn install_status(o: &InstallOutcome) -> (r: Result<String, String>)
    ensures
        match (r, install_status_spec(*o)) {
            (Ok(m), Ok(e)) => m@ == e,
            (Err(m), Err(e)) => m@ == e,
            _ => false,
        },
{
    match o {
        InstallOutcome::DiskInstalled { copied } => Ok(
            if *copied {
                String::from_str("Successfully installed MCP plugin (copied to internal config dir)!")
            } else {
                String::from_str("Successfully installed MCP plugin directly!")
            },
        ),
        InstallOutcome::DiskFailed(e) => Err(prefixed("Failed to install MCP: ", e)),
        InstallOutcome::GithubInstalled(f) => Ok(prefixed("Successfully installed plugin: ", f)),
        InstallOutcome::GithubFailed(e) => Err(prefixed("GitHub Install Failed: ", e)),
    }
}

/// The version change an update offers: `v<installed> → v<offered>`.
pub fn version_change_label(local: &String, remote: &String) -> (r: String)
    ensures
        r@ == "v"@ + local@ + " \u{2192} v"@ + remote@,
{
    let mut r = String::from_str("v");
    r.append(local.as_str());
    r.append(" \u{2192} v");
    r.append(remote.as_str());
    r
}

/// An MCP server of the daemon registry, as the manager lists it.
pub struct DaemonCard {
    pub key: String,
    pub display_name: String,
    pub prompt: String,
}

/// A registry entry as a card: its display name, or its key when it has
/// none; its system prompt, or nothing.
pub fn daemon_card(key: &String, display_name: Option<String>, prompt: Option<String>) -> (r: DaemonCard)
    ensures
        r.key@ == key@,
        r.display_name@ == (match display_name {
            Some(d) => d@,
            None => key@,
        }),
        r.prompt@ == (match prompt {
            Some(p) => p@,
            None => Seq::empty(),
        }),
{
    DaemonCard {
        key: key.clone(),
        display_name: match display_name {
            Some(d) => d,
            None => key.clone(),
        },
        prompt: match prompt {
            Some(p) => p,
            None => String::new(),
        },
    }
}

/// A tab of the plugin manager.
#[derive(Clone, Copy, PartialEq, Eq, Debug, Structural)]
pub enum ManagerTab {
    Installed,
    Discover,
    Updates,
}

/// The label of a tab: the installed tab counts the local binaries, the
/// updates tab the offered updates.
pub fn manager_tab_label(tab: ManagerTab, installed: u64, updates: u64) -> (r: String)
    ensures
        r@ == (match tab {
            ManagerTab::Installed => "Installed ("@ + dec_spec(installed as nat) + ")"@,
            ManagerTab::Discover => "Discover"@,
            ManagerTab::Updates => "Updates ("@ + dec_spec(updates as nat) + ")"@,
        }),
{
    match tab {
        ManagerTab::Installed => {
            let mut r = String::from_str("Installed (");
            push_dec(&mut r, installed);
            r.append(")");
            r
        },
        ManagerTab::Discover => String::from_str("Discover"),
        ManagerTab::Updates => {
            let mut r = String::from_str("Updates (");
            push_dec(&mut r, updates);
            r.append(")");
            r
        },
    }
}

/// The line an empty tab shows: nothing new to discover, or everything up to
/// date; the installed tab has none.
pub fn empty_tab_note(tab: ManagerTab) -> (r: Option<&'static str>)
    ensures
        match r {
            Some(m) => (tab == ManagerTab::Discover && m@ == "Nothing new to discover."@) || (tab
                == ManagerTab::Updates && m@ == "Everything is up to date."@),
            None => tab == ManagerTab::Installed,
        },
{
    match tab {
        ManagerTab::Installed => None,
        ManagerTab::Discover => Some("Nothing new to discover."),
        ManagerTab::Updates => Some("Everything is up to date."),
    }
}

/// What the manager shows of installs from outside the compendium: the last
/// install's status line, and the plugin binaries installed on this machine.
pub struct InstallState {
    pub status: Option<Result<String, String>>,
    pub installed: Vec<String>,
}

/// The characters of a status line.
pub open spec fn status_view(s: Option<Result<String, String>>) -> Option<Result<Seq<char>, Seq<char>>> {
    match s {
        Some(Ok(m)) => Some(Ok(m@)),
        Some(Err(m)) => Some(Err(m@)),
        None => None,
    }
}

/// The Fetch button: the repository to install from, or no install at all
/// when the field is empty.
pub fn github_request(repo: &String) -> (r: Option<String>)
    ensures
        repo@.len() == 0 ==> r is None,
        repo@.len() > 0 ==> (r matches Some(x) && x@ == repo@),
{
    if repo.unicode_len() == 0 {
        None
    } else {
        Some(repo.clone())
    }
}

/// The binaries list after an install: a GitHub install adds the fetched
/// file, a disk install adds the binary's file name when it has one, a
/// failed install adds nothing.
pub open spec fn installed_after(old: Seq<Seq<char>>, o: InstallOutcome, disk_file: Option<Seq<char>>) -> Seq<Seq<char>> {
    match o {
        InstallOutcome::GithubInstalled(f) => old.push(f@),
        InstallOutcome::DiskInstalled { .. } => match disk_file {
            Some(f) => old.push(f),
            None => old,
        },
        _ => old,
    }
}

/// Records a finished install: the status line becomes the outcome's, and
/// the installed binary joins the list. `disk_file` is the file name of a
/// binary installed from disk (not used for other outcomes).
pub fn finish_install(state: &mut InstallState, outcome: InstallOutcome, disk_file: Option<String>)
    ensures
        status_view(final(state).status) == Some(install_status_spec(outcome)),
        final(state).installed@.map_values(|f: String| f@) == installed_after(
            old(state).installed@.map_values(|f: String| f@),
            outcome,
            crate::shortcuts::opt_view(disk_file),
        ),
{
    let ghost before = state.installed@.map_values(|f: String| f@);
    let ghost og = outcome;
    let ghost df = crate::shortcuts::opt_view(disk_file);
    let status = install_status(&outcome);
    state.status = Some(status);
    match outcome {
        InstallOutcome::GithubInstalled(f) => {
            state.installed.push(f);
        },
        InstallOutcome::DiskInstalled { .. } => match disk_file {
            Some(f) => {
                state.installed.push(f);
            },
            None => {},
        },
        _ => {},
    }
    proof {
        assert(state.installed@.map_values(|f: String| f@) =~= installed_after(before, og, df));
    }
}

} // verus!
