//! Plugin catalog: merges the locally installed plugin manifests with a
//! predefined table of well-known plugin names into one de-duplicated,
//! filtered list of dispatchable pseudo-subcommands.

use vstd::prelude::*;

verus! {

/// One dispatchable plugin-backed pseudo-subcommand: its name and a short
/// description shown in help output.
pub struct PluginHelpEntry {
    pub name: String,
    pub about: String,
}

/// The mathematical value of a catalog entry: its name and description as
/// character sequences.
pub struct EntryView {
    pub name: Seq<char>,
    pub about: Seq<char>,
}

impl View for PluginHelpEntry {
    type V = EntryView;

    open spec fn view(&self) -> EntryView {
        EntryView { name: self.name@, about: self.about@ }
    }
}

/// A locally installed plugin's manifest, reduced to the fields the catalog
/// reads: the plugin's name and its optional description.
pub struct PluginManifest {
    pub name: String,
    pub description: Option<String>,
}

/// The catalog entry a manifest would yield: its name, and its description or
/// the empty string where it declares none.
pub open spec fn manifest_entry(m: PluginManifest) -> EntryView {
    EntryView {
        name: m.name@,
        about: match m.description {
            Some(d) => d@,
            None => Seq::<char>::empty(),
        },
    }
}

/// The reserved name prefix of internal backend-provider plugins, which are
/// never user-facing subcommands.
pub open spec fn reserved_prefix() -> Seq<char> {
    "trigger-"@
}

/// Whether a plugin name begins with the reserved prefix.
pub open spec fn has_reserved_prefix(name: Seq<char>) -> bool {
    name.len() >= reserved_prefix().len() && name.subrange(
        0,
        reserved_prefix().len() as int,
    ) == reserved_prefix()
}

/// Whether `plugin` is hidden from help and dispatch: internal
/// backend-provider plugins (reserved name prefix) are.
pub fn hide_plugin_in_help(plugin: &PluginManifest) -> (r: bool)
    ensures
        r == has_reserved_prefix(plugin.name@),
{
    starts_with_reserved_prefix(plugin.name.as_str())
}

fn starts_with_reserved_prefix(s: &str) -> (r: bool)
    ensures
        r == has_reserved_prefix(s@),
{
    let prefix = "trigger-";
    proof {
        reveal_strlit("trigger-");
    }
    let n = prefix.unicode_len();
    let len = s.unicode_len();
    if len < n {
        return false;
    }
    let mut i: usize = 0;
    while i < n
        invariant
            prefix@ == reserved_prefix(),
            n == reserved_prefix().len(),
            len == s@.len(),
            n <= len,
            i <= n,
            forall|j: int| 0 <= j < i ==> s@[j] == reserved_prefix()[j],
        decreases n - i,
    {
        if s.get_char(i) != prefix.get_char(i) {
            assert(!has_reserved_prefix(s@)) by {
                assert(s@.subrange(0, reserved_prefix().len() as int)[i as int] != reserved_prefix()[i as int]);
            }
            return false;
        }
        i += 1;
    }
    assert(s@.subrange(0, reserved_prefix().len() as int) =~= reserved_prefix());
    true
}

/// The views of a sequence of catalog entries.
pub open spec fn entry_views(s: Seq<PluginHelpEntry>) -> Seq<EntryView> {
    s.map_values(|e: PluginHelpEntry| e@)
}

/// The candidate entries a catalog assembly considers, in priority order:
/// one per locally installed manifest (in store order), then one per
/// predefined name/description pair (in declaration order).
pub open spec fn candidate_views(
    manifests: Seq<PluginManifest>,
    predefined: Seq<(String, String)>,
) -> Seq<EntryView> {
    manifests.map_values(|m: PluginManifest| manifest_entry(m)) + predefined.map_values(
        |p: (String, String)| EntryView { name: p.0@, about: p.1@ },
    )
}

/// Whether some entry in `entries` carries the name `name`.
pub open spec fn contains_name(entries: Seq<EntryView>, name: Seq<char>) -> bool {
    exists|i: int| 0 <= i < entries.len() && entries[i].name == name
}

/// One assembly step: a candidate joins the catalog unless its name bears the
/// reserved prefix or is already present (first seen wins).
pub open spec fn admit_entry(acc: Seq<EntryView>, e: EntryView) -> Seq<EntryView> {
    if has_reserved_prefix(e.name) || contains_name(acc, e.name) {
        acc
    } else {
        acc.push(e)
    }
}

/// The catalog assembled from `candidates`, in order: each candidate is
/// admitted in turn unless reserved or already named.
pub open spec fn assembled(candidates: Seq<EntryView>) -> Seq<EntryView>
    decreases candidates.len(),
{
    if candidates.len() == 0 {
        Seq::<EntryView>::empty()
    } else {
        admit_entry(assembled(candidates.drop_last()), candidates.last())
    }
}

/// Whether some entry in `entries` is named `name`.
pub fn any_entry_named(entries: &Vec<PluginHelpEntry>, name: &String) -> (r: bool)
    ensures
        r == contains_name(entry_views(entries@), name@),
{
    let mut i: usize = 0;
    while i < entries.len()
        invariant
            i <= entries.len(),
            forall|j: int| 0 <= j < i ==> entry_views(entries@)[j].name != name@,
        decreases entries.len() - i,
    {
        if entries[i].name == *name {
            assert(entry_views(entries@)[i as int].name == name@);
            return true;
        }
        i += 1;
    }
    false
}

/// Admits one candidate entry into the catalog being assembled, unless its
/// name is reserved or already present.
fn push_candidate(entries: &mut Vec<PluginHelpEntry>, e: PluginHelpEntry)
    ensures
        entry_views(final(entries)@) == admit_entry(entry_views(old(entries)@), e@),
{
    if starts_with_reserved_prefix(e.name.as_str()) {
        return ;
    }
    if any_entry_named(entries, &e.name) {
        return ;
    }
    entries.push(e);
    assert(entry_views(entries@) =~= entry_views(entries@.drop_last()).push(entries@.last()@));
}

/// One assembly step over a prefix of the candidates: admitting candidate `i`
/// extends the catalog of the first `i` candidates to that of the first
/// `i + 1`.
proof fn lemma_assembled_step(candidates: Seq<EntryView>, i: int)
    requires
        0 <= i < candidates.len(),
    ensures
        assembled(candidates.take(i + 1)) == admit_entry(
            assembled(candidates.take(i)),
            candidates[i],
        ),
{
    assert(candidates.take(i + 1).drop_last() =~= candidates.take(i));
    assert(candidates.take(i + 1).last() == candidates[i]);
}

impl PluginHelpEntry {
    /// The catalog entry for one installed manifest: `None` for a hidden
    /// (reserved-prefix) plugin, otherwise its name with its description, or
    /// an empty description where the manifest declares none.
    pub fn from_plugin(plugin: &PluginManifest) -> (r: Option<Self>)
        ensures
            r is Some <==> !has_reserved_prefix(plugin.name@),
            r is Some ==> r.unwrap()@ == manifest_entry(*plugin),
    {
        if hide_plugin_in_help(plugin) {
            None
        } else {
            Some(
                Self {
                    name: plugin.name.clone(),
                    about: match &plugin.description {
                        Some(d) => d.clone(),
                        None => String::new(),
                    },
                },
            )
        }
    }
}

/// The catalog entries of the locally installed manifests alone, in store
/// order: hidden (reserved-prefix) names are skipped, and of manifests that
/// share a name the first keeps its place.
pub fn installed_plugin_help_entries(manifests: &Vec<PluginManifest>) -> (entries: Vec<
    PluginHelpEntry,
>)
    ensures
        entry_views(entries@) == assembled(
            manifests@.map_values(|m: PluginManifest| manifest_entry(m)),
        ),
{
    let ghost mviews = manifests@.map_values(|m: PluginManifest| manifest_entry(m));
    let mut entries: Vec<PluginHelpEntry> = Vec::new();
    assert(entry_views(entries@) =~= assembled(mviews.take(0)));
    let mut i: usize = 0;
    while i < manifests.len()
        invariant
            i <= manifests.len(),
            mviews == manifests@.map_values(|m: PluginManifest| manifest_entry(m)),
            entry_views(entries@) == assembled(mviews.take(i as int)),
        decreases manifests.len() - i,
    {
        proof {
            lemma_assembled_step(mviews, i as int);
        }
        match PluginHelpEntry::from_plugin(&manifests[i]) {
            Some(e) => {
                push_candidate(&mut entries, e);
            },
            None => {
                assert(admit_entry(assembled(mviews.take(i as int)), mviews[i as int])
                    == assembled(mviews.take(i as int)));
            },
        }
        i += 1;
    }
    assert(mviews.take(manifests@.len() as int) =~= mviews);
    entries
}

/// The merged plugin catalog: the locally installed entries first, then those
/// predefined name/description pairs whose name is neither reserved nor
/// already present.
pub fn plugin_help_entries(
    manifests: &Vec<PluginManifest>,
    predefined: &Vec<(String, String)>,
) -> (r: Vec<PluginHelpEntry>)
    ensures
        entry_views(r@) == assembled(candidate_views(manifests@, predefined@)),
{
    let ghost candidates = candidate_views(manifests@, predefined@);
    let ghost mlen = manifests@.len() as int;
    let mut entries = installed_plugin_help_entries(manifests);
    proof {
        assert(candidates.take(mlen) =~= manifests@.map_values(
            |m: PluginManifest| manifest_entry(m),
        ));
    }
    let mut i: usize = 0;
    while i < predefined.len()
        invariant
            i <= predefined.len(),
            candidates == candidate_views(manifests@, predefined@),
            mlen == manifests@.len() as int,
            candidates.len() == mlen + predefined@.len(),
            entry_views(entries@) == assembled(candidates.take(mlen + i as int)),
        decreases predefined.len() - i,
    {
        proof {
            lemma_assembled_step(candidates, mlen + i as int);
            assert(candidates[mlen + i as int] == (EntryView {
                name: predefined@[i as int].0@,
                about: predefined@[i as int].1@,
            }));
        }
        let e = PluginHelpEntry {
            name: predefined[i].0.clone(),
            about: predefined[i].1.clone(),
        };
        push_candidate(&mut entries, e);
        i += 1;
    }
    assert(candidates.take(mlen + predefined@.len() as int) =~= candidates);
    entries
}

proof fn lemma_contains_name_push(s: Seq<EntryView>, e: EntryView, n: Seq<char>)
    ensures
        contains_name(s.push(e), n) <==> (contains_name(s, n) || e.name == n),
{
    if contains_name(s.push(e), n) {
        let i = choose|i: int| 0 <= i < s.push(e).len() && s.push(e)[i].name == n;
        if i < s.len() {
            assert(s[i].name == n);
        }
    }
    if contains_name(s, n) {
        let i = choose|i: int| 0 <= i < s.len() && s[i].name == n;
        assert(s.push(e)[i].name == n);
    }
    if e.name == n {
        assert(s.push(e)[s.len() as int].name == n);
    }
}

/// A name is listed in the assembled catalog exactly when it is not reserved
/// and some candidate carries it.
proof fn lemma_assembled_membership(c: Seq<EntryView>, n: Seq<char>)
    ensures
        contains_name(assembled(c), n) <==> (!has_reserved_prefix(n) && contains_name(c, n)),
    decreases c.len(),
{
    if c.len() == 0 {
    } else {
        lemma_assembled_membership(c.drop_last(), n);
        let a = assembled(c.drop_last());
        let e = c.last();
        assert(c =~= c.drop_last().push(e));
        lemma_contains_name_push(c.drop_last(), e, n);
        if !(has_reserved_prefix(e.name) || contains_name(a, e.name)) {
            lemma_contains_name_push(a, e, n);
        }
    }
}

/// No two entries of the assembled catalog share a name.
proof fn lemma_assembled_unique(c: Seq<EntryView>)
    ensures
        forall|i: int, j: int|
            0 <= i < j < assembled(c).len() ==> assembled(c)[i].name != assembled(c)[j].name,
    decreases c.len(),
{
    if c.len() == 0 {
    } else {
        lemma_assembled_unique(c.drop_last());
        let a = assembled(c.drop_last());
        let e = c.last();
        if !(has_reserved_prefix(e.name) || contains_name(a, e.name)) {
            assert forall|i: int, j: int|
                0 <= i < j < a.push(e).len() implies a.push(e)[i].name != a.push(e)[j].name by {
                if j < a.len() {
                } else {
                    assert(a.push(e)[j] == e);
                    if a[i].name == e.name {
                        assert(contains_name(a, e.name));
                    }
                }
            }
        }
    }
}

/// The first candidate to carry a non-reserved name enters the catalog whole:
/// later candidates with the same name cannot displace it.
proof fn lemma_assembled_first_wins(c: Seq<EntryView>, k: int)
    requires
        0 <= k < c.len(),
        !has_reserved_prefix(c[k].name),
        forall|j: int| 0 <= j < k ==> c[j].name != c[k].name,
    ensures
        assembled(c).contains(c[k]),
    decreases c.len(),
{
    let a = assembled(c.drop_last());
    let e = c.last();
    if k == c.len() - 1 {
        lemma_assembled_membership(c.drop_last(), e.name);
        assert(!contains_name(c.drop_last(), e.name)) by {
            if contains_name(c.drop_last(), e.name) {
                let j = choose|j: int|
                    0 <= j < c.drop_last().len() && c.drop_last()[j].name == e.name;
                assert(c[j].name == c[k].name);
            }
        }
        assert(assembled(c) == a.push(e));
        assert(a.push(e)[a.len() as int] == c[k]);
    } else {
        assert(c.drop_last()[k] == c[k]);
        lemma_assembled_first_wins(c.drop_last(), k);
        let i = choose|i: int| 0 <= i < a.len() && a[i] == c[k];
        if has_reserved_prefix(e.name) || contains_name(a, e.name) {
            assert(assembled(c)[i] == c[k]);
        } else {
            assert(assembled(c)[i] == c[k]);
        }
    }
}

/// Law: a plugin name present both among the installed manifests and in the
/// predefined table yields exactly one merged catalog entry, and that entry
/// carries the locally installed description, not the predefined one.
///
/// `k` is the position of the first installed manifest carrying the name.
pub proof fn lemma_local_description_wins(
    manifests: Seq<PluginManifest>,
    predefined: Seq<(String, String)>,
    k: int,
)
    requires
        0 <= k < manifests.len(),
        !has_reserved_prefix(manifests[k].name@),
        forall|j: int| 0 <= j < k ==> manifests[j].name@ != manifests[k].name@,
        exists|i: int| 0 <= i < predefined.len() && predefined[i].0@ == manifests[k].name@,
    ensures
        assembled(candidate_views(manifests, predefined)).contains(manifest_entry(manifests[k])),
        forall|i: int, j: int|
            (0 <= i < assembled(candidate_views(manifests, predefined)).len() && 0 <= j
                < assembled(candidate_views(manifests, predefined)).len() && #[trigger] assembled(
                candidate_views(manifests, predefined),
            )[i].name == manifests[k].name@ && #[trigger] assembled(
                candidate_views(manifests, predefined),
            )[j].name == manifests[k].name@) ==> i == j,
{
    let c = candidate_views(manifests, predefined);
    assert(c[k] == manifest_entry(manifests[k]));
    assert forall|j: int| 0 <= j < k implies c[j].name != c[k].name by {
        assert(c[j] == manifest_entry(manifests[j]));
    }
    lemma_assembled_first_wins(c, k);
    lemma_assembled_unique(c);
    let merged = assembled(c);
    assert forall|i: int, j: int|
        (0 <= i < merged.len() && 0 <= j < merged.len() && merged[i].name == manifests[k].name@
            && merged[j].name == manifests[k].name@) implies i == j by {
        if i < j {
            assert(merged[i].name != merged[j].name);
        }
        if j < i {
            assert(merged[j].name != merged[i].name);
        }
    }
}

/// Law: a name bearing the reserved prefix never yields a catalog entry,
/// whichever source — installed manifest or predefined table — carries it.
pub proof fn lemma_reserved_never_listed(
    manifests: Seq<PluginManifest>,
    predefined: Seq<(String, String)>,
    name: Seq<char>,
)
    requires
        has_reserved_prefix(name),
    ensures
        !contains_name(assembled(candidate_views(manifests, predefined)), name),
{
    lemma_assembled_membership(candidate_views(manifests, predefined), name);
}

} // verus!
