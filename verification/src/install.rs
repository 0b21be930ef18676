//! The installer: turns a downloaded archive into an installation, derives
//! the set of installed plugins from a scan of the installation root, and
//! decides which installed plugins have updates available.
//!
//! The installation root on disk is the single source of truth: one
//! subdirectory per plugin id, holding a metadata file and a bundle file. A
//! subdirectory counts as an installed plugin only when both files exist and
//! the metadata parses; anything else is invisible, not broken-looking.

use vstd::prelude::*;
use vstd::string::StringExecFns;
use crate::errors::RegistryError;
use crate::json::{json_of, parse_json};
use crate::manifest::PluginJsonEntry;
use crate::meta::{
    PluginMeta, PluginMetaV, spec_meta_of, spec_meta_of_entry, meta_from_json, meta_from_entry,
    clone_meta,
};
use crate::archive::{spec_extract, extract_bytes_from_tarball};
use crate::text::str_eq;

verus! {

broadcast use vstd::string::group_string_axioms;

/// Mathematical image of an [`InstalledPluginInfo`].
#[verifier::ext_equal]
pub ghost struct InstalledPluginInfoV {
    pub meta: PluginMetaV,
    pub installed_at: u64,
    pub updated_at: u64,
    pub local_bundle_path: Seq<char>,
    pub enabled: bool,
}

/// One installed plugin: its descriptor plus installation facts. The
/// timestamps come from the metadata file's creation and modification
/// times; `enabled` is always true — no persisted disable state exists.
#[derive(Debug, Clone, PartialEq)]
pub struct InstalledPluginInfo {
    pub meta: PluginMeta,
    pub installed_at: u64,
    pub updated_at: u64,
    pub local_bundle_path: String,
    pub enabled: bool,
}

impl View for InstalledPluginInfo {
    type V = InstalledPluginInfoV;

    open spec fn view(&self) -> InstalledPluginInfoV {
        InstalledPluginInfoV {
            meta: self.meta@,
            installed_at: self.installed_at,
            updated_at: self.updated_at,
            local_bundle_path: self.local_bundle_path@,
            enabled: self.enabled,
        }
    }
}

impl DeepView for InstalledPluginInfo {
    type V = InstalledPluginInfoV;

    open spec fn deep_view(&self) -> InstalledPluginInfoV {
        self.view()
    }
}

/// The archive entry path a plugin's bundle lives at: `package/` followed
/// by the bundle path the manifest declared.
pub fn bundle_entry_path(bundle_file: &str) -> (r: String)
    ensures
        r@ == "package/"@ + bundle_file@,
{
    let mut p = String::from_str("package/");
    p.append(bundle_file);
    p
}

/// Extracts a plugin's bundle artifact from its package archive, naming the
/// missing entry path when there is none.
pub fn extract_bundle(tgz: &[u8], bundle_file: &str) -> (r: Result<Vec<u8>, RegistryError>)
    ensures
        match spec_extract(tgz@, "package/"@ + bundle_file@) {
            Some(content) => r matches Ok(b) && b@ == content,
            None => r matches Err(e) && e matches RegistryError::NoBundle(p) && p@ == "package/"@
                + bundle_file@,
        },
{
    let path = bundle_entry_path(bundle_file);
    match extract_bytes_from_tarball(tgz, path.as_str()) {
        Some(content) => Ok(content),
        None => Err(RegistryError::NoBundle(path)),
    }
}

/// The record a fresh installation reports: the installed descriptor,
/// both timestamps set to the installation instant, the bundle's path, and
/// the plugin enabled.
pub fn make_installed_info(meta: PluginMeta, bundle_path: String, now: u64) -> (r:
    InstalledPluginInfo)
    ensures
        r@ == (InstalledPluginInfoV {
            meta: meta@,
            installed_at: now,
            updated_at: now,
            local_bundle_path: bundle_path@,
            enabled: true,
        }),
{
    InstalledPluginInfo {
        meta,
        installed_at: now,
        updated_at: now,
        local_bundle_path: bundle_path,
        enabled: true,
    }
}

/// What the application observed about one child of the installation root.
#[derive(Debug, Clone, PartialEq)]
pub struct ScanRecord {
    /// The child's file name (the plugin id it was installed under).
    pub dir_name: String,
    /// Whether the child is a directory.
    pub is_dir: bool,
    /// Whether its metadata file exists.
    pub has_meta: bool,
    /// Whether its bundle file exists.
    pub has_bundle: bool,
    /// The metadata file's content, when it could be read.
    pub meta_text: Option<String>,
    /// The absolute path of the bundle file.
    pub bundle_path: String,
    /// The metadata file's creation and modification instants, when they
    /// could be read.
    pub times: Option<(u64, u64)>,
}

/// A scanned child counts as an installed plugin only when it is a
/// directory, both files exist, its metadata was readable, and the
/// metadata parses as a descriptor.
pub open spec fn spec_record_admitted(rec: ScanRecord) -> bool {
    &&& rec.is_dir
    &&& rec.has_meta
    &&& rec.has_bundle
    &&& rec.meta_text matches Some(text) && (match json_of(text@) {
        Some(v) => spec_meta_of(v) is Some,
        None => false,
    })
}

/// The installed plugin an admitted record stands for; unreadable
/// timestamps fall back to the scan instant.
pub open spec fn spec_info_of_record(rec: ScanRecord, now: u64) -> InstalledPluginInfoV {
    InstalledPluginInfoV {
        meta: spec_meta_of(json_of(rec.meta_text.unwrap()@).unwrap()).unwrap(),
        installed_at: (match rec.times {
            Some(t) => t.0,
            None => now,
        }),
        updated_at: (match rec.times {
            Some(t) => t.1,
            None => now,
        }),
        local_bundle_path: rec.bundle_path@,
        enabled: true,
    }
}

/// The installed plugins a scan derives: the admitted records, in scan
/// order, each read as [`spec_info_of_record`].
pub open spec fn spec_collect(records: Seq<ScanRecord>, now: u64) -> Seq<InstalledPluginInfoV> {
    records.filter(|rec: ScanRecord| spec_record_admitted(rec)).map_values(
        |rec: ScanRecord| spec_info_of_record(rec, now),
    )
}

/// Derives the installed plugins from a scan of the installation root;
/// records failing any admission check are silently skipped.
pub fn collect_installed(records: &Vec<ScanRecord>, now: u64) -> (r: Vec<InstalledPluginInfo>)
    ensures
        r.deep_view() == spec_collect(records@, now),
{
    let n = records.len();
    let mut out: Vec<InstalledPluginInfo> = Vec::new();
    let mut i: usize = 0;
    proof {
        reveal(Seq::filter);
        assert(out.deep_view() =~= spec_collect(records@.take(0), now));
    }
    while i < n
        invariant
            n == records@.len(),
            0 <= i <= n,
            out.deep_view() == spec_collect(records@.take(i as int), now),
        decreases n - i,
    {
        let rec = &records[i];
        let mut admitted = false;
        let mut parsed_meta: Option<PluginMeta> = None;
        if rec.is_dir && rec.has_meta && rec.has_bundle {
            match &rec.meta_text {
                Some(text) => {
                    match parse_json(text.as_str()) {
                        Some(v) => {
                            match meta_from_json(&v) {
                                Some(m) => {
                                    admitted = true;
                                    parsed_meta = Some(m);
                                },
                                None => {
                                },
                            }
                        },
                        None => {
                        },
                    }
                },
                None => {
                },
            }
        }
        proof {
            assert(admitted == spec_record_admitted(records@[i as int]));
            reveal(Seq::filter);
            assert(records@.take(i as int + 1).drop_last() =~= records@.take(i as int));
            assert(records@.take(i as int + 1).last() == records@[i as int]);
        }
        match parsed_meta {
            Some(m) => {
                let (installed_at, updated_at) = match rec.times {
                    Some(t) => (t.0, t.1),
                    None => (now, now),
                };
                let ghost prior = out.deep_view();
                let info = InstalledPluginInfo {
                    meta: m,
                    installed_at,
                    updated_at,
                    local_bundle_path: rec.bundle_path.clone(),
                    enabled: true,
                };
                proof {
                    assert(info@ =~= spec_info_of_record(records@[i as int], now));
                }
                out.push(info);
                proof {
                    assert(out.deep_view() =~= prior.push(spec_info_of_record(records@[i as int], now)));
                    assert(out.deep_view() =~= spec_collect(records@.take(i as int + 1), now));
                }
            },
            None => {
                proof {
                    assert(out.deep_view() =~= spec_collect(records@.take(i as int + 1), now));
                }
            },
        }
        i += 1;
    }
    proof {
        assert(records@.take(n as int) =~= records@);
    }
    out
}

/// Law: a scanned child missing its metadata or bundle file, or whose
/// metadata fails to parse, is invisible — dropping it from the scan leaves
/// the derived list unchanged.
pub proof fn lemma_incomplete_record_invisible(records: Seq<ScanRecord>, i: int, now: u64)
    requires
        0 <= i < records.len(),
        !spec_record_admitted(records[i]),
    ensures
        spec_collect(records.remove(i), now) == spec_collect(records, now),
{
    broadcast use vstd::prelude::Seq::filter_distributes_over_add;

    let pred = |rec: ScanRecord| spec_record_admitted(rec);
    let left = records.take(i);
    let mid = seq![records[i]];
    let right = records.skip(i + 1);
    assert(records =~= left + (mid + right));
    assert(records.remove(i) =~= left + right);
    reveal(Seq::filter);
    assert(mid.drop_last() =~= Seq::<ScanRecord>::empty());
    assert(mid.last() == records[i]);
    assert(!pred(mid.last()));
    assert(mid.filter(pred) == mid.drop_last().filter(pred));
    assert(mid.drop_last().filter(pred) == mid.drop_last());
    assert(mid.filter(pred) =~= Seq::<ScanRecord>::empty());
    assert((mid + right).filter(pred) == mid.filter(pred) + right.filter(pred));
    assert((left + (mid + right)).filter(pred) == left.filter(pred) + (mid.filter(pred)
        + right.filter(pred)));
    assert((left + right).filter(pred) == left.filter(pred) + right.filter(pred));
    assert(records.filter(pred) =~= records.remove(i).filter(pred));
}

/// Copies a scan record; the copy equals the original.
pub fn clone_record(rec: &ScanRecord) -> (r: ScanRecord)
    ensures
        r == *rec,
{
    ScanRecord {
        dir_name: rec.dir_name.clone(),
        is_dir: rec.is_dir,
        has_meta: rec.has_meta,
        has_bundle: rec.has_bundle,
        meta_text: (match &rec.meta_text {
            Some(t) => Some(t.clone()),
            None => None,
        }),
        bundle_path: rec.bundle_path.clone(),
        times: rec.times,
    }
}

/// The installation root after a plugin is uninstalled: every child named
/// `id` is gone; the others are untouched.
pub open spec fn spec_without_id(records: Seq<ScanRecord>, id: Seq<char>) -> Seq<ScanRecord> {
    records.filter(|rec: ScanRecord| rec.dir_name@ != id)
}

/// Removes a plugin's directory from a scanned root. Removal is total:
/// an id with no directory removes nothing, and that too is success —
/// uninstalling is idempotent.
pub fn uninstall_from(records: &Vec<ScanRecord>, id: &str) -> (r: Vec<ScanRecord>)
    ensures
        r@ == spec_without_id(records@, id@),
{
    let ghost pred = |rec: ScanRecord| rec.dir_name@ != id@;
    let n = records.len();
    let mut out: Vec<ScanRecord> = Vec::new();
    let mut i: usize = 0;
    proof {
        reveal(Seq::filter);
        assert(out@ =~= records@.take(0).filter(pred));
    }
    while i < n
        invariant
            n == records@.len(),
            0 <= i <= n,
            pred == (|rec: ScanRecord| rec.dir_name@ != id@),
            out@ == records@.take(i as int).filter(pred),
        decreases n - i,
    {
        proof {
            reveal(Seq::filter);
            assert(records@.take(i as int + 1).drop_last() =~= records@.take(i as int));
            assert(records@.take(i as int + 1).last() == records@[i as int]);
        }
        if !str_eq(records[i].dir_name.as_str(), id) {
            let copy = clone_record(&records[i]);
            out.push(copy);
        }
        i += 1;
    }
    proof {
        assert(records@.take(n as int) =~= records@);
    }
    out
}

/// Law: uninstalling an id under which nothing is installed removes
/// nothing — the root is unchanged, and the operation still succeeds.
pub proof fn lemma_uninstall_absent_id(records: Seq<ScanRecord>, id: Seq<char>)
    requires
        forall|j: int| 0 <= j < records.len() ==> records[j].dir_name@ != id,
    ensures
        spec_without_id(records, id) == records,
    decreases records.len(),
{
    let pred = |rec: ScanRecord| rec.dir_name@ != id;
    reveal(Seq::filter);
    if records.len() == 0 {
    } else {
        lemma_uninstall_absent_id(records.drop_last(), id);
        assert(pred(records.last()));
        assert(records.drop_last().push(records.last()) =~= records);
    }
}

/// The version the installed list holds for `id`: the latest record's, as
/// a map built by insertion in scan order would hold it.
pub open spec fn spec_local_version(installed: Seq<InstalledPluginInfoV>, id: Seq<char>) -> Option<
    Seq<char>,
>
    decreases installed.len(),
{
    if installed.len() == 0 {
        None
    } else if installed.last().meta.id == id {
        Some(installed.last().meta.version)
    } else {
        spec_local_version(installed.drop_last(), id)
    }
}

/// A remote descriptor is an available update exactly when an installed
/// plugin shares its id and holds a different version string; versions are
/// compared only for equality.
pub open spec fn spec_wants_update(installed: Seq<InstalledPluginInfoV>, m: PluginMetaV) -> bool {
    match spec_local_version(installed, m.id) {
        Some(v) => v != m.version,
        None => false,
    }
}

/// The version installed under `id`, if any; see [`spec_local_version`].
pub fn local_version_of<'a>(installed: &'a Vec<InstalledPluginInfo>, id: &str) -> (r: Option<
    &'a String,
>)
    ensures
        match r {
            Some(s) => spec_local_version(installed.deep_view(), id@) == Some(s@),
            None => spec_local_version(installed.deep_view(), id@) is None,
        },
{
    let mut j = installed.len();
    proof {
        assert(installed.deep_view().take(j as int) =~= installed.deep_view());
    }
    while j > 0
        invariant
            0 <= j <= installed@.len(),
            installed.deep_view().len() == installed@.len(),
            spec_local_version(installed.deep_view().take(j as int), id@) == spec_local_version(
                installed.deep_view(),
                id@,
            ),
        decreases j,
    {
        j -= 1;
        proof {
            assert(installed.deep_view().take(j as int + 1).last() == installed.deep_view()[
                j as int
            ]);
            assert(installed.deep_view().take(j as int + 1).drop_last() =~= installed.deep_view()
                .take(j as int));
        }
        if str_eq(installed[j].meta.id.as_str(), id) {
            return Some(&installed[j].meta.version);
        }
    }
    proof {
        assert(installed.deep_view().take(0) =~= Seq::<InstalledPluginInfoV>::empty());
    }
    None
}

/// Selects, from the remote catalog, every descriptor that is an available
/// update for some installed plugin, in catalog order.
pub fn check_updates(installed: &Vec<InstalledPluginInfo>, remote: &Vec<PluginMeta>) -> (r: Vec<
    PluginMeta,
>)
    ensures
        r.deep_view() == remote.deep_view().filter(
            |m: PluginMetaV| spec_wants_update(installed.deep_view(), m),
        ),
{
    let ghost pred = |m: PluginMetaV| spec_wants_update(installed.deep_view(), m);
    let n = remote.len();
    let mut out: Vec<PluginMeta> = Vec::new();
    let mut i: usize = 0;
    proof {
        reveal(Seq::filter);
        assert(out.deep_view() =~= remote.deep_view().take(0).filter(pred));
    }
    while i < n
        invariant
            n == remote@.len(),
            remote.deep_view().len() == n,
            0 <= i <= n,
            pred == (|m: PluginMetaV| spec_wants_update(installed.deep_view(), m)),
            out.deep_view() == remote.deep_view().take(i as int).filter(pred),
        decreases n - i,
    {
        proof {
            reveal(Seq::filter);
            assert(remote.deep_view().take(i as int + 1).drop_last() =~= remote.deep_view().take(
                i as int,
            ));
            assert(remote.deep_view().take(i as int + 1).last() == remote.deep_view()[i as int]);
        }
        let m = &remote[i];
        let wants = match local_version_of(installed, m.id.as_str()) {
            Some(v) => !str_eq(v.as_str(), m.version.as_str()),
            None => false,
        };
        proof {
            assert(wants == pred(remote.deep_view()[i as int]));
        }
        if wants {
            let ghost prior = out.deep_view();
            let copy = clone_meta(m);
            out.push(copy);
            proof {
                assert(out.deep_view() =~= prior.push(remote.deep_view()[i as int]));
            }
        }
        i += 1;
    }
    proof {
        assert(remote.deep_view().take(n as int) =~= remote.deep_view());
    }
    out
}

/// Law: a remote descriptor is selected exactly when an installed plugin
/// shares its id and differs in version; identical versions and unmatched
/// ids are excluded.
pub proof fn lemma_update_selection(
    installed: Seq<InstalledPluginInfoV>,
    remote: Seq<PluginMetaV>,
    j: int,
)
    requires
        0 <= j < remote.len(),
    ensures
        spec_wants_update(installed, remote[j]) <==> remote.filter(
            |m: PluginMetaV| spec_wants_update(installed, m),
        ).contains(remote[j]),
{
    let pred = |m: PluginMetaV| spec_wants_update(installed, m);
    if pred(remote[j]) {
        Seq::lemma_filter_contains(remote, pred, j);
    }
    if remote.filter(pred).contains(remote[j]) {
        let k = choose|k: int|
            0 <= k < remote.filter(pred).len() && remote.filter(pred)[k] == remote[j];
        Seq::lemma_filter_pred(remote, pred, k);
    }
}

/// The descriptors a locally unpacked manifest yields: entries whose bundle
/// file is present on disk, tagged with the local-debug package name.
pub open spec fn spec_local_debug_metas(pairs: Seq<(PluginJsonEntry, bool)>) -> Seq<PluginMetaV> {
    pairs.filter(|p: (PluginJsonEntry, bool)| p.1).map_values(
        |p: (PluginJsonEntry, bool)| spec_meta_of_entry(p.0@, "local-debug"@),
    )
}

/// Reads a locally unpacked manifest's entries, each paired with whether
/// its bundle file exists on disk: entries without their bundle are
/// skipped, and a manifest with no usable entry at all is a decode failure.
pub fn local_debug_metas(pairs: &Vec<(PluginJsonEntry, bool)>) -> (r: Result<
    Vec<PluginMeta>,
    RegistryError,
>)
    ensures
        ({
            let ms = spec_local_debug_metas(pairs@);
            if ms.len() == 0 {
                r matches Err(e) && e matches RegistryError::Decode(d) && d@
                    == "no usable plugin entries"@
            } else {
                r matches Ok(list) && list.deep_view() == ms
            }
        }),
{
    let ghost pred = |p: (PluginJsonEntry, bool)| p.1;
    let n = pairs.len();
    let mut out: Vec<PluginMeta> = Vec::new();
    let mut i: usize = 0;
    proof {
        reveal(Seq::filter);
        assert(out.deep_view() =~= spec_local_debug_metas(pairs@.take(0)));
    }
    while i < n
        invariant
            n == pairs@.len(),
            0 <= i <= n,
            out.deep_view() == spec_local_debug_metas(pairs@.take(i as int)),
        decreases n - i,
    {
        proof {
            reveal(Seq::filter);
            assert(pairs@.take(i as int + 1).drop_last() =~= pairs@.take(i as int));
            assert(pairs@.take(i as int + 1).last() == pairs@[i as int]);
        }
        if pairs[i].1 {
            let ghost prior = out.deep_view();
            let m = meta_from_entry(&pairs[i].0, "local-debug");
            out.push(m);
            proof {
                assert(out.deep_view() =~= prior.push(spec_meta_of_entry(pairs@[i as int].0@,
                    "local-debug"@)));
                assert(out.deep_view() =~= spec_local_debug_metas(pairs@.take(i as int + 1)));
            }
        } else {
            proof {
                assert(out.deep_view() =~= spec_local_debug_metas(pairs@.take(i as int + 1)));
            }
        }
        i += 1;
    }
    proof {
        assert(pairs@.take(n as int) =~= pairs@);
    }
    if out.len() == 0 {
        proof {
            assert(out.deep_view().len() == 0);
        }
        Err(RegistryError::Decode(String::from_str("no usable plugin entries")))
    } else {
        Ok(out)
    }
}

} // verus!
