use vstd::prelude::*;
use vstd::string::StringExecFns;

use crate::archive::{archive_contents, open_archive, read_entry, zip_entries};
use crate::json::{spec_parse_json, parse_json, JsonValue};
use crate::manifest::{
    category_entries, entry_path, manifest_display_name, manifest_name, spec_category,
    spec_display_name, spec_entry_path, spec_name,
};

verus! {

/// Why an install call failed as a whole. Per-asset troubles are never
/// fatal: the asset is left out of the report instead.
#[derive(Clone, Copy, PartialEq, Eq, Structural, Debug)]
pub enum InstallError {
    /// The container cannot be opened at all.
    InvalidArchive,
    /// The container opens but has no manifest entry.
    MissingManifest,
    /// The manifest entry is present but not decodable.
    MalformedManifest,
    /// The install root itself cannot be created.
    DirectoryUnwritable,
}

/// One asset selected for installation: the path declared in the manifest
/// and the bytes of the matching archive entry.
pub struct Asset {
    pub path: String,
    pub data: Vec<u8>,
}

/// Everything the archive and its manifest determine about an install:
/// the extension's names and, per category, the assets to materialize.
pub struct InstallPlan {
    pub name: String,
    pub display_name: String,
    pub themes: Vec<Asset>,
    pub grammars: Vec<Asset>,
    pub snippets: Vec<Asset>,
}

/// The value handed back to the caller after an install: the names, the
/// relative paths actually installed per category, and the install
/// directory.
pub struct ExtensionInfo {
    pub name: String,
    pub display_name: String,
    pub themes: Vec<String>,
    pub grammars: Vec<String>,
    pub snippets: Vec<String>,
    pub install_path: String,
}

/// The archive entry that holds the manifest.
pub open spec fn spec_manifest_entry() -> Seq<char> {
    "extension/package.json"@
}

/// The archive-internal entry name of a declared asset path.
pub open spec fn spec_entry_name(path: Seq<char>) -> Seq<char> {
    "extension/"@ + path
}

/// Each asset as the pair of its declared path and its bytes.
pub open spec fn assets_model(assets: Seq<Asset>) -> Seq<(Seq<char>, Seq<u8>)> {
    assets.map_values(|a: Asset| (a.path@, a.data@))
}

/// Each string as its character sequence.
pub open spec fn strings_model(strings: Seq<String>) -> Seq<Seq<char>> {
    strings.map_values(|s: String| s@)
}

/// The assets one category's declared entries select from the archive:
/// for each entry with a usable path whose archive entry exists, that
/// path paired with the entry's bytes, in declaration order. Entries
/// without a usable path, and paths without a matching archive entry,
/// are left out.
pub open spec fn spec_plan_category(
    entries: Map<Seq<char>, Seq<u8>>,
    elems: Seq<JsonValue>,
) -> Seq<(Seq<char>, Seq<u8>)>
    decreases elems.len(),
{
    if elems.len() == 0 {
        Seq::empty()
    } else {
        let rest = spec_plan_category(entries, elems.drop_last());
        match spec_entry_path(elems.last()) {
            Some(p) => {
                if entries.contains_key(spec_entry_name(p)) {
                    rest.push((p, entries[spec_entry_name(p)]))
                } else {
                    rest
                }
            },
            None => rest,
        }
    }
}

/// The declared paths whose destination write succeeded, in order.
pub open spec fn spec_kept_paths(
    assets: Seq<(Seq<char>, Seq<u8>)>,
    ok: Seq<bool>,
) -> Seq<Seq<char>>
    decreases assets.len(),
{
    if assets.len() == 0 {
        Seq::empty()
    } else {
        let rest = spec_kept_paths(assets.drop_last(), ok.drop_last());
        if ok.len() == assets.len() && ok.last() {
            rest.push(assets.last().0)
        } else {
            rest
        }
    }
}

/// The fatal outcome an archive determines, if any: not a well-formed
/// container, or no manifest entry, or an undecodable manifest.
pub open spec fn spec_install_error(bytes: Seq<u8>) -> Option<InstallError> {
    match zip_entries(bytes) {
        None => Some(InstallError::InvalidArchive),
        Some(entries) => {
            if !entries.contains_key(spec_manifest_entry()) {
                Some(InstallError::MissingManifest)
            } else if spec_parse_json(entries[spec_manifest_entry()]) is None {
                Some(InstallError::MalformedManifest)
            } else {
                None
            }
        },
    }
}

/// The plan an archive's bytes determine: names from the decoded
/// manifest, and per category exactly the declared assets found in the
/// archive.
pub open spec fn spec_plan_matches(bytes: Seq<u8>, plan: InstallPlan) -> bool {
    &&& zip_entries(bytes) matches Some(entries)
    &&& spec_parse_json(entries[spec_manifest_entry()]) matches Some(m)
    &&& plan.name@ == spec_name(m)
    &&& plan.display_name@ == spec_display_name(m)
    &&& assets_model(plan.themes@) == spec_plan_category(entries, spec_category(m, "themes"@))
    &&& assets_model(plan.grammars@) == spec_plan_category(entries, spec_category(m, "grammars"@))
    &&& assets_model(plan.snippets@) == spec_plan_category(entries, spec_category(m, "snippets"@))
}

impl InstallError {
    /// A short description of the failure, for the caller's reporting.
    pub fn describe(&self) -> (r: &'static str)
        ensures
            *self == InstallError::InvalidArchive ==> r@ == "Invalid VSIX archive"@,
            *self == InstallError::MissingManifest ==> r@ == "VSIX missing extension/package.json"@,
            *self == InstallError::MalformedManifest ==> r@ == "Invalid package.json"@,
            *self == InstallError::DirectoryUnwritable ==> r@ == "Cannot create directory"@,
    {
        match self {
            InstallError::InvalidArchive => "Invalid VSIX archive",
            InstallError::MissingManifest => "VSIX missing extension/package.json",
            InstallError::MalformedManifest => "Invalid package.json",
            InstallError::DirectoryUnwritable => "Cannot create directory",
        }
    }
}

/// The archive-internal entry name of a declared asset path.
pub fn entry_name(path: &str) -> (r: String)
    ensures
        r@ == spec_entry_name(path@),
{
    let mut full = String::from_str("extension/");
    full.append(path);
    full
}

/// Select the assets of one category's element array: for each element
/// with a usable path, look the entry up in the archive and keep its
/// bytes; elements without a usable path or matching entry are skipped.
#[verifier::loop_isolation(false)]
fn plan_elements(
    archive: &mut zip::read::ZipArchive<std::io::Cursor<Vec<u8>>>,
    elems: &Vec<JsonValue>,
) -> (r: Vec<Asset>)
    ensures
        archive_contents(*final(archive)) == archive_contents(*old(archive)),
        assets_model(r@) == spec_plan_category(archive_contents(*old(archive)), elems@),
{
    let mut result: Vec<Asset> = Vec::new();
    let mut i: usize = 0;
    proof {
        assert(assets_model(result@) =~= spec_plan_category(
            archive_contents(*old(archive)),
            elems@.take(0),
        ));
    }
    while i < elems.len()
        invariant
            i <= elems.len(),
            archive_contents(*archive) == archive_contents(*old(archive)),
            assets_model(result@) == spec_plan_category(
                archive_contents(*old(archive)),
                elems@.take(i as int),
            ),
        decreases elems.len() - i,
    {
        proof {
            assert(elems@.take(i as int + 1).drop_last() =~= elems@.take(i as int));
        }
        match entry_path(&elems[i]) {
            Some(path) => {
                let full = entry_name(path.as_str());
                let cloned = path.clone();
                match read_entry(archive, full.as_str()) {
                    Some(data) => {
                        let asset = Asset { path: cloned, data };
                        proof {
                            assert(assets_model(result@.push(asset)) =~= assets_model(
                                result@,
                            ).push((asset.path@, asset.data@)));
                        }
                        result.push(asset);
                    },
                    None => {},
                }
            },
            None => {},
        }
        i = i + 1;
    }
    proof {
        assert(elems@.take(elems@.len() as int) =~= elems@);
    }
    result
}

/// Select the assets one contribution category declares: nothing when the
/// category is absent or not an array, and the found declared assets
/// otherwise.
pub fn plan_category(
    archive: &mut zip::read::ZipArchive<std::io::Cursor<Vec<u8>>>,
    m: &JsonValue,
    category: &str,
) -> (r: Vec<Asset>)
    ensures
        archive_contents(*final(archive)) == archive_contents(*old(archive)),
        assets_model(r@) == spec_plan_category(
            archive_contents(*old(archive)),
            spec_category(*m, category@),
        ),
{
    match category_entries(m, category) {
        Some(elems) => plan_elements(archive, elems),
        None => {
            let empty: Vec<Asset> = Vec::new();
            proof {
                assert(assets_model(empty@) =~= spec_plan_category(
                    archive_contents(*old(archive)),
                    spec_category(*m, category@),
                ));
            }
            empty
        },
    }
}

/// Decide everything about an install that the archive's bytes determine:
/// open the container, decode the manifest, and select per category the
/// declared assets whose entries the archive holds. Fails exactly when
/// the container is unreadable, the manifest entry is absent, or the
/// manifest is undecodable; nothing is selected in that case.
pub fn install_plan(archive_bytes: Vec<u8>) -> (r: Result<InstallPlan, InstallError>)
    ensures
        r is Ok <==> spec_install_error(archive_bytes@) is None,
        r matches Err(e) ==> Some(e) == spec_install_error(archive_bytes@),
        r matches Ok(plan) ==> spec_plan_matches(archive_bytes@, plan),
{
    let mut archive = match open_archive(archive_bytes) {
        Some(a) => a,
        None => {
            return Err(InstallError::InvalidArchive);
        },
    };
    let manifest_bytes = match read_entry(&mut archive, "extension/package.json") {
        Some(b) => b,
        None => {
            return Err(InstallError::MissingManifest);
        },
    };
    let manifest = match parse_json(manifest_bytes.as_slice()) {
        Some(m) => m,
        None => {
            return Err(InstallError::MalformedManifest);
        },
    };
    let name = manifest_name(&manifest);
    let display_name = manifest_display_name(&manifest);
    let themes = plan_category(&mut archive, &manifest, "themes");
    let grammars = plan_category(&mut archive, &manifest, "grammars");
    let snippets = plan_category(&mut archive, &manifest, "snippets");
    Ok(InstallPlan { name, display_name, themes, grammars, snippets })
}

/// The per-extension install directory under the caller's home.
pub fn install_dir(home: &str, name: &str) -> (r: String)
    ensures
        r@ == home@ + "/.cogmd/extensions/"@ + name@,
{
    let mut out = String::from_str(home);
    out.append("/.cogmd/extensions/");
    out.append(name);
    out
}

/// The declared paths of the assets whose write succeeded, in order: the
/// per-asset best-effort policy made explicit. A `false` flag leaves that
/// single asset out and nothing else.
#[verifier::loop_isolation(false)]
pub fn written_paths(assets: &Vec<Asset>, ok: &Vec<bool>) -> (r: Vec<String>)
    requires
        ok@.len() == assets@.len(),
    ensures
        strings_model(r@) == spec_kept_paths(assets_model(assets@), ok@),
{
    let mut result: Vec<String> = Vec::new();
    let mut i: usize = 0;
    proof {
        assert(strings_model(result@) =~= spec_kept_paths(
            assets_model(assets@).take(0),
            ok@.take(0),
        ));
    }
    while i < assets.len()
        invariant
            i <= assets.len(),
            strings_model(result@) == spec_kept_paths(
                assets_model(assets@).take(i as int),
                ok@.take(i as int),
            ),
        decreases assets.len() - i,
    {
        proof {
            assert(assets_model(assets@).take(i as int + 1).drop_last() =~= assets_model(
                assets@,
            ).take(i as int));
            assert(ok@.take(i as int + 1).drop_last() =~= ok@.take(i as int));
        }
        if ok[i] {
            let p = assets[i].path.clone();
            proof {
                assert(strings_model(result@.push(p)) =~= strings_model(result@).push(p@));
            }
            result.push(p);
        }
        i = i + 1;
    }
    proof {
        assert(assets_model(assets@).take(assets@.len() as int) =~= assets_model(assets@));
        assert(ok@.take(ok@.len() as int) =~= ok@);
    }
    result
}

/// Assemble the caller-visible report: the names, per category the paths
/// whose write succeeded, and the install directory. Pure aggregation
/// with no failure mode of its own.
pub fn build_report(
    plan: &InstallPlan,
    themes_ok: &Vec<bool>,
    grammars_ok: &Vec<bool>,
    snippets_ok: &Vec<bool>,
    install_path: String,
) -> (r: ExtensionInfo)
    requires
        themes_ok@.len() == plan.themes@.len(),
        grammars_ok@.len() == plan.grammars@.len(),
        snippets_ok@.len() == plan.snippets@.len(),
    ensures
        r.name@ == plan.name@,
        r.display_name@ == plan.display_name@,
        strings_model(r.themes@) == spec_kept_paths(assets_model(plan.themes@), themes_ok@),
        strings_model(r.grammars@) == spec_kept_paths(assets_model(plan.grammars@), grammars_ok@),
        strings_model(r.snippets@) == spec_kept_paths(assets_model(plan.snippets@), snippets_ok@),
        r.install_path@ == install_path@,
{
    ExtensionInfo {
        name: plan.name.clone(),
        display_name: plan.display_name.clone(),
        themes: written_paths(&plan.themes, themes_ok),
        grammars: written_paths(&plan.grammars, grammars_ok),
        snippets: written_paths(&plan.snippets, snippets_ok),
        install_path,
    }
}

} // verus!
