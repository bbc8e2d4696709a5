use vstd::prelude::*;
use crate::json::{field, get_field, parse_json_text, parsed_json, Json};
use crate::package_json::{
    decode_manifest, ManifestFault, pairs_view, read_string_map, req_str, string_map, PackageJson, PackageJsonView,
};
use crate::pairs::{find_pair, pair_value};
use crate::text::same_text;

verus! {

/// The registry that package metadata is fetched from.
pub const REGISTRY_ROOT_URL: &'static str = "https://registry.npmjs.org";

/// A package's metadata as the registry serves it.
#[derive(Debug)]
pub struct PackageInfo {
    /// The name of the package, for example `discord.js`.
    pub name: String,
    /// Each published version string with its manifest.
    pub versions: Vec<(String, PackageJson)>,
    /// Named pointers to versions (the `dist-tags` member), such as `latest`.
    pub dist_tags: Vec<(String, String)>,
}

/// Package metadata with its mappings seen as sequences of pairs.
pub struct PackageInfoView {
    pub name: String,
    pub versions: Seq<(String, PackageJsonView)>,
    pub dist_tags: Seq<(String, String)>,
}

impl View for PackageInfo {
    type V = PackageInfoView;

    open spec fn view(&self) -> PackageInfoView {
        PackageInfoView {
            name: self.name,
            versions: self.versions@.map_values(|p: (String, PackageJson)| (p.0, p.1@)),
            dist_tags: self.dist_tags@,
        }
    }
}

/// Why package metadata could not be had.
#[derive(Debug)]
pub enum Error {
    /// The request failed, or its body is not package metadata.
    NetworkError(String),
}

/// Why a dist-tag could not be resolved to a manifest.
#[derive(Debug, PartialEq, Eq)]
pub enum ResolveError {
    /// No dist-tag has this name.
    TagMissing(String),
    /// The dist-tag points to this version, which is not published.
    VersionMissing(String),
}

/// An object whose every member is a manifest.
pub open spec fn manifest_map(j: Json) -> Option<Seq<(String, PackageJsonView)>> {
    match j {
        Json::Object(e) => if forall|i: int|
            0 <= i < e@.len() ==> decode_manifest((#[trigger] e@[i]).1) is Ok {
            Some(e@.map_values(|p: (String, Json)| (p.0, decode_manifest(p.1)->Ok_0)))
        } else {
            None
        },
        _ => None,
    }
}

/// The package metadata that a JSON document describes.
pub open spec fn decode_info(j: Json) -> Option<PackageInfoView> {
    match j {
        Json::Object(e) => {
            let e = e@;
            match (req_str(field(e, "name"@)), field(e, "versions"@), field(e, "dist-tags"@)) {
                (Some(name), Some(v), Some(t)) => match (manifest_map(v), string_map(t)) {
                    (Some(versions), Some(dist_tags)) => Some(
                        PackageInfoView { name, versions, dist_tags },
                    ),
                    _ => None,
                },
                _ => None,
            }
        },
        _ => None,
    }
}

fn read_manifests(e: &Vec<(String, Json)>) -> (r: Option<Vec<(String, PackageJson)>>)
    ensures
        match r {
            Some(v) => manifest_map(Json::Object(*e)) == Some(
                v@.map_values(|p: (String, PackageJson)| (p.0, p.1@)),
            ),
            None => manifest_map(Json::Object(*e)) is None,
        },
{
    let n = e.len();
    let mut out: Vec<(String, PackageJson)> = Vec::new();
    let mut i: usize = 0;
    while i < n
        invariant
            n == e@.len(),
            i <= n,
            forall|j: int| 0 <= j < i ==> decode_manifest((#[trigger] e@[j]).1) is Ok,
            out@.len() == i,
            forall|j: int|
                0 <= j < i ==> (#[trigger] out@[j]).0 == e@[j].0 && out@[j].1@ == decode_manifest(
                    e@[j].1,
                )->Ok_0,
        decreases n - i,
    {
        let ghost before = out@;
        match PackageJson::from_json(&e[i].1) {
            Ok(m) => {
                assert(decode_manifest(e@[i as int].1) == Ok::<PackageJsonView, ManifestFault>(m@));
                out.push((e[i].0.clone(), m));
            },
            Err(_) => {
                return None;
            },
        }
        i = i + 1;
    }
    assert(out@.map_values(|p: (String, PackageJson)| (p.0, p.1@)) =~= e@.map_values(
        |p: (String, Json)| (p.0, decode_manifest(p.1)->Ok_0),
    ));
    Some(out)
}

/// The manifest of the first version named `key`.
pub open spec fn version_entry(versions: Seq<(String, PackageJson)>, key: Seq<char>) -> Option<
    PackageJson,
>
    decreases versions.len(),
{
    if versions.len() == 0 {
        None
    } else if versions[0].0@ == key {
        Some(versions[0].1)
    } else {
        version_entry(versions.drop_first(), key)
    }
}

fn find_version<'a>(versions: &'a Vec<(String, PackageJson)>, key: &str) -> (r: Option<
    &'a PackageJson,
>)
    ensures
        match r {
            Some(m) => version_entry(versions@, key@) == Some(*m),
            None => version_entry(versions@, key@) == None::<PackageJson>,
        },
{
    let n = versions.len();
    let mut i: usize = 0;
    assert(versions@.subrange(0, n as int) =~= versions@);
    while i < n
        invariant
            n == versions@.len(),
            i <= n,
            version_entry(versions@, key@) == version_entry(
                versions@.subrange(i as int, n as int),
                key@,
            ),
        decreases n - i,
    {
        assert(versions@.subrange(i as int, n as int).drop_first() =~= versions@.subrange(
            i as int + 1,
            n as int,
        ));
        if same_text(versions[i].0.as_str(), key) {
            return Some(&versions[i].1);
        }
        i = i + 1;
    }
    None
}

impl PackageInfo {
    /// Reads package metadata out of a JSON document.
    pub fn from_json(j: &Json) -> (r: Option<PackageInfo>)
        ensures
            match r {
                Some(info) => decode_info(*j) == Some(info@),
                None => decode_info(*j) is None,
            },
    {
        let e = match j {
            Json::Object(e) => e,
            _ => {
                return None;
            },
        };
        let name = match get_field(e, "name") {
            Some(Json::Str(s)) => s.clone(),
            _ => {
                return None;
            },
        };
        let versions = match get_field(e, "versions") {
            Some(Json::Object(v)) => match read_manifests(v) {
                Some(v) => v,
                None => {
                    return None;
                },
            },
            _ => {
                return None;
            },
        };
        let dist_tags = match get_field(e, "dist-tags") {
            Some(Json::Object(t)) => match read_string_map(t) {
                Some(t) => t,
                None => {
                    return None;
                },
            },
            _ => {
                return None;
            },
        };
        Some(PackageInfo { name, versions, dist_tags })
    }

    /// Reads package metadata out of a registry response body.
    pub fn from_body(body: &str) -> (r: Result<PackageInfo, Error>)
        ensures
            match parsed_json(body@) {
                None => r is Err,
                Some(j) => match r {
                    Ok(info) => decode_info(j) == Some(info@),
                    Err(_) => decode_info(j) is None,
                },
            },
    {
        match parse_json_text(body) {
            Ok(j) => match PackageInfo::from_json(&j) {
                Some(info) => Ok(info),
                None => Err(
                    Error::NetworkError(String::from_str("response is not package metadata")),
                ),
            },
            Err(message) => Err(Error::NetworkError(message)),
        }
    }

    /// Resolves a dist-tag to the manifest of the version it points to.
    pub fn resolve(&self, tag: &str) -> (r: Result<&PackageJson, ResolveError>)
        ensures
            match pair_value(self.dist_tags@, tag@) {
                None => r matches Err(ResolveError::TagMissing(t)) && t@ == tag@,
                Some(v) => match version_entry(self.versions@, v@) {
                    None => r matches Err(ResolveError::VersionMissing(w)) && w == v,
                    Some(m) => r matches Ok(x) && *x == m,
                },
            },
    {
        let version = match find_pair(&self.dist_tags, tag) {
            Some(v) => v,
            None => {
                return Err(ResolveError::TagMissing(String::from_str(tag)));
            },
        };
        match find_version(&self.versions, version.as_str()) {
            Some(m) => Ok(m),
            None => Err(ResolveError::VersionMissing(version.clone())),
        }
    }

    /// The manifest of the version that the `latest` dist-tag points to.
    pub fn latest(&self) -> (r: Result<&PackageJson, ResolveError>)
        ensures
            match pair_value(self.dist_tags@, "latest"@) {
                None => r matches Err(ResolveError::TagMissing(t)) && t@ == "latest"@,
                Some(v) => match version_entry(self.versions@, v@) {
                    None => r matches Err(ResolveError::VersionMissing(w)) && w == v,
                    Some(m) => r matches Ok(x) && *x == m,
                },
            },
    {
        self.resolve("latest")
    }
}

/// The address of a package's metadata: the registry root, a slash, and
/// the name as it is.
pub fn package_url(name: &str) -> (r: String)
    ensures
        r@ == REGISTRY_ROOT_URL@ + "/"@ + name@,
{
    let mut url = String::from_str(REGISTRY_ROOT_URL);
    url.append("/");
    url.append(name);
    url
}

} // verus!
