use vstd::prelude::*;
use crate::json::{
    field, get_field, keys, lemma_field_absent, opt_keys, parse_json_text, parsed_json, pretty_text,
    push_member, push_optional, render_pretty, Json,
};

verus! {

/// Script names and their shell commands, in manifest order.
pub type Scripts = Vec<(String, String)>;

/// Package names and their version ranges, in manifest order.
pub type Dependencies = Vec<(String, String)>;

/// A package manifest (`package.json`).
#[derive(Debug, PartialEq, Eq, Default)]
pub struct PackageJson {
    pub name: String,
    pub version: String,
    pub author: Option<AuthorVariant>,
    pub private: bool,
    pub license: Option<String>,
    pub description: Option<String>,
    pub main: Option<String>,
    pub repository: Option<RepositoryVariant>,
    pub scripts: Option<Scripts>,
    pub dependencies: Option<Dependencies>,
    pub dev_dependencies: Option<Dependencies>,
}

/// The `author` field: a record, or free text.
#[derive(Debug, PartialEq, Eq)]
pub enum AuthorVariant {
    Author { name: String, url: Option<String> },
    String(String),
}

/// The `repository` field: a record, or free text. `kind` is the `type` member.
#[derive(Debug, PartialEq, Eq)]
pub enum RepositoryVariant {
    Repository { kind: String, url: Option<String> },
    String(String),
}

/// A manifest with its mappings seen as sequences of pairs.
pub struct PackageJsonView {
    pub name: String,
    pub version: String,
    pub author: Option<AuthorVariant>,
    pub private: bool,
    pub license: Option<String>,
    pub description: Option<String>,
    pub main: Option<String>,
    pub repository: Option<RepositoryVariant>,
    pub scripts: Option<Seq<(String, String)>>,
    pub dependencies: Option<Seq<(String, String)>>,
    pub dev_dependencies: Option<Seq<(String, String)>>,
}

/// The pairs of an optional mapping, as a sequence.
pub open spec fn pairs_view(m: Option<Vec<(String, String)>>) -> Option<Seq<(String, String)>> {
    match m {
        Some(v) => Some(v@),
        None => None,
    }
}

impl View for PackageJson {
    type V = PackageJsonView;

    open spec fn view(&self) -> PackageJsonView {
        PackageJsonView {
            name: self.name,
            version: self.version,
            author: self.author,
            private: self.private,
            license: self.license,
            description: self.description,
            main: self.main,
            repository: self.repository,
            scripts: pairs_view(self.scripts),
            dependencies: pairs_view(self.dependencies),
            dev_dependencies: pairs_view(self.dev_dependencies),
        }
    }
}

/// Why a manifest cannot be had.
#[derive(Debug)]
pub enum Error {
    /// The text is not one JSON document; serde_json's message.
    Serde(String),
    /// The document is not a JSON object.
    NotAnObject,
    /// The named member has the wrong shape.
    InvalidField(String),
    /// No manifest was found.
    NotFound,
    /// The file system refused access; its message.
    Io(String),
    /// The manifest file is not valid UTF-8.
    Utf8,
}

/// Why a JSON document does not describe a manifest.
pub enum ManifestFault {
    NotAnObject,
    Field(Seq<char>),
}

/// A required string member.
pub open spec fn req_str(f: Option<Json>) -> Option<String> {
    match f {
        Some(Json::Str(s)) => Some(s),
        _ => None,
    }
}

/// An optional string member: absent and `null` both read as `None`.
pub open spec fn opt_str(f: Option<Json>) -> Option<Option<String>> {
    match f {
        None => Some(None),
        Some(Json::Null) => Some(None),
        Some(Json::Str(s)) => Some(Some(s)),
        _ => None,
    }
}

/// The `private` member: absent reads as `false`.
pub open spec fn flag(f: Option<Json>) -> Option<bool> {
    match f {
        None => Some(false),
        Some(Json::Bool(b)) => Some(b),
        _ => None,
    }
}

/// The structured shape is tried first, then the bare string.
pub open spec fn author_of(j: Json) -> Option<AuthorVariant> {
    match j {
        Json::Object(e) => match (req_str(field(e@, "name"@)), opt_str(field(e@, "url"@))) {
            (Some(name), Some(url)) => Some(AuthorVariant::Author { name, url }),
            _ => None,
        },
        Json::Str(s) => Some(AuthorVariant::String(s)),
        _ => None,
    }
}

/// The structured shape is tried first, then the bare string.
pub open spec fn repository_of(j: Json) -> Option<RepositoryVariant> {
    match j {
        Json::Object(e) => match (req_str(field(e@, "type"@)), opt_str(field(e@, "url"@))) {
            (Some(kind), Some(url)) => Some(RepositoryVariant::Repository { kind, url }),
            _ => None,
        },
        Json::Str(s) => Some(RepositoryVariant::String(s)),
        _ => None,
    }
}

/// An optional `author` member.
pub open spec fn opt_author(f: Option<Json>) -> Option<Option<AuthorVariant>> {
    match f {
        None => Some(None),
        Some(Json::Null) => Some(None),
        Some(j) => match author_of(j) {
            Some(a) => Some(Some(a)),
            None => None,
        },
    }
}

/// An optional `repository` member.
pub open spec fn opt_repository(f: Option<Json>) -> Option<Option<RepositoryVariant>> {
    match f {
        None => Some(None),
        Some(Json::Null) => Some(None),
        Some(j) => match repository_of(j) {
            Some(a) => Some(Some(a)),
            None => None,
        },
    }
}

/// An object whose every member is a string.
pub open spec fn string_map(j: Json) -> Option<Seq<(String, String)>> {
    match j {
        Json::Object(e) => if forall|i: int| 0 <= i < e@.len() ==> (#[trigger] e@[i]).1 is Str {
            Some(e@.map_values(|p: (String, Json)| (p.0, p.1->Str_0)))
        } else {
            None
        },
        _ => None,
    }
}

/// An optional mapping member.
pub open spec fn opt_map(f: Option<Json>) -> Option<Option<Seq<(String, String)>>> {
    match f {
        None => Some(None),
        Some(Json::Null) => Some(None),
        Some(j) => match string_map(j) {
            Some(m) => Some(Some(m)),
            None => None,
        },
    }
}

/// The manifest that a JSON document describes; members not named here are
/// ignored, and the first field in declaration order with a wrong shape is
/// reported.
pub open spec fn decode_manifest(j: Json) -> Result<PackageJsonView, ManifestFault> {
    match j {
        Json::Object(e) => {
            let e = e@;
            if req_str(field(e, "name"@)) is None {
                Err(ManifestFault::Field("name"@))
            } else if req_str(field(e, "version"@)) is None {
                Err(ManifestFault::Field("version"@))
            } else if opt_author(field(e, "author"@)) is None {
                Err(ManifestFault::Field("author"@))
            } else if flag(field(e, "private"@)) is None {
                Err(ManifestFault::Field("private"@))
            } else if opt_str(field(e, "license"@)) is None {
                Err(ManifestFault::Field("license"@))
            } else if opt_str(field(e, "description"@)) is None {
                Err(ManifestFault::Field("description"@))
            } else if opt_str(field(e, "main"@)) is None {
                Err(ManifestFault::Field("main"@))
            } else if opt_repository(field(e, "repository"@)) is None {
                Err(ManifestFault::Field("repository"@))
            } else if opt_map(field(e, "scripts"@)) is None {
                Err(ManifestFault::Field("scripts"@))
            } else if opt_map(field(e, "dependencies"@)) is None {
                Err(ManifestFault::Field("dependencies"@))
            } else if opt_map(field(e, "devDependencies"@)) is None {
                Err(ManifestFault::Field("devDependencies"@))
            } else {
                Ok(
                    PackageJsonView {
                        name: req_str(field(e, "name"@))->Some_0,
                        version: req_str(field(e, "version"@))->Some_0,
                        author: opt_author(field(e, "author"@))->Some_0,
                        private: flag(field(e, "private"@))->Some_0,
                        license: opt_str(field(e, "license"@))->Some_0,
                        description: opt_str(field(e, "description"@))->Some_0,
                        main: opt_str(field(e, "main"@))->Some_0,
                        repository: opt_repository(field(e, "repository"@))->Some_0,
                        scripts: opt_map(field(e, "scripts"@))->Some_0,
                        dependencies: opt_map(field(e, "dependencies"@))->Some_0,
                        dev_dependencies: opt_map(field(e, "devDependencies"@))->Some_0,
                    },
                )
            }
        },
        _ => Err(ManifestFault::NotAnObject),
    }
}

/// `r` is what decoding `j` gives: the manifest, or the matching error.
pub open spec fn decoded_as(j: Json, r: Result<PackageJson, Error>) -> bool {
    match (r, decode_manifest(j)) {
        (Ok(m), Ok(v)) => m@ == v,
        (Err(Error::NotAnObject), Err(ManifestFault::NotAnObject)) => true,
        (Err(Error::InvalidField(f)), Err(ManifestFault::Field(g))) => f@ == g,
        _ => false,
    }
}

fn read_req_str(e: &Vec<(String, Json)>, key: &str) -> (r: Option<String>)
    ensures
        r == req_str(field(e@, key@)),
{
    match get_field(e, key) {
        Some(Json::Str(s)) => Some(s.clone()),
        _ => None,
    }
}

fn read_opt_str(e: &Vec<(String, Json)>, key: &str) -> (r: Option<Option<String>>)
    ensures
        r == opt_str(field(e@, key@)),
{
    match get_field(e, key) {
        None => Some(None),
        Some(Json::Null) => Some(None),
        Some(Json::Str(s)) => Some(Some(s.clone())),
        _ => None,
    }
}

fn read_flag(e: &Vec<(String, Json)>, key: &str) -> (r: Option<bool>)
    ensures
        r == flag(field(e@, key@)),
{
    match get_field(e, key) {
        None => Some(false),
        Some(Json::Bool(b)) => Some(*b),
        _ => None,
    }
}

fn read_author(e: &Vec<(String, Json)>, key: &str) -> (r: Option<Option<AuthorVariant>>)
    ensures
        r == opt_author(field(e@, key@)),
{
    match get_field(e, key) {
        None => Some(None),
        Some(Json::Null) => Some(None),
        Some(Json::Object(inner)) => match (read_req_str(inner, "name"), read_opt_str(inner, "url")) {
            (Some(name), Some(url)) => Some(Some(AuthorVariant::Author { name, url })),
            _ => None,
        },
        Some(Json::Str(s)) => Some(Some(AuthorVariant::String(s.clone()))),
        _ => None,
    }
}

fn read_repository(e: &Vec<(String, Json)>, key: &str) -> (r: Option<Option<RepositoryVariant>>)
    ensures
        r == opt_repository(field(e@, key@)),
{
    match get_field(e, key) {
        None => Some(None),
        Some(Json::Null) => Some(None),
        Some(Json::Object(inner)) => match (read_req_str(inner, "type"), read_opt_str(inner, "url")) {
            (Some(kind), Some(url)) => Some(Some(RepositoryVariant::Repository { kind, url })),
            _ => None,
        },
        Some(Json::Str(s)) => Some(Some(RepositoryVariant::String(s.clone()))),
        _ => None,
    }
}

pub(crate) fn read_string_map(e: &Vec<(String, Json)>) -> (r: Option<Vec<(String, String)>>)
    ensures
        pairs_view(r) == string_map(Json::Object(*e)),
{
    let n = e.len();
    let mut out: Vec<(String, String)> = Vec::new();
    let mut i: usize = 0;
    while i < n
        invariant
            n == e@.len(),
            i <= n,
            forall|j: int| 0 <= j < i ==> (#[trigger] e@[j]).1 is Str,
            out@ =~= e@.subrange(0, i as int).map_values(|p: (String, Json)| (p.0, p.1->Str_0)),
        decreases n - i,
    {
        match &e[i].1 {
            Json::Str(s) => {
                out.push((e[i].0.clone(), s.clone()));
            },
            _ => {
                return None;
            },
        }
        i = i + 1;
        assert(out@ =~= e@.subrange(0, i as int).map_values(
            |p: (String, Json)| (p.0, p.1->Str_0),
        ));
    }
    assert(e@.subrange(0, n as int) =~= e@);
    Some(out)
}

fn read_map(e: &Vec<(String, Json)>, key: &str) -> (r: Option<Option<Vec<(String, String)>>>)
    ensures
        match r {
            Some(m) => opt_map(field(e@, key@)) == Some(pairs_view(m)),
            None => opt_map(field(e@, key@)) is None,
        },
{
    match get_field(e, key) {
        None => Some(None),
        Some(Json::Null) => Some(None),
        Some(Json::Object(inner)) => match read_string_map(inner) {
            Some(m) => Some(Some(m)),
            None => None,
        },
        _ => None,
    }
}

fn invalid(name: &str) -> (r: Result<PackageJson, Error>)
    ensures
        r matches Err(Error::InvalidField(f)) && f@ == name@,
{
    Err(Error::InvalidField(String::from_str(name)))
}

impl PackageJson {
    /// Reads a manifest out of a JSON document.
    pub fn from_json(j: &Json) -> (r: Result<PackageJson, Error>)
        ensures
            decoded_as(*j, r),
    {
        let e = match j {
            Json::Object(e) => e,
            _ => {
                return Err(Error::NotAnObject);
            },
        };
        let name = match read_req_str(e, "name") {
            Some(v) => v,
            None => {
                return invalid("name");
            },
        };
        let version = match read_req_str(e, "version") {
            Some(v) => v,
            None => {
                return invalid("version");
            },
        };
        let author = match read_author(e, "author") {
            Some(v) => v,
            None => {
                return invalid("author");
            },
        };
        let private = match read_flag(e, "private") {
            Some(v) => v,
            None => {
                return invalid("private");
            },
        };
        let license = match read_opt_str(e, "license") {
            Some(v) => v,
            None => {
                return invalid("license");
            },
        };
        let description = match read_opt_str(e, "description") {
            Some(v) => v,
            None => {
                return invalid("description");
            },
        };
        let main = match read_opt_str(e, "main") {
            Some(v) => v,
            None => {
                return invalid("main");
            },
        };
        let repository = match read_repository(e, "repository") {
            Some(v) => v,
            None => {
                return invalid("repository");
            },
        };
        let scripts = match read_map(e, "scripts") {
            Some(v) => v,
            None => {
                return invalid("scripts");
            },
        };
        let dependencies = match read_map(e, "dependencies") {
            Some(v) => v,
            None => {
                return invalid("dependencies");
            },
        };
        let dev_dependencies = match read_map(e, "devDependencies") {
            Some(v) => v,
            None => {
                return invalid("devDependencies");
            },
        };
        Ok(
            PackageJson {
                name,
                version,
                author,
                private,
                license,
                description,
                main,
                repository,
                scripts,
                dependencies,
                dev_dependencies,
            },
        )
    }

    /// Parses a manifest from JSON text.
    pub fn parse(json: &str) -> (r: Result<PackageJson, Error>)
        ensures
            match parsed_json(json@) {
                None => r matches Err(Error::Serde(_)),
                Some(j) => decoded_as(j, r),
            },
    {
        match parse_json_text(json) {
            Ok(j) => PackageJson::from_json(&j),
            Err(message) => Err(Error::Serde(message)),
        }
    }
}

} // verus!

verus! {


/// The member names of an encoded manifest, in declaration order, leaving
/// out absent fields and `private` when it is false.
pub open spec fn expected_keys(m: PackageJsonView) -> Seq<Seq<char>> {
    Seq::empty().push("name"@).push("version"@) + opt_keys(m.author is Some, "author"@) + opt_keys(m.private, "private"@)
        + opt_keys(m.license is Some, "license"@) + opt_keys(m.description is Some, "description"@)
        + opt_keys(m.main is Some, "main"@) + opt_keys(m.repository is Some, "repository"@)
        + opt_keys(m.scripts is Some, "scripts"@) + opt_keys(m.dependencies is Some, "dependencies"@)
        + opt_keys(m.dev_dependencies is Some, "devDependencies"@)
}

/// The member that an optional string field encodes to.
pub open spec fn str_json(s: Option<String>) -> Option<Json> {
    match s {
        Some(s) => Some(Json::Str(s)),
        None => None,
    }
}

/// `v` is the encoding of an author: the bare string, or an object with
/// `name` and, when present, `url`.
pub open spec fn author_json(a: AuthorVariant, v: Json) -> bool {
    match a {
        AuthorVariant::String(s) => v == Json::Str(s),
        AuthorVariant::Author { name, url } => match v {
            Json::Object(e) => {
                &&& keys(e@) == seq!["name"@] + opt_keys(url is Some, "url"@)
                &&& field(e@, "name"@) == Some(Json::Str(name))
                &&& field(e@, "url"@) == str_json(url)
            },
            _ => false,
        },
    }
}

/// `v` is the encoding of a repository: the bare string, or an object with
/// `type` and, when present, `url`.
pub open spec fn repository_json(a: RepositoryVariant, v: Json) -> bool {
    match a {
        RepositoryVariant::String(s) => v == Json::Str(s),
        RepositoryVariant::Repository { kind, url } => match v {
            Json::Object(e) => {
                &&& keys(e@) == seq!["type"@] + opt_keys(url is Some, "url"@)
                &&& field(e@, "type"@) == Some(Json::Str(kind))
                &&& field(e@, "url"@) == str_json(url)
            },
            _ => false,
        },
    }
}

/// `v` is an object holding the pairs of `m` in order, each value a string.
pub open spec fn map_json(m: Seq<(String, String)>, v: Json) -> bool {
    match v {
        Json::Object(e) => {
            &&& e@.len() == m.len()
            &&& forall|i: int|
                0 <= i < m.len() ==> (#[trigger] e@[i]).0 == m[i].0 && e@[i].1 == Json::Str(m[i].1)
        },
        _ => false,
    }
}

/// An optional field and its optional member agree: both absent, or both
/// present with `enc` relating them.
pub open spec fn opt_json<T>(x: Option<T>, f: Option<Json>, enc: spec_fn(T, Json) -> bool) -> bool {
    match (x, f) {
        (None, None) => true,
        (Some(a), Some(v)) => enc(a, v),
        _ => false,
    }
}

/// `j` is the JSON encoding of the manifest `m`: an object whose members
/// are [`expected_keys`] in that order, each holding its field.
pub open spec fn encodes(m: PackageJsonView, j: Json) -> bool {
    match j {
        Json::Object(e) => {
            let e = e@;
            &&& keys(e) == expected_keys(m)
            &&& field(e, "name"@) == Some(Json::Str(m.name))
            &&& field(e, "version"@) == Some(Json::Str(m.version))
            &&& opt_json(m.author, field(e, "author"@), |a: AuthorVariant, v: Json| author_json(a, v))
            &&& field(e, "private"@) == if m.private {
                Some(Json::Bool(true))
            } else {
                None
            }
            &&& field(e, "license"@) == str_json(m.license)
            &&& field(e, "description"@) == str_json(m.description)
            &&& field(e, "main"@) == str_json(m.main)
            &&& opt_json(
                m.repository,
                field(e, "repository"@),
                |a: RepositoryVariant, v: Json| repository_json(a, v),
            )
            &&& opt_json(m.scripts, field(e, "scripts"@), |a: Seq<(String, String)>, v: Json| map_json(a, v))
            &&& opt_json(
                m.dependencies,
                field(e, "dependencies"@),
                |a: Seq<(String, String)>, v: Json| map_json(a, v),
            )
            &&& opt_json(
                m.dev_dependencies,
                field(e, "devDependencies"@),
                |a: Seq<(String, String)>, v: Json| map_json(a, v),
            )
        },
        _ => false,
    }
}

/// Lengths and first characters of the member names, enough to tell any
/// two of them apart.
proof fn lemma_key_literals()
    ensures
        "name"@.len() == 4,
        "name"@[0] == 'n',
        "version"@.len() == 7,
        "version"@[0] == 'v',
        "author"@.len() == 6,
        "author"@[0] == 'a',
        "private"@.len() == 7,
        "private"@[0] == 'p',
        "license"@.len() == 7,
        "license"@[0] == 'l',
        "description"@.len() == 11,
        "description"@[0] == 'd',
        "main"@.len() == 4,
        "main"@[0] == 'm',
        "repository"@.len() == 10,
        "repository"@[0] == 'r',
        "scripts"@.len() == 7,
        "scripts"@[0] == 's',
        "dependencies"@.len() == 12,
        "dependencies"@[0] == 'd',
        "devDependencies"@.len() == 15,
        "devDependencies"@[0] == 'd',
        "type"@.len() == 4,
        "type"@[0] == 't',
        "url"@.len() == 3,
        "url"@[0] == 'u',
{
    reveal_strlit("name");
    reveal_strlit("version");
    reveal_strlit("author");
    reveal_strlit("private");
    reveal_strlit("license");
    reveal_strlit("description");
    reveal_strlit("main");
    reveal_strlit("repository");
    reveal_strlit("scripts");
    reveal_strlit("dependencies");
    reveal_strlit("devDependencies");
    reveal_strlit("type");
    reveal_strlit("url");
}

fn pairs_to_json(m: &Vec<(String, String)>) -> (r: Json)
    ensures
        map_json(m@, r),
{
    let mut e: Vec<(String, Json)> = Vec::new();
    let mut i: usize = 0;
    while i < m.len()
        invariant
            i <= m@.len(),
            e@.len() == i,
            forall|j: int|
                0 <= j < i ==> (#[trigger] e@[j]).0 == m@[j].0 && e@[j].1 == Json::Str(m@[j].1),
        decreases m@.len() - i,
    {
        e.push((m[i].0.clone(), Json::Str(m[i].1.clone())));
        i = i + 1;
    }
    Json::Object(e)
}

fn author_to_json(a: &AuthorVariant) -> (r: Json)
    ensures
        author_json(*a, r),
{
    match a {
        AuthorVariant::String(s) => Json::Str(s.clone()),
        AuthorVariant::Author { name, url } => {
            let mut e: Vec<(String, Json)> = Vec::new();
            proof {
                lemma_key_literals();
                lemma_field_absent(e@, "name"@);
                lemma_field_absent(e@, "url"@);
            }
            push_member(&mut e, "name", Json::Str(name.clone()));
            if let Some(u) = url {
                push_member(&mut e, "url", Json::Str(u.clone()));
            }
            assert(keys(e@) =~= seq!["name"@] + opt_keys(url is Some, "url"@));
            Json::Object(e)
        },
    }
}

fn repository_to_json(a: &RepositoryVariant) -> (r: Json)
    ensures
        repository_json(*a, r),
{
    match a {
        RepositoryVariant::String(s) => Json::Str(s.clone()),
        RepositoryVariant::Repository { kind, url } => {
            let mut e: Vec<(String, Json)> = Vec::new();
            proof {
                lemma_key_literals();
                lemma_field_absent(e@, "type"@);
                lemma_field_absent(e@, "url"@);
            }
            push_member(&mut e, "type", Json::Str(kind.clone()));
            if let Some(u) = url {
                push_member(&mut e, "url", Json::Str(u.clone()));
            }
            assert(keys(e@) =~= seq!["type"@] + opt_keys(url is Some, "url"@));
            Json::Object(e)
        },
    }
}

fn str_member(s: &Option<String>) -> (r: Option<Json>)
    ensures
        r == str_json(*s),
{
    match s {
        Some(s) => Some(Json::Str(s.clone())),
        None => None,
    }
}

fn author_member(a: &Option<AuthorVariant>) -> (r: Option<Json>)
    ensures
        opt_json(*a, r, |a: AuthorVariant, v: Json| author_json(a, v)),
        r is Some == a is Some,
{
    match a {
        Some(a) => Some(author_to_json(a)),
        None => None,
    }
}

fn repository_member(a: &Option<RepositoryVariant>) -> (r: Option<Json>)
    ensures
        opt_json(*a, r, |a: RepositoryVariant, v: Json| repository_json(a, v)),
        r is Some == a is Some,
{
    match a {
        Some(a) => Some(repository_to_json(a)),
        None => None,
    }
}

fn map_member(m: &Option<Vec<(String, String)>>) -> (r: Option<Json>)
    ensures
        opt_json(pairs_view(*m), r, |a: Seq<(String, String)>, v: Json| map_json(a, v)),
        r is Some == m is Some,
{
    match m {
        Some(m) => Some(pairs_to_json(m)),
        None => None,
    }
}

impl PackageJson {
    /// The JSON encoding of this manifest: fields in declaration order,
    /// absent ones left out, and `private` only when it is true.
    pub fn to_json(&self) -> (r: Json)
        ensures
            encodes(self@, r),
    {
        proof {
            lemma_key_literals();
        }
        let mut e: Vec<(String, Json)> = Vec::new();
        proof {
            assert forall|k: Seq<char>| true implies #[trigger] field(e@, k) == None::<Json> by {
                lemma_field_absent(e@, k);
            }
        }
        let ghost e0 = e@;
        push_member(&mut e, "name", Json::Str(self.name.clone()));
        push_member(&mut e, "version", Json::Str(self.version.clone()));
        push_optional(&mut e, "author", author_member(&self.author));
        push_optional(&mut e, "private", if self.private { Some(Json::Bool(true)) } else { None });
        push_optional(&mut e, "license", str_member(&self.license));
        push_optional(&mut e, "description", str_member(&self.description));
        push_optional(&mut e, "main", str_member(&self.main));
        push_optional(&mut e, "repository", repository_member(&self.repository));
        push_optional(&mut e, "scripts", map_member(&self.scripts));
        push_optional(&mut e, "dependencies", map_member(&self.dependencies));
        push_optional(&mut e, "devDependencies", map_member(&self.dev_dependencies));
        assert(keys(e0) =~= Seq::<Seq<char>>::empty());
        Json::Object(e)
    }
}

proof fn lemma_author_back(a: Option<AuthorVariant>, f: Option<Json>)
    requires
        opt_json(a, f, |a: AuthorVariant, v: Json| author_json(a, v)),
    ensures
        opt_author(f) == Some(a),
{
    if let Some(a) = a {
        assert(author_json(a, f->Some_0));
    }
}

proof fn lemma_repository_back(a: Option<RepositoryVariant>, f: Option<Json>)
    requires
        opt_json(a, f, |a: RepositoryVariant, v: Json| repository_json(a, v)),
    ensures
        opt_repository(f) == Some(a),
{
    if let Some(a) = a {
        assert(repository_json(a, f->Some_0));
    }
}

proof fn lemma_map_back(m: Option<Seq<(String, String)>>, f: Option<Json>)
    requires
        opt_json(m, f, |a: Seq<(String, String)>, v: Json| map_json(a, v)),
    ensures
        opt_map(f) == Some(m),
{
    if let Some(m) = m {
        let v = f->Some_0;
        assert(map_json(m, v));
        let inner = v->Object_0@;
        assert(inner.map_values(|p: (String, Json)| (p.0, p.1->Str_0)) =~= m);
    }
}

impl PackageJson {
    /// The manifest as pretty-printed JSON text: the document of
    /// [`PackageJson::to_json`], written out by serde_json.
    pub fn serialize(&self) -> (r: String)
        ensures
            exists|j: Json| encodes(self@, j) && r@ == pretty_text(j),
    {
        let j = self.to_json();
        render_pretty(&j)
    }
}

/// Decoding the encoding of a manifest gives the manifest back.
pub proof fn lemma_round_trip(m: PackageJsonView, j: Json)
    requires
        encodes(m, j),
    ensures
        decode_manifest(j) == Ok::<PackageJsonView, ManifestFault>(m),
{
    let e = j->Object_0@;
    lemma_author_back(m.author, field(e, "author"@));
    lemma_repository_back(m.repository, field(e, "repository"@));
    lemma_map_back(m.scripts, field(e, "scripts"@));
    lemma_map_back(m.dependencies, field(e, "dependencies"@));
    lemma_map_back(m.dev_dependencies, field(e, "devDependencies"@));
    assert(flag(field(e, "private"@)) == Some(m.private));
}

/// A manifest with every optional field absent and `private` false encodes
/// to an object with the members `name` and `version` alone.
pub proof fn lemma_minimal_encoding(m: PackageJsonView, j: Json)
    requires
        encodes(m, j),
        m.author is None,
        !m.private,
        m.license is None,
        m.description is None,
        m.main is None,
        m.repository is None,
        m.scripts is None,
        m.dependencies is None,
        m.dev_dependencies is None,
    ensures
        j matches Json::Object(e) && keys(e@) == seq!["name"@, "version"@],
{
    assert(expected_keys(m) =~= seq!["name"@, "version"@]);
}

} // verus!
