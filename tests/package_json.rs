use dinopkg::json::Json;
use dinopkg::package_json::{AuthorVariant, Error, PackageJson, RepositoryVariant};

#[test]
fn test_parse() {
    let json = r#"{
            "name": "dinopkg-package-json",
            "version": "0.1.0",
            "author": "Skyfall",
            "dependencies": {
                "express": "^4.17.1"
            }
        }"#;
    let package_json = PackageJson::parse(json).unwrap();
    assert_eq!(
        package_json,
        PackageJson {
            name: "dinopkg-package-json".into(),
            version: "0.1.0".into(),
            author: Some(AuthorVariant::String("Skyfall".into())),
            dependencies: Some(vec![("express".into(), "^4.17.1".into())]),
            ..Default::default()
        }
    )
}

#[test]
fn author_variants() {
    let json = r#"{
                "name": "dinopkg-package-json",
                "version": "0.1.0",
                "author": {
                    "name": "Skyfall",
                    "url": "https://skyfall.dev"
                }
            }"#;
    let package_json = PackageJson::parse(json).unwrap();
    assert_eq!(
        package_json,
        PackageJson {
            name: "dinopkg-package-json".into(),
            version: "0.1.0".into(),
            author: Some(AuthorVariant::Author {
                name: "Skyfall".into(),
                url: Some("https://skyfall.dev".into())
            }),
            ..Default::default()
        }
    )
}

#[test]
fn repository_variants() {
    let json = r#"{
                "name": "dinopkg-package-json",
                "version": "0.1.0",
                "repository": {
                    "type": "git",
                    "url": "git+https://github.com/SkyfallWasTaken/choco.git"
                }
            }"#;
    let package_json = PackageJson::parse(json).unwrap();
    assert_eq!(
        package_json,
        PackageJson {
            name: "dinopkg-package-json".into(),
            version: "0.1.0".into(),
            repository: Some(RepositoryVariant::Repository {
                kind: "git".into(),
                url: Some("git+https://github.com/SkyfallWasTaken/choco.git".into())
            }),
            ..Default::default()
        }
    )
}

#[test]
fn author_without_url_is_structured_with_no_url() {
    let json = r#"{"name": "x", "version": "1.0.0", "author": {"name": "Jane"}}"#;
    let m = PackageJson::parse(json).unwrap();
    assert_eq!(
        m.author,
        Some(AuthorVariant::Author {
            name: "Jane".into(),
            url: None
        })
    );
}

#[test]
fn author_string_and_record_are_told_apart() {
    let s = PackageJson::parse(r#"{"name": "x", "version": "1", "author": "Jane"}"#).unwrap();
    assert_eq!(s.author, Some(AuthorVariant::String("Jane".into())));
    let r = PackageJson::parse(
        r#"{"name": "x", "version": "1", "author": {"name": "Jane", "url": "https://x"}}"#,
    )
    .unwrap();
    assert_eq!(
        r.author,
        Some(AuthorVariant::Author {
            name: "Jane".into(),
            url: Some("https://x".into())
        })
    );
}

#[test]
fn private_defaults_to_false_and_scripts_keep_order() {
    let m = PackageJson::parse(
        r#"{"name": "x", "version": "1", "private": true,
            "scripts": {"zeta": "echo z", "alpha": "echo a", "mid": "echo m"}}"#,
    )
    .unwrap();
    assert!(m.private);
    let names: Vec<&str> = m
        .scripts
        .as_ref()
        .unwrap()
        .iter()
        .map(|(k, _)| k.as_str())
        .collect();
    assert_eq!(names, vec!["zeta", "alpha", "mid"]);
    let plain = PackageJson::parse(r#"{"name": "x", "version": "1"}"#).unwrap();
    assert!(!plain.private);
}

#[test]
fn malformed_text_is_a_serde_error() {
    assert!(matches!(PackageJson::parse("{ not json"), Err(Error::Serde(_))));
}

#[test]
fn wrong_shapes_name_the_field() {
    assert!(matches!(PackageJson::parse("[1, 2]"), Err(Error::NotAnObject)));
    match PackageJson::parse(r#"{"version": "1"}"#) {
        Err(Error::InvalidField(f)) => assert_eq!(f, "name"),
        other => panic!("unexpected {:?}", other),
    }
    match PackageJson::parse(r#"{"name": "x", "version": "1", "scripts": {"a": 1}}"#) {
        Err(Error::InvalidField(f)) => assert_eq!(f, "scripts"),
        other => panic!("unexpected {:?}", other),
    }
    match PackageJson::parse(r#"{"name": "x", "version": "1", "private": null}"#) {
        Err(Error::InvalidField(f)) => assert_eq!(f, "private"),
        other => panic!("unexpected {:?}", other),
    }
    match PackageJson::parse(r#"{"name": "x", "version": "1", "author": 3}"#) {
        Err(Error::InvalidField(f)) => assert_eq!(f, "author"),
        other => panic!("unexpected {:?}", other),
    }
}

#[test]
fn null_optionals_read_as_absent() {
    let m = PackageJson::parse(r#"{"name": "x", "version": "1", "license": null, "main": "index.js"}"#)
        .unwrap();
    assert_eq!(m.license, None);
    assert_eq!(m.main, Some("index.js".into()));
}

fn member_names(j: &Json) -> Vec<String> {
    match j {
        Json::Object(e) => e.iter().map(|(k, _)| k.clone()).collect(),
        _ => panic!("not an object"),
    }
}

#[test]
fn minimal_manifest_encodes_name_and_version_only() {
    let m = PackageJson {
        name: "x".into(),
        version: "1.0.0".into(),
        ..Default::default()
    };
    let j = m.to_json();
    assert_eq!(member_names(&j), vec!["name", "version"]);
    assert_eq!(
        j,
        Json::Object(vec![
            ("name".into(), Json::Str("x".into())),
            ("version".into(), Json::Str("1.0.0".into())),
        ])
    );
}

fn full_manifest() -> PackageJson {
    PackageJson {
        name: "pkg".into(),
        version: "2.0.0".into(),
        author: Some(AuthorVariant::Author {
            name: "Jane".into(),
            url: None,
        }),
        private: true,
        license: Some("MIT".into()),
        description: Some("a package".into()),
        main: Some("index.js".into()),
        repository: Some(RepositoryVariant::String("github:a/b".into())),
        scripts: Some(vec![
            ("test".into(), "exit 1".into()),
            ("build".into(), "make".into()),
        ]),
        dependencies: Some(vec![("left-pad".into(), "^1.0.0".into())]),
        dev_dependencies: Some(vec![]),
    }
}

#[test]
fn encoding_keeps_declaration_order_and_camel_case() {
    let j = full_manifest().to_json();
    assert_eq!(
        member_names(&j),
        vec![
            "name",
            "version",
            "author",
            "private",
            "license",
            "description",
            "main",
            "repository",
            "scripts",
            "dependencies",
            "devDependencies"
        ]
    );
    match &j {
        Json::Object(e) => {
            assert_eq!(
                e[2].1,
                Json::Object(vec![("name".into(), Json::Str("Jane".into()))])
            );
            assert_eq!(e[3].1, Json::Bool(true));
        }
        _ => panic!("not an object"),
    }
}

#[test]
fn encoding_round_trips() {
    let m = full_manifest();
    let back = PackageJson::from_json(&m.to_json()).unwrap();
    assert_eq!(back, m);
    let minimal = PackageJson {
        name: "x".into(),
        version: "1".into(),
        author: Some(AuthorVariant::String("Jane".into())),
        repository: Some(RepositoryVariant::Repository {
            kind: "git".into(),
            url: Some("u".into()),
        }),
        ..Default::default()
    };
    assert_eq!(PackageJson::from_json(&minimal.to_json()).unwrap(), minimal);
}

#[test]
fn serialize_minimal_manifest() {
    let m = PackageJson {
        name: "x".into(),
        version: "1.0.0".into(),
        ..Default::default()
    };
    assert_eq!(m.serialize(), "{\n  \"name\": \"x\",\n  \"version\": \"1.0.0\"\n}");
}

#[test]
fn serialize_then_parse_round_trips() {
    let m = full_manifest();
    let text = m.serialize();
    assert!(text.contains("\"devDependencies\""));
    assert!(!text.contains("null"));
    assert_eq!(PackageJson::parse(&text).unwrap(), m);
}
