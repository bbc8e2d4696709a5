use dinopkg::banned_names::is_banned;
use dinopkg::validation::{validate, Error};

fn check(name: &str) -> Result<(), Error> {
    validate(&String::from(name))
}

#[test]
fn accept_valid() {
    assert!(check("some-package").is_ok());
    assert!(check("discord.js").is_ok());
    assert!(check("num3ric").is_ok());
    assert!(check("under_scores").is_ok())
}

#[test]
fn reject_special_characters() {
    assert!(check("crazy!").is_err());
    assert!(check("@npm-zors/money!time.js").is_err())
}

#[test]
fn accept_scoped() {
    assert!(check("@custard/hi").is_ok())
}

#[test]
fn reject_zero_len() {
    assert!(check("").is_err())
}

#[test]
fn reject_name_that_starts_with_period() {
    assert!(check(".start-with-period").is_err())
}

#[test]
fn reject_name_that_starts_with_underscore() {
    assert!(check("_start-with-underscore").is_err())
}

#[test]
fn reject_colons_in_name() {
    assert!(check("contain:colons").is_err())
}

#[test]
fn reject_leading_space() {
    assert!(check(" leading-space").is_err())
}

#[test]
fn reject_trailing_space() {
    assert!(check("trailing-space ").is_err())
}

#[test]
fn reject_non_url_friendly() {
    assert!(check("s/l/a/s/h/e/s").is_err())
}

#[test]
fn reject_blacklisted_name() {
    assert!(check("favicon.ico").is_err());
    assert!(check("node_modules").is_err())
}

#[test]
fn reject_core_modules() {
    assert!(check("http").is_err());
    assert!(check("process").is_err())
}

#[test]
fn accept_max_len() {
    assert!(check("ifyouwanttogetthesumoftwonumberswherethosetwonumbersarechosenbyfindingthelargestoftwooutofthreenumbersandsquaringthemwhichismultiplyingthembyitselfthenyoushouldinputthreenumbersintothisfunctionanditwilldothatforyou").is_ok())
}

#[test]
fn reject_mixed_case() {
    assert!(check("hello-WORLD").is_err())
}

#[test]
fn reject_name_over_max_len() {
    assert!(check("ifyouwanttogetthesumoftwonumberswherethosetwonumbersarechosenbyfindingthelargestoftwooutofthreenumbersandsquaringthemwhichismultiplyingthembyitselfthenyoushouldinputthreenumbersintothisfunctionanditwilldothatforyoucool").is_err())
}

#[test]
fn reject_empty() {
    assert!(check("").is_err())
}

#[test]
fn each_rule_reports_its_own_reason() {
    assert_eq!(check(""), Err(Error::NameEmpty));
    assert_eq!(check(".foo"), Err(Error::InvalidStartingChar));
    assert_eq!(check("_foo"), Err(Error::InvalidStartingChar));
    assert_eq!(check(" foo"), Err(Error::LeadingOrTrailingSpaces));
    assert_eq!(check("foo\t"), Err(Error::LeadingOrTrailingSpaces));
    assert_eq!(check("http"), Err(Error::NameNotAllowed));
    assert_eq!(check("HTTP"), Err(Error::NameNotAllowed));
    assert_eq!(check("node:test"), Err(Error::NameNotAllowed));
    assert_eq!(check("hello-WORLD"), Err(Error::CapsNotAllowed));
    assert_eq!(check("@custard/hi"), Ok(()));
    assert_eq!(check("s/l/a/s/h/e/s"), Err(Error::NameMustBeUrlFriendly));
    assert_eq!(check("some-package"), Ok(()));
    assert_eq!(check("discord.js"), Ok(()));
    assert_eq!(check("under_scores"), Ok(()));
}

#[test]
fn url_unfriendly_names_by_shape() {
    assert_eq!(check("crazy!"), Err(Error::ScopedPackageNameInvalid));
    assert_eq!(check("contain:colons"), Err(Error::ScopedPackageNameInvalid));
    assert_eq!(
        check("@npm-zors/money!time.js"),
        Err(Error::NameMustBeUrlFriendly)
    );
    assert_eq!(check("@/x"), Err(Error::NameMustBeUrlFriendly));
    assert_eq!(check("a/b"), Err(Error::NameMustBeUrlFriendly));
    assert_eq!(check("@scope/pkg~1.x"), Ok(()));
}

#[test]
fn length_limit_comes_after_denylist_and_before_case() {
    let long_upper = "A".repeat(215);
    assert_eq!(check(&long_upper), Err(Error::NameTooLong));
    let exact = "a".repeat(214);
    assert_eq!(check(&exact), Ok(()));
}

#[test]
fn banned_names_ignore_case() {
    assert!(is_banned(&String::from("Node_Modules")));
    assert!(is_banned(&String::from("wasi")));
    assert!(!is_banned(&String::from("left-pad")));
}

#[test]
fn error_messages() {
    assert_eq!(Error::NameEmpty.message(), "package name must not be empty");
    assert_eq!(
        Error::NameTooLong.message(),
        "package name cannot contain more than 214 characters"
    );
}
