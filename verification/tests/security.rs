use worker::security::{bearer_token, login, signing_secret, user_id, TOKEN_LIFETIME};
use worker::text::{decimal_text, strip_prefix, trim};
use worker::User;

fn user(name: &str) -> User {
    User { name: name.to_string(), password: "anything".to_string() }
}

#[test]
fn known_users_have_an_identifier() {
    assert_eq!(
        user_id("jorge"),
        Some("f14f83b7-c626-4255-9da4-cec1ac22b4a1".to_string())
    );
    assert_eq!(
        user_id("joel"),
        Some("c0e38e26-8364-4bac-aed0-f0463945557b".to_string())
    );
    assert_eq!(user_id("Jorge"), None);
    assert_eq!(user_id(""), None);
    assert_eq!(user_id("jorge "), None);
}

#[test]
fn login_issues_claims_for_one_day() {
    assert_eq!(TOKEN_LIFETIME, 24 * 60 * 60);
    let claims = login(user("joel"), 1_700_000_000).unwrap();
    assert_eq!(claims.sub, "c0e38e26-8364-4bac-aed0-f0463945557b");
    assert_eq!(claims.user_name, "joel");
    assert_eq!(claims.iat, 1_700_000_000);
    assert_eq!(claims.exp, 1_700_086_400);
}

#[test]
fn login_refuses_unknown_users() {
    assert!(login(user("mallory"), 0).is_none());
}

#[test]
fn default_secret_is_flagged() {
    assert_eq!(signing_secret(None), ("secret".to_string(), true));
    assert_eq!(
        signing_secret(Some("secret".to_string())),
        ("secret".to_string(), true)
    );
    assert_eq!(
        signing_secret(Some("s3cr3t".to_string())),
        ("s3cr3t".to_string(), false)
    );
    assert_eq!(signing_secret(Some(String::new())), (String::new(), false));
}

#[test]
fn bearer_token_follows_the_word() {
    assert_eq!(bearer_token("Bearer abc.def.ghi"), Some("abc.def.ghi"));
    assert_eq!(bearer_token("Bearer   abc \t"), Some("abc"));
    assert_eq!(bearer_token("Bearerabc"), Some("abc"));
    assert_eq!(bearer_token("Bearer"), Some(""));
    assert_eq!(bearer_token("Bearer a b"), Some("a b"));
    assert_eq!(bearer_token("bearer abc"), None);
    assert_eq!(bearer_token(" Bearer abc"), None);
    assert_eq!(bearer_token("Basic abc"), None);
    assert_eq!(bearer_token(""), None);
}

#[test]
fn trim_agrees_with_std() {
    for text in [
        "",
        " ",
        "a",
        "  a  ",
        "\t a b \n",
        "\u{a0}x\u{3000}",
        "  \u{e9}t\u{e9}  ",
        "inner  space",
    ] {
        assert_eq!(trim(text), text.trim());
    }
}

#[test]
fn strip_prefix_agrees_with_std() {
    for (text, prefix) in [
        ("Bearer x", "Bearer"),
        ("Bear", "Bearer"),
        ("", ""),
        ("abc", ""),
        ("abc", "abc"),
        ("\u{e9}t\u{e9}", "\u{e9}"),
        ("xabc", "abc"),
    ] {
        assert_eq!(strip_prefix(text, prefix), text.strip_prefix(prefix));
    }
}

#[test]
fn decimal_agrees_with_std() {
    for n in [0, 1, 9, 10, 11, 99, 100, 255, 1000, 65535, i32::MAX, -1, -9, -10, -128, i32::MIN] {
        assert_eq!(decimal_text(n), n.to_string());
    }
    assert_eq!(decimal_text(-2147483648), "-2147483648");
    assert_eq!(decimal_text(1203), "1203");
}
