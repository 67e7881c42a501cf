use interaction_handler::custom_id::{build_custom_id, custom_id_from, split_custom_id};

fn split(id: &str) -> (String, String) {
    split_custom_id(id)
}

fn pair(module: &str, arg: &str) -> (String, String) {
    (module.to_string(), arg.to_string())
}

#[test]
fn custom_id_is_context_dash_and_characters() {
    assert_eq!(custom_id_from("login", &['a', 'Z', '0']), "login-aZ0");
    assert_eq!(custom_id_from("", &[]), "-");
    assert_eq!(custom_id_from("größe:1", &['x']), "größe:1-x");
}

#[test]
fn built_custom_ids_end_in_six_different_letters_or_digits() {
    for _ in 0..200 {
        let id = build_custom_id("ctx");
        assert!(id.starts_with("ctx-"));
        let picked: Vec<char> = id["ctx-".len()..].chars().collect();
        assert_eq!(picked.len(), 6);
        for (i, c) in picked.iter().enumerate() {
            assert!(c.is_ascii_alphanumeric());
            assert!(!picked[..i].contains(c));
        }
    }
}

#[test]
fn built_custom_ids_differ() {
    let ids: Vec<String> = (0..8).map(|_| build_custom_id("same")).collect();
    assert!(ids.iter().any(|id| *id != ids[0]));
}

#[test]
fn ids_are_split_at_the_first_colon() {
    assert_eq!(split("oneshot:abc-123456"), pair("oneshot", "abc-123456"));
    assert_eq!(split("a:b:c"), pair("a", "b:c"));
    assert_eq!(split("plain"), pair("plain", ""));
    assert_eq!(split(""), pair("", ""));
    assert_eq!(split(":"), pair("", ""));
    assert_eq!(split(":x"), pair("", "x"));
    assert_eq!(split("x:"), pair("x", ""));
    assert_eq!(split("schlüssel:wörter"), pair("schlüssel", "wörter"));
}
