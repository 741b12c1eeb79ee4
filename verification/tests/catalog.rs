use vault_client::catalog::{flatten_entry, RawEntry};
use vault_client::json::JsonValue;
use vault_client::text::{has_prefix, str_eq, trailing_segment};

fn obj(fields: Vec<(&str, JsonValue)>) -> JsonValue {
    JsonValue::Obj(fields.into_iter().map(|(k, v)| (String::from(k), v)).collect())
}

fn s(text: &str) -> JsonValue {
    JsonValue::Str(String::from(text))
}

fn entry(name: &str, machine_name: &str, downloads: JsonValue) -> RawEntry {
    RawEntry {
        human_name: String::from(name),
        machine_name: String::from(machine_name),
        downloads,
    }
}

#[test]
fn windows_web_url_yields_descriptor_named_by_trailing_segment() {
    let raw = entry(
        "Game One",
        "game-1",
        obj(vec![("windows", obj(vec![("url", obj(vec![("web", s("https://x/y/game.zip"))]))]))]),
    );
    let flat = flatten_entry(&raw);
    assert_eq!(flat.name, "Game One");
    assert_eq!(flat.machine_name, "game-1");
    assert_eq!(flat.downloads.len(), 1);
    assert_eq!(flat.downloads[0].platform, "windows");
    assert_eq!(flat.downloads[0].downloads.len(), 1);
    let d = &flat.downloads[0].downloads[0];
    assert_eq!(d.filename, "game.zip");
    assert_eq!(d.url, "https://x/y/game.zip");
    assert_eq!(d.machine_name, "game-1");
}

#[test]
fn platform_machine_name_overrides_parent() {
    let raw = entry(
        "Game Two",
        "game-2",
        obj(vec![(
            "linux",
            obj(vec![
                ("machine_name", s("game-2-linux")),
                ("url", obj(vec![("web", s("https://host/a/b.tar.gz"))])),
            ]),
        )]),
    );
    let flat = flatten_entry(&raw);
    assert_eq!(flat.downloads[0].downloads[0].machine_name, "game-2-linux");
}

#[test]
fn absent_platform_machine_name_falls_back_to_parent() {
    let raw = entry(
        "Game Three",
        "game-3",
        obj(vec![("mac", obj(vec![("url", obj(vec![("web", s("https://host/c.dmg"))]))]))]),
    );
    let flat = flatten_entry(&raw);
    assert_eq!(flat.downloads[0].downloads[0].machine_name, "game-3");
}

#[test]
fn non_string_platform_machine_name_falls_back_to_parent() {
    let raw = entry(
        "Game Four",
        "game-4",
        obj(vec![(
            "windows",
            obj(vec![
                ("machine_name", JsonValue::Other),
                ("url", obj(vec![("web", s("https://host/d.zip"))])),
            ]),
        )]),
    );
    let flat = flatten_entry(&raw);
    assert_eq!(flat.downloads[0].downloads[0].machine_name, "game-4");
}

#[test]
fn malformed_shapes_are_skipped_not_errored() {
    let raw = entry(
        "Game Five",
        "game-5",
        obj(vec![
            ("windows", JsonValue::Other),
            ("mac", obj(vec![("url", s("not an object"))])),
            ("linux", obj(vec![("url", obj(vec![("web", JsonValue::Other)]))])),
            ("android", obj(vec![("url", obj(vec![]))])),
        ]),
    );
    let flat = flatten_entry(&raw);
    assert_eq!(flat.downloads.len(), 0);
}

#[test]
fn non_object_downloads_yields_entry_with_empty_downloads() {
    let raw = entry("Game Six", "game-6", JsonValue::Other);
    let flat = flatten_entry(&raw);
    assert_eq!(flat.name, "Game Six");
    assert_eq!(flat.downloads.len(), 0);
}

#[test]
fn two_platforms_keep_their_order() {
    let raw = entry(
        "Game Seven",
        "game-7",
        obj(vec![
            ("windows", obj(vec![("url", obj(vec![("web", s("https://h/w.zip"))]))])),
            ("linux", obj(vec![("url", obj(vec![("web", s("https://h/l.tar"))]))])),
        ]),
    );
    let flat = flatten_entry(&raw);
    assert_eq!(flat.downloads.len(), 2);
    assert_eq!(flat.downloads[0].platform, "windows");
    assert_eq!(flat.downloads[0].downloads[0].filename, "w.zip");
    assert_eq!(flat.downloads[1].platform, "linux");
    assert_eq!(flat.downloads[1].downloads[0].filename, "l.tar");
}

#[test]
fn repeated_platform_key_appends_to_the_same_group() {
    let raw = entry(
        "Game Eight",
        "game-8",
        obj(vec![
            ("windows", obj(vec![("url", obj(vec![("web", s("https://h/one.zip"))]))])),
            ("windows", obj(vec![("url", obj(vec![("web", s("https://h/two.zip"))]))])),
        ]),
    );
    let flat = flatten_entry(&raw);
    assert_eq!(flat.downloads.len(), 1);
    assert_eq!(flat.downloads[0].downloads.len(), 2);
    assert_eq!(flat.downloads[0].downloads[0].filename, "one.zip");
    assert_eq!(flat.downloads[0].downloads[1].filename, "two.zip");
}

#[test]
fn trailing_segment_takes_suffix_after_last_slash() {
    assert_eq!(trailing_segment("https://x/y/game.zip"), "game.zip");
    assert_eq!(trailing_segment("no-slash"), "no-slash");
    assert_eq!(trailing_segment("ends-with/"), "");
    assert_eq!(trailing_segment(""), "");
    assert_eq!(trailing_segment("/leading"), "leading");
}

#[test]
fn str_eq_compares_by_content() {
    assert!(str_eq("abc", "abc"));
    assert!(!str_eq("abc", "abd"));
    assert!(!str_eq("abc", "ab"));
    assert!(str_eq("", ""));
}

#[test]
fn has_prefix_checks_character_prefix() {
    assert!(has_prefix("abcdef", "abc"));
    assert!(has_prefix("abc", "abc"));
    assert!(!has_prefix("ab", "abc"));
    assert!(!has_prefix("xbcdef", "abc"));
    assert!(has_prefix("anything", ""));
}
