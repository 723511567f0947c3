use skuff::io::{Settings, Storage};
use skuff::layout::StorageLayout;
use skuff::util::{parse_existing_file, validate_stream};
use skuff::Error;

#[test]
fn validate_stream_accepts_names() {
    assert_eq!(validate_stream("work"), Ok("work".to_string()));
    assert_eq!(validate_stream("Work-2025_a"), Ok("Work-2025_a".to_string()));
    assert_eq!(validate_stream("azAZ09-_"), Ok("azAZ09-_".to_string()));
    assert_eq!(validate_stream(""), Ok(String::new()));
}

#[test]
fn validate_stream_rejects_other_characters() {
    let message = "Stream names can only contain letters, numbers, '-' or '_'".to_string();

    for name in ["my stream", "a/b", "a.b", "caf\u{e9}", "x\u{0}", "{", "`", "@", "[", "/", ":"] {
        assert_eq!(validate_stream(name), Err(message.clone()), "{}", name);
    }
}

#[test]
fn validate_stream_agrees_with_std() {
    for code in 0u32..0x250 {
        let c = char::from_u32(code).unwrap();
        let name = format!("a{}b", c);
        let expected = c.is_ascii_alphanumeric() || c == '-' || c == '_';

        assert_eq!(validate_stream(&name).is_ok(), expected, "{:?}", c);
    }
}

#[test]
fn parse_existing_file_says_what_is_wrong() {
    assert_eq!(parse_existing_file("a.json", true, true), Ok("a.json".to_string()));
    assert_eq!(
        parse_existing_file("a.json", false, false),
        Err("'a.json' does not exist".to_string())
    );
    assert_eq!(
        parse_existing_file("a.json", false, true),
        Err("'a.json' does not exist".to_string())
    );
    assert_eq!(parse_existing_file("dir", true, false), Err("'dir' is not a file".to_string()));
}

#[test]
fn settings_name_the_storage() {
    assert_eq!(Settings::storage_path(Some("/data".to_string()), "/home/user"), "/data");
    assert_eq!(Settings::storage_path(None, "/home/user"), "/home/user/.local/share/skuff");
}

#[test]
fn storage_keeps_its_layout() {
    let layout = StorageLayout::coalesce(Some("/data".to_string()), None, "/home/user");

    let storage = Storage::new(layout);

    assert_eq!(storage.layout().root, "/data");
    assert_eq!(storage.layout().stream_path("work"), "/data/streams/work/stream.json");
}

#[test]
fn stream_name_is_the_named_one_or_the_current_one() {
    let named = Some("work".to_string());
    let current = Some("home".to_string());

    assert_eq!(Storage::coalease_stream_name(&named, current.clone()).unwrap(), "work");
    assert_eq!(Storage::coalease_stream_name(&named, None).unwrap(), "work");
    assert_eq!(Storage::coalease_stream_name(&None, current).unwrap(), "home");
    assert!(matches!(Storage::coalease_stream_name(&None, None), Err(Error::NoStreamSet)));
}
