use serde_json::Value;
use std::path::Path;
use storyboard::input::{
    build_prompt, extension, is_url, mime_for_name, mime_for_path, read_secret, secret_path,
    usable_secret, validate_cli, Cli, BRIEF, DEFAULT_MODEL, DEFAULT_TEMPERATURE,
};
use storyboard::upload::label_for_path;

fn options(input: &str) -> Cli<String, Value> {
    Cli::with_defaults(
        input.to_string(),
        Value::from(DEFAULT_TEMPERATURE.parse::<f64>().unwrap()),
    )
}

#[test]
fn cli_defaults_are_public_contract() {
    let cli = options("https://youtu.be/example");
    assert_eq!(cli.input, "https://youtu.be/example");
    assert_eq!(cli.model, DEFAULT_MODEL);
    assert_eq!(cli.model, "google/gemini-2.5-flash");
    assert_eq!(cli.max_output_tokens, 4096);
    assert_eq!(cli.temperature.as_f64(), Some(1.0));
    assert_eq!(cli.prompt, None);
    assert_eq!(cli.poll_interval_secs, 5);
    assert_eq!(cli.max_wait_secs, 1200);
}

#[test]
fn validates_local_file_or_url_input() {
    let cli = options("https://example.com/video.mp4");
    validate_cli(&cli, true, Path::new(&cli.input).is_file()).unwrap();

    let cli = options("/definitely/missing.mp4");
    assert!(validate_cli(&cli, true, Path::new(&cli.input).is_file()).is_err());
}

#[test]
fn complaints_about_options_come_in_order() {
    let mut cli = options(" \t");
    cli.max_output_tokens = 0;
    assert_eq!(validate_cli(&cli, false, false), Err("input is required".to_string()));
    cli.input = "missing.mp4".to_string();
    assert_eq!(
        validate_cli(&cli, false, false),
        Err("--max-output-tokens must be greater than 0".to_string())
    );
    cli.max_output_tokens = 1;
    assert_eq!(
        validate_cli(&cli, false, false),
        Err("--temperature must be between 0 and 2".to_string())
    );
    assert_eq!(
        validate_cli(&cli, true, false),
        Err("input must be a local file or http(s) URL: missing.mp4".to_string())
    );
    assert_eq!(validate_cli(&cli, true, true), Ok(()));
}

#[test]
fn mime_fallbacks_cover_common_video_extensions() {
    for (suffix, mime) in [
        (".mp4", "video/mp4"),
        (".mov", "video/quicktime"),
        (".webm", "video/webm"),
        (".mpeg", "video/mpeg"),
    ] {
        let file = tempfile::Builder::new().suffix(suffix).tempfile().unwrap();
        assert_eq!(mime_for_path(file.path().to_str().unwrap()), mime);
    }
}

#[test]
fn media_types_go_by_the_extension_in_any_case() {
    assert_eq!(mime_for_path("a.M4V"), "video/mp4");
    assert_eq!(mime_for_path("a.b.MpG"), "video/mpeg");
    assert_eq!(mime_for_path("dir.mp4/clip"), "application/octet-stream");
    assert_eq!(mime_for_path(".mp4"), "application/octet-stream");
    assert_eq!(mime_for_path("mp4"), "application/octet-stream");
    assert_eq!(mime_for_path("clip.mkv"), "application/octet-stream");
    assert_eq!(mime_for_path("clip.mov/"), "video/quicktime");
    assert_eq!(mime_for_path("DIR/CLIP.WEBM"), mime_for_path("dir/clip.webm"));
}

#[test]
fn file_names_and_media_types_are_those_of_paths() {
    for path in [
        "", ".", "..", "/", "//", "a", "a.b", "a.b.c", ".a", "..a", "...", "a.", "a/", "a//", "a/.",
        "a/./", "a/..", "a/../b.mp4", "./a.mp4", "/a/b.mp4", "a.b/c", "./", "./.", "/.", "/..",
        "é/ö.mp4", "a/ .mp4", "..mp4", "a/...b", "././x.y/.", "x/.hidden.mp4", "a\\b.mp4",
        "C:\\a\\b.mov", "C:b.webm", "//server/share/b.mp4", "\\\\server\\share\\b.mp4",
    ] {
        let name = Path::new(path).file_name().and_then(|n| n.to_str());
        assert_eq!(label_for_path(path).name, name.unwrap_or("upload.bin"), "{path:?}");
        let found = Path::new(path).extension().and_then(|n| n.to_str());
        assert_eq!(name.and_then(extension), found, "{path:?}");
        let expected = mime_for_name(&name.map(str::to_string));
        assert_eq!(mime_for_path(path), expected, "{path:?}");
        assert_eq!(label_for_path(path).content_type, expected, "{path:?}");
    }
}

#[test]
fn file_names_follow_the_last_slash() {
    for (path, name) in [
        ("dir/clip.mp4", "clip.mp4"),
        ("dir/./clip.mp4/./", "clip.mp4"),
        ("clip.mp4//", "clip.mp4"),
        ("dir/..", "upload.bin"),
        ("./", "upload.bin"),
        ("/", "upload.bin"),
    ] {
        assert_eq!(label_for_path(path).name, name);
    }
}

#[test]
fn file_names_end_their_paths() {
    for path in ["C:\\a\\b.mov", "C:b.webm", "a\\b.mp4", "a/b\\c.mp4", "\\a.mov", "C:\\a/b.mpg"] {
        let name = label_for_path(path).name;
        assert!(path.ends_with(&name), "{path:?}");
        assert!(name.ends_with(&path[path.len() - 4..]), "{path:?}");
    }
}

#[test]
fn third_components_after_two_slashes_are_file_names() {
    for (path, name) in [
        ("//server/share/b.mp4", "b.mp4"),
        ("//server/share/dir/./c.webm", "c.webm"),
        ("//server/share/..", "upload.bin"),
    ] {
        assert_eq!(label_for_path(path).name, name);
    }
}

#[test]
fn media_types_go_by_the_name() {
    let name = |text: &str| Some(text.to_string());
    assert_eq!(mime_for_name(&name("clip.MOV")), "video/quicktime");
    assert_eq!(mime_for_name(&name("clip.mov")), "video/quicktime");
    assert_eq!(mime_for_name(&name(".mov")), "application/octet-stream");
    assert_eq!(mime_for_name(&None), "application/octet-stream");
    assert_eq!(extension("a.b.c"), Some("c"));
    assert_eq!(extension("a."), Some(""));
    assert_eq!(extension(".a"), None);
    assert_eq!(extension("a"), None);
}

#[test]
fn web_addresses_are_told_from_paths() {
    assert!(is_url("http://example.com/video.mp4"));
    assert!(is_url("https://youtu.be/example"));
    assert!(!is_url("HTTP://example.com"));
    assert!(!is_url("ftp://example.com"));
    assert!(!is_url(" https://example.com"));
    assert!(!is_url("./video.mp4"));
}

#[test]
fn prompt_appends_extra_instruction() {
    let prompt = build_prompt(Some("Focus on racket motion."));
    assert!(prompt.contains("video recreation brief"));
    assert!(prompt.contains("Extra instruction: Focus on racket motion."));
}

#[test]
fn blank_instructions_leave_the_brief_alone() {
    assert_eq!(build_prompt(None), BRIEF);
    assert_eq!(build_prompt(Some("")), BRIEF);
    assert_eq!(build_prompt(Some(" \n\t")), BRIEF);
    assert_eq!(build_prompt(Some("  Short. \n")), format!("{BRIEF}\n\nExtra instruction: Short."));
    assert_eq!(build_prompt(Some(" Short. ")), build_prompt(Some("Short.")));
}

#[test]
fn the_environment_comes_before_the_secrets_file() {
    let text = |s: &str| Some(s.to_string());
    assert_eq!(read_secret("FAL_KEY", text(" abc\n"), text("def")), Ok("abc".to_string()));
    assert_eq!(read_secret("FAL_KEY", text(" \n"), text("def\n")), Ok("def".to_string()));
    assert_eq!(read_secret("FAL_KEY", None, text("def")), Ok("def".to_string()));
    assert_eq!(
        read_secret("FAL_KEY", None, text(" ")),
        Err("FAL_KEY missing; set $FAL_KEY or /run/secrets/FAL_KEY".to_string())
    );
    assert_eq!(secret_path("FAL_KEY"), "/run/secrets/FAL_KEY");
    assert_eq!(usable_secret(&text(" x ")), text("x"));
    assert_eq!(usable_secret(&text(" ")), None);
    assert_eq!(usable_secret(&None), None);
}
