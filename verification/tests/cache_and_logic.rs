use titanic::config::{normalize_folder, settings_file_path, Config};
use titanic::errors::{AppError, AuthError};
use titanic::keycache::KeyCache;
use titanic::strings::{parse_u64, u64_to_string};
use titanic::upload::{
    is_valid_video_file, parse_df_output, sort_folder_names, unique_name_candidate, VideoUploader,
};

fn body(pairs: Vec<(&str, &str)>) -> String {
    let mut m = serde_json::Map::new();
    for (k, v) in pairs {
        m.insert(k.to_string(), serde_json::Value::String(v.to_string()));
    }
    serde_json::to_string(&serde_json::Value::Object(m)).unwrap()
}

#[test]
fn keycache_hit_returns_without_refresh() {
    let mut cache = KeyCache::new();
    assert!(cache.refresh_from_body(&body(vec![("K1", "pem-one")])));
    assert_eq!(cache.lookup("K1").as_deref(), Some("pem-one"));
    assert!(cache.lookup("K2").is_none());
}

#[test]
fn keycache_refresh_replaces_the_whole_set() {
    let mut cache = KeyCache::new();
    assert!(cache.refresh_from_body(&body(vec![("a", "x"), ("b", "y")])));
    assert!(cache.refresh_from_body(&body(vec![("c", "z")])));
    // The new set is complete and the old one is gone entirely: no merge.
    assert!(cache.lookup("a").is_none());
    assert!(cache.lookup("b").is_none());
    assert_eq!(cache.lookup("c").as_deref(), Some("z"));
}

#[test]
fn keycache_bad_body_leaves_set_untouched() {
    let mut cache = KeyCache::new();
    assert!(cache.refresh_from_body(&body(vec![("a", "x")])));
    assert!(!cache.refresh_from_body("not json at all"));
    assert!(!cache.refresh_from_body("{\"a\": 42}"));
    // Stale-but-available over empty.
    assert_eq!(cache.lookup("a").as_deref(), Some("x"));
}

#[test]
fn video_extensions_are_screened_case_insensitively() {
    assert!(is_valid_video_file("movie.mp4"));
    assert!(is_valid_video_file("MOVIE.MP4"));
    assert!(is_valid_video_file("clip.webm"));
    assert!(is_valid_video_file("stream.TS"));
    assert!(is_valid_video_file("a.b.mkv"));
    assert!(!is_valid_video_file("doc.pdf"));
    assert!(!is_valid_video_file("noextension"));
    assert!(!is_valid_video_file("archive.tar.gz"));
    // A dotless name is taken whole as its extension.
    assert!(is_valid_video_file("mp4"));
}

#[test]
fn unique_candidates_tag_before_the_extension() {
    assert_eq!(unique_name_candidate("movie.mp4", 1), "movie_1.mp4");
    assert_eq!(unique_name_candidate("file", 2), "file_2");
    assert_eq!(unique_name_candidate("a.b.c", 3), "a.b_3.c");
    assert_eq!(unique_name_candidate("movie.mp4", 12), "movie_12.mp4");
}

#[test]
fn target_dir_sanitizes_folders() {
    let up = VideoUploader::new("/media").unwrap();
    assert_eq!(up.clips_dir(), "/media/Clips");
    assert_eq!(up.target_dir(None), "/media/Clips");
    assert_eq!(up.target_dir(Some("Clips")), "/media/Clips");
    assert_eq!(up.target_dir(Some("Shows")), "/media/Clips/Shows");
    assert_eq!(up.target_dir(Some("My/Folder")), "/media/Clips/MyFolder");
    assert_eq!(up.target_dir(Some("..")), "/media/Clips/");
}

#[test]
fn folder_names_sort_ascending() {
    let names = vec![
        "Shows".to_string(),
        "archive".to_string(),
        "Clips".to_string(),
        "Movies".to_string(),
        "Movies".to_string(),
    ];
    let sorted = sort_folder_names(names);
    assert_eq!(sorted, vec!["Clips", "Movies", "Movies", "Shows", "archive"]);
    assert!(sort_folder_names(Vec::new()).is_empty());
}

#[test]
fn df_output_parses_to_bytes() {
    let out = "Filesystem 1K-blocks Used Available Use% Mounted on\n/dev/sda1 1000 400 600 40% /\n";
    let info = parse_df_output(out).unwrap();
    assert_eq!(info.total, 1_024_000);
    assert_eq!(info.used, 409_600);
    assert_eq!(info.free, 614_400);
}

#[test]
fn df_output_with_aligned_columns_parses() {
    let out = "Filesystem     1K-blocks      Used Available Use% Mounted on\n/dev/nvme0n1p2 491068960 287620324 178430792  62% /\n";
    let info = parse_df_output(out).unwrap();
    assert_eq!(info.total, 491068960 * 1024);
    assert_eq!(info.used, 287620324 * 1024);
    assert_eq!(info.free, 178430792 * 1024);
}

#[test]
fn malformed_df_output_is_an_internal_error() {
    for out in ["", "one line only", "header\n", "header\nfs only-three 4\n"] {
        match parse_df_output(out) {
            Err(AppError::InternalError(_)) => {}
            _ => panic!("df output {out:?} must fail"),
        }
    }
}

#[test]
fn config_defaults_apply() {
    let c = Config::from_parts(None, Some("p".to_string()), None, None, None, false).unwrap();
    assert_eq!(c.bind_address, "0.0.0.0:3029");
    assert_eq!(c.firebase_project_id, "p");
    assert_eq!(c.plex_media_path, "/downloads");
    assert_eq!(c.data_dir, "/data");
    assert!(!c.is_dev);
    let c = Config::from_parts(None, Some("p".to_string()), None, None, None, true).unwrap();
    assert_eq!(c.plex_media_path, "./media");
    assert_eq!(c.data_dir, "./data");
}

#[test]
fn config_explicit_values_win() {
    let c = Config::from_parts(
        Some("127.0.0.1:9000".to_string()),
        Some("p".to_string()),
        Some("/mnt/plex".to_string()),
        Some("TRUE".to_string()),
        Some("/var/data".to_string()),
        false,
    )
    .unwrap();
    assert_eq!(c.bind_address, "127.0.0.1:9000");
    assert_eq!(c.plex_media_path, "/mnt/plex");
    assert_eq!(c.data_dir, "/var/data");
    assert!(c.is_dev);
}

#[test]
fn dev_switch_reads_true_case_insensitively() {
    for v in ["true", "TRUE", "True"] {
        let c =
            Config::from_parts(None, Some("p".to_string()), None, Some(v.to_string()), None, false)
                .unwrap();
        assert!(c.is_dev);
    }
    for v in ["false", "1", "yes", ""] {
        let c =
            Config::from_parts(None, Some("p".to_string()), None, Some(v.to_string()), None, false)
                .unwrap();
        assert!(!c.is_dev);
    }
}

#[test]
fn missing_project_id_is_a_config_error() {
    match Config::from_parts(None, None, None, None, None, false) {
        Err(AppError::ConfigError(m)) => {
            assert_eq!(m, "FIREBASE_PROJECT_ID environment variable is required");
        }
        _ => panic!("the project id is required"),
    }
}

#[test]
fn app_errors_map_to_status_codes() {
    assert_eq!(AppError::AuthError("x".to_string()).status_code(), 401);
    assert_eq!(AppError::UploadError("x".to_string()).status_code(), 400);
    assert_eq!(AppError::ConfigError("x".to_string()).status_code(), 500);
    assert_eq!(AppError::InternalError("x".to_string()).status_code(), 500);
    let e = AppError::from_auth(AuthError::MissingHeader);
    assert_eq!(e.status_code(), 401);
    assert_eq!(e.message(), "No authorization header");
}

#[test]
fn settings_path_lives_under_the_data_dir() {
    assert_eq!(settings_file_path("/data"), "/data/settings.json");
}

#[test]
fn folder_field_is_trimmed_to_nothing_or_some() {
    assert_eq!(normalize_folder("  Shows  ").as_deref(), Some("Shows"));
    assert_eq!(normalize_folder("Shows").as_deref(), Some("Shows"));
    assert!(normalize_folder("   ").is_none());
    assert!(normalize_folder("").is_none());
}

#[test]
fn decimal_parsing_is_exact() {
    assert_eq!(parse_u64("0"), Some(0));
    assert_eq!(parse_u64("123"), Some(123));
    assert_eq!(parse_u64("18446744073709551615"), Some(u64::MAX));
    assert_eq!(parse_u64("18446744073709551616"), None);
    assert_eq!(parse_u64(""), None);
    assert_eq!(parse_u64("12a"), None);
    assert_eq!(parse_u64("-3"), None);
    assert_eq!(u64_to_string(0), "0");
    assert_eq!(u64_to_string(105), "105");
    assert_eq!(u64_to_string(u64::MAX), "18446744073709551615");
}

#[test]
fn auth_error_descriptions_are_fixed() {
    assert_eq!(AuthError::MissingHeader.describe(), "No authorization header");
    assert_eq!(AuthError::MalformedHeader.describe(), "Invalid authorization header format");
    assert_eq!(AuthError::KeyNotFound.describe(), "Key not found after refresh");
}
