use power_pizza_bot::config::{is_listed, Config, DbConfig, ImportConfig, TgConfig};

fn config() -> ImportConfig {
    ImportConfig {
        show_id: 3039391,
        download_dir: "audio/mp3".to_string(),
        wav_dir: "audio/wav".to_string(),
        transcript_dir: "transcripts".to_string(),
        transcriber_url: "http://localhost:8080/inference".to_string(),
    }
}

#[test]
fn the_default_database_is_local() {
    let db = DbConfig::default();
    assert_eq!(db.host, "localhost");
    assert_eq!(db.port, 27017);
    assert_eq!(db.user, "ppp");
    assert_eq!(db.password, "hackmeeee");
}

#[test]
fn the_default_bot_has_no_token_and_no_administrator() {
    let tg = TgConfig::default();
    assert_eq!(tg.token, "");
    assert_eq!(tg.admin, "");
}

#[test]
fn the_default_import_uses_the_stock_directories() {
    let import = ImportConfig::default();
    assert_eq!(import.show_id, 0);
    assert_eq!(import.download_dir, "audio/mp3");
    assert_eq!(import.wav_dir, "audio/wav");
    assert_eq!(import.transcript_dir, "transcripts");
    assert_eq!(import.transcriber_url, "http://localhost:8080/inference");
}

#[test]
fn the_default_configuration_is_the_default_of_each_part() {
    let config = Config::default();
    assert_eq!(config.db.port, 27017);
    assert_eq!(config.tg.admin, "");
    assert_eq!(config.import.wav_dir, "audio/wav");
}

#[test]
fn the_files_of_an_episode_are_named_by_its_id() {
    let config = config();
    assert_eq!(config.mp3_path(7), "audio/mp3/7.mp3");
    assert_eq!(config.wav_path(7), "audio/wav/7.wav");
    assert_eq!(config.transcript_path(7), "transcripts/7.json");
    assert_eq!(config.mp3_path(0), "audio/mp3/0.mp3");
    assert_eq!(config.wav_path(1234567890), "audio/wav/1234567890.wav");
    assert_eq!(config.transcript_path(u32::MAX), "transcripts/4294967295.json");
}

#[test]
fn the_required_directories_are_the_three_working_directories() {
    assert_eq!(config().required_dirs(), vec!["audio/mp3", "audio/wav", "transcripts"]);
}

#[test]
fn the_directories_are_in_place_when_all_three_exist() {
    let config = config();
    let all = vec![
        "transcripts".to_string(),
        "audio/wav".to_string(),
        "elsewhere".to_string(),
        "audio/mp3".to_string(),
    ];
    assert!(config.check_dirs(&all));
    assert!(config.check_dirs(&config.required_dirs()));
}

#[test]
fn a_missing_directory_fails_the_check() {
    let config = config();
    assert!(!config.check_dirs(&vec![]));
    assert!(!config.check_dirs(&vec!["audio/mp3".to_string(), "audio/wav".to_string()]));
    assert!(!config.check_dirs(&vec!["audio/mp3".to_string(), "transcripts".to_string()]));
    assert!(!config.check_dirs(&vec!["audio/wav".to_string(), "transcripts".to_string()]));
    assert!(!config.check_dirs(&vec![
        "audio/mp3 ".to_string(),
        "audio/wav".to_string(),
        "transcripts".to_string()
    ]));
}

#[test]
fn a_directory_is_listed_only_under_its_exact_name() {
    let listed = vec!["a".to_string(), "b/c".to_string()];
    assert!(is_listed(&listed, &"a".to_string()));
    assert!(is_listed(&listed, &"b/c".to_string()));
    assert!(!is_listed(&listed, &"b".to_string()));
    assert!(!is_listed(&vec![], &"a".to_string()));
}
