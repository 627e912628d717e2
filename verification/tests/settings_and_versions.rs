use fetch_github_hosts::cli::{run_cli, CliArgs};
use fetch_github_hosts::config::{
    config_dir, config_dir_in, config_path, config_path_in, get_hosts_url, join_path, load_logs,
    log_path_in, logs_dir, logs_dir_in,
};
use fetch_github_hosts::lifecycle::Role;
use fetch_github_hosts::locale::{detect_system_lang, lang_for_locale, tray_text};
use fetch_github_hosts::models::{
    default_interval, default_lang, default_method, default_port, default_select_origin,
    AppConfig, ClientConfig, ServerConfig, UpdateInfo,
};
use fetch_github_hosts::platform::Platform;
use fetch_github_hosts::version::{
    components_of, get_version, update_info, version_gt, APP_VERSION,
};

#[test]
fn version_greater_than() {
    assert!(version_gt("4.0.1", "4.0.0"));
    assert!(version_gt("4.1", "4.0.9"));
    assert!(version_gt("5", "4.9.9"));
    assert!(version_gt("4.0.0.1", "4.0.0"));
    assert!(version_gt("10.0", "9.9"));
    assert!(!version_gt("4.0.0", "4.0.0"));
    assert!(!version_gt("4.0", "4.0.0"));
    assert!(!version_gt("4.0.0", "4.0"));
    assert!(!version_gt("3.9.9", "4.0.0"));
    assert!(!version_gt("", ""));
    assert!(!version_gt("", "0.0.1"));
    assert!(version_gt("0.0.1", ""));
}

#[test]
fn version_pieces_that_write_no_number_are_passed_over() {
    assert_eq!(components_of("1.2.3"), vec![1, 2, 3]);
    assert_eq!(components_of("1.x.3"), vec![1, 3]);
    assert_eq!(components_of("1..3."), vec![1, 3]);
    assert_eq!(components_of(""), Vec::<u32>::new());
    assert_eq!(components_of("v4.0"), vec![0]);
    assert_eq!(components_of("+7.007.-1"), vec![7, 7]);
    assert_eq!(components_of("+.1 .2"), vec![2]);
    assert_eq!(components_of("4294967295.4294967296"), vec![4294967295]);
    assert_eq!(components_of("00000000000000000001"), vec![1]);
    assert_eq!(components_of("99999999999999999999999999"), Vec::<u32>::new());
    assert_eq!(components_of("١٢.3"), vec![3]);
    assert!(version_gt("1.x.3", "1.2"));
    assert!(!version_gt("1.beta", "1.0"));
}

#[test]
fn components_agree_with_the_standard_parser() {
    for v in ["1.2.3", "+1.-2.3a.4", "4294967295", "4294967296", ".", "+", "0x10.10", " 1.1 "] {
        let expected: Vec<u32> = v.split('.').filter_map(|p| p.parse::<u32>().ok()).collect();
        assert_eq!(components_of(v), expected);
    }
}

#[test]
fn program_version() {
    assert_eq!(APP_VERSION, "4.0.0");
    assert_eq!(get_version(), "4.0.0");
}

#[test]
fn update_is_found_from_the_release_tag() {
    assert_eq!(
        update_info(Some("v4.1.0"), Some("https://example.com/r"), "4.0.0"),
        UpdateInfo {
            has_update: true,
            version: "4.1.0".to_string(),
            url: "https://example.com/r".to_string()
        }
    );
    assert_eq!(
        update_info(Some("V4.0.0"), None, "4.0.0"),
        UpdateInfo { has_update: false, version: "4.0.0".to_string(), url: String::new() }
    );
    assert_eq!(
        update_info(None, None, "4.0.0"),
        UpdateInfo { has_update: false, version: "0".to_string(), url: String::new() }
    );
    assert_eq!(update_info(Some("vvVV5"), None, "4").version, "5");
    assert_eq!(update_info(Some("Vv5"), None, "4").version, "v5");
    assert!(!update_info(Some("Vv5"), None, "4").has_update);
    assert_eq!(update_info(Some(""), None, "4").version, "");
}

#[test]
fn defaults() {
    assert_eq!(default_lang(), "zh-CN");
    assert_eq!(default_interval(), 60);
    assert_eq!(default_method(), "official");
    assert_eq!(default_select_origin(), "FetchGithubHosts");
    assert_eq!(default_port(), 9898);
    assert_eq!(
        ClientConfig::default(),
        ClientConfig {
            interval: 60,
            method: "official".to_string(),
            select_origin: "FetchGithubHosts".to_string(),
            custom_url: String::new(),
            auto_fetch: false,
        }
    );
    assert_eq!(
        ServerConfig::default(),
        ServerConfig { interval: 60, port: 9898, template_path: String::new() }
    );
    assert_eq!(
        AppConfig::default(),
        AppConfig {
            lang: "zh-CN".to_string(),
            client: ClientConfig::default(),
            server: ServerConfig::default(),
        }
    );
}

#[test]
fn paths_under_the_home_directory() {
    let home = Some("/home/alice".to_string());
    assert_eq!(config_dir_in(&home, Platform::Linux), "/home/alice/.fetch-github-hosts");
    assert_eq!(
        config_path_in(&home, Platform::Linux),
        "/home/alice/.fetch-github-hosts/config.yml"
    );
    assert_eq!(logs_dir_in(&home, Platform::Linux), "/home/alice/.fetch-github-hosts/logs");
    assert_eq!(
        log_path_in(&home, Platform::Linux, "client"),
        "/home/alice/.fetch-github-hosts/logs/client.log"
    );
    assert_eq!(config_dir_in(&None, Platform::MacOs), "./.fetch-github-hosts");
    let home = Some("C:\\Users\\Alice".to_string());
    assert_eq!(
        config_path_in(&home, Platform::Windows),
        "C:\\Users\\Alice\\.fetch-github-hosts\\config.yml"
    );
}

#[test]
fn joining_paths() {
    assert_eq!(join_path("/a", "b", Platform::Linux), "/a/b");
    assert_eq!(join_path("/a/", "b", Platform::Linux), "/a/b");
    assert_eq!(join_path("/", "b", Platform::Linux), "/b");
    assert_eq!(join_path("", "b", Platform::Linux), "b");
    assert_eq!(join_path("C:\\a", "b", Platform::Windows), "C:\\a\\b");
    assert_eq!(join_path("C:\\a\\", "b", Platform::Windows), "C:\\a\\b");
}

#[test]
fn paths_of_the_current_user() {
    let dir = config_dir(Platform::Linux);
    assert!(dir.ends_with(".fetch-github-hosts"));
    assert_eq!(config_path(Platform::Linux), format!("{}/config.yml", dir));
    assert_eq!(logs_dir(Platform::Linux), format!("{}/logs", dir));
}

#[test]
fn log_entries_are_the_lines_that_are_not_empty() {
    assert_eq!(
        load_logs(Ok("one\n\ntwo\r\n\r\n three \n".to_string())),
        vec!["one".to_string(), "two".to_string(), " three ".to_string()]
    );
    assert_eq!(load_logs(Ok(String::new())), Vec::<String>::new());
    assert_eq!(load_logs(Err("missing".to_string())), Vec::<String>::new());
}

#[test]
fn client_source_address() {
    assert_eq!(
        get_hosts_url("FetchGithubHosts", "", "official"),
        "https://hosts.gitcdn.top/hosts.txt"
    );
    assert_eq!(
        get_hosts_url("Github520", "", "official"),
        "https://raw.hellogithub.com/hosts"
    );
    assert_eq!(
        get_hosts_url("Github520", "https://my/hosts", "custom"),
        "https://my/hosts"
    );
    assert_eq!(
        get_hosts_url("Github520", "", "custom"),
        "https://raw.hellogithub.com/hosts"
    );
    assert_eq!(
        get_hosts_url("other", "https://my/hosts", "official"),
        "https://hosts.gitcdn.top/hosts.txt"
    );
}

fn args(mode: Option<&str>, interval: u32) -> CliArgs {
    CliArgs {
        mode: mode.map(|m| m.to_string()),
        interval,
        port: 9898,
        url: "https://hosts.gitcdn.top/hosts.txt".to_string(),
        lang: None,
    }
}

#[test]
fn command_line_names_the_role() {
    let plan = run_cli(&args(Some("server"), 30));
    assert_eq!(plan.role, Role::Server);
    assert_eq!(plan.interval, 30);
    assert_eq!(plan.port, 9898);
    assert_eq!(plan.url, "https://hosts.gitcdn.top/hosts.txt");
    assert_eq!(plan.invalid_mode, None);
    assert!(!plan.interval_coerced);
    assert_eq!(run_cli(&args(Some("client"), 30)).role, Role::Client);
    assert_eq!(run_cli(&args(None, 30)).role, Role::Client);
    assert_eq!(run_cli(&args(None, 30)).invalid_mode, None);
}

#[test]
fn command_line_sets_right_what_is_wrong() {
    let plan = run_cli(&args(Some("Server"), 0));
    assert_eq!(plan.role, Role::Client);
    assert_eq!(plan.invalid_mode, Some("Server".to_string()));
    assert_eq!(plan.interval, 60);
    assert!(plan.interval_coerced);
    let plan = run_cli(&args(Some(""), 1));
    assert_eq!(plan.invalid_mode, Some(String::new()));
    assert_eq!(plan.interval, 1);
    assert!(!plan.interval_coerced);
}

#[test]
fn language_for_a_locale() {
    assert_eq!(lang_for_locale(Some("zh-Hans-CN")), "zh-CN");
    assert_eq!(lang_for_locale(Some("zh")), "zh-CN");
    assert_eq!(lang_for_locale(Some("ja-JP")), "ja-JP");
    assert_eq!(lang_for_locale(Some("en-GB")), "en-US");
    assert_eq!(lang_for_locale(Some("de-DE")), "en-US");
    assert_eq!(lang_for_locale(Some("z")), "en-US");
    assert_eq!(lang_for_locale(Some("")), "en-US");
    assert_eq!(lang_for_locale(None), "en-US");
    let lang = detect_system_lang();
    assert!(lang == "zh-CN" || lang == "ja-JP" || lang == "en-US");
}

#[test]
fn tray_texts() {
    assert_eq!(tray_text("show", "zh-CN"), "显示主窗口");
    assert_eq!(tray_text("show", "en-US"), "Show Window");
    assert_eq!(tray_text("show", "ja-JP"), "ウィンドウを表示");
    assert_eq!(tray_text("start_client", "en-US"), "Start Client");
    assert_eq!(tray_text("stop_client", "ja-JP"), "クライアント停止");
    assert_eq!(tray_text("start_server", "zh-CN"), "启动服务端");
    assert_eq!(tray_text("stop_server", "en-US"), "Stop Server");
    assert_eq!(tray_text("flush_dns", "ja-JP"), "DNS をフラッシュ");
    assert_eq!(tray_text("clean_hosts", "zh-CN"), "清空 Hosts");
    assert_eq!(tray_text("quit", "en-US"), "Quit");
    assert_eq!(tray_text("quit", "de-DE"), "Unknown");
    assert_eq!(tray_text("open", "en-US"), "Unknown");
    assert_eq!(tray_text("", ""), "Unknown");
}
