use dorion::args::{get_proxy, get_webview_args, is_help, is_legacy_fetch, Args};
use dorion::config::Config;
use dorion::gpu::{additional_args, disable_dma, disable_hardware_accel_windows, AdapterInfo, DeviceType};
use dorion::platform::{get_platform, Platform};
use dorion::text::{concat2, decimal_string, replace_all_str, replace_first_str, str_contains};
use dorion::util::args::{has_flag, is_safemode, is_startup};
use dorion::util::color::AccentColor;
use dorion::util::helpers::fetch_image;
use dorion::util::logger::log_line;
use dorion::util::paths::{get_webdata_dir, location, BaseDir, Place};
use dorion::util::process::process_already_exists;
use dorion::util::url::{
    get_client_app_url, get_client_url, get_url_for_channel, get_url_for_guild, get_url_for_message,
};
use dorion::util::window_helpers::{
    chromium_version, disables_accelerator, useragent, zoom_setting, WebviewKeybind,
};

fn argv(items: &[&str]) -> Vec<String> {
    items.iter().map(|s| s.to_string()).collect()
}

#[test]
fn replace_all_matches_std() {
    assert_eq!(replace_all_str("a.js.js", ".js", ""), "a.js.js".replace(".js", ""));
    assert_eq!(replace_all_str("aaa", "aa", "b"), "ba");
    assert_eq!(replace_all_str("ab", "", "-"), "-a-b-");
    assert_eq!(replace_first_str("_x_y", "_", ""), "x_y");
    assert_eq!(replace_first_str("xy", "", "-"), "-xy");
}

#[test]
fn decimal_text() {
    assert_eq!(decimal_string(0), "0");
    assert_eq!(decimal_string(1234567), "1234567");
    assert_eq!(decimal_string(u64::MAX), u64::MAX.to_string());
    assert_eq!(concat2("ab", "cd"), "abcd");
    assert!(str_contains("streamlabs obs", "obs"));
}

#[test]
fn command_line_flags() {
    let a = argv(&["dorion", "--startup", "x"]);
    assert!(is_startup(&a));
    assert!(!is_safemode(&a));
    assert!(has_flag(&a, "x"));
    assert!(is_safemode(&argv(&["--safemode"])));
    assert!(!has_flag(&argv(&["--safemode=1"]), "--safemode"));
}

#[test]
fn parsed_args_getters() {
    let args = Args {
        help: false,
        safemode: true,
        startup: false,
        proxy: Some("socks5://127.0.0.1:9050".to_string()),
        legacy_fetch: true,
        webview_args: "--foo".to_string(),
    };
    assert!(!is_help(&args));
    assert!(dorion::args::is_safemode(&args));
    assert!(!dorion::args::is_startup(&args));
    assert!(is_legacy_fetch(&args));
    assert_eq!(get_proxy(&args), Some("socks5://127.0.0.1:9050".to_string()));
    assert_eq!(get_webview_args(&args), "--foo");
}

#[test]
fn client_urls() {
    let mut c = Config::default();
    assert_eq!(get_client_url(&c), "https://discord.com");
    assert_eq!(get_client_app_url(&c), "https://discord.com/app");
    c.client_type = Some("canary".to_string());
    assert_eq!(get_client_url(&c), "https://canary.discord.com");
    assert_eq!(get_url_for_guild(&c, "1".to_string()), "https://canary.discord.com/channels/1");
    assert_eq!(
        get_url_for_channel(&c, "1".to_string(), "2".to_string()),
        "https://canary.discord.com/channels/1/2"
    );
    assert_eq!(
        get_url_for_message(&c, "1".to_string(), "2".to_string(), "3".to_string()),
        "https://canary.discord.com/channels/1/2/3"
    );
    c.client_type = None;
    assert_eq!(get_client_url(&c), "https://discord.com");
}

#[test]
fn platform_names() {
    assert_eq!(get_platform(Platform::Windows), "windows");
    assert_eq!(get_platform(Platform::MacOS), "macos");
    assert_eq!(get_platform(Platform::Linux), "linux");
}

#[test]
fn user_agents() {
    assert_eq!(
        useragent(Platform::Windows, None),
        "Mozilla/5.0 (Windows NT 10.0; Win64; x64) AppleWebKit/537.36 (KHTML, like Gecko) Chrome/138.0.0.0 Safari/537.36"
    );
    assert_eq!(
        useragent(Platform::Windows, Some("120.0.0.0".to_string())),
        "Mozilla/5.0 (Windows NT 10.0; Win64; x64) AppleWebKit/537.36 (KHTML, like Gecko) Chrome/120.0.0.0 Safari/537.36"
    );
    assert_eq!(
        useragent(Platform::Linux, Some("120.0.0.0".to_string())),
        "Mozilla/5.0 (X11; Linux x86_64) AppleWebKit/605.1.15 (KHTML, like Gecko) Version/18.0 Safari/605.1.15"
    );
    assert_eq!(
        useragent(Platform::MacOS, None),
        "Mozilla/5.0 (Macintosh; Intel Mac OS X 10_15_7) AppleWebKit/605.1.15 (KHTML, like Gecko) Version/18.0 Safari/605.1.15"
    );
}

#[test]
fn chromium_versions() {
    assert_eq!(chromium_version("131.0.2903.86"), Some("131.0.0.0".to_string()));
    assert_eq!(chromium_version("131"), Some("131.0.0.0".to_string()));
    assert_eq!(chromium_version(".5"), None);
    assert_eq!(chromium_version(""), None);
}

#[test]
fn webview_shortcuts() {
    let shift_escape = WebviewKeybind { key: 0x1B, shift: true, ctrl: false, alt: false };
    assert!(disables_accelerator(true, shift_escape));
    assert!(!disables_accelerator(false, shift_escape));
    assert!(!disables_accelerator(true, WebviewKeybind { key: 0x1B, shift: true, ctrl: true, alt: false }));
    assert!(!disables_accelerator(true, WebviewKeybind { key: 0x1B, shift: false, ctrl: false, alt: false }));
}

#[test]
fn zoom_defaults() {
    let mut c = Config::default();
    c.zoom = None;
    assert_eq!(zoom_setting(&c), "1.0");
    c.zoom = Some("1.25".to_string());
    assert_eq!(zoom_setting(&c), "1.25");
}

#[test]
fn accent_color_read_after_set() {
    let mut a = AccentColor::new();
    assert_eq!(a._get_os_accent(), "");
    a.set_accent_color(12, 34, 56, 255);
    assert_eq!(a._get_os_accent(), "rgba(12, 34, 56, 255)");
    a.set_accent_color(0, 0, 0, 0);
    assert_eq!(a._get_os_accent(), "rgba(0, 0, 0, 0)");
}

#[test]
fn fetched_images_become_data_uris() {
    assert_eq!(
        fetch_image(Some("image/png".to_string()), b"foo"),
        Some("data:image/png;base64,Zm9v".to_string())
    );
    assert_eq!(fetch_image(Some("text/html".to_string()), b"foo"), None);
    assert_eq!(fetch_image(None, b"foo"), None);
    assert_eq!(
        fetch_image(Some("image/gif".to_string()), b"fo"),
        Some("data:image/gif;base64,Zm8=".to_string())
    );
}

#[test]
fn log_lines() {
    assert_eq!(log_line("2024-01-02 03:04:05", "hi"), "[2024-01-02 03:04:05] hi");
}

#[test]
fn running_instance_detection() {
    assert!(!process_already_exists(false, false));
    assert!(!process_already_exists(false, true));
    assert!(process_already_exists(true, false));
    assert!(!process_already_exists(true, true));
}

#[test]
fn data_locations() {
    let l = location(Place::PluginDir, Platform::Windows, false);
    assert_eq!(l.base, BaseDir::HomeDir);
    assert_eq!(l.components, vec!["dorion".to_string(), "plugins".to_string()]);
    let l = location(Place::PluginDir, Platform::Linux, false);
    assert_eq!(l.base, BaseDir::ConfigDir);
    let l = location(Place::PluginDir, Platform::Linux, true);
    assert_eq!(l.base, BaseDir::ExeDir);
    assert_eq!(l.components, vec!["plugins".to_string()]);
    let l = location(Place::ConfigFile, Platform::Windows, false);
    assert_eq!(l.base, BaseDir::DataDir);
    assert_eq!(l.components, vec!["dorion".to_string(), "config.json".to_string()]);
    let l = location(Place::ProfilesDir, Platform::MacOS, false);
    assert_eq!(l.base, BaseDir::DataDir);
    let l = location(Place::LogFile, Platform::Linux, false);
    assert_eq!(
        l.components,
        vec!["dorion".to_string(), "logs".to_string(), "latest.log".to_string()]
    );
    let l = location(Place::UpdaterDir, Platform::Linux, false);
    assert_eq!(l.base, BaseDir::Resource);
    let l = location(Place::ConfigDir, Platform::Linux, true);
    assert!(l.components.is_empty());
    let mut c = Config::default();
    c.profile = None;
    assert_eq!(get_webdata_dir(&c), vec!["default".to_string(), "webdata".to_string()]);
}

#[test]
fn gpu_workarounds() {
    let adapters = vec![
        AdapterInfo { device_type: DeviceType::Cpu, name: "NVIDIA llvmpipe".to_string() },
        AdapterInfo { device_type: DeviceType::IntegratedGpu, name: "Intel UHD".to_string() },
    ];
    assert!(!disable_dma(&adapters));
    let adapters = vec![AdapterInfo {
        device_type: DeviceType::DiscreteGpu,
        name: "NVIDIA GeForce RTX 3070".to_string(),
    }];
    assert!(disable_dma(&adapters));
    assert_eq!(disable_hardware_accel_windows("--a"), "--a --disable-gpu");
    assert_eq!(additional_args("--a", "--b"), "--a --b");
}
