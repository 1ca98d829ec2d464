use dorion::args::Args;
use dorion::config::Config;
use dorion::launch::{
    choose_proxy, deep_link_url, git_hash, initialization_script, should_disable_plugins,
    single_instance, window_title,
};
use dorion::platform::Platform;
use dorion::proxy_server::{
    forwards_header, handle_request, proxy_target, response_content_type, ProxyDecision, ProxyMethod,
};
use dorion::release::{do_update, maybe_latest_main_release, update_check, version_tag_string};
use dorion::updater::github::{download_release, get_release, get_release_url, release_from_json, ReleaseData};
use dorion::updater::{
    needs_to_elevate, parse_arguments, select_asset, update_main, update_main_kinda,
    updater_action, AssetKind, FinishStep, UpdaterAction, UpdaterArguments,
};

fn args(safemode: bool, proxy: Option<&str>) -> Args {
    Args {
        help: false,
        safemode,
        startup: false,
        proxy: proxy.map(|s| s.to_string()),
        legacy_fetch: false,
        webview_args: String::new(),
    }
}

fn strings(v: &[&str]) -> Vec<String> {
    v.iter().map(|s| s.to_string()).collect()
}

#[test]
fn proxy_choice() {
    let mut c = Config::default();
    assert_eq!(choose_proxy(&args(false, None), &c), None);
    c.proxy_uri = Some("http://conf:8080".to_string());
    assert_eq!(choose_proxy(&args(false, None), &c), Some("http://conf:8080".to_string()));
    assert_eq!(
        choose_proxy(&args(false, Some("http://arg:1")), &c),
        Some("http://arg:1".to_string())
    );
    assert_eq!(choose_proxy(&args(false, Some("")), &c), None);
    c.proxy_uri = None;
    assert_eq!(choose_proxy(&args(false, None), &c), None);
}

#[test]
fn startup_scripts_and_names() {
    assert_eq!(initialization_script(&args(true, None), "PRE", "MODS"), None);
    let s = initialization_script(&args(false, None), "PRE", "MODS").unwrap();
    assert_eq!(
        s,
        "console.log(window.location);if(window.__DORION_INIT__) {throw new Error('Dorion already began initializing');} window.__DORION_INIT__ = true; PRE;MODS"
    );
    assert_eq!(window_title("6.4.0"), "Dorion - v6.4.0");
    assert_eq!(git_hash(None), "Unknown");
    assert_eq!(git_hash(Some("abc123")), "abc123");
    assert!(should_disable_plugins(&args(true, None)));
    let mut c = Config::default();
    assert!(single_instance(&c));
    c.multi_instance = Some(true);
    assert!(!single_instance(&c));
    c.client_type = Some("ptb".to_string());
    assert_eq!(deep_link_url(&c, "/channels/1/2"), "https://ptb.discord.com/channels/1/2");
}

#[test]
fn proxy_requests() {
    assert_eq!(proxy_target("url=https://a.org/x"), "https://a.org/x");
    assert_eq!(proxy_target("a=1&url=https://a.org/?url=https://b.org"), "https://b.org");
    assert_eq!(proxy_target("plain"), "plain");
    assert_eq!(proxy_target("url="), "");
    let once = proxy_target("x=1&url=https://a.org/?q=url=b");
    assert_eq!(once, "b");
    assert_eq!(proxy_target(&once), once);
    let plain = proxy_target("https://a.org/page");
    assert_eq!(proxy_target(&plain), plain);
    match handle_request("url=https%3A%2F%2Fa.org%2Fx", "GET") {
        ProxyDecision::Forward { method, url } => {
            assert_eq!(method, ProxyMethod::Get);
            assert_eq!(url, "https://a.org/x");
        }
        other => panic!("unexpected {:?}", other),
    }
    assert_eq!(handle_request("url=", "GET"), ProxyDecision::BadRequest);
    assert_eq!(handle_request("", "POST"), ProxyDecision::BadRequest);
    assert_eq!(handle_request("url=https://a.org", "PATCH"), ProxyDecision::BadRequest);
    assert_eq!(handle_request("url=%FF", "GET"), ProxyDecision::Undecodable);
    for m in ["GET", "POST", "PUT", "DELETE"] {
        assert_eq!(
            handle_request("url=https://a.org", m),
            ProxyDecision::Forward { method: ProxyMethod::Get, url: "https://a.org".to_string() }
        );
    }
    assert!(!forwards_header("host"));
    assert!(!forwards_header("accept-encoding"));
    assert!(forwards_header("authorization"));
    assert_eq!(response_content_type(None), "text/plain");
    assert_eq!(response_content_type(Some("image/png".to_string())), "image/png");
}

#[test]
fn release_checks() {
    assert_eq!(version_tag_string(6, 4, 0), "v6.4.0");
    let same = r#"{"tag_name": "v6.4.0", "assets": []}"#;
    let newer = r#"{"tag_name": "v6.5.0"}"#;
    assert_eq!(maybe_latest_main_release(same, 6, 4, 0), Ok(false));
    assert_eq!(maybe_latest_main_release(newer, 6, 4, 0), Ok(true));
    assert_eq!(
        maybe_latest_main_release(r#"{"name": "x"}"#, 6, 4, 0),
        Err("Failed to extract 'tag_name' from JSON".to_string())
    );
    assert!(maybe_latest_main_release("not json", 6, 4, 0).is_err());
    assert_eq!(update_check(Some(newer.to_string()), 6, 4, 0), strings(&["dorion"]));
    assert!(update_check(Some(same.to_string()), 6, 4, 0).is_empty());
    assert!(update_check(Some("{".to_string()), 6, 4, 0).is_empty());
    assert!(update_check(None, 6, 4, 0).is_empty());
    let to_update = strings(&["dorion"]);
    assert_eq!(do_update(&to_update, false, Platform::Windows), strings(&["--main", "true"]));
    assert_eq!(do_update(&to_update, true, Platform::Linux), strings(&["--local", "true"]));
    assert_eq!(
        do_update(&to_update, true, Platform::MacOS),
        strings(&["--main", "true", "--local", "true"])
    );
    assert!(do_update(&vec![], false, Platform::Windows).is_empty());
}

#[test]
fn releases_from_json() {
    let r = release_from_json(r#"{"tag_name": "v7.0.0", "assets": [{"name": "a.msi"}, {"name": "b.dmg"}]}"#)
        .unwrap();
    assert_eq!(r, ReleaseData { tag_name: "v7.0.0".to_string(), release_names: strings(&["a.msi", "b.dmg"]) });
    assert_eq!(
        release_from_json(r#"{"tag_name": "v7.0.0"}"#),
        Err("Failed to parse JSON: assets is not an array".to_string())
    );
    assert_eq!(
        release_from_json(r#"{"tag_name": "v7.0.0", "assets": [{"size": 1}]}"#),
        Err("Failed to parse JSON: an asset's name is not a string".to_string())
    );
    assert_eq!(
        release_from_json(r#"{"assets": []}"#),
        Err("Failed to parse JSON: tag_name is not a string".to_string())
    );
    assert!(release_from_json("<html>").unwrap_err().starts_with("Failed to parse JSON: "));
}

#[test]
fn github_releases() {
    assert_eq!(
        get_release_url("SpikeHD", "Dorion"),
        "https://api.github.com/repos/SpikeHD/Dorion/releases/latest"
    );
    assert_eq!(
        download_release("SpikeHD", "Dorion", "v6.5.0", "Dorion.msi"),
        "https://github.com/SpikeHD/Dorion/releases/download/v6.5.0/Dorion.msi"
    );
    let err = get_release(Some("v1".to_string()), None).unwrap_err();
    assert_eq!(err, "Failed to parse JSON: assets is not an array");
    let r = get_release(
        Some("v1".to_string()),
        Some(vec![Some("a.msi".to_string()), Some("b.zip".to_string())]),
    )
    .unwrap();
    assert_eq!(r, ReleaseData { tag_name: "v1".to_string(), release_names: strings(&["a.msi", "b.zip"]) });
}

#[test]
fn updater_options() {
    let a = parse_arguments(strings(&["--main", "true", "--local", "true"]));
    assert_eq!(a, UpdaterArguments { main: true, local: true });
    let a = parse_arguments(strings(&["--local"]));
    assert_eq!(a, UpdaterArguments { main: false, local: true });
    let a = parse_arguments(vec![]);
    assert_eq!(a, UpdaterArguments { main: false, local: false });
    assert_eq!(updater_action(UpdaterArguments { main: false, local: true }, Platform::Windows), UpdaterAction::Nothing);
    assert_eq!(updater_action(UpdaterArguments { main: true, local: true }, Platform::Windows), UpdaterAction::UpdateMainKinda);
    assert_eq!(updater_action(UpdaterArguments { main: true, local: true }, Platform::MacOS), UpdaterAction::UpdateMain);
    assert_eq!(updater_action(UpdaterArguments { main: true, local: false }, Platform::Windows), UpdaterAction::UpdateMain);
    assert!(needs_to_elevate(false));
    assert!(!needs_to_elevate(true));
}

#[test]
fn updater_assets() {
    let release = ReleaseData {
        tag_name: "v6.5.0".to_string(),
        release_names: strings(&[
            "Dorion_6.5.0_x64.dmg",
            "Dorion_6.5.0_aarch64.dmg",
            "Dorion_6.5.0_win64_portable.zip",
            "Dorion_6.5.0_x64_en-US.msi",
        ]),
    };
    assert_eq!(select_asset(&release.release_names, AssetKind::Msi), "Dorion_6.5.0_x64_en-US.msi");
    assert_eq!(select_asset(&release.release_names, AssetKind::Dmg { x64: false }), "Dorion_6.5.0_aarch64.dmg");
    assert_eq!(select_asset(&strings(&["a.txt"]), AssetKind::Msi), "");
    assert!(update_main(Platform::Linux, true, &release).is_none());
    let u = update_main(Platform::Windows, true, &release).unwrap();
    assert_eq!(u.release_name, "Dorion_6.5.0_x64_en-US.msi");
    assert_eq!(
        u.url,
        "https://github.com/SpikeHD/Dorion/releases/download/v6.5.0/Dorion_6.5.0_x64_en-US.msi"
    );
    assert_eq!(u.finish, FinishStep::InstallMsi);
    let u = update_main(Platform::MacOS, true, &release).unwrap();
    assert_eq!(u.release_name, "Dorion_6.5.0_x64.dmg");
    assert_eq!(u.finish, FinishStep::OpenDmg);
    let u = update_main_kinda(&release);
    assert_eq!(u.release_name, "Dorion_6.5.0_win64_portable.zip");
    assert_eq!(u.finish, FinishStep::RevealZip);
}
