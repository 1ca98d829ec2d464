use dorion::config::Config;
use dorion::injection::client_mod::{
    available_mods, client_mod, ensure_shelter, join_mod_sources, mod_script_or_fallback,
    mod_script_url, mod_styles_url,
};
use dorion::injection::injection_runner::{get_injection_js, plugin_eval_script};
use dorion::injection::plugin::{
    get_js_imports, get_plugin_import_urls, get_plugin_list, load_plugins, toggle_plugin,
    toggle_preload, DirEntryInfo, Plugin,
};
use dorion::injection::theme::{
    get_enabled_themes, get_theme_names, get_themes, theme_file_name, theme_is_enabled,
};
use dorion::profiles::{get_profile_list, may_delete_profile};

fn file(name: &str) -> DirEntryInfo {
    DirEntryInfo::File { name: Some(name.to_string()), is_dir: false }
}

fn dir(name: &str) -> DirEntryInfo {
    DirEntryInfo::File { name: Some(name.to_string()), is_dir: true }
}

fn strings(v: &[&str]) -> Vec<String> {
    v.iter().map(|s| s.to_string()).collect()
}

#[test]
fn plugin_names_from_files() {
    let p = Plugin::from_file_name("_PRELOAD_fancy.js");
    assert_eq!(p, Plugin { name: "fancy".to_string(), disabled: true, preload: true });
    let p = Plugin::from_file_name("simple.js");
    assert_eq!(p, Plugin { name: "simple".to_string(), disabled: false, preload: false });
    let p = Plugin::from_file_name("a.js.js");
    assert_eq!(p.name, "a");
}

#[test]
fn plugin_listing() {
    let entries = vec![file("one.js"), dir("folder"), file("_two.js")];
    let list = get_plugin_list(&entries).unwrap();
    assert_eq!(list.len(), 2);
    assert_eq!(list[0].name, "one");
    assert!(list[1].disabled);
    let bad = vec![file("one.js"), DirEntryInfo::Unreadable { message: "boom".to_string() }];
    assert_eq!(get_plugin_list(&bad), Err("boom".to_string()));
}

#[test]
fn plugin_toggle_renames_and_back() {
    let r = toggle_plugin("cool", &vec![file("other.js"), file("cool.js")]).unwrap().unwrap();
    assert_eq!(r.from, "cool.js");
    assert_eq!(r.to, "_cool.js");
    assert!(!r.result);
    let r2 = toggle_plugin("cool", &vec![file("other.js"), file(&r.to)]).unwrap().unwrap();
    assert_eq!(r2.from, "_cool.js");
    assert_eq!(r2.to, "cool.js");
    assert!(r2.result);
    assert_eq!(toggle_plugin("missing", &vec![file("cool.js")]).unwrap(), None);
    assert!(toggle_plugin("x", &vec![DirEntryInfo::File { name: None, is_dir: false }]).is_err());
}

#[test]
fn preload_toggle() {
    let r = toggle_preload("cool", &vec![file("cool.js")]).unwrap().unwrap();
    assert_eq!(r.to, "PRELOAD_cool.js");
    assert!(r.result);
    let r = toggle_preload("PRELOAD_cool", &vec![file("_PRELOAD_cool.js")]).unwrap().unwrap();
    assert_eq!(r.from, "_PRELOAD_cool.js");
    assert!(!r.result);
}

#[test]
fn plugins_loaded() {
    let entries = vec![
        (file("a.js"), Some("A()".to_string())),
        (file("_off.js"), Some("X()".to_string())),
        (file("PRELOAD_p.js"), Some("P()".to_string())),
        (file("notes.txt"), Some("n".to_string())),
        (file("b.js"), None),
    ];
    let all = load_plugins(&entries, None).unwrap();
    assert_eq!(
        all,
        vec![
            ("\"a.js\"".to_string(), "A()".to_string()),
            ("\"PRELOAD_p.js\"".to_string(), "P()".to_string())
        ]
    );
    let pre = load_plugins(&entries, Some(true)).unwrap();
    assert_eq!(pre, vec![("\"PRELOAD_p.js\"".to_string(), "P()".to_string())]);
}

#[test]
fn js_imports() {
    let js = "// URL_IMPORT https://a.example/x.js\n//URL_IMPORT https://b.example/y.js\ncode()";
    assert_eq!(get_js_imports(js), vec!["https://a.example/x.js".to_string()]);
    assert_eq!(get_js_imports("//URL_IMPORT https://c.example/z.js"), vec!["https://c.example/z.js".to_string()]);
    assert!(get_js_imports("nothing here").is_empty());
    assert_eq!(get_plugin_import_urls(js.to_string()), vec!["https://a.example/x.js".to_string()]);
}

#[test]
fn injection_script_themes() {
    let js = "before /*! __THEMES__ */ after";
    assert_eq!(get_injection_js(js, "THEME").unwrap(), "before THEME after");
    assert_eq!(get_injection_js("no marker", "THEME").unwrap(), "no marker");
    let s = plugin_eval_script("p", "run()");
    assert!(s.contains("console.log('Executing plugin: p')"));
    assert!(s.contains("run()"));
    assert!(s.contains("Plugin p returned error"));
}

#[test]
fn client_mods() {
    assert_eq!(available_mods(), strings(&["Shelter", "Vencord", "Equicord"]));
    assert_eq!(
        mod_script_url("Vencord"),
        "https://github.com/Vendicated/Vencord/releases/download/devbuild/browser.js"
    );
    assert_eq!(mod_styles_url("Shelter"), "");
    assert_eq!(mod_script_url("Unknown"), "");
    assert!(client_mod("Equicord").is_some());
    let (mods, added) = ensure_shelter(strings(&["Vencord"]));
    assert!(added);
    assert_eq!(mods, strings(&["Shelter", "Vencord"]));
    let (mods2, added2) = ensure_shelter(mods.clone());
    assert!(!added2);
    assert_eq!(mods2, mods);
    assert_eq!(mod_script_or_fallback("Shelter", None, "FALLBACK"), "FALLBACK");
    assert_eq!(mod_script_or_fallback("Vencord", None, "FALLBACK"), "");
    assert_eq!(mod_script_or_fallback("Vencord", Some("v()".to_string()), "F"), "v()");
    assert_eq!(join_mod_sources(&strings(&["a", "", "b"]), ";"), ";a;b");
    assert_eq!(join_mod_sources(&strings(&["x"]), " "), " x");
}

#[test]
fn themes() {
    let mut c = Config::default();
    c.themes = Some(strings(&["dark.css"]));
    assert!(theme_is_enabled("dark.css", &c));
    assert!(!theme_is_enabled("light.css", &c));
    assert_eq!(get_enabled_themes(&c), strings(&["dark.css"]));
    let entries = vec![
        (file("dark.css"), Some("body{}".to_string())),
        (file("light.css"), Some("p{}".to_string())),
        (dir("cache"), None),
    ];
    assert_eq!(get_themes(&entries, &c).unwrap(), "body{}");
    let names = get_theme_names(&vec![file("dark.css"), dir("Cache"), file(".DS_Store"), file("x.css")]);
    assert_eq!(names, strings(&["\"dark.css\"", "\"x.css\""]));
    c.themes = None;
    assert!(get_enabled_themes(&c).is_empty());
}

#[test]
fn theme_file_names() {
    assert_eq!(theme_file_name("https://example.com/themes/cool.theme.css", None), Some("cool.css".to_string()));
    assert_eq!(theme_file_name("https://example.com/x", Some("mine.css".to_string())), Some("mine.css".to_string()));
    assert_eq!(theme_file_name("https://example.com/", None), None);
    assert_eq!(theme_file_name("https://example.com/.hidden", None), None);
}

#[test]
fn profiles() {
    let list = get_profile_list(&vec![dir("default"), file("x"), dir("work"), DirEntryInfo::File { name: None, is_dir: true }]);
    assert_eq!(list, strings(&["default", "work"]));
    assert!(!may_delete_profile("default"));
    assert!(may_delete_profile("work"));
}

#[test]
fn preload_toggle_twice_restores() {
    let r = toggle_preload("cool", &vec![file("cool.js")]).unwrap().unwrap();
    assert_eq!(r.to, "PRELOAD_cool.js");
    assert!(r.result);
    let r2 = toggle_preload("cool", &vec![file(&r.to)]).unwrap().unwrap();
    assert_eq!(r2.from, "PRELOAD_cool.js");
    assert_eq!(r2.to, "cool.js");
    assert!(!r2.result);
}

#[test]
fn enable_then_disable_restores() {
    let r = toggle_plugin("cool", &vec![file("_cool.js")]).unwrap().unwrap();
    assert_eq!(r.to, "cool.js");
    assert!(r.result);
    let r2 = toggle_plugin("cool", &vec![file(&r.to)]).unwrap().unwrap();
    assert_eq!(r2.to, "_cool.js");
    assert!(!r2.result);
}
