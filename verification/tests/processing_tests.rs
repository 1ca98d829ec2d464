use dorion::config::Config;
use dorion::processors::css_preprocess::{
    apply_replacements, css_cache_file_name, font_data_uri, has_imports, image_data_uri,
    plan_fonts, plan_images, plan_imports, should_cache_css, ImportFetch, MediaFetch, MediaPlan,
};

#[test]
fn imports_are_planned_once() {
    let rule = "@import url(\"https://fonts.example.com/a.css\");";
    let css = format!("{rule}\n{rule}\nbody{{}}");
    let plan = plan_imports(&css).unwrap();
    assert_eq!(plan.css, "\n\nbody{}");
    assert_eq!(
        plan.fetches,
        vec![ImportFetch { rule: rule.to_string(), url: "https://fonts.example.com/a.css".to_string() }]
    );
    assert!(has_imports(&css).unwrap());
    assert!(!has_imports("body{}").unwrap());
}

#[test]
fn imports_with_quotes_and_without() {
    let css = "@import url('//x.org/a.css');\n@import url(https://y.org/b.css);\np{}";
    let plan = plan_imports(css).unwrap();
    assert_eq!(plan.css, css);
    assert_eq!(plan.fetches.len(), 2);
    assert_eq!(plan.fetches[0].url, "https://x.org/a.css");
    assert_eq!(plan.fetches[1].url, "https://y.org/b.css");
    assert_eq!(plan.fetches[1].rule, "@import url(https://y.org/b.css);");
}

#[test]
fn images_are_planned() {
    let css = "a{background:url(https://x.org/a.png)} b{background:url('https://x.org/b.svg')} \
               c{background:url(https://x.org/a.png)} d{background:url(https://cdn.discordapp.com/e.png)}";
    let fetches = match plan_images(css).unwrap() {
        MediaPlan::Fetch(f) => f,
        other => panic!("unexpected {:?}", other),
    };
    assert_eq!(
        fetches,
        vec![
            MediaFetch { url: "https://x.org/a.png".to_string(), kind: "png".to_string() },
            MediaFetch { url: "https://x.org/b.svg".to_string(), kind: "svg+xml".to_string() },
        ]
    );
}

#[test]
fn too_many_images_are_left_alone() {
    let mut css = String::new();
    for i in 0..51 {
        css.push_str(&format!("a{i}{{background:url(https://x.org/{i}.png)}}"));
    }
    assert_eq!(plan_images(&css).unwrap(), MediaPlan::TooMany { count: 51 });
    let mut css = String::new();
    for i in 0..50 {
        css.push_str(&format!("a{i}{{background:url(https://x.org/{i}.png)}}"));
    }
    match plan_images(&css).unwrap() {
        MediaPlan::Fetch(f) => assert_eq!(f.len(), 50),
        other => panic!("unexpected {:?}", other),
    }
}

#[test]
fn fonts_are_planned() {
    let css = "@font-face { font-family: X; src: url(https://fonts.example.com/x.woff2) }\n\
               @font-face { src: url('https://fonts.gstatic.com/y.ttf') }";
    let fetches = match plan_fonts(css).unwrap() {
        MediaPlan::Fetch(f) => f,
        other => panic!("unexpected {:?}", other),
    };
    assert_eq!(
        fetches,
        vec![MediaFetch { url: "https://fonts.example.com/x.woff2".to_string(), kind: "woff2".to_string() }]
    );
}

#[test]
fn replacements_apply_in_order() {
    let reps = vec![
        ("A".to_string(), "B".to_string()),
        ("B".to_string(), "C".to_string()),
    ];
    assert_eq!(apply_replacements("A B", &reps), "C C");
    assert_eq!(apply_replacements("x", &vec![]), "x");
}

#[test]
fn data_uris() {
    assert_eq!(image_data_uri("png", b"foo"), "data:image/png;base64,Zm9v");
    assert_eq!(image_data_uri("png", b""), "data:image/png;base64,");
    assert_eq!(font_data_uri("woff2", b"hi"), "data:font/woff2;charset=utf-8;base64,aGk=");
    assert_eq!(font_data_uri("ttf", &[0xff, 0xfe, 0xfd, 0x00]), "data:font/ttf;charset=utf-8;base64,//79AA==");
}

#[test]
fn css_cache_settings() {
    let mut c = Config::default();
    assert!(!should_cache_css(&c));
    c.cache_css = None;
    assert!(should_cache_css(&c));
    assert_eq!(css_cache_file_name("dark"), "dark_cache.css");
}
