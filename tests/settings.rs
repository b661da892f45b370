use dmoj_submit::api::APILanguage;
use dmoj_submit::config::{
    apply_config_args, default_language_key, is_blank, parse_language_arg, plan_submission,
    resolve_language, split_text, ConfigArgs, ConfyConfig, PathPart, SetupError, SubmitArgs,
};
use dmoj_submit::languages::{
    join_lines, language_entries, language_id, language_id_by_key, language_listing,
    language_listing_heading,
};

fn lang(id: i32, key: &str, name: &str) -> APILanguage {
    APILanguage {
        id,
        key: key.to_string(),
        short_name: None,
        common_name: name.to_string(),
        ace_mode_name: "text".to_string(),
        pygments_name: "text".to_string(),
        code_template: String::new(),
    }
}

fn args(problem: Option<&str>, token: Option<&str>, language: Option<&str>) -> SubmitArgs {
    SubmitArgs {
        file: std::path::PathBuf::from("aplusb.cpp"),
        problem: problem.map(|s| s.to_string()),
        token: token.map(|s| s.to_string()),
        language: language.map(|s| s.to_string()),
    }
}

fn text(s: &str) -> PathPart {
    PathPart::Text(s.to_string())
}

#[test]
fn splitting() {
    assert_eq!(split_text("a,b,,c", ','), vec!["a", "b", "", "c"]);
    assert_eq!(split_text("", ','), vec![""]);
    assert_eq!(split_text("x,", ','), vec!["x", ""]);
}

#[test]
fn parsing_language_argument() {
    let p = parse_language_arg("cpp:cpp20,py:pypy3,java:java8").unwrap();
    assert_eq!(
        p,
        vec![
            ("cpp".to_string(), "cpp20".to_string()),
            ("py".to_string(), "pypy3".to_string()),
            ("java".to_string(), "java8".to_string()),
        ]
    );
    assert!(parse_language_arg("cpp").is_none());
    assert!(parse_language_arg("cpp:a:b").is_none());
    assert!(parse_language_arg("cpp:cpp20,").is_none());
    assert_eq!(parse_language_arg(":").unwrap(), vec![(String::new(), String::new())]);
}

#[test]
fn applying_config_arguments() {
    let mut cfg = ConfyConfig::empty();
    let r = apply_config_args(
        &mut cfg,
        ConfigArgs { token: Some("SECRET-REDACTED".to_string()), language: Some("cpp:cpp17,py:py3,cpp:cpp20".to_string()) },
    );
    assert!(r.is_ok());
    assert_eq!(cfg.token.as_deref(), Some("SECRET-REDACTED"));
    assert_eq!(cfg.ext_key(&"cpp".to_string()).as_deref(), Some("cpp20"));
    assert_eq!(cfg.ext_key(&"py".to_string()).as_deref(), Some("py3"));
    assert_eq!(cfg.ext_key(&"rs".to_string()), None);
    assert_eq!(cfg.ext_key_map.as_ref().unwrap().len(), 2);

    let r = apply_config_args(&mut cfg, ConfigArgs { token: Some("other".to_string()), language: Some("oops".to_string()) });
    assert_eq!(r, Err(SetupError::BadLanguageArg));
    assert_eq!(cfg.token.as_deref(), Some("SECRET-REDACTED"));
    assert_eq!(SetupError::BadLanguageArg.describe(), "couldn't parse language argument");

    let r = apply_config_args(&mut cfg, ConfigArgs { token: None, language: Some("py:pypy3".to_string()) });
    assert!(r.is_ok());
    assert_eq!(cfg.ext_key(&"py".to_string()).as_deref(), Some("pypy3"));
    assert_eq!(cfg.ext_key(&"cpp".to_string()).as_deref(), Some("cpp20"));
}

#[test]
fn setting_one_extension() {
    let mut cfg = ConfyConfig::empty();
    cfg.set_ext_key("c".to_string(), "c11".to_string());
    cfg.set_ext_key("c".to_string(), "c17".to_string());
    assert_eq!(cfg.ext_key(&"c".to_string()).as_deref(), Some("c17"));
    assert_eq!(cfg.ext_key_map.as_ref().unwrap().len(), 1);
}

#[test]
fn default_languages() {
    assert_eq!(default_language_key(&"cpp".to_string()).as_deref(), Some("cpp20"));
    assert_eq!(default_language_key(&"py".to_string()).as_deref(), Some("pypy3"));
    assert_eq!(default_language_key(&"zig".to_string()).as_deref(), Some("zig"));
    assert_eq!(default_language_key(&"hs".to_string()).as_deref(), Some("hask"));
    assert_eq!(default_language_key(&"pas".to_string()), None);
    let mut cfg = ConfyConfig::empty();
    cfg.set_ext_key("cpp".to_string(), "cpp14".to_string());
    assert_eq!(resolve_language(&cfg, &"cpp".to_string()).as_deref(), Some("cpp14"));
    assert_eq!(resolve_language(&cfg, &"js".to_string()).as_deref(), Some("v8js"));
    assert_eq!(resolve_language(&cfg, &"pas".to_string()), None);
}

#[test]
fn planning_submissions() {
    let cfg = ConfyConfig { token: Some("cfgtoken".to_string()), ext_key_map: None };
    let plan = plan_submission(&args(None, None, None), &cfg, text("aplusb"), text("cpp")).ok().unwrap();
    assert_eq!(plan.problem, "aplusb");
    assert_eq!(plan.token, "cfgtoken");
    assert_eq!(plan.language, "cpp20");
    let plan = plan_submission(&args(Some("p"), Some("t"), Some("rust")), &cfg, PathPart::Absent, PathPart::Absent)
        .ok()
        .unwrap();
    assert_eq!((plan.problem.as_str(), plan.token.as_str(), plan.language.as_str()), ("p", "t", "rust"));
}

#[test]
fn planning_errors() {
    let none = ConfyConfig::empty();
    let cfg = ConfyConfig { token: Some("t".to_string()), ext_key_map: None };
    let e = |r: Result<_, SetupError>| r.err().unwrap();
    assert_eq!(e(plan_submission(&args(None, None, None), &none, PathPart::Absent, text("cpp"))), SetupError::NoFileName);
    assert_eq!(e(plan_submission(&args(None, None, None), &none, PathPart::NotUnicode, text("cpp"))), SetupError::FileNameNotUnicode);
    assert_eq!(e(plan_submission(&args(None, None, None), &none, text("a"), text("cpp"))), SetupError::NoToken);
    assert_eq!(e(plan_submission(&args(None, None, None), &cfg, text("a"), PathPart::Absent)), SetupError::NoExtension);
    assert_eq!(e(plan_submission(&args(None, None, None), &cfg, text("a"), PathPart::NotUnicode)), SetupError::ExtensionNotUnicode);
    assert_eq!(e(plan_submission(&args(None, None, None), &cfg, text("a"), text("pas"))), SetupError::UnknownLanguage);
    assert_eq!(SetupError::NoToken.describe(), "API token not defined in configuration");
    assert_eq!(SetupError::UnknownLanguage.describe(), "could not determine language");
}

#[test]
fn blank_sources() {
    assert!(is_blank(""));
    assert!(is_blank(" \n\t\u{3000}"));
    assert!(!is_blank("  x "));
}

#[test]
fn language_ids() {
    let langs = vec![lang(1, "CPP20", "C++20"), lang(2, "PY3", "Python 3"), lang(3, "py3", "Python 3 again")];
    assert_eq!(language_id(&langs, "cpp20"), Some(1));
    assert_eq!(language_id(&langs, "Py3"), Some(3));
    assert_eq!(language_id(&langs, "rust"), None);
    let pairs = vec![("a".to_string(), 1), ("b".to_string(), 2), ("a".to_string(), 3)];
    assert_eq!(language_id_by_key(&pairs, &"a".to_string()), Some(3));
    assert_eq!(language_id_by_key(&pairs, &"A".to_string()), None);
}

#[test]
fn language_listings() {
    let langs = vec![lang(2, "PY3", "Python 3"), lang(1, "CPP20", "C++20"), lang(3, "ADA", "Ada")];
    assert_eq!(
        language_entries(&langs),
        vec!["Ada: ada".to_string(), "C++20: cpp20".to_string(), "Python 3: py3".to_string()]
    );
    assert_eq!(language_listing(&langs), "Ada: ada\nC++20: cpp20\nPython 3: py3");
    assert_eq!(join_lines(&Vec::new()), "");
    assert_eq!(language_listing_heading(false), "Common name: Language key");
    assert_eq!(
        language_listing_heading(true),
        "\x1b[1m\x1b[4mCommon name\x1b[0m: \x1b[1m\x1b[4mLanguage key\x1b[0m"
    );
}
