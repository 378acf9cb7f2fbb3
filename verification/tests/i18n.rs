//! The two languages.

use stui::i18n::{dict, fmt, init, lang, t, Lang, Locale};

fn locale(lc_all: &str, lc_messages: &str, lang: &str) -> Locale {
    Locale {
        lc_all: Some(lc_all.to_string()),
        lc_messages: Some(lc_messages.to_string()),
        lang: Some(lang.to_string()),
    }
}

#[test]
fn en_and_zh_dicts_are_field_complete() {
    let en = dict(Lang::En);
    let zh = dict(Lang::Zh);
    assert!(!en.ls_summary.is_empty());
    assert!(!zh.ls_summary.is_empty());
    assert!(!zh.header_sessions.contains("session(s)"));
}

#[test]
fn detect_follows_explicit_settings_then_locale() {
    let any = locale("", "", "en_US.UTF-8");
    assert_eq!(Lang::detect("zh", &any), Lang::Zh);
    assert_eq!(Lang::detect(" ZH ", &any), Lang::Zh);
    assert_eq!(Lang::detect("en", &any), Lang::En);
    assert!(matches!(Lang::detect("auto", &any), Lang::En | Lang::Zh));
    assert!(matches!(Lang::detect("fr", &any), Lang::En | Lang::Zh));
}

#[test]
fn the_locale_decides_in_its_own_order() {
    assert_eq!(Lang::detect("auto", &locale("", "", "zh_CN.UTF-8")), Lang::Zh);
    assert_eq!(
        Lang::detect("auto", &locale("en_US.UTF-8", "", "zh_CN.UTF-8")),
        Lang::En
    );
    assert_eq!(
        Lang::detect("auto", &locale("", "zh_TW", "en_US.UTF-8")),
        Lang::Zh
    );
    let unset = Locale {
        lc_all: None,
        lc_messages: None,
        lang: None,
    };
    assert_eq!(Lang::detect("auto", &unset), Lang::En);
}

#[test]
fn fmt_replaces_placeholders_in_order_and_repeats() {
    assert_eq!(fmt("a{0}b{1}c{0}", &["x", "y"]), "axbycx");
    assert_eq!(fmt("no args {0}", &[]), "no args {0}");
    // What an argument holds is not looked at again.
    assert_eq!(fmt("{0}", &["{1}"]), "{1}");
    assert_eq!(fmt("{}", &["x"]), "{}");
}

#[test]
fn zh_messages_render_with_placeholders() {
    let zh = dict(Lang::Zh);
    assert_eq!(
        fmt(zh.ls_no_sessions, &["/tmp/.screen"]),
        "# 未发现 screen 会话（socket 目录 /tmp/.screen）"
    );
    assert_eq!(fmt(zh.stale_entries, &["3"]), "3 条过期元数据");
}

#[test]
fn uninit_lang_defaults_to_english() {
    assert_eq!(lang(None), Lang::En);
    assert_eq!(t(None).name_empty, dict(Lang::En).name_empty);
}

#[test]
fn the_first_choice_stands() {
    let mut chosen = None;
    init(&mut chosen, Lang::Zh);
    init(&mut chosen, Lang::En);
    assert_eq!(lang(chosen), Lang::Zh);
}

#[test]
fn the_form_names_its_recent_directories_in_both_languages() {
    assert_eq!(dict(Lang::En).new_recent, " Recent directories (1-9):");
    assert_eq!(dict(Lang::Zh).new_recent, " 最近目录（1-9）：");
}
