//! The language of the interface and the texts of the tray menu.

use crate::platform::text_eq;
use crate::text::{chars_of, has_prefix, starts_with};
use vstd::prelude::*;

verus! {

/// The most preferred locale of the system, from `sys_locale::get_locale`.
/// Nothing is claimed of the result: it is read from the system.
#[verifier::external_body]
pub(crate) fn system_locale() -> (locale: Option<String>) {
    sys_locale::get_locale()
}

/// The supported language for a locale: Chinese for a locale that starts
/// with `zh`, Japanese for one that starts with `ja`, English for any
/// other and where the system names none.
pub open spec fn lang_of(locale: Option<Seq<char>>) -> Seq<char> {
    match locale {
        Some(l) => if starts_with(l, "zh"@) {
            "zh-CN"@
        } else if starts_with(l, "ja"@) {
            "ja-JP"@
        } else {
            "en-US"@
        },
        None => "en-US"@,
    }
}

/// The supported language for a locale.
pub fn lang_for_locale(locale: Option<&str>) -> (lang: &'static str)
    ensures
        lang@ == lang_of(
            match locale {
                Some(l) => Some(l@),
                None => None,
            },
        ),
{
    match locale {
        None => "en-US",
        Some(l) => {
            let text = chars_of(l);
            if has_prefix(&text, &chars_of("zh")) {
                "zh-CN"
            } else if has_prefix(&text, &chars_of("ja")) {
                "ja-JP"
            } else {
                "en-US"
            }
        },
    }
}

/// The supported language for the system's locale: one of `zh-CN`, `ja-JP`
/// and `en-US`.
pub fn detect_system_lang() -> (lang: &'static str)
    ensures
        exists|locale: Option<Seq<char>>| lang@ == #[trigger] lang_of(locale),
{
    let locale = system_locale();
    let lang = match &locale {
        Some(l) => lang_for_locale(Some(l.as_str())),
        None => lang_for_locale(None),
    };
    assert(lang@ == lang_of(
        match locale {
            Some(l) => Some(l@),
            None => None,
        },
    ));
    lang
}

/// The index of a language in the table of tray texts.
pub open spec fn lang_index(lang: Seq<char>) -> Option<int> {
    if lang == "zh-CN"@ {
        Some(0)
    } else if lang == "en-US"@ {
        Some(1)
    } else if lang == "ja-JP"@ {
        Some(2)
    } else {
        None
    }
}

/// The texts of a tray menu entry in Chinese, English and Japanese.
pub open spec fn tray_row(key: Seq<char>) -> Option<Seq<Seq<char>>> {
    if key == "show"@ {
        Some(seq!["显示主窗口"@, "Show Window"@, "ウィンドウを表示"@])
    } else if key == "start_client"@ {
        Some(seq!["启动客户端"@, "Start Client"@, "クライアント起動"@])
    } else if key == "stop_client"@ {
        Some(seq!["停止客户端"@, "Stop Client"@, "クライアント停止"@])
    } else if key == "start_server"@ {
        Some(seq!["启动服务端"@, "Start Server"@, "サーバー起動"@])
    } else if key == "stop_server"@ {
        Some(seq!["停止服务端"@, "Stop Server"@, "サーバー停止"@])
    } else if key == "flush_dns"@ {
        Some(seq!["刷新 DNS"@, "Flush DNS"@, "DNS をフラッシュ"@])
    } else if key == "clean_hosts"@ {
        Some(seq!["清空 Hosts"@, "Clean Hosts"@, "Hosts をクリア"@])
    } else if key == "quit"@ {
        Some(seq!["退出"@, "Quit"@, "終了"@])
    } else {
        None
    }
}

/// The text of the tray menu entry `key` in the language `lang`, or
/// `Unknown` for a key or a language that the table does not hold.
pub open spec fn tray_text_of(key: Seq<char>, lang: Seq<char>) -> Seq<char> {
    match (tray_row(key), lang_index(lang)) {
        (Some(row), Some(i)) => row[i],
        _ => "Unknown"@,
    }
}

/// One of three texts, by language.
fn pick(lang: &str, zh: &'static str, en: &'static str, ja: &'static str) -> (text: &'static str)
    ensures
        text@ == match lang_index(lang@) {
            Some(i) => seq![zh@, en@, ja@][i],
            None => "Unknown"@,
        },
{
    if text_eq(lang, "zh-CN") {
        zh
    } else if text_eq(lang, "en-US") {
        en
    } else if text_eq(lang, "ja-JP") {
        ja
    } else {
        "Unknown"
    }
}

/// The text of the tray menu entry `key` in the language `lang`.
pub fn tray_text(key: &str, lang: &str) -> (text: &'static str)
    ensures
        text@ == tray_text_of(key@, lang@),
{
    if text_eq(key, "show") {
        pick(lang, "显示主窗口", "Show Window", "ウィンドウを表示")
    } else if text_eq(key, "start_client") {
        pick(lang, "启动客户端", "Start Client", "クライアント起動")
    } else if text_eq(key, "stop_client") {
        pick(lang, "停止客户端", "Stop Client", "クライアント停止")
    } else if text_eq(key, "start_server") {
        pick(lang, "启动服务端", "Start Server", "サーバー起動")
    } else if text_eq(key, "stop_server") {
        pick(lang, "停止服务端", "Stop Server", "サーバー停止")
    } else if text_eq(key, "flush_dns") {
        pick(lang, "刷新 DNS", "Flush DNS", "DNS をフラッシュ")
    } else if text_eq(key, "clean_hosts") {
        pick(lang, "清空 Hosts", "Clean Hosts", "Hosts をクリア")
    } else if text_eq(key, "quit") {
        pick(lang, "退出", "Quit", "終了")
    } else {
        "Unknown"
    }
}

} // verus!
