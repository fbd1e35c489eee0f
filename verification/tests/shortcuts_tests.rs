use lyrics_plus::config::GlobalShortcutSettings;
use lyrics_plus::shortcuts::ShortcutFacts;

fn ok(id: u32) -> Result<ShortcutFacts, String> {
    Ok(ShortcutFacts { has_modifiers: true, id })
}

#[test]
fn default_shortcuts_are_accepted() {
    let settings = GlobalShortcutSettings::default();
    let outcomes = [ok(1), ok(2), ok(3), ok(1), ok(1), ok(1)];
    let (required, optional) = settings.parsed(&outcomes).unwrap();
    assert_eq!(required.map(|f| f.id), [1, 2, 3]);
    assert_eq!(optional, [None, None, None]);
}

#[test]
fn optional_shortcuts_are_checked_when_set() {
    let mut settings = GlobalShortcutSettings::default();
    settings.toggle_list_lyrics = " CommandOrControl+Shift+KeyK ".into();
    let (_, optional) = settings.parsed(&[ok(1), ok(2), ok(3), ok(9), ok(4), ok(9)]).unwrap();
    assert_eq!(optional, [None, Some(ShortcutFacts { has_modifiers: true, id: 4 }), None]);
    let error = settings.parsed(&[ok(1), ok(2), ok(3), ok(9), ok(2), ok(9)]).unwrap_err();
    assert_eq!(error, "全局快捷键不能重复");
}

#[test]
fn shortcut_refusals_name_the_shortcut() {
    let settings = GlobalShortcutSettings::default();
    let error = settings
        .parsed(&[ok(1), Err("unknown key".into()), ok(3), ok(4), ok(5), ok(6)])
        .unwrap_err();
    assert_eq!(error, "锁定 / 解锁桌面歌词快捷键无效：unknown key");
    let bare = Ok(ShortcutFacts { has_modifiers: false, id: 3 });
    let error = settings.parsed(&[ok(1), ok(2), bare, ok(4), ok(5), ok(6)]).unwrap_err();
    assert_eq!(error, "复位并显示桌面歌词快捷键必须包含至少一个修饰键");
    let error = settings.parsed(&[ok(1), ok(1), ok(3), ok(4), ok(5), ok(6)]).unwrap_err();
    assert_eq!(error, "全局快捷键不能重复");
    let mut blank = GlobalShortcutSettings::default();
    blank.reset_overlay = "  ".into();
    let error = blank.parsed(&[ok(1), ok(2), Err("empty".into()), ok(4), ok(5), ok(6)]).unwrap_err();
    assert_eq!(error, "复位并显示桌面歌词快捷键无效：empty");
}
