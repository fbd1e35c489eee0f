use vstd::prelude::*;

use crate::json::{
    check_rule, draft_outcome, join_pieces, json_pointer, key_allowed, pointer_spec, rule_outcome,
    rules_outcome, strs_to_chars, strs_view, FieldCheck, FieldRule, JsonValue,
};
use crate::jsonc::{error_at_key, ConfigDraftError};
use crate::text::{
    chars_of, lemma_split_append, lemma_split_single, pieces_view, push_chars, push_str, split_spec, str_eq,
    string_from_chars, str_eq_chars,
};

verus! {

/// The member keys allowed at each place of a configuration draft, in the order they are checked.
pub open spec fn known_field_rule(i: int) -> FieldRule {
    if i == 0 {
        FieldRule { pointer: "", key: "", check: FieldCheck::Keys("schemaVersion,app,lyrics,overlay,laboratory") }
    } else if i == 1 {
        FieldRule { pointer: "/app", key: "", check: FieldCheck::Keys("theme,language,playerSelection,systemMediaFilterMode,systemMediaApplications,playerFollowerApplication,hideDockIcon,silentStartup,autoCheckUpdates,lyricsWindowsShowOnAllSpaces,shortcuts") }
    } else if i == 2 {
        FieldRule { pointer: "/app/shortcuts", key: "", check: FieldCheck::Keys("toggleOverlay,unlockOverlay,resetOverlay,toggleStatusBarLyrics,toggleListLyrics,toggleNotchLyrics") }
    } else if i == 3 {
        FieldRule { pointer: "/app/systemMediaApplications", key: "", check: FieldCheck::KeysEach("name,bundleId") }
    } else if i == 4 {
        FieldRule { pointer: "/laboratory", key: "", check: FieldCheck::Keys("role,autoStart,server,client") }
    } else if i == 5 {
        FieldRule { pointer: "/laboratory/server", key: "", check: FieldCheck::Keys("name,port,discoveryEnabled,webEnabled,debounceMs") }
    } else if i == 6 {
        FieldRule { pointer: "/laboratory/client", key: "", check: FieldCheck::Keys("name,lastServerId") }
    } else if i == 7 {
        FieldRule { pointer: "/lyrics", key: "", check: FieldCheck::Keys("providers,displays,baseAppearance,styleInheritance") }
    } else if i == 8 {
        FieldRule { pointer: "/lyrics/baseAppearance", key: "", check: FieldCheck::Keys("fontFamily,activeColor,inactiveColor,translationColor,romanizationColor,supportingColor,backgroundColor") }
    } else if i == 9 {
        FieldRule { pointer: "/lyrics/styleInheritance", key: "", check: FieldCheck::Keys("desktop,statusBar,listWindow,notch") }
    } else if i == 10 {
        FieldRule { pointer: "/lyrics/styleInheritance/desktop", key: "", check: FieldCheck::Keys("inheritFontFamily,inheritColors") }
    } else if i == 11 {
        FieldRule { pointer: "/lyrics/styleInheritance/statusBar", key: "", check: FieldCheck::Keys("inheritFontFamily,inheritColors") }
    } else if i == 12 {
        FieldRule { pointer: "/lyrics/styleInheritance/listWindow", key: "", check: FieldCheck::Keys("inheritFontFamily,inheritColors") }
    } else if i == 13 {
        FieldRule { pointer: "/lyrics/styleInheritance/notch", key: "", check: FieldCheck::Keys("inheritFontFamily,inheritColors") }
    } else if i == 14 {
        FieldRule { pointer: "/lyrics/providers", key: "", check: FieldCheck::Keys("mode,providers,autoApplyThreshold,preferCapabilities,matchWeights,normalizeChinese,titleFilterKeywords,amllBaseUrl") }
    } else if i == 15 {
        FieldRule { pointer: "/lyrics/providers/matchWeights", key: "", check: FieldCheck::Keys("title,artist,album,duration") }
    } else if i == 16 {
        FieldRule { pointer: "/lyrics/providers/providers", key: "", check: FieldCheck::KeysEach("id,enabled") }
    } else if i == 17 {
        FieldRule { pointer: "/lyrics/displays", key: "", check: FieldCheck::Keys("statusBar,listWindow,notch") }
    } else if i == 18 {
        FieldRule { pointer: "/lyrics/displays/statusBar", key: "", check: FieldCheck::Keys("enabled,hideWhenNotPlaying,showTrayIcon,locked,maxCharacters,appearance") }
    } else if i == 19 {
        FieldRule { pointer: "/lyrics/displays/statusBar/appearance", key: "", check: FieldCheck::Keys("fontFamily,fontSize,fontWeight,textColor,inactiveColor,highlightColor,karaokeStyle,width,backgroundColor,backgroundOpacity,backgroundBlur,borderRadius,paddingX,paddingY,maxWidth") }
    } else if i == 20 {
        FieldRule { pointer: "/lyrics/displays/listWindow", key: "", check: FieldCheck::Keys("enabled,alwaysOnTop,showTranslation,showRomanization,appearance") }
    } else if i == 21 {
        FieldRule { pointer: "/lyrics/displays/listWindow/appearance", key: "", check: FieldCheck::Keys("fontFamily,fontSize,fontWeight,secondaryFontScale,lineHeight,lineGap,activeColor,inactiveColor,translationColor,romanizationColor,activeBackgroundColor,backgroundColor,backgroundOpacity,backgroundMode,alignment") }
    } else if i == 22 {
        FieldRule { pointer: "/lyrics/displays/notch", key: "", check: FieldCheck::Keys("enabled,hideWhenNotPlaying,monitorId,showLyrics,leftSlot,rightSlot,layout,doubleLineMode,showTranslation,showRomanization,appearance") }
    } else if i == 23 {
        FieldRule { pointer: "/lyrics/displays/notch/appearance", key: "", check: FieldCheck::Keys("fontFamily,fontSize,fontWeight,secondaryFontWeight,activeColor,inactiveColor,translationColor,romanizationColor,karaokeStyle,lineGap,borderRadius,maxWidth,expandedMaxWidth") }
    } else if i == 24 {
        FieldRule { pointer: "/overlay", key: "", check: FieldCheck::Keys("visible,locked,hideWhenNotPlaying,appearance") }
    } else {
        FieldRule { pointer: "/overlay/appearance", key: "", check: FieldCheck::Keys("fontFamily,fontSize,fontWeight,secondaryFontWeight,lineHeight,activeColor,inactiveColor,opacity,backgroundOpacity,backgroundBlur,backgroundRadius,backgroundPaddingX,backgroundPaddingY,backgroundMode,background,solidColor,layout,doubleLineMode,orientation,alignment,primaryLinePosition,lineGap,longText,secondaryDisplay,autoCenterWithTranslationOrRomanization,karaokeStyle,secondaryFontScale,translationFontScale,romanizationFontScale,translationColor,romanizationColor,textShadowOffsetX,textShadowOffsetY,textShadowBlur,textShadowColor,textStrokeWidth,textStrokeColor") }
    }
}

/// The number of rules in the table.
pub const KNOWN_FIELD_RULE_COUNT: usize = 26;

fn known_field_rule_at(i: usize) -> (r: FieldRule)
    requires
        i < 26,
    ensures
        r == known_field_rule(i as int),
{
    match i {
        0 => FieldRule { pointer: "", key: "", check: FieldCheck::Keys("schemaVersion,app,lyrics,overlay,laboratory") },
        1 => FieldRule { pointer: "/app", key: "", check: FieldCheck::Keys("theme,language,playerSelection,systemMediaFilterMode,systemMediaApplications,playerFollowerApplication,hideDockIcon,silentStartup,autoCheckUpdates,lyricsWindowsShowOnAllSpaces,shortcuts") },
        2 => FieldRule { pointer: "/app/shortcuts", key: "", check: FieldCheck::Keys("toggleOverlay,unlockOverlay,resetOverlay,toggleStatusBarLyrics,toggleListLyrics,toggleNotchLyrics") },
        3 => FieldRule { pointer: "/app/systemMediaApplications", key: "", check: FieldCheck::KeysEach("name,bundleId") },
        4 => FieldRule { pointer: "/laboratory", key: "", check: FieldCheck::Keys("role,autoStart,server,client") },
        5 => FieldRule { pointer: "/laboratory/server", key: "", check: FieldCheck::Keys("name,port,discoveryEnabled,webEnabled,debounceMs") },
        6 => FieldRule { pointer: "/laboratory/client", key: "", check: FieldCheck::Keys("name,lastServerId") },
        7 => FieldRule { pointer: "/lyrics", key: "", check: FieldCheck::Keys("providers,displays,baseAppearance,styleInheritance") },
        8 => FieldRule { pointer: "/lyrics/baseAppearance", key: "", check: FieldCheck::Keys("fontFamily,activeColor,inactiveColor,translationColor,romanizationColor,supportingColor,backgroundColor") },
        9 => FieldRule { pointer: "/lyrics/styleInheritance", key: "", check: FieldCheck::Keys("desktop,statusBar,listWindow,notch") },
        10 => FieldRule { pointer: "/lyrics/styleInheritance/desktop", key: "", check: FieldCheck::Keys("inheritFontFamily,inheritColors") },
        11 => FieldRule { pointer: "/lyrics/styleInheritance/statusBar", key: "", check: FieldCheck::Keys("inheritFontFamily,inheritColors") },
        12 => FieldRule { pointer: "/lyrics/styleInheritance/listWindow", key: "", check: FieldCheck::Keys("inheritFontFamily,inheritColors") },
        13 => FieldRule { pointer: "/lyrics/styleInheritance/notch", key: "", check: FieldCheck::Keys("inheritFontFamily,inheritColors") },
        14 => FieldRule { pointer: "/lyrics/providers", key: "", check: FieldCheck::Keys("mode,providers,autoApplyThreshold,preferCapabilities,matchWeights,normalizeChinese,titleFilterKeywords,amllBaseUrl") },
        15 => FieldRule { pointer: "/lyrics/providers/matchWeights", key: "", check: FieldCheck::Keys("title,artist,album,duration") },
        16 => FieldRule { pointer: "/lyrics/providers/providers", key: "", check: FieldCheck::KeysEach("id,enabled") },
        17 => FieldRule { pointer: "/lyrics/displays", key: "", check: FieldCheck::Keys("statusBar,listWindow,notch") },
        18 => FieldRule { pointer: "/lyrics/displays/statusBar", key: "", check: FieldCheck::Keys("enabled,hideWhenNotPlaying,showTrayIcon,locked,maxCharacters,appearance") },
        19 => FieldRule { pointer: "/lyrics/displays/statusBar/appearance", key: "", check: FieldCheck::Keys("fontFamily,fontSize,fontWeight,textColor,inactiveColor,highlightColor,karaokeStyle,width,backgroundColor,backgroundOpacity,backgroundBlur,borderRadius,paddingX,paddingY,maxWidth") },
        20 => FieldRule { pointer: "/lyrics/displays/listWindow", key: "", check: FieldCheck::Keys("enabled,alwaysOnTop,showTranslation,showRomanization,appearance") },
        21 => FieldRule { pointer: "/lyrics/displays/listWindow/appearance", key: "", check: FieldCheck::Keys("fontFamily,fontSize,fontWeight,secondaryFontScale,lineHeight,lineGap,activeColor,inactiveColor,translationColor,romanizationColor,activeBackgroundColor,backgroundColor,backgroundOpacity,backgroundMode,alignment") },
        22 => FieldRule { pointer: "/lyrics/displays/notch", key: "", check: FieldCheck::Keys("enabled,hideWhenNotPlaying,monitorId,showLyrics,leftSlot,rightSlot,layout,doubleLineMode,showTranslation,showRomanization,appearance") },
        23 => FieldRule { pointer: "/lyrics/displays/notch/appearance", key: "", check: FieldCheck::Keys("fontFamily,fontSize,fontWeight,secondaryFontWeight,activeColor,inactiveColor,translationColor,romanizationColor,karaokeStyle,lineGap,borderRadius,maxWidth,expandedMaxWidth") },
        24 => FieldRule { pointer: "/overlay", key: "", check: FieldCheck::Keys("visible,locked,hideWhenNotPlaying,appearance") },
        _ => FieldRule { pointer: "/overlay/appearance", key: "", check: FieldCheck::Keys("fontFamily,fontSize,fontWeight,secondaryFontWeight,lineHeight,activeColor,inactiveColor,opacity,backgroundOpacity,backgroundBlur,backgroundRadius,backgroundPaddingX,backgroundPaddingY,backgroundMode,background,solidColor,layout,doubleLineMode,orientation,alignment,primaryLinePosition,lineGap,longText,secondaryDisplay,autoCenterWithTranslationOrRomanization,karaokeStyle,secondaryFontScale,translationFontScale,romanizationFontScale,translationColor,romanizationColor,textShadowOffsetX,textShadowOffsetY,textShadowBlur,textShadowColor,textStrokeWidth,textStrokeColor") },
    }
}

/// The types and options demanded of the members of a configuration draft, in the order they are checked.
pub open spec fn field_type_rule(i: int) -> FieldRule {
    if i == 0 {
        FieldRule { pointer: "/app", key: "app", check: FieldCheck::Object }
    } else if i == 1 {
        FieldRule { pointer: "/app/shortcuts", key: "shortcuts", check: FieldCheck::Object }
    } else if i == 2 {
        FieldRule { pointer: "/lyrics", key: "lyrics", check: FieldCheck::Object }
    } else if i == 3 {
        FieldRule { pointer: "/lyrics/providers", key: "providers", check: FieldCheck::Object }
    } else if i == 4 {
        FieldRule { pointer: "/lyrics/displays", key: "displays", check: FieldCheck::Object }
    } else if i == 5 {
        FieldRule { pointer: "/lyrics/displays/statusBar", key: "statusBar", check: FieldCheck::Object }
    } else if i == 6 {
        FieldRule { pointer: "/lyrics/displays/statusBar/appearance", key: "appearance", check: FieldCheck::Object }
    } else if i == 7 {
        FieldRule { pointer: "/lyrics/displays/listWindow", key: "listWindow", check: FieldCheck::Object }
    } else if i == 8 {
        FieldRule { pointer: "/lyrics/displays/listWindow/appearance", key: "appearance", check: FieldCheck::Object }
    } else if i == 9 {
        FieldRule { pointer: "/lyrics/displays/notch", key: "notch", check: FieldCheck::Object }
    } else if i == 10 {
        FieldRule { pointer: "/lyrics/displays/notch/appearance", key: "appearance", check: FieldCheck::Object }
    } else if i == 11 {
        FieldRule { pointer: "/overlay", key: "overlay", check: FieldCheck::Object }
    } else if i == 12 {
        FieldRule { pointer: "/overlay/appearance", key: "appearance", check: FieldCheck::Object }
    } else if i == 13 {
        FieldRule { pointer: "/laboratory", key: "laboratory", check: FieldCheck::Object }
    } else if i == 14 {
        FieldRule { pointer: "/laboratory/server", key: "server", check: FieldCheck::Object }
    } else if i == 15 {
        FieldRule { pointer: "/laboratory/client", key: "client", check: FieldCheck::Object }
    } else if i == 16 {
        FieldRule { pointer: "/app/systemMediaApplications", key: "systemMediaApplications", check: FieldCheck::NamedApps }
    } else if i == 17 {
        FieldRule { pointer: "/app/playerFollowerApplication", key: "playerFollowerApplication", check: FieldCheck::NamedAppOrNull }
    } else if i == 18 {
        FieldRule { pointer: "/app/hideDockIcon", key: "hideDockIcon", check: FieldCheck::Boolean }
    } else if i == 19 {
        FieldRule { pointer: "/app/silentStartup", key: "silentStartup", check: FieldCheck::Boolean }
    } else if i == 20 {
        FieldRule { pointer: "/app/autoCheckUpdates", key: "autoCheckUpdates", check: FieldCheck::Boolean }
    } else if i == 21 {
        FieldRule { pointer: "/app/lyricsWindowsShowOnAllSpaces", key: "lyricsWindowsShowOnAllSpaces", check: FieldCheck::Boolean }
    } else if i == 22 {
        FieldRule { pointer: "/overlay/visible", key: "visible", check: FieldCheck::Boolean }
    } else if i == 23 {
        FieldRule { pointer: "/overlay/locked", key: "locked", check: FieldCheck::Boolean }
    } else if i == 24 {
        FieldRule { pointer: "/overlay/hideWhenNotPlaying", key: "hideWhenNotPlaying", check: FieldCheck::Boolean }
    } else if i == 25 {
        FieldRule { pointer: "/laboratory/autoStart", key: "autoStart", check: FieldCheck::Boolean }
    } else if i == 26 {
        FieldRule { pointer: "/laboratory/server/discoveryEnabled", key: "discoveryEnabled", check: FieldCheck::Boolean }
    } else if i == 27 {
        FieldRule { pointer: "/laboratory/server/webEnabled", key: "webEnabled", check: FieldCheck::Boolean }
    } else if i == 28 {
        FieldRule { pointer: "/lyrics/displays/statusBar/enabled", key: "enabled", check: FieldCheck::Boolean }
    } else if i == 29 {
        FieldRule { pointer: "/lyrics/displays/statusBar/hideWhenNotPlaying", key: "hideWhenNotPlaying", check: FieldCheck::Boolean }
    } else if i == 30 {
        FieldRule { pointer: "/lyrics/displays/statusBar/showTrayIcon", key: "showTrayIcon", check: FieldCheck::Boolean }
    } else if i == 31 {
        FieldRule { pointer: "/lyrics/displays/statusBar/locked", key: "locked", check: FieldCheck::Boolean }
    } else if i == 32 {
        FieldRule { pointer: "/lyrics/displays/listWindow/enabled", key: "enabled", check: FieldCheck::Boolean }
    } else if i == 33 {
        FieldRule { pointer: "/lyrics/displays/listWindow/alwaysOnTop", key: "alwaysOnTop", check: FieldCheck::Boolean }
    } else if i == 34 {
        FieldRule { pointer: "/lyrics/displays/listWindow/showTranslation", key: "showTranslation", check: FieldCheck::Boolean }
    } else if i == 35 {
        FieldRule { pointer: "/lyrics/displays/listWindow/showRomanization", key: "showRomanization", check: FieldCheck::Boolean }
    } else if i == 36 {
        FieldRule { pointer: "/lyrics/displays/notch/enabled", key: "enabled", check: FieldCheck::Boolean }
    } else if i == 37 {
        FieldRule { pointer: "/lyrics/displays/notch/hideWhenNotPlaying", key: "hideWhenNotPlaying", check: FieldCheck::Boolean }
    } else if i == 38 {
        FieldRule { pointer: "/lyrics/displays/notch/showLyrics", key: "showLyrics", check: FieldCheck::Boolean }
    } else if i == 39 {
        FieldRule { pointer: "/lyrics/displays/notch/showTranslation", key: "showTranslation", check: FieldCheck::Boolean }
    } else if i == 40 {
        FieldRule { pointer: "/lyrics/displays/notch/showRomanization", key: "showRomanization", check: FieldCheck::Boolean }
    } else if i == 41 {
        FieldRule { pointer: "/lyrics/styleInheritance/desktop/inheritFontFamily", key: "inheritFontFamily", check: FieldCheck::Boolean }
    } else if i == 42 {
        FieldRule { pointer: "/lyrics/styleInheritance/desktop/inheritColors", key: "inheritColors", check: FieldCheck::Boolean }
    } else if i == 43 {
        FieldRule { pointer: "/lyrics/styleInheritance/statusBar/inheritFontFamily", key: "inheritFontFamily", check: FieldCheck::Boolean }
    } else if i == 44 {
        FieldRule { pointer: "/lyrics/styleInheritance/statusBar/inheritColors", key: "inheritColors", check: FieldCheck::Boolean }
    } else if i == 45 {
        FieldRule { pointer: "/lyrics/styleInheritance/listWindow/inheritFontFamily", key: "inheritFontFamily", check: FieldCheck::Boolean }
    } else if i == 46 {
        FieldRule { pointer: "/lyrics/styleInheritance/listWindow/inheritColors", key: "inheritColors", check: FieldCheck::Boolean }
    } else if i == 47 {
        FieldRule { pointer: "/lyrics/styleInheritance/notch/inheritFontFamily", key: "inheritFontFamily", check: FieldCheck::Boolean }
    } else if i == 48 {
        FieldRule { pointer: "/lyrics/styleInheritance/notch/inheritColors", key: "inheritColors", check: FieldCheck::Boolean }
    } else if i == 49 {
        FieldRule { pointer: "/overlay/appearance/autoCenterWithTranslationOrRomanization", key: "autoCenterWithTranslationOrRomanization", check: FieldCheck::Boolean }
    } else if i == 50 {
        FieldRule { pointer: "/lyrics/providers/preferCapabilities", key: "preferCapabilities", check: FieldCheck::Boolean }
    } else if i == 51 {
        FieldRule { pointer: "/lyrics/providers/normalizeChinese", key: "normalizeChinese", check: FieldCheck::Boolean }
    } else if i == 52 {
        FieldRule { pointer: "/schemaVersion", key: "schemaVersion", check: FieldCheck::Integer }
    } else if i == 53 {
        FieldRule { pointer: "/lyrics/providers/autoApplyThreshold", key: "autoApplyThreshold", check: FieldCheck::Integer }
    } else if i == 54 {
        FieldRule { pointer: "/lyrics/displays/statusBar/appearance/fontSize", key: "fontSize", check: FieldCheck::Integer }
    } else if i == 55 {
        FieldRule { pointer: "/lyrics/displays/statusBar/appearance/fontWeight", key: "fontWeight", check: FieldCheck::Integer }
    } else if i == 56 {
        FieldRule { pointer: "/lyrics/displays/statusBar/appearance/width", key: "width", check: FieldCheck::Integer }
    } else if i == 57 {
        FieldRule { pointer: "/lyrics/displays/statusBar/appearance/maxWidth", key: "maxWidth", check: FieldCheck::Integer }
    } else if i == 58 {
        FieldRule { pointer: "/lyrics/displays/listWindow/appearance/fontSize", key: "fontSize", check: FieldCheck::Integer }
    } else if i == 59 {
        FieldRule { pointer: "/lyrics/displays/listWindow/appearance/fontWeight", key: "fontWeight", check: FieldCheck::Integer }
    } else if i == 60 {
        FieldRule { pointer: "/lyrics/displays/notch/appearance/fontSize", key: "fontSize", check: FieldCheck::Integer }
    } else if i == 61 {
        FieldRule { pointer: "/lyrics/displays/notch/appearance/fontWeight", key: "fontWeight", check: FieldCheck::Integer }
    } else if i == 62 {
        FieldRule { pointer: "/lyrics/displays/notch/appearance/secondaryFontWeight", key: "secondaryFontWeight", check: FieldCheck::Integer }
    } else if i == 63 {
        FieldRule { pointer: "/lyrics/displays/notch/appearance/maxWidth", key: "maxWidth", check: FieldCheck::Integer }
    } else if i == 64 {
        FieldRule { pointer: "/lyrics/displays/notch/appearance/expandedMaxWidth", key: "expandedMaxWidth", check: FieldCheck::Integer }
    } else if i == 65 {
        FieldRule { pointer: "/overlay/appearance/fontSize", key: "fontSize", check: FieldCheck::Integer }
    } else if i == 66 {
        FieldRule { pointer: "/overlay/appearance/fontWeight", key: "fontWeight", check: FieldCheck::Integer }
    } else if i == 67 {
        FieldRule { pointer: "/overlay/appearance/secondaryFontWeight", key: "secondaryFontWeight", check: FieldCheck::Integer }
    } else if i == 68 {
        FieldRule { pointer: "/laboratory/server/port", key: "port", check: FieldCheck::Integer }
    } else if i == 69 {
        FieldRule { pointer: "/laboratory/server/debounceMs", key: "debounceMs", check: FieldCheck::Integer }
    } else if i == 70 {
        FieldRule { pointer: "/app/language", key: "language", check: FieldCheck::Language }
    } else if i == 71 {
        FieldRule { pointer: "/laboratory/role", key: "role", check: FieldCheck::OneOf("server,client") }
    } else if i == 72 {
        FieldRule { pointer: "/laboratory/server/name", key: "name", check: FieldCheck::Str }
    } else if i == 73 {
        FieldRule { pointer: "/laboratory/client/name", key: "name", check: FieldCheck::Str }
    } else if i == 74 {
        FieldRule { pointer: "/laboratory/client/lastServerId", key: "lastServerId", check: FieldCheck::StrOrNull }
    } else if i == 75 {
        FieldRule { pointer: "/lyrics/displays/notch/monitorId", key: "monitorId", check: FieldCheck::StrOrNull }
    } else if i == 76 {
        FieldRule { pointer: "/app/theme", key: "theme", check: FieldCheck::OneOf("system,light,dark") }
    } else if i == 77 {
        FieldRule { pointer: "/app/playerSelection", key: "playerSelection", check: FieldCheck::OneOf("auto,apple_music,spotify,system") }
    } else if i == 78 {
        FieldRule { pointer: "/app/systemMediaFilterMode", key: "systemMediaFilterMode", check: FieldCheck::OneOf("allowlist,blocklist") }
    } else if i == 79 {
        FieldRule { pointer: "/app/shortcuts/toggleOverlay", key: "toggleOverlay", check: FieldCheck::Str }
    } else if i == 80 {
        FieldRule { pointer: "/app/shortcuts/unlockOverlay", key: "unlockOverlay", check: FieldCheck::Str }
    } else if i == 81 {
        FieldRule { pointer: "/app/shortcuts/resetOverlay", key: "resetOverlay", check: FieldCheck::Str }
    } else if i == 82 {
        FieldRule { pointer: "/app/shortcuts/toggleStatusBarLyrics", key: "toggleStatusBarLyrics", check: FieldCheck::Str }
    } else if i == 83 {
        FieldRule { pointer: "/app/shortcuts/toggleListLyrics", key: "toggleListLyrics", check: FieldCheck::Str }
    } else if i == 84 {
        FieldRule { pointer: "/app/shortcuts/toggleNotchLyrics", key: "toggleNotchLyrics", check: FieldCheck::Str }
    } else if i == 85 {
        FieldRule { pointer: "/lyrics/providers/mode", key: "mode", check: FieldCheck::OneOf("strict,smart") }
    } else if i == 86 {
        FieldRule { pointer: "/lyrics/displays/listWindow/appearance/backgroundMode", key: "backgroundMode", check: FieldCheck::OneOf("solid,transparent") }
    } else if i == 87 {
        FieldRule { pointer: "/lyrics/displays/statusBar/appearance/karaokeStyle", key: "karaokeStyle", check: FieldCheck::OneOf("sweep,highlight") }
    } else if i == 88 {
        FieldRule { pointer: "/lyrics/displays/notch/appearance/karaokeStyle", key: "karaokeStyle", check: FieldCheck::OneOf("sweep,highlight") }
    } else if i == 89 {
        FieldRule { pointer: "/lyrics/displays/notch/leftSlot", key: "leftSlot", check: FieldCheck::OneOf("empty,title,artist,artwork,spectrum") }
    } else if i == 90 {
        FieldRule { pointer: "/lyrics/displays/notch/rightSlot", key: "rightSlot", check: FieldCheck::OneOf("empty,title,artist,artwork,spectrum") }
    } else if i == 91 {
        FieldRule { pointer: "/lyrics/displays/notch/layout", key: "layout", check: FieldCheck::OneOf("single,double") }
    } else if i == 92 {
        FieldRule { pointer: "/lyrics/displays/notch/doubleLineMode", key: "doubleLineMode", check: FieldCheck::OneOf("rolling,alternating") }
    } else if i == 93 {
        FieldRule { pointer: "/overlay/appearance/backgroundMode", key: "backgroundMode", check: FieldCheck::OneOf("solid,transparent") }
    } else if i == 94 {
        FieldRule { pointer: "/overlay/appearance/background", key: "background", check: FieldCheck::OneOf("glass,transparent,solid") }
    } else if i == 95 {
        FieldRule { pointer: "/overlay/appearance/layout", key: "layout", check: FieldCheck::OneOf("single,double,stacked,side_by_side,vertical_single,vertical_double") }
    } else if i == 96 {
        FieldRule { pointer: "/overlay/appearance/doubleLineMode", key: "doubleLineMode", check: FieldCheck::OneOf("rolling,alternating") }
    } else if i == 97 {
        FieldRule { pointer: "/overlay/appearance/orientation", key: "orientation", check: FieldCheck::OneOf("horizontal,vertical") }
    } else if i == 98 {
        FieldRule { pointer: "/overlay/appearance/alignment", key: "alignment", check: FieldCheck::OneOf("start,center,end,distributed") }
    } else if i == 99 {
        FieldRule { pointer: "/overlay/appearance/primaryLinePosition", key: "primaryLinePosition", check: FieldCheck::OneOf("first,second") }
    } else if i == 100 {
        FieldRule { pointer: "/overlay/appearance/longText", key: "longText", check: FieldCheck::OneOf("shrink,wrap,marquee") }
    } else if i == 101 {
        FieldRule { pointer: "/overlay/appearance/secondaryDisplay", key: "secondaryDisplay", check: FieldCheck::OneOf("next,translation,romanization,translation_romanization") }
    } else if i == 102 {
        FieldRule { pointer: "/overlay/appearance/karaokeStyle", key: "karaokeStyle", check: FieldCheck::OneOf("sweep,bounce,highlight") }
    } else if i == 103 {
        FieldRule { pointer: "/lyrics/providers/providers", key: "providers", check: FieldCheck::ProviderItems }
    } else if i == 104 {
        FieldRule { pointer: "/overlay/appearance/fontFamily", key: "fontFamily", check: FieldCheck::NonBlank }
    } else if i == 105 {
        FieldRule { pointer: "/lyrics/providers/amllBaseUrl", key: "amllBaseUrl", check: FieldCheck::NonBlank }
    } else if i == 106 {
        FieldRule { pointer: "/overlay/appearance/activeColor", key: "activeColor", check: FieldCheck::Color }
    } else if i == 107 {
        FieldRule { pointer: "/overlay/appearance/inactiveColor", key: "inactiveColor", check: FieldCheck::Color }
    } else if i == 108 {
        FieldRule { pointer: "/overlay/appearance/solidColor", key: "solidColor", check: FieldCheck::Color }
    } else if i == 109 {
        FieldRule { pointer: "/overlay/appearance/translationColor", key: "translationColor", check: FieldCheck::Color }
    } else if i == 110 {
        FieldRule { pointer: "/overlay/appearance/romanizationColor", key: "romanizationColor", check: FieldCheck::Color }
    } else if i == 111 {
        FieldRule { pointer: "/overlay/appearance/textShadowColor", key: "textShadowColor", check: FieldCheck::Color }
    } else {
        FieldRule { pointer: "/overlay/appearance/textStrokeColor", key: "textStrokeColor", check: FieldCheck::Color }
    }
}

/// The number of rules in the table.
pub const FIELD_TYPE_RULE_COUNT: usize = 113;

fn field_type_rule_at(i: usize) -> (r: FieldRule)
    requires
        i < 113,
    ensures
        r == field_type_rule(i as int),
{
    match i {
        0 => FieldRule { pointer: "/app", key: "app", check: FieldCheck::Object },
        1 => FieldRule { pointer: "/app/shortcuts", key: "shortcuts", check: FieldCheck::Object },
        2 => FieldRule { pointer: "/lyrics", key: "lyrics", check: FieldCheck::Object },
        3 => FieldRule { pointer: "/lyrics/providers", key: "providers", check: FieldCheck::Object },
        4 => FieldRule { pointer: "/lyrics/displays", key: "displays", check: FieldCheck::Object },
        5 => FieldRule { pointer: "/lyrics/displays/statusBar", key: "statusBar", check: FieldCheck::Object },
        6 => FieldRule { pointer: "/lyrics/displays/statusBar/appearance", key: "appearance", check: FieldCheck::Object },
        7 => FieldRule { pointer: "/lyrics/displays/listWindow", key: "listWindow", check: FieldCheck::Object },
        8 => FieldRule { pointer: "/lyrics/displays/listWindow/appearance", key: "appearance", check: FieldCheck::Object },
        9 => FieldRule { pointer: "/lyrics/displays/notch", key: "notch", check: FieldCheck::Object },
        10 => FieldRule { pointer: "/lyrics/displays/notch/appearance", key: "appearance", check: FieldCheck::Object },
        11 => FieldRule { pointer: "/overlay", key: "overlay", check: FieldCheck::Object },
        12 => FieldRule { pointer: "/overlay/appearance", key: "appearance", check: FieldCheck::Object },
        13 => FieldRule { pointer: "/laboratory", key: "laboratory", check: FieldCheck::Object },
        14 => FieldRule { pointer: "/laboratory/server", key: "server", check: FieldCheck::Object },
        15 => FieldRule { pointer: "/laboratory/client", key: "client", check: FieldCheck::Object },
        16 => FieldRule { pointer: "/app/systemMediaApplications", key: "systemMediaApplications", check: FieldCheck::NamedApps },
        17 => FieldRule { pointer: "/app/playerFollowerApplication", key: "playerFollowerApplication", check: FieldCheck::NamedAppOrNull },
        18 => FieldRule { pointer: "/app/hideDockIcon", key: "hideDockIcon", check: FieldCheck::Boolean },
        19 => FieldRule { pointer: "/app/silentStartup", key: "silentStartup", check: FieldCheck::Boolean },
        20 => FieldRule { pointer: "/app/autoCheckUpdates", key: "autoCheckUpdates", check: FieldCheck::Boolean },
        21 => FieldRule { pointer: "/app/lyricsWindowsShowOnAllSpaces", key: "lyricsWindowsShowOnAllSpaces", check: FieldCheck::Boolean },
        22 => FieldRule { pointer: "/overlay/visible", key: "visible", check: FieldCheck::Boolean },
        23 => FieldRule { pointer: "/overlay/locked", key: "locked", check: FieldCheck::Boolean },
        24 => FieldRule { pointer: "/overlay/hideWhenNotPlaying", key: "hideWhenNotPlaying", check: FieldCheck::Boolean },
        25 => FieldRule { pointer: "/laboratory/autoStart", key: "autoStart", check: FieldCheck::Boolean },
        26 => FieldRule { pointer: "/laboratory/server/discoveryEnabled", key: "discoveryEnabled", check: FieldCheck::Boolean },
        27 => FieldRule { pointer: "/laboratory/server/webEnabled", key: "webEnabled", check: FieldCheck::Boolean },
        28 => FieldRule { pointer: "/lyrics/displays/statusBar/enabled", key: "enabled", check: FieldCheck::Boolean },
        29 => FieldRule { pointer: "/lyrics/displays/statusBar/hideWhenNotPlaying", key: "hideWhenNotPlaying", check: FieldCheck::Boolean },
        30 => FieldRule { pointer: "/lyrics/displays/statusBar/showTrayIcon", key: "showTrayIcon", check: FieldCheck::Boolean },
        31 => FieldRule { pointer: "/lyrics/displays/statusBar/locked", key: "locked", check: FieldCheck::Boolean },
        32 => FieldRule { pointer: "/lyrics/displays/listWindow/enabled", key: "enabled", check: FieldCheck::Boolean },
        33 => FieldRule { pointer: "/lyrics/displays/listWindow/alwaysOnTop", key: "alwaysOnTop", check: FieldCheck::Boolean },
        34 => FieldRule { pointer: "/lyrics/displays/listWindow/showTranslation", key: "showTranslation", check: FieldCheck::Boolean },
        35 => FieldRule { pointer: "/lyrics/displays/listWindow/showRomanization", key: "showRomanization", check: FieldCheck::Boolean },
        36 => FieldRule { pointer: "/lyrics/displays/notch/enabled", key: "enabled", check: FieldCheck::Boolean },
        37 => FieldRule { pointer: "/lyrics/displays/notch/hideWhenNotPlaying", key: "hideWhenNotPlaying", check: FieldCheck::Boolean },
        38 => FieldRule { pointer: "/lyrics/displays/notch/showLyrics", key: "showLyrics", check: FieldCheck::Boolean },
        39 => FieldRule { pointer: "/lyrics/displays/notch/showTranslation", key: "showTranslation", check: FieldCheck::Boolean },
        40 => FieldRule { pointer: "/lyrics/displays/notch/showRomanization", key: "showRomanization", check: FieldCheck::Boolean },
        41 => FieldRule { pointer: "/lyrics/styleInheritance/desktop/inheritFontFamily", key: "inheritFontFamily", check: FieldCheck::Boolean },
        42 => FieldRule { pointer: "/lyrics/styleInheritance/desktop/inheritColors", key: "inheritColors", check: FieldCheck::Boolean },
        43 => FieldRule { pointer: "/lyrics/styleInheritance/statusBar/inheritFontFamily", key: "inheritFontFamily", check: FieldCheck::Boolean },
        44 => FieldRule { pointer: "/lyrics/styleInheritance/statusBar/inheritColors", key: "inheritColors", check: FieldCheck::Boolean },
        45 => FieldRule { pointer: "/lyrics/styleInheritance/listWindow/inheritFontFamily", key: "inheritFontFamily", check: FieldCheck::Boolean },
        46 => FieldRule { pointer: "/lyrics/styleInheritance/listWindow/inheritColors", key: "inheritColors", check: FieldCheck::Boolean },
        47 => FieldRule { pointer: "/lyrics/styleInheritance/notch/inheritFontFamily", key: "inheritFontFamily", check: FieldCheck::Boolean },
        48 => FieldRule { pointer: "/lyrics/styleInheritance/notch/inheritColors", key: "inheritColors", check: FieldCheck::Boolean },
        49 => FieldRule { pointer: "/overlay/appearance/autoCenterWithTranslationOrRomanization", key: "autoCenterWithTranslationOrRomanization", check: FieldCheck::Boolean },
        50 => FieldRule { pointer: "/lyrics/providers/preferCapabilities", key: "preferCapabilities", check: FieldCheck::Boolean },
        51 => FieldRule { pointer: "/lyrics/providers/normalizeChinese", key: "normalizeChinese", check: FieldCheck::Boolean },
        52 => FieldRule { pointer: "/schemaVersion", key: "schemaVersion", check: FieldCheck::Integer },
        53 => FieldRule { pointer: "/lyrics/providers/autoApplyThreshold", key: "autoApplyThreshold", check: FieldCheck::Integer },
        54 => FieldRule { pointer: "/lyrics/displays/statusBar/appearance/fontSize", key: "fontSize", check: FieldCheck::Integer },
        55 => FieldRule { pointer: "/lyrics/displays/statusBar/appearance/fontWeight", key: "fontWeight", check: FieldCheck::Integer },
        56 => FieldRule { pointer: "/lyrics/displays/statusBar/appearance/width", key: "width", check: FieldCheck::Integer },
        57 => FieldRule { pointer: "/lyrics/displays/statusBar/appearance/maxWidth", key: "maxWidth", check: FieldCheck::Integer },
        58 => FieldRule { pointer: "/lyrics/displays/listWindow/appearance/fontSize", key: "fontSize", check: FieldCheck::Integer },
        59 => FieldRule { pointer: "/lyrics/displays/listWindow/appearance/fontWeight", key: "fontWeight", check: FieldCheck::Integer },
        60 => FieldRule { pointer: "/lyrics/displays/notch/appearance/fontSize", key: "fontSize", check: FieldCheck::Integer },
        61 => FieldRule { pointer: "/lyrics/displays/notch/appearance/fontWeight", key: "fontWeight", check: FieldCheck::Integer },
        62 => FieldRule { pointer: "/lyrics/displays/notch/appearance/secondaryFontWeight", key: "secondaryFontWeight", check: FieldCheck::Integer },
        63 => FieldRule { pointer: "/lyrics/displays/notch/appearance/maxWidth", key: "maxWidth", check: FieldCheck::Integer },
        64 => FieldRule { pointer: "/lyrics/displays/notch/appearance/expandedMaxWidth", key: "expandedMaxWidth", check: FieldCheck::Integer },
        65 => FieldRule { pointer: "/overlay/appearance/fontSize", key: "fontSize", check: FieldCheck::Integer },
        66 => FieldRule { pointer: "/overlay/appearance/fontWeight", key: "fontWeight", check: FieldCheck::Integer },
        67 => FieldRule { pointer: "/overlay/appearance/secondaryFontWeight", key: "secondaryFontWeight", check: FieldCheck::Integer },
        68 => FieldRule { pointer: "/laboratory/server/port", key: "port", check: FieldCheck::Integer },
        69 => FieldRule { pointer: "/laboratory/server/debounceMs", key: "debounceMs", check: FieldCheck::Integer },
        70 => FieldRule { pointer: "/app/language", key: "language", check: FieldCheck::Language },
        71 => FieldRule { pointer: "/laboratory/role", key: "role", check: FieldCheck::OneOf("server,client") },
        72 => FieldRule { pointer: "/laboratory/server/name", key: "name", check: FieldCheck::Str },
        73 => FieldRule { pointer: "/laboratory/client/name", key: "name", check: FieldCheck::Str },
        74 => FieldRule { pointer: "/laboratory/client/lastServerId", key: "lastServerId", check: FieldCheck::StrOrNull },
        75 => FieldRule { pointer: "/lyrics/displays/notch/monitorId", key: "monitorId", check: FieldCheck::StrOrNull },
        76 => FieldRule { pointer: "/app/theme", key: "theme", check: FieldCheck::OneOf("system,light,dark") },
        77 => FieldRule { pointer: "/app/playerSelection", key: "playerSelection", check: FieldCheck::OneOf("auto,apple_music,spotify,system") },
        78 => FieldRule { pointer: "/app/systemMediaFilterMode", key: "systemMediaFilterMode", check: FieldCheck::OneOf("allowlist,blocklist") },
        79 => FieldRule { pointer: "/app/shortcuts/toggleOverlay", key: "toggleOverlay", check: FieldCheck::Str },
        80 => FieldRule { pointer: "/app/shortcuts/unlockOverlay", key: "unlockOverlay", check: FieldCheck::Str },
        81 => FieldRule { pointer: "/app/shortcuts/resetOverlay", key: "resetOverlay", check: FieldCheck::Str },
        82 => FieldRule { pointer: "/app/shortcuts/toggleStatusBarLyrics", key: "toggleStatusBarLyrics", check: FieldCheck::Str },
        83 => FieldRule { pointer: "/app/shortcuts/toggleListLyrics", key: "toggleListLyrics", check: FieldCheck::Str },
        84 => FieldRule { pointer: "/app/shortcuts/toggleNotchLyrics", key: "toggleNotchLyrics", check: FieldCheck::Str },
        85 => FieldRule { pointer: "/lyrics/providers/mode", key: "mode", check: FieldCheck::OneOf("strict,smart") },
        86 => FieldRule { pointer: "/lyrics/displays/listWindow/appearance/backgroundMode", key: "backgroundMode", check: FieldCheck::OneOf("solid,transparent") },
        87 => FieldRule { pointer: "/lyrics/displays/statusBar/appearance/karaokeStyle", key: "karaokeStyle", check: FieldCheck::OneOf("sweep,highlight") },
        88 => FieldRule { pointer: "/lyrics/displays/notch/appearance/karaokeStyle", key: "karaokeStyle", check: FieldCheck::OneOf("sweep,highlight") },
        89 => FieldRule { pointer: "/lyrics/displays/notch/leftSlot", key: "leftSlot", check: FieldCheck::OneOf("empty,title,artist,artwork,spectrum") },
        90 => FieldRule { pointer: "/lyrics/displays/notch/rightSlot", key: "rightSlot", check: FieldCheck::OneOf("empty,title,artist,artwork,spectrum") },
        91 => FieldRule { pointer: "/lyrics/displays/notch/layout", key: "layout", check: FieldCheck::OneOf("single,double") },
        92 => FieldRule { pointer: "/lyrics/displays/notch/doubleLineMode", key: "doubleLineMode", check: FieldCheck::OneOf("rolling,alternating") },
        93 => FieldRule { pointer: "/overlay/appearance/backgroundMode", key: "backgroundMode", check: FieldCheck::OneOf("solid,transparent") },
        94 => FieldRule { pointer: "/overlay/appearance/background", key: "background", check: FieldCheck::OneOf("glass,transparent,solid") },
        95 => FieldRule { pointer: "/overlay/appearance/layout", key: "layout", check: FieldCheck::OneOf("single,double,stacked,side_by_side,vertical_single,vertical_double") },
        96 => FieldRule { pointer: "/overlay/appearance/doubleLineMode", key: "doubleLineMode", check: FieldCheck::OneOf("rolling,alternating") },
        97 => FieldRule { pointer: "/overlay/appearance/orientation", key: "orientation", check: FieldCheck::OneOf("horizontal,vertical") },
        98 => FieldRule { pointer: "/overlay/appearance/alignment", key: "alignment", check: FieldCheck::OneOf("start,center,end,distributed") },
        99 => FieldRule { pointer: "/overlay/appearance/primaryLinePosition", key: "primaryLinePosition", check: FieldCheck::OneOf("first,second") },
        100 => FieldRule { pointer: "/overlay/appearance/longText", key: "longText", check: FieldCheck::OneOf("shrink,wrap,marquee") },
        101 => FieldRule { pointer: "/overlay/appearance/secondaryDisplay", key: "secondaryDisplay", check: FieldCheck::OneOf("next,translation,romanization,translation_romanization") },
        102 => FieldRule { pointer: "/overlay/appearance/karaokeStyle", key: "karaokeStyle", check: FieldCheck::OneOf("sweep,bounce,highlight") },
        103 => FieldRule { pointer: "/lyrics/providers/providers", key: "providers", check: FieldCheck::ProviderItems },
        104 => FieldRule { pointer: "/overlay/appearance/fontFamily", key: "fontFamily", check: FieldCheck::NonBlank },
        105 => FieldRule { pointer: "/lyrics/providers/amllBaseUrl", key: "amllBaseUrl", check: FieldCheck::NonBlank },
        106 => FieldRule { pointer: "/overlay/appearance/activeColor", key: "activeColor", check: FieldCheck::Color },
        107 => FieldRule { pointer: "/overlay/appearance/inactiveColor", key: "inactiveColor", check: FieldCheck::Color },
        108 => FieldRule { pointer: "/overlay/appearance/solidColor", key: "solidColor", check: FieldCheck::Color },
        109 => FieldRule { pointer: "/overlay/appearance/translationColor", key: "translationColor", check: FieldCheck::Color },
        110 => FieldRule { pointer: "/overlay/appearance/romanizationColor", key: "romanizationColor", check: FieldCheck::Color },
        111 => FieldRule { pointer: "/overlay/appearance/textShadowColor", key: "textShadowColor", check: FieldCheck::Color },
        _ => FieldRule { pointer: "/overlay/appearance/textStrokeColor", key: "textStrokeColor", check: FieldCheck::Color },
    }
}

/// The rules of a table, in order.
pub open spec fn rule_table(count: int, rule: spec_fn(int) -> FieldRule) -> Seq<FieldRule> {
    Seq::new(count as nat, |i: int| rule(i))
}

proof fn lemma_rules_step(v: JsonValue, rules: Seq<FieldRule>, i: int)
    requires
        0 <= i < rules.len(),
        rule_outcome(v, rules[i]) is Ok,
    ensures
        rules_outcome(v, rules.subrange(i, rules.len() as int)) == rules_outcome(
            v,
            rules.subrange(i + 1, rules.len() as int),
        ),
{
    let rest = rules.subrange(i, rules.len() as int);
    assert(rest[0] == rules[i]);
    assert(rest.drop_first() == rules.subrange(i + 1, rules.len() as int));
}

/// Rejects the first member, in document order, whose key is not allowed at
/// its place in a configuration draft.
pub fn validate_known_fields(value: &JsonValue, raw: &str) -> (r: Result<(), ConfigDraftError>)
    requires
        raw@.len() < usize::MAX,
    ensures
        draft_outcome(
            r,
            raw@,
            rules_outcome(
                *value,
                rule_table(KNOWN_FIELD_RULE_COUNT as int, |i: int| known_field_rule(i)),
            ),
        ),
{
    let ghost rules = rule_table(KNOWN_FIELD_RULE_COUNT as int, |i: int| known_field_rule(i));
    let mut i: usize = 0;
    assert(rules.subrange(0, rules.len() as int) == rules);
    while i < KNOWN_FIELD_RULE_COUNT
        invariant
            i <= KNOWN_FIELD_RULE_COUNT,
            raw@.len() < usize::MAX,
            rules == rule_table(KNOWN_FIELD_RULE_COUNT as int, |i: int| known_field_rule(i)),
            rules_outcome(*value, rules) == rules_outcome(
                *value,
                rules.subrange(i as int, rules.len() as int),
            ),
        decreases KNOWN_FIELD_RULE_COUNT - i,
    {
        let rule = known_field_rule_at(i);
        let ghost rest = rules.subrange(i as int, rules.len() as int);
        assert(rest[0] == rules[i as int]);
        match check_rule(value, raw, &rule) {
            Err(e) => {
                return Err(e);
            },
            Ok(_) => {},
        }
        proof {
            lemma_rules_step(*value, rules, i as int);
        }
        i = i + 1;
    }
    assert(rules.subrange(i as int, rules.len() as int).len() == 0);
    Ok(())
}

/// Rejects the first member of a configuration draft, in the order of the
/// table, that has the wrong type or an unknown option.
pub fn validate_field_types_and_options(value: &JsonValue, raw: &str) -> (r: Result<
    (),
    ConfigDraftError,
>)
    requires
        raw@.len() < usize::MAX,
    ensures
        draft_outcome(
            r,
            raw@,
            rules_outcome(
                *value,
                rule_table(FIELD_TYPE_RULE_COUNT as int, |i: int| field_type_rule(i)),
            ),
        ),
{
    let ghost rules = rule_table(FIELD_TYPE_RULE_COUNT as int, |i: int| field_type_rule(i));
    let mut i: usize = 0;
    assert(rules.subrange(0, rules.len() as int) == rules);
    while i < FIELD_TYPE_RULE_COUNT
        invariant
            i <= FIELD_TYPE_RULE_COUNT,
            raw@.len() < usize::MAX,
            rules == rule_table(FIELD_TYPE_RULE_COUNT as int, |i: int| field_type_rule(i)),
            rules_outcome(*value, rules) == rules_outcome(
                *value,
                rules.subrange(i as int, rules.len() as int),
            ),
        decreases FIELD_TYPE_RULE_COUNT - i,
    {
        let rule = field_type_rule_at(i);
        let ghost rest = rules.subrange(i as int, rules.len() as int);
        assert(rest[0] == rules[i as int]);
        match check_rule(value, raw, &rule) {
            Err(e) => {
                return Err(e);
            },
            Ok(_) => {},
        }
        proof {
            lemma_rules_step(*value, rules, i as int);
        }
        i = i + 1;
    }
    assert(rules.subrange(i as int, rules.len() as int).len() == 0);
    Ok(())
}

/// The outcome of checking the value at `pointer` against a list of options:
/// absent passes; a string among the options passes; any other string fails
/// with the list of options, and anything else as not a string.
pub open spec fn string_option_outcome(
    value: JsonValue,
    pointer: Seq<char>,
    key: Seq<char>,
    options: Seq<Seq<char>>,
) -> Result<(), (Seq<char>, Seq<char>)> {
    match pointer_spec(value, pointer) {
        None => Ok(()),
        Some(JsonValue::String(s)) => if key_allowed(options, s@) {
            Ok(())
        } else {
            Err((key, key + " 可选值："@ + crate::json::join_with(options, "、"@)))
        },
        Some(_) => Err((key, key + " 必须是字符串"@)),
    }
}

/// Checks that the value at `pointer`, if present, is one of `options`.
#[verifier::loop_isolation(false)]
pub fn validate_string_option(
    value: &JsonValue,
    raw: &str,
    pointer: &str,
    key: &str,
    options: &[&str],
) -> (r: Result<(), ConfigDraftError>)
    requires
        raw@.len() < usize::MAX,
    ensures
        draft_outcome(r, raw@, string_option_outcome(*value, pointer@, key@, strs_view(options@))),
{
    let candidate = match json_pointer(value, pointer) {
        None => {
            return Ok(());
        },
        Some(c) => c,
    };
    let candidate = match candidate {
        JsonValue::String(s) => s,
        _ => {
            return Err(crate::json::keyed_error(raw, key, " 必须是字符串"));
        },
    };
    let opts = strs_to_chars(options);
    let ghost ov = pieces_view(opts@);
    let mut i: usize = 0;
    while i < opts.len()
        invariant
            i <= opts@.len(),
            ov == pieces_view(opts@),
            forall|j: int| 0 <= j < i ==> ov[j] != candidate@,
        decreases opts@.len() - i,
    {
        if str_eq_chars(candidate.as_str(), &opts[i]) {
            assert(ov[i as int] == candidate@);
            return Ok(());
        }
        i = i + 1;
    }
    let mut message = chars_of(key);
    push_str(&mut message, " 可选值：");
    let joined = join_pieces(&opts, "、");
    push_chars(&mut message, &joined);
    let message = string_from_chars(&message);
    Err(error_at_key(raw, key, message.as_str()))
}

/// Checks the language preference of a configuration draft, if present.
pub fn validate_language_preference(value: &JsonValue, raw: &str) -> (r: Result<
    (),
    ConfigDraftError,
>)
    requires
        raw@.len() < usize::MAX,
    ensures
        draft_outcome(
            r,
            raw@,
            rule_outcome(
                *value,
                FieldRule { pointer: "/app/language", key: "language", check: FieldCheck::Language },
            ),
        ),
{
    let rule = FieldRule { pointer: "/app/language", key: "language", check: FieldCheck::Language };
    check_rule(value, raw, &rule)
}

} // verus!

verus! {

/// The schema version a draft declares, and whether it may be read: a
/// missing version is the current one; a number must be a non-negative
/// integer that fits in 16 bits and is not newer than the current schema.
pub open spec fn draft_version_spec(user: JsonValue) -> Result<u16, (Seq<char>, Seq<char>)> {
    match crate::json::get_spec(user, "schemaVersion"@) {
        None => Ok(crate::normalize::CONFIG_SCHEMA_VERSION),
        Some(JsonValue::Number(n)) => match n.unsigned {
            None => Err(("schemaVersion"@, "schemaVersion 必须是正整数"@)),
            Some(v) => if v > 65535 {
                Err(("schemaVersion"@, "schemaVersion 超出支持范围"@))
            } else if v > crate::normalize::CONFIG_SCHEMA_VERSION {
                Err(("schemaVersion"@, crate::normalize::newer_schema_message(v as u16)))
            } else {
                Ok(v as u16)
            },
        },
        Some(_) => Err(("schemaVersion"@, "schemaVersion 必须是数字"@)),
    }
}

/// Reads the schema version of a parsed draft; the root must be an object.
pub fn draft_schema_version(user: &JsonValue, raw: &str) -> (r: Result<u16, ConfigDraftError>)
    requires
        raw@.len() < usize::MAX,
    ensures
        !(user is Object) ==> (r matches Err(e) && e.message@ == "配置根节点必须是对象"@ && e.line == 1
            && e.column == 1),
        user is Object ==> match draft_version_spec(*user) {
            Ok(v) => r == Ok::<u16, ConfigDraftError>(v),
            Err((key, message)) => r matches Err(e) && crate::jsonc::error_at_key_spec(
                e,
                raw@,
                key,
                message,
            ),
        },
{
    match user {
        JsonValue::Object(_) => {},
        _ => {
            return Err(
                ConfigDraftError {
                    message: string_from_chars(&chars_of("配置根节点必须是对象")),
                    line: 1,
                    column: 1,
                },
            );
        },
    }
    let key = chars_of("schemaVersion");
    match crate::json::json_get(user, &key) {
        None => Ok(crate::normalize::CONFIG_SCHEMA_VERSION),
        Some(JsonValue::Number(n)) => match n.unsigned {
            None => Err(error_at_key(raw, "schemaVersion", "schemaVersion 必须是正整数")),
            Some(v) => {
                if v > 65535 {
                    return Err(error_at_key(raw, "schemaVersion", "schemaVersion 超出支持范围"));
                }
                let version = v as u16;
                match crate::normalize::check_schema_version(version) {
                    Ok(()) => Ok(version),
                    Err(message) => Err(error_at_key(raw, "schemaVersion", message.as_str())),
                }
            },
        },
        Some(_) => Err(error_at_key(raw, "schemaVersion", "schemaVersion 必须是数字")),
    }
}

/// The keys an `app` section keeps when a draft of an older schema is read.
pub open spec fn app_config_key(key: Seq<char>) -> bool {
    key == "theme"@ || key == "language"@ || key == "playerSelection"@ || key
        == "systemMediaFilterMode"@ || key == "systemMediaApplications"@ || key
        == "playerFollowerApplication"@ || key == "hideDockIcon"@ || key == "silentStartup"@ || key
        == "autoCheckUpdates"@ || key == "lyricsWindowsShowOnAllSpaces"@ || key == "shortcuts"@
}

/// Whether an `app` key of an older draft is kept.
pub fn is_app_config_key(key: &str) -> (r: bool)
    ensures
        r == app_config_key(key@),
{
    crate::text::str_eq(key, "theme") || crate::text::str_eq(key, "language") || crate::text::str_eq(
        key,
        "playerSelection",
    ) || crate::text::str_eq(key, "systemMediaFilterMode") || crate::text::str_eq(
        key,
        "systemMediaApplications",
    ) || crate::text::str_eq(key, "playerFollowerApplication") || crate::text::str_eq(
        key,
        "hideDockIcon",
    ) || crate::text::str_eq(key, "silentStartup") || crate::text::str_eq(key, "autoCheckUpdates")
        || crate::text::str_eq(key, "lyricsWindowsShowOnAllSpaces") || crate::text::str_eq(
        key,
        "shortcuts",
    )
}

/// The filter mode that drafts older than the mode assume: an allowlist when
/// they list applications, a blocklist otherwise. A present `app` that is no
/// object is refused.
pub open spec fn legacy_filter_mode_spec(app: Option<JsonValue>) -> Result<
    crate::config::SystemMediaFilterMode,
    (Seq<char>, Seq<char>),
> {
    match app {
        None => Ok(crate::config::SystemMediaFilterMode::Blocklist),
        Some(JsonValue::Object(entries)) => match crate::json::get_spec(
            JsonValue::Object(entries),
            "systemMediaApplications"@,
        ) {
            Some(JsonValue::Array(items)) if items@.len() > 0 => Ok(
                crate::config::SystemMediaFilterMode::Allowlist,
            ),
            _ => Ok(crate::config::SystemMediaFilterMode::Blocklist),
        },
        Some(_) => Err(("app"@, "app 必须是对象"@)),
    }
}

/// Decides the filter mode of a draft written before the mode existed.
pub fn legacy_filter_mode(app: Option<&JsonValue>, raw: &str) -> (r: Result<
    crate::config::SystemMediaFilterMode,
    ConfigDraftError,
>)
    requires
        raw@.len() < usize::MAX,
    ensures
        match legacy_filter_mode_spec(
            match app {
                Some(a) => Some(*a),
                None => None,
            },
        ) {
            Ok(m) => r matches Ok(x) && x == m,
            Err((key, message)) => r matches Err(e) && crate::jsonc::error_at_key_spec(
                e,
                raw@,
                key,
                message,
            ),
        },
{
    match app {
        None => Ok(crate::config::SystemMediaFilterMode::Blocklist),
        Some(v) => match v {
            JsonValue::Object(_) => {
                let key = chars_of("systemMediaApplications");
                match crate::json::json_get(v, &key) {
                    Some(JsonValue::Array(items)) => if items.len() > 0 {
                        Ok(crate::config::SystemMediaFilterMode::Allowlist)
                    } else {
                        Ok(crate::config::SystemMediaFilterMode::Blocklist)
                    },
                    _ => Ok(crate::config::SystemMediaFilterMode::Blocklist),
                }
            },
            _ => Err(error_at_key(raw, "app", "app 必须是对象")),
        },
    }
}

} // verus!

verus! {

/// The members of an object, without those named `key`.
pub open spec fn without_member(entries: Seq<(String, JsonValue)>, key: Seq<char>) -> Seq<
    (String, JsonValue),
> {
    entries.filter(|e: (String, JsonValue)| e.0@ != key)
}

/// The members of an older `app` section that are kept.
pub open spec fn kept_app_members(entries: Seq<(String, JsonValue)>) -> Seq<(String, JsonValue)> {
    entries.filter(|e: (String, JsonValue)| app_config_key(e.0@))
}

/// The filter mode that an older `app` section gets, by name.
pub open spec fn legacy_mode_name(app: Seq<(String, JsonValue)>) -> Seq<char> {
    match crate::json::first_key_index(app, "systemMediaApplications"@) {
        Some(i) => if app[i].1 matches JsonValue::Array(items) && items@.len() > 0 {
            "allowlist"@
        } else {
            "blocklist"@
        },
        None => "blocklist"@,
    }
}

/// `after` is `before` with the member `key` set to the string `text`: the
/// first member of that name keeps its place and takes the new value, or
/// the member is added at the end.
pub open spec fn string_member_set(
    before: Seq<(String, JsonValue)>,
    after: Seq<(String, JsonValue)>,
    key: Seq<char>,
    text: Seq<char>,
) -> bool {
    match crate::json::first_key_index(before, key) {
        Some(i) => {
            &&& after.len() == before.len()
            &&& forall|k: int| 0 <= k < before.len() && k != i ==> after[k] == before[k]
            &&& after[i].0 == before[i].0
            &&& after[i].1 matches JsonValue::String(s) && s@ == text
        },
        None => {
            &&& after.len() == before.len() + 1
            &&& after.take(before.len() as int) == before
            &&& after.last().0@ == key
            &&& after.last().1 matches JsonValue::String(s) && s@ == text
        },
    }
}

/// What reading a draft of schema `version` does to its `app` section:
/// sections of older schemas keep only the known keys, and those older than
/// the filter mode get the mode their application list implies.
pub open spec fn app_section_prepared(before: JsonValue, version: u16, after: JsonValue) -> bool {
    if version >= crate::normalize::CONFIG_SCHEMA_VERSION {
        after == before
    } else {
        match before {
            JsonValue::Object(a) => after matches JsonValue::Object(b) && {
                let kept = kept_app_members(a@);
                if version < 24 {
                    string_member_set(kept, b@, "systemMediaFilterMode"@, legacy_mode_name(kept))
                } else {
                    b@ == kept
                }
            },
            _ => after == before,
        }
    }
}

/// What reading a draft of schema `version` does to its members before they
/// are checked: `artwork` is dropped, and the `app` section is brought up to
/// date (and created, holding only the filter mode, for a draft older than
/// the mode that has none).
pub open spec fn draft_prepared(before: Seq<(String, JsonValue)>, version: u16, after: Seq<
    (String, JsonValue),
>) -> bool {
    let e = without_member(before, "artwork"@);
    match crate::json::first_key_index(e, "app"@) {
        Some(j) => {
            &&& after.len() == e.len()
            &&& forall|k: int| 0 <= k < e.len() && k != j ==> after[k] == e[k]
            &&& after[j].0 == e[j].0
            &&& app_section_prepared(e[j].1, version, after[j].1)
        },
        None => if version < 24 {
            &&& after.len() == e.len() + 1
            &&& after.take(e.len() as int) == e
            &&& after.last().0@ == "app"@
            &&& after.last().1 matches JsonValue::Object(app) && string_member_set(
                Seq::empty(),
                app@,
                "systemMediaFilterMode"@,
                "blocklist"@,
            )
        } else {
            after == e
        },
    }
}

/// Removes the members named `key`.
fn remove_members(entries: Vec<(String, JsonValue)>, key: &str) -> (r: Vec<(String, JsonValue)>)
    ensures
        r@ == without_member(entries@, key@),
{
    let ghost all = entries@;
    let ghost pred = |e: (String, JsonValue)| e.0@ != key@;
    let n: usize = entries.len();
    let mut rest = entries;
    let mut out: Vec<(String, JsonValue)> = Vec::new();
    let mut i: usize = 0;
    assert(all.take(0).filter(pred) =~= Seq::<(String, JsonValue)>::empty()) by {
        reveal(Seq::filter);
    }
    assert(all.skip(0) == all);
    while rest.len() > 0
        invariant
            all.len() == n,
            i <= n,
            rest@ == all.skip(i as int),
            out@ == all.take(i as int).filter(pred),
            pred == (|e: (String, JsonValue)| e.0@ != key@),
        decreases rest@.len(),
    {
        assert(rest@[0] == all[i as int]);
        assert(all.take(i + 1) == all.take(i as int).push(all[i as int]));
        proof {
            all.take(i as int).lemma_filter_push(all[i as int], pred);
        }
        let e = rest.remove(0);
        assert(rest@ == all.skip(i + 1));
        if !str_eq(e.0.as_str(), key) {
            out.push(e);
        }
        i = i + 1;
    }
    assert(all.take(i as int) == all);
    out
}

/// Keeps the members of an older `app` section whose keys are known.
fn keep_app_members(entries: Vec<(String, JsonValue)>) -> (r: Vec<(String, JsonValue)>)
    ensures
        r@ == kept_app_members(entries@),
{
    let ghost all = entries@;
    let ghost pred = |e: (String, JsonValue)| app_config_key(e.0@);
    let n: usize = entries.len();
    let mut rest = entries;
    let mut out: Vec<(String, JsonValue)> = Vec::new();
    let mut i: usize = 0;
    assert(all.take(0).filter(pred) =~= Seq::<(String, JsonValue)>::empty()) by {
        reveal(Seq::filter);
    }
    assert(all.skip(0) == all);
    while rest.len() > 0
        invariant
            all.len() == n,
            i <= n,
            rest@ == all.skip(i as int),
            out@ == all.take(i as int).filter(pred),
            pred == (|e: (String, JsonValue)| app_config_key(e.0@)),
        decreases rest@.len(),
    {
        assert(rest@[0] == all[i as int]);
        assert(all.take(i + 1) == all.take(i as int).push(all[i as int]));
        proof {
            all.take(i as int).lemma_filter_push(all[i as int], pred);
        }
        let e = rest.remove(0);
        assert(rest@ == all.skip(i + 1));
        if is_app_config_key(e.0.as_str()) {
            out.push(e);
        }
        i = i + 1;
    }
    assert(all.take(i as int) == all);
    out
}

/// The position of the first member named `key`.
fn find_member(entries: &Vec<(String, JsonValue)>, key: &str) -> (r: Option<usize>)
    ensures
        match r {
            Some(i) => crate::json::first_key_index(entries@, key@) == Some(i as int),
            None => crate::json::first_key_index(entries@, key@) is None,
        },
{
    let mut i: usize = 0;
    proof {
        crate::json::lemma_first_key_index_bounds(entries@, key@);
    }
    while i < entries.len()
        invariant
            i <= entries@.len(),
            forall|k: int| 0 <= k < i ==> (#[trigger] entries@[k]).0@ != key@,
            crate::json::first_key_index(entries@, key@) matches Some(f) ==> 0 <= f < entries@.len()
                && entries@[f].0@ == key@,
            crate::json::first_key_index(entries@, key@) is None ==> forall|j: int|
                0 <= j < entries@.len() ==> (#[trigger] entries@[j]).0@ != key@,
        decreases entries@.len() - i,
    {
        if str_eq(entries[i].0.as_str(), key) {
            proof {
                lemma_first_key_index_at(entries@, key@, i as int);
            }
            return Some(i);
        }
        i = i + 1;
    }
    None
}

proof fn lemma_first_key_index_at(entries: Seq<(String, JsonValue)>, key: Seq<char>, i: int)
    requires
        0 <= i < entries.len(),
        entries[i].0@ == key,
        forall|k: int| 0 <= k < i ==> (#[trigger] entries[k]).0@ != key,
    ensures
        crate::json::first_key_index(entries, key) == Some(i),
    decreases i,
{
    if i > 0 {
        let t = entries.drop_first();
        assert forall|k: int| 0 <= k < i - 1 implies (#[trigger] t[k]).0@ != key by {
            assert(t[k] == entries[k + 1]);
        }
        lemma_first_key_index_at(t, key, i - 1);
    }
}

/// Sets the member `key` to a string: the first member of that name keeps
/// its place, or the member is added at the end.
fn set_string_member(entries: &mut Vec<(String, JsonValue)>, key: &str, text: &str)
    ensures
        string_member_set(old(entries)@, final(entries)@, key@, text@),
{
    let value = JsonValue::String(string_from_chars(&chars_of(text)));
    match find_member(entries, key) {
        Some(i) => {
            proof {
                crate::json::lemma_first_key_index_bounds(entries@, key@);
            }
            let ghost before = entries@;
            let (name, _) = entries.remove(i);
            let ghost removed = entries@;
            entries.insert(i, (name, value));
            assert forall|k: int| 0 <= k < before.len() && k != i implies entries@[k] == before[k] by {
                if k < i {
                    assert(entries@[k] == removed[k]);
                } else {
                    assert(entries@[k] == removed[k - 1]);
                }
            }
        },
        None => {
            let ghost before = entries@;
            entries.push((string_from_chars(&chars_of(key)), value));
            assert(entries@.take(before.len() as int) == before);
        },
    }
}

/// Reads the schema version of a parsed draft and brings the draft up to
/// date before its fields are checked: `artwork` is dropped; an `app`
/// section of an older schema keeps only the known keys; a draft older than
/// the filter mode gets the mode its application list implies (an `app`
/// that is no object is then refused).
pub fn prepare_draft(user: JsonValue, raw: &str) -> (r: Result<(u16, JsonValue), ConfigDraftError>)
    requires
        raw@.len() < usize::MAX,
    ensures
        !(user is Object) ==> (r matches Err(e) && e.message@ == "配置根节点必须是对象"@ && e.line == 1
            && e.column == 1),
        user matches JsonValue::Object(entries) ==> match draft_version_spec(user) {
            Err((key, message)) => r matches Err(e) && crate::jsonc::error_at_key_spec(
                e,
                raw@,
                key,
                message,
            ),
            Ok(v) => {
                let e = without_member(entries@, "artwork"@);
                let app = crate::json::first_key_index(e, "app"@);
                if v < 24 && (app matches Some(j) && !(e[j].1 is Object)) {
                    r matches Err(err) && crate::jsonc::error_at_key_spec(
                        err,
                        raw@,
                        "app"@,
                        "app 必须是对象"@,
                    )
                } else {
                    r matches Ok((version, JsonValue::Object(out))) && version == v
                        && draft_prepared(entries@, v, out@)
                }
            },
        },
{
    let version = match draft_schema_version(&user, raw) {
        Ok(v) => v,
        Err(e) => return Err(e),
    };
    let entries = match user {
        JsonValue::Object(entries) => entries,
        _ => {
            assert(false);
            return Err(error_at_key(raw, "app", "app 必须是对象"));
        },
    };
    let mut entries = remove_members(entries, "artwork");
    let ghost e = entries@;
    match find_member(&entries, "app") {
        Some(j) => {
            proof {
                crate::json::lemma_first_key_index_bounds(e, "app"@);
            }
            if version < crate::normalize::CONFIG_SCHEMA_VERSION {
                let (name, app) = entries.remove(j);
                let updated = match app {
                    JsonValue::Object(members) => {
                        let mut kept = keep_app_members(members);
                        if version < 24 {
                            let ghost k = kept@;
                            let section = JsonValue::Object(kept);
                            let mode = match legacy_filter_mode(Some(&section), raw) {
                                Ok(m) => m,
                                Err(err) => return Err(err),
                            };
                            kept = match section {
                                JsonValue::Object(m) => m,
                                _ => Vec::new(),
                            };
                            assert(kept@ == k);
                            let text = match mode {
                                crate::config::SystemMediaFilterMode::Allowlist => "allowlist",
                                crate::config::SystemMediaFilterMode::Blocklist => "blocklist",
                            };
                            set_string_member(&mut kept, "systemMediaFilterMode", text);
                        }
                        JsonValue::Object(kept)
                    },
                    other => {
                        if version < 24 {
                            return Err(error_at_key(raw, "app", "app 必须是对象"));
                        }
                        other
                    },
                };
                let ghost before = entries@;
                entries.insert(j, (name, updated));
                assert forall|k: int| 0 <= k < e.len() && k != j implies entries@[k] == e[k] by {
                    if k < j {
                        assert(entries@[k] == before[k]);
                    } else {
                        assert(entries@[k] == before[k - 1]);
                    }
                }
            }
        },
        None => {
            if version < 24 {
                let mut app: Vec<(String, JsonValue)> = Vec::new();
                set_string_member(&mut app, "systemMediaFilterMode", "blocklist");
                entries.push((string_from_chars(&chars_of("app")), JsonValue::Object(app)));
                assert(entries@.take(e.len() as int) == e);
            }
        },
    }
    Ok((version, JsonValue::Object(entries)))
}

} // verus!

verus! {

/// `s` holds no comma.
pub open spec fn comma_free(s: Seq<char>) -> bool {
    forall|i: int| 0 <= i < s.len() ==> s[i] != ','
}

/// The member keys that the known-field check allows in the `app` section of
/// a draft are exactly the keys an `app` section of the configuration keeps:
/// none is refused there that the configuration writes, `autoCheckUpdates`
/// among them, and no other key is let through.
pub proof fn app_section_allows_exactly_the_app_keys(key: Seq<char>)
    ensures
        known_field_rule(1).pointer@ == "/app"@,
        known_field_rule(1).check matches FieldCheck::Keys(list) && (key_allowed(
            split_spec(list@, ','),
            key,
        ) <==> app_config_key(key)),
{
    reveal_strlit("/app");
    reveal_strlit("theme,language,playerSelection,systemMediaFilterMode,systemMediaApplications,playerFollowerApplication,hideDockIcon,silentStartup,autoCheckUpdates,lyricsWindowsShowOnAllSpaces,shortcuts");
    reveal_strlit("theme");
    reveal_strlit("language");
    reveal_strlit("playerSelection");
    reveal_strlit("systemMediaFilterMode");
    reveal_strlit("systemMediaApplications");
    reveal_strlit("playerFollowerApplication");
    reveal_strlit("hideDockIcon");
    reveal_strlit("silentStartup");
    reveal_strlit("autoCheckUpdates");
    reveal_strlit("lyricsWindowsShowOnAllSpaces");
    reveal_strlit("shortcuts");
    let k0 = "theme"@;
    assert(comma_free(k0));
    let k1 = "language"@;
    assert(comma_free(k1));
    let k2 = "playerSelection"@;
    assert(comma_free(k2));
    let k3 = "systemMediaFilterMode"@;
    assert(comma_free(k3));
    let k4 = "systemMediaApplications"@;
    assert(comma_free(k4));
    let k5 = "playerFollowerApplication"@;
    assert(comma_free(k5));
    let k6 = "hideDockIcon"@;
    assert(comma_free(k6));
    let k7 = "silentStartup"@;
    assert(comma_free(k7));
    let k8 = "autoCheckUpdates"@;
    assert(comma_free(k8));
    let k9 = "lyricsWindowsShowOnAllSpaces"@;
    assert(comma_free(k9));
    let k10 = "shortcuts"@;
    assert(comma_free(k10));
    let p0 = k0;
    lemma_split_single(p0, ',');
    let p1 = p0 + seq![','] + k1;
    lemma_split_append(p0, k1, ',');
    let p2 = p1 + seq![','] + k2;
    lemma_split_append(p1, k2, ',');
    let p3 = p2 + seq![','] + k3;
    lemma_split_append(p2, k3, ',');
    let p4 = p3 + seq![','] + k4;
    lemma_split_append(p3, k4, ',');
    let p5 = p4 + seq![','] + k5;
    lemma_split_append(p4, k5, ',');
    let p6 = p5 + seq![','] + k6;
    lemma_split_append(p5, k6, ',');
    let p7 = p6 + seq![','] + k7;
    lemma_split_append(p6, k7, ',');
    let p8 = p7 + seq![','] + k8;
    lemma_split_append(p7, k8, ',');
    let p9 = p8 + seq![','] + k9;
    lemma_split_append(p8, k9, ',');
    let p10 = p9 + seq![','] + k10;
    lemma_split_append(p9, k10, ',');
    assert("theme,language,playerSelection,systemMediaFilterMode,systemMediaApplications,playerFollowerApplication,hideDockIcon,silentStartup,autoCheckUpdates,lyricsWindowsShowOnAllSpaces,shortcuts"@ =~= p10);
    let pieces = seq![k0, k1, k2, k3, k4, k5, k6, k7, k8, k9, k10];
    assert(split_spec(p10, ',') =~= pieces);
    if key_allowed(pieces, key) {
        let j = choose|j: int| 0 <= j < pieces.len() && pieces[j] == key;
        assert(j == 0 || j == 1 || j == 2 || j == 3 || j == 4 || j == 5 || j == 6 || j == 7 || j
            == 8 || j == 9 || j == 10);
    }
    if app_config_key(key) {
        if key == k0 {
            assert(pieces[0] == key);
        }
        if key == k1 {
            assert(pieces[1] == key);
        }
        if key == k2 {
            assert(pieces[2] == key);
        }
        if key == k3 {
            assert(pieces[3] == key);
        }
        if key == k4 {
            assert(pieces[4] == key);
        }
        if key == k5 {
            assert(pieces[5] == key);
        }
        if key == k6 {
            assert(pieces[6] == key);
        }
        if key == k7 {
            assert(pieces[7] == key);
        }
        if key == k8 {
            assert(pieces[8] == key);
        }
        if key == k9 {
            assert(pieces[9] == key);
        }
        if key == k10 {
            assert(pieces[10] == key);
        }
    }
}

} // verus!
