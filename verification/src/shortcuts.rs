use vstd::prelude::*;

use crate::config::GlobalShortcutSettings;
use crate::text::{chars_of, push_str, string_from_chars, trim_spec, trim_str};

verus! {

/// What the shortcut parser reports of a shortcut it accepted: whether it
/// holds a modifier key, and its identifier (equal shortcuts share one).
#[derive(Debug, Clone, Copy, PartialEq, Eq, Structural)]
pub struct ShortcutFacts {
    pub has_modifiers: bool,
    pub id: u32,
}

/// The name under which the `i`-th shortcut is reported: the three desktop
/// lyrics shortcuts, then the status bar, list window and notch ones.
pub open spec fn shortcut_label(i: int) -> Seq<char> {
    if i == 0 {
        "显示 / 隐藏桌面歌词"@
    } else if i == 1 {
        "锁定 / 解锁桌面歌词"@
    } else if i == 2 {
        "复位并显示桌面歌词"@
    } else if i == 3 {
        "显示 / 隐藏菜单栏歌词"@
    } else if i == 4 {
        "显示 / 隐藏歌词窗口"@
    } else {
        "显示 / 隐藏灵动岛歌词"@
    }
}

/// The `i`-th shortcut of the settings, in the order of `shortcut_label`.
pub open spec fn shortcut_value(s: GlobalShortcutSettings, i: int) -> Seq<char> {
    if i == 0 {
        s.toggle_overlay@
    } else if i == 1 {
        s.unlock_overlay@
    } else if i == 2 {
        s.reset_overlay@
    } else if i == 3 {
        s.toggle_status_bar_lyrics@
    } else if i == 4 {
        s.toggle_list_lyrics@
    } else {
        s.toggle_notch_lyrics@
    }
}

/// The identifiers of the shortcuts accepted so far.
pub open spec fn accepted_ids(done: Seq<Option<ShortcutFacts>>) -> Seq<u32>
    decreases done.len(),
{
    if done.len() == 0 {
        seq![]
    } else {
        let before = accepted_ids(done.drop_last());
        match done.last() {
            Some(f) => before.push(f.id),
            None => before,
        }
    }
}

/// Checks one shortcut: an optional one may be left blank; otherwise the
/// parser must accept it, it must hold a modifier key, and no shortcut
/// accepted before it may be the same.
pub open spec fn shortcut_step(
    label: Seq<char>,
    value: Seq<char>,
    optional: bool,
    outcome: Result<ShortcutFacts, String>,
    ids: Seq<u32>,
) -> Result<Option<ShortcutFacts>, Seq<char>> {
    if optional && trim_spec(value).len() == 0 {
        Ok(None)
    } else {
        match outcome {
            Err(e) => Err(label + "快捷键无效："@ + e@),
            Ok(f) => if !f.has_modifiers {
                Err(label + "快捷键必须包含至少一个修饰键"@)
            } else if ids.contains(f.id) {
                Err("全局快捷键不能重复"@)
            } else {
                Ok(Some(f))
            },
        }
    }
}

/// The first `n` shortcuts checked in order; the first refusal ends the
/// check.
pub open spec fn shortcuts_outcome(
    s: GlobalShortcutSettings,
    outcomes: Seq<Result<ShortcutFacts, String>>,
    n: int,
) -> Result<Seq<Option<ShortcutFacts>>, Seq<char>>
    decreases n,
{
    if n <= 0 {
        Ok(seq![])
    } else {
        match shortcuts_outcome(s, outcomes, n - 1) {
            Err(e) => Err(e),
            Ok(done) => match shortcut_step(
                shortcut_label(n - 1),
                shortcut_value(s, n - 1),
                n - 1 >= 3,
                outcomes[n - 1],
                accepted_ids(done),
            ) {
                Err(e) => Err(e),
                Ok(x) => Ok(done.push(x)),
            },
        }
    }
}

proof fn lemma_refusal_persists(
    s: GlobalShortcutSettings,
    outcomes: Seq<Result<ShortcutFacts, String>>,
    n: int,
    m: int,
)
    requires
        0 < n <= m,
        shortcuts_outcome(s, outcomes, n) is Err,
    ensures
        shortcuts_outcome(s, outcomes, m) == shortcuts_outcome(s, outcomes, n),
    decreases m - n,
{
    if n < m {
        lemma_refusal_persists(s, outcomes, n, m - 1);
    }
}

fn shortcut_label_exec(i: usize) -> (r: &'static str)
    requires
        i < 6,
    ensures
        r@ == shortcut_label(i as int),
{
    if i == 0 {
        "显示 / 隐藏桌面歌词"
    } else if i == 1 {
        "锁定 / 解锁桌面歌词"
    } else if i == 2 {
        "复位并显示桌面歌词"
    } else if i == 3 {
        "显示 / 隐藏菜单栏歌词"
    } else if i == 4 {
        "显示 / 隐藏歌词窗口"
    } else {
        "显示 / 隐藏灵动岛歌词"
    }
}

impl GlobalShortcutSettings {
    fn value_at(&self, i: usize) -> (r: &str)
        requires
            i < 6,
        ensures
            r@ == shortcut_value(*self, i as int),
    {
        if i == 0 {
            self.toggle_overlay.as_str()
        } else if i == 1 {
            self.unlock_overlay.as_str()
        } else if i == 2 {
            self.reset_overlay.as_str()
        } else if i == 3 {
            self.toggle_status_bar_lyrics.as_str()
        } else if i == 4 {
            self.toggle_list_lyrics.as_str()
        } else {
            self.toggle_notch_lyrics.as_str()
        }
    }

    /// Checks the shortcuts in order, given what the shortcut parser made of
    /// each trimmed value (`outcomes`, in the order of `shortcut_label`; the
    /// outcome of a blank optional shortcut is not read). The three desktop
    /// lyrics shortcuts are required; the other three may be blank. Every
    /// shortcut needs a modifier key and no two may be the same.
    pub fn parsed(&self, outcomes: &[Result<ShortcutFacts, String>; 6]) -> (r: Result<
        ([ShortcutFacts; 3], [Option<ShortcutFacts>; 3]),
        String,
    >)
        ensures
            match shortcuts_outcome(*self, outcomes@, 6) {
                Ok(all) => r matches Ok((required, optional)) && forall|i: int|
                    0 <= i < 3 ==> Some(#[trigger] required@[i]) == all[i] && optional@[i] == all[i
                        + 3],
                Err(message) => r matches Err(e) && e@ == message,
            },
    {
        let mut done: Vec<Option<ShortcutFacts>> = Vec::new();
        let mut ids: Vec<u32> = Vec::new();
        let mut i: usize = 0;
        while i < 6
            invariant
                i <= 6,
                shortcuts_outcome(*self, outcomes@, i as int) == Ok::<
                    Seq<Option<ShortcutFacts>>,
                    Seq<char>,
                >(done@),
                ids@ == accepted_ids(done@),
                done@.len() == i,
                forall|k: int| 0 <= k < done@.len() && k < 3 ==> (#[trigger] done@[k]) is Some,
            decreases 6 - i,
        {
            let label = shortcut_label_exec(i);
            let value = self.value_at(i);
            let ghost step = shortcut_step(
                shortcut_label(i as int),
                shortcut_value(*self, i as int),
                i >= 3,
                outcomes@[i as int],
                accepted_ids(done@),
            );
            if i >= 3 && trim_str(value).len() == 0 {
                let ghost before = done@;
                done.push(None);
                assert(done@.drop_last() == before);
            } else {
                match &outcomes[i] {
                    Err(error) => {
                        let mut message: Vec<char> = Vec::new();
                        push_str(&mut message, label);
                        push_str(&mut message, "快捷键无效：");
                        push_str(&mut message, error.as_str());
                        proof {
                            lemma_refusal_persists(*self, outcomes@, i + 1, 6);
                        }
                        return Err(string_from_chars(&message));
                    },
                    Ok(facts) => {
                        if !facts.has_modifiers {
                            let mut message: Vec<char> = Vec::new();
                            push_str(&mut message, label);
                            push_str(&mut message, "快捷键必须包含至少一个修饰键");
                            proof {
                                lemma_refusal_persists(*self, outcomes@, i + 1, 6);
                            }
                            return Err(string_from_chars(&message));
                        }
                        let mut j: usize = 0;
                        while j < ids.len()
                            invariant
                                j <= ids@.len(),
                                forall|k: int| 0 <= k < j ==> ids@[k] != facts.id,
                                ids@ == accepted_ids(done@),
                                i < 6,
                                done@.len() == i,
                                shortcuts_outcome(*self, outcomes@, i as int) == Ok::<
                                    Seq<Option<ShortcutFacts>>,
                                    Seq<char>,
                                >(done@),
                                outcomes@[i as int] == Ok::<ShortcutFacts, String>(*facts),
                                facts.has_modifiers,
                                !(i >= 3 && trim_spec(shortcut_value(*self, i as int)).len() == 0),
                            decreases ids@.len() - j,
                        {
                            if ids[j] == facts.id {
                                assert(ids@[j as int] == facts.id);
                                assert(accepted_ids(done@).contains(facts.id));
                                proof {
                                    lemma_refusal_persists(*self, outcomes@, i + 1, 6);
                                }
                                return Err(string_from_chars(&chars_of("全局快捷键不能重复")));
                            }
                            j = j + 1;
                        }
                        assert(!ids@.contains(facts.id));
                        let ghost before = done@;
                        done.push(Some(*facts));
                        ids.push(facts.id);
                        assert(done@.drop_last() == before);
                    },
                }
            }
            i = i + 1;
        }
        let ghost all = done@;
        let required = match (done[0], done[1], done[2]) {
            (Some(a), Some(b), Some(c)) => [a, b, c],
            _ => {
                assert(false);
                return Err(string_from_chars(&chars_of("全局快捷键配置不完整")));
            },
        };
        let optional = [done[3], done[4], done[5]];
        assert(forall|i: int| 0 <= i < 3 ==> Some(#[trigger] required@[i]) == all[i]);
        Ok((required, optional))
    }
}

} // verus!
