//! The settings that local control may read and change.
use vstd::prelude::*;
use crate::local_control::protocol::{ControlError, ErrorCode};
use crate::text::concat;

verus! {

/// The setting keys local control exposes, in order.
pub open spec fn allowlisted_setting_keys() -> Seq<Seq<char>> {
    seq![
        "accessibility.accessibility_verbosity"@,
        "appearance.text.font_name"@,
        "appearance.text.font_size"@,
        "appearance.themes.dark_theme"@,
        "appearance.themes.light_theme"@,
        "appearance.themes.system_theme"@,
        "appearance.themes.theme"@,
        "appearance.window.zoom_level"@,
        "terminal.input.error_underlining_enabled"@,
        "terminal.input.syntax_highlighting"@,
    ]
}

fn allowlisted_keys() -> (keys: Vec<&'static str>)
    ensures
        keys@.map_values(|k: &'static str| k@) == allowlisted_setting_keys(),
{
    let mut keys: Vec<&'static str> = Vec::new();
    keys.push("accessibility.accessibility_verbosity");
    keys.push("appearance.text.font_name");
    keys.push("appearance.text.font_size");
    keys.push("appearance.themes.dark_theme");
    keys.push("appearance.themes.light_theme");
    keys.push("appearance.themes.system_theme");
    keys.push("appearance.themes.theme");
    keys.push("appearance.window.zoom_level");
    keys.push("terminal.input.error_underlining_enabled");
    keys.push("terminal.input.syntax_highlighting");
    assert(keys@.map_values(|k: &'static str| k@) =~= allowlisted_setting_keys());
    keys
}

/// Whether `s` starts with `prefix`.
fn starts_with(s: &str, prefix: &str) -> (starts: bool)
    ensures
        starts == (prefix@.len() <= s@.len() && s@.take(prefix@.len() as int) == prefix@),
{
    let n = prefix.unicode_len();
    if n > s.unicode_len() {
        return false;
    }
    let mut i: usize = 0;
    while i < n
        invariant
            n == prefix@.len(),
            n <= s@.len(),
            i <= n,
            forall|k: int| 0 <= k < i ==> s@[k] == prefix@[k],
        decreases n - i,
    {
        if s.get_char(i) != prefix.get_char(i) {
            assert(s@.take(n as int)[i as int] != prefix@[i as int]);
            return false;
        }
        i = i + 1;
    }
    assert(s@.take(n as int) =~= prefix@);
    true
}

/// The allowlisted keys under a namespace (all of them without one), in order.
pub open spec fn keys_in_namespace(keys: Seq<Seq<char>>, namespace: Option<Seq<char>>) -> Seq<Seq<char>>
    decreases keys.len(),
{
    if keys.len() == 0 {
        Seq::empty()
    } else {
        let rest = keys_in_namespace(keys.drop_last(), namespace);
        let k = keys.last();
        let keep = match namespace {
            Some(ns) => ns.len() <= k.len() && k.take(ns.len() as int) == ns,
            None => true,
        };
        if keep { rest.push(k) } else { rest }
    }
}

/// The keys `setting.list` lists: the allowlisted keys that start with the
/// namespace, when one is given.
pub fn setting_keys_in_namespace(namespace: Option<&str>) -> (keys: Vec<&'static str>)
    ensures
        keys@.map_values(|k: &'static str| k@) == keys_in_namespace(
            allowlisted_setting_keys(),
            match namespace { Some(ns) => Some(ns@), None => None },
        ),
{
    let all = allowlisted_keys();
    let ghost ns = match namespace { Some(ns) => Some(ns@), None => None::<Seq<char>> };
    let ghost views = all@.map_values(|k: &'static str| k@);
    let mut keys: Vec<&'static str> = Vec::new();
    let n = all.len();
    let mut i: usize = 0;
    while i < n
        invariant
            n == all@.len(),
            views == all@.map_values(|k: &'static str| k@),
            ns == (match namespace { Some(ns) => Some(ns@), None => None::<Seq<char>> }),
            i <= n,
            keys@.map_values(|k: &'static str| k@) == keys_in_namespace(views.take(i as int), ns),
        decreases n - i,
    {
        assert(views.take(i + 1).drop_last() =~= views.take(i as int));
        assert(views.take(i + 1).last() == all@[i as int]@);
        let keep = match namespace {
            Some(prefix) => starts_with(all[i], prefix),
            None => true,
        };
        let ghost before = keys@.map_values(|k: &'static str| k@);
        if keep {
            keys.push(all[i]);
            assert(keys@.map_values(|k: &'static str| k@) =~= before.push(all@[i as int]@));
        }
        i = i + 1;
    }
    assert(views.take(n as int) =~= views);
    keys
}

/// Whether local control may read or change the setting `key`.
pub fn is_allowlisted_setting_key(key: &str) -> (allowed: bool)
    ensures
        allowed == allowlisted_setting_keys().contains(key@),
{
    let all = allowlisted_keys();
    let ghost views = all@.map_values(|k: &'static str| k@);
    let n = all.len();
    let mut i: usize = 0;
    while i < n
        invariant
            n == all@.len(),
            views == all@.map_values(|k: &'static str| k@),
            views == allowlisted_setting_keys(),
            i <= n,
            forall|k: int| 0 <= k < i ==> views[k] != key@,
        decreases n - i,
    {
        if crate::json::str_eq(all[i], key) {
            assert(views[i as int] == key@);
            return true;
        }
        i = i + 1;
    }
    false
}

/// The refusal of a setting key outside the allowlist.
pub fn rejected_setting_key(key: &str) -> (error: ControlError)
    ensures
        error.code == ErrorCode::NotAllowlisted,
        error.message@ == key@ + " is not an allowlisted local-control setting"@,
{
    ControlError::new(ErrorCode::NotAllowlisted, concat(key, " is not an allowlisted local-control setting"))
}

} // verus!
