//! Which microphone is opened.

use vstd::prelude::*;

use crate::settings::AppSettings;
use crate::text::{optional_text, same};

verus! {

/// The name of the microphone that the settings ask for. The clamshell
/// microphone counts only when the lid is known to be closed.
pub open spec fn wanted_microphone(settings: AppSettings, clamshell: Option<bool>) -> Option<
    Seq<char>,
> {
    if clamshell == Some(true) && settings.clamshell_microphone is Some {
        optional_text(settings.clamshell_microphone)
    } else {
        optional_text(settings.selected_microphone)
    }
}

/// The name of the microphone that the settings ask for; `None` is the default
/// device. `clamshell` says whether the lid is closed, where that is known.
pub fn effective_microphone(settings: &AppSettings, clamshell: Option<bool>) -> (r: Option<String>)
    ensures
        optional_text(r) == wanted_microphone(*settings, clamshell),
{
    let closed = match clamshell {
        Some(closed) => closed,
        None => false,
    };
    if closed && settings.clamshell_microphone.is_some() {
        settings.clamshell_microphone.clone()
    } else {
        settings.selected_microphone.clone()
    }
}

/// The index of the first device with the given name, among those that could be
/// listed; `None` is the default device.
pub fn device_with_name(names: &Vec<String>, name: &str) -> (r: Option<usize>)
    ensures
        match r {
            Some(i) => i < names@.len() && names@[i as int]@ == name@ && forall|k: int|
                0 <= k < i ==> #[trigger] names@[k]@ != name@,
            None => forall|k: int| 0 <= k < names@.len() ==> #[trigger] names@[k]@ != name@,
        },
{
    let mut i: usize = 0;
    while i < names.len()
        invariant
            i <= names@.len(),
            forall|k: int| 0 <= k < i ==> #[trigger] names@[k]@ != name@,
        decreases names.len() - i,
    {
        if same(names[i].as_str(), name) {
            return Some(i);
        }
        i = i + 1;
    }
    None
}

/// With the lid closed the clamshell microphone is opened, if one is chosen; in
/// every other case the selected one, whatever the clamshell microphone is.
pub proof fn law_which_microphone_is_opened(settings: AppSettings, clamshell: Option<bool>)
    ensures
        clamshell == Some(true) ==> (settings.clamshell_microphone matches Some(name)
            ==> wanted_microphone(settings, clamshell) == Some(name@)),
        clamshell != Some(true) || settings.clamshell_microphone is None ==> wanted_microphone(
            settings,
            clamshell,
        ) == match settings.selected_microphone {
            Some(name) => Some(name@),
            None => None,
        },
{
}

} // verus!
