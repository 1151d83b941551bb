//! The icons that the application draws itself.

use vstd::prelude::*;

use crate::text::same_text;

verus! {

/// The path of the icon for dictation.
pub const WAVEFORM_ICON: &'static str = "icons/waveform.svg";

/// The path of the icon for the settings.
pub const GEAR_ICON: &'static str = "icons/gear.svg";

/// An icon that the application draws itself.
#[derive(Debug, Clone, Copy, PartialEq, Eq, Structural)]
pub enum Icon {
    Waveform,
    Gear,
}

/// The path of an icon.
pub open spec fn path_of(icon: Icon) -> Seq<char> {
    match icon {
        Icon::Waveform => "icons/waveform.svg"@,
        Icon::Gear => "icons/gear.svg"@,
    }
}

/// Which icon is found at a path, if any.
pub fn load(path: &str) -> (r: Option<Icon>)
    ensures
        match r {
            Some(icon) => path@ == path_of(icon),
            None => forall|icon: Icon| path@ != #[trigger] path_of(icon),
        },
{
    if same_text(path, WAVEFORM_ICON) {
        Some(Icon::Waveform)
    } else if same_text(path, GEAR_ICON) {
        Some(Icon::Gear)
    } else {
        None
    }
}

/// The paths of the icons in a directory.
pub fn list(path: &str) -> (r: Vec<&'static str>)
    ensures
        if path@ == "icons"@ {
            &&& r@.len() == 2
            &&& r@[0]@ == path_of(Icon::Waveform)
            &&& r@[1]@ == path_of(Icon::Gear)
        } else {
            r@.len() == 0
        },
{
    if same_text(path, "icons") {
        vec![WAVEFORM_ICON, GEAR_ICON]
    } else {
        Vec::new()
    }
}

/// The two icons lie at different paths.
pub proof fn icons_lie_apart(a: Icon, b: Icon)
    requires
        path_of(a) == path_of(b),
    ensures
        a == b,
{
    reveal_strlit("icons/waveform.svg");
    reveal_strlit("icons/gear.svg");
    assert(path_of(Icon::Waveform).len() != path_of(Icon::Gear).len());
}

/// Each icon lies in the icons' directory, under its own name.
pub proof fn icons_lie_under_their_names()
    ensures
        path_of(Icon::Waveform) == "icons/"@ + "waveform.svg"@,
        path_of(Icon::Gear) == "icons/"@ + "gear.svg"@,
{
    reveal_strlit("icons/");
    reveal_strlit("waveform.svg");
    reveal_strlit("gear.svg");
    reveal_strlit("icons/waveform.svg");
    reveal_strlit("icons/gear.svg");
    assert(path_of(Icon::Waveform) =~= "icons/"@ + "waveform.svg"@);
    assert(path_of(Icon::Gear) =~= "icons/"@ + "gear.svg"@);
}

} // verus!
