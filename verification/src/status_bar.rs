//! The menu-bar item: its icon, its menu, and what a click on it means.

use vstd::prelude::*;

use crate::app_status::{can_toggle, menu_title_text, CompositeStatus};

verus! {

/// The icons of the menu-bar item.
#[derive(Debug, Clone, Copy, PartialEq, Eq, Structural)]
pub enum TrayIcon {
    /// Dictation can start.
    Idle,
    /// A session is live.
    Recording,
    /// Something needs attention before dictation can start.
    Maintenance,
}

/// The icon for a status.
pub open spec fn icon_of(status: CompositeStatus) -> TrayIcon {
    match status {
        CompositeStatus::Ready => TrayIcon::Idle,
        CompositeStatus::Recording => TrayIcon::Recording,
        _ => TrayIcon::Maintenance,
    }
}

/// The names of the symbols to try for an icon, best first.
pub open spec fn symbols_of(icon: TrayIcon) -> Seq<Seq<char>> {
    match icon {
        TrayIcon::Idle => seq!["waveform"@],
        TrayIcon::Recording => seq!["waveform.badge.mic"@, "record.circle"@, "waveform"@],
        TrayIcon::Maintenance => seq!["waveform.badge.exclamationmark"@, "exclamationmark.triangle"@],
    }
}

/// Names as a sequence of texts.
pub open spec fn name_views(names: Seq<&'static str>) -> Seq<Seq<char>> {
    names.map_values(|n: &'static str| n@)
}

impl TrayIcon {
    /// The icon for a status.
    pub fn from_composite(status: &CompositeStatus) -> (r: Self)
        ensures
            r == icon_of(*status),
    {
        match status {
            CompositeStatus::Ready => TrayIcon::Idle,
            CompositeStatus::Recording => TrayIcon::Recording,
            _ => TrayIcon::Maintenance,
        }
    }

    /// The names of the symbols to try for this icon, best first.
    pub fn symbol_names(self) -> (r: Vec<&'static str>)
        ensures
            name_views(r@) == symbols_of(self),
            r@.len() > 0,
    {
        let names = match self {
            TrayIcon::Idle => vec!["waveform"],
            TrayIcon::Recording => vec!["waveform.badge.mic", "record.circle", "waveform"],
            TrayIcon::Maintenance => {
                vec!["waveform.badge.exclamationmark", "exclamationmark.triangle"]
            },
        };
        names
    }
}

/// Which of the symbols that were tried, in order, is used: the first that the
/// system has.
pub open spec fn first_available(available: Seq<bool>) -> Option<int>
    decreases available.len(),
{
    if available.len() == 0 {
        None
    } else if available[0] {
        Some(0)
    } else {
        match first_available(available.drop_first()) {
            Some(i) => Some(i + 1),
            None => None,
        }
    }
}

/// Which of the symbols that were tried, in order, is used: the first that the
/// system has. Where it has none, the item shows a letter instead.
pub fn pick_symbol(available: &Vec<bool>) -> (r: Option<usize>)
    ensures
        match r {
            Some(i) => first_available(available@) == Some(i as int) && i < available@.len()
                && available@[i as int],
            None => first_available(available@) is None,
        },
{
    let mut i: usize = 0;
    assert(available@.skip(0) =~= available@);
    while i < available.len()
        invariant
            i <= available@.len(),
            first_available(available@) == match first_available(available@.skip(i as int)) {
                Some(k) => Some(k + i),
                None => None,
            },
        decreases available@.len() - i,
    {
        assert(available@.skip(i as int).drop_first() =~= available@.skip(i + 1));
        if available[i] {
            return Some(i);
        }
        i = i + 1;
    }
    None
}

/// What the menu bar is to show.
#[derive(Debug, PartialEq, Eq)]
pub struct TrayUpdate {
    pub title: String,
    pub enabled: bool,
    /// The icon to put up, where it is not up already.
    pub icon: Option<TrayIcon>,
}

/// The icon to put up for a status, where `shown` is not it already.
pub open spec fn icon_change(status: CompositeStatus, shown: Option<TrayIcon>) -> Option<TrayIcon> {
    if shown == Some(icon_of(status)) {
        None
    } else {
        Some(icon_of(status))
    }
}

/// What the menu bar is to show for a status, when it shows `shown` now.
pub fn sync(status: &CompositeStatus, shown: Option<TrayIcon>) -> (r: TrayUpdate)
    ensures
        r.title@ == menu_title_text(*status),
        r.enabled == can_toggle(*status),
        r.enabled == (*status is Recording || *status is Ready || *status is PermissionsMissing),
        r.icon == icon_change(*status, shown),
{
    let icon = TrayIcon::from_composite(status);
    let up = match shown {
        Some(current) => current == icon,
        None => false,
    };
    TrayUpdate {
        title: status.menu_title(),
        enabled: status.toggle_enabled(),
        icon: if up {
            None
        } else {
            Some(icon)
        },
    }
}

/// Whatever icon was up, the one that is up afterwards is the status's own.
pub proof fn the_icon_always_matches_the_status(status: CompositeStatus, shown: Option<TrayIcon>)
    ensures
        (match icon_change(status, shown) {
            Some(icon) => Some(icon),
            None => shown,
        }) == Some(icon_of(status)),
{
}

/// Every row of symbols ends in one that every supported system has, so that
/// there is always something to show.
pub proof fn every_icon_ends_in_a_known_symbol(icon: TrayIcon)
    ensures
        symbols_of(icon).last() == (if icon is Maintenance {
            "exclamationmark.triangle"@
        } else {
            "waveform"@
        }),
{
}

/// How the mouse button was released over the menu-bar item.
#[derive(Debug, Clone, Copy, PartialEq, Eq, Structural)]
pub enum Click {
    Left,
    Right,
    Other,
}

/// What a click on the menu-bar item means.
#[derive(Debug, Clone, Copy, PartialEq, Eq, Structural)]
pub enum ClickAction {
    PopMenu,
    OpenPanel,
}

/// What a click on the menu-bar item means: a right click, or a left one with
/// the control key held, brings up the menu; any other opens the panel.
pub fn click_action(click: Option<Click>, control: bool) -> (r: ClickAction)
    ensures
        r == click_means(click, control),
        r == if click == Some(Click::Right) || click == Some(Click::Left) && control {
            ClickAction::PopMenu
        } else {
            ClickAction::OpenPanel
        },
{
    match click {
        Some(Click::Right) => ClickAction::PopMenu,
        Some(Click::Left) => if control {
            ClickAction::PopMenu
        } else {
            ClickAction::OpenPanel
        },
        _ => ClickAction::OpenPanel,
    }
}

/// The icon says at a glance how things stand: idle exactly if dictation can
/// start, recording exactly while a session is live, and maintenance otherwise.
pub proof fn the_icon_says_how_things_stand(status: CompositeStatus)
    ensures
        icon_of(status) is Idle <==> status is Ready,
        icon_of(status) is Recording <==> status is Recording,
        icon_of(status) is Maintenance <==> !(status is Ready) && !(status is Recording),
{
}

/// An icon is put up exactly if it is not up already, and it is the status's own.
pub proof fn an_icon_is_put_up_only_where_it_is_new(
    status: CompositeStatus,
    shown: Option<TrayIcon>,
)
    ensures
        icon_change(status, shown) is None <==> shown == Some(icon_of(status)),
        icon_change(status, shown) matches Some(icon) ==> icon == icon_of(status),
{
}

/// The symbols of the three icons, best first.
pub proof fn the_symbols_of_the_icons()
    ensures
        symbols_of(TrayIcon::Idle).len() == 1,
        symbols_of(TrayIcon::Idle)[0] == "waveform"@,
        symbols_of(TrayIcon::Recording).len() == 3,
        symbols_of(TrayIcon::Recording)[0] == "waveform.badge.mic"@,
        symbols_of(TrayIcon::Recording)[1] == "record.circle"@,
        symbols_of(TrayIcon::Recording)[2] == "waveform"@,
        symbols_of(TrayIcon::Maintenance).len() == 2,
        symbols_of(TrayIcon::Maintenance)[0] == "waveform.badge.exclamationmark"@,
        symbols_of(TrayIcon::Maintenance)[1] == "exclamationmark.triangle"@,
{
}

/// The best symbol that the system has is used: it is there, none before it is,
/// and none is used only where the system has none.
pub proof fn the_best_symbol_at_hand_is_used(available: Seq<bool>)
    ensures
        first_available(available) matches Some(i) ==> 0 <= i < available.len() && available[i]
            && forall|j: int| 0 <= j < i ==> !(#[trigger] available[j]),
        first_available(available) is None ==> forall|j: int|
            0 <= j < available.len() ==> !(#[trigger] available[j]),
    decreases available.len(),
{
    if available.len() > 0 && !available[0] {
        let rest = available.drop_first();
        the_best_symbol_at_hand_is_used(rest);
        assert forall|j: int| 1 <= j < available.len() implies #[trigger] available[j] == rest[j
            - 1] by {}
    }
}

/// What a click on the menu-bar item means.
pub open spec fn click_means(click: Option<Click>, control: bool) -> ClickAction {
    if click == Some(Click::Right) || click == Some(Click::Left) && control {
        ClickAction::PopMenu
    } else {
        ClickAction::OpenPanel
    }
}

/// The control key turns a left click into a right one and changes no other; a
/// right click brings up the menu, and every other opens the panel.
pub proof fn control_makes_a_left_click_a_right_one(click: Option<Click>, control: bool)
    ensures
        click_means(Some(Click::Left), true) == click_means(Some(Click::Right), control),
        click_means(Some(Click::Right), control) is PopMenu,
        click_means(Some(Click::Left), false) is OpenPanel,
        click is None || click == Some(Click::Other) ==> click_means(click, control) is OpenPanel,
{
}

/// The views of names keep them one for one, in order.
pub proof fn views_of_names_keep_their_order(names: Seq<&'static str>, i: int)
    requires
        0 <= i < names.len(),
    ensures
        name_views(names).len() == names.len(),
        name_views(names)[i] == names[i]@,
{
}

} // verus!
