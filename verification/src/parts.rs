//! The parts that the settings are put together from, top to bottom.

use vstd::prelude::*;

use crate::domain::{ProvisionCommand, ProvisionCommandView};
use crate::hotkey_presets::HotkeySetting;
use crate::readiness::Permission;
use crate::theme::Tone;

verus! {

/// The colour of a button.
#[derive(Debug, Clone, Copy, PartialEq, Eq, Structural)]
pub enum Fill {
    Accent,
    Confirm,
    Danger,
}

/// What a click does.
#[derive(Debug, PartialEq, Eq)]
pub enum Action {
    /// Send this to the provisioning loop.
    Provision(ProvisionCommand),
    /// Start the application again.
    Relaunch,
    /// Bring up the system's prompt for a permission.
    Request(Permission),
    /// Open System Settings where it shows a permission.
    OpenSystemSettings(Permission),
    ToggleModels,
    ToggleMicrophones,
    ToggleHotkeys,
    /// Choose a microphone; none stands for the system's default.
    ChooseMicrophone(Option<String>),
    ChooseHotkey(HotkeySetting),
    /// Choose a model.
    ChooseModel(String),
}

/// [`Action`] as a mathematical value.
#[verifier::ext_equal]
pub ghost enum ActionView {
    Provision(ProvisionCommandView),
    Relaunch,
    Request(Permission),
    OpenSystemSettings(Permission),
    ToggleModels,
    ToggleMicrophones,
    ToggleHotkeys,
    ChooseMicrophone(Option<Seq<char>>),
    ChooseHotkey(HotkeySetting),
    ChooseModel(Seq<char>),
}

impl View for Action {
    type V = ActionView;

    open spec fn view(&self) -> ActionView {
        match *self {
            Action::Provision(command) => ActionView::Provision(command@),
            Action::Relaunch => ActionView::Relaunch,
            Action::Request(permission) => ActionView::Request(permission),
            Action::OpenSystemSettings(permission) => ActionView::OpenSystemSettings(permission),
            Action::ToggleModels => ActionView::ToggleModels,
            Action::ToggleMicrophones => ActionView::ToggleMicrophones,
            Action::ToggleHotkeys => ActionView::ToggleHotkeys,
            Action::ChooseMicrophone(None) => ActionView::ChooseMicrophone(None),
            Action::ChooseMicrophone(Some(name)) => ActionView::ChooseMicrophone(Some(name@)),
            Action::ChooseHotkey(preset) => ActionView::ChooseHotkey(preset),
            Action::ChooseModel(id) => ActionView::ChooseModel(id@),
        }
    }
}

impl Clone for Action {
    fn clone(&self) -> (r: Self)
        ensures
            r == *self,
    {
        match self {
            Action::Provision(command) => Action::Provision(command.clone()),
            Action::Relaunch => Action::Relaunch,
            Action::Request(permission) => Action::Request(*permission),
            Action::OpenSystemSettings(permission) => Action::OpenSystemSettings(*permission),
            Action::ToggleModels => Action::ToggleModels,
            Action::ToggleMicrophones => Action::ToggleMicrophones,
            Action::ToggleHotkeys => Action::ToggleHotkeys,
            Action::ChooseMicrophone(name) => Action::ChooseMicrophone(name.clone()),
            Action::ChooseHotkey(preset) => Action::ChooseHotkey(*preset),
            Action::ChooseModel(id) => Action::ChooseModel(id.clone()),
        }
    }
}

/// One part of the settings.
#[derive(Debug, PartialEq, Eq)]
pub enum Part {
    /// The label of a section.
    Label(String),
    /// The name of what the following parts are about.
    Name(String),
    /// A line of small text.
    Line { text: String, tone: Tone },
    /// A button that cannot be clicked.
    Pill(String),
    Button { label: String, fill: Fill, action: Action },
    /// A bar that shows how many of the bytes have arrived.
    Progress { received_bytes: u64, total_bytes: u64 },
    /// A closed list that shows its current value.
    Dropdown { label: String, tone: Tone, action: Action },
    /// One entry of an open list.
    Choice { label: String, tone: Tone, action: Action },
    /// One entry of an open list that cannot be chosen.
    DisabledChoice(String),
}

/// [`Part`] as a mathematical value.
#[verifier::ext_equal]
pub ghost enum PartView {
    Label(Seq<char>),
    Name(Seq<char>),
    Line { text: Seq<char>, tone: Tone },
    Pill(Seq<char>),
    Button { label: Seq<char>, fill: Fill, action: ActionView },
    Progress { received_bytes: u64, total_bytes: u64 },
    Dropdown { label: Seq<char>, tone: Tone, action: ActionView },
    Choice { label: Seq<char>, tone: Tone, action: ActionView },
    DisabledChoice(Seq<char>),
}

impl View for Part {
    type V = PartView;

    open spec fn view(&self) -> PartView {
        match *self {
            Part::Label(text) => PartView::Label(text@),
            Part::Name(text) => PartView::Name(text@),
            Part::Line { text, tone } => PartView::Line { text: text@, tone },
            Part::Pill(text) => PartView::Pill(text@),
            Part::Button { label, fill, action } => PartView::Button {
                label: label@,
                fill,
                action: action@,
            },
            Part::Progress { received_bytes, total_bytes } => PartView::Progress {
                received_bytes,
                total_bytes,
            },
            Part::Dropdown { label, tone, action } => PartView::Dropdown {
                label: label@,
                tone,
                action: action@,
            },
            Part::Choice { label, tone, action } => PartView::Choice {
                label: label@,
                tone,
                action: action@,
            },
            Part::DisabledChoice(text) => PartView::DisabledChoice(text@),
        }
    }
}

/// Parts as a sequence of mathematical values.
pub open spec fn part_views(parts: Seq<Part>) -> Seq<PartView> {
    parts.map_values(|p: Part| p@)
}

/// Put one more part at the end.
pub fn push_part(parts: &mut Vec<Part>, part: Part)
    ensures
        part_views(final(parts)@) == part_views(old(parts)@).push(part@),
{
    parts.push(part);
}

/// Put more parts at the end.
pub fn push_parts(parts: &mut Vec<Part>, more: Vec<Part>)
    ensures
        part_views(final(parts)@) == part_views(old(parts)@) + part_views(more@),
{
    let mut more = more;
    parts.append(&mut more);
}

/// No parts.
pub fn no_parts() -> (r: Vec<Part>)
    ensures
        part_views(r@) == Seq::<PartView>::empty(),
{
    Vec::new()
}

/// A line of small text.
pub fn line(text: &str, tone: Tone) -> (r: Part)
    ensures
        r@ == (PartView::Line { text: text@, tone }),
{
    Part::Line { text: text.to_owned(), tone }
}

/// A button.
pub fn button(label: &str, fill: Fill, action: Action) -> (r: Part)
    ensures
        r@ == (PartView::Button { label: label@, fill, action: action@ }),
{
    Part::Button { label: label.to_owned(), fill, action }
}

/// The views of parts keep them one for one, in order.
pub proof fn views_of_parts_keep_their_order(parts: Seq<Part>, i: int)
    requires
        0 <= i < parts.len(),
    ensures
        part_views(parts).len() == parts.len(),
        part_views(parts)[i] == parts[i]@,
{
}

/// The view of a part keeps the words, the tone and the action.
pub proof fn views_of_parts_keep_everything(part: Part)
    ensures
        match part {
            Part::Label(text) => part@ == PartView::Label(text@),
            Part::Name(text) => part@ == PartView::Name(text@),
            Part::Line { text, tone } => part@ == (PartView::Line { text: text@, tone }),
            Part::Pill(text) => part@ == PartView::Pill(text@),
            Part::Button { label, fill, action } => part@ == (PartView::Button {
                label: label@,
                fill,
                action: action@,
            }),
            Part::Progress { received_bytes, total_bytes } => part@ == (PartView::Progress {
                received_bytes,
                total_bytes,
            }),
            Part::Dropdown { label, tone, action } => part@ == (PartView::Dropdown {
                label: label@,
                tone,
                action: action@,
            }),
            Part::Choice { label, tone, action } => part@ == (PartView::Choice {
                label: label@,
                tone,
                action: action@,
            }),
            Part::DisabledChoice(text) => part@ == PartView::DisabledChoice(text@),
        },
{
}

/// The view of an action keeps what it is about.
pub proof fn views_of_actions_keep_everything(action: Action)
    ensures
        match action {
            Action::Provision(command) => action@ == ActionView::Provision(command@),
            Action::Request(permission) => action@ == ActionView::Request(permission),
            Action::OpenSystemSettings(permission) => action@ == ActionView::OpenSystemSettings(
                permission,
            ),
            Action::ChooseMicrophone(Some(name)) => action@ == ActionView::ChooseMicrophone(
                Some(name@),
            ),
            Action::ChooseMicrophone(None) => action@ == ActionView::ChooseMicrophone(None),
            Action::ChooseHotkey(preset) => action@ == ActionView::ChooseHotkey(preset),
            Action::ChooseModel(id) => action@ == ActionView::ChooseModel(id@),
            Action::Relaunch => action@ is Relaunch,
            Action::ToggleModels => action@ is ToggleModels,
            Action::ToggleMicrophones => action@ is ToggleMicrophones,
            Action::ToggleHotkeys => action@ is ToggleHotkeys,
        },
{
}

} // verus!
