//! The permissions the application needs, how they stand, and how a model's
//! size and status read.

use vstd::prelude::*;
use vstd::string::StringExecFns;

use crate::domain::{
    DictationEvent, DictationEventView, ErrorKind, ModelStatus, ModelStatusView,
};
use crate::text::{decimal, decimal_text, join2, join3};

verus! {

/// Where System Settings lists the applications that may use the microphone.
pub const MICROPHONE_SETTINGS_URL: &'static str =
    "x-apple.systempreferences:com.apple.preference.security?Privacy_Microphone";

/// Where System Settings lists the applications that may control the computer.
pub const ACCESSIBILITY_SETTINGS_URL: &'static str =
    "x-apple.systempreferences:com.apple.preference.security?Privacy_Accessibility";

/// Where System Settings lists the applications that may watch the keyboard.
pub const INPUT_MONITORING_SETTINGS_URL: &'static str =
    "x-apple.systempreferences:com.apple.preference.security?Privacy_ListenEvent";

/// How the system answers for the microphone.
#[derive(Debug, Clone, Copy, PartialEq, Eq, Structural)]
pub enum MicAuthStatus {
    Authorized,
    NotDetermined,
    Denied,
    Restricted,
}

/// How the system answers for input monitoring.
#[derive(Debug, Clone, Copy, PartialEq, Eq, Structural)]
pub enum InputMonitoringAccess {
    Granted,
    Unknown,
    Denied,
}

/// How one permission stands. `Promptable` means that the system's own prompt
/// still works; after `Denied` only System Settings helps.
#[derive(Debug, Clone, Copy, PartialEq, Eq, Structural)]
pub enum Access {
    Granted,
    Promptable,
    Denied,
}

/// How the microphone stands.
pub open spec fn mic_access_of(status: MicAuthStatus) -> Access {
    match status {
        MicAuthStatus::Authorized => Access::Granted,
        MicAuthStatus::NotDetermined => Access::Promptable,
        MicAuthStatus::Denied => Access::Denied,
        MicAuthStatus::Restricted => Access::Denied,
    }
}

/// How the microphone stands.
pub fn mic_access(status: MicAuthStatus) -> (r: Access)
    ensures
        r == mic_access_of(status),
{
    match status {
        MicAuthStatus::Authorized => Access::Granted,
        MicAuthStatus::NotDetermined => Access::Promptable,
        MicAuthStatus::Denied => Access::Denied,
        MicAuthStatus::Restricted => Access::Denied,
    }
}

/// How input monitoring stands.
pub open spec fn input_monitoring_access_of(access: InputMonitoringAccess) -> Access {
    match access {
        InputMonitoringAccess::Granted => Access::Granted,
        InputMonitoringAccess::Unknown => Access::Promptable,
        InputMonitoringAccess::Denied => Access::Denied,
    }
}

/// How input monitoring stands.
pub fn input_monitoring_to_access(access: InputMonitoringAccess) -> (r: Access)
    ensures
        r == input_monitoring_access_of(access),
{
    match access {
        InputMonitoringAccess::Granted => Access::Granted,
        InputMonitoringAccess::Unknown => Access::Promptable,
        InputMonitoringAccess::Denied => Access::Denied,
    }
}

/// How accessibility stands. The system gives a yes or a no, so a refusal cannot
/// be told from a question that was never asked.
pub fn accessibility_access(trusted: bool) -> (r: Access)
    ensures
        r == if trusted {
            Access::Granted
        } else {
            Access::Promptable
        },
{
    if trusted {
        Access::Granted
    } else {
        Access::Promptable
    }
}

/// What the system says of every permission, all read at one time.
#[derive(Debug, Clone, Copy, PartialEq, Eq, Structural)]
pub struct LiveAccess {
    pub accessibility_trusted: bool,
    pub input_monitoring: InputMonitoringAccess,
    pub microphone: MicAuthStatus,
}

/// A permission that the application needs.
#[derive(Debug, Clone, Copy, PartialEq, Eq, Structural)]
pub enum Permission {
    Accessibility,
    InputMonitoring,
    Microphone,
}

/// Every permission, in the order in which they are shown.
pub open spec fn all_permissions() -> Seq<Permission> {
    seq![Permission::Accessibility, Permission::InputMonitoring, Permission::Microphone]
}

/// How a permission stands.
pub open spec fn access_of(permission: Permission, live: LiveAccess) -> Access {
    match permission {
        Permission::Accessibility => if live.accessibility_trusted {
            Access::Granted
        } else {
            Access::Promptable
        },
        Permission::InputMonitoring => input_monitoring_access_of(live.input_monitoring),
        Permission::Microphone => mic_access_of(live.microphone),
    }
}

/// The words for a permission.
pub open spec fn label_of(permission: Permission) -> Seq<char> {
    match permission {
        Permission::Accessibility => "Accessibility"@,
        Permission::InputMonitoring => "Input Monitoring"@,
        Permission::Microphone => "Microphone"@,
    }
}

/// What a permission is for.
pub open spec fn description_of(permission: Permission) -> Seq<char> {
    match permission {
        Permission::Accessibility => "Lets Vuho listen for the global CapsLock dictation hotkey."@,
        Permission::InputMonitoring => {
            "Also required by the hotkey listener to receive keyboard events."@
        },
        Permission::Microphone => "Lets Vuho capture your voice to transcribe."@,
    }
}

/// Where System Settings shows a permission.
pub open spec fn settings_url_of(permission: Permission) -> Seq<char> {
    match permission {
        Permission::Accessibility => {
            "x-apple.systempreferences:com.apple.preference.security?Privacy_Accessibility"@
        },
        Permission::InputMonitoring => {
            "x-apple.systempreferences:com.apple.preference.security?Privacy_ListenEvent"@
        },
        Permission::Microphone => {
            "x-apple.systempreferences:com.apple.preference.security?Privacy_Microphone"@
        },
    }
}

impl Permission {
    /// Every permission, in the order in which they are shown.
    pub const ALL: [Permission; 3] = [
        Permission::Accessibility,
        Permission::InputMonitoring,
        Permission::Microphone,
    ];

    /// How this permission stands.
    pub fn access(self, live: &LiveAccess) -> (r: Access)
        ensures
            r == access_of(self, *live),
    {
        match self {
            Permission::Accessibility => accessibility_access(live.accessibility_trusted),
            Permission::InputMonitoring => input_monitoring_to_access(live.input_monitoring),
            Permission::Microphone => mic_access(live.microphone),
        }
    }

    /// Where System Settings shows this permission.
    pub fn settings_url(self) -> (r: &'static str)
        ensures
            r@ == settings_url_of(self),
    {
        match self {
            Permission::Accessibility => ACCESSIBILITY_SETTINGS_URL,
            Permission::InputMonitoring => INPUT_MONITORING_SETTINGS_URL,
            Permission::Microphone => MICROPHONE_SETTINGS_URL,
        }
    }

    /// The words for this permission.
    pub fn label(self) -> (r: &'static str)
        ensures
            r@ == label_of(self),
    {
        match self {
            Permission::Accessibility => "Accessibility",
            Permission::InputMonitoring => "Input Monitoring",
            Permission::Microphone => "Microphone",
        }
    }

    /// What this permission is for.
    pub fn description(self) -> (r: &'static str)
        ensures
            r@ == description_of(self),
    {
        match self {
            Permission::Accessibility => "Lets Vuho listen for the global CapsLock dictation hotkey.",
            Permission::InputMonitoring => {
                "Also required by the hotkey listener to receive keyboard events."
            },
            Permission::Microphone => "Lets Vuho capture your voice to transcribe.",
        }
    }
}

/// The permissions of a list that are missing, each with how it stands.
pub open spec fn missing_among(permissions: Seq<Permission>, live: LiveAccess) -> Seq<
    (Permission, Access),
>
    decreases permissions.len(),
{
    if permissions.len() == 0 {
        Seq::empty()
    } else {
        let earlier = missing_among(permissions.drop_last(), live);
        let permission = permissions.last();
        let access = access_of(permission, live);
        if access == Access::Granted {
            earlier
        } else {
            earlier.push((permission, access))
        }
    }
}

/// Every permission that is missing, in the order in which they are shown, each
/// with how it stands.
pub fn missing_permissions(live: &LiveAccess) -> (r: Vec<(Permission, Access)>)
    ensures
        r@ == missing_among(all_permissions(), *live),
{
    let all = Permission::ALL;
    let mut missing: Vec<(Permission, Access)> = Vec::new();
    let mut i: usize = 0;
    while i < 3
        invariant
            i <= 3,
            all@ == all_permissions(),
            missing@ == missing_among(all@.take(i as int), *live),
        decreases 3 - i,
    {
        assert(all@.take(i + 1).drop_last() =~= all@.take(i as int));
        let permission = all[i];
        let access = permission.access(live);
        if access != Access::Granted {
            missing.push((permission, access));
        }
        i = i + 1;
    }
    assert(all@.take(3) =~= all@);
    missing
}

/// A permission is on the list of missing ones exactly if it is not granted, and
/// the list says how it stands.
pub proof fn missing_are_exactly_the_ungranted(permission: Permission, live: LiveAccess)
    ensures
        forall|access: Access|
            missing_among(all_permissions(), live).contains((permission, access)) <==> (access
                == access_of(permission, live) && access != Access::Granted),
        missing_among(all_permissions(), live).len() <= 3,
{
    let all = all_permissions();
    let two = all.drop_last();
    let one = two.drop_last();
    reveal_with_fuel(missing_among, 4);
    let empty = Seq::<(Permission, Access)>::empty();
    let first = missing_among(one, live);
    let second = missing_among(two, live);
    let third = missing_among(all, live);
    assert forall|access: Access|
        third.contains((permission, access)) <==> (access == access_of(permission, live) && access
            != Access::Granted) by {
        let wanted = (permission, access);
        vstd::seq_lib::lemma_seq_contains_after_push(
            empty,
            (Permission::Accessibility, access_of(Permission::Accessibility, live)),
            wanted,
        );
        vstd::seq_lib::lemma_seq_contains_after_push(
            first,
            (Permission::InputMonitoring, access_of(Permission::InputMonitoring, live)),
            wanted,
        );
        vstd::seq_lib::lemma_seq_contains_after_push(
            second,
            (Permission::Microphone, access_of(Permission::Microphone, live)),
            wanted,
        );
    }
}

/// Bytes in a megabyte.
pub const BYTES_PER_MB: u64 = 1_000_000;

/// A number of bytes in whole megabytes, to the nearest one, halves up.
pub open spec fn mb_text(bytes: u64) -> Seq<char> {
    decimal(((bytes + 500_000) / 1_000_000) as nat) + " MB"@
}

/// A number of bytes in whole megabytes, to the nearest one.
pub fn format_mb(bytes: u64) -> (r: String)
    ensures
        r@ == mb_text(bytes),
{
    let whole: u64 = bytes / BYTES_PER_MB;
    let rounded: u64 = if bytes % BYTES_PER_MB >= 500_000 {
        whole + 1
    } else {
        whole
    };
    join2(decimal_text(rounded).as_str(), " MB")
}

/// The line under a model's name.
pub open spec fn status_line(status: ModelStatusView) -> Seq<char> {
    match status {
        ModelStatusView::Missing { total_bytes } => mb_text(total_bytes) + " · not yet downloaded"@,
        ModelStatusView::Downloading { received_bytes, total_bytes } => "Downloading… "@ + mb_text(
            received_bytes,
        ) + " of "@ + mb_text(total_bytes),
        ModelStatusView::Verifying => "Verifying…"@,
        ModelStatusView::Ready => "Ready"@,
        ModelStatusView::Failed { message } => message,
    }
}

/// The line under a model's name.
pub fn model_status_text(status: &ModelStatus) -> (r: String)
    ensures
        r@ == status_line(status@),
{
    match status {
        ModelStatus::Missing { total_bytes } => join2(
            format_mb(*total_bytes).as_str(),
            " · not yet downloaded",
        ),
        ModelStatus::Downloading { received_bytes, total_bytes } => {
            let mut text = join3("Downloading… ", format_mb(*received_bytes).as_str(), " of ");
            text.append(format_mb(*total_bytes).as_str());
            text
        },
        ModelStatus::Verifying => "Verifying…".to_owned(),
        ModelStatus::Ready => "Ready".to_owned(),
        ModelStatus::Failed { message } => message.clone(),
    }
}

/// No two permissions are worded alike, and none is without words.
pub proof fn labels_tell_permissions_apart(a: Permission, b: Permission)
    ensures
        label_of(a) == label_of(b) ==> a == b,
        label_of(a).len() > 0,
        description_of(a).len() > 0,
{
    reveal_strlit("Accessibility");
    reveal_strlit("Input Monitoring");
    reveal_strlit("Microphone");
    reveal_strlit("Lets Vuho listen for the global CapsLock dictation hotkey.");
    reveal_strlit("Also required by the hotkey listener to receive keyboard events.");
    reveal_strlit("Lets Vuho capture your voice to transcribe.");
    assert(label_of(Permission::Accessibility)[0] == 'A');
    assert(label_of(Permission::InputMonitoring)[0] == 'I');
}

/// No two permissions lead to the same place in System Settings, and each leads
/// to a place there.
pub proof fn settings_urls_tell_permissions_apart(a: Permission, b: Permission)
    ensures
        settings_url_of(a) == settings_url_of(b) ==> a == b,
        "x-apple.systempreferences:"@.is_prefix_of(settings_url_of(a)),
{
    reveal_strlit("x-apple.systempreferences:");
    reveal_strlit("x-apple.systempreferences:com.apple.preference.security?Privacy_Accessibility");
    reveal_strlit("x-apple.systempreferences:com.apple.preference.security?Privacy_ListenEvent");
    reveal_strlit("x-apple.systempreferences:com.apple.preference.security?Privacy_Microphone");
}

/// What to do about the microphone when the application starts.
#[derive(Debug, PartialEq, Eq)]
pub enum MicStartup {
    /// Nothing: access is granted.
    Proceed,
    /// Bring up the system's prompt.
    Ask,
    /// Tell the user that access was refused.
    Report(DictationEvent),
}

/// What to do about the microphone when the application starts: ask where the
/// question is still open, and say so where the answer was no.
pub fn mic_startup(status: MicAuthStatus) -> (r: MicStartup)
    ensures
        starts_with(r, status),
        match mic_access_of(status) {
            Access::Granted => r is Proceed,
            Access::Promptable => r is Ask,
            Access::Denied => r matches MicStartup::Report(event) && event@
                == (DictationEventView::Error {
                message:
                    "Microphone access denied. Grant it in System Settings → Privacy & Security → Microphone."@,
                recoverable: true,
                kind: ErrorKind::MicPermissionDenied,
            }),
        },
{
    match mic_access(status) {
        Access::Granted => MicStartup::Proceed,
        Access::Promptable => MicStartup::Ask,
        Access::Denied => MicStartup::Report(
            DictationEvent::Error {
                message:
                    "Microphone access denied. Grant it in System Settings → Privacy & Security → Microphone.".to_owned(),
                recoverable: true,
                kind: ErrorKind::MicPermissionDenied,
            },
        ),
    }
}

/// Nothing is missing exactly if everything is granted.
pub proof fn nothing_is_missing_exactly_if_all_is_granted(live: LiveAccess)
    ensures
        missing_among(all_permissions(), live).len() == 0 <==> forall|p: Permission|
            #[trigger] access_of(p, live) == Access::Granted,
{
    let missing = missing_among(all_permissions(), live);
    if missing.len() == 0 {
        assert forall|p: Permission| #[trigger] access_of(p, live) == Access::Granted by {
            missing_are_exactly_the_ungranted(p, live);
            if access_of(p, live) != Access::Granted {
                assert(missing.contains((p, access_of(p, live))));
            }
        }
    } else {
        let (p, access) = missing[0];
        missing_are_exactly_the_ungranted(p, live);
        assert(missing.contains((p, access)));
    }
}

/// A permission is granted exactly if the system grants it; it can be asked for
/// exactly while the system has not made up its mind; and where the system said
/// no, only System Settings helps. A refusal of accessibility cannot be told from
/// a question never asked, so it can always be asked for.
pub proof fn access_is_what_the_system_says(live: LiveAccess)
    ensures
        access_of(Permission::Microphone, live) is Granted <==> live.microphone is Authorized,
        access_of(Permission::Microphone, live) is Promptable <==> live.microphone is NotDetermined,
        access_of(Permission::Microphone, live) is Denied <==> (live.microphone is Denied
            || live.microphone is Restricted),
        access_of(Permission::InputMonitoring, live) is Granted
            <==> live.input_monitoring is Granted,
        access_of(Permission::InputMonitoring, live) is Promptable
            <==> live.input_monitoring is Unknown,
        access_of(Permission::InputMonitoring, live) is Denied <==> live.input_monitoring is Denied,
        access_of(Permission::Accessibility, live) is Granted <==> live.accessibility_trusted,
        access_of(Permission::Accessibility, live) is Promptable <==> !live.accessibility_trusted,
        mic_access_of(live.microphone) == access_of(Permission::Microphone, live),
        input_monitoring_access_of(live.input_monitoring) == access_of(
            Permission::InputMonitoring,
            live,
        ),
{
}

/// The missing permissions are listed in the order in which they are shown, each
/// at most once: accessibility, input monitoring, the microphone.
pub proof fn missing_permissions_are_listed_in_order(live: LiveAccess, i: int, j: int)
    requires
        0 <= i < j < missing_among(all_permissions(), live).len(),
    ensures
        ({
            let missing = missing_among(all_permissions(), live);
            &&& !(missing[j].0 is Accessibility)
            &&& !(missing[i].0 is Microphone)
            &&& missing[i].0 != missing[j].0
        }),
{
    reveal_with_fuel(missing_among, 4);
}

/// Every permission is shown, each once.
pub proof fn every_permission_is_shown_once(permission: Permission)
    ensures
        all_permissions().contains(permission),
        all_permissions().no_duplicates(),
        all_permissions().len() == 3,
        all_permissions()[0] is Accessibility,
        all_permissions()[2] is Microphone,
{
    let all = all_permissions();
    assert(all[0] == Permission::Accessibility);
    assert(all[1] == Permission::InputMonitoring);
    assert(all[2] == Permission::Microphone);
}

/// Each permission goes by its own name, and leads to its own place in System
/// Settings.
pub proof fn permissions_go_by_their_own_names()
    ensures
        label_of(Permission::Accessibility) == "Accessibility"@,
        label_of(Permission::InputMonitoring) == "Input Monitoring"@,
        label_of(Permission::Microphone) == "Microphone"@,
        "Privacy_Accessibility"@.is_suffix_of(settings_url_of(Permission::Accessibility)),
        "Privacy_ListenEvent"@.is_suffix_of(settings_url_of(Permission::InputMonitoring)),
        "Privacy_Microphone"@.is_suffix_of(settings_url_of(Permission::Microphone)),
        description_of(Permission::Accessibility)
            == "Lets Vuho listen for the global CapsLock dictation hotkey."@,
        description_of(Permission::InputMonitoring)
            == "Also required by the hotkey listener to receive keyboard events."@,
        description_of(Permission::Microphone) == "Lets Vuho capture your voice to transcribe."@,
{
    reveal_strlit("Privacy_Accessibility");
    reveal_strlit("Privacy_ListenEvent");
    reveal_strlit("Privacy_Microphone");
    reveal_strlit("x-apple.systempreferences:com.apple.preference.security?Privacy_Accessibility");
    reveal_strlit("x-apple.systempreferences:com.apple.preference.security?Privacy_ListenEvent");
    reveal_strlit("x-apple.systempreferences:com.apple.preference.security?Privacy_Microphone");
}

/// A size reads as the whole number of megabytes that is nearest to it: it is off
/// by half a megabyte at most.
pub proof fn a_size_reads_as_the_nearest_megabyte(bytes: u64) -> (mb: nat)
    ensures
        mb_text(bytes) == decimal(mb) + " MB"@,
        mb * 1_000_000 - 500_000 <= bytes < mb * 1_000_000 + 500_000,
{
    ((bytes + 500_000) / 1_000_000) as nat
}

/// What stands under a model's name: how much there is to download, how much of
/// how much has arrived, that it is being checked, that it is ready, or what went
/// wrong, in its own words.
pub proof fn what_stands_under_a_model_s_name(received: u64, total: u64, message: Seq<char>)
    ensures
        status_line(ModelStatusView::Missing { total_bytes: total }) == mb_text(total)
            + " · not yet downloaded"@,
        status_line(
            ModelStatusView::Downloading { received_bytes: received, total_bytes: total },
        ) == "Downloading… "@ + mb_text(received) + " of "@ + mb_text(total),
        status_line(ModelStatusView::Verifying) == "Verifying…"@,
        status_line(ModelStatusView::Ready) == "Ready"@,
        status_line(ModelStatusView::Failed { message }) == message,
{
}

/// Whether `startup` is what is done about the microphone when the application
/// starts.
pub open spec fn starts_with(startup: MicStartup, status: MicAuthStatus) -> bool {
    match mic_access_of(status) {
        Access::Granted => startup is Proceed,
        Access::Promptable => startup is Ask,
        Access::Denied => startup matches MicStartup::Report(event) && event@ is Error
            && event@->kind == ErrorKind::MicPermissionDenied && event@->recoverable,
    }
}

/// At launch the user is asked for the microphone exactly while the question is
/// open, and told exactly where the answer was no, as an error that says so.
pub proof fn the_microphone_is_settled_at_launch(startup: MicStartup, status: MicAuthStatus)
    requires
        starts_with(startup, status),
    ensures
        startup is Proceed <==> status is Authorized,
        startup is Ask <==> status is NotDetermined,
        startup is Report <==> (status is Denied || status is Restricted),
        startup matches MicStartup::Report(event) ==> (
        event matches DictationEvent::Error { recoverable, kind, .. } && recoverable && kind
            == ErrorKind::MicPermissionDenied),
{
}

} // verus!
