use vuho_ui::domain::{DictationEvent, ErrorKind, ModelStatus};
use vuho_ui::readiness::{
    accessibility_access, format_mb, input_monitoring_to_access, mic_access, mic_startup,
    missing_permissions, model_status_text, Access, InputMonitoringAccess, LiveAccess,
    MicAuthStatus, MicStartup, Permission,
};

fn every_live_access() -> Vec<LiveAccess> {
    let mut all = Vec::new();
    for accessibility_trusted in [false, true] {
        for input_monitoring in [
            InputMonitoringAccess::Granted,
            InputMonitoringAccess::Unknown,
            InputMonitoringAccess::Denied,
        ] {
            for microphone in [
                MicAuthStatus::Authorized,
                MicAuthStatus::NotDetermined,
                MicAuthStatus::Denied,
                MicAuthStatus::Restricted,
            ] {
                all.push(LiveAccess {
                    accessibility_trusted,
                    input_monitoring,
                    microphone,
                });
            }
        }
    }
    all
}

#[test]
fn permission_all_covers_every_variant() {
    assert_eq!(Permission::ALL.len(), 3);
    assert!(Permission::ALL.contains(&Permission::Accessibility));
    assert!(Permission::ALL.contains(&Permission::InputMonitoring));
    assert!(Permission::ALL.contains(&Permission::Microphone));
}

#[test]
fn permission_labels_are_distinct_and_nonempty() {
    let labels: Vec<&str> = Permission::ALL.iter().map(|p| p.label()).collect();
    for label in &labels {
        assert!(!label.is_empty());
    }
    let mut unique = labels.clone();
    unique.sort_unstable();
    unique.dedup();
    assert_eq!(
        unique.len(),
        labels.len(),
        "labels must be distinct: {labels:?}"
    );
}

#[test]
fn permission_descriptions_are_nonempty() {
    for permission in Permission::ALL {
        assert!(!permission.description().is_empty());
    }
}

#[test]
fn missing_permissions_does_not_panic() {
    for live in every_live_access() {
        let _ = missing_permissions(&live);
    }
}

#[test]
fn mic_access_covers_every_source_variant() {
    assert_eq!(mic_access(MicAuthStatus::Authorized), Access::Granted);
    assert_eq!(mic_access(MicAuthStatus::NotDetermined), Access::Promptable);
    assert_eq!(mic_access(MicAuthStatus::Denied), Access::Denied);
    assert_eq!(mic_access(MicAuthStatus::Restricted), Access::Denied);
}

#[test]
fn input_monitoring_to_access_covers_every_source_variant() {
    assert_eq!(
        input_monitoring_to_access(InputMonitoringAccess::Granted),
        Access::Granted
    );
    assert_eq!(
        input_monitoring_to_access(InputMonitoringAccess::Unknown),
        Access::Promptable
    );
    assert_eq!(
        input_monitoring_to_access(InputMonitoringAccess::Denied),
        Access::Denied
    );
}

#[test]
fn accessibility_access_covers_every_source_variant() {
    assert_eq!(accessibility_access(true), Access::Granted);
    assert_eq!(accessibility_access(false), Access::Promptable);
}

#[test]
fn settings_urls_are_distinct_deep_links() {
    let urls: Vec<&str> = Permission::ALL.iter().map(|p| p.settings_url()).collect();
    for url in &urls {
        assert!(
            url.starts_with("x-apple.systempreferences:"),
            "not a deep-link: {url}"
        );
    }
    let mut unique = urls.clone();
    unique.sort_unstable();
    unique.dedup();
    assert_eq!(
        unique.len(),
        urls.len(),
        "settings URLs must be distinct: {urls:?}"
    );
}

#[test]
fn permission_access_does_not_panic() {
    for live in every_live_access() {
        for permission in Permission::ALL {
            let _ = permission.access(&live);
        }
    }
}

#[test]
fn format_mb_rounds_to_the_nearest_megabyte() {
    assert_eq!(format_mb(474_000_000), "474 MB");
    assert_eq!(format_mb(496_210_831), "496 MB");
    assert_eq!(format_mb(0), "0 MB");
}

#[test]
fn format_mb_rounds_halves_up_over_the_whole_range() {
    assert_eq!(format_mb(499_999), "0 MB");
    assert_eq!(format_mb(500_000), "1 MB");
    assert_eq!(format_mb(1_499_999), "1 MB");
    assert_eq!(format_mb(u64::MAX), "18446744073710 MB");
}

#[test]
fn missing_permissions_are_the_ungranted_ones_in_order() {
    let none = LiveAccess {
        accessibility_trusted: true,
        input_monitoring: InputMonitoringAccess::Granted,
        microphone: MicAuthStatus::Authorized,
    };
    assert_eq!(missing_permissions(&none), vec![]);
    let all = LiveAccess {
        accessibility_trusted: false,
        input_monitoring: InputMonitoringAccess::Denied,
        microphone: MicAuthStatus::NotDetermined,
    };
    assert_eq!(
        missing_permissions(&all),
        vec![
            (Permission::Accessibility, Access::Promptable),
            (Permission::InputMonitoring, Access::Denied),
            (Permission::Microphone, Access::Promptable),
        ]
    );
    let one = LiveAccess {
        microphone: MicAuthStatus::Restricted,
        ..none
    };
    assert_eq!(
        missing_permissions(&one),
        vec![(Permission::Microphone, Access::Denied)]
    );
}

#[test]
fn model_status_text_is_exact() {
    assert_eq!(
        model_status_text(&ModelStatus::Missing { total_bytes: 474_000_000 }),
        "474 MB · not yet downloaded"
    );
    assert_eq!(
        model_status_text(&ModelStatus::Downloading {
            received_bytes: 12_000_000,
            total_bytes: 474_000_000,
        }),
        "Downloading… 12 MB of 474 MB"
    );
    assert_eq!(model_status_text(&ModelStatus::Verifying), "Verifying…");
    assert_eq!(model_status_text(&ModelStatus::Ready), "Ready");
    assert_eq!(
        model_status_text(&ModelStatus::Failed { message: "boom".to_owned() }),
        "boom"
    );
}

#[test]
fn the_microphone_is_asked_for_or_reported_at_startup() {
    assert_eq!(mic_startup(MicAuthStatus::Authorized), MicStartup::Proceed);
    assert_eq!(mic_startup(MicAuthStatus::NotDetermined), MicStartup::Ask);
    for status in [MicAuthStatus::Denied, MicAuthStatus::Restricted] {
        assert_eq!(
            mic_startup(status),
            MicStartup::Report(DictationEvent::Error {
                message: "Microphone access denied. Grant it in System Settings → Privacy & \
                          Security → Microphone."
                    .to_owned(),
                recoverable: true,
                kind: ErrorKind::MicPermissionDenied,
            })
        );
    }
}
