use vuho_ui::domain::{Backend, Manifest, ManifestModel};
use vuho_ui::languages::{languages_line, reachable_languages};
use vuho_ui::text::{
    decimal_text, holds_text, join2, join3, join_texts, same_text, sort_texts, sorts_before,
};

fn texts(all: &[&str]) -> Vec<String> {
    all.iter().map(|t| (*t).to_owned()).collect()
}

fn manifest() -> Manifest {
    let model = |id: &str, backend| ManifestModel {
        id: id.to_owned(),
        min_macos: "14.0".to_owned(),
        backend,
    };
    Manifest {
        default_model: "parakeet".to_owned(),
        models: vec![
            model("parakeet", Backend::ParakeetTdt),
            model("canary", Backend::CanaryAed),
        ],
    }
}

#[test]
fn a_canary_backed_model_lists_only_languages_the_os_can_also_report() {
    let mapped = texts(&["en", "de", "fr", "pl"]);
    let prompted = texts(&["fr", "en", "es"]);
    let manifest = manifest();
    for model in &manifest.models {
        let id = model.id.as_str();
        let codes = reachable_languages(id, &manifest, &mapped, &prompted);
        assert!(!codes.is_empty(), "{id} reaches no language at all");
        assert!(
            codes.iter().all(|code| mapped.contains(code)),
            "{id} claims a language the OS layer cannot report"
        );
    }
    assert_eq!(
        reachable_languages("canary", &manifest, &mapped, &prompted),
        texts(&["en", "fr"])
    );
    assert_eq!(
        reachable_languages("parakeet", &manifest, &mapped, &prompted),
        texts(&["de", "en", "fr", "pl"])
    );
    assert_eq!(
        reachable_languages("unknown", &manifest, &mapped, &prompted),
        texts(&["de", "en", "fr", "pl"])
    );
}

#[test]
fn the_languages_line_is_exact() {
    let mapped = texts(&["pl", "en"]);
    assert_eq!(
        languages_line("parakeet", &manifest(), &mapped, &vec![]),
        "Languages: en, pl"
    );
    assert_eq!(
        languages_line("canary", &manifest(), &mapped, &vec![]),
        "Languages: "
    );
}

#[test]
fn texts_sort_as_the_standard_library_sorts_them() {
    let all = ["b", "a", "", "ab", "aa", "z", "ä", "ł", "😀", "a", "\u{ffff}"];
    let mut expected = texts(&all);
    expected.sort_unstable();
    assert_eq!(sort_texts(&texts(&all)), expected);
    for a in all {
        for b in all {
            assert_eq!(sorts_before(a, b), a <= b, "{a:?} {b:?}");
        }
    }
}

#[test]
fn numbers_read_as_the_standard_library_writes_them() {
    for n in [0, 1, 9, 10, 11, 99, 100, 1_234_567_890, u64::MAX] {
        assert_eq!(decimal_text(n), n.to_string());
    }
}

#[test]
fn texts_are_compared_and_joined() {
    assert!(same_text("łódź", "łódź"));
    assert!(!same_text("a", "b"));
    assert_eq!(join2("a", "b"), "ab");
    assert_eq!(join3("a", "", "c"), "ac");
    assert_eq!(join_texts(&texts(&["a", "b", "c"]), ", "), "a, b, c");
    assert_eq!(join_texts(&vec![], ", "), "");
    assert!(holds_text(&texts(&["a", "b"]), "b"));
    assert!(!holds_text(&texts(&["a", "b"]), "c"));
}
