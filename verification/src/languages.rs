//! The languages that a model can be dictated to in.

use vstd::prelude::*;

use crate::domain::{model_position_is_first, Backend, Manifest};
use crate::provisioning::engine_backend;
use crate::text::{
    holds_text, join2, join_texts, joined, sort_texts, sorted_texts, text_le, text_order,
    text_order_is_total, text_views, texts_in_order_are_the_same_texts,
};

verus! {

/// The languages that a model reaches: those that the system can report, and of
/// these, for an engine that takes the language as a prompt, those it knows.
pub open spec fn reached_by(
    backend: Option<Backend>,
    mapped: Seq<Seq<char>>,
    prompted: Seq<Seq<char>>,
) -> Seq<Seq<char>> {
    if backend == Some(Backend::CanaryAed) {
        prompted.filter(|code: Seq<char>| mapped.contains(code))
    } else {
        mapped
    }
}

/// The backend that the manifest gives for a model.
pub open spec fn backend_of(manifest: Manifest, id: Seq<char>) -> Option<Backend> {
    match manifest.spec_model(id) {
        Some(model) => Some(model.backend),
        None => None,
    }
}

/// The languages of `codes` that `mapped` has as well, in the order of `codes`.
fn shared_codes(codes: &Vec<String>, mapped: &Vec<String>) -> (r: Vec<String>)
    ensures
        text_views(r@) == text_views(codes@).filter(
            |code: Seq<char>| text_views(mapped@).contains(code),
        ),
{
    let ghost all = text_views(codes@);
    let ghost shared = |code: Seq<char>| text_views(mapped@).contains(code);
    let mut kept: Vec<String> = Vec::new();
    let mut i: usize = 0;
    proof {
        reveal(Seq::filter);
    }
    while i < codes.len()
        invariant
            i <= codes@.len(),
            all == text_views(codes@),
            shared == (|code: Seq<char>| text_views(mapped@).contains(code)),
            text_views(kept@) == all.take(i as int).filter(shared),
        decreases codes@.len() - i,
    {
        let code = codes[i].clone();
        proof {
            assert(all.take(i + 1) =~= all.take(i as int).push(code@));
            all.take(i as int).lemma_filter_push(code@, shared);
        }
        if holds_text(mapped, code.as_str()) {
            kept.push(code);
        }
        i = i + 1;
    }
    assert(all.take(all.len() as int) =~= all);
    kept
}

/// The languages that a model reaches, in order. `mapped` are those that the
/// system can report, `prompted` those that an engine that takes the language as
/// a prompt knows.
pub fn reachable_languages(
    id: &str,
    manifest: &Manifest,
    mapped: &Vec<String>,
    prompted: &Vec<String>,
) -> (r: Vec<String>)
    ensures
        text_views(r@) == sorted_texts(
            reached_by(backend_of(*manifest, id@), text_views(mapped@), text_views(prompted@)),
        ),
{
    match engine_backend(manifest, id) {
        Some(Backend::CanaryAed) => sort_texts(&shared_codes(prompted, mapped)),
        _ => sort_texts(mapped),
    }
}

/// The line that lists the languages of a model.
pub open spec fn languages_text(
    backend: Option<Backend>,
    mapped: Seq<Seq<char>>,
    prompted: Seq<Seq<char>>,
) -> Seq<char> {
    "Languages: "@ + joined(sorted_texts(reached_by(backend, mapped, prompted)), ", "@)
}

/// The line that lists the languages of a model.
pub fn languages_line(
    id: &str,
    manifest: &Manifest,
    mapped: &Vec<String>,
    prompted: &Vec<String>,
) -> (r: String)
    ensures
        r@ == languages_text(
            backend_of(*manifest, id@),
            text_views(mapped@),
            text_views(prompted@),
        ),
{
    let codes = reachable_languages(id, manifest, mapped, prompted);
    join2("Languages: ", join_texts(&codes, ", ").as_str())
}

/// No model claims a language that the system cannot report.
pub proof fn every_language_can_be_reported(
    backend: Option<Backend>,
    mapped: Seq<Seq<char>>,
    prompted: Seq<Seq<char>>,
    code: Seq<char>,
)
    requires
        sorted_texts(reached_by(backend, mapped, prompted)).contains(code),
    ensures
        mapped.contains(code),
{
    let reached = reached_by(backend, mapped, prompted);
    text_order_is_total();
    reached.lemma_sort_by_ensures(text_order());
    if backend == Some(Backend::CanaryAed) {
        let shared = |c: Seq<char>| mapped.contains(c);
        let i = choose|i: int| 0 <= i < reached.len() && reached[i] == code;
        prompted.lemma_filter_pred(shared, i);
    }
}

/// A model's languages are exactly those that the system can report, and, for an
/// engine that takes the language as a prompt, only those of them that it knows.
pub proof fn a_model_s_languages_are_those_it_can_take(
    backend: Option<Backend>,
    mapped: Seq<Seq<char>>,
    prompted: Seq<Seq<char>>,
    code: Seq<char>,
)
    ensures
        sorted_texts(reached_by(backend, mapped, prompted)).contains(code) <==> (mapped.contains(
            code,
        ) && (backend == Some(Backend::CanaryAed) ==> prompted.contains(code))),
{
    let reached = reached_by(backend, mapped, prompted);
    texts_in_order_are_the_same_texts(reached);
    if backend == Some(Backend::CanaryAed) {
        let shared = |c: Seq<char>| mapped.contains(c);
        if reached.contains(code) {
            let i = choose|i: int| 0 <= i < reached.len() && reached[i] == code;
            prompted.lemma_filter_pred(shared, i);
            prompted.lemma_filter_contains_rev(shared, code);
        }
        if mapped.contains(code) && prompted.contains(code) {
            let i = choose|i: int| 0 <= i < prompted.len() && prompted[i] == code;
            prompted.lemma_filter_contains(shared, i);
        }
    }
}

/// The line of languages lists them in order, each once where it is known once.
pub proof fn the_languages_are_listed_in_order(
    backend: Option<Backend>,
    mapped: Seq<Seq<char>>,
    prompted: Seq<Seq<char>>,
    i: int,
    j: int,
)
    requires
        0 <= i < j < sorted_texts(reached_by(backend, mapped, prompted)).len(),
    ensures
        ({
            let codes = sorted_texts(reached_by(backend, mapped, prompted));
            &&& text_le(codes[i], codes[j])
            &&& languages_text(backend, mapped, prompted) == "Languages: "@ + joined(codes, ", "@)
        }),
{
    texts_in_order_are_the_same_texts(reached_by(backend, mapped, prompted));
}

/// A model runs on the engine that the manifest's first entry for it names, and a
/// model without an entry on none.
pub proof fn the_first_entry_names_the_engine(manifest: Manifest, id: Seq<char>, i: int)
    ensures
        0 <= i < manifest.models@.len() && manifest.models@[i].id@ == id && (forall|j: int|
            0 <= j < i ==> (#[trigger] manifest.models@[j]).id@ != id) ==> backend_of(manifest, id)
            == Some(manifest.models@[i].backend),
        (forall|j: int|
            0 <= j < manifest.models@.len() ==> (#[trigger] manifest.models@[j]).id@ != id)
            ==> backend_of(manifest, id) is None,
{
    model_position_is_first(manifest.models@, id);
}

} // verus!
