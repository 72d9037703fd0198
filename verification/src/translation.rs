//! Translation: a text goes in and its translation comes out, between the
//! languages that the pipeline was created for.

use crate::handle::{HandleTable, NULL_HANDLE};
use crate::text::{borrowed_text, cstr_to_string, export_first, first_exported, OwnedText};
use vstd::prelude::*;

verus! {

/// The box around a translation pipeline.
#[derive(Debug)]
pub struct TranslationModelWrapper<M> {
    pub model: M,
}

/// The languages that this layer names itself.
#[derive(Clone, Copy, Debug, PartialEq, Eq)]
pub enum Language {
    English,
    French,
}

/// The language that a pipeline translates from unless it is made otherwise.
pub open spec fn default_source() -> Language {
    Language::English
}

/// The language that a pipeline translates to unless it is made otherwise.
pub open spec fn default_target() -> Language {
    Language::French
}

/// The text returned for an outcome of the pipeline: the first translation,
/// or null where the pipeline failed, gave none, or gave one that cannot be
/// represented.
pub open spec fn translate_returned(
    outcome: Option<Vec<String>>,
    result: Option<OwnedText>,
) -> bool {
    &&& result is Some <==> first_exported(outcome) is Some
    &&& result is Some ==> result->0@ == first_exported(outcome)->0
}

/// The pipeline where its construction succeeded, in its box.
pub open spec fn boxed_translation_model<M, E>(outcome: Result<M, E>) -> Option<
    TranslationModelWrapper<M>,
> {
    match outcome {
        Ok(model) => Some(TranslationModelWrapper { model }),
        Err(_) => None,
    }
}

/// Creates a translation pipeline from English to French with `construct`,
/// which gets the source and the target language, and returns its handle, or
/// null where the construction failed.
pub fn new_translation_model<M, E, C: FnOnce(Language, Language) -> Result<M, E>>(
    table: &mut HandleTable<TranslationModelWrapper<M>>,
    construct: C,
) -> (handle: usize)
    requires
        forall|source: Language, target: Language| call_requires(construct, (source, target)),
    ensures
        exists|outcome: Result<M, E>|
            call_ensures(construct, (default_source(), default_target()), outcome) && old(
                table,
            ).created(final(table), boxed_translation_model(outcome), handle),
{
    let outcome = construct(Language::English, Language::French);
    let ghost constructed = outcome;
    let built = match outcome {
        Ok(model) => Some(TranslationModelWrapper { model }),
        Err(_) => None,
    };
    proof {
        assert(built == boxed_translation_model(constructed));
    }
    table.create(built)
}

/// Creates a translation pipeline from custom files. Loading custom weights
/// is an extension point: the paths and the model type are accepted and the
/// pipeline is created as [`new_translation_model`] does.
pub fn new_translation_model_from_files<M, E, C: FnOnce(Language, Language) -> Result<M, E>>(
    table: &mut HandleTable<TranslationModelWrapper<M>>,
    _model_path: Option<&[u8]>,
    _config_path: Option<&[u8]>,
    _vocab_path: Option<&[u8]>,
    _merges_path: Option<&[u8]>,
    _model_type: i32,
    construct: C,
) -> (handle: usize)
    requires
        forall|source: Language, target: Language| call_requires(construct, (source, target)),
    ensures
        exists|outcome: Result<M, E>|
            call_ensures(construct, (default_source(), default_target()), outcome) && old(
                table,
            ).created(final(table), boxed_translation_model(outcome), handle),
{
    new_translation_model(table, construct)
}

/// Translates a text. A handle that is not live and a text that cannot be
/// read give null without running the pipeline. The language hints are
/// accepted and not handed on: `run` gets the pipeline, the text, and no
/// language for either side, so that the pair the pipeline was created for
/// applies. The first translation is returned as an owned text, to be
/// released with [`release_text`](crate::text::release_text).
pub fn translate<M, F>(
    table: &HandleTable<TranslationModelWrapper<M>>,
    wrapper: usize,
    text: Option<&[u8]>,
    _source_lang: Option<&[u8]>,
    _target_lang: Option<&[u8]>,
    run: F,
) -> (result: Option<OwnedText>) where
    F: FnOnce(&M, &str, Option<Language>, Option<Language>) -> Option<Vec<String>>,

    requires
        forall|model: &M, input: &str, source: Option<Language>, target: Option<Language>|
            call_requires(run, (model, input, source, target)),
    ensures
        wrapper == NULL_HANDLE || text is None ==> result is None,
        !table@.contains_key(wrapper) || borrowed_text(text) is None ==> result is None,
        table@.contains_key(wrapper) && borrowed_text(text) is Some ==> exists|
            input: &str,
            outcome: Option<Vec<String>>,
        |
            {
                &&& input@ == borrowed_text(text)->0
                &&& call_ensures(
                    run,
                    (&table@[wrapper].model, input, None::<Language>, None::<Language>),
                    outcome,
                )
                &&& translate_returned(outcome, result)
            },
{
    proof {
        table.lemma_consistent();
    }
    let boxed = match table.get(wrapper) {
        None => {
            return None;
        },
        Some(boxed) => boxed,
    };
    let input = match cstr_to_string(text) {
        None => {
            return None;
        },
        Some(input) => input,
    };
    let outcome = run(&boxed.model, input.as_str(), None, None);
    export_first(&outcome)
}

/// Destroys the pipeline behind a handle and says whether there was one.
/// Null and a handle that is not live are accepted and release nothing.
pub fn free_translation_model<M>(
    table: &mut HandleTable<TranslationModelWrapper<M>>,
    wrapper: usize,
) -> (released: bool)
    ensures
        old(table).destroyed(final(table), wrapper, released),
{
    table.destroy(wrapper)
}

} // verus!
