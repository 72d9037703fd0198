//! Text generation: a prompt goes in, with a prefix that conditions the
//! generation if the caller gives one, and one generated text comes out.

use crate::handle::{HandleTable, NULL_HANDLE};
use crate::text::{borrowed_text, cstr_to_string, export_first, first_exported, OwnedText};
use vstd::prelude::*;

verus! {

/// The box around a text generation pipeline.
#[derive(Debug)]
pub struct TextGenerationModelWrapper<M> {
    pub model: M,
}

/// The text of a prefix as it goes to the pipeline.
pub open spec fn prefix_text(prefix: Option<&str>) -> Option<Seq<char>> {
    match prefix {
        None => None,
        Some(prefix) => Some(prefix@),
    }
}

/// The text returned for an outcome of the pipeline: the first text it
/// generated, or null where it failed, generated none, or generated one that
/// cannot be represented.
pub open spec fn generate_returned(
    outcome: Option<Vec<String>>,
    result: Option<OwnedText>,
) -> bool {
    &&& result is Some <==> first_exported(outcome) is Some
    &&& result is Some ==> result->0@ == first_exported(outcome)->0
}

/// The pipeline where its construction succeeded, in its box.
pub open spec fn boxed_text_generation_model<M, E>(outcome: Result<M, E>) -> Option<
    TextGenerationModelWrapper<M>,
> {
    match outcome {
        Ok(model) => Some(TextGenerationModelWrapper { model }),
        Err(_) => None,
    }
}

/// Creates a text generation pipeline with `construct` and returns its
/// handle, or null where the construction failed.
pub fn new_text_generation_model<M, E, C: FnOnce() -> Result<M, E>>(
    table: &mut HandleTable<TextGenerationModelWrapper<M>>,
    construct: C,
) -> (handle: usize)
    requires
        call_requires(construct, ()),
    ensures
        exists|outcome: Result<M, E>|
            call_ensures(construct, (), outcome) && old(table).created(
                final(table),
                boxed_text_generation_model(outcome),
                handle,
            ),
{
    let outcome = construct();
    let ghost constructed = outcome;
    let built = match outcome {
        Ok(model) => Some(TextGenerationModelWrapper { model }),
        Err(_) => None,
    };
    proof {
        assert(built == boxed_text_generation_model(constructed));
    }
    table.create(built)
}

/// Creates a text generation pipeline from custom files. Loading custom
/// weights is an extension point: the paths and the model type are accepted
/// and the pipeline is created as [`new_text_generation_model`] does.
pub fn new_text_generation_model_from_files<M, E, C: FnOnce() -> Result<M, E>>(
    table: &mut HandleTable<TextGenerationModelWrapper<M>>,
    _model_path: Option<&[u8]>,
    _config_path: Option<&[u8]>,
    _vocab_path: Option<&[u8]>,
    _merges_path: Option<&[u8]>,
    _model_type: i32,
    construct: C,
) -> (handle: usize)
    requires
        call_requires(construct, ()),
    ensures
        exists|outcome: Result<M, E>|
            call_ensures(construct, (), outcome) && old(table).created(
                final(table),
                boxed_text_generation_model(outcome),
                handle,
            ),
{
    new_text_generation_model(table, construct)
}

/// Generates text from a prompt. A handle that is not live and a prompt that
/// cannot be read give null without running the pipeline. The prefix is
/// optional: one that is null or cannot be read is left out. Otherwise `run`
/// gets the pipeline, the prompt and the prefix, and the first text it
/// generates is returned as an owned text, to be released with
/// [`release_text`](crate::text::release_text).
pub fn generate_text<M, F: FnOnce(&M, &str, Option<&str>) -> Option<Vec<String>>>(
    table: &HandleTable<TextGenerationModelWrapper<M>>,
    wrapper: usize,
    prompt: Option<&[u8]>,
    prefix: Option<&[u8]>,
    run: F,
) -> (result: Option<OwnedText>)
    requires
        forall|model: &M, input: &str, lead: Option<&str>| call_requires(run, (model, input, lead)),
    ensures
        wrapper == NULL_HANDLE || prompt is None ==> result is None,
        !table@.contains_key(wrapper) || borrowed_text(prompt) is None ==> result is None,
        table@.contains_key(wrapper) && borrowed_text(prompt) is Some ==> exists|
            input: &str,
            lead: Option<&str>,
            outcome: Option<Vec<String>>,
        |
            {
                &&& input@ == borrowed_text(prompt)->0
                &&& prefix_text(lead) == borrowed_text(prefix)
                &&& call_ensures(run, (&table@[wrapper].model, input, lead), outcome)
                &&& generate_returned(outcome, result)
            },
{
    proof {
        table.lemma_consistent();
    }
    let boxed = match table.get(wrapper) {
        None => {
            return None;
        },
        Some(boxed) => boxed,
    };
    let input = match cstr_to_string(prompt) {
        None => {
            return None;
        },
        Some(input) => input,
    };
    let prefix = cstr_to_string(prefix);
    let lead = match &prefix {
        None => None,
        Some(prefix) => Some(prefix.as_str()),
    };
    let outcome = run(&boxed.model, input.as_str(), lead);
    export_first(&outcome)
}

/// Destroys the pipeline behind a handle and says whether there was one.
/// Null and a handle that is not live are accepted and release nothing.
pub fn free_text_generation_model<M>(
    table: &mut HandleTable<TextGenerationModelWrapper<M>>,
    wrapper: usize,
) -> (released: bool)
    ensures
        old(table).destroyed(final(table), wrapper, released),
{
    table.destroy(wrapper)
}

} // verus!
