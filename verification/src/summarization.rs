//! Summarization: a text goes in, a list of summaries comes out, each a text
//! buffer of its own.

use crate::flat::{exports, footprint_of, release_flat, Export, FlatResult};
use crate::handle::{HandleTable, NULL_HANDLE};
use crate::ledger::Reclaimed;
use crate::text::{borrowed_text, cstr_to_string, exported, string_to_cstr, OwnedText};
use vstd::prelude::*;

verus! {

/// The box around a summarization pipeline.
#[derive(Debug)]
pub struct SummarizationModelWrapper<M> {
    pub model: M,
}

/// The summaries of one text: an array of owned texts, not of structs.
pub type SummarizationResult = FlatResult<Option<OwnedText>>;

impl Export for String {
    type Record = Option<OwnedText>;

    open spec fn exported(&self) -> Option<Seq<char>> {
        exported(self@)
    }

    fn export(&self) -> (record: Option<OwnedText>) {
        string_to_cstr(self.as_str())
    }
}

/// The result for an outcome of the pipeline: null where the pipeline
/// failed, and otherwise one text for each summary, in the pipeline's order.
pub open spec fn summarize_returned(
    outcome: Option<Vec<String>>,
    result: Option<SummarizationResult>,
) -> bool {
    match outcome {
        None => result is None,
        Some(summaries) => {
            &&& result is Some
            &&& result->0.well_formed()
            &&& result->0@.len() == summaries@.len()
            &&& result->0.shapes() == exports(summaries@)
        },
    }
}

/// Flattens the outcome of the pipeline for the caller.
pub fn summarization_result(outcome: Option<Vec<String>>) -> (result: Option<SummarizationResult>)
    ensures
        summarize_returned(outcome, result),
{
    match outcome {
        None => None,
        Some(summaries) => Some(FlatResult::collect(&summaries)),
    }
}

/// The pipeline where its construction succeeded, in its box.
pub open spec fn boxed_summarization_model<M, E>(outcome: Result<M, E>) -> Option<
    SummarizationModelWrapper<M>,
> {
    match outcome {
        Ok(model) => Some(SummarizationModelWrapper { model }),
        Err(_) => None,
    }
}

/// Creates a summarization pipeline with `construct` and returns its handle, or
/// null where the construction failed.
pub fn new_summarization_model<M, E, C: FnOnce() -> Result<M, E>>(
    table: &mut HandleTable<SummarizationModelWrapper<M>>,
    construct: C,
) -> (handle: usize)
    requires
        call_requires(construct, ()),
    ensures
        exists|outcome: Result<M, E>|
            call_ensures(construct, (), outcome) && old(table).created(
                final(table),
                boxed_summarization_model(outcome),
                handle,
            ),
{
    let outcome = construct();
    let ghost constructed = outcome;
    let built = match outcome {
        Ok(model) => Some(SummarizationModelWrapper { model }),
        Err(_) => None,
    };
    proof {
        assert(built == boxed_summarization_model(constructed));
    }
    table.create(built)
}

/// Creates a summarization pipeline from custom files. Loading custom weights
/// is an extension point: the paths and the model type are accepted and the
/// pipeline is created as [`new_summarization_model`] does.
pub fn new_summarization_model_from_files<M, E, C: FnOnce() -> Result<M, E>>(
    table: &mut HandleTable<SummarizationModelWrapper<M>>,
    _model_path: Option<&[u8]>,
    _config_path: Option<&[u8]>,
    _vocab_path: Option<&[u8]>,
    _merges_path: Option<&[u8]>,
    _model_type: i32,
    construct: C,
) -> (handle: usize)
    requires
        call_requires(construct, ()),
    ensures
        exists|outcome: Result<M, E>|
            call_ensures(construct, (), outcome) && old(table).created(
                final(table),
                boxed_summarization_model(outcome),
                handle,
            ),
{
    new_summarization_model(table, construct)
}

/// Summarizes a text. A handle that is not live and a text that cannot be
/// read give null without running the pipeline. Otherwise `run` gets the
/// pipeline and the text; where it fails the result is null, and otherwise
/// its summaries are flattened.
pub fn summarize<M, F: FnOnce(&M, &str) -> Option<Vec<String>>>(
    table: &HandleTable<SummarizationModelWrapper<M>>,
    wrapper: usize,
    text: Option<&[u8]>,
    run: F,
) -> (result: Option<SummarizationResult>)
    requires
        forall|model: &M, input: &str| call_requires(run, (model, input)),
    ensures
        wrapper == NULL_HANDLE || text is None ==> result is None,
        !table@.contains_key(wrapper) || borrowed_text(text) is None ==> result is None,
        table@.contains_key(wrapper) && borrowed_text(text) is Some ==> exists|
            input: &str,
            outcome: Option<Vec<String>>,
        |
            {
                &&& input@ == borrowed_text(text)->0
                &&& call_ensures(run, (&table@[wrapper].model, input), outcome)
                &&& summarize_returned(outcome, result)
            },
{
    proof {
        table.lemma_consistent();
    }
    let boxed = match table.get(wrapper) {
        None => {
            return None;
        },
        Some(boxed) => boxed,
    };
    let input = match cstr_to_string(text) {
        None => {
            return None;
        },
        Some(input) => input,
    };
    let outcome = run(&boxed.model, input.as_str());
    summarization_result(outcome)
}

/// Destroys the pipeline behind a handle and says whether there was one.
/// Null and a handle that is not live are accepted and release nothing.
pub fn free_summarization_model<M>(
    table: &mut HandleTable<SummarizationModelWrapper<M>>,
    wrapper: usize,
) -> (released: bool)
    ensures
        old(table).destroyed(final(table), wrapper, released),
{
    table.destroy(wrapper)
}

/// Releases a result of [`summarize`]: each of its texts, the buffer and the
/// box. Null is accepted and releases nothing.
pub fn free_summarization_result(result: Option<SummarizationResult>) -> (reclaimed: Reclaimed)
    ensures
        reclaimed@ == footprint_of(result),
{
    release_flat(result)
}

} // verus!
