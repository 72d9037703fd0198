//! Sentiment analysis: a text goes in, one labeled score comes out.

use crate::flat::text_of;
use crate::handle::{HandleTable, NULL_HANDLE};
use crate::ledger::{Footprint, Reclaimed};
use crate::text::{
    borrowed_text, cstr_to_string, embeds_nul, release_text, string_to_cstr, OwnedText,
};
use vstd::prelude::*;

verus! {

/// The box around a sentiment pipeline.
#[derive(Debug)]
pub struct SentimentModelWrapper<M> {
    pub model: M,
}

/// The polarity of a sentiment.
#[derive(Clone, Copy, Debug, PartialEq, Eq)]
pub enum SentimentPolarity {
    Positive,
    Negative,
}

/// The sentiment of one text as the pipeline gives it. The score is the bit
/// pattern of a 32-bit float.
#[derive(Debug)]
pub struct Sentiment {
    pub polarity: SentimentPolarity,
    pub score: u32,
}

/// The sentiment of one text as the caller reads it.
#[derive(Debug)]
pub struct SentimentResult {
    pub label: Option<OwnedText>,
    pub score: u32,
}

/// The label that the caller reads for a polarity.
pub open spec fn polarity_label(polarity: SentimentPolarity) -> Seq<char> {
    match polarity {
        SentimentPolarity::Positive => "POSITIVE"@,
        SentimentPolarity::Negative => "NEGATIVE"@,
    }
}

/// The result for the sentiments of the pipeline: the label and the score of
/// the first, or null where the pipeline gave none.
pub open spec fn sentiment_returned(
    sentiments: Vec<Sentiment>,
    result: Option<SentimentResult>,
) -> bool {
    if sentiments@.len() == 0 {
        result is None
    } else {
        &&& result is Some
        &&& text_of(result->0.label) == Some(polarity_label(sentiments@[0].polarity))
        &&& result->0.score == sentiments@[0].score
    }
}

/// Both labels can be exported: neither embeds the terminator.
pub proof fn lemma_labels_representable(polarity: SentimentPolarity)
    ensures
        !embeds_nul(polarity_label(polarity)),
{
    reveal_strlit("POSITIVE");
    reveal_strlit("NEGATIVE");
    let label = polarity_label(polarity);
    assert(label.len() == 8);
    assert forall|i: int| 0 <= i < label.len() implies label[i] != '\0' by {}
}

/// Makes the result for the sentiments of the pipeline.
pub fn sentiment_result(sentiments: &Vec<Sentiment>) -> (result: Option<SentimentResult>)
    ensures
        sentiment_returned(*sentiments, result),
{
    if sentiments.len() == 0 {
        return None;
    }
    let first = &sentiments[0];
    let label = match first.polarity {
        SentimentPolarity::Positive => "POSITIVE",
        SentimentPolarity::Negative => "NEGATIVE",
    };
    proof {
        lemma_labels_representable(first.polarity);
    }
    Some(SentimentResult { label: string_to_cstr(label), score: first.score })
}

/// The pipeline where its construction succeeded, in its box.
pub open spec fn boxed_sentiment_model<M, E>(outcome: Result<M, E>) -> Option<
    SentimentModelWrapper<M>,
> {
    match outcome {
        Ok(model) => Some(SentimentModelWrapper { model }),
        Err(_) => None,
    }
}

/// Creates a sentiment pipeline with `construct` and returns its handle, or
/// null where the construction failed.
pub fn new_sentiment_model<M, E, C: FnOnce() -> Result<M, E>>(
    table: &mut HandleTable<SentimentModelWrapper<M>>,
    construct: C,
) -> (handle: usize)
    requires
        call_requires(construct, ()),
    ensures
        exists|outcome: Result<M, E>|
            call_ensures(construct, (), outcome) && old(table).created(
                final(table),
                boxed_sentiment_model(outcome),
                handle,
            ),
{
    let outcome = construct();
    let ghost constructed = outcome;
    let built = match outcome {
        Ok(model) => Some(SentimentModelWrapper { model }),
        Err(_) => None,
    };
    proof {
        assert(built == boxed_sentiment_model(constructed));
    }
    table.create(built)
}

/// Creates a sentiment pipeline from custom files. Loading custom weights is
/// an extension point: the paths and the model type are accepted and the
/// pipeline is created as [`new_sentiment_model`] does.
pub fn new_sentiment_model_from_files<M, E, C: FnOnce() -> Result<M, E>>(
    table: &mut HandleTable<SentimentModelWrapper<M>>,
    _model_path: Option<&[u8]>,
    _config_path: Option<&[u8]>,
    _vocab_path: Option<&[u8]>,
    _merges_path: Option<&[u8]>,
    _model_type: i32,
    construct: C,
) -> (handle: usize)
    requires
        call_requires(construct, ()),
    ensures
        exists|outcome: Result<M, E>|
            call_ensures(construct, (), outcome) && old(table).created(
                final(table),
                boxed_sentiment_model(outcome),
                handle,
            ),
{
    new_sentiment_model(table, construct)
}

/// Predicts the sentiment of a text. A null handle, a handle that is not
/// live, a null text and a text that cannot be read give null without running
/// the pipeline. Otherwise `run` gets the pipeline and the text, and the
/// first sentiment it gives is the result.
pub fn predict_sentiment<M, F: FnOnce(&M, &str) -> Vec<Sentiment>>(
    table: &HandleTable<SentimentModelWrapper<M>>,
    wrapper: usize,
    text: Option<&[u8]>,
    run: F,
) -> (result: Option<SentimentResult>)
    requires
        forall|model: &M, input: &str| call_requires(run, (model, input)),
    ensures
        wrapper == NULL_HANDLE || text is None ==> result is None,
        !table@.contains_key(wrapper) || borrowed_text(text) is None ==> result is None,
        table@.contains_key(wrapper) && borrowed_text(text) is Some ==> exists|
            input: &str,
            sentiments: Vec<Sentiment>,
        |
            {
                &&& input@ == borrowed_text(text)->0
                &&& call_ensures(run, (&table@[wrapper].model, input), sentiments)
                &&& sentiment_returned(sentiments, result)
            },
{
    proof {
        table.lemma_consistent();
    }
    let boxed = match table.get(wrapper) {
        None => {
            return None;
        },
        Some(boxed) => boxed,
    };
    let input = match cstr_to_string(text) {
        None => {
            return None;
        },
        Some(input) => input,
    };
    let sentiments = run(&boxed.model, input.as_str());
    sentiment_result(&sentiments)
}

/// Destroys the pipeline behind a handle and says whether there was one.
/// Null and a handle that is not live are accepted and release nothing.
pub fn free_sentiment_model<M>(
    table: &mut HandleTable<SentimentModelWrapper<M>>,
    wrapper: usize,
) -> (released: bool)
    ensures
        old(table).destroyed(final(table), wrapper, released),
{
    table.destroy(wrapper)
}

/// What a sentiment result owns across the boundary: its label and its box.
pub open spec fn sentiment_footprint(result: Option<SentimentResult>) -> Footprint {
    match result {
        None => Footprint::nothing(),
        Some(sentiment) => Footprint {
            texts: if sentiment.label is Some {
                1
            } else {
                0
            },
            arrays: 0,
            boxes: 1,
        },
    }
}

/// Releases a result of [`predict_sentiment`]: its label, then its box. Null
/// is accepted and releases nothing.
pub fn free_sentiment_result(result: Option<SentimentResult>) -> (reclaimed: Reclaimed)
    ensures
        reclaimed@ == sentiment_footprint(result),
{
    match result {
        None => Reclaimed::nothing(),
        Some(sentiment) => {
            let label = release_text(sentiment.label);
            Reclaimed { texts: label.texts, arrays: 0, boxes: 1 }
        },
    }
}

} // verus!
