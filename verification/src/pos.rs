//! Part-of-speech tagging: a text goes in, one tag for each of its words
//! comes out.

use crate::flat::{
    exports, first_batch, footprint_of, release_flat, text_of, Export, FlatResult, Record,
};
use crate::handle::{HandleTable, NULL_HANDLE};
use crate::ledger::Reclaimed;
use crate::text::{
    borrowed_text, cstr_to_string, exported, release_text, string_to_cstr, OwnedText,
};
use vstd::prelude::*;

verus! {

/// The box around a part-of-speech tagging pipeline.
#[derive(Debug)]
pub struct POSModelWrapper<M> {
    pub model: M,
}

/// One word as the pipeline tags it. The score is the bit pattern of a
/// 32-bit float.
#[derive(Debug)]
pub struct TaggedWord {
    pub word: String,
    pub score: u32,
    pub label: String,
}

/// One tag as the caller reads it.
#[derive(Debug)]
pub struct POSTag {
    pub word: Option<OwnedText>,
    pub score: u32,
    pub label: Option<OwnedText>,
}

/// What the caller reads in a [`POSTag`].
pub struct POSTagShape {
    pub word: Option<Seq<char>>,
    pub score: u32,
    pub label: Option<Seq<char>>,
}

/// The tags of one text.
pub type POSResult = FlatResult<POSTag>;

impl Record for POSTag {
    type Shape = POSTagShape;

    open spec fn shape(&self) -> POSTagShape {
        POSTagShape {
            word: text_of(self.word),
            score: self.score,
            label: text_of(self.label),
        }
    }

    open spec fn owned_texts(&self) -> nat {
        let word: nat = if self.word is Some {
            1
        } else {
            0
        };
        let label: nat = if self.label is Some {
            1
        } else {
            0
        };
        word + label
    }

    open spec fn texts_in(shape: POSTagShape) -> nat {
        let word: nat = if shape.word is Some {
            1
        } else {
            0
        };
        let label: nat = if shape.label is Some {
            1
        } else {
            0
        };
        word + label
    }

    proof fn lemma_owns_what_is_read(&self) {
    }

    fn release(self) -> (texts: u8) {
        let word = release_text(self.word);
        let label = release_text(self.label);
        let mut texts: u8 = 0;
        if word.texts != 0 {
            texts += 1;
        }
        if label.texts != 0 {
            texts += 1;
        }
        texts
    }
}

impl Export for TaggedWord {
    type Record = POSTag;

    open spec fn exported(&self) -> POSTagShape {
        POSTagShape {
            word: exported(self.word@),
            score: self.score,
            label: exported(self.label@),
        }
    }

    fn export(&self) -> (record: POSTag) {
        POSTag {
            word: string_to_cstr(self.word.as_str()),
            score: self.score,
            label: string_to_cstr(self.label.as_str()),
        }
    }
}

/// The result for the tags of the pipeline: one record for each of those
/// of the first text, in the pipeline's order. Where there is none the count
/// is zero and the data is null, in a result that is not itself null.
pub open spec fn pos_returned(tagged: Vec<Vec<TaggedWord>>, result: POSResult) -> bool {
    &&& result.well_formed()
    &&& result@.len() == first_batch(tagged@).len()
    &&& result.shapes() == exports(first_batch(tagged@))
}

/// Flattens the tags of the pipeline for the caller.
pub fn pos_result(tagged: &Vec<Vec<TaggedWord>>) -> (result: POSResult)
    ensures
        pos_returned(*tagged, result),
{
    FlatResult::collect_first(tagged)
}

/// The pipeline where its construction succeeded, in its box.
pub open spec fn boxed_pos_model<M, E>(outcome: Result<M, E>) -> Option<POSModelWrapper<M>> {
    match outcome {
        Ok(model) => Some(POSModelWrapper { model }),
        Err(_) => None,
    }
}

/// Creates a part-of-speech tagging pipeline with `construct` and returns
/// its handle, or null where the construction failed.
pub fn new_pos_model<M, E, C: FnOnce() -> Result<M, E>>(
    table: &mut HandleTable<POSModelWrapper<M>>,
    construct: C,
) -> (handle: usize)
    requires
        call_requires(construct, ()),
    ensures
        exists|outcome: Result<M, E>|
            call_ensures(construct, (), outcome) && old(table).created(
                final(table),
                boxed_pos_model(outcome),
                handle,
            ),
{
    let outcome = construct();
    let ghost constructed = outcome;
    let built = match outcome {
        Ok(model) => Some(POSModelWrapper { model }),
        Err(_) => None,
    };
    proof {
        assert(built == boxed_pos_model(constructed));
    }
    table.create(built)
}

/// Tags the words of a text. A handle that is not live and a text that
/// cannot be read give null without running the pipeline. Otherwise `run`
/// gets the pipeline and the text, and its tags are flattened; a text without
/// words gives a result with count zero, not null.
pub fn predict_pos<M, F: FnOnce(&M, &str) -> Vec<Vec<TaggedWord>>>(
    table: &HandleTable<POSModelWrapper<M>>,
    wrapper: usize,
    text: Option<&[u8]>,
    run: F,
) -> (result: Option<POSResult>)
    requires
        forall|model: &M, input: &str| call_requires(run, (model, input)),
    ensures
        wrapper == NULL_HANDLE || text is None ==> result is None,
        !table@.contains_key(wrapper) || borrowed_text(text) is None ==> result is None,
        table@.contains_key(wrapper) && borrowed_text(text) is Some ==> exists|
            input: &str,
            tagged: Vec<Vec<TaggedWord>>,
        |
            {
                &&& input@ == borrowed_text(text)->0
                &&& call_ensures(run, (&table@[wrapper].model, input), tagged)
                &&& result is Some
                &&& pos_returned(tagged, result->0)
            },
{
    proof {
        table.lemma_consistent();
    }
    let boxed = match table.get(wrapper) {
        None => {
            return None;
        },
        Some(boxed) => boxed,
    };
    let input = match cstr_to_string(text) {
        None => {
            return None;
        },
        Some(input) => input,
    };
    let tagged = run(&boxed.model, input.as_str());
    Some(pos_result(&tagged))
}

/// Destroys the pipeline behind a handle and says whether there was one.
/// Null and a handle that is not live are accepted and release nothing.
pub fn free_pos_model<M>(
    table: &mut HandleTable<POSModelWrapper<M>>,
    wrapper: usize,
) -> (released: bool)
    ensures
        old(table).destroyed(final(table), wrapper, released),
{
    table.destroy(wrapper)
}

/// Releases a result of [`predict_pos`]: the texts of each of its records,
/// the buffer and the box. Null is accepted and releases nothing.
pub fn free_pos_result(result: Option<POSResult>) -> (reclaimed: Reclaimed)
    ensures
        reclaimed@ == footprint_of(result),
{
    release_flat(result)
}

} // verus!
