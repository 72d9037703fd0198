//! Named entity recognition: a text goes in, the entities found in it come
//! out, each with the half-open range of characters that it covers.

use crate::flat::{
    exports, first_batch, footprint_of, release_flat, text_of, Export, FlatResult, Record,
};
use crate::handle::{HandleTable, NULL_HANDLE};
use crate::ledger::Reclaimed;
use crate::text::{
    borrowed_text, cstr_to_string, exported, release_text, string_to_cstr, OwnedText,
};
use libc::size_t;
use vstd::prelude::*;

verus! {

/// The box around a named entity recognition pipeline.
#[derive(Debug)]
pub struct NERModelWrapper<M> {
    pub model: M,
}

/// One entity as the pipeline gives it: the word, its label, and the range
/// `[begin, end)` of characters of the input that it covers. The score is the
/// bit pattern of a 32-bit float.
#[derive(Debug)]
pub struct TaggedEntity {
    pub word: String,
    pub score: u32,
    pub label: String,
    pub begin: u32,
    pub end: u32,
}

/// One entity as the caller reads it.
#[derive(Debug)]
pub struct Entity {
    pub word: Option<OwnedText>,
    pub score: u32,
    pub label: Option<OwnedText>,
    pub offset_begin: size_t,
    pub offset_end: size_t,
}

/// What the caller reads in an [`Entity`].
pub struct EntityShape {
    pub word: Option<Seq<char>>,
    pub score: u32,
    pub label: Option<Seq<char>>,
    pub offset_begin: size_t,
    pub offset_end: size_t,
}

/// The entities of one text.
pub type NERResult = FlatResult<Entity>;

impl Record for Entity {
    type Shape = EntityShape;

    open spec fn shape(&self) -> EntityShape {
        EntityShape {
            word: text_of(self.word),
            score: self.score,
            label: text_of(self.label),
            offset_begin: self.offset_begin,
            offset_end: self.offset_end,
        }
    }

    open spec fn owned_texts(&self) -> nat {
        let word: nat = if self.word is Some {
            1
        } else {
            0
        };
        let label: nat = if self.label is Some {
            1
        } else {
            0
        };
        word + label
    }

    open spec fn texts_in(shape: EntityShape) -> nat {
        let word: nat = if shape.word is Some {
            1
        } else {
            0
        };
        let label: nat = if shape.label is Some {
            1
        } else {
            0
        };
        word + label
    }

    proof fn lemma_owns_what_is_read(&self) {
    }

    fn release(self) -> (texts: u8) {
        let word = release_text(self.word);
        let label = release_text(self.label);
        let mut texts: u8 = 0;
        if word.texts != 0 {
            texts += 1;
        }
        if label.texts != 0 {
            texts += 1;
        }
        texts
    }
}

impl Export for TaggedEntity {
    type Record = Entity;

    open spec fn exported(&self) -> EntityShape {
        EntityShape {
            word: exported(self.word@),
            score: self.score,
            label: exported(self.label@),
            offset_begin: self.begin as size_t,
            offset_end: self.end as size_t,
        }
    }

    fn export(&self) -> (record: Entity) {
        Entity {
            word: string_to_cstr(self.word.as_str()),
            score: self.score,
            label: string_to_cstr(self.label.as_str()),
            offset_begin: self.begin as size_t,
            offset_end: self.end as size_t,
        }
    }
}

/// The result for the entities of the pipeline: one record for each of those
/// of the first text, in the pipeline's order. Where there is none the count
/// is zero and the data is null, in a result that is not itself null.
pub open spec fn ner_returned(tagged: Vec<Vec<TaggedEntity>>, result: NERResult) -> bool {
    &&& result.well_formed()
    &&& result@.len() == first_batch(tagged@).len()
    &&& result.shapes() == exports(first_batch(tagged@))
}

/// A text without entities is no failure: where the pipeline found none,
/// the result that [`predict_ner`] wraps in `Some` has count zero and null
/// data.
pub proof fn lemma_no_entities_is_not_failure(tagged: Vec<Vec<TaggedEntity>>, result: NERResult)
    requires
        ner_returned(tagged, result),
        first_batch(tagged@).len() == 0,
    ensures
        result.count_of() == 0,
        result.data_is_null(),
{
}

/// Flattens the entities of the pipeline for the caller.
pub fn ner_result(tagged: &Vec<Vec<TaggedEntity>>) -> (result: NERResult)
    ensures
        ner_returned(*tagged, result),
{
    FlatResult::collect_first(tagged)
}

/// The pipeline where its construction succeeded, in its box.
pub open spec fn boxed_ner_model<M, E>(outcome: Result<M, E>) -> Option<NERModelWrapper<M>> {
    match outcome {
        Ok(model) => Some(NERModelWrapper { model }),
        Err(_) => None,
    }
}

/// Creates a named entity recognition pipeline with `construct` and returns
/// its handle, or null where the construction failed.
pub fn new_ner_model<M, E, C: FnOnce() -> Result<M, E>>(
    table: &mut HandleTable<NERModelWrapper<M>>,
    construct: C,
) -> (handle: usize)
    requires
        call_requires(construct, ()),
    ensures
        exists|outcome: Result<M, E>|
            call_ensures(construct, (), outcome) && old(table).created(
                final(table),
                boxed_ner_model(outcome),
                handle,
            ),
{
    let outcome = construct();
    let ghost constructed = outcome;
    let built = match outcome {
        Ok(model) => Some(NERModelWrapper { model }),
        Err(_) => None,
    };
    proof {
        assert(built == boxed_ner_model(constructed));
    }
    table.create(built)
}

/// Creates a named entity recognition pipeline from custom files. Loading
/// custom weights is an extension point: the paths and the model type are
/// accepted and the pipeline is created as [`new_ner_model`] does.
pub fn new_ner_model_from_files<M, E, C: FnOnce() -> Result<M, E>>(
    table: &mut HandleTable<NERModelWrapper<M>>,
    _model_path: Option<&[u8]>,
    _config_path: Option<&[u8]>,
    _vocab_path: Option<&[u8]>,
    _merges_path: Option<&[u8]>,
    _model_type: i32,
    construct: C,
) -> (handle: usize)
    requires
        call_requires(construct, ()),
    ensures
        exists|outcome: Result<M, E>|
            call_ensures(construct, (), outcome) && old(table).created(
                final(table),
                boxed_ner_model(outcome),
                handle,
            ),
{
    new_ner_model(table, construct)
}

/// Finds the entities of a text. A handle that is not live and a text that
/// cannot be read give null without running the pipeline. Otherwise `run`
/// gets the pipeline and the text, and the entities it finds are flattened; a
/// text without entities gives a result with count zero, not null.
pub fn predict_ner<M, F: FnOnce(&M, &str) -> Vec<Vec<TaggedEntity>>>(
    table: &HandleTable<NERModelWrapper<M>>,
    wrapper: usize,
    text: Option<&[u8]>,
    run: F,
) -> (result: Option<NERResult>)
    requires
        forall|model: &M, input: &str| call_requires(run, (model, input)),
    ensures
        wrapper == NULL_HANDLE || text is None ==> result is None,
        !table@.contains_key(wrapper) || borrowed_text(text) is None ==> result is None,
        table@.contains_key(wrapper) && borrowed_text(text) is Some ==> exists|
            input: &str,
            tagged: Vec<Vec<TaggedEntity>>,
        |
            {
                &&& input@ == borrowed_text(text)->0
                &&& call_ensures(run, (&table@[wrapper].model, input), tagged)
                &&& result is Some
                &&& ner_returned(tagged, result->0)
            },
{
    proof {
        table.lemma_consistent();
    }
    let boxed = match table.get(wrapper) {
        None => {
            return None;
        },
        Some(boxed) => boxed,
    };
    let input = match cstr_to_string(text) {
        None => {
            return None;
        },
        Some(input) => input,
    };
    let tagged = run(&boxed.model, input.as_str());
    Some(ner_result(&tagged))
}

/// Destroys the pipeline behind a handle and says whether there was one.
/// Null and a handle that is not live are accepted and release nothing.
pub fn free_ner_model<M>(
    table: &mut HandleTable<NERModelWrapper<M>>,
    wrapper: usize,
) -> (released: bool)
    ensures
        old(table).destroyed(final(table), wrapper, released),
{
    table.destroy(wrapper)
}

/// Releases a result of [`predict_ner`]: the texts of each of its records,
/// the buffer and the box. Null is accepted and releases nothing.
pub fn free_ner_result(result: Option<NERResult>) -> (reclaimed: Reclaimed)
    ensures
        reclaimed@ == footprint_of(result),
{
    release_flat(result)
}

} // verus!
