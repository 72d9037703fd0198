//! Flat results: a variable-length sequence of records as one buffer with an
//! explicit count.
//!
//! A [`FlatResult`] with no records has null data and count zero and owns no
//! buffer. Otherwise its data is one buffer of exactly `count` records. The
//! count is never set apart from the buffer: both come from the same vector,
//! and a release walks exactly the records of the buffer.

use crate::ledger::{Footprint, Reclaimed};
use crate::text::{release_text, text_footprint, OwnedText};
use libc::size_t;
use vstd::prelude::*;

verus! {

/// A fixed-layout record of a flat result. A record may own text buffers;
/// its release gives each of them back.
pub trait Record: Sized {
    /// What the caller reads in the record.
    type Shape;

    /// What the caller reads in the record.
    spec fn shape(&self) -> Self::Shape;

    /// The number of text buffers that the record owns.
    spec fn owned_texts(&self) -> nat;

    /// The number of texts that the caller reads in a record: its text
    /// pointers that are not null.
    spec fn texts_in(shape: Self::Shape) -> nat;

    /// A record owns exactly the texts that the caller reads in it.
    proof fn lemma_owns_what_is_read(&self)
        ensures
            self.owned_texts() == Self::texts_in(self.shape()),
    ;

    /// Releases the text buffers of the record and says how many there were.
    fn release(self) -> (texts: u8)
        ensures
            texts == self.owned_texts(),
    ;
}

/// A pipeline output that becomes one record of a flat result.
pub trait Export: Sized {
    /// The record made of an output.
    type Record: Record;

    /// What the caller reads in the record made of this output.
    spec fn exported(&self) -> <Self::Record as Record>::Shape;

    /// Makes the record, with text buffers of its own.
    fn export(&self) -> (record: Self::Record)
        ensures
            record.shape() == self.exported(),
    ;
}

/// The number of text buffers that a sequence of records owns.
pub open spec fn owned_texts<R: Record>(records: Seq<R>) -> nat
    decreases records.len(),
{
    if records.len() == 0 {
        0
    } else {
        owned_texts(records.drop_last()) + records.last().owned_texts()
    }
}

/// What the caller reads in each record of a sequence.
pub open spec fn shapes<R: Record>(records: Seq<R>) -> Seq<R::Shape> {
    records.map_values(|record: R| record.shape())
}

/// The number of texts that the caller reads in a sequence of records.
pub open spec fn texts_read<R: Record>(shapes: Seq<R::Shape>) -> nat
    decreases shapes.len(),
{
    if shapes.len() == 0 {
        0
    } else {
        texts_read::<R>(shapes.drop_last()) + R::texts_in(shapes.last())
    }
}

/// What the caller reads in the records made of a sequence of outputs.
pub open spec fn exports<T: Export>(outputs: Seq<T>) -> Seq<<T::Record as Record>::Shape> {
    outputs.map_values(|output: T| output.exported())
}

/// The outputs for the first input of a batch; none where the pipeline gave
/// no batch at all.
pub open spec fn first_batch<T>(batches: Seq<Vec<T>>) -> Seq<T> {
    if batches.len() == 0 {
        Seq::empty()
    } else {
        batches[0]@
    }
}

/// A sequence of records, flattened for the caller: a buffer and a count.
#[derive(Debug)]
pub struct FlatResult<R> {
    data: Option<Vec<R>>,
    count: size_t,
}

impl<R> View for FlatResult<R> {
    type V = Seq<R>;

    /// The records of the buffer, in order; none where the data is null.
    closed spec fn view(&self) -> Seq<R> {
        match self.data {
            Some(records) => records@,
            None => Seq::empty(),
        }
    }
}

impl<R> FlatResult<R> {
    #[verifier::type_invariant]
    spec fn paired(self) -> bool {
        match self.data {
            None => self.count == 0,
            Some(records) => records@.len() == self.count && self.count > 0,
        }
    }

    /// The count that the caller reads.
    pub closed spec fn count_of(&self) -> size_t {
        self.count
    }

    /// Whether the data pointer that the caller reads is null.
    pub closed spec fn data_is_null(&self) -> bool {
        self.data is None
    }

    /// The count is the number of records, and the data is null exactly when
    /// there is none.
    pub open spec fn well_formed(&self) -> bool {
        &&& self.count_of() == self@.len()
        &&& self.data_is_null() <==> self@.len() == 0
    }

    /// Flattens a sequence of records. An empty sequence gives null data and
    /// count zero and keeps no buffer; any other becomes the buffer as it is.
    pub fn build(records: Vec<R>) -> (flat: FlatResult<R>)
        ensures
            flat@ == records@,
            flat.well_formed(),
    {
        let count: size_t = records.len();
        if count == 0 {
            FlatResult { data: None, count: 0 }
        } else {
            FlatResult { data: Some(records), count }
        }
    }

    /// The count that the caller reads.
    pub fn count(&self) -> (count: size_t)
        ensures
            count == self.count_of(),
            self.well_formed(),
    {
        proof {
            use_type_invariant(self);
        }
        self.count
    }

    /// The buffer that the caller reads, or `None` where the data is null.
    pub fn data(&self) -> (data: Option<&Vec<R>>)
        ensures
            data is None <==> self.data_is_null(),
            data is Some ==> data->0@ == self@,
            self.well_formed(),
    {
        proof {
            use_type_invariant(self);
        }
        self.data.as_ref()
    }

    /// Gives the buffer up, as the records it holds.
    pub fn into_records(self) -> (records: Vec<R>)
        ensures
            records@ == self@,
            self.well_formed(),
    {
        proof {
            use_type_invariant(&self);
        }
        match self.data {
            Some(records) => records,
            None => Vec::new(),
        }
    }
}

impl<R: Record> FlatResult<R> {
    /// What the caller reads in each record.
    pub open spec fn shapes(&self) -> Seq<R::Shape> {
        shapes(self@)
    }

    /// What the result owns across the boundary: the text buffers of its
    /// records, the buffer of the records unless the data is null, and its
    /// own box.
    pub open spec fn footprint(&self) -> Footprint {
        Footprint {
            texts: owned_texts(self@),
            arrays: if self.data_is_null() {
                0
            } else {
                1
            },
            boxes: 1,
        }
    }

    /// Flattens the records made of a sequence of pipeline outputs, one
    /// record for each output and in the same order.
    pub fn collect<T: Export<Record = R>>(outputs: &Vec<T>) -> (flat: FlatResult<R>)
        ensures
            flat@.len() == outputs@.len(),
            flat.shapes() == exports(outputs@),
            flat.well_formed(),
    {
        let mut records: Vec<R> = Vec::new();
        let mut i: usize = 0;
        while i < outputs.len()
            invariant
                i <= outputs.len(),
                records@.len() == i,
                shapes(records@) == exports(outputs@.take(i as int)),
            decreases outputs.len() - i,
        {
            let ghost front = records@;
            let record = outputs[i].export();
            records.push(record);
            proof {
                let prefix = outputs@.take(i as int);
                let next = outputs@.take(i + 1);
                assert forall|k: int| 0 <= k < i + 1 implies shapes(records@)[k] == exports(
                    next,
                )[k] by {
                    if k < i {
                        assert(shapes(front)[k] == exports(prefix)[k]);
                    } else {
                        assert(records@[k] == record);
                    }
                }
                assert(shapes(records@) =~= exports(next));
            }
            i += 1;
        }
        FlatResult::build(records)
    }

    /// Flattens the records made of the outputs for the first input of a
    /// batch. A pipeline that gave no batch, or an empty one, gives a result
    /// with null data and count zero.
    pub fn collect_first<T: Export<Record = R>>(batches: &Vec<Vec<T>>) -> (flat: FlatResult<R>)
        ensures
            flat@.len() == first_batch(batches@).len(),
            flat.shapes() == exports(first_batch(batches@)),
            flat.well_formed(),
    {
        if batches.len() == 0 {
            FlatResult::build(Vec::new())
        } else {
            FlatResult::collect(&batches[0])
        }
    }

    /// Releases the result: the text buffers of each of its `count` records,
    /// then the buffer, then the box. A result with null data has only its
    /// box to release.
    pub fn release(self) -> (reclaimed: Reclaimed)
        ensures
            reclaimed@ == self.footprint(),
    {
        proof {
            use_type_invariant(&self);
        }
        let mut remaining: size_t = self.count;
        let mut records = match self.data {
            None => {
                return Reclaimed { texts: 0, arrays: 0, boxes: 1 };
            },
            Some(records) => records,
        };
        let mut texts: u128 = 0;
        while remaining > 0
            invariant
                remaining == records@.len(),
                self.data is Some,
                records@ == self@.take(remaining as int),
                texts + owned_texts(records@) == owned_texts(self@),
                texts <= 255 * (self@.len() - remaining),
                self@.len() <= usize::MAX,
            decreases remaining,
        {
            let record = records.pop().unwrap();
            proof {
                assert(records@ =~= self@.take(remaining - 1));
            }
            let released: u8 = record.release();
            texts = texts + released as u128;
            remaining -= 1;
        }
        Reclaimed { texts, arrays: 1, boxes: 1 }
    }
}

impl Record for Option<OwnedText> {
    type Shape = Option<Seq<char>>;

    open spec fn shape(&self) -> Option<Seq<char>> {
        text_of(*self)
    }

    open spec fn owned_texts(&self) -> nat {
        text_footprint(*self).texts
    }

    open spec fn texts_in(shape: Option<Seq<char>>) -> nat {
        if shape is Some {
            1
        } else {
            0
        }
    }

    proof fn lemma_owns_what_is_read(&self) {
    }

    fn release(self) -> (texts: u8) {
        let reclaimed = release_text(self);
        if reclaimed.texts == 0 {
            0
        } else {
            1
        }
    }
}

/// The text that an exported field holds, or `None` where the field is null.
pub open spec fn text_of(field: Option<OwnedText>) -> Option<Seq<char>> {
    match field {
        None => None,
        Some(owned) => Some(owned@),
    }
}

/// Records own exactly the texts that the caller reads in them.
pub proof fn lemma_owned_texts_are_read<R: Record>(records: Seq<R>)
    ensures
        owned_texts(records) == texts_read::<R>(shapes(records)),
    decreases records.len(),
{
    if records.len() > 0 {
        lemma_owned_texts_are_read(records.drop_last());
        records.last().lemma_owns_what_is_read();
        assert(shapes(records).drop_last() =~= shapes(records.drop_last()));
    }
}

/// Release mirrors production: the result made for a sequence of pipeline
/// outputs owns one text for each text that the caller reads in it, one
/// buffer unless there is no output, and its box; and that is what its release
/// gives back, no more and no less.
pub proof fn lemma_release_mirrors_collect<T: Export>(
    outputs: Seq<T>,
    flat: FlatResult<T::Record>,
)
    requires
        flat.well_formed(),
        flat.shapes() == exports(outputs),
    ensures
        flat.footprint() == (Footprint {
            texts: texts_read::<T::Record>(exports(outputs)),
            arrays: if outputs.len() == 0 {
                0
            } else {
                1
            },
            boxes: 1,
        }),
{
    lemma_owned_texts_are_read(flat@);
    assert(flat.shapes().len() == flat@.len());
    assert(exports(outputs).len() == outputs.len());
}

/// What a result that may be null owns across the boundary.
pub open spec fn footprint_of<R: Record>(result: Option<FlatResult<R>>) -> Footprint {
    match result {
        None => Footprint::nothing(),
        Some(flat) => flat.footprint(),
    }
}

/// Releases a flat result. Null is accepted and releases nothing.
pub fn release_flat<R: Record>(result: Option<FlatResult<R>>) -> (reclaimed: Reclaimed)
    ensures
        reclaimed@ == footprint_of(result),
{
    match result {
        None => Reclaimed::nothing(),
        Some(flat) => flat.release(),
    }
}

} // verus!
