//! Units of change to a dataset, as they travel from a publisher to the
//! subscribers of the dataset.
use vstd::prelude::*;
use arrow::record_batch::RecordBatch;

verus! {

/// A columnar batch of rows. The batch itself belongs to `arrow`; the
/// library carries it through and hands it to the encoder.
#[verifier::external_body]
pub struct Batch {
    pub inner: RecordBatch,
}

impl Clone for Batch {
    /// Trusted: `RecordBatch::clone`, which shares the columns of the batch.
    #[verifier::external_body]
    fn clone(&self) -> (r: Batch) {
        Batch { inner: self.inner.clone() }
    }
}

/// Whether an update adds to what subscribers hold or replaces it.
#[derive(Clone, Copy, Debug, PartialEq, Eq, Structural)]
pub enum UpdateType {
    Append,
    Overwrite,
}

/// One unit of change: an ordered list of columnar batches that share a
/// schema, and what to do with them.
#[derive(Clone)]
pub struct DataUpdate {
    pub data: Vec<Batch>,
    pub update_type: UpdateType,
}

/// Whether `update` appends exactly the one batch `batch`.
pub open spec fn appends(update: DataUpdate, batch: Batch) -> bool {
    update.data@ == seq![batch] && update.update_type == UpdateType::Append
}

/// Turns the batches of a query result into updates: one update per batch,
/// in the order of the batches, each appending its batch.
pub fn append_updates(batches: Vec<Batch>) -> (r: Vec<DataUpdate>)
    ensures
        r@.len() == batches@.len(),
        forall|i: int| 0 <= i < batches@.len() ==> appends(#[trigger] r@[i], batches@[i]),
{
    let mut updates: Vec<DataUpdate> = Vec::new();
    for batch in it: batches
        invariant
            it.seq() == batches@,
            updates@.len() == it.index(),
            forall|i: int| 0 <= i < updates@.len() ==> appends(#[trigger] updates@[i], batches@[i]),
    {
        let mut data: Vec<Batch> = Vec::new();
        data.push(batch);
        updates.push(DataUpdate { data, update_type: UpdateType::Append });
    }
    updates
}

} // verus!
