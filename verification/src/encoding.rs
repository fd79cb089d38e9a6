//! The wire frames of a subscription: how the updates of a dataset become the
//! schema, dictionary and batch messages that one client receives.
//!
//! The binary form of a schema, a dictionary and a batch is `arrow_ipc`'s.
//! What is decided here is which frames are sent and in which order.
use vstd::prelude::*;
use vstd::string::*;
use arrow_ipc::writer::DictionaryTracker;
use arrow_ipc::writer::IpcDataGenerator;
use arrow_ipc::writer::IpcWriteOptions;
use crate::dataupdate::Batch;
use crate::dataupdate::DataUpdate;
use crate::error::fails_with;
use crate::error::ErrorKind;
use crate::error::FlightError;

verus! {

/// `arrow_ipc`'s record of the dictionaries that a stream has sent. It is
/// opaque here.
#[verifier::external_type_specification]
#[verifier::external_body]
pub struct ExDictionaryTracker(arrow_ipc::writer::DictionaryTracker);

/// `arrow_ipc`'s options for writing messages. They are opaque here.
#[verifier::external_type_specification]
#[verifier::external_body]
pub struct ExIpcWriteOptions(arrow_ipc::writer::IpcWriteOptions);

/// One encoded message: its header and the data that follows it.
#[derive(Clone, Debug)]
pub struct Payload {
    pub header: Vec<u8>,
    pub body: Vec<u8>,
}

/// A batch in wire form: the dictionaries that have to precede it, and the
/// batch itself.
#[derive(Clone, Debug)]
pub struct EncodedBatch {
    pub dictionaries: Vec<Payload>,
    pub batch: Payload,
}

/// What a frame carries.
#[derive(Clone, Copy, Debug, PartialEq, Eq, Structural)]
pub enum FrameKind {
    Schema,
    Dictionary,
    Batch,
}

/// One message of the stream that a subscriber receives.
#[derive(Clone, Debug)]
pub struct Frame {
    pub kind: FrameKind,
    pub header: Vec<u8>,
    pub body: Vec<u8>,
}

pub struct PayloadView {
    pub header: Seq<u8>,
    pub body: Seq<u8>,
}

pub struct EncodedBatchView {
    pub dictionaries: Seq<PayloadView>,
    pub batch: PayloadView,
}

pub struct FrameView {
    pub kind: FrameKind,
    pub header: Seq<u8>,
    pub body: Seq<u8>,
}

impl View for Payload {
    type V = PayloadView;

    open spec fn view(&self) -> PayloadView {
        PayloadView { header: self.header@, body: self.body@ }
    }
}

impl View for EncodedBatch {
    type V = EncodedBatchView;

    open spec fn view(&self) -> EncodedBatchView {
        EncodedBatchView {
            dictionaries: self.dictionaries@.map_values(|p: Payload| p@),
            batch: self.batch@,
        }
    }
}

impl View for Frame {
    type V = FrameView;

    open spec fn view(&self) -> FrameView {
        FrameView { kind: self.kind, header: self.header@, body: self.body@ }
    }
}

/// The views of a sequence of frames.
pub open spec fn frame_views(frames: Seq<Frame>) -> Seq<FrameView> {
    frames.map_values(|f: Frame| f@)
}

/// The views of a sequence of encoded batches.
pub open spec fn batch_views(batches: Seq<EncodedBatch>) -> Seq<EncodedBatchView> {
    batches.map_values(|b: EncodedBatch| b@)
}

/// The view of an optional payload.
pub open spec fn payload_view(payload: Option<Payload>) -> Option<PayloadView> {
    match payload {
        Some(p) => Some(p@),
        None => None,
    }
}

/// The frame of the given kind that carries a payload.
pub open spec fn framed(kind: FrameKind, payload: PayloadView) -> FrameView {
    FrameView { kind, header: payload.header, body: payload.body }
}

/// The frames of one batch: its dictionaries in their order, then the batch.
pub open spec fn batch_frames(batch: EncodedBatchView) -> Seq<FrameView> {
    batch.dictionaries.map_values(|p: PayloadView| framed(FrameKind::Dictionary, p)).push(
        framed(FrameKind::Batch, batch.batch),
    )
}

/// The frames of a list of batches, batch after batch.
pub open spec fn all_batch_frames(batches: Seq<EncodedBatchView>) -> Seq<FrameView>
    decreases batches.len(),
{
    if batches.len() == 0 {
        Seq::empty()
    } else {
        all_batch_frames(batches.drop_last()) + batch_frames(batches.last())
    }
}

/// The frames of one update: the schema first where one is given, then the
/// frames of the batches.
pub open spec fn update_frames(
    schema: Option<PayloadView>,
    batches: Seq<EncodedBatchView>,
) -> Seq<FrameView> {
    match schema {
        Some(p) => seq![framed(FrameKind::Schema, p)] + all_batch_frames(batches),
        None => all_batch_frames(batches),
    }
}

/// Lays out the frames of one update: the schema first where one is given,
/// then for each batch its dictionaries followed by the batch.
pub fn assemble(schema: Option<Payload>, batches: Vec<EncodedBatch>) -> (r: Vec<Frame>)
    ensures
        frame_views(r@) == update_frames(payload_view(schema), batch_views(batches@)),
{
    let mut frames: Vec<Frame> = Vec::new();
    match schema {
        Some(p) => {
            frames.push(Frame { kind: FrameKind::Schema, header: p.header, body: p.body });
        },
        None => {},
    }
    let ghost head = frame_views(frames@);
    proof {
        assert(batch_views(batches@).take(0) =~= Seq::<EncodedBatchView>::empty());
        assert(head + all_batch_frames(Seq::<EncodedBatchView>::empty()) =~= head);
    }
    for encoded in it: batches
        invariant
            it.seq() == batches@,
            frame_views(frames@) == head + all_batch_frames(
                batch_views(batches@).take(it.index() as int),
            ),
    {
        let ghost before = frame_views(frames@);
        let ghost done = batch_views(batches@).take(it.index() as int);
        let ghost next = batch_views(batches@).take(it.index() + 1);
        let ghost this = encoded@;
        proof {
            assert(next.drop_last() =~= done);
            assert(next.last() == this);
        }
        let EncodedBatch { dictionaries, batch } = encoded;
        for dictionary in dit: dictionaries
            invariant
                dit.seq() == dictionaries@,
                this.dictionaries == dictionaries@.map_values(|p: Payload| p@),
                frame_views(frames@) == before + this.dictionaries.take(
                    dit.index() as int,
                ).map_values(|p: PayloadView| framed(FrameKind::Dictionary, p)),
        {
            let ghost sofar = frame_views(frames@);
            frames.push(
                Frame { kind: FrameKind::Dictionary, header: dictionary.header, body: dictionary.body },
            );
            proof {
                assert(frame_views(frames@) =~= sofar.push(
                    framed(FrameKind::Dictionary, dictionary@),
                ));
                assert(frame_views(frames@) =~= before + this.dictionaries.take(
                    dit.index() + 1,
                ).map_values(|p: PayloadView| framed(FrameKind::Dictionary, p)));
            }
        }
        let ghost sofar = frame_views(frames@);
        frames.push(Frame { kind: FrameKind::Batch, header: batch.header, body: batch.body });
        proof {
            assert(this.dictionaries.take(this.dictionaries.len() as int) =~= this.dictionaries);
            assert(frame_views(frames@) =~= sofar.push(framed(FrameKind::Batch, this.batch)));
            assert(frame_views(frames@) =~= before + batch_frames(this));
            assert(head + all_batch_frames(done) + batch_frames(this) =~= head + (all_batch_frames(
                done,
            ) + batch_frames(this)));
        }
    }
    proof {
        assert(batch_views(batches@).take(batches@.len() as int) =~= batch_views(batches@));
    }
    frames
}

/// Trusted: `DictionaryTracker::new(false)`: a tracker that has seen no
/// dictionary and accepts a dictionary being replaced.
#[verifier::external_body]
fn new_tracker() -> (r: DictionaryTracker) {
    DictionaryTracker::new(false)
}

/// Trusted: `IpcWriteOptions::default()`.
#[verifier::external_body]
fn default_options() -> (r: IpcWriteOptions) {
    IpcWriteOptions::default()
}

/// The wire form of the schema of a batch, as a connection with the given
/// tracker and options sends it.
pub uninterp spec fn schema_encoding(
    batch: Batch,
    tracker: DictionaryTracker,
    options: IpcWriteOptions,
) -> PayloadView;

/// The tracker after it has taken note of the schema of a batch.
pub uninterp spec fn tracker_after_schema(
    batch: Batch,
    tracker: DictionaryTracker,
    options: IpcWriteOptions,
) -> DictionaryTracker;

/// The wire form of a batch, as a connection with the given tracker and
/// options sends it, or `None` where the batch cannot be encoded.
pub uninterp spec fn batch_encoding(
    batch: Batch,
    tracker: DictionaryTracker,
    options: IpcWriteOptions,
) -> Option<EncodedBatchView>;

/// The tracker after a batch was encoded, or was tried.
pub uninterp spec fn tracker_after_batch(
    batch: Batch,
    tracker: DictionaryTracker,
    options: IpcWriteOptions,
) -> DictionaryTracker;

/// Trusted: `IpcDataGenerator::schema_to_bytes_with_dictionary_tracker`, for
/// the schema of a batch. The message depends on the batch, the tracker and
/// the options alone: `schema_encoding` names it. It has a header and no
/// body. The tracker learns the dictionaries of the schema, which the
/// batches of the connection then refer to; `tracker_after_schema` names it
/// as it is afterwards.
#[verifier::external_body]
fn encode_schema(batch: &Batch, tracker: &mut DictionaryTracker, options: &IpcWriteOptions) -> (r:
    Payload)
    ensures
        r@ == schema_encoding(*batch, *old(tracker), *options),
        r.body@.len() == 0,
        *final(tracker) == tracker_after_schema(*batch, *old(tracker), *options),
{
    let generator = IpcDataGenerator::default();
    let data = generator.schema_to_bytes_with_dictionary_tracker(
        &batch.inner.schema(),
        tracker,
        options,
    );
    Payload { header: data.ipc_message, body: data.arrow_data }
}

/// Trusted: `IpcDataGenerator::encode`. The result depends on the batch, on
/// what the tracker has seen and on the options alone: `batch_encoding`
/// names it, and the call fails exactly where that is `None`. The tracker
/// remembers the dictionaries that were encoded, so that each is sent once;
/// `tracker_after_batch` names it as it is afterwards.
#[verifier::external_body]
fn encode_batch(batch: &Batch, tracker: &mut DictionaryTracker, options: &IpcWriteOptions) -> (r:
    Result<EncodedBatch, arrow::error::ArrowError>)
    ensures
        match batch_encoding(*batch, *old(tracker), *options) {
            Some(e) => r matches Ok(x) && x@ == e,
            None => r is Err,
        },
        *final(tracker) == tracker_after_batch(*batch, *old(tracker), *options),
{
    let generator = IpcDataGenerator::default();
    let (dictionaries, data) = generator.encode(
        &batch.inner,
        tracker,
        options,
        &mut Default::default(),
    )?;
    Ok(
        EncodedBatch {
            dictionaries: dictionaries.into_iter().map(
                |d| Payload { header: d.ipc_message, body: d.arrow_data },
            ).collect(),
            batch: Payload { header: data.ipc_message, body: data.arrow_data },
        },
    )
}

/// What a connection has after it went through some batches: whether its
/// schema is sent, what its tracker has seen, the schema message if these
/// batches made it send one, the encodings of the batches that were
/// encoded, and whether a batch could not be encoded.
pub struct Encoded {
    pub sent: bool,
    pub tracker: DictionaryTracker,
    pub schema: Option<PayloadView>,
    pub batches: Seq<EncodedBatchView>,
    pub failed: bool,
}

/// Takes a connection through batches, first to last. In front of its first
/// batch the connection encodes the schema of that batch. It stops at the
/// first batch that cannot be encoded.
pub open spec fn encoded_from(
    batches: Seq<Batch>,
    sent: bool,
    tracker: DictionaryTracker,
    options: IpcWriteOptions,
) -> Encoded
    decreases batches.len(),
{
    if batches.len() == 0 {
        Encoded { sent, tracker, schema: None, batches: Seq::empty(), failed: false }
    } else {
        let before = encoded_from(batches.drop_last(), sent, tracker, options);
        if before.failed {
            before
        } else {
            let batch = batches.last();
            let schema = if before.sent {
                before.schema
            } else {
                Some(schema_encoding(batch, before.tracker, options))
            };
            let ready = if before.sent {
                before.tracker
            } else {
                tracker_after_schema(batch, before.tracker, options)
            };
            Encoded {
                sent: true,
                tracker: tracker_after_batch(batch, ready, options),
                schema,
                batches: match batch_encoding(batch, ready, options) {
                    Some(e) => before.batches.push(e),
                    None => before.batches,
                },
                failed: batch_encoding(batch, ready, options) is None,
            }
        }
    }
}

/// Once a batch could not be encoded, the batches behind it change nothing.
pub proof fn lemma_failure_stops(
    batches: Seq<Batch>,
    upto: int,
    sent: bool,
    tracker: DictionaryTracker,
    options: IpcWriteOptions,
)
    requires
        0 <= upto <= batches.len(),
        encoded_from(batches.take(upto), sent, tracker, options).failed,
    ensures
        encoded_from(batches, sent, tracker, options) == encoded_from(
            batches.take(upto),
            sent,
            tracker,
            options,
        ),
    decreases batches.len(),
{
    if upto < batches.len() {
        assert(batches.drop_last().take(upto) =~= batches.take(upto));
        lemma_failure_stops(batches.drop_last(), upto, sent, tracker, options);
    } else {
        assert(batches.take(upto) =~= batches);
    }
}

/// Where every batch was encoded there is one encoding for each batch, the
/// schema was sent exactly where the connection had not sent it and there
/// was a batch, and the frames are those of `step_frames`.
pub proof fn lemma_encoded_shape(
    batches: Seq<Batch>,
    sent: bool,
    tracker: DictionaryTracker,
    options: IpcWriteOptions,
)
    requires
        !encoded_from(batches, sent, tracker, options).failed,
    ensures
        encoded_from(batches, sent, tracker, options).batches.len() == batches.len(),
        encoded_from(batches, sent, tracker, options).sent == (sent || batches.len() > 0),
        encoded_from(batches, sent, tracker, options).schema is Some <==> (!sent && batches.len()
            > 0),
        encoded_from(batches, sent, tracker, options).schema matches Some(schema) ==> update_frames(
            Some(schema),
            encoded_from(batches, sent, tracker, options).batches,
        ) == step_frames(sent, schema, encoded_from(batches, sent, tracker, options).batches),
        encoded_from(batches, sent, tracker, options).schema is None ==> forall|any: PayloadView|
            update_frames(None, encoded_from(batches, sent, tracker, options).batches)
                == #[trigger] step_frames(
                sent,
                any,
                encoded_from(batches, sent, tracker, options).batches,
            ),
    decreases batches.len(),
{
    if batches.len() > 0 {
        lemma_encoded_shape(batches.drop_last(), sent, tracker, options);
    }
}

/// The frames that a connection sends for one update. `sent` says whether
/// the connection has sent its schema before. The schema goes out once, in
/// front of the first batch of the connection.
pub open spec fn step_frames(
    sent: bool,
    schema: PayloadView,
    batches: Seq<EncodedBatchView>,
) -> Seq<FrameView> {
    update_frames(
        if !sent && batches.len() > 0 {
            Some(schema)
        } else {
            None
        },
        batches,
    )
}

/// The encodings of one update: of the schema of its batches, and of each
/// batch.
pub struct UpdateEncoding {
    pub schema: PayloadView,
    pub batches: Seq<EncodedBatchView>,
}

/// The frames that a connection sends for a sequence of updates, first to
/// last. `sent` says whether the connection has sent its schema before.
pub open spec fn stream_frames(sent: bool, updates: Seq<UpdateEncoding>) -> Seq<FrameView>
    decreases updates.len(),
{
    if updates.len() == 0 {
        Seq::empty()
    } else {
        step_frames(sent, updates[0].schema, updates[0].batches) + stream_frames(
            sent || updates[0].batches.len() > 0,
            updates.skip(1),
        )
    }
}

/// How many batches a sequence of updates holds.
pub open spec fn batch_total(updates: Seq<UpdateEncoding>) -> nat
    decreases updates.len(),
{
    if updates.len() == 0 {
        0
    } else {
        updates[0].batches.len() + batch_total(updates.skip(1))
    }
}

/// How many frames of one kind a sequence holds.
pub open spec fn count_kind(frames: Seq<FrameView>, kind: FrameKind) -> nat
    decreases frames.len(),
{
    if frames.len() == 0 {
        0
    } else {
        count_kind(frames.drop_last(), kind) + if frames.last().kind == kind {
            1nat
        } else {
            0nat
        }
    }
}

/// Counting frames of a kind distributes over concatenation.
pub proof fn lemma_count_concat(a: Seq<FrameView>, b: Seq<FrameView>, kind: FrameKind)
    ensures
        count_kind(a + b, kind) == count_kind(a, kind) + count_kind(b, kind),
    decreases b.len(),
{
    if b.len() == 0 {
        assert(a + b =~= a);
    } else {
        assert((a + b).drop_last() =~= a + b.drop_last());
        assert((a + b).last() == b.last());
        lemma_count_concat(a, b.drop_last(), kind);
    }
}

/// The frames of one batch hold no schema and exactly one batch frame, which
/// comes last.
pub proof fn lemma_batch_frames_shape(batch: EncodedBatchView)
    ensures
        batch_frames(batch).len() == batch.dictionaries.len() + 1,
        batch_frames(batch).last().kind == FrameKind::Batch,
        count_kind(batch_frames(batch), FrameKind::Schema) == 0,
        count_kind(batch_frames(batch), FrameKind::Batch) == 1,
        forall|i: int|
            0 <= i < batch.dictionaries.len() ==> (#[trigger] batch_frames(batch)[i]).kind
                == FrameKind::Dictionary,
{
    let dictionaries = batch.dictionaries.map_values(
        |p: PayloadView| framed(FrameKind::Dictionary, p),
    );
    lemma_only_dictionaries(dictionaries);
    assert(batch_frames(batch).drop_last() =~= dictionaries);
}

/// A sequence of dictionary frames holds no frame of another kind.
proof fn lemma_only_dictionaries(frames: Seq<FrameView>)
    requires
        forall|i: int| 0 <= i < frames.len() ==> (#[trigger] frames[i]).kind == FrameKind::Dictionary,
    ensures
        count_kind(frames, FrameKind::Schema) == 0,
        count_kind(frames, FrameKind::Batch) == 0,
    decreases frames.len(),
{
    if frames.len() > 0 {
        lemma_only_dictionaries(frames.drop_last());
    }
}

/// The frames of a list of batches hold no schema and one batch frame for
/// each batch.
pub proof fn lemma_all_batch_frames_shape(batches: Seq<EncodedBatchView>)
    ensures
        count_kind(all_batch_frames(batches), FrameKind::Schema) == 0,
        count_kind(all_batch_frames(batches), FrameKind::Batch) == batches.len(),
        all_batch_frames(batches).len() >= batches.len(),
    decreases batches.len(),
{
    if batches.len() > 0 {
        lemma_all_batch_frames_shape(batches.drop_last());
        lemma_batch_frames_shape(batches.last());
        lemma_count_concat(
            all_batch_frames(batches.drop_last()),
            batch_frames(batches.last()),
            FrameKind::Schema,
        );
        lemma_count_concat(
            all_batch_frames(batches.drop_last()),
            batch_frames(batches.last()),
            FrameKind::Batch,
        );
    }
}

/// Where no frame of a kind is counted, no frame has that kind.
pub proof fn lemma_count_zero(frames: Seq<FrameView>, kind: FrameKind, i: int)
    requires
        count_kind(frames, kind) == 0,
        0 <= i < frames.len(),
    ensures
        frames[i].kind != kind,
    decreases frames.len(),
{
    if i < frames.len() - 1 {
        lemma_count_zero(frames.drop_last(), kind, i);
    }
}

/// A connection sends one batch frame for each batch, and one schema frame
/// if it sends any batch and had not sent its schema before: none otherwise.
pub proof fn lemma_stream_counts(sent: bool, updates: Seq<UpdateEncoding>)
    ensures
        count_kind(stream_frames(sent, updates), FrameKind::Batch) == batch_total(updates),
        count_kind(stream_frames(sent, updates), FrameKind::Schema) == if !sent && batch_total(
            updates,
        ) > 0 {
            1nat
        } else {
            0nat
        },
    decreases updates.len(),
{
    if updates.len() > 0 {
        let first = updates[0];
        let now = sent || first.batches.len() > 0;
        let head = step_frames(sent, first.schema, first.batches);
        let tail = stream_frames(now, updates.skip(1));
        lemma_stream_counts(now, updates.skip(1));
        lemma_all_batch_frames_shape(first.batches);
        lemma_count_concat(head, tail, FrameKind::Batch);
        lemma_count_concat(head, tail, FrameKind::Schema);
        if !sent && first.batches.len() > 0 {
            let schema = seq![framed(FrameKind::Schema, first.schema)];
            assert(schema.drop_last() =~= Seq::<FrameView>::empty());
            assert(count_kind(schema.drop_last(), FrameKind::Schema) == 0);
            assert(count_kind(schema.drop_last(), FrameKind::Batch) == 0);
            assert(count_kind(schema, FrameKind::Schema) == 1);
            assert(count_kind(schema, FrameKind::Batch) == 0);
            lemma_count_concat(schema, all_batch_frames(first.batches), FrameKind::Batch);
            lemma_count_concat(schema, all_batch_frames(first.batches), FrameKind::Schema);
        }
    }
}

/// On a connection that starts with nothing sent, the schema is the first
/// frame and the only schema frame: it precedes every batch and dictionary.
pub proof fn lemma_schema_precedes_batches(updates: Seq<UpdateEncoding>)
    ensures
        stream_frames(false, updates).len() > 0 ==> stream_frames(false, updates)[0].kind
            == FrameKind::Schema,
        forall|i: int|
            0 < i < stream_frames(false, updates).len() ==> (#[trigger] stream_frames(
                false,
                updates,
            )[i]).kind != FrameKind::Schema,
    decreases updates.len(),
{
    if updates.len() > 0 {
        let first = updates[0];
        let rest = updates.skip(1);
        let all = stream_frames(false, updates);
        if first.batches.len() == 0 {
            assert(step_frames(false, first.schema, first.batches) =~= Seq::<FrameView>::empty());
            assert(all =~= stream_frames(false, rest));
            lemma_schema_precedes_batches(rest);
        } else {
            let schema = seq![framed(FrameKind::Schema, first.schema)];
            let body = all_batch_frames(first.batches) + stream_frames(true, rest);
            assert(all =~= schema + body);
            lemma_all_batch_frames_shape(first.batches);
            lemma_stream_counts(true, rest);
            lemma_count_concat(
                all_batch_frames(first.batches),
                stream_frames(true, rest),
                FrameKind::Schema,
            );
            assert forall|i: int| 0 < i < all.len() implies (#[trigger] all[i]).kind
                != FrameKind::Schema by {
                assert(all[i] == body[i - 1]);
                lemma_count_zero(body, FrameKind::Schema, i - 1);
            }
        }
    }
}

pub open spec fn encoding_failed_message() -> Seq<char> {
    "Unable to encode batch"@
}

/// The encoding state of one connection: whether its schema has been sent,
/// and which dictionaries have. Each connection has its own.
pub struct StreamEncoder {
    schema_sent: bool,
    tracker: DictionaryTracker,
    options: IpcWriteOptions,
}

impl StreamEncoder {
    /// Whether the connection has sent its schema.
    pub closed spec fn schema_sent(&self) -> bool {
        self.schema_sent
    }

    /// What the connection's tracker has seen.
    pub closed spec fn seen(&self) -> DictionaryTracker {
        self.tracker
    }

    /// The options with which the connection writes.
    pub closed spec fn options(&self) -> IpcWriteOptions {
        self.options
    }

    /// Where an update takes this connection.
    pub open spec fn after(&self, update: DataUpdate) -> Encoded {
        encoded_from(update.data@, self.schema_sent(), self.seen(), self.options())
    }

    /// The state of a connection that has sent nothing.
    pub fn new() -> (r: StreamEncoder)
        ensures
            !r.schema_sent(),
    {
        StreamEncoder { schema_sent: false, tracker: new_tracker(), options: default_options() }
    }

    /// Whether the connection has sent its schema.
    pub fn has_sent_schema(&self) -> (r: bool)
        ensures
            r == self.schema_sent(),
    {
        self.schema_sent
    }

    /// Encodes one update for this connection.
    ///
    /// The batches are encoded first to last, as `encoded_from` says. Where
    /// every batch can be encoded, the frames are the schema, in front where
    /// this connection sends its first batch, then for each batch its new
    /// dictionaries and the batch. An update without batches gives no frame
    /// and always succeeds. Where a batch cannot be encoded the failure is
    /// an `EncodingFailure` and no frame is handed out. Either way the
    /// connection keeps what it has sent and seen up to there.
    pub fn encode_update(&mut self, update: &DataUpdate) -> (r: Result<Vec<Frame>, FlightError>)
        ensures
            r is Ok <==> !old(self).after(*update).failed,
            r is Err ==> fails_with(r, ErrorKind::EncodingFailure, encoding_failed_message()),
            r matches Ok(frames) ==> frame_views(frames@) == update_frames(
                old(self).after(*update).schema,
                old(self).after(*update).batches,
            ),
            old(self).after(*update).schema matches Some(schema) ==> schema.body.len() == 0,
            final(self).schema_sent() == old(self).after(*update).sent,
            final(self).seen() == old(self).after(*update).tracker,
            final(self).options() == old(self).options(),
    {
        let mut schema: Option<Payload> = None;
        let mut encoded: Vec<EncodedBatch> = Vec::new();
        let mut i: usize = 0;
        let ghost all = update.data@;
        let ghost sent0 = self.schema_sent;
        let ghost tracker0 = self.tracker;
        let ghost options0 = self.options;
        proof {
            assert(all.take(0) =~= Seq::<Batch>::empty());
            assert(batch_views(encoded@) =~= Seq::<EncodedBatchView>::empty());
        }
        while i < update.data.len()
            invariant
                i <= update.data@.len(),
                all == update.data@,
                sent0 == old(self).schema_sent,
                tracker0 == old(self).tracker,
                options0 == old(self).options,
                self.options == options0,
                !encoded_from(all.take(i as int), sent0, tracker0, options0).failed,
                self.schema_sent == encoded_from(all.take(i as int), sent0, tracker0, options0).sent,
                self.tracker == encoded_from(all.take(i as int), sent0, tracker0, options0).tracker,
                payload_view(schema) == encoded_from(
                    all.take(i as int),
                    sent0,
                    tracker0,
                    options0,
                ).schema,
                batch_views(encoded@) == encoded_from(
                    all.take(i as int),
                    sent0,
                    tracker0,
                    options0,
                ).batches,
                schema matches Some(p) ==> p.body@.len() == 0,
            decreases update.data@.len() - i,
        {
            let batch = &update.data[i];
            let ghost next = encoded_from(all.take(i + 1), sent0, tracker0, options0);
            proof {
                assert(all.take(i + 1).drop_last() =~= all.take(i as int));
                assert(all.take(i + 1).last() == *batch);
            }
            if !self.schema_sent {
                schema = Some(encode_schema(batch, &mut self.tracker, &self.options));
                self.schema_sent = true;
            }
            assert(payload_view(schema) == next.schema);
            let result = encode_batch(batch, &mut self.tracker, &self.options);
            assert(self.tracker == next.tracker);
            assert(next.failed == (result is Err));
            match result {
                Ok(e) => {
                    let ghost before = batch_views(encoded@);
                    encoded.push(e);
                    proof {
                        assert(batch_views(encoded@) =~= before.push(e@));
                    }
                },
                Err(_) => {
                    proof {
                        lemma_failure_stops(all, i + 1, sent0, tracker0, options0);
                    }
                    return Err(
                        FlightError::new(
                            ErrorKind::EncodingFailure,
                            "Unable to encode batch".to_owned(),
                        ),
                    );
                },
            }
            i += 1;
        }
        proof {
            assert(all.take(all.len() as int) =~= all);
        }
        Ok(assemble(schema, encoded))
    }
}

/// What a connection's receiver reported.
pub enum ChannelEvent {
    /// An update arrived.
    Update(DataUpdate),
    /// The receiver fell behind and this many updates were dropped for it.
    Lagged(u64),
    /// The channel is closed: no update will arrive any more.
    Closed,
}

/// What a connection does after an event.
pub enum StreamStep {
    /// Send these frames and go on receiving.
    Emit(Vec<Frame>),
    /// Send nothing and go on receiving.
    Skip,
    /// End the stream.
    Finish,
    /// Abort the connection with this failure.
    Abort(FlightError),
}

/// Decides what a connection does after an event of its receiver.
///
/// An update is encoded and its frames are sent; where it cannot be encoded
/// the connection is aborted. Updates that the receiver lost by falling
/// behind are passed over in silence: the stream goes on with the updates
/// that are still there. A closed channel ends the stream.
pub fn next_step(encoder: &mut StreamEncoder, event: ChannelEvent) -> (r: StreamStep)
    ensures
        match event {
            ChannelEvent::Lagged(_) => r is Skip && *final(encoder) == *old(encoder),
            ChannelEvent::Closed => r is Finish && *final(encoder) == *old(encoder),
            ChannelEvent::Update(update) => {
                &&& final(encoder).schema_sent() == old(encoder).after(update).sent
                &&& final(encoder).seen() == old(encoder).after(update).tracker
                &&& final(encoder).options() == old(encoder).options()
                &&& match r {
                    StreamStep::Emit(frames) => !old(encoder).after(update).failed && frame_views(
                        frames@,
                    ) == update_frames(
                        old(encoder).after(update).schema,
                        old(encoder).after(update).batches,
                    ),
                    StreamStep::Abort(e) => old(encoder).after(update).failed && e.has(
                        ErrorKind::EncodingFailure,
                        encoding_failed_message(),
                    ),
                    _ => false,
                }
            },
        },
{
    match event {
        ChannelEvent::Lagged(_) => StreamStep::Skip,
        ChannelEvent::Closed => StreamStep::Finish,
        ChannelEvent::Update(update) => match encoder.encode_update(&update) {
            Ok(frames) => StreamStep::Emit(frames),
            Err(e) => StreamStep::Abort(e),
        },
    }
}

} // verus!
