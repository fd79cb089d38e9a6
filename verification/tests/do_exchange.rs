use std::collections::HashMap;
use std::sync::Arc;

use arrow::array::ArrayRef;
use arrow::array::DictionaryArray;
use arrow::array::Int32Array;
use arrow::array::StringArray;
use arrow::datatypes::DataType;
use arrow::datatypes::Field;
use arrow::datatypes::Int32Type;
use arrow::datatypes::Schema;
use arrow::record_batch::RecordBatch;
use arrow_flight::utils::flight_data_to_arrow_batch;
use arrow_flight::FlightData;
use spice_runtime::channel::count_delivered;
use spice_runtime::dataupdate::append_updates;
use spice_runtime::dataupdate::Batch;
use spice_runtime::dataupdate::DataUpdate;
use spice_runtime::dataupdate::UpdateType;
use spice_runtime::descriptor::FlightDescriptor;
use spice_runtime::do_exchange::refresh_updates;
use spice_runtime::do_exchange::requested_path;
use spice_runtime::do_exchange::select_all_query;
use spice_runtime::do_exchange::ChannelRegistry;
use spice_runtime::do_exchange::FirstMessage;
use spice_runtime::encoding::assemble;
use spice_runtime::encoding::next_step;
use spice_runtime::encoding::ChannelEvent;
use spice_runtime::encoding::EncodedBatch;
use spice_runtime::encoding::Frame;
use spice_runtime::encoding::FrameKind;
use spice_runtime::encoding::Payload;
use spice_runtime::encoding::StreamEncoder;
use spice_runtime::encoding::StreamStep;
use spice_runtime::error::ErrorKind;
use tokio::sync::broadcast::error::TryRecvError;
use tokio::sync::RwLock;

fn orders(ids: Vec<i32>, names: Vec<&str>) -> RecordBatch {
    let schema = Arc::new(Schema::new(vec![
        Field::new("id", DataType::Int32, false),
        Field::new("customer", DataType::Utf8, false),
    ]));
    let id: ArrayRef = Arc::new(Int32Array::from(ids));
    let customer: ArrayRef = Arc::new(StringArray::from(names));
    RecordBatch::try_new(schema, vec![id, customer]).unwrap()
}

fn wire(frame: &Frame) -> FlightData {
    FlightData {
        flight_descriptor: None,
        data_header: frame.header.clone().into(),
        app_metadata: Vec::<u8>::new().into(),
        data_body: frame.body.clone().into(),
    }
}

fn decode(frames: &[Frame]) -> (Schema, Vec<RecordBatch>) {
    assert_eq!(frames[0].kind, FrameKind::Schema);
    let schema = Schema::try_from(&wire(&frames[0])).unwrap();
    let schema_ref = Arc::new(schema.clone());
    let no_dictionaries: HashMap<i64, ArrayRef> = HashMap::new();
    let mut batches = Vec::new();
    for frame in &frames[1..] {
        assert_eq!(frame.kind, FrameKind::Batch);
        batches.push(
            flight_data_to_arrow_batch(&wire(frame), schema_ref.clone(), &no_dictionaries).unwrap(),
        );
    }
    (schema, batches)
}

fn path(parts: &[&str]) -> FirstMessage {
    FirstMessage::Message(Some(FlightDescriptor::new_path(
        parts.iter().map(|p| p.to_string()).collect(),
    )))
}

#[test]
fn the_requested_path_is_joined_by_dots() {
    assert_eq!(requested_path(path(&["sales", "orders"])).unwrap(), "sales.orders");
    assert_eq!(requested_path(path(&["orders"])).unwrap(), "orders");
    assert_eq!(requested_path(path(&["a", "b", "c"])).unwrap(), "a.b.c");
    assert_eq!(requested_path(path(&["a", ""])).unwrap(), "a.");
}

#[test]
fn a_bad_first_message_is_an_invalid_request() {
    let err = requested_path(FirstMessage::Missing).unwrap_err();
    assert_eq!(err.kind, ErrorKind::InvalidRequest);
    assert_eq!(
        err.message,
        "Need to send a FlightData message with a FlightDescriptor to subscribe to"
    );
    let err = requested_path(FirstMessage::Unreadable("broken pipe".to_string())).unwrap_err();
    assert_eq!(err.kind, ErrorKind::InvalidRequest);
    assert_eq!(err.message, "Unable to read subscription request: broken pipe");
    let err = requested_path(FirstMessage::Message(None)).unwrap_err();
    assert_eq!(err.kind, ErrorKind::InvalidRequest);
    assert_eq!(
        err.message,
        "Flight descriptor required to indicate which data to subscribe to"
    );
    let err = requested_path(path(&[])).unwrap_err();
    assert_eq!(err.kind, ErrorKind::InvalidRequest);
    assert_eq!(
        err.message,
        "Flight descriptor needs to specify a path to indicate which data to subscribe to"
    );
}

#[test]
fn subscribing_without_a_publisher_registers_nothing() {
    let mut registry = ChannelRegistry::new();
    let err = match registry.subscribe("sales.orders".to_string(), false) {
        Err(e) => e,
        Ok(_) => panic!("subscribed without a publisher"),
    };
    assert_eq!(err.kind, ErrorKind::UnknownDataset);
    assert_eq!(err.message, "Unknown dataset: \"sales.orders\"");
    assert_eq!(registry.len(), 0);
    assert!(!registry.contains(&"sales.orders".to_string()));
}

#[test]
fn two_subscriptions_share_one_channel() {
    let mut registry = ChannelRegistry::new();
    let first = registry.subscribe("sales.orders".to_string(), true).ok().unwrap();
    assert!(first.created);
    assert_eq!(registry.len(), 1);
    let other = registry.subscribe("sales.items".to_string(), true).ok().unwrap();
    assert!(other.created);
    let mut second = registry.subscribe("sales.orders".to_string(), true).ok().unwrap();
    assert!(!second.created);
    assert!(registry.join(&"sales.orders".to_string()).is_some());
    assert!(registry.join(&"sales.nothing".to_string()).is_none());
    assert_eq!(second.path, "sales.orders");
    assert_eq!(registry.len(), 2);
    assert!(registry.contains(&"sales.orders".to_string()));

    // what the first subscription sends reaches the second: it is one channel
    let mut first_receiver = first.receiver;
    let updates = append_updates(vec![Batch { inner: orders(vec![1], vec!["ann"]) }]);
    assert_eq!(registry.publish(&"sales.orders".to_string(), updates), Some(1));
    assert_eq!(second.receiver.try_recv().ok().unwrap().data[0].inner.num_rows(), 1);
    assert_eq!(first_receiver.try_recv().ok().unwrap().data[0].inner.num_rows(), 1);
    let mut other_receiver = other.receiver;
    assert!(matches!(other_receiver.try_recv(), Err(TryRecvError::Empty)));
}

#[test]
fn a_late_subscriber_sees_fewer_than_the_updates_sent_before() {
    let mut registry = ChannelRegistry::new();
    let first = registry.subscribe("sales.orders".to_string(), true).ok().unwrap();
    let _keep = first.receiver;
    let mut batches = Vec::new();
    for i in 0..150 {
        batches.push(Batch { inner: orders(vec![i], vec!["x"]) });
    }
    let updates = append_updates(batches);
    assert_eq!(updates.len(), 150);
    assert_eq!(registry.publish(&"sales.orders".to_string(), updates), Some(150));
    let mut late = registry.subscribe("sales.orders".to_string(), true).ok().unwrap();
    let mut seen = 0;
    while late.receiver.try_recv().is_ok() {
        seen += 1;
    }
    assert!(seen < 101);
    assert_eq!(seen, 0);
}

#[test]
fn a_slow_subscriber_loses_the_oldest_updates() {
    let mut registry = ChannelRegistry::new();
    let mut slow = registry.subscribe("sales.orders".to_string(), true).ok().unwrap();
    let mut batches = Vec::new();
    for i in 0..300 {
        batches.push(Batch { inner: orders(vec![i], vec!["x"]) });
    }
    assert_eq!(registry.publish(&"sales.orders".to_string(), append_updates(batches)), Some(300));
    let mut encoder = StreamEncoder::new();
    let mut lagged = 0u64;
    let mut emitted = 0usize;
    let mut last_id = -1;
    loop {
        let event = match slow.receiver.try_recv() {
            Ok(update) => {
                let id = update.data[0]
                    .inner
                    .column(0)
                    .as_any()
                    .downcast_ref::<Int32Array>()
                    .unwrap()
                    .value(0);
                assert!(id > last_id);
                last_id = id;
                ChannelEvent::Update(update)
            }
            Err(TryRecvError::Lagged(n)) => {
                lagged += n;
                ChannelEvent::Lagged(n)
            }
            Err(TryRecvError::Closed) => ChannelEvent::Closed,
            Err(TryRecvError::Empty) => break,
        };
        match next_step(&mut encoder, event) {
            StreamStep::Emit(_) => emitted += 1,
            StreamStep::Skip => {}
            StreamStep::Finish => break,
            StreamStep::Abort(_) => panic!("aborted"),
        }
    }
    assert!(lagged > 0);
    assert!(emitted < 300);
    assert_eq!(emitted as u64 + lagged, 300);
    assert_eq!(last_id, 299);
}

#[test]
fn publishing_without_receivers_delivers_nothing() {
    let mut registry = ChannelRegistry::new();
    let first = registry.subscribe("sales.orders".to_string(), true).ok().unwrap();
    drop(first.receiver);
    let updates = append_updates(vec![Batch { inner: orders(vec![1], vec!["ann"]) }]);
    assert_eq!(registry.publish(&"sales.orders".to_string(), updates), Some(0));
    assert_eq!(registry.publish(&"sales.orders".to_string(), vec![]), Some(0));
    let updates = append_updates(vec![Batch { inner: orders(vec![1], vec!["ann"]) }]);
    assert_eq!(registry.publish(&"sales.items".to_string(), updates), None);
}

#[test]
fn updates_append_one_batch_each_in_order() {
    let updates = append_updates(vec![
        Batch { inner: orders(vec![1], vec!["ann"]) },
        Batch { inner: orders(vec![2, 3], vec!["bob", "cy"]) },
    ]);
    assert_eq!(updates.len(), 2);
    assert_eq!(updates[0].update_type, UpdateType::Append);
    assert_eq!(updates[0].data.len(), 1);
    assert_eq!(updates[0].data[0].inner.num_rows(), 1);
    assert_eq!(updates[1].data[0].inner.num_rows(), 2);
    assert!(append_updates(vec![]).is_empty());
}

#[test]
fn an_update_is_read_back_as_it_was_published() {
    let mut registry = ChannelRegistry::new();
    let mut subscription = registry.subscribe("sales.orders".to_string(), true).ok().unwrap();
    let b1 = orders(vec![1, 2], vec!["ann", "bob"]);
    let b2 = orders(vec![3], vec!["cy"]);
    let update = DataUpdate {
        data: vec![Batch { inner: b1.clone() }, Batch { inner: b2.clone() }],
        update_type: UpdateType::Append,
    };
    assert_eq!(registry.publish(&"sales.orders".to_string(), vec![update]), Some(1));
    let received = subscription.receiver.try_recv().ok().unwrap();
    let mut encoder = StreamEncoder::new();
    let frames = encoder.encode_update(&received).unwrap();
    assert_eq!(frames.len(), 3);
    let (schema, batches) = decode(&frames);
    assert_eq!(&schema, b1.schema().as_ref());
    assert_eq!(batches, vec![b1, b2]);
}

#[test]
fn subscription_to_sales_orders_sends_schema_then_batch() {
    assert_eq!(select_all_query("sales.orders"), "SELECT * FROM \"sales.orders\"");
    let mut registry = ChannelRegistry::new();
    let wanted = requested_path(path(&["sales", "orders"])).unwrap();
    let mut subscription = registry.subscribe(wanted, true).ok().unwrap();
    let rows = orders(vec![1, 2], vec!["ann", "bob"]);
    let updates = append_updates(vec![Batch { inner: rows.clone() }]);
    assert_eq!(registry.publish(&"sales.orders".to_string(), updates), Some(1));

    let mut encoder = StreamEncoder::new();
    let event = ChannelEvent::Update(subscription.receiver.try_recv().ok().unwrap());
    let frames = match next_step(&mut encoder, event) {
        StreamStep::Emit(frames) => frames,
        _ => panic!("nothing emitted"),
    };
    assert_eq!(frames.len(), 2);
    assert_eq!(frames[0].kind, FrameKind::Schema);
    assert!(frames[0].body.is_empty());
    assert_eq!(frames[1].kind, FrameKind::Batch);
    let (schema, batches) = decode(&frames);
    assert_eq!(batches.len(), 1);
    assert_eq!(batches[0].num_rows(), 2);
    assert_eq!(schema.field(0).name(), "id");
    assert_eq!(schema.field(0).data_type(), &DataType::Int32);
    assert_eq!(schema.field(1).name(), "customer");
    assert_eq!(schema.field(1).data_type(), &DataType::Utf8);
    assert_eq!(batches[0], rows);
}

#[test]
fn the_schema_is_sent_once_per_connection() {
    let mut encoder = StreamEncoder::new();
    assert!(!encoder.has_sent_schema());
    let empty = DataUpdate { data: vec![], update_type: UpdateType::Append };
    assert!(encoder.encode_update(&empty).unwrap().is_empty());
    assert!(!encoder.has_sent_schema());
    let update = |ids: Vec<i32>, names: Vec<&str>| DataUpdate {
        data: vec![Batch { inner: orders(ids, names) }],
        update_type: UpdateType::Append,
    };
    let first = encoder.encode_update(&update(vec![1], vec!["ann"])).unwrap();
    assert_eq!(first.iter().map(|f| f.kind).collect::<Vec<_>>(), vec![FrameKind::Schema, FrameKind::Batch]);
    assert!(encoder.has_sent_schema());
    let second = encoder.encode_update(&update(vec![2], vec!["bob"])).unwrap();
    assert_eq!(second.iter().map(|f| f.kind).collect::<Vec<_>>(), vec![FrameKind::Batch]);
    // another connection starts over
    let mut other = StreamEncoder::new();
    let again = other.encode_update(&update(vec![2], vec!["bob"])).unwrap();
    assert_eq!(again[0].kind, FrameKind::Schema);
}

#[test]
fn dictionaries_precede_their_batch_and_are_sent_once() {
    let schema = Arc::new(Schema::new(vec![Field::new(
        "city",
        DataType::Dictionary(Box::new(DataType::Int32), Box::new(DataType::Utf8)),
        false,
    )]));
    let cities: DictionaryArray<Int32Type> = vec!["oslo", "rome", "oslo"].into_iter().collect();
    let column: ArrayRef = Arc::new(cities);
    let batch = RecordBatch::try_new(schema, vec![column]).unwrap();
    let update = DataUpdate {
        data: vec![Batch { inner: batch.clone() }, Batch { inner: batch }],
        update_type: UpdateType::Append,
    };
    let mut encoder = StreamEncoder::new();
    let frames = encoder.encode_update(&update).unwrap();
    let kinds: Vec<FrameKind> = frames.iter().map(|f| f.kind).collect();
    assert_eq!(
        kinds,
        vec![FrameKind::Schema, FrameKind::Dictionary, FrameKind::Batch, FrameKind::Batch]
    );
}

#[test]
fn lag_is_passed_over_and_a_closed_channel_ends_the_stream() {
    let mut encoder = StreamEncoder::new();
    assert!(matches!(next_step(&mut encoder, ChannelEvent::Lagged(3)), StreamStep::Skip));
    assert!(!encoder.has_sent_schema());
    assert!(matches!(next_step(&mut encoder, ChannelEvent::Closed), StreamStep::Finish));
}

#[test]
fn frames_are_laid_out_schema_dictionaries_batch() {
    let p = |h: u8| Payload { header: vec![h], body: vec![h, h] };
    let frames = assemble(
        Some(p(1)),
        vec![
            EncodedBatch { dictionaries: vec![p(2), p(3)], batch: p(4) },
            EncodedBatch { dictionaries: vec![], batch: p(5) },
        ],
    );
    let got: Vec<(FrameKind, u8)> = frames.iter().map(|f| (f.kind, f.header[0])).collect();
    assert_eq!(
        got,
        vec![
            (FrameKind::Schema, 1),
            (FrameKind::Dictionary, 2),
            (FrameKind::Dictionary, 3),
            (FrameKind::Batch, 4),
            (FrameKind::Batch, 5),
        ]
    );
    assert_eq!(frames[3].body, vec![4, 4]);
    assert!(assemble(None, vec![]).is_empty());
    let only = assemble(None, vec![EncodedBatch { dictionaries: vec![], batch: p(9) }]);
    assert_eq!(only.len(), 1);
    assert_eq!(only[0].kind, FrameKind::Batch);
}

#[test]
fn racing_subscribers_create_one_channel() {
    let runtime = tokio::runtime::Builder::new_multi_thread().worker_threads(4).build().unwrap();
    let registry = Arc::new(RwLock::new(ChannelRegistry::new()));
    let created = runtime.block_on(async {
        let mut tasks = Vec::new();
        for _ in 0..32 {
            let registry = Arc::clone(&registry);
            tasks.push(tokio::spawn(async move {
                let joined = registry.read().await.join(&"sales.orders".to_string());
                match joined {
                    Some(subscription) => subscription.created,
                    None => {
                        let mut registry = registry.write().await;
                        registry.subscribe("sales.orders".to_string(), true).ok().unwrap().created
                    }
                }
            }));
        }
        let mut created = 0;
        for task in tasks {
            if task.await.unwrap() {
                created += 1;
            }
        }
        created
    });
    assert_eq!(created, 1);
    assert_eq!(runtime.block_on(async { registry.read().await.len() }), 1);
}

#[test]
fn a_failed_refresh_publishes_nothing() {
    let err = match refresh_updates(Err("table not found".to_string())) {
        Err(e) => e,
        Ok(_) => panic!("published after a failure"),
    };
    assert_eq!(err.kind, ErrorKind::ExecutionFailure);
    assert_eq!(err.message, "table not found");
    let updates = refresh_updates(Ok(vec![
        Batch { inner: orders(vec![1], vec!["ann"]) },
        Batch { inner: orders(vec![2], vec!["bob"]) },
    ]))
    .ok()
    .unwrap();
    assert_eq!(updates.len(), 2);
    assert_eq!(updates[1].update_type, UpdateType::Append);
    assert_eq!(updates[1].data[0].inner.num_rows(), 1);
    assert!(refresh_updates(Ok(vec![])).ok().unwrap().is_empty());
}

#[test]
fn deliveries_are_counted_from_the_outcomes_of_the_sends() {
    assert_eq!(count_delivered(&vec![]), 0);
    assert_eq!(count_delivered(&vec![false, false]), 0);
    assert_eq!(count_delivered(&vec![true, false, true]), 2);
    assert_eq!(count_delivered(&vec![true; 5]), 5);
}
