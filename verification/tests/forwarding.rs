//! Tests of the update channel, the observer registry, and the update
//! forwarder: ordered exactly-once delivery, termination on a closed
//! channel, explicit publish errors, and single-registration semantics.

use std::sync::Arc;
use std::time::Duration;
use crossbeam::channel::{unbounded, Receiver, Sender};
use rust_multiplatform::{
    create_app_builder, create_model_update_channel, forward_next, AppBuilder, BuildableApp,
    PublishError, RmpAppModel, RmpModel, RmpViewModel, ViewModelRegistry,
};

#[derive(Debug, PartialEq, Clone)]
pub enum TestModelUpdate {
    TestUpdate { value: i32 },
}

#[derive(Debug, PartialEq)]
pub enum TestAction {
    TestAction,
    Emit(i32),
}

pub struct TestModel {
    pub count: i32,
    pub builder: AppBuilder<TestModel, TestModelUpdate>,
    update_tx: Sender<TestModelUpdate>,
}

impl RmpAppModel for TestModel {
    type ActionType = TestAction;
    type UpdateType = TestModelUpdate;

    fn create(data_dir: String) -> Self {
        let (update_tx, update_rx) = create_model_update_channel();
        TestModel { count: 0, builder: create_app_builder(data_dir, update_rx), update_tx }
    }

    fn action(&mut self, action: TestAction) {
        match action {
            TestAction::TestAction => self.count += 1,
            TestAction::Emit(value) => {
                let _ = self.update_tx.send(TestModelUpdate::TestUpdate { value });
            }
        }
    }

    fn get_update_receiver(&self) -> Arc<Receiver<TestModelUpdate>> {
        self.builder.model_update_rx.clone()
    }
}

impl BuildableApp<TestModelUpdate> for TestModel {
    fn builder(&self) -> &AppBuilder<TestModel, TestModelUpdate> {
        &self.builder
    }
}

/// A view model that forwards every received value into a plain channel
/// that the test can drain.
pub struct ForwardSink(Sender<i32>);

impl RmpViewModel for ForwardSink {
    type UpdateType = TestModelUpdate;

    fn model_update(&self, model_update: TestModelUpdate) {
        match model_update {
            TestModelUpdate::TestUpdate { value } => {
                let _ = self.0.send(value);
            }
        }
    }
}

#[test]
fn test_view_model() {
    let (sender, receiver) = unbounded();

    let mut registry = ViewModelRegistry::new();
    registry.init(sender);

    registry.model_update(TestModelUpdate::TestUpdate { value: 42 }).unwrap();

    if let Ok(update) = receiver.try_recv() {
        match update {
            TestModelUpdate::TestUpdate { value } => assert_eq!(value, 42),
        }
    } else {
        panic!("No update received");
    }
}

#[test]
fn forwarder_delivers_in_order_then_stops() {
    let (tx, rx) = create_model_update_channel::<TestModelUpdate>();
    let (sink_tx, sink_rx) = unbounded::<i32>();
    let sink = ForwardSink(sink_tx);

    for value in [1, 2, 3] {
        tx.send(TestModelUpdate::TestUpdate { value }).unwrap();
    }
    drop(tx);

    while forward_next(&rx, &sink) {}

    let seen: Vec<i32> = sink_rx.try_iter().collect();
    assert_eq!(seen, vec![1, 2, 3]);
}

#[test]
fn forwarder_stops_on_empty_closed_channel() {
    let (tx, rx) = create_model_update_channel::<TestModelUpdate>();
    let (sink_tx, sink_rx) = unbounded::<i32>();
    let sink = ForwardSink(sink_tx);

    drop(tx);

    assert!(!forward_next(&rx, &sink));
    assert!(sink_rx.try_recv().is_err());
}

#[test]
fn observer_receives_emitted_update() {
    let model = RmpModel::<TestModel>::new("test_dir".to_string());
    let (sink_tx, sink_rx) = unbounded::<i32>();

    let registration = model.register_observer(Box::new(ForwardSink(sink_tx)));
    let (update_rx, sink) = registration.expect("first registration must win");

    model.action(TestAction::Emit(42));

    assert!(forward_next(&update_rx, &*sink));
    assert_eq!(sink_rx.recv_timeout(Duration::from_secs(5)).unwrap(), 42);
}

#[test]
fn second_observer_registration_is_ignored() {
    let model = RmpModel::<TestModel>::new("test_dir".to_string());
    let (a_tx, a_rx) = unbounded::<i32>();
    let (b_tx, b_rx) = unbounded::<i32>();

    let first = model.register_observer(Box::new(ForwardSink(a_tx)));
    assert!(first.is_some());

    let second = model.register_observer(Box::new(ForwardSink(b_tx)));
    assert!(second.is_none());

    model.action(TestAction::Emit(7));

    let (update_rx, sink) = first.unwrap();
    assert!(forward_next(&update_rx, &*sink));
    assert_eq!(a_rx.try_recv().unwrap(), 7);
    assert!(b_rx.try_recv().is_err());
}

#[test]
fn publish_without_observer_hands_update_back() {
    let registry = ViewModelRegistry::new();

    match registry.model_update(TestModelUpdate::TestUpdate { value: 5 }) {
        Err(PublishError::NoObserver(TestModelUpdate::TestUpdate { value })) => {
            assert_eq!(value, 5)
        }
        _ => panic!("expected the update back as NoObserver"),
    }
}

#[test]
fn publish_after_receiver_dropped_reports_send_failed() {
    let (tx, rx) = unbounded::<TestModelUpdate>();
    drop(rx);

    let mut registry = ViewModelRegistry::new();
    registry.init(tx);

    match registry.model_update(TestModelUpdate::TestUpdate { value: 11 }) {
        Err(PublishError::SendFailed(TestModelUpdate::TestUpdate { value })) => {
            assert_eq!(value, 11)
        }
        _ => panic!("expected the update back as SendFailed"),
    }
}

#[test]
fn registry_first_binding_wins() {
    let (tx1, rx1) = unbounded::<TestModelUpdate>();
    let (tx2, rx2) = unbounded::<TestModelUpdate>();

    let mut registry = ViewModelRegistry::new();
    assert!(!registry.has_observer());
    registry.init(tx1);
    assert!(registry.has_observer());
    registry.init(tx2);

    registry.model_update(TestModelUpdate::TestUpdate { value: 9 }).unwrap();

    assert_eq!(rx1.try_recv().unwrap(), TestModelUpdate::TestUpdate { value: 9 });
    assert!(rx2.try_recv().is_err());
}

#[test]
fn app_builder_holds_configuration() {
    let (tx, rx) = create_model_update_channel::<TestModelUpdate>();

    let builder: AppBuilder<TestModel, TestModelUpdate> =
        create_app_builder("dir_a".to_string(), rx);
    assert_eq!(builder.data_dir, "dir_a");

    tx.send(TestModelUpdate::TestUpdate { value: 3 }).unwrap();
    assert_eq!(
        builder.model_update_rx.try_recv().unwrap(),
        TestModelUpdate::TestUpdate { value: 3 }
    );
}

#[test]
fn buildable_app_exposes_builder() {
    let model = TestModel::create("dir_b".to_string());

    assert_eq!(model.builder().data_dir, "dir_b");

    model.update_tx_probe();
}

impl TestModel {
    /// Send one update and check it comes out of the builder's receiver.
    fn update_tx_probe(&self) {
        self.update_tx.send(TestModelUpdate::TestUpdate { value: 21 }).unwrap();
        assert_eq!(
            self.builder().model_update_rx.try_recv().unwrap(),
            TestModelUpdate::TestUpdate { value: 21 }
        );
    }
}
