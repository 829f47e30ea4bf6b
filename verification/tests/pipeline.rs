use zenoh_flow::connector::{ConnectorKind, ConnectorRunner};
use zenoh_flow::engine::{EngineStep, InputRuleEngine};
use zenoh_flow::link::{link, LinkReceiver, LinkTable};
use zenoh_flow::message::{DataMessage, Message};
use zenoh_flow::model::ZFPortDescriptor;
use zenoh_flow::operator::OperatorRunner;
use zenoh_flow::runners::{Runner, RunnerKind};
use zenoh_flow::sink::SinkRunner;
use zenoh_flow::source::SourceRunner;
use zenoh_flow::types::ZFError;

fn port(id: &str, ty: &str) -> ZFPortDescriptor {
    ZFPortDescriptor { port_id: String::from(id), port_type: String::from(ty) }
}

fn encode(n: u64) -> Vec<u8> {
    n.to_le_bytes().to_vec()
}

fn decode(bytes: &[u8]) -> u64 {
    let mut raw = [0u8; 8];
    raw.copy_from_slice(bytes);
    u64::from_le_bytes(raw)
}

/// Pulls from the awaited ports until the node fires or nothing more is buffered.
fn gather(
    table: &mut LinkTable,
    receivers: &[LinkReceiver],
    engine: &mut InputRuleEngine,
) -> Option<Vec<(String, DataMessage)>> {
    loop {
        let mut progressed = false;
        for awaited in engine.awaited() {
            let rx = receivers.iter().find(|r| r.id() == awaited).unwrap();
            if let Ok(Some((id, msg))) = table.recv(rx) {
                progressed = true;
                if let EngineStep::Fire(inputs) = engine.on_message_default(&id, msg) {
                    return Some(inputs);
                }
            }
        }
        if !progressed {
            return None;
        }
    }
}

#[test]
fn echo_pipeline() {
    let mut table = LinkTable::new();
    let mut source = SourceRunner::new(String::from("counter"), vec![port("out", "int")]);
    let mut operator = OperatorRunner::new(
        String::from("plus-one"),
        vec![port("in", "int")],
        vec![port("out", "int")],
    );
    let mut sink = SinkRunner::new(String::from("collector"), vec![port("in", "int")]);

    let (tx, rx) = link(&mut table, None, String::from("out"), String::from("in"));
    source.add_output(tx).unwrap();
    operator.add_input(rx).unwrap();
    let (tx, rx) = link(&mut table, None, String::from("out"), String::from("in"));
    operator.add_output(tx).unwrap();
    sink.add_input(rx).unwrap();

    let operator_inputs = operator.get_input_links();
    let sink_inputs = sink.get_input_links();
    let mut operator_engine = operator.engine();
    let mut sink_engine = sink.engine();
    let mut collected: Vec<u64> = Vec::new();

    for tick in 1..=100u64 {
        let sent = source.publish(Ok(encode(tick)), tick).unwrap();
        assert_eq!(table.deliver(&sent, 0), Ok(sent.len()));

        let inputs = gather(&mut table, &operator_inputs, &mut operator_engine).unwrap();
        assert_eq!(inputs.len(), 1);
        let value = decode(&inputs[0].1.payload);
        let outputs = vec![(String::from("out"), encode(value + 1))];
        let sent = operator.publish(Ok(outputs), inputs[0].1.timestamp).unwrap();
        assert_eq!(table.deliver(&sent, 0), Ok(sent.len()));

        let inputs = gather(&mut table, &sink_inputs, &mut sink_engine).unwrap();
        collected.push(decode(&inputs[0].1.payload));
    }

    let expected: Vec<u64> = (2..=101).collect();
    assert_eq!(collected, expected);
}

#[test]
fn fan_out() {
    let mut table = LinkTable::new();
    let mut source = SourceRunner::new(String::from("letters"), vec![port("out", "str")]);
    let mut first = SinkRunner::new(String::from("first"), vec![port("in", "str")]);
    let mut second = SinkRunner::new(String::from("second"), vec![port("in", "str")]);

    let (tx, rx) = link(&mut table, None, String::from("out"), String::from("in"));
    source.add_output(tx).unwrap();
    first.add_input(rx).unwrap();
    let (tx, rx) = link(&mut table, None, String::from("out"), String::from("in"));
    source.add_output(tx).unwrap();
    second.add_input(rx).unwrap();

    for (at, letter) in ["a", "b", "c"].iter().enumerate() {
        let sent = source.publish(Ok(letter.as_bytes().to_vec()), at as u64).unwrap();
        assert_eq!(sent.len(), 2);
        assert_eq!(table.deliver(&sent, 0), Ok(2));
    }

    for sink in [&first, &second] {
        let inputs = sink.get_input_links();
        let mut engine = sink.engine();
        let mut seen: Vec<String> = Vec::new();
        while let Some(fired) = gather(&mut table, &inputs, &mut engine) {
            seen.push(String::from_utf8(fired[0].1.payload.clone()).unwrap());
        }
        assert_eq!(seen, vec!["a", "b", "c"]);
    }
}

#[test]
fn input_rule_synchrony() {
    let mut table = LinkTable::new();
    let mut operator = OperatorRunner::new(
        String::from("sum"),
        vec![port("x", "int"), port("y", "int")],
        vec![port("sum", "int")],
    );
    let (tx_x, rx_x) = link(&mut table, None, String::from("x"), String::from("x"));
    let (tx_y, rx_y) = link(&mut table, None, String::from("y"), String::from("y"));
    let (tx_out, rx_out) = link(&mut table, None, String::from("sum"), String::from("in"));
    operator.add_input(rx_x).unwrap();
    operator.add_input(rx_y).unwrap();
    operator.add_output(tx_out).unwrap();
    let inputs = operator.get_input_links();
    let mut engine = operator.engine();

    // The fast producer is done before the slow one starts.
    for x in [1u64, 2, 3] {
        table.send(&tx_x, Message::from_data(encode(x), x)).unwrap();
    }
    assert!(gather(&mut table, &inputs, &mut engine).is_none());
    assert_eq!(engine.awaited(), vec![String::from("y")]);

    let mut results: Vec<u64> = Vec::new();
    for y in [10u64, 20, 30] {
        table.send(&tx_y, Message::from_data(encode(y), y)).unwrap();
        let fired = gather(&mut table, &inputs, &mut engine).unwrap();
        assert_eq!(fired.len(), 2);
        assert_eq!(fired[0].0, "x");
        assert_eq!(fired[1].0, "y");
        let sum = decode(&fired[0].1.payload) + decode(&fired[1].1.payload);
        let sent = operator.publish(Ok(vec![(String::from("sum"), encode(sum))]), y).unwrap();
        assert_eq!(table.deliver(&sent, 0), Ok(1));
        // The next `x` is taken only after the firing.
        assert!(gather(&mut table, &inputs, &mut engine).is_none());
    }
    while let Ok(Some((id, msg))) = table.recv(&rx_out) {
        assert_eq!(id, "in");
        match msg {
            Message::Data(d) => results.push(decode(&d.payload)),
            Message::Control(_) => panic!("no control message was sent"),
        }
    }
    assert_eq!(results, vec![11, 22, 33]);
}

#[test]
fn runner_kinds_and_ports() {
    let source = SourceRunner::new(String::from("s"), vec![port("out", "t")]);
    assert_eq!(source.get_kind(), RunnerKind::Source);
    assert_eq!(source.get_id(), "s");
    assert!(source.get_inputs().is_empty());
    assert_eq!(source.get_outputs(), vec![port("out", "t")]);

    let operator =
        OperatorRunner::new(String::from("o"), vec![port("a", "t")], vec![port("b", "u")]);
    assert_eq!(operator.get_kind(), RunnerKind::Operator);
    assert_eq!(operator.get_inputs(), vec![port("a", "t")]);
    assert_eq!(operator.get_outputs(), vec![port("b", "u")]);

    let sink = SinkRunner::new(String::from("k"), vec![port("in", "t")]);
    assert_eq!(sink.get_kind(), RunnerKind::Sink);
    assert_eq!(sink.get_inputs(), vec![port("in", "t")]);
    assert!(sink.get_outputs().is_empty());
}

#[test]
fn wiring_the_wrong_side_is_refused() {
    let mut table = LinkTable::new();
    let (tx, rx) = link(&mut table, None, String::from("out"), String::from("in"));
    let mut source = SourceRunner::new(String::from("s"), vec![port("out", "t")]);
    let mut sink = SinkRunner::new(String::from("k"), vec![port("in", "t")]);
    assert_eq!(source.add_input(rx), Err(ZFError::Unimplemented));
    assert_eq!(sink.add_output(tx), Err(ZFError::Unimplemented));
    assert!(source.get_outputs_links().is_empty());
    assert!(sink.get_input_links().is_empty());
}

#[test]
fn a_second_receiver_replaces_the_first() {
    let mut table = LinkTable::new();
    let (_tx1, rx1) = link(&mut table, None, String::from("out"), String::from("in"));
    let (_tx2, rx2) = link(&mut table, None, String::from("out"), String::from("in"));
    let (_tx3, rx3) = link(&mut table, None, String::from("out"), String::from("other"));
    let mut sink = SinkRunner::new(String::from("k"), vec![port("in", "t"), port("other", "t")]);
    sink.add_input(rx1).unwrap();
    sink.add_input(rx3.clone()).unwrap();
    sink.add_input(rx2.clone()).unwrap();
    assert_eq!(sink.get_input_links(), vec![rx2, rx3]);
}

#[test]
fn operator_publishes_each_output_to_the_senders_of_its_port() {
    let mut table = LinkTable::new();
    let mut operator = OperatorRunner::new(
        String::from("split"),
        vec![port("in", "t")],
        vec![port("left", "t"), port("right", "t")],
    );
    let (left1, _r1) = link(&mut table, None, String::from("left"), String::from("a"));
    let (right, _r2) = link(&mut table, None, String::from("right"), String::from("b"));
    let (left2, _r3) = link(&mut table, None, String::from("left"), String::from("c"));
    operator.add_output(left1.clone()).unwrap();
    operator.add_output(right.clone()).unwrap();
    operator.add_output(left2.clone()).unwrap();

    let outputs = vec![
        (String::from("right"), vec![1u8]),
        (String::from("left"), vec![2u8]),
        (String::from("nowhere"), vec![3u8]),
    ];
    let sent = operator.publish(Ok(outputs), 7).unwrap();
    let summary: Vec<_> = sent.iter().map(|d| (d.sender.clone(), d.message.clone())).collect();
    assert_eq!(
        summary,
        vec![
            (right, Message::from_data(vec![1], 7)),
            (left1, Message::from_data(vec![2], 7)),
            (left2, Message::from_data(vec![2], 7)),
        ]
    );
}

#[test]
fn a_failed_body_publishes_nothing() {
    let source = SourceRunner::new(String::from("s"), vec![port("out", "t")]);
    assert_eq!(source.publish(Err(ZFError::MissingState), 0), Err(ZFError::MissingState));
    let operator = OperatorRunner::new(String::from("o"), vec![], vec![port("out", "t")]);
    assert_eq!(
        operator.publish(Err(ZFError::IOError(String::from("disk"))), 0),
        Err(ZFError::IOError(String::from("disk")))
    );
}

#[test]
fn a_source_without_port_sends_nothing() {
    let source = SourceRunner::new(String::from("s"), vec![]);
    assert_eq!(source.publish(Ok(vec![1, 2, 3]), 0), Ok(vec![]));
}

#[test]
fn a_receiver_connector_behaves_as_a_source() {
    let mut table = LinkTable::new();
    let mut connector = ConnectorRunner::new(
        String::from("in-bound"),
        ConnectorKind::Receiver,
        String::from("/zf/flow/link"),
        port("data", "t"),
    );
    assert_eq!(connector.get_kind(), RunnerKind::Connector);
    assert_eq!(connector.get_direction(), ConnectorKind::Receiver);
    assert_eq!(connector.get_resource(), "/zf/flow/link");
    assert!(connector.get_inputs().is_empty());
    assert_eq!(connector.get_outputs(), vec![port("data", "t")]);

    let (tx, rx) = link(&mut table, None, String::from("data"), String::from("in"));
    assert_eq!(connector.add_input(rx.clone()), Err(ZFError::Unimplemented));
    assert_eq!(connector.add_output(tx.clone()), Ok(()));
    assert_eq!(connector.get_outputs_links(), vec![tx.clone()]);

    let message = Message::from_data(vec![9], 3);
    let sent = connector.publish(Ok(message.clone())).unwrap();
    assert_eq!(sent.len(), 1);
    assert_eq!(sent[0].sender, tx);
    assert_eq!(sent[0].message, message);
    assert_eq!(connector.publish(Err(ZFError::LinkClosed)), Err(ZFError::LinkClosed));
}

#[test]
fn a_sender_connector_behaves_as_a_sink() {
    let mut table = LinkTable::new();
    let mut connector = ConnectorRunner::new(
        String::from("out-bound"),
        ConnectorKind::Sender,
        String::from("/zf/flow/link"),
        port("data", "t"),
    );
    assert_eq!(connector.get_inputs(), vec![port("data", "t")]);
    assert!(connector.get_outputs().is_empty());

    let (tx, rx) = link(&mut table, None, String::from("out"), String::from("data"));
    assert_eq!(connector.add_output(tx), Err(ZFError::Unimplemented));
    assert_eq!(connector.add_input(rx.clone()), Ok(()));
    assert_eq!(connector.get_input_links(), vec![rx]);
    assert_eq!(connector.publish(Ok(Message::from_data(vec![1], 1))), Ok(vec![]));
}
