use msgflo::broker::{
    delivery_commands, discovery_commands, inport_setup_commands, outport_setup_commands,
    queue_and_send_commands, send_out_command, setup_inport, shutdown_commands, start_participant,
    Command,
};
use msgflo::participant::{InfoBuilder, Participant};

fn s(x: &str) -> String {
    x.to_string()
}

fn publish(exchange: &str, routing_key: &str, body: Vec<u8>) -> Command {
    Command::Publish {
        exchange: s(exchange),
        routing_key: s(routing_key),
        mandatory: true,
        immediate: false,
        content_type: s("application/json"),
        body,
    }
}

fn declare_queue(queue: &str) -> Command {
    Command::DeclareQueue {
        queue: s(queue),
        passive: false,
        durable: true,
        exclusive: false,
        auto_delete: false,
        nowait: false,
    }
}

fn repeat(input: Vec<u8>) -> Result<Vec<u8>, Vec<u8>> {
    Ok(input)
}

fn refuse(input: Vec<u8>) -> Result<Vec<u8>, Vec<u8>> {
    Err(input)
}

fn participant<F>(process: F) -> Participant<F> {
    let mut b = InfoBuilder::new("rust/Repeat");
    b.inport("in").outport("out");
    let mut info = b.build();
    info.inports[0].queue = s("rep.IN");
    info.outports[0].queue = s("rep.OUT");
    Participant { info, process }
}

#[test]
fn ok_result_is_sent_out_then_acked() {
    let cmds = delivery_commands("rep.OUT", 42, Ok(vec![1, 2, 3]));
    assert_eq!(
        cmds,
        vec![publish("rep.OUT", "", vec![1, 2, 3]), Command::Ack { delivery_tag: 42, multiple: false }]
    );
}

#[test]
fn error_result_is_nacked_and_requeued() {
    let cmds = delivery_commands("rep.OUT", 7, Err(vec![9]));
    assert_eq!(cmds, vec![Command::Nack { delivery_tag: 7, multiple: true, requeue: true }]);
}

#[test]
fn send_out_publishes_json_to_exchange() {
    assert_eq!(send_out_command("x", vec![5]), publish("x", "", vec![5]));
}

#[test]
fn queue_and_send_declares_then_publishes() {
    let body = b"{ \"data\": 300 }".to_vec();
    assert_eq!(
        queue_and_send_commands("rustparty.IN", body.clone()),
        vec![declare_queue("rustparty.IN"), publish("", "rustparty.IN", body)]
    );
}

#[test]
fn discovery_goes_to_fbp() {
    assert_eq!(discovery_commands(vec![1]), vec![declare_queue("fbp"), publish("", "fbp", vec![1])]);
}

#[test]
fn inport_and_outport_setup() {
    assert_eq!(
        inport_setup_commands("q"),
        vec![
            declare_queue("q"),
            Command::Consume {
                queue: s("q"),
                consumer_tag: s(""),
                no_local: false,
                no_ack: false,
                exclusive: false,
                nowait: false,
            },
        ]
    );
    assert_eq!(
        outport_setup_commands("e"),
        vec![Command::DeclareExchange {
            exchange: s("e"),
            kind: s("fanout"),
            passive: false,
            durable: true,
            auto_delete: false,
            internal: false,
            nowait: false,
        }]
    );
}

#[test]
fn startup_sets_up_ports_then_announces() {
    let p = participant(repeat);
    let (consumer, cmds) = start_participant(&p, b"{}".to_vec());
    assert_eq!(consumer.portname, "in");
    assert_eq!(consumer.outqueue, "rep.OUT");
    let mut expected = inport_setup_commands("rep.IN");
    expected.extend(outport_setup_commands("rep.OUT"));
    expected.extend(discovery_commands(b"{}".to_vec()));
    assert_eq!(cmds.len(), 5);
    assert_eq!(cmds, expected);
    assert_eq!(cmds[4], publish("", "fbp", b"{}".to_vec()));
}

#[test]
fn consumer_runs_process_function() {
    let p = participant(repeat);
    let (consumer, _) = setup_inport(&p, &p.info.inports[0]);
    assert_eq!(
        consumer.handle_delivery(1, vec![4, 2]),
        vec![publish("rep.OUT", "", vec![4, 2]), Command::Ack { delivery_tag: 1, multiple: false }]
    );
    let p = participant(refuse);
    let (consumer, _) = setup_inport(&p, &p.info.inports[0]);
    assert_eq!(
        consumer.handle_delivery(2, vec![4, 2]),
        vec![Command::Nack { delivery_tag: 2, multiple: true, requeue: true }]
    );
}

#[test]
fn shutdown_closes_channel_then_session() {
    assert_eq!(
        shutdown_commands(),
        vec![
            Command::CloseChannel { reply_code: 200, reply_text: s("Bye") },
            Command::CloseSession { reply_code: 200, reply_text: s("Good Bye") },
        ]
    );
}
