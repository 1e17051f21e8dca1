use vstd::prelude::*;
use crate::participant::{Info, Participant, Port};

verus! {

/// A command for the AMQP channel, as plain values.
pub enum CommandView {
    DeclareQueue { queue: Seq<char>, passive: bool, durable: bool, exclusive: bool, auto_delete: bool, nowait: bool },
    DeclareExchange {
        exchange: Seq<char>,
        kind: Seq<char>,
        passive: bool,
        durable: bool,
        auto_delete: bool,
        internal: bool,
        nowait: bool,
    },
    Consume { queue: Seq<char>, consumer_tag: Seq<char>, no_local: bool, no_ack: bool, exclusive: bool, nowait: bool },
    Publish {
        exchange: Seq<char>,
        routing_key: Seq<char>,
        mandatory: bool,
        immediate: bool,
        content_type: Seq<char>,
        body: Seq<u8>,
    },
    Ack { delivery_tag: u64, multiple: bool },
    Nack { delivery_tag: u64, multiple: bool, requeue: bool },
    CloseChannel { reply_code: u16, reply_text: Seq<char> },
    CloseSession { reply_code: u16, reply_text: Seq<char> },
}

/// What a participant asks of its AMQP channel and session; each variant
/// carries the arguments of the channel method of the same name.
#[derive(Debug, PartialEq, Eq)]
pub enum Command {
    /// `queue_declare`
    DeclareQueue { queue: String, passive: bool, durable: bool, exclusive: bool, auto_delete: bool, nowait: bool },
    /// `exchange_declare`
    DeclareExchange {
        exchange: String,
        kind: String,
        passive: bool,
        durable: bool,
        auto_delete: bool,
        internal: bool,
        nowait: bool,
    },
    /// `basic_consume`, with the participant's consumer
    Consume { queue: String, consumer_tag: String, no_local: bool, no_ack: bool, exclusive: bool, nowait: bool },
    /// `basic_publish`, with the given content type
    Publish {
        exchange: String,
        routing_key: String,
        mandatory: bool,
        immediate: bool,
        content_type: String,
        body: Vec<u8>,
    },
    /// `basic_ack`
    Ack { delivery_tag: u64, multiple: bool },
    /// `basic_nack`
    Nack { delivery_tag: u64, multiple: bool, requeue: bool },
    /// closing the channel
    CloseChannel { reply_code: u16, reply_text: String },
    /// closing the session
    CloseSession { reply_code: u16, reply_text: String },
}

impl View for Command {
    type V = CommandView;

    open spec fn view(&self) -> CommandView {
        match self {
            Command::DeclareQueue { queue, passive, durable, exclusive, auto_delete, nowait } =>
                CommandView::DeclareQueue {
                    queue: queue@,
                    passive: *passive,
                    durable: *durable,
                    exclusive: *exclusive,
                    auto_delete: *auto_delete,
                    nowait: *nowait,
                },
            Command::DeclareExchange { exchange, kind, passive, durable, auto_delete, internal, nowait } =>
                CommandView::DeclareExchange {
                    exchange: exchange@,
                    kind: kind@,
                    passive: *passive,
                    durable: *durable,
                    auto_delete: *auto_delete,
                    internal: *internal,
                    nowait: *nowait,
                },
            Command::Consume { queue, consumer_tag, no_local, no_ack, exclusive, nowait } =>
                CommandView::Consume {
                    queue: queue@,
                    consumer_tag: consumer_tag@,
                    no_local: *no_local,
                    no_ack: *no_ack,
                    exclusive: *exclusive,
                    nowait: *nowait,
                },
            Command::Publish { exchange, routing_key, mandatory, immediate, content_type, body } =>
                CommandView::Publish {
                    exchange: exchange@,
                    routing_key: routing_key@,
                    mandatory: *mandatory,
                    immediate: *immediate,
                    content_type: content_type@,
                    body: body@,
                },
            Command::Ack { delivery_tag, multiple } =>
                CommandView::Ack { delivery_tag: *delivery_tag, multiple: *multiple },
            Command::Nack { delivery_tag, multiple, requeue } =>
                CommandView::Nack { delivery_tag: *delivery_tag, multiple: *multiple, requeue: *requeue },
            Command::CloseChannel { reply_code, reply_text } =>
                CommandView::CloseChannel { reply_code: *reply_code, reply_text: reply_text@ },
            Command::CloseSession { reply_code, reply_text } =>
                CommandView::CloseSession { reply_code: *reply_code, reply_text: reply_text@ },
        }
    }
}

/// The views of a list of commands.
pub open spec fn commands_view(cmds: Seq<Command>) -> Seq<CommandView> {
    cmds.map_values(|c: Command| c@)
}

/// The queue on which participants announce themselves to the runtime.
pub open spec fn discovery_queue() -> Seq<char> {
    "fbp"@
}

/// The content type of everything a participant publishes.
pub open spec fn json_content_type() -> Seq<char> {
    "application/json"@
}

/// A participant's queues are durable, not exclusive, not deleted when
/// unused, declared for real (not passively) and waited for.
pub open spec fn spec_declare_queue(queue: Seq<char>) -> CommandView {
    CommandView::DeclareQueue {
        queue: queue,
        passive: false,
        durable: true,
        exclusive: false,
        auto_delete: false,
        nowait: false,
    }
}

/// Declaring the queue of an inport and consuming from it, with the
/// broker's choice of consumer tag and acknowledgements by hand.
pub open spec fn spec_inport_setup(queue: Seq<char>) -> Seq<CommandView> {
    seq![
        spec_declare_queue(queue),
        CommandView::Consume {
            queue: queue,
            consumer_tag: Seq::empty(),
            no_local: false,
            no_ack: false,
            exclusive: false,
            nowait: false,
        },
    ]
}

/// Declaring the exchange of an outport: a durable fanout exchange.
pub open spec fn spec_outport_setup(exchange: Seq<char>) -> Seq<CommandView> {
    seq![
        CommandView::DeclareExchange {
            exchange: exchange,
            kind: "fanout"@,
            passive: false,
            durable: true,
            auto_delete: false,
            internal: false,
            nowait: false,
        },
    ]
}

/// Publishing JSON data, mandatory and not immediate.
pub open spec fn spec_publish(exchange: Seq<char>, routing_key: Seq<char>, body: Seq<u8>) -> CommandView {
    CommandView::Publish {
        exchange: exchange,
        routing_key: routing_key,
        mandatory: true,
        immediate: false,
        content_type: json_content_type(),
        body: body,
    }
}

/// Declaring a queue and sending the payload to it through the default
/// exchange.
pub open spec fn spec_queue_and_send(queue: Seq<char>, payload: Seq<u8>) -> Seq<CommandView> {
    seq![spec_declare_queue(queue), spec_publish(Seq::empty(), queue, payload)]
}

/// Sending the output of the process function to an outport's exchange.
pub open spec fn spec_send_out(exchange: Seq<char>, data: Seq<u8>) -> CommandView {
    spec_publish(exchange, Seq::empty(), data)
}

/// The answer to a delivery: on success the output is sent out and the
/// delivery acknowledged; on failure the delivery is refused and requeued.
pub open spec fn spec_delivery(outqueue: Seq<char>, delivery_tag: u64, result: Result<Seq<u8>, Seq<u8>>) -> Seq<CommandView> {
    match result {
        Ok(data) => seq![
            spec_send_out(outqueue, data),
            CommandView::Ack { delivery_tag: delivery_tag, multiple: false },
        ],
        Err(_) => seq![CommandView::Nack { delivery_tag: delivery_tag, multiple: true, requeue: true }],
    }
}

/// The result of a process function, as plain values.
pub open spec fn result_view(result: Result<Vec<u8>, Vec<u8>>) -> Result<Seq<u8>, Seq<u8>> {
    match result {
        Ok(data) => Ok(data@),
        Err(data) => Err(data@),
    }
}

/// Starting a participant: its first inport, then its first outport, then
/// the discovery message.
pub open spec fn spec_startup(inqueue: Seq<char>, outexchange: Seq<char>, payload: Seq<u8>) -> Seq<CommandView> {
    spec_inport_setup(inqueue) + spec_outport_setup(outexchange) + spec_queue_and_send(discovery_queue(), payload)
}

/// Stopping a participant: closing the channel, then the session.
pub open spec fn spec_shutdown() -> Seq<CommandView> {
    seq![
        CommandView::CloseChannel { reply_code: 200, reply_text: "Bye"@ },
        CommandView::CloseSession { reply_code: 200, reply_text: "Good Bye"@ },
    ]
}

fn declare_queue(queue: &str) -> (res: Command)
    ensures
        res@ == spec_declare_queue(queue@),
{
    Command::DeclareQueue {
        queue: queue.to_owned(),
        passive: false,
        durable: true,
        exclusive: false,
        auto_delete: false,
        nowait: false,
    }
}

fn publish(exchange: &str, routing_key: &str, body: Vec<u8>) -> (res: Command)
    ensures
        res@ == spec_publish(exchange@, routing_key@, body@),
{
    Command::Publish {
        exchange: exchange.to_owned(),
        routing_key: routing_key.to_owned(),
        mandatory: true,
        immediate: false,
        content_type: "application/json".to_owned(),
        body: body,
    }
}

/// The commands that set up an inport bound to `queue`.
pub fn inport_setup_commands(queue: &str) -> (res: Vec<Command>)
    ensures
        commands_view(res@) == spec_inport_setup(queue@),
{
    let mut res: Vec<Command> = Vec::new();
    res.push(declare_queue(queue));
    res.push(
        Command::Consume {
            queue: queue.to_owned(),
            consumer_tag: String::new(),
            no_local: false,
            no_ack: false,
            exclusive: false,
            nowait: false,
        },
    );
    assert(commands_view(res@) =~= spec_inport_setup(queue@));
    res
}

/// The commands that set up an outport bound to `exchange`.
pub fn outport_setup_commands(exchange: &str) -> (res: Vec<Command>)
    ensures
        commands_view(res@) == spec_outport_setup(exchange@),
{
    let mut res: Vec<Command> = Vec::new();
    res.push(
        Command::DeclareExchange {
            exchange: exchange.to_owned(),
            kind: "fanout".to_owned(),
            passive: false,
            durable: true,
            auto_delete: false,
            internal: false,
            nowait: false,
        },
    );
    assert(commands_view(res@) =~= spec_outport_setup(exchange@));
    res
}

/// The commands that declare `queue` and send `payload` to it.
pub fn queue_and_send_commands(queue: &str, payload: Vec<u8>) -> (res: Vec<Command>)
    ensures
        commands_view(res@) == spec_queue_and_send(queue@, payload@),
{
    let mut res: Vec<Command> = Vec::new();
    res.push(declare_queue(queue));
    res.push(publish("", queue, payload));
    proof {
        reveal_strlit("");
        assert(""@ =~= Seq::<char>::empty());
    }
    assert(commands_view(res@) =~= spec_queue_and_send(queue@, payload@));
    res
}

/// The commands that announce a participant: its description, encoded as
/// JSON in `payload`, sent to the discovery queue.
pub fn discovery_commands(payload: Vec<u8>) -> (res: Vec<Command>)
    ensures
        commands_view(res@) == spec_queue_and_send(discovery_queue(), payload@),
{
    queue_and_send_commands("fbp", payload)
}

/// The command that sends the output of the process function to `exchange`.
pub fn send_out_command(exchange: &str, data: Vec<u8>) -> (res: Command)
    ensures
        res@ == spec_send_out(exchange@, data@),
{
    proof {
        reveal_strlit("");
        assert(""@ =~= Seq::<char>::empty());
    }
    publish(exchange, "", data)
}

/// The answer to the delivery `delivery_tag`, given what the process
/// function returned for it: see [`spec_delivery`].
pub fn delivery_commands(outqueue: &str, delivery_tag: u64, result: Result<Vec<u8>, Vec<u8>>) -> (res: Vec<Command>)
    ensures
        commands_view(res@) == spec_delivery(outqueue@, delivery_tag, result_view(result)),
{
    let mut res: Vec<Command> = Vec::new();
    match result {
        Ok(data) => {
            res.push(send_out_command(outqueue, data));
            res.push(Command::Ack { delivery_tag, multiple: false });
        },
        Err(_) => {
            res.push(Command::Nack { delivery_tag, multiple: true, requeue: true });
        },
    }
    assert(commands_view(res@) =~= spec_delivery(outqueue@, delivery_tag, result_view(result)));
    res
}


/// The commands that stop a participant.
pub fn shutdown_commands() -> (res: Vec<Command>)
    ensures
        commands_view(res@) == spec_shutdown(),
{
    let mut res: Vec<Command> = Vec::new();
    res.push(Command::CloseChannel { reply_code: 200, reply_text: "Bye".to_owned() });
    res.push(Command::CloseSession { reply_code: 200, reply_text: "Good Bye".to_owned() });
    assert(commands_view(res@) =~= spec_shutdown());
    res
}

/// Consumes the messages that arrive on an inport: each goes through the
/// process function, and its output goes to `outqueue`.
pub struct PortConsumer<F> {
    pub process: F,
    pub portname: String,
    pub outqueue: String,
}

impl<F: Fn(Vec<u8>) -> Result<Vec<u8>, Vec<u8>>> PortConsumer<F> {
    /// Runs the process function on a delivered message and answers the
    /// delivery as [`spec_delivery`] says for whatever the function returned.
    pub fn handle_delivery(&self, delivery_tag: u64, body: Vec<u8>) -> (res: Vec<Command>)
        requires
            call_requires(self.process, (body,)),
        ensures
            exists|result: Result<Vec<u8>, Vec<u8>>|
                call_ensures(self.process, (body,), result)
                    && commands_view(res@) == #[trigger] spec_delivery(
                    self.outqueue@,
                    delivery_tag,
                    result_view(result),
                ),
    {
        let result = (self.process)(body);
        delivery_commands(self.outqueue.as_str(), delivery_tag, result)
    }
}

/// Sets up an inport of a participant: the consumer that serves it, which
/// sends its output to the queue of the participant's first outport, and the
/// commands that declare and consume the port's queue.
pub fn setup_inport<F: Copy>(participant: &Participant<F>, port: &Port) -> (res: (PortConsumer<F>, Vec<Command>))
    requires
        participant.info@.outports.len() > 0,
    ensures
        res.0.process == participant.process,
        res.0.portname@ == port.id@,
        res.0.outqueue@ == participant.info.outports[0].queue@,
        commands_view(res.1@) == spec_inport_setup(port.queue@),
{
    let consumer = PortConsumer {
        process: participant.process,
        portname: port.id.clone(),
        outqueue: participant.info.outports[0].queue.clone(),
    };
    let commands = inport_setup_commands(port.queue.as_str());
    (consumer, commands)
}

/// Starts a participant: sets up its first inport and its first outport and
/// announces it with `discovery_payload`, its description encoded as JSON.
pub fn start_participant<F: Copy>(participant: &Participant<F>, discovery_payload: Vec<u8>) -> (res: (
    PortConsumer<F>,
    Vec<Command>,
))
    requires
        participant.info@.inports.len() > 0,
        participant.info@.outports.len() > 0,
    ensures
        res.0.process == participant.process,
        res.0.portname@ == participant.info.inports[0].id@,
        res.0.outqueue@ == participant.info.outports[0].queue@,
        commands_view(res.1@) == spec_startup(
            participant.info.inports[0].queue@,
            participant.info.outports[0].queue@,
            discovery_payload@,
        ),
{
    let (consumer, mut commands) = setup_inport(participant, &participant.info.inports[0]);
    let ghost inport = commands@;
    let mut outport = outport_setup_commands(participant.info.outports[0].queue.as_str());
    let ghost outport_view = outport@;
    let mut discovery = discovery_commands(discovery_payload);
    let ghost discovery_view = discovery@;
    commands.append(&mut outport);
    commands.append(&mut discovery);
    assert(commands@ == inport + outport_view + discovery_view);
    assert(commands_view(commands@) =~= commands_view(inport) + commands_view(outport_view)
        + commands_view(discovery_view));
    (consumer, commands)
}

/// A delivery is answered exactly once, by its last command: acknowledged
/// when the process function succeeded, after its output was published
/// once, as JSON, to the outport's exchange; refused and requeued, with
/// nothing published, when it failed.
pub proof fn lemma_delivery_answered_once(outqueue: Seq<char>, delivery_tag: u64, result: Result<Seq<u8>, Seq<u8>>)
    ensures
        ({
            let cmds = spec_delivery(outqueue, delivery_tag, result);
            &&& cmds.len() >= 1
            &&& forall|k: int| 0 <= k < cmds.len() - 1 ==> (#[trigger] cmds[k]) is Publish
            &&& match result {
                Ok(data) => {
                    &&& cmds.last() == CommandView::Ack { delivery_tag: delivery_tag, multiple: false }
                    &&& cmds.len() == 2
                    &&& cmds[0] == spec_publish(outqueue, Seq::empty(), data)
                },
                Err(_) => {
                    &&& cmds.last() == CommandView::Nack { delivery_tag: delivery_tag, multiple: true, requeue: true }
                    &&& cmds.len() == 1
                },
            }
        }),
{
}

/// Starting a participant declares its inport's queue before consuming
/// from it, declares its outport's exchange, and ends by publishing the
/// discovery payload, as JSON, to the discovery queue.
pub proof fn lemma_startup_order(inqueue: Seq<char>, outexchange: Seq<char>, payload: Seq<u8>)
    ensures
        ({
            let cmds = spec_startup(inqueue, outexchange, payload);
            &&& cmds.len() == 5
            &&& cmds[0] == spec_declare_queue(inqueue)
            &&& cmds[1] is Consume && cmds[1]->Consume_queue == inqueue
            &&& cmds[2] is DeclareExchange && cmds[2]->DeclareExchange_exchange == outexchange
            &&& cmds[3] == spec_declare_queue(discovery_queue())
            &&& cmds.last() == spec_publish(Seq::empty(), discovery_queue(), payload)
        }),
{
}

/// Every publish carries exactly the bytes it was given, to the exchange
/// and routing key it was given, as mandatory, not immediate, JSON.
pub proof fn lemma_publish_carries_body(exchange: Seq<char>, routing_key: Seq<char>, body: Seq<u8>)
    ensures
        spec_publish(exchange, routing_key, body) == (CommandView::Publish {
            exchange: exchange,
            routing_key: routing_key,
            mandatory: true,
            immediate: false,
            content_type: "application/json"@,
            body: body,
        }),
        spec_send_out(exchange, body) == (CommandView::Publish {
            exchange: exchange,
            routing_key: Seq::empty(),
            mandatory: true,
            immediate: false,
            content_type: "application/json"@,
            body: body,
        }),
{
}

/// The answer to a delivery, command by command: on success the process
/// output, byte for byte, is published to the outport's exchange with an
/// empty routing key and then the delivery alone is acknowledged; on
/// failure the delivery and those before it are refused and requeued.
pub proof fn lemma_delivery_commands(outqueue: Seq<char>, delivery_tag: u64, data: Seq<u8>, error: Seq<u8>)
    ensures
        spec_delivery(outqueue, delivery_tag, Ok(data)) == seq![
            CommandView::Publish {
                exchange: outqueue,
                routing_key: Seq::empty(),
                mandatory: true,
                immediate: false,
                content_type: "application/json"@,
                body: data,
            },
            CommandView::Ack { delivery_tag: delivery_tag, multiple: false },
        ],
        spec_delivery(outqueue, delivery_tag, Err(error)) == seq![
            CommandView::Nack { delivery_tag: delivery_tag, multiple: true, requeue: true },
        ],
{
    assert(spec_delivery(outqueue, delivery_tag, Ok(data)) =~= seq![
        CommandView::Publish {
            exchange: outqueue,
            routing_key: Seq::empty(),
            mandatory: true,
            immediate: false,
            content_type: "application/json"@,
            body: data,
        },
        CommandView::Ack { delivery_tag: delivery_tag, multiple: false },
    ]);
}

/// Whatever the queue is called, an inport declares it durable, not
/// passive, not exclusive, not auto-deleted, waited for, and then consumes
/// from it with the broker's consumer tag and acknowledgements by hand.
pub proof fn lemma_inport_setup_commands(queue: Seq<char>)
    ensures
        spec_inport_setup(queue) == seq![
            CommandView::DeclareQueue {
                queue: queue,
                passive: false,
                durable: true,
                exclusive: false,
                auto_delete: false,
                nowait: false,
            },
            CommandView::Consume {
                queue: queue,
                consumer_tag: Seq::empty(),
                no_local: false,
                no_ack: false,
                exclusive: false,
                nowait: false,
            },
        ],
{
}

/// Whatever the exchange is called, an outport declares exactly one
/// durable fanout exchange of that name, not passive, not auto-deleted,
/// not internal, waited for.
pub proof fn lemma_outport_setup_commands(exchange: Seq<char>)
    ensures
        spec_outport_setup(exchange) == seq![
            CommandView::DeclareExchange {
                exchange: exchange,
                kind: "fanout"@,
                passive: false,
                durable: true,
                auto_delete: false,
                internal: false,
                nowait: false,
            },
        ],
{
}

/// Sending a payload to a queue declares the queue as a participant's
/// queue and publishes exactly the payload to it through the default
/// exchange; the discovery message goes to the queue "fbp".
pub proof fn lemma_queue_and_send_commands(queue: Seq<char>, payload: Seq<u8>)
    ensures
        spec_queue_and_send(queue, payload) == seq![
            CommandView::DeclareQueue {
                queue: queue,
                passive: false,
                durable: true,
                exclusive: false,
                auto_delete: false,
                nowait: false,
            },
            CommandView::Publish {
                exchange: Seq::empty(),
                routing_key: queue,
                mandatory: true,
                immediate: false,
                content_type: "application/json"@,
                body: payload,
            },
        ],
        discovery_queue() == "fbp"@,
{
}

/// Startup, command by command: the inport's queue declared and consumed
/// by hand, the outport's fanout exchange declared, the discovery queue
/// "fbp" declared and the payload, byte for byte, published to it.
pub proof fn lemma_startup_commands(inqueue: Seq<char>, outexchange: Seq<char>, payload: Seq<u8>)
    ensures
        spec_startup(inqueue, outexchange, payload) == seq![
            CommandView::DeclareQueue {
                queue: inqueue,
                passive: false,
                durable: true,
                exclusive: false,
                auto_delete: false,
                nowait: false,
            },
            CommandView::Consume {
                queue: inqueue,
                consumer_tag: Seq::empty(),
                no_local: false,
                no_ack: false,
                exclusive: false,
                nowait: false,
            },
            CommandView::DeclareExchange {
                exchange: outexchange,
                kind: "fanout"@,
                passive: false,
                durable: true,
                auto_delete: false,
                internal: false,
                nowait: false,
            },
            CommandView::DeclareQueue {
                queue: "fbp"@,
                passive: false,
                durable: true,
                exclusive: false,
                auto_delete: false,
                nowait: false,
            },
            CommandView::Publish {
                exchange: Seq::empty(),
                routing_key: "fbp"@,
                mandatory: true,
                immediate: false,
                content_type: "application/json"@,
                body: payload,
            },
        ],
{
    lemma_inport_setup_commands(inqueue);
    lemma_outport_setup_commands(outexchange);
    lemma_queue_and_send_commands(discovery_queue(), payload);
    assert(spec_startup(inqueue, outexchange, payload) =~= seq![
        CommandView::DeclareQueue {
            queue: inqueue,
            passive: false,
            durable: true,
            exclusive: false,
            auto_delete: false,
            nowait: false,
        },
        CommandView::Consume {
            queue: inqueue,
            consumer_tag: Seq::empty(),
            no_local: false,
            no_ack: false,
            exclusive: false,
            nowait: false,
        },
        CommandView::DeclareExchange {
            exchange: outexchange,
            kind: "fanout"@,
            passive: false,
            durable: true,
            auto_delete: false,
            internal: false,
            nowait: false,
        },
        CommandView::DeclareQueue {
            queue: "fbp"@,
            passive: false,
            durable: true,
            exclusive: false,
            auto_delete: false,
            nowait: false,
        },
        CommandView::Publish {
            exchange: Seq::empty(),
            routing_key: "fbp"@,
            mandatory: true,
            immediate: false,
            content_type: "application/json"@,
            body: payload,
        },
    ]);
}

/// Stopping closes the channel with 200 "Bye", then the session with 200
/// "Good Bye".
pub proof fn lemma_shutdown_commands()
    ensures
        spec_shutdown() == seq![
            CommandView::CloseChannel { reply_code: 200, reply_text: "Bye"@ },
            CommandView::CloseSession { reply_code: 200, reply_text: "Good Bye"@ },
        ],
{
}

} // verus!
