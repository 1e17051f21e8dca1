//! Participant support for MsgFlo, the flow-based programming runtime:
//! participant descriptions, their normalisation, and the messaging
//! decisions of a participant connected to an AMQP broker.

pub mod broker;
pub mod normalize;
pub mod participant;
