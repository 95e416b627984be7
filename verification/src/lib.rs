//! A CAN database (dbc) format parser.
//! CAN databases are used to exchange details about a CAN network.
//! E.g. what messages are being send over the CAN bus and what data do they contain.
//!
//! The grammar of the format is written as spec functions over bytes
//! (`grammar`, `dbc::dbc`); the reader is proved to compute exactly what they
//! describe.
pub mod combinator;
pub mod dbc;
pub mod grammar;
pub mod keyword;
pub mod laws;
pub mod lexer;
pub mod text;
pub mod types;

pub use dbc::{Error, DBC};
pub use types::{
    AccessNode, AccessType, AttrDefault, AttributeDefault, AttributeDefinition, AttributeValue,
    AttributeValueForObject, AttributeValueType, AttributeValuedForObjectType, Baudrate, ByteOrder,
    Comment, EnvType, EnvironmentVariable, EnvironmentVariableData, Message, MessageId,
    MessageTransmitter, MultiplexIndicator, Node, Signal, SignalAttributeValue,
    SignalExtendedValueType, SignalExtendedValueTypeList, SignalGroups, SignalType, SignalTypeRef,
    Symbol, Transmitter, ValDescription, ValueDescription, ValueTable, ValueType, Version,
};
