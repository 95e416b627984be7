//! The content of a CAN database, and its mathematical model.
//!
//! Each type has a view (`@`) into a model type whose strings are `Seq<char>`
//! and whose vectors are `Seq`s of models. Numbers that the file writes as
//! decimal fractions (factors, offsets, limits, raw values) are kept as the
//! exact text they were written with.
use vstd::prelude::*;
use crate::combinator::views;

verus! {

/// Baudrate of network in kbit/s
#[derive(Copy, Clone, Debug, PartialEq, Eq, Structural)]
pub struct Baudrate(u64);

impl View for Baudrate {
    type V = u64;

    closed spec fn view(&self) -> u64 {
        self.0
    }
}

impl Baudrate {
    pub fn new(rate: u64) -> (r: Baudrate)
        ensures
            r@ == rate,
    {
        Baudrate(rate)
    }

    /// The baudrate in kbit/s.
    pub fn rate(&self) -> (r: u64)
        ensures
            r == self@,
    {
        self.0
    }
}

/// CAN id in header of CAN frame.
/// Must be unique in DBC file.
#[derive(Copy, Clone, Debug, PartialEq, Eq, Structural)]
pub struct MessageId(pub u64);

impl View for MessageId {
    type V = MessageId;

    open spec fn view(&self) -> MessageId {
        *self
    }
}

#[derive(Clone, Debug, PartialEq)]
pub enum Transmitter {
    /// node transmitting the message
    NodeName(String),
    /// message has no sender
    VectorXXX,
}

pub enum SpecTransmitter {
    NodeName(Seq<char>),
    VectorXXX,
}

impl View for Transmitter {
    type V = SpecTransmitter;

    open spec fn view(&self) -> SpecTransmitter {
        match self {
            Transmitter::NodeName(n) => SpecTransmitter::NodeName(n@),
            Transmitter::VectorXXX => SpecTransmitter::VectorXXX,
        }
    }
}

#[derive(Clone, Debug, PartialEq)]
pub struct MessageTransmitter {
    message_id: MessageId,
    transmitter: Vec<Transmitter>,
}

pub struct SpecMessageTransmitter {
    pub message_id: MessageId,
    pub transmitter: Seq<SpecTransmitter>,
}

impl View for MessageTransmitter {
    type V = SpecMessageTransmitter;

    closed spec fn view(&self) -> SpecMessageTransmitter {
        SpecMessageTransmitter { message_id: self.message_id, transmitter: views(self.transmitter@) }
    }
}

impl MessageTransmitter {
    pub fn new(message_id: MessageId, transmitter: Vec<Transmitter>) -> (r: Self)
        ensures
            r@ == (SpecMessageTransmitter { message_id, transmitter: views(transmitter@) }),
    {
        MessageTransmitter { message_id, transmitter }
    }

    pub fn message_id(&self) -> (r: &MessageId)
        ensures
            *r == self@.message_id,
    {
        &self.message_id
    }

    pub fn transmitter(&self) -> (r: &Vec<Transmitter>)
        ensures
            views(r@) == self@.transmitter,
    {
        &self.transmitter
    }
}

/// Version generated by DB editor
#[derive(Clone, Debug, PartialEq)]
pub struct Version(String);

impl View for Version {
    type V = Seq<char>;

    closed spec fn view(&self) -> Seq<char> {
        self.0@
    }
}

impl Version {
    pub fn new(v: String) -> (r: Self)
        ensures
            r@ == v@,
    {
        Version(v)
    }

    /// The text.
    pub fn as_str(&self) -> (r: &str)
        ensures
            r@ == self@,
    {
        self.0.as_str()
    }
}

#[derive(Clone, Debug, PartialEq)]
pub struct Symbol(String);

impl View for Symbol {
    type V = Seq<char>;

    closed spec fn view(&self) -> Seq<char> {
        self.0@
    }
}

impl Symbol {
    pub fn new(v: String) -> (r: Self)
        ensures
            r@ == v@,
    {
        Symbol(v)
    }

    /// The text.
    pub fn as_str(&self) -> (r: &str)
        ensures
            r@ == self@,
    {
        self.0.as_str()
    }
}

#[derive(Copy, Clone, Debug, PartialEq, Eq, Structural)]
pub enum MultiplexIndicator {
    /// Multiplexor switch
    Multiplexor,
    /// Signal us being multiplexed by the multiplexer switch.
    MultiplexedSignal(u64),
    /// Normal signal
    Plain,
}

impl View for MultiplexIndicator {
    type V = MultiplexIndicator;

    open spec fn view(&self) -> MultiplexIndicator {
        *self
    }
}

#[derive(Copy, Clone, Debug, PartialEq, Eq, Structural)]
pub enum ByteOrder {
    LittleEndian,
    BigEndian,
}

impl View for ByteOrder {
    type V = ByteOrder;

    open spec fn view(&self) -> ByteOrder {
        *self
    }
}

#[derive(Copy, Clone, Debug, PartialEq, Eq, Structural)]
pub enum ValueType {
    Signed,
    Unsigned,
}

impl View for ValueType {
    type V = ValueType;

    open spec fn view(&self) -> ValueType {
        *self
    }
}

#[derive(Copy, Clone, Debug, PartialEq, Eq, Structural)]
pub enum EnvType {
    EnvTypeFloat,
    EnvTypeu64,
    EnvTypeData,
}

impl View for EnvType {
    type V = EnvType;

    open spec fn view(&self) -> EnvType {
        *self
    }
}

/// One or multiple signals are the payload of a CAN frame.
/// To determine the actual value of a signal the following fn applies:
/// `let fnvalue = |can_signal_value| -> can_signal_value * factor + offset;`
///
/// `factor`, `offset`, `min` and `max` hold the decimal text of the number.
#[derive(Clone, Debug, PartialEq)]
pub struct Signal {
    name: String,
    multiplexer_indicator: MultiplexIndicator,
    pub start_bit: u64,
    pub signal_size: u64,
    byte_order: ByteOrder,
    value_type: ValueType,
    pub factor: String,
    pub offset: String,
    pub min: String,
    pub max: String,
    unit: String,
    receivers: Vec<String>,
}

pub struct SpecSignal {
    pub name: Seq<char>,
    pub multiplexer_indicator: MultiplexIndicator,
    pub start_bit: u64,
    pub signal_size: u64,
    pub byte_order: ByteOrder,
    pub value_type: ValueType,
    pub factor: Seq<char>,
    pub offset: Seq<char>,
    pub min: Seq<char>,
    pub max: Seq<char>,
    pub unit: Seq<char>,
    pub receivers: Seq<Seq<char>>,
}

impl View for Signal {
    type V = SpecSignal;

    closed spec fn view(&self) -> SpecSignal {
        SpecSignal {
            name: self.name@,
            multiplexer_indicator: self.multiplexer_indicator,
            start_bit: self.start_bit,
            signal_size: self.signal_size,
            byte_order: self.byte_order,
            value_type: self.value_type,
            factor: self.factor@,
            offset: self.offset@,
            min: self.min@,
            max: self.max@,
            unit: self.unit@,
            receivers: views(self.receivers@),
        }
    }
}

impl Signal {
    pub fn new(
        name: String,
        multiplexer_indicator: MultiplexIndicator,
        start_bit: u64,
        signal_size: u64,
        byte_order: ByteOrder,
        value_type: ValueType,
        factor: String,
        offset: String,
        min: String,
        max: String,
        unit: String,
        receivers: Vec<String>,
    ) -> (r: Self)
        ensures
            r@ == (SpecSignal {
                name: name@,
                multiplexer_indicator,
                start_bit,
                signal_size,
                byte_order,
                value_type,
                factor: factor@,
                offset: offset@,
                min: min@,
                max: max@,
                unit: unit@,
                receivers: views(receivers@),
            }),
    {
        Signal {
            name,
            multiplexer_indicator,
            start_bit,
            signal_size,
            byte_order,
            value_type,
            factor,
            offset,
            min,
            max,
            unit,
            receivers,
        }
    }

    pub fn name(&self) -> (r: &String)
        ensures
            r@ == self@.name,
    {
        &self.name
    }

    pub fn multiplexer_indicator(&self) -> (r: &MultiplexIndicator)
        ensures
            *r == self@.multiplexer_indicator,
    {
        &self.multiplexer_indicator
    }

    pub fn start_bit(&self) -> (r: &u64)
        ensures
            *r == self@.start_bit,
    {
        &self.start_bit
    }

    pub fn signal_size(&self) -> (r: &u64)
        ensures
            *r == self@.signal_size,
    {
        &self.signal_size
    }

    pub fn byte_order(&self) -> (r: &ByteOrder)
        ensures
            *r == self@.byte_order,
    {
        &self.byte_order
    }

    pub fn value_type(&self) -> (r: &ValueType)
        ensures
            *r == self@.value_type,
    {
        &self.value_type
    }

    pub fn factor(&self) -> (r: &String)
        ensures
            r@ == self@.factor,
    {
        &self.factor
    }

    pub fn offset(&self) -> (r: &String)
        ensures
            r@ == self@.offset,
    {
        &self.offset
    }

    pub fn min(&self) -> (r: &String)
        ensures
            r@ == self@.min,
    {
        &self.min
    }

    pub fn max(&self) -> (r: &String)
        ensures
            r@ == self@.max,
    {
        &self.max
    }

    pub fn unit(&self) -> (r: &String)
        ensures
            r@ == self@.unit,
    {
        &self.unit
    }

    pub fn receivers(&self) -> (r: &Vec<String>)
        ensures
            views(r@) == self@.receivers,
    {
        &self.receivers
    }
}

/// A type for signals, with the decimal texts of its numbers.
#[derive(Clone, Debug, PartialEq)]
pub struct SignalType {
    signal_type_name: String,
    signal_size: u64,
    byte_order: ByteOrder,
    value_type: ValueType,
    factor: String,
    offset: String,
    min: String,
    max: String,
    unit: String,
    default_value: String,
    value_table: String,
}

pub struct SpecSignalType {
    pub signal_type_name: Seq<char>,
    pub signal_size: u64,
    pub byte_order: ByteOrder,
    pub value_type: ValueType,
    pub factor: Seq<char>,
    pub offset: Seq<char>,
    pub min: Seq<char>,
    pub max: Seq<char>,
    pub unit: Seq<char>,
    pub default_value: Seq<char>,
    pub value_table: Seq<char>,
}

impl View for SignalType {
    type V = SpecSignalType;

    closed spec fn view(&self) -> SpecSignalType {
        SpecSignalType {
            signal_type_name: self.signal_type_name@,
            signal_size: self.signal_size,
            byte_order: self.byte_order,
            value_type: self.value_type,
            factor: self.factor@,
            offset: self.offset@,
            min: self.min@,
            max: self.max@,
            unit: self.unit@,
            default_value: self.default_value@,
            value_table: self.value_table@,
        }
    }
}

impl SignalType {
    pub fn new(
        signal_type_name: String,
        signal_size: u64,
        byte_order: ByteOrder,
        value_type: ValueType,
        factor: String,
        offset: String,
        min: String,
        max: String,
        unit: String,
        default_value: String,
        value_table: String,
    ) -> (r: Self)
        ensures
            r@ == (SpecSignalType {
                signal_type_name: signal_type_name@,
                signal_size,
                byte_order,
                value_type,
                factor: factor@,
                offset: offset@,
                min: min@,
                max: max@,
                unit: unit@,
                default_value: default_value@,
                value_table: value_table@,
            }),
    {
        SignalType {
            signal_type_name,
            signal_size,
            byte_order,
            value_type,
            factor,
            offset,
            min,
            max,
            unit,
            default_value,
            value_table,
        }
    }

    pub fn signal_type_name(&self) -> (r: &String)
        ensures
            r@ == self@.signal_type_name,
    {
        &self.signal_type_name
    }

    pub fn signal_size(&self) -> (r: &u64)
        ensures
            *r == self@.signal_size,
    {
        &self.signal_size
    }

    pub fn byte_order(&self) -> (r: &ByteOrder)
        ensures
            *r == self@.byte_order,
    {
        &self.byte_order
    }

    pub fn value_type(&self) -> (r: &ValueType)
        ensures
            *r == self@.value_type,
    {
        &self.value_type
    }

    pub fn factor(&self) -> (r: &String)
        ensures
            r@ == self@.factor,
    {
        &self.factor
    }

    pub fn offset(&self) -> (r: &String)
        ensures
            r@ == self@.offset,
    {
        &self.offset
    }

    pub fn min(&self) -> (r: &String)
        ensures
            r@ == self@.min,
    {
        &self.min
    }

    pub fn max(&self) -> (r: &String)
        ensures
            r@ == self@.max,
    {
        &self.max
    }

    pub fn unit(&self) -> (r: &String)
        ensures
            r@ == self@.unit,
    {
        &self.unit
    }

    pub fn default_value(&self) -> (r: &String)
        ensures
            r@ == self@.default_value,
    {
        &self.default_value
    }

    pub fn value_table(&self) -> (r: &String)
        ensures
            r@ == self@.value_table,
    {
        &self.value_table
    }
}

#[derive(Copy, Clone, Debug, PartialEq, Eq, Structural)]
pub enum AccessType {
    DummyNodeVector0,
    DummyNodeVector1,
    DummyNodeVector2,
    DummyNodeVector3,
}

impl View for AccessType {
    type V = AccessType;

    open spec fn view(&self) -> AccessType {
        *self
    }
}

#[derive(Clone, Debug, PartialEq)]
pub enum AccessNode {
    AccessNodeVectorXXX,
    AccessNodeName(String),
}

pub enum SpecAccessNode {
    AccessNodeVectorXXX,
    AccessNodeName(Seq<char>),
}

impl View for AccessNode {
    type V = SpecAccessNode;

    open spec fn view(&self) -> SpecAccessNode {
        match self {
            AccessNode::AccessNodeVectorXXX => SpecAccessNode::AccessNodeVectorXXX,
            AccessNode::AccessNodeName(n) => SpecAccessNode::AccessNodeName(n@),
        }
    }
}

#[derive(Clone, Debug, PartialEq)]
pub enum SignalAttributeValue {
    Text(String),
    Int(i64),
}

pub enum SpecSignalAttributeValue {
    Text(Seq<char>),
    Int(i64),
}

impl View for SignalAttributeValue {
    type V = SpecSignalAttributeValue;

    open spec fn view(&self) -> SpecSignalAttributeValue {
        match self {
            SignalAttributeValue::Text(t) => SpecSignalAttributeValue::Text(t@),
            SignalAttributeValue::Int(i) => SpecSignalAttributeValue::Int(*i),
        }
    }
}

/// The value of an attribute. A number that is neither a `u64` nor an `i64`
/// is kept as its decimal text.
#[derive(Clone, Debug, PartialEq)]
pub enum AttributeValue {
    AttributeValueU64(u64),
    AttributeValueI64(i64),
    AttributeValueF64(String),
    AttributeValueCharString(String),
}

pub enum SpecAttributeValue {
    AttributeValueU64(u64),
    AttributeValueI64(i64),
    AttributeValueF64(Seq<char>),
    AttributeValueCharString(Seq<char>),
}

impl View for AttributeValue {
    type V = SpecAttributeValue;

    open spec fn view(&self) -> SpecAttributeValue {
        match self {
            AttributeValue::AttributeValueU64(v) => SpecAttributeValue::AttributeValueU64(*v),
            AttributeValue::AttributeValueI64(v) => SpecAttributeValue::AttributeValueI64(*v),
            AttributeValue::AttributeValueF64(v) => SpecAttributeValue::AttributeValueF64(v@),
            AttributeValue::AttributeValueCharString(v) => SpecAttributeValue::AttributeValueCharString(
                v@,
            ),
        }
    }
}

#[derive(Clone, Debug, PartialEq)]
pub enum AttributeValuedForObjectType {
    RawAttributeValue(AttributeValue),
    NetworkNodeAttributeValue(String, AttributeValue),
    MessageDefinitionAttributeValue(MessageId, Option<AttributeValue>),
    SignalAttributeValue(MessageId, String, AttributeValue),
    EnvVariableAttributeValue(String, AttributeValue),
}

pub enum SpecAttributeValuedForObjectType {
    RawAttributeValue(SpecAttributeValue),
    NetworkNodeAttributeValue(Seq<char>, SpecAttributeValue),
    MessageDefinitionAttributeValue(MessageId, Option<SpecAttributeValue>),
    SignalAttributeValue(MessageId, Seq<char>, SpecAttributeValue),
    EnvVariableAttributeValue(Seq<char>, SpecAttributeValue),
}

impl View for AttributeValuedForObjectType {
    type V = SpecAttributeValuedForObjectType;

    open spec fn view(&self) -> SpecAttributeValuedForObjectType {
        match self {
            AttributeValuedForObjectType::RawAttributeValue(v) => SpecAttributeValuedForObjectType::RawAttributeValue(v@),
            AttributeValuedForObjectType::NetworkNodeAttributeValue(n, v) => SpecAttributeValuedForObjectType::NetworkNodeAttributeValue(n@, v@),
            AttributeValuedForObjectType::MessageDefinitionAttributeValue(
                id,
                v,
            ) => SpecAttributeValuedForObjectType::MessageDefinitionAttributeValue(
                *id,
                match v {
                    Some(x) => Some(x@),
                    None => None,
                },
            ),
            AttributeValuedForObjectType::SignalAttributeValue(
                id,
                n,
                v,
            ) => SpecAttributeValuedForObjectType::SignalAttributeValue(*id, n@, v@),
            AttributeValuedForObjectType::EnvVariableAttributeValue(n, v) => SpecAttributeValuedForObjectType::EnvVariableAttributeValue(n@, v@),
        }
    }
}

/// The type of an attribute; the limits of a float attribute are kept as
/// their decimal text.
#[derive(Clone, Debug, PartialEq)]
pub enum AttributeValueType {
    AttributeValueTypeInt(i64, i64),
    AttributeValueTypeHex(i64, i64),
    AttributeValueTypeFloat(String, String),
    AttributeValueTypeString,
    AttributeValueTypeEnum(Vec<String>),
}

pub enum SpecAttributeValueType {
    AttributeValueTypeInt(i64, i64),
    AttributeValueTypeHex(i64, i64),
    AttributeValueTypeFloat(Seq<char>, Seq<char>),
    AttributeValueTypeString,
    AttributeValueTypeEnum(Seq<Seq<char>>),
}

impl View for AttributeValueType {
    type V = SpecAttributeValueType;

    open spec fn view(&self) -> SpecAttributeValueType {
        match self {
            AttributeValueType::AttributeValueTypeInt(a, b) => SpecAttributeValueType::AttributeValueTypeInt(*a, *b),
            AttributeValueType::AttributeValueTypeHex(a, b) => SpecAttributeValueType::AttributeValueTypeHex(*a, *b),
            AttributeValueType::AttributeValueTypeFloat(a, b) => SpecAttributeValueType::AttributeValueTypeFloat(a@, b@),
            AttributeValueType::AttributeValueTypeString => SpecAttributeValueType::AttributeValueTypeString,
            AttributeValueType::AttributeValueTypeEnum(v) => SpecAttributeValueType::AttributeValueTypeEnum(views(v@)),
        }
    }
}

/// A raw value (its decimal text) and what it means.
#[derive(Clone, Debug, PartialEq)]
pub struct ValDescription {
    a: String,
    b: String,
}

pub struct SpecValDescription {
    pub a: Seq<char>,
    pub b: Seq<char>,
}

impl View for ValDescription {
    type V = SpecValDescription;

    closed spec fn view(&self) -> SpecValDescription {
        SpecValDescription { a: self.a@, b: self.b@ }
    }
}

impl ValDescription {
    pub fn new(a: String, b: String) -> (r: Self)
        ensures
            r@ == (SpecValDescription { a: a@, b: b@ }),
    {
        ValDescription { a, b }
    }

    pub fn a(&self) -> (r: &String)
        ensures
            r@ == self@.a,
    {
        &self.a
    }

    pub fn b(&self) -> (r: &String)
        ensures
            r@ == self@.b,
    {
        &self.b
    }
}

#[derive(Clone, Debug, PartialEq)]
pub struct AttrDefault {
    name: String,
    value: AttributeValue,
}

pub struct SpecAttrDefault {
    pub name: Seq<char>,
    pub value: SpecAttributeValue,
}

impl View for AttrDefault {
    type V = SpecAttrDefault;

    closed spec fn view(&self) -> SpecAttrDefault {
        SpecAttrDefault { name: self.name@, value: self.value@ }
    }
}

impl AttrDefault {
    pub fn new(name: String, value: AttributeValue) -> (r: Self)
        ensures
            r@ == (SpecAttrDefault { name: name@, value: value@ }),
    {
        AttrDefault { name, value }
    }

    pub fn name(&self) -> (r: &String)
        ensures
            r@ == self@.name,
    {
        &self.name
    }

    pub fn value(&self) -> (r: &AttributeValue)
        ensures
            r@ == self@.value,
    {
        &self.value
    }
}

/// Global value table
#[derive(Clone, Debug, PartialEq)]
pub struct ValueTable {
    value_table_name: String,
    value_descriptions: Vec<ValDescription>,
}

pub struct SpecValueTable {
    pub value_table_name: Seq<char>,
    pub value_descriptions: Seq<SpecValDescription>,
}

impl View for ValueTable {
    type V = SpecValueTable;

    closed spec fn view(&self) -> SpecValueTable {
        SpecValueTable {
            value_table_name: self.value_table_name@,
            value_descriptions: views(self.value_descriptions@),
        }
    }
}

impl ValueTable {
    pub fn new(value_table_name: String, value_descriptions: Vec<ValDescription>) -> (r:
        Self)
        ensures
            r@ == (SpecValueTable {
                value_table_name: value_table_name@,
                value_descriptions: views(value_descriptions@),
            }),
    {
        ValueTable { value_table_name, value_descriptions }
    }

    pub fn value_table_name(&self) -> (r: &String)
        ensures
            r@ == self@.value_table_name,
    {
        &self.value_table_name
    }

    pub fn value_descriptions(&self) -> (r: &Vec<ValDescription>)
        ensures
            views(r@) == self@.value_descriptions,
    {
        &self.value_descriptions
    }
}

/// Object comments
#[derive(Clone, Debug, PartialEq)]
pub enum Comment {
    Node { node_name: String, comment: String },
    Message { message_id: MessageId, comment: String },
    Signal { message_id: MessageId, signal_name: String, comment: String },
    EnvVar { env_var_name: String, comment: String },
    Plain { comment: String },
}

pub enum SpecComment {
    Node { node_name: Seq<char>, comment: Seq<char> },
    Message { message_id: MessageId, comment: Seq<char> },
    Signal { message_id: MessageId, signal_name: Seq<char>, comment: Seq<char> },
    EnvVar { env_var_name: Seq<char>, comment: Seq<char> },
    Plain { comment: Seq<char> },
}

impl View for Comment {
    type V = SpecComment;

    open spec fn view(&self) -> SpecComment {
        match self {
            Comment::Node { node_name, comment } => SpecComment::Node {
                node_name: node_name@,
                comment: comment@,
            },
            Comment::Message { message_id, comment } => SpecComment::Message {
                message_id: *message_id,
                comment: comment@,
            },
            Comment::Signal { message_id, signal_name, comment } => SpecComment::Signal {
                message_id: *message_id,
                signal_name: signal_name@,
                comment: comment@,
            },
            Comment::EnvVar { env_var_name, comment } => SpecComment::EnvVar {
                env_var_name: env_var_name@,
                comment: comment@,
            },
            Comment::Plain { comment } => SpecComment::Plain { comment: comment@ },
        }
    }
}

/// CAN message (frame) details including signal details
#[derive(Clone, Debug, PartialEq)]
pub struct Message {
    /// CAN id in header of CAN frame.
    /// Must be unique in DBC file.
    message_id: MessageId,
    message_name: String,
    message_size: u64,
    transmitter: Transmitter,
    signals: Vec<Signal>,
}

pub struct SpecMessage {
    pub message_id: MessageId,
    pub message_name: Seq<char>,
    pub message_size: u64,
    pub transmitter: SpecTransmitter,
    pub signals: Seq<SpecSignal>,
}

impl View for Message {
    type V = SpecMessage;

    closed spec fn view(&self) -> SpecMessage {
        SpecMessage {
            message_id: self.message_id,
            message_name: self.message_name@,
            message_size: self.message_size,
            transmitter: self.transmitter@,
            signals: views(self.signals@),
        }
    }
}

impl Message {
    pub fn new(
        message_id: MessageId,
        message_name: String,
        message_size: u64,
        transmitter: Transmitter,
        signals: Vec<Signal>,
    ) -> (r: Self)
        ensures
            r@ == (SpecMessage {
                message_id,
                message_name: message_name@,
                message_size,
                transmitter: transmitter@,
                signals: views(signals@),
            }),
    {
        Message { message_id, message_name, message_size, transmitter, signals }
    }

    pub fn message_id(&self) -> (r: &MessageId)
        ensures
            *r == self@.message_id,
    {
        &self.message_id
    }

    pub fn message_name(&self) -> (r: &String)
        ensures
            r@ == self@.message_name,
    {
        &self.message_name
    }

    pub fn message_size(&self) -> (r: &u64)
        ensures
            *r == self@.message_size,
    {
        &self.message_size
    }

    pub fn transmitter(&self) -> (r: &Transmitter)
        ensures
            r@ == self@.transmitter,
    {
        &self.transmitter
    }

    pub fn signals(&self) -> (r: &Vec<Signal>)
        ensures
            views(r@) == self@.signals,
    {
        &self.signals
    }
}

/// An environment variable; its initial value is kept as its decimal text.
#[derive(Clone, Debug, PartialEq)]
pub struct EnvironmentVariable {
    env_var_name: String,
    env_var_type: EnvType,
    min: i64,
    max: i64,
    unit: String,
    initial_value: String,
    ev_id: i64,
    access_type: AccessType,
    access_nodes: Vec<AccessNode>,
}

pub struct SpecEnvironmentVariable {
    pub env_var_name: Seq<char>,
    pub env_var_type: EnvType,
    pub min: i64,
    pub max: i64,
    pub unit: Seq<char>,
    pub initial_value: Seq<char>,
    pub ev_id: i64,
    pub access_type: AccessType,
    pub access_nodes: Seq<SpecAccessNode>,
}

impl View for EnvironmentVariable {
    type V = SpecEnvironmentVariable;

    closed spec fn view(&self) -> SpecEnvironmentVariable {
        SpecEnvironmentVariable {
            env_var_name: self.env_var_name@,
            env_var_type: self.env_var_type,
            min: self.min,
            max: self.max,
            unit: self.unit@,
            initial_value: self.initial_value@,
            ev_id: self.ev_id,
            access_type: self.access_type,
            access_nodes: views(self.access_nodes@),
        }
    }
}

impl EnvironmentVariable {
    pub fn new(
        env_var_name: String,
        env_var_type: EnvType,
        min: i64,
        max: i64,
        unit: String,
        initial_value: String,
        ev_id: i64,
        access_type: AccessType,
        access_nodes: Vec<AccessNode>,
    ) -> (r: Self)
        ensures
            r@ == (SpecEnvironmentVariable {
                env_var_name: env_var_name@,
                env_var_type,
                min,
                max,
                unit: unit@,
                initial_value: initial_value@,
                ev_id,
                access_type,
                access_nodes: views(access_nodes@),
            }),
    {
        EnvironmentVariable {
            env_var_name,
            env_var_type,
            min,
            max,
            unit,
            initial_value,
            ev_id,
            access_type,
            access_nodes,
        }
    }

    pub fn env_var_name(&self) -> (r: &String)
        ensures
            r@ == self@.env_var_name,
    {
        &self.env_var_name
    }

    pub fn env_var_type(&self) -> (r: &EnvType)
        ensures
            *r == self@.env_var_type,
    {
        &self.env_var_type
    }

    pub fn min(&self) -> (r: &i64)
        ensures
            *r == self@.min,
    {
        &self.min
    }

    pub fn max(&self) -> (r: &i64)
        ensures
            *r == self@.max,
    {
        &self.max
    }

    pub fn unit(&self) -> (r: &String)
        ensures
            r@ == self@.unit,
    {
        &self.unit
    }

    pub fn initial_value(&self) -> (r: &String)
        ensures
            r@ == self@.initial_value,
    {
        &self.initial_value
    }

    pub fn ev_id(&self) -> (r: &i64)
        ensures
            *r == self@.ev_id,
    {
        &self.ev_id
    }

    pub fn access_type(&self) -> (r: &AccessType)
        ensures
            *r == self@.access_type,
    {
        &self.access_type
    }

    pub fn access_nodes(&self) -> (r: &Vec<AccessNode>)
        ensures
            views(r@) == self@.access_nodes,
    {
        &self.access_nodes
    }
}

#[derive(Clone, Debug, PartialEq)]
pub struct EnvironmentVariableData {
    env_var_name: String,
    data_size: u64,
}

pub struct SpecEnvironmentVariableData {
    pub env_var_name: Seq<char>,
    pub data_size: u64,
}

impl View for EnvironmentVariableData {
    type V = SpecEnvironmentVariableData;

    closed spec fn view(&self) -> SpecEnvironmentVariableData {
        SpecEnvironmentVariableData { env_var_name: self.env_var_name@, data_size: self.data_size }
    }
}

impl EnvironmentVariableData {
    pub fn new(env_var_name: String, data_size: u64) -> (r: Self)
        ensures
            r@ == (SpecEnvironmentVariableData { env_var_name: env_var_name@, data_size }),
    {
        EnvironmentVariableData { env_var_name, data_size }
    }

    pub fn env_var_name(&self) -> (r: &String)
        ensures
            r@ == self@.env_var_name,
    {
        &self.env_var_name
    }

    pub fn data_size(&self) -> (r: &u64)
        ensures
            *r == self@.data_size,
    {
        &self.data_size
    }
}

/// CAN network nodes, names must be unique
#[derive(Clone, Debug, PartialEq)]
pub struct Node(Vec<String>);

impl View for Node {
    type V = Seq<Seq<char>>;

    closed spec fn view(&self) -> Seq<Seq<char>> {
        views(self.0@)
    }
}

impl Node {
    pub fn new(names: Vec<String>) -> (r: Self)
        ensures
            r@ == views(names@),
    {
        Node(names)
    }

    /// The names of the nodes.
    pub fn names(&self) -> (r: &Vec<String>)
        ensures
            views(r@) == self@,
    {
        &self.0
    }
}

#[derive(Clone, Debug, PartialEq)]
pub struct AttributeDefault {
    attribute_name: String,
    attribute_value: AttributeValue,
}

pub struct SpecAttributeDefault {
    pub attribute_name: Seq<char>,
    pub attribute_value: SpecAttributeValue,
}

impl View for AttributeDefault {
    type V = SpecAttributeDefault;

    closed spec fn view(&self) -> SpecAttributeDefault {
        SpecAttributeDefault {
            attribute_name: self.attribute_name@,
            attribute_value: self.attribute_value@,
        }
    }
}

impl AttributeDefault {
    pub fn new(attribute_name: String, attribute_value: AttributeValue) -> (r: Self)
        ensures
            r@ == (SpecAttributeDefault {
                attribute_name: attribute_name@,
                attribute_value: attribute_value@,
            }),
    {
        AttributeDefault { attribute_name, attribute_value }
    }

    pub fn attribute_name(&self) -> (r: &String)
        ensures
            r@ == self@.attribute_name,
    {
        &self.attribute_name
    }

    pub fn attribute_value(&self) -> (r: &AttributeValue)
        ensures
            r@ == self@.attribute_value,
    {
        &self.attribute_value
    }
}

#[derive(Clone, Debug, PartialEq)]
pub struct AttributeValueForObject {
    attribute_name: String,
    attribute_value: AttributeValuedForObjectType,
}

pub struct SpecAttributeValueForObject {
    pub attribute_name: Seq<char>,
    pub attribute_value: SpecAttributeValuedForObjectType,
}

impl View for AttributeValueForObject {
    type V = SpecAttributeValueForObject;

    closed spec fn view(&self) -> SpecAttributeValueForObject {
        SpecAttributeValueForObject {
            attribute_name: self.attribute_name@,
            attribute_value: self.attribute_value@,
        }
    }
}

impl AttributeValueForObject {
    pub fn new(
        attribute_name: String,
        attribute_value: AttributeValuedForObjectType,
    ) -> (r: Self)
        ensures
            r@ == (SpecAttributeValueForObject {
                attribute_name: attribute_name@,
                attribute_value: attribute_value@,
            }),
    {
        AttributeValueForObject { attribute_name, attribute_value }
    }

    pub fn attribute_name(&self) -> (r: &String)
        ensures
            r@ == self@.attribute_name,
    {
        &self.attribute_name
    }

    pub fn attribute_value(&self) -> (r: &AttributeValuedForObjectType)
        ensures
            r@ == self@.attribute_value,
    {
        &self.attribute_value
    }
}

#[derive(Clone, Debug, PartialEq)]
pub enum AttributeDefinition {
    Message(String),
    Node(String),
    Signal(String),
    EnvironmentVariable(String),
    Plain(String),
}

pub enum SpecAttributeDefinition {
    Message(Seq<char>),
    Node(Seq<char>),
    Signal(Seq<char>),
    EnvironmentVariable(Seq<char>),
    Plain(Seq<char>),
}

impl View for AttributeDefinition {
    type V = SpecAttributeDefinition;

    open spec fn view(&self) -> SpecAttributeDefinition {
        match self {
            AttributeDefinition::Message(t) => SpecAttributeDefinition::Message(t@),
            AttributeDefinition::Node(t) => SpecAttributeDefinition::Node(t@),
            AttributeDefinition::Signal(t) => SpecAttributeDefinition::Signal(t@),
            AttributeDefinition::EnvironmentVariable(t) => SpecAttributeDefinition::EnvironmentVariable(t@),
            AttributeDefinition::Plain(t) => SpecAttributeDefinition::Plain(t@),
        }
    }
}

/// Encoding for signal raw values.
#[derive(Clone, Debug, PartialEq)]
pub enum ValueDescription {
    Signal {
        message_id: MessageId,
        signal_name: String,
        value_descriptions: Vec<ValDescription>,
    },
    EnvironmentVariable { env_var_name: String, value_descriptions: Vec<ValDescription> },
}

pub enum SpecValueDescription {
    Signal {
        message_id: MessageId,
        signal_name: Seq<char>,
        value_descriptions: Seq<SpecValDescription>,
    },
    EnvironmentVariable { env_var_name: Seq<char>, value_descriptions: Seq<SpecValDescription> },
}

impl View for ValueDescription {
    type V = SpecValueDescription;

    open spec fn view(&self) -> SpecValueDescription {
        match self {
            ValueDescription::Signal {
                message_id,
                signal_name,
                value_descriptions,
            } => SpecValueDescription::Signal {
                message_id: *message_id,
                signal_name: signal_name@,
                value_descriptions: views(value_descriptions@),
            },
            ValueDescription::EnvironmentVariable {
                env_var_name,
                value_descriptions,
            } => SpecValueDescription::EnvironmentVariable {
                env_var_name: env_var_name@,
                value_descriptions: views(value_descriptions@),
            },
        }
    }
}

#[derive(Clone, Debug, PartialEq)]
pub struct SignalTypeRef {
    message_id: MessageId,
    signal_name: String,
    signal_type_name: String,
}

pub struct SpecSignalTypeRef {
    pub message_id: MessageId,
    pub signal_name: Seq<char>,
    pub signal_type_name: Seq<char>,
}

impl View for SignalTypeRef {
    type V = SpecSignalTypeRef;

    closed spec fn view(&self) -> SpecSignalTypeRef {
        SpecSignalTypeRef {
            message_id: self.message_id,
            signal_name: self.signal_name@,
            signal_type_name: self.signal_type_name@,
        }
    }
}

impl SignalTypeRef {
    pub fn new(message_id: MessageId, signal_name: String, signal_type_name: String) -> (r:
        Self)
        ensures
            r@ == (SpecSignalTypeRef {
                message_id,
                signal_name: signal_name@,
                signal_type_name: signal_type_name@,
            }),
    {
        SignalTypeRef { message_id, signal_name, signal_type_name }
    }

    pub fn message_id(&self) -> (r: &MessageId)
        ensures
            *r == self@.message_id,
    {
        &self.message_id
    }

    pub fn signal_name(&self) -> (r: &String)
        ensures
            r@ == self@.signal_name,
    {
        &self.signal_name
    }

    pub fn signal_type_name(&self) -> (r: &String)
        ensures
            r@ == self@.signal_type_name,
    {
        &self.signal_type_name
    }
}

/// Signal groups define a group of signals within a message
#[derive(Clone, Debug, PartialEq)]
pub struct SignalGroups {
    message_id: MessageId,
    signal_group_name: String,
    repetitions: u64,
    signal_names: Vec<String>,
}

pub struct SpecSignalGroups {
    pub message_id: MessageId,
    pub signal_group_name: Seq<char>,
    pub repetitions: u64,
    pub signal_names: Seq<Seq<char>>,
}

impl View for SignalGroups {
    type V = SpecSignalGroups;

    closed spec fn view(&self) -> SpecSignalGroups {
        SpecSignalGroups {
            message_id: self.message_id,
            signal_group_name: self.signal_group_name@,
            repetitions: self.repetitions,
            signal_names: views(self.signal_names@),
        }
    }
}

impl SignalGroups {
    pub fn new(
        message_id: MessageId,
        signal_group_name: String,
        repetitions: u64,
        signal_names: Vec<String>,
    ) -> (r: Self)
        ensures
            r@ == (SpecSignalGroups {
                message_id,
                signal_group_name: signal_group_name@,
                repetitions,
                signal_names: views(signal_names@),
            }),
    {
        SignalGroups { message_id, signal_group_name, repetitions, signal_names }
    }

    pub fn message_id(&self) -> (r: &MessageId)
        ensures
            *r == self@.message_id,
    {
        &self.message_id
    }

    pub fn signal_group_name(&self) -> (r: &String)
        ensures
            r@ == self@.signal_group_name,
    {
        &self.signal_group_name
    }

    pub fn repetitions(&self) -> (r: &u64)
        ensures
            *r == self@.repetitions,
    {
        &self.repetitions
    }

    pub fn signal_names(&self) -> (r: &Vec<String>)
        ensures
            views(r@) == self@.signal_names,
    {
        &self.signal_names
    }
}

#[derive(Copy, Clone, Debug, PartialEq, Eq, Structural)]
pub enum SignalExtendedValueType {
    SignedOrUnsignedInteger,
    IEEEfloat32Bit,
    IEEEdouble64bit,
}

impl View for SignalExtendedValueType {
    type V = SignalExtendedValueType;

    open spec fn view(&self) -> SignalExtendedValueType {
        *self
    }
}

#[derive(Clone, Debug, PartialEq)]
pub struct SignalExtendedValueTypeList {
    message_id: MessageId,
    signal_name: String,
    signal_extended_value_type: SignalExtendedValueType,
}

pub struct SpecSignalExtendedValueTypeList {
    pub message_id: MessageId,
    pub signal_name: Seq<char>,
    pub signal_extended_value_type: SignalExtendedValueType,
}

impl View for SignalExtendedValueTypeList {
    type V = SpecSignalExtendedValueTypeList;

    closed spec fn view(&self) -> SpecSignalExtendedValueTypeList {
        SpecSignalExtendedValueTypeList {
            message_id: self.message_id,
            signal_name: self.signal_name@,
            signal_extended_value_type: self.signal_extended_value_type,
        }
    }
}

impl SignalExtendedValueTypeList {
    pub fn new(
        message_id: MessageId,
        signal_name: String,
        signal_extended_value_type: SignalExtendedValueType,
    ) -> (r: Self)
        ensures
            r@ == (SpecSignalExtendedValueTypeList {
                message_id,
                signal_name: signal_name@,
                signal_extended_value_type,
            }),
    {
        SignalExtendedValueTypeList { message_id, signal_name, signal_extended_value_type }
    }

    pub fn message_id(&self) -> (r: &MessageId)
        ensures
            *r == self@.message_id,
    {
        &self.message_id
    }

    pub fn signal_name(&self) -> (r: &String)
        ensures
            r@ == self@.signal_name,
    {
        &self.signal_name
    }

    pub fn signal_extended_value_type(&self) -> (r: &SignalExtendedValueType)
        ensures
            *r == self@.signal_extended_value_type,
    {
        &self.signal_extended_value_type
    }
}

} // verus!
