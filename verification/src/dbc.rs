//! A whole CAN database: reading it from bytes, and looking things up in it.
use vstd::prelude::*;
use crate::combinator::{Grammar, many0, many0_exec, views};
use crate::grammar::{
    AttributeDefaultRule,
    AttributeDefinitionRule,
    AttributeValueRule,
    CommentRule,
    EnvironmentVariableDataRule,
    EnvironmentVariableRule,
    MessageRule,
    MessageTransmitterRule,
    NodeRule,
    SignalExtendedValueTypeRule,
    SignalGroupsRule,
    SignalTypeRefRule,
    SignalTypeRule,
    ValueDescriptionRule,
    ValueTableRule,
    VersionRule,
    bit_timing,
    bit_timing_exec,
    new_symbols,
    new_symbols_exec,
};
use crate::lexer::{is_multispace, lemma_skip_stops, ms0, skip, Class};
use crate::types::{
    AttributeDefault,
    AttributeDefinition,
    AttributeValueForObject,
    Baudrate,
    Comment,
    EnvironmentVariable,
    EnvironmentVariableData,
    Message,
    MessageId,
    MessageTransmitter,
    Node,
    SignalExtendedValueTypeList,
    SignalGroups,
    SignalType,
    SignalTypeRef,
    SpecAttributeDefault,
    SpecAttributeDefinition,
    SpecAttributeValueForObject,
    SpecComment,
    SpecEnvironmentVariable,
    SpecEnvironmentVariableData,
    SpecMessage,
    SpecMessageTransmitter,
    SpecSignalExtendedValueTypeList,
    SpecSignalGroups,
    SpecSignalType,
    SpecSignalTypeRef,
    SpecValDescription,
    SpecValueDescription,
    SpecValueTable,
    Symbol,
    ValDescription,
    ValueDescription,
    ValueTable,
    Version,
};

verus! {

#[derive(Clone, Debug, PartialEq)]
pub struct DBC {
    /// Version generated by DB editor
    version: Version,
    new_symbols: Vec<Symbol>,
    /// Baud rate of network
    bit_timing: Option<Vec<Baudrate>>,
    /// CAN network nodes
    nodes: Vec<Node>,
    /// Global value table
    value_tables: Vec<ValueTable>,
    /// CAN message (frame) details including signal details
    messages: Vec<Message>,
    message_transmitters: Vec<MessageTransmitter>,
    environment_variables: Vec<EnvironmentVariable>,
    environment_variable_data: Vec<EnvironmentVariableData>,
    signal_types: Vec<SignalType>,
    /// Object comments
    comments: Vec<Comment>,
    attribute_definitions: Vec<AttributeDefinition>,
    attribute_defaults: Vec<AttributeDefault>,
    attribute_values: Vec<AttributeValueForObject>,
    /// Encoding for signal raw values
    value_descriptions: Vec<ValueDescription>,
    signal_type_refs: Vec<SignalTypeRef>,
    /// Signal groups define a group of signals within a message
    signal_groups: Vec<SignalGroups>,
    signal_extended_value_type_list: Option<SignalExtendedValueTypeList>,
}

pub struct SpecDBC {
    pub version: Seq<char>,
    pub new_symbols: Seq<Seq<char>>,
    pub bit_timing: Option<Seq<u64>>,
    pub nodes: Seq<Seq<Seq<char>>>,
    pub value_tables: Seq<SpecValueTable>,
    pub messages: Seq<SpecMessage>,
    pub message_transmitters: Seq<SpecMessageTransmitter>,
    pub environment_variables: Seq<SpecEnvironmentVariable>,
    pub environment_variable_data: Seq<SpecEnvironmentVariableData>,
    pub signal_types: Seq<SpecSignalType>,
    pub comments: Seq<SpecComment>,
    pub attribute_definitions: Seq<SpecAttributeDefinition>,
    pub attribute_defaults: Seq<SpecAttributeDefault>,
    pub attribute_values: Seq<SpecAttributeValueForObject>,
    pub value_descriptions: Seq<SpecValueDescription>,
    pub signal_type_refs: Seq<SpecSignalTypeRef>,
    pub signal_groups: Seq<SpecSignalGroups>,
    pub signal_extended_value_type_list: Option<SpecSignalExtendedValueTypeList>,
}

impl View for DBC {
    type V = SpecDBC;

    closed spec fn view(&self) -> SpecDBC {
        SpecDBC {
            version: self.version@,
            new_symbols: views(self.new_symbols@),
            bit_timing: match self.bit_timing {
                Some(b) => Some(views(b@)),
                None => None,
            },
            nodes: views(self.nodes@),
            value_tables: views(self.value_tables@),
            messages: views(self.messages@),
            message_transmitters: views(self.message_transmitters@),
            environment_variables: views(self.environment_variables@),
            environment_variable_data: views(self.environment_variable_data@),
            signal_types: views(self.signal_types@),
            comments: views(self.comments@),
            attribute_definitions: views(self.attribute_definitions@),
            attribute_defaults: views(self.attribute_defaults@),
            attribute_values: views(self.attribute_values@),
            value_descriptions: views(self.value_descriptions@),
            signal_type_refs: views(self.signal_type_refs@),
            signal_groups: views(self.signal_groups@),
            signal_extended_value_type_list: match self.signal_extended_value_type_list {
                Some(x) => Some(x@),
                None => None,
            },
        }
    }
}

/// A whole DBC file, read from position `p`: the version line, the new
/// symbols, the optional bit timing, then each kind of statement in the
/// order of the `SpecDBC` fields, each kind repeated as often as it reads,
/// and trailing blanks. Yields the database and the position where reading
/// stopped.
pub open spec fn dbc(s: Seq<u8>) -> Option<(SpecDBC, int)> {
    match VersionRule::spec_parse(s, 0) {
        Some((version, a)) => match new_symbols(s, a) {
            Some((syms, b)) => {
                let bt = bit_timing(s, b);
                let c = match bt {
                    Some((_, c)) => c,
                    None => b,
                };
                let nodes = many0::<NodeRule>(s, c);
                let vts = many0::<ValueTableRule>(s, nodes.1);
                let msgs = many0::<MessageRule>(s, vts.1);
                let mts = many0::<MessageTransmitterRule>(s, msgs.1);
                let evs = many0::<EnvironmentVariableRule>(s, mts.1);
                let evds = many0::<EnvironmentVariableDataRule>(s, evs.1);
                let sts = many0::<SignalTypeRule>(s, evds.1);
                let cms = many0::<CommentRule>(s, sts.1);
                let ads = many0::<AttributeDefinitionRule>(s, cms.1);
                let adfs = many0::<AttributeDefaultRule>(s, ads.1);
                let avs = many0::<AttributeValueRule>(s, adfs.1);
                let vds = many0::<ValueDescriptionRule>(s, avs.1);
                let strs = many0::<SignalTypeRefRule>(s, vds.1);
                let sgs = many0::<SignalGroupsRule>(s, strs.1);
                let ext = SignalExtendedValueTypeRule::spec_parse(s, sgs.1);
                let d = match ext {
                    Some((_, d)) => d,
                    None => sgs.1,
                };
                Some(
                    (
                        SpecDBC {
                            version,
                            new_symbols: syms,
                            bit_timing: match bt {
                                Some((r, _)) => Some(r),
                                None => None,
                            },
                            nodes: nodes.0,
                            value_tables: vts.0,
                            messages: msgs.0,
                            message_transmitters: mts.0,
                            environment_variables: evs.0,
                            environment_variable_data: evds.0,
                            signal_types: sts.0,
                            comments: cms.0,
                            attribute_definitions: ads.0,
                            attribute_defaults: adfs.0,
                            attribute_values: avs.0,
                            value_descriptions: vds.0,
                            signal_type_refs: strs.0,
                            signal_groups: sgs.0,
                            signal_extended_value_type_list: match ext {
                                Some((x, _)) => Some(x),
                                None => None,
                            },
                        },
                        ms0(s, d),
                    ),
                )
            },
            None => None,
        },
        None => None,
    }
}

/// Where the mandatory head of a file that `dbc` cannot read starts: the
/// version line at 0, or else the new symbols after it.
pub open spec fn head_error_offset(s: Seq<u8>) -> int {
    match VersionRule::spec_parse(s, 0) {
        Some((_, a)) => a,
        None => 0,
    }
}

/// Possible error cases for `can-dbc`
#[derive(Debug)]
pub enum Error {
    /// The file was read up to a point, and the rest could not be read:
    /// what was read, and the bytes that remain.
    Incomplete(DBC, Vec<u8>),
    /// The version line or the new symbols could not be read; the offset
    /// where the part that failed starts.
    Parse(usize),
}

/// The bytes of `s` from `p` on.
fn copy_from(s: &[u8], p: usize) -> (r: Vec<u8>)
    requires
        p <= s@.len(),
    ensures
        r@ == s@.skip(p as int),
{
    let mut r: Vec<u8> = Vec::new();
    let mut i = p;
    while i < s.len()
        invariant
            p <= i <= s@.len(),
            r@ == s@.subrange(p as int, i as int),
        decreases s@.len() - i,
    {
        r.push(s[i]);
        i = i + 1;
        assert(r@ =~= s@.subrange(p as int, i as int));
    }
    assert(r@ =~= s@.skip(p as int));
    r
}

/// A message comment for message `id`.
pub open spec fn is_message_comment(c: SpecComment, id: MessageId) -> bool {
    c matches SpecComment::Message { message_id, .. } && message_id == id
}

/// A signal comment for signal `name` of message `id`.
pub open spec fn is_signal_comment(c: SpecComment, id: MessageId, name: Seq<char>) -> bool {
    c matches SpecComment::Signal { message_id, signal_name, .. } && message_id == id
        && signal_name == name
}

/// The text of a comment.
pub open spec fn comment_text(c: SpecComment) -> Seq<char> {
    match c {
        SpecComment::Node { comment, .. } => comment,
        SpecComment::Message { comment, .. } => comment,
        SpecComment::Signal { comment, .. } => comment,
        SpecComment::EnvVar { comment, .. } => comment,
        SpecComment::Plain { comment } => comment,
    }
}

/// Value descriptions for signal `name` of message `id`.
pub open spec fn is_signal_value_description(
    d: SpecValueDescription,
    id: MessageId,
    name: Seq<char>,
) -> bool {
    d matches SpecValueDescription::Signal { message_id, signal_name, .. } && message_id == id
        && signal_name == name
}

/// The descriptions of a value description.
pub open spec fn descriptions_of(d: SpecValueDescription) -> Seq<SpecValDescription> {
    match d {
        SpecValueDescription::Signal { value_descriptions, .. } => value_descriptions,
        SpecValueDescription::EnvironmentVariable { value_descriptions, .. } => value_descriptions,
    }
}

impl DBC {
    /// A database with the given parts.
    pub fn new(
        version: Version,
        new_symbols: Vec<Symbol>,
        bit_timing: Option<Vec<Baudrate>>,
        nodes: Vec<Node>,
        value_tables: Vec<ValueTable>,
        messages: Vec<Message>,
        message_transmitters: Vec<MessageTransmitter>,
        environment_variables: Vec<EnvironmentVariable>,
        environment_variable_data: Vec<EnvironmentVariableData>,
        signal_types: Vec<SignalType>,
        comments: Vec<Comment>,
        attribute_definitions: Vec<AttributeDefinition>,
        attribute_defaults: Vec<AttributeDefault>,
        attribute_values: Vec<AttributeValueForObject>,
        value_descriptions: Vec<ValueDescription>,
        signal_type_refs: Vec<SignalTypeRef>,
        signal_groups: Vec<SignalGroups>,
        signal_extended_value_type_list: Option<SignalExtendedValueTypeList>,
    ) -> (r: Self)
        ensures
            r@ == (SpecDBC {
                version: version@,
                new_symbols: views(new_symbols@),
                bit_timing: match bit_timing {
                    Some(b) => Some(views(b@)),
                    None => None,
                },
                nodes: views(nodes@),
                value_tables: views(value_tables@),
                messages: views(messages@),
                message_transmitters: views(message_transmitters@),
                environment_variables: views(environment_variables@),
                environment_variable_data: views(environment_variable_data@),
                signal_types: views(signal_types@),
                comments: views(comments@),
                attribute_definitions: views(attribute_definitions@),
                attribute_defaults: views(attribute_defaults@),
                attribute_values: views(attribute_values@),
                value_descriptions: views(value_descriptions@),
                signal_type_refs: views(signal_type_refs@),
                signal_groups: views(signal_groups@),
                signal_extended_value_type_list: match signal_extended_value_type_list {
                    Some(x) => Some(x@),
                    None => None,
                },
            }),
    {
        DBC {
            version,
            new_symbols,
            bit_timing,
            nodes,
            value_tables,
            messages,
            message_transmitters,
            environment_variables,
            environment_variable_data,
            signal_types,
            comments,
            attribute_definitions,
            attribute_defaults,
            attribute_values,
            value_descriptions,
            signal_type_refs,
            signal_groups,
            signal_extended_value_type_list,
        }
    }

    pub fn version(&self) -> (r: &Version)
        ensures
            r@ == self@.version,
    {
        &self.version
    }

    pub fn new_symbols(&self) -> (r: &Vec<Symbol>)
        ensures
            views(r@) == self@.new_symbols,
    {
        &self.new_symbols
    }

    pub fn bit_timing(&self) -> (r: &Option<Vec<Baudrate>>)
        ensures
            match r {
                Some(b) => self@.bit_timing == Some(views(b@)),
                None => self@.bit_timing is None,
            },
    {
        &self.bit_timing
    }

    pub fn nodes(&self) -> (r: &Vec<Node>)
        ensures
            views(r@) == self@.nodes,
    {
        &self.nodes
    }

    pub fn value_tables(&self) -> (r: &Vec<ValueTable>)
        ensures
            views(r@) == self@.value_tables,
    {
        &self.value_tables
    }

    pub fn messages(&self) -> (r: &Vec<Message>)
        ensures
            views(r@) == self@.messages,
    {
        &self.messages
    }

    pub fn message_transmitters(&self) -> (r: &Vec<MessageTransmitter>)
        ensures
            views(r@) == self@.message_transmitters,
    {
        &self.message_transmitters
    }

    pub fn environment_variables(&self) -> (r: &Vec<EnvironmentVariable>)
        ensures
            views(r@) == self@.environment_variables,
    {
        &self.environment_variables
    }

    pub fn environment_variable_data(&self) -> (r: &Vec<EnvironmentVariableData>)
        ensures
            views(r@) == self@.environment_variable_data,
    {
        &self.environment_variable_data
    }

    pub fn signal_types(&self) -> (r: &Vec<SignalType>)
        ensures
            views(r@) == self@.signal_types,
    {
        &self.signal_types
    }

    pub fn comments(&self) -> (r: &Vec<Comment>)
        ensures
            views(r@) == self@.comments,
    {
        &self.comments
    }

    pub fn attribute_definitions(&self) -> (r: &Vec<AttributeDefinition>)
        ensures
            views(r@) == self@.attribute_definitions,
    {
        &self.attribute_definitions
    }

    pub fn attribute_defaults(&self) -> (r: &Vec<AttributeDefault>)
        ensures
            views(r@) == self@.attribute_defaults,
    {
        &self.attribute_defaults
    }

    pub fn attribute_values(&self) -> (r: &Vec<AttributeValueForObject>)
        ensures
            views(r@) == self@.attribute_values,
    {
        &self.attribute_values
    }

    pub fn value_descriptions(&self) -> (r: &Vec<ValueDescription>)
        ensures
            views(r@) == self@.value_descriptions,
    {
        &self.value_descriptions
    }

    pub fn signal_type_refs(&self) -> (r: &Vec<SignalTypeRef>)
        ensures
            views(r@) == self@.signal_type_refs,
    {
        &self.signal_type_refs
    }

    pub fn signal_groups(&self) -> (r: &Vec<SignalGroups>)
        ensures
            views(r@) == self@.signal_groups,
    {
        &self.signal_groups
    }

    pub fn signal_extended_value_type_list(&self) -> (r: &Option<SignalExtendedValueTypeList>)
        ensures
            match r {
                Some(x) => self@.signal_extended_value_type_list == Some(x@),
                None => self@.signal_extended_value_type_list is None,
            },
    {
        &self.signal_extended_value_type_list
    }

    /// Reads a DBC file.
    pub fn from_slice(buffer: &[u8]) -> (r: Result<DBC, Error>)
        ensures
            match dbc(buffer@) {
                Some((m, q)) => if q == buffer@.len() {
                    r matches Ok(d) && d@ == m
                } else {
                    r matches Err(Error::Incomplete(d, rest)) && d@ == m && rest@ == buffer@.skip(
                        q,
                    )
                },
                None => r matches Err(Error::Parse(off)) && off == head_error_offset(buffer@),
            },
            dbc(buffer@) matches Some((_, q)) ==> 0 <= q <= buffer@.len(),
            r matches Err(Error::Incomplete(_, rest)) ==> 0 < rest@.len() <= buffer@.len()
                && rest@ == buffer@.subrange(buffer@.len() - rest@.len(), buffer@.len() as int)
                && !is_multispace(rest@[0]),
    {
        let s = buffer;
        let (version, a) = match VersionRule::parse(s, 0) {
            Some(x) => x,
            None => {
                return Err(Error::Parse(0));
            },
        };
        let (syms, b) = match new_symbols_exec(s, a) {
            Some(x) => x,
            None => {
                return Err(Error::Parse(a));
            },
        };
        let (bt, c) = match bit_timing_exec(s, b) {
            Some((r, c)) => (Some(r), c),
            None => (None, b),
        };
        let (nodes, c1) = many0_exec::<NodeRule>(s, c);
        let (vts, c2) = many0_exec::<ValueTableRule>(s, c1);
        let (msgs, c3) = many0_exec::<MessageRule>(s, c2);
        let (mts, c4) = many0_exec::<MessageTransmitterRule>(s, c3);
        let (evs, c5) = many0_exec::<EnvironmentVariableRule>(s, c4);
        let (evds, c6) = many0_exec::<EnvironmentVariableDataRule>(s, c5);
        let (sts, c7) = many0_exec::<SignalTypeRule>(s, c6);
        let (cms, c8) = many0_exec::<CommentRule>(s, c7);
        let (ads, c9) = many0_exec::<AttributeDefinitionRule>(s, c8);
        let (adfs, c10) = many0_exec::<AttributeDefaultRule>(s, c9);
        let (avs, c11) = many0_exec::<AttributeValueRule>(s, c10);
        let (vds, c12) = many0_exec::<ValueDescriptionRule>(s, c11);
        let (strs, c13) = many0_exec::<SignalTypeRefRule>(s, c12);
        let (sgs, c14) = many0_exec::<SignalGroupsRule>(s, c13);
        let (ext, d) = match SignalExtendedValueTypeRule::parse(s, c14) {
            Some((x, d)) => (Some(x), d),
            None => (None, c14),
        };
        let q = skip(s, d, Class::MultiSpace);
        let result = DBC {
            version,
            new_symbols: syms,
            bit_timing: bt,
            nodes,
            value_tables: vts,
            messages: msgs,
            message_transmitters: mts,
            environment_variables: evs,
            environment_variable_data: evds,
            signal_types: sts,
            comments: cms,
            attribute_definitions: ads,
            attribute_defaults: adfs,
            attribute_values: avs,
            value_descriptions: vds,
            signal_type_refs: strs,
            signal_groups: sgs,
            signal_extended_value_type_list: ext,
        };
        if q < s.len() {
            let rest = copy_from(s, q);
            proof {
                lemma_skip_stops(s@, d as int, Class::MultiSpace);
            }
            Err(Error::Incomplete(result, rest))
        } else {
            Ok(result)
        }
    }

    /// Lookup a message comment
    pub fn message_comment(&self, message_id: &MessageId) -> (r: Option<&str>)
        ensures
            r is None <==> forall|i: int|
                0 <= i < self@.comments.len() ==> !is_message_comment(
                    #[trigger] self@.comments[i],
                    *message_id,
                ),
            r matches Some(c) ==> exists|i: int|
                0 <= i < self@.comments.len() && is_message_comment(
                    #[trigger] self@.comments[i],
                    *message_id,
                ) && (forall|j: int|
                    0 <= j < i ==> !is_message_comment(self@.comments[j], *message_id)) && c@
                    == comment_text(self@.comments[i]),
    {
        let mut i: usize = 0;
        while i < self.comments.len()
            invariant
                i <= self.comments@.len(),
                forall|j: int| 0 <= j < i ==> !is_message_comment(self@.comments[j], *message_id),
            decreases self.comments@.len() - i,
        {
            assert(self@.comments[i as int] == self.comments@[i as int]@);
            match &self.comments[i] {
                Comment::Message { message_id: x, comment } => {
                    if *x == *message_id {
                        return Some(comment.as_str());
                    }
                },
                _ => {},
            }
            i = i + 1;
        }
        None
    }

    /// Lookup a signal comment
    pub fn signal_comment(&self, message_id: &MessageId, signal_name: &str) -> (r: Option<&str>)
        ensures
            r is None <==> forall|i: int|
                0 <= i < self@.comments.len() ==> !is_signal_comment(
                    #[trigger] self@.comments[i],
                    *message_id,
                    signal_name@,
                ),
            r matches Some(c) ==> exists|i: int|
                0 <= i < self@.comments.len() && is_signal_comment(
                    #[trigger] self@.comments[i],
                    *message_id,
                    signal_name@,
                ) && (forall|j: int|
                    0 <= j < i ==> !is_signal_comment(
                        self@.comments[j],
                        *message_id,
                        signal_name@,
                    )) && c@ == comment_text(self@.comments[i]),
    {
        let name = signal_name.to_owned();
        let mut i: usize = 0;
        while i < self.comments.len()
            invariant
                i <= self.comments@.len(),
                name@ == signal_name@,
                forall|j: int|
                    0 <= j < i ==> !is_signal_comment(
                        self@.comments[j],
                        *message_id,
                        signal_name@,
                    ),
            decreases self.comments@.len() - i,
        {
            assert(self@.comments[i as int] == self.comments@[i as int]@);
            match &self.comments[i] {
                Comment::Signal { message_id: x, signal_name: n, comment } => {
                    if *x == *message_id && *n == name {
                        return Some(comment.as_str());
                    }
                },
                _ => {},
            }
            i = i + 1;
        }
        None
    }

    /// Lookup value descriptions for signal
    pub fn value_descriptions_for_signal(&self, message_id: &MessageId, signal_name: &str) -> (r:
        Option<&[ValDescription]>)
        ensures
            r is None <==> forall|i: int|
                0 <= i < self@.value_descriptions.len() ==> !is_signal_value_description(
                    #[trigger] self@.value_descriptions[i],
                    *message_id,
                    signal_name@,
                ),
            r matches Some(d) ==> exists|i: int|
                0 <= i < self@.value_descriptions.len() && is_signal_value_description(
                    #[trigger] self@.value_descriptions[i],
                    *message_id,
                    signal_name@,
                ) && (forall|j: int|
                    0 <= j < i ==> !is_signal_value_description(
                        self@.value_descriptions[j],
                        *message_id,
                        signal_name@,
                    )) && views(d@) == descriptions_of(self@.value_descriptions[i]),
    {
        let name = signal_name.to_owned();
        let mut i: usize = 0;
        while i < self.value_descriptions.len()
            invariant
                i <= self.value_descriptions@.len(),
                name@ == signal_name@,
                forall|j: int|
                    0 <= j < i ==> !is_signal_value_description(
                        self@.value_descriptions[j],
                        *message_id,
                        signal_name@,
                    ),
            decreases self.value_descriptions@.len() - i,
        {
            assert(self@.value_descriptions[i as int] == self.value_descriptions@[i as int]@);
            match &self.value_descriptions[i] {
                ValueDescription::Signal {
                    message_id: x,
                    signal_name: n,
                    value_descriptions,
                } => {
                    if *x == *message_id && *n == name {
                        return Some(value_descriptions.as_slice());
                    }
                },
                _ => {},
            }
            i = i + 1;
        }
        None
    }
}

} // verus!
