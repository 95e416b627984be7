//! The grammar of DBC files: one rule per kind of line.
//!
//! Each rule is a spec function from the input bytes and a position to the
//! model of what it reads and the position after it; its executable twin is
//! proved to agree with it (see `Grammar`).
use vstd::prelude::*;
use crate::combinator::{After, Blank, Comma, Grammar, many0, many0_exec, sep_list, sep_list_exec, views};
use crate::keyword::{Kw, is_word, is_word_exec, kw, kw_exec};
use crate::lexer::{
    byte_at,
    byte_exec,
    eol,
    eol_exec,
    i64_exec,
    i64_num,
    ident,
    ident_exec,
    ms0,
    number_text,
    number_text_exec,
    quoted,
    quoted_exec,
    skip,
    skip_while,
    tag,
    u64_exec,
    u64_num,
    ws0,
    ws1,
    ws1_exec,
    Class,
};
use crate::text::{lossy_string, utf8_lossy};
use crate::types::{
    AccessNode,
    AccessType,
    AttributeDefault,
    AttributeDefinition,
    AttributeValue,
    AttributeValueForObject,
    AttributeValuedForObjectType,
    Baudrate,
    ByteOrder,
    Comment,
    EnvType,
    EnvironmentVariable,
    EnvironmentVariableData,
    Message,
    MessageId,
    MessageTransmitter,
    MultiplexIndicator,
    Node,
    Signal,
    SignalExtendedValueType,
    SignalExtendedValueTypeList,
    SignalGroups,
    SignalType,
    SignalTypeRef,
    SpecAccessNode,
    SpecAttributeDefault,
    SpecAttributeDefinition,
    SpecAttributeValue,
    SpecAttributeValueForObject,
    SpecAttributeValuedForObjectType,
    SpecComment,
    SpecEnvironmentVariable,
    SpecEnvironmentVariableData,
    SpecMessage,
    SpecMessageTransmitter,
    SpecSignal,
    SpecSignalExtendedValueTypeList,
    SpecSignalGroups,
    SpecSignalType,
    SpecSignalTypeRef,
    SpecTransmitter,
    SpecValDescription,
    SpecValueDescription,
    SpecValueTable,
    Symbol,
    Transmitter,
    ValDescription,
    ValueDescription,
    ValueTable,
    ValueType,
    Version,
};

verus! {

/// The text of the bytes from `a` to `b`.
pub open spec fn text(s: Seq<u8>, a: int, b: int) -> Seq<char> {
    utf8_lossy(s.subrange(a, b))
}

fn text_exec(s: &[u8], a: usize, b: usize) -> (r: String)
    requires
        a <= b <= s@.len(),
    ensures
        r@ == text(s@, a as int, b as int),
{
    lossy_string(&s[a..b])
}

/// `VERSION "..."`
pub struct VersionRule;

impl Grammar for VersionRule {
    type Out = Version;

    open spec fn spec_parse(s: Seq<u8>, p: int) -> Option<(Seq<char>, int)> {
        match tag(s, ms0(s, p), kw(Kw::Version)) {
            Some(a) => match quoted(s, ws0(s, a)) {
                Some((b, q)) => Some((text(s, ws0(s, a) + 1, b), q)),
                None => None,
            },
            None => None,
        }
    }

    fn parse(s: &[u8], p: usize) -> (r: Option<(Version, usize)>) {
        let a = kw_exec(s, skip(s, p, Class::MultiSpace), Kw::Version)?;
        let c = skip(s, a, Class::Space);
        let (b, q) = quoted_exec(s, c)?;
        Some((Version::new(text_exec(s, c + 1, b)), q))
    }
}

/// An identifier, as text.
pub struct NameRule;

impl Grammar for NameRule {
    type Out = String;

    open spec fn spec_parse(s: Seq<u8>, p: int) -> Option<(Seq<char>, int)> {
        match ident(s, p) {
            Some(q) => Some((text(s, p, q), q)),
            None => None,
        }
    }

    fn parse(s: &[u8], p: usize) -> (r: Option<(String, usize)>) {
        let q = ident_exec(s, p)?;
        Some((text_exec(s, p, q), q))
    }
}

/// An indented line with one symbol, in the list after `NS_ :`.
pub struct SymbolRule;

impl Grammar for SymbolRule {
    type Out = Symbol;

    open spec fn spec_parse(s: Seq<u8>, p: int) -> Option<(Seq<char>, int)> {
        match ws1(s, p) {
            Some(a) => match ident(s, a) {
                Some(b) => match eol(s, ws0(s, b)) {
                    Some(q) => Some((text(s, a, b), q)),
                    None => None,
                },
                None => None,
            },
            None => None,
        }
    }

    fn parse(s: &[u8], p: usize) -> (r: Option<(Symbol, usize)>) {
        let a = ws1_exec(s, p)?;
        let b = ident_exec(s, a)?;
        let q = eol_exec(s, skip(s, b, Class::Space))?;
        Some((Symbol::new(text_exec(s, a, b)), q))
    }
}

/// `NS_ :` and the list of new symbols below it.
pub open spec fn new_symbols(s: Seq<u8>, p: int) -> Option<(Seq<Seq<char>>, int)> {
    match tag(s, ms0(s, p), kw(Kw::Ns)) {
        Some(a) => match byte_at(s, ws0(s, a), 58) {
            Some(b) => match eol(s, ws0(s, b)) {
                Some(c) => Some(many0::<SymbolRule>(s, c)),
                None => None,
            },
            None => None,
        },
        None => None,
    }
}

pub fn new_symbols_exec(s: &[u8], p: usize) -> (r: Option<(Vec<Symbol>, usize)>)
    requires
        p <= s@.len(),
    ensures
        r matches Some((v, q)) ==> new_symbols(s@, p as int) == Some((views(v@), q as int)) && p
            <= q <= s@.len(),
        r is None ==> new_symbols(s@, p as int) is None,
{
    let a = kw_exec(s, skip(s, p, Class::MultiSpace), Kw::Ns)?;
    let b = byte_exec(s, skip(s, a, Class::Space), 58)?;
    let c = eol_exec(s, skip(s, b, Class::Space))?;
    Some(many0_exec::<SymbolRule>(s, c))
}

/// A baudrate.
pub struct BaudrateRule;

impl Grammar for BaudrateRule {
    type Out = Baudrate;

    open spec fn spec_parse(s: Seq<u8>, p: int) -> Option<(u64, int)> {
        u64_num(s, p)
    }

    fn parse(s: &[u8], p: usize) -> (r: Option<(Baudrate, usize)>) {
        let (v, q) = u64_exec(s, p)?;
        Some((Baudrate::new(v), q))
    }
}

/// `BS_:` with an optional comma-separated list of baudrates.
pub open spec fn bit_timing(s: Seq<u8>, p: int) -> Option<(Seq<u64>, int)> {
    match tag(s, ms0(s, p), kw(Kw::Bs)) {
        Some(a) => match byte_at(s, ws0(s, a), 58) {
            Some(b) => match ws1(s, b) {
                Some(c) => Some(sep_list::<Comma, BaudrateRule>(s, c)),
                None => Some((seq![], b)),
            },
            None => None,
        },
        None => None,
    }
}

pub fn bit_timing_exec(s: &[u8], p: usize) -> (r: Option<(Vec<Baudrate>, usize)>)
    requires
        p <= s@.len(),
    ensures
        r matches Some((v, q)) ==> bit_timing(s@, p as int) == Some((views(v@), q as int)) && p
            <= q <= s@.len(),
        r is None ==> bit_timing(s@, p as int) is None,
{
    let a = kw_exec(s, skip(s, p, Class::MultiSpace), Kw::Bs)?;
    let b = byte_exec(s, skip(s, a, Class::Space), 58)?;
    match ws1_exec(s, b) {
        Some(c) => Some(sep_list_exec::<Comma, BaudrateRule>(s, c)),
        None => {
            let v: Vec<Baudrate> = Vec::new();
            assert(views(v@) =~= seq![]);
            Some((v, b))
        },
    }
}

/// `BU_:` with the names of the network's nodes.
pub struct NodeRule;

impl Grammar for NodeRule {
    type Out = Node;

    open spec fn spec_parse(s: Seq<u8>, p: int) -> Option<(Seq<Seq<char>>, int)> {
        match tag(s, ms0(s, p), kw(Kw::Bu)) {
            Some(a) => match byte_at(s, ws0(s, a), 58) {
                Some(b) => match ws1(s, b) {
                    Some(c) => Some(sep_list::<Blank, NameRule>(s, c)),
                    None => Some((seq![], b)),
                },
                None => None,
            },
            None => None,
        }
    }

    fn parse(s: &[u8], p: usize) -> (r: Option<(Node, usize)>) {
        let a = kw_exec(s, skip(s, p, Class::MultiSpace), Kw::Bu)?;
        let b = byte_exec(s, skip(s, a, Class::Space), 58)?;
        match ws1_exec(s, b) {
            Some(c) => {
                let (v, q) = sep_list_exec::<Blank, NameRule>(s, c);
                Some((Node::new(v), q))
            },
            None => {
                let v: Vec<String> = Vec::new();
                assert(views(v@) =~= seq![]);
                Some((Node::new(v), b))
            },
        }
    }
}

/// A node name, or `Vector__XXX` for none.
pub struct TransmitterRule;

impl Grammar for TransmitterRule {
    type Out = Transmitter;

    open spec fn spec_parse(s: Seq<u8>, p: int) -> Option<(SpecTransmitter, int)> {
        match ident(s, p) {
            Some(q) => if is_word(s, p, q, Kw::VectorXxx) {
                Some((SpecTransmitter::VectorXXX, q))
            } else {
                Some((SpecTransmitter::NodeName(text(s, p, q)), q))
            },
            None => None,
        }
    }

    fn parse(s: &[u8], p: usize) -> (r: Option<(Transmitter, usize)>) {
        let q = ident_exec(s, p)?;
        if is_word_exec(s, p, q, Kw::VectorXxx) {
            Some((Transmitter::VectorXXX, q))
        } else {
            Some((Transmitter::NodeName(text_exec(s, p, q)), q))
        }
    }
}

/// `M` (the multiplexer switch), `m` and a number (a multiplexed signal), or
/// nothing (a plain signal); then optional spaces.
pub open spec fn mux(s: Seq<u8>, p: int) -> (MultiplexIndicator, int) {
    match byte_at(s, p, 77) {
        Some(a) => (MultiplexIndicator::Multiplexor, ws0(s, a)),
        None => match byte_at(s, p, 109) {
            Some(a) => match u64_num(s, a) {
                Some((v, b)) => (MultiplexIndicator::MultiplexedSignal(v), ws0(s, b)),
                None => (MultiplexIndicator::Plain, p),
            },
            None => (MultiplexIndicator::Plain, p),
        },
    }
}

fn mux_exec(s: &[u8], p: usize) -> (r: (MultiplexIndicator, usize))
    requires
        p <= s@.len(),
    ensures
        r.0 == mux(s@, p as int).0,
        r.1 == mux(s@, p as int).1,
        p <= r.1 <= s@.len(),
{
    match byte_exec(s, p, 77) {
        Some(a) => (MultiplexIndicator::Multiplexor, skip(s, a, Class::Space)),
        None => match byte_exec(s, p, 109) {
            Some(a) => match u64_exec(s, a) {
                Some((v, b)) => (MultiplexIndicator::MultiplexedSignal(v), skip(s, b, Class::Space)),
                None => (MultiplexIndicator::Plain, p),
            },
            None => (MultiplexIndicator::Plain, p),
        },
    }
}

/// `1` (little endian) or `0` (big endian), then `+` (unsigned) or `-`
/// (signed).
pub open spec fn order_and_type(s: Seq<u8>, p: int) -> Option<(ByteOrder, ValueType, int)> {
    let bo = if byte_at(s, p, 49) is Some {
        Some(ByteOrder::LittleEndian)
    } else if byte_at(s, p, 48) is Some {
        Some(ByteOrder::BigEndian)
    } else {
        None
    };
    match bo {
        Some(o) => if byte_at(s, p + 1, 45) is Some {
            Some((o, ValueType::Signed, p + 2))
        } else if byte_at(s, p + 1, 43) is Some {
            Some((o, ValueType::Unsigned, p + 2))
        } else {
            None
        },
        None => None,
    }
}

fn order_and_type_exec(s: &[u8], p: usize) -> (r: Option<(ByteOrder, ValueType, usize)>)
    requires
        p <= s@.len(),
    ensures
        r matches Some((o, t, q)) ==> order_and_type(s@, p as int) == Some((o, t, q as int)) && p
            < q <= s@.len(),
        r is None ==> order_and_type(s@, p as int) is None,
{
    let o;
    if byte_exec(s, p, 49).is_some() {
        o = ByteOrder::LittleEndian;
    } else if byte_exec(s, p, 48).is_some() {
        o = ByteOrder::BigEndian;
    } else {
        return None;
    }
    if byte_exec(s, p + 1, 45).is_some() {
        Some((o, ValueType::Signed, p + 2))
    } else if byte_exec(s, p + 1, 43).is_some() {
        Some((o, ValueType::Unsigned, p + 2))
    } else {
        None
    }
}

/// Optional spaces and a decimal number: the bounds of its text.
pub open spec fn padded_number(s: Seq<u8>, p: int) -> Option<(int, int)> {
    match number_text(s, ws0(s, p)) {
        Some(q) => Some((ws0(s, p), q)),
        None => None,
    }
}

fn padded_number_exec(s: &[u8], p: usize) -> (r: Option<(usize, usize)>)
    requires
        p <= s@.len(),
    ensures
        r matches Some((a, q)) ==> padded_number(s@, p as int) == Some((a as int, q as int)) && p
            <= a < q <= s@.len(),
        r is None ==> padded_number(s@, p as int) is None,
{
    let a = skip(s, p, Class::Space);
    let q = number_text_exec(s, a)?;
    Some((a, q))
}

/// Two numbers between `open` and `close`, separated by `mid`, such as
/// `(1,0)` or `[0|255]`: the bounds of both texts and the position after
/// `close`.
pub open spec fn number_pair(s: Seq<u8>, p: int, open: u8, mid: u8, close: u8) -> Option<
    (int, int, int, int, int),
> {
    match byte_at(s, p, open) {
        Some(a) => match padded_number(s, a) {
            Some((x1, y1)) => match byte_at(s, ws0(s, y1), mid) {
                Some(b) => match padded_number(s, b) {
                    Some((x2, y2)) => match byte_at(s, ws0(s, y2), close) {
                        Some(q) => Some((x1, y1, x2, y2, q)),
                        None => None,
                    },
                    None => None,
                },
                None => None,
            },
            None => None,
        },
        None => None,
    }
}

fn number_pair_exec(s: &[u8], p: usize, open: u8, mid: u8, close: u8) -> (r: Option<
    (usize, usize, usize, usize, usize),
>)
    requires
        p <= s@.len(),
    ensures
        r matches Some((x1, y1, x2, y2, q)) ==> number_pair(s@, p as int, open, mid, close) == Some(
            (x1 as int, y1 as int, x2 as int, y2 as int, q as int),
        ) && p < q <= s@.len() && x1 <= y1 <= s@.len() && x2 <= y2 <= s@.len(),
        r is None ==> number_pair(s@, p as int, open, mid, close) is None,
{
    let a = byte_exec(s, p, open)?;
    let (x1, y1) = padded_number_exec(s, a)?;
    let b = byte_exec(s, skip(s, y1, Class::Space), mid)?;
    let (x2, y2) = padded_number_exec(s, b)?;
    let q = byte_exec(s, skip(s, y2, Class::Space), close)?;
    Some((x1, y1, x2, y2, q))
}

/// The position of a signal's bits, after the colon: start bit, `|`, size,
/// `@`, byte order and value type.
pub open spec fn bit_layout(s: Seq<u8>, p: int) -> Option<(u64, u64, ByteOrder, ValueType, int)> {
    match u64_num(s, ws0(s, p)) {
        Some((start, a)) => match byte_at(s, a, 124) {
            Some(b) => match u64_num(s, b) {
                Some((size, c)) => match byte_at(s, c, 64) {
                    Some(d) => match order_and_type(s, d) {
                        Some((o, t, q)) => Some((start, size, o, t, q)),
                        None => None,
                    },
                    None => None,
                },
                None => None,
            },
            None => None,
        },
        None => None,
    }
}

fn bit_layout_exec(s: &[u8], p: usize) -> (r: Option<(u64, u64, ByteOrder, ValueType, usize)>)
    requires
        p <= s@.len(),
    ensures
        r matches Some((start, size, o, t, q)) ==> bit_layout(s@, p as int) == Some(
            (start, size, o, t, q as int),
        ) && p < q <= s@.len(),
        r is None ==> bit_layout(s@, p as int) is None,
{
    let (start, a) = u64_exec(s, skip(s, p, Class::Space))?;
    let b = byte_exec(s, a, 124)?;
    let (size, c) = u64_exec(s, b)?;
    let d = byte_exec(s, c, 64)?;
    let (o, t, q) = order_and_type_exec(s, d)?;
    Some((start, size, o, t, q))
}

/// `SG_ name [mux] : start|size@order type (factor,offset) [min|max] "unit" receivers`
pub struct SignalRule;

impl Grammar for SignalRule {
    type Out = Signal;

    open spec fn spec_parse(s: Seq<u8>, p: int) -> Option<(SpecSignal, int)> {
        match tag(s, ms0(s, p), kw(Kw::Sg)) {
            Some(a) => match ws1(s, a) {
                Some(b) => match ident(s, b) {
                    Some(c) => {
                        let (mx, d) = mux(s, ws0(s, c));
                        match byte_at(s, d, 58) {
                            Some(e) => match bit_layout(s, e) {
                                Some((start, size, o, t, f)) => match number_pair(
                                    s,
                                    ws0(s, f),
                                    40,
                                    44,
                                    41,
                                ) {
                                    Some((f1, f2, f3, f4, g)) => match number_pair(
                                        s,
                                        ws0(s, g),
                                        91,
                                        124,
                                        93,
                                    ) {
                                        Some((m1, m2, m3, m4, h)) => match quoted(s, ws0(s, h)) {
                                            Some((u, i)) => {
                                                let rl = sep_list::<Comma, NameRule>(s, ws0(s, i));
                                                Some(
                                                    (
                                                        SpecSignal {
                                                            name: text(s, b, c),
                                                            multiplexer_indicator: mx,
                                                            start_bit: start,
                                                            signal_size: size,
                                                            byte_order: o,
                                                            value_type: t,
                                                            factor: text(s, f1, f2),
                                                            offset: text(s, f3, f4),
                                                            min: text(s, m1, m2),
                                                            max: text(s, m3, m4),
                                                            unit: text(s, ws0(s, h) + 1, u),
                                                            receivers: rl.0,
                                                        },
                                                        rl.1,
                                                    ),
                                                )
                                            },
                                            None => None,
                                        },
                                        None => None,
                                    },
                                    None => None,
                                },
                                None => None,
                            },
                            None => None,
                        }
                    },
                    None => None,
                },
                None => None,
            },
            None => None,
        }
    }

    fn parse(s: &[u8], p: usize) -> (r: Option<(Signal, usize)>) {
        let a = kw_exec(s, skip(s, p, Class::MultiSpace), Kw::Sg)?;
        let b = ws1_exec(s, a)?;
        let c = ident_exec(s, b)?;
        let (mx, d) = mux_exec(s, skip(s, c, Class::Space));
        let e = byte_exec(s, d, 58)?;
        let (start, size, o, t, f) = bit_layout_exec(s, e)?;
        let (f1, f2, f3, f4, g) = number_pair_exec(s, skip(s, f, Class::Space), 40, 44, 41)?;
        let (m1, m2, m3, m4, h) = number_pair_exec(s, skip(s, g, Class::Space), 91, 124, 93)?;
        let h1 = skip(s, h, Class::Space);
        let (u, i) = quoted_exec(s, h1)?;
        let (receivers, q) = sep_list_exec::<Comma, NameRule>(s, skip(s, i, Class::Space));
        let sig = Signal::new(
            text_exec(s, b, c),
            mx,
            start,
            size,
            o,
            t,
            text_exec(s, f1, f2),
            text_exec(s, f3, f4),
            text_exec(s, m1, m2),
            text_exec(s, m3, m4),
            text_exec(s, h1 + 1, u),
            receivers,
        );
        Some((sig, q))
    }
}

/// `BO_ id name: size transmitter`, and the message's signals below it.
pub struct MessageRule;

impl Grammar for MessageRule {
    type Out = Message;

    open spec fn spec_parse(s: Seq<u8>, p: int) -> Option<(SpecMessage, int)> {
        match tag(s, ms0(s, p), kw(Kw::Bo)) {
            Some(a) => match ws1(s, a) {
                Some(b) => match u64_num(s, b) {
                    Some((id, c)) => match ws1(s, c) {
                        Some(d) => match ident(s, d) {
                            Some(e) => match byte_at(s, ws0(s, e), 58) {
                                Some(f) => match u64_num(s, ws0(s, f)) {
                                    Some((size, g)) => match ws1(s, g) {
                                        Some(h) => match TransmitterRule::spec_parse(s, h) {
                                            Some((tx, i)) => {
                                                let sigs = many0::<SignalRule>(s, i);
                                                Some(
                                                    (
                                                        SpecMessage {
                                                            message_id: MessageId(id),
                                                            message_name: text(s, d, e),
                                                            message_size: size,
                                                            transmitter: tx,
                                                            signals: sigs.0,
                                                        },
                                                        sigs.1,
                                                    ),
                                                )
                                            },
                                            None => None,
                                        },
                                        None => None,
                                    },
                                    None => None,
                                },
                                None => None,
                            },
                            None => None,
                        },
                        None => None,
                    },
                    None => None,
                },
                None => None,
            },
            None => None,
        }
    }

    fn parse(s: &[u8], p: usize) -> (r: Option<(Message, usize)>) {
        let a = kw_exec(s, skip(s, p, Class::MultiSpace), Kw::Bo)?;
        let b = ws1_exec(s, a)?;
        let (id, c) = u64_exec(s, b)?;
        let d = ws1_exec(s, c)?;
        let e = ident_exec(s, d)?;
        let f = byte_exec(s, skip(s, e, Class::Space), 58)?;
        let (size, g) = u64_exec(s, skip(s, f, Class::Space))?;
        let h = ws1_exec(s, g)?;
        let (tx, i) = TransmitterRule::parse(s, h)?;
        let (signals, q) = many0_exec::<SignalRule>(s, i);
        Some((Message::new(MessageId(id), text_exec(s, d, e), size, tx, signals), q))
    }
}

/// A double-quoted string, as text.
pub open spec fn string_lit(s: Seq<u8>, p: int) -> Option<(Seq<char>, int)> {
    match quoted(s, p) {
        Some((b, q)) => Some((text(s, p + 1, b), q)),
        None => None,
    }
}

fn string_lit_exec(s: &[u8], p: usize) -> (r: Option<(String, usize)>)
    requires
        p <= s@.len(),
    ensures
        r matches Some((t, q)) ==> string_lit(s@, p as int) == Some((t@, q as int)) && p < q
            <= s@.len(),
        r is None ==> string_lit(s@, p as int) is None,
{
    let (b, q) = quoted_exec(s, p)?;
    Some((text_exec(s, p + 1, b), q))
}

/// Optional spaces and a semicolon.
pub open spec fn semicolon(s: Seq<u8>, p: int) -> Option<int> {
    byte_at(s, ws0(s, p), 59)
}

fn semicolon_exec(s: &[u8], p: usize) -> (r: Option<usize>)
    requires
        p <= s@.len(),
    ensures
        r matches Some(q) ==> semicolon(s@, p as int) == Some(q as int) && p < q <= s@.len(),
        r is None ==> semicolon(s@, p as int) is None,
{
    byte_exec(s, skip(s, p, Class::Space), 59)
}

/// Optional spaces and a colon.
pub open spec fn colon(s: Seq<u8>, p: int) -> Option<int> {
    byte_at(s, ws0(s, p), 58)
}

fn colon_exec(s: &[u8], p: usize) -> (r: Option<usize>)
    requires
        p <= s@.len(),
    ensures
        r matches Some(q) ==> colon(s@, p as int) == Some(q as int) && p < q <= s@.len(),
        r is None ==> colon(s@, p as int) is None,
{
    byte_exec(s, skip(s, p, Class::Space), 58)
}

/// `BO_TX_BU_ id : transmitters;`
pub struct MessageTransmitterRule;

impl Grammar for MessageTransmitterRule {
    type Out = MessageTransmitter;

    open spec fn spec_parse(s: Seq<u8>, p: int) -> Option<(SpecMessageTransmitter, int)> {
        match tag(s, ms0(s, p), kw(Kw::BoTxBu)) {
            Some(a) => match ws1(s, a) {
                Some(b) => match u64_num(s, b) {
                    Some((id, c)) => match colon(s, c) {
                        Some(d) => {
                            let l = sep_list::<Comma, TransmitterRule>(s, ws0(s, d));
                            match semicolon(s, l.1) {
                                Some(q) => Some(
                                    (
                                        SpecMessageTransmitter {
                                            message_id: MessageId(id),
                                            transmitter: l.0,
                                        },
                                        q,
                                    ),
                                ),
                                None => None,
                            }
                        },
                        None => None,
                    },
                    None => None,
                },
                None => None,
            },
            None => None,
        }
    }

    fn parse(s: &[u8], p: usize) -> (r: Option<(MessageTransmitter, usize)>) {
        let a = kw_exec(s, skip(s, p, Class::MultiSpace), Kw::BoTxBu)?;
        let b = ws1_exec(s, a)?;
        let (id, c) = u64_exec(s, b)?;
        let d = colon_exec(s, c)?;
        let (txs, e) = sep_list_exec::<Comma, TransmitterRule>(s, skip(s, d, Class::Space));
        let q = semicolon_exec(s, e)?;
        Some((MessageTransmitter::new(MessageId(id), txs), q))
    }
}

/// A node name, or `VECTOR__XXX` for none.
pub struct AccessNodeRule;

impl Grammar for AccessNodeRule {
    type Out = AccessNode;

    open spec fn spec_parse(s: Seq<u8>, p: int) -> Option<(SpecAccessNode, int)> {
        match ident(s, p) {
            Some(q) => if is_word(s, p, q, Kw::VectorXxxUpper) {
                Some((SpecAccessNode::AccessNodeVectorXXX, q))
            } else {
                Some((SpecAccessNode::AccessNodeName(text(s, p, q)), q))
            },
            None => None,
        }
    }

    fn parse(s: &[u8], p: usize) -> (r: Option<(AccessNode, usize)>) {
        let q = ident_exec(s, p)?;
        if is_word_exec(s, p, q, Kw::VectorXxxUpper) {
            Some((AccessNode::AccessNodeVectorXXX, q))
        } else {
            Some((AccessNode::AccessNodeName(text_exec(s, p, q)), q))
        }
    }
}

/// `0` (float), `1` (integer) or `2` (data).
pub open spec fn env_type(s: Seq<u8>, p: int) -> Option<(EnvType, int)> {
    if byte_at(s, p, 48) is Some {
        Some((EnvType::EnvTypeFloat, p + 1))
    } else if byte_at(s, p, 49) is Some {
        Some((EnvType::EnvTypeu64, p + 1))
    } else if byte_at(s, p, 50) is Some {
        Some((EnvType::EnvTypeData, p + 1))
    } else {
        None
    }
}

fn env_type_exec(s: &[u8], p: usize) -> (r: Option<(EnvType, usize)>)
    requires
        p <= s@.len(),
    ensures
        r matches Some((t, q)) ==> env_type(s@, p as int) == Some((t, q as int)) && p < q
            <= s@.len(),
        r is None ==> env_type(s@, p as int) is None,
{
    if byte_exec(s, p, 48).is_some() {
        Some((EnvType::EnvTypeFloat, p + 1))
    } else if byte_exec(s, p, 49).is_some() {
        Some((EnvType::EnvTypeu64, p + 1))
    } else if byte_exec(s, p, 50).is_some() {
        Some((EnvType::EnvTypeData, p + 1))
    } else {
        None
    }
}

/// `DUMMY_NODE_VECTOR0` to `DUMMY_NODE_VECTOR3`.
pub open spec fn access_type(s: Seq<u8>, p: int) -> Option<(AccessType, int)> {
    match ident(s, p) {
        Some(q) => if is_word(s, p, q, Kw::DummyNodeVector0) {
            Some((AccessType::DummyNodeVector0, q))
        } else if is_word(s, p, q, Kw::DummyNodeVector1) {
            Some((AccessType::DummyNodeVector1, q))
        } else if is_word(s, p, q, Kw::DummyNodeVector2) {
            Some((AccessType::DummyNodeVector2, q))
        } else if is_word(s, p, q, Kw::DummyNodeVector3) {
            Some((AccessType::DummyNodeVector3, q))
        } else {
            None
        },
        None => None,
    }
}

fn access_type_exec(s: &[u8], p: usize) -> (r: Option<(AccessType, usize)>)
    requires
        p <= s@.len(),
    ensures
        r matches Some((t, q)) ==> access_type(s@, p as int) == Some((t, q as int)) && p < q
            <= s@.len(),
        r is None ==> access_type(s@, p as int) is None,
{
    let q = ident_exec(s, p)?;
    if is_word_exec(s, p, q, Kw::DummyNodeVector0) {
        Some((AccessType::DummyNodeVector0, q))
    } else if is_word_exec(s, p, q, Kw::DummyNodeVector1) {
        Some((AccessType::DummyNodeVector1, q))
    } else if is_word_exec(s, p, q, Kw::DummyNodeVector2) {
        Some((AccessType::DummyNodeVector2, q))
    } else if is_word_exec(s, p, q, Kw::DummyNodeVector3) {
        Some((AccessType::DummyNodeVector3, q))
    } else {
        None
    }
}

/// `[min|max]` with two signed integers.
pub open spec fn int_range(s: Seq<u8>, p: int) -> Option<(i64, i64, int)> {
    match byte_at(s, p, 91) {
        Some(a) => match i64_num(s, ws0(s, a)) {
            Some((lo, b)) => match byte_at(s, ws0(s, b), 124) {
                Some(c) => match i64_num(s, ws0(s, c)) {
                    Some((hi, d)) => match byte_at(s, ws0(s, d), 93) {
                        Some(q) => Some((lo, hi, q)),
                        None => None,
                    },
                    None => None,
                },
                None => None,
            },
            None => None,
        },
        None => None,
    }
}

fn int_range_exec(s: &[u8], p: usize) -> (r: Option<(i64, i64, usize)>)
    requires
        p <= s@.len(),
    ensures
        r matches Some((lo, hi, q)) ==> int_range(s@, p as int) == Some((lo, hi, q as int)) && p
            < q <= s@.len(),
        r is None ==> int_range(s@, p as int) is None,
{
    let a = byte_exec(s, p, 91)?;
    let (lo, b) = i64_exec(s, skip(s, a, Class::Space))?;
    let c = byte_exec(s, skip(s, b, Class::Space), 124)?;
    let (hi, d) = i64_exec(s, skip(s, c, Class::Space))?;
    let q = byte_exec(s, skip(s, d, Class::Space), 93)?;
    Some((lo, hi, q))
}

/// `EV_ name: type [min|max] "unit" initial id access nodes;`
pub struct EnvironmentVariableRule;

impl Grammar for EnvironmentVariableRule {
    type Out = EnvironmentVariable;

    open spec fn spec_parse(s: Seq<u8>, p: int) -> Option<(SpecEnvironmentVariable, int)> {
        match tag(s, ms0(s, p), kw(Kw::Ev)) {
            Some(a) => match ws1(s, a) {
                Some(b) => match ident(s, b) {
                    Some(c) => match colon(s, c) {
                        Some(d) => match env_type(s, ws0(s, d)) {
                            Some((et, e)) => match ws1(s, e) {
                                Some(f) => match int_range(s, f) {
                                    Some((lo, hi, g)) => match ws1(s, g) {
                                        Some(h) => match string_lit(s, h) {
                                            Some((unit, i)) => match ws1(s, i) {
                                                Some(j) => match number_text(s, j) {
                                                    Some(k) => match ws1(s, k) {
                                                        Some(l) => match i64_num(s, l) {
                                                            Some((ev_id, m)) => match ws1(s, m) {
                                                                Some(n) => match access_type(s, n) {
                                                                    Some((at, o)) => match ws1(s, o) {
                                                                        Some(t) => {
                                                                            let nodes = sep_list::<Comma, AccessNodeRule>(s, t);
                                                                            match semicolon(s, nodes.1) {
                                                                                Some(q) => Some(
                                                                                    (
                                                                                        SpecEnvironmentVariable {
                                                                                            env_var_name: text(s, b, c),
                                                                                            env_var_type: et,
                                                                                            min: lo,
                                                                                            max: hi,
                                                                                            unit,
                                                                                            initial_value: text(s, j, k),
                                                                                            ev_id,
                                                                                            access_type: at,
                                                                                            access_nodes: nodes.0,
                                                                                        },
                                                                                        q,
                                                                                    ),
                                                                                ),
                                                                                None => None,
                                                                            }
                                                                        },
                                                                        None => None,
                                                                    },
                                                                    None => None,
                                                                },
                                                                None => None,
                                                            },
                                                            None => None,
                                                        },
                                                        None => None,
                                                    },
                                                    None => None,
                                                },
                                                None => None,
                                            },
                                            None => None,
                                        },
                                        None => None,
                                    },
                                    None => None,
                                },
                                None => None,
                            },
                            None => None,
                        },
                        None => None,
                    },
                    None => None,
                },
                None => None,
            },
            None => None,
        }
    }

    fn parse(s: &[u8], p: usize) -> (r: Option<(EnvironmentVariable, usize)>) {
        let a = kw_exec(s, skip(s, p, Class::MultiSpace), Kw::Ev)?;
        let b = ws1_exec(s, a)?;
        let c = ident_exec(s, b)?;
        let d = colon_exec(s, c)?;
        let (et, e) = env_type_exec(s, skip(s, d, Class::Space))?;
        let f = ws1_exec(s, e)?;
        let (lo, hi, g) = int_range_exec(s, f)?;
        let h = ws1_exec(s, g)?;
        let (unit, i) = string_lit_exec(s, h)?;
        let j = ws1_exec(s, i)?;
        let k = number_text_exec(s, j)?;
        let l = ws1_exec(s, k)?;
        let (ev_id, m) = i64_exec(s, l)?;
        let n = ws1_exec(s, m)?;
        let (at, o) = access_type_exec(s, n)?;
        let t = ws1_exec(s, o)?;
        let (nodes, u) = sep_list_exec::<Comma, AccessNodeRule>(s, t);
        let q = semicolon_exec(s, u)?;
        let ev = EnvironmentVariable::new(
            text_exec(s, b, c),
            et,
            lo,
            hi,
            unit,
            text_exec(s, j, k),
            ev_id,
            at,
            nodes,
        );
        Some((ev, q))
    }
}

/// `ENVVAR_DATA_ name: size;`
pub struct EnvironmentVariableDataRule;

impl Grammar for EnvironmentVariableDataRule {
    type Out = EnvironmentVariableData;

    open spec fn spec_parse(s: Seq<u8>, p: int) -> Option<(SpecEnvironmentVariableData, int)> {
        match tag(s, ms0(s, p), kw(Kw::EnvVarData)) {
            Some(a) => match ws1(s, a) {
                Some(b) => match ident(s, b) {
                    Some(c) => match colon(s, c) {
                        Some(d) => match u64_num(s, ws0(s, d)) {
                            Some((size, e)) => match semicolon(s, e) {
                                Some(q) => Some(
                                    (
                                        SpecEnvironmentVariableData {
                                            env_var_name: text(s, b, c),
                                            data_size: size,
                                        },
                                        q,
                                    ),
                                ),
                                None => None,
                            },
                            None => None,
                        },
                        None => None,
                    },
                    None => None,
                },
                None => None,
            },
            None => None,
        }
    }

    fn parse(s: &[u8], p: usize) -> (r: Option<(EnvironmentVariableData, usize)>) {
        let a = kw_exec(s, skip(s, p, Class::MultiSpace), Kw::EnvVarData)?;
        let b = ws1_exec(s, a)?;
        let c = ident_exec(s, b)?;
        let d = colon_exec(s, c)?;
        let (size, e) = u64_exec(s, skip(s, d, Class::Space))?;
        let q = semicolon_exec(s, e)?;
        Some((EnvironmentVariableData::new(text_exec(s, b, c), size), q))
    }
}

/// `SGTYPE_ name: size@order type (factor,offset) [min|max] "unit" default, table;`
pub struct SignalTypeRule;

impl Grammar for SignalTypeRule {
    type Out = SignalType;

    open spec fn spec_parse(s: Seq<u8>, p: int) -> Option<(SpecSignalType, int)> {
        match tag(s, ms0(s, p), kw(Kw::SgType)) {
            Some(a) => match ws1(s, a) {
                Some(b) => match ident(s, b) {
                    Some(c) => match colon(s, c) {
                        Some(d) => match u64_num(s, ws0(s, d)) {
                            Some((size, e)) => match byte_at(s, ws0(s, e), 64) {
                                Some(f) => match order_and_type(s, f) {
                                    Some((o, t, g)) => match number_pair(s, ws0(s, g), 40, 44, 41) {
                                        Some((f1, f2, f3, f4, h)) => match number_pair(
                                            s,
                                            ws0(s, h),
                                            91,
                                            124,
                                            93,
                                        ) {
                                            Some((m1, m2, m3, m4, i)) => match string_lit(
                                                s,
                                                ws0(s, i),
                                            ) {
                                                Some((unit, j)) => match padded_number(s, j) {
                                                    Some((x, y)) => match byte_at(s, ws0(s, y), 44) {
                                                        Some(k) => match ident(s, ws0(s, k)) {
                                                            Some(l) => match semicolon(s, l) {
                                                                Some(q) => Some(
                                                                    (
                                                                        SpecSignalType {
                                                                            signal_type_name: text(s, b, c),
                                                                            signal_size: size,
                                                                            byte_order: o,
                                                                            value_type: t,
                                                                            factor: text(s, f1, f2),
                                                                            offset: text(s, f3, f4),
                                                                            min: text(s, m1, m2),
                                                                            max: text(s, m3, m4),
                                                                            unit,
                                                                            default_value: text(s, x, y),
                                                                            value_table: text(s, ws0(s, k), l),
                                                                        },
                                                                        q,
                                                                    ),
                                                                ),
                                                                None => None,
                                                            },
                                                            None => None,
                                                        },
                                                        None => None,
                                                    },
                                                    None => None,
                                                },
                                                None => None,
                                            },
                                            None => None,
                                        },
                                        None => None,
                                    },
                                    None => None,
                                },
                                None => None,
                            },
                            None => None,
                        },
                        None => None,
                    },
                    None => None,
                },
                None => None,
            },
            None => None,
        }
    }

    fn parse(s: &[u8], p: usize) -> (r: Option<(SignalType, usize)>) {
        let a = kw_exec(s, skip(s, p, Class::MultiSpace), Kw::SgType)?;
        let b = ws1_exec(s, a)?;
        let c = ident_exec(s, b)?;
        let d = colon_exec(s, c)?;
        let (size, e) = u64_exec(s, skip(s, d, Class::Space))?;
        let f = byte_exec(s, skip(s, e, Class::Space), 64)?;
        let (o, t, g) = order_and_type_exec(s, f)?;
        let (f1, f2, f3, f4, h) = number_pair_exec(s, skip(s, g, Class::Space), 40, 44, 41)?;
        let (m1, m2, m3, m4, i) = number_pair_exec(s, skip(s, h, Class::Space), 91, 124, 93)?;
        let (unit, j) = string_lit_exec(s, skip(s, i, Class::Space))?;
        let (x, y) = padded_number_exec(s, j)?;
        let k = byte_exec(s, skip(s, y, Class::Space), 44)?;
        let k1 = skip(s, k, Class::Space);
        let l = ident_exec(s, k1)?;
        let q = semicolon_exec(s, l)?;
        let st = SignalType::new(
            text_exec(s, b, c),
            size,
            o,
            t,
            text_exec(s, f1, f2),
            text_exec(s, f3, f4),
            text_exec(s, m1, m2),
            text_exec(s, m3, m4),
            unit,
            text_exec(s, x, y),
            text_exec(s, k1, l),
        );
        Some((st, q))
    }
}

/// `BU_ node "comment"`
pub open spec fn comment_node(s: Seq<u8>, p: int) -> Option<(SpecComment, int)> {
    match tag(s, p, kw(Kw::Bu)) {
        Some(a) => match ws1(s, a) {
            Some(b) => match ident(s, b) {
                Some(c) => match ws1(s, c) {
                    Some(d) => match string_lit(s, d) {
                        Some((t, q)) => Some(
                            (SpecComment::Node { node_name: text(s, b, c), comment: t }, q),
                        ),
                        None => None,
                    },
                    None => None,
                },
                None => None,
            },
            None => None,
        },
        None => None,
    }
}

fn comment_node_exec(s: &[u8], p: usize) -> (r: Option<(Comment, usize)>)
    requires
        p <= s@.len(),
    ensures
        r matches Some((x, q)) ==> comment_node(s@, p as int) == Some((x@, q as int)) && p <= q
            <= s@.len(),
        r is None ==> comment_node(s@, p as int) is None,
{
    let a = kw_exec(s, p, Kw::Bu)?;
    let b = ws1_exec(s, a)?;
    let c = ident_exec(s, b)?;
    let d = ws1_exec(s, c)?;
    let (t, q) = string_lit_exec(s, d)?;
    Some((Comment::Node { node_name: text_exec(s, b, c), comment: t }, q))
}

/// `BO_ id "comment"`
pub open spec fn comment_message(s: Seq<u8>, p: int) -> Option<(SpecComment, int)> {
    match tag(s, p, kw(Kw::Bo)) {
        Some(a) => match ws1(s, a) {
            Some(b) => match u64_num(s, b) {
                Some((id, c)) => match ws1(s, c) {
                    Some(d) => match string_lit(s, d) {
                        Some((t, q)) => Some(
                            (SpecComment::Message { message_id: MessageId(id), comment: t }, q),
                        ),
                        None => None,
                    },
                    None => None,
                },
                None => None,
            },
            None => None,
        },
        None => None,
    }
}

fn comment_message_exec(s: &[u8], p: usize) -> (r: Option<(Comment, usize)>)
    requires
        p <= s@.len(),
    ensures
        r matches Some((x, q)) ==> comment_message(s@, p as int) == Some((x@, q as int)) && p <= q
            <= s@.len(),
        r is None ==> comment_message(s@, p as int) is None,
{
    let a = kw_exec(s, p, Kw::Bo)?;
    let b = ws1_exec(s, a)?;
    let (id, c) = u64_exec(s, b)?;
    let d = ws1_exec(s, c)?;
    let (t, q) = string_lit_exec(s, d)?;
    Some((Comment::Message { message_id: MessageId(id), comment: t }, q))
}

/// `SG_ id signal "comment"`
pub open spec fn comment_signal(s: Seq<u8>, p: int) -> Option<(SpecComment, int)> {
    match tag(s, p, kw(Kw::Sg)) {
        Some(a) => match ws1(s, a) {
            Some(b) => match u64_num(s, b) {
                Some((id, c)) => match ws1(s, c) {
                    Some(d) => match ident(s, d) {
                        Some(e) => match ws1(s, e) {
                            Some(f) => match string_lit(s, f) {
                                Some((t, q)) => Some(
                                    (
                                        SpecComment::Signal {
                                            message_id: MessageId(id),
                                            signal_name: text(s, d, e),
                                            comment: t,
                                        },
                                        q,
                                    ),
                                ),
                                None => None,
                            },
                            None => None,
                        },
                        None => None,
                    },
                    None => None,
                },
                None => None,
            },
            None => None,
        },
        None => None,
    }
}

fn comment_signal_exec(s: &[u8], p: usize) -> (r: Option<(Comment, usize)>)
    requires
        p <= s@.len(),
    ensures
        r matches Some((x, q)) ==> comment_signal(s@, p as int) == Some((x@, q as int)) && p <= q
            <= s@.len(),
        r is None ==> comment_signal(s@, p as int) is None,
{
    let a = kw_exec(s, p, Kw::Sg)?;
    let b = ws1_exec(s, a)?;
    let (id, c) = u64_exec(s, b)?;
    let d = ws1_exec(s, c)?;
    let e = ident_exec(s, d)?;
    let f = ws1_exec(s, e)?;
    let (t, q) = string_lit_exec(s, f)?;
    Some(
        (
            Comment::Signal {
                message_id: MessageId(id),
                signal_name: text_exec(s, d, e),
                comment: t,
            },
            q,
        ),
    )
}

/// `EV_ variable "comment"`
pub open spec fn comment_env_var(s: Seq<u8>, p: int) -> Option<(SpecComment, int)> {
    match tag(s, p, kw(Kw::Ev)) {
        Some(a) => match ws1(s, a) {
            Some(b) => match ident(s, b) {
                Some(c) => match ws1(s, c) {
                    Some(d) => match string_lit(s, d) {
                        Some((t, q)) => Some(
                            (SpecComment::EnvVar { env_var_name: text(s, b, c), comment: t }, q),
                        ),
                        None => None,
                    },
                    None => None,
                },
                None => None,
            },
            None => None,
        },
        None => None,
    }
}

fn comment_env_var_exec(s: &[u8], p: usize) -> (r: Option<(Comment, usize)>)
    requires
        p <= s@.len(),
    ensures
        r matches Some((x, q)) ==> comment_env_var(s@, p as int) == Some((x@, q as int)) && p <= q
            <= s@.len(),
        r is None ==> comment_env_var(s@, p as int) is None,
{
    let a = kw_exec(s, p, Kw::Ev)?;
    let b = ws1_exec(s, a)?;
    let c = ident_exec(s, b)?;
    let d = ws1_exec(s, c)?;
    let (t, q) = string_lit_exec(s, d)?;
    Some((Comment::EnvVar { env_var_name: text_exec(s, b, c), comment: t }, q))
}

/// What a comment is about, and the comment; the first alternative that
/// reads wins, and a bare string is a plain comment.
pub open spec fn comment_body(s: Seq<u8>, p: int) -> Option<(SpecComment, int)> {
    match comment_node(s, p) {
        Some(r) => Some(r),
        None => match comment_message(s, p) {
            Some(r) => Some(r),
            None => match comment_signal(s, p) {
                Some(r) => Some(r),
                None => match comment_env_var(s, p) {
                    Some(r) => Some(r),
                    None => match string_lit(s, p) {
                        Some((t, q)) => Some((SpecComment::Plain { comment: t }, q)),
                        None => None,
                    },
                },
            },
        },
    }
}

fn comment_body_exec(s: &[u8], p: usize) -> (r: Option<(Comment, usize)>)
    requires
        p <= s@.len(),
    ensures
        r matches Some((x, q)) ==> comment_body(s@, p as int) == Some((x@, q as int)) && p <= q
            <= s@.len(),
        r is None ==> comment_body(s@, p as int) is None,
{
    if let Some(r) = comment_node_exec(s, p) {
        return Some(r);
    }
    if let Some(r) = comment_message_exec(s, p) {
        return Some(r);
    }
    if let Some(r) = comment_signal_exec(s, p) {
        return Some(r);
    }
    if let Some(r) = comment_env_var_exec(s, p) {
        return Some(r);
    }
    let (t, q) = string_lit_exec(s, p)?;
    Some((Comment::Plain { comment: t }, q))
}

/// `CM_ ... ;`
pub struct CommentRule;

impl Grammar for CommentRule {
    type Out = Comment;

    open spec fn spec_parse(s: Seq<u8>, p: int) -> Option<(SpecComment, int)> {
        match tag(s, ms0(s, p), kw(Kw::Cm)) {
            Some(a) => match ws1(s, a) {
                Some(b) => match comment_body(s, b) {
                    Some((c, d)) => match semicolon(s, d) {
                        Some(q) => Some((c, q)),
                        None => None,
                    },
                    None => None,
                },
                None => None,
            },
            None => None,
        }
    }

    fn parse(s: &[u8], p: usize) -> (r: Option<(Comment, usize)>) {
        let a = kw_exec(s, skip(s, p, Class::MultiSpace), Kw::Cm)?;
        let b = ws1_exec(s, a)?;
        let (c, d) = comment_body_exec(s, b)?;
        let q = semicolon_exec(s, d)?;
        Some((c, q))
    }
}

/// Everything up to a semicolon, as text, and the position after the
/// semicolon.
pub open spec fn rest_of_statement(s: Seq<u8>, p: int) -> Option<(Seq<char>, int)> {
    let e = skip_while(s, p, Class::NotSemicolon);
    match byte_at(s, e, 59) {
        Some(q) => Some((text(s, p, e), q)),
        None => None,
    }
}

fn rest_of_statement_exec(s: &[u8], p: usize) -> (r: Option<(String, usize)>)
    requires
        p <= s@.len(),
    ensures
        r matches Some((t, q)) ==> rest_of_statement(s@, p as int) == Some((t@, q as int)) && p
            < q <= s@.len(),
        r is None ==> rest_of_statement(s@, p as int) is None,
{
    let e = skip(s, p, Class::NotSemicolon);
    let q = byte_exec(s, e, 59)?;
    Some((text_exec(s, p, e), q))
}

/// The keyword `k`, spaces, and the rest of the statement.
pub open spec fn keyed_rest(s: Seq<u8>, p: int, k: Kw) -> Option<(Seq<char>, int)> {
    match tag(s, p, kw(k)) {
        Some(a) => match ws1(s, a) {
            Some(b) => rest_of_statement(s, b),
            None => None,
        },
        None => None,
    }
}

fn keyed_rest_exec(s: &[u8], p: usize, k: Kw) -> (r: Option<(String, usize)>)
    requires
        p <= s@.len(),
    ensures
        r matches Some((t, q)) ==> keyed_rest(s@, p as int, k) == Some((t@, q as int)) && p < q
            <= s@.len(),
        r is None ==> keyed_rest(s@, p as int, k) is None,
{
    let a = kw_exec(s, p, k)?;
    let b = ws1_exec(s, a)?;
    rest_of_statement_exec(s, b)
}

/// `BA_DEF_ [object kind] definition;` The definition is kept as text.
pub struct AttributeDefinitionRule;

impl Grammar for AttributeDefinitionRule {
    type Out = AttributeDefinition;

    open spec fn spec_parse(s: Seq<u8>, p: int) -> Option<(SpecAttributeDefinition, int)> {
        match tag(s, ms0(s, p), kw(Kw::BaDef)) {
            Some(a) => match ws1(s, a) {
                Some(b) => match keyed_rest(s, b, Kw::Bu) {
                    Some((t, q)) => Some((SpecAttributeDefinition::Node(t), q)),
                    None => match keyed_rest(s, b, Kw::Bo) {
                        Some((t, q)) => Some((SpecAttributeDefinition::Message(t), q)),
                        None => match keyed_rest(s, b, Kw::Sg) {
                            Some((t, q)) => Some((SpecAttributeDefinition::Signal(t), q)),
                            None => match keyed_rest(s, b, Kw::Ev) {
                                Some((t, q)) => Some(
                                    (SpecAttributeDefinition::EnvironmentVariable(t), q),
                                ),
                                None => match rest_of_statement(s, b) {
                                    Some((t, q)) => Some((SpecAttributeDefinition::Plain(t), q)),
                                    None => None,
                                },
                            },
                        },
                    },
                },
                None => None,
            },
            None => None,
        }
    }

    fn parse(s: &[u8], p: usize) -> (r: Option<(AttributeDefinition, usize)>) {
        let a = kw_exec(s, skip(s, p, Class::MultiSpace), Kw::BaDef)?;
        let b = ws1_exec(s, a)?;
        if let Some((t, q)) = keyed_rest_exec(s, b, Kw::Bu) {
            return Some((AttributeDefinition::Node(t), q));
        }
        if let Some((t, q)) = keyed_rest_exec(s, b, Kw::Bo) {
            return Some((AttributeDefinition::Message(t), q));
        }
        if let Some((t, q)) = keyed_rest_exec(s, b, Kw::Sg) {
            return Some((AttributeDefinition::Signal(t), q));
        }
        if let Some((t, q)) = keyed_rest_exec(s, b, Kw::Ev) {
            return Some((AttributeDefinition::EnvironmentVariable(t), q));
        }
        let (t, q) = rest_of_statement_exec(s, b)?;
        Some((AttributeDefinition::Plain(t), q))
    }
}

/// The value of a number that spans from `p` to `q`: an unsigned integer if
/// it is one that fits in a `u64`, else a signed integer if it is one that
/// fits in an `i64`, else its text.
pub open spec fn number_value(s: Seq<u8>, p: int, q: int) -> SpecAttributeValue {
    match u64_num(s, p) {
        Some((v, e)) => if e == q {
            SpecAttributeValue::AttributeValueU64(v)
        } else {
            signed_or_text(s, p, q)
        },
        None => signed_or_text(s, p, q),
    }
}

pub open spec fn signed_or_text(s: Seq<u8>, p: int, q: int) -> SpecAttributeValue {
    match i64_num(s, p) {
        Some((v, e)) => if e == q {
            SpecAttributeValue::AttributeValueI64(v)
        } else {
            SpecAttributeValue::AttributeValueF64(text(s, p, q))
        },
        None => SpecAttributeValue::AttributeValueF64(text(s, p, q)),
    }
}

/// A number or a double-quoted string.
pub open spec fn attribute_value(s: Seq<u8>, p: int) -> Option<(SpecAttributeValue, int)> {
    match number_text(s, p) {
        Some(q) => Some((number_value(s, p, q), q)),
        None => match string_lit(s, p) {
            Some((t, q)) => Some((SpecAttributeValue::AttributeValueCharString(t), q)),
            None => None,
        },
    }
}

fn attribute_value_exec(s: &[u8], p: usize) -> (r: Option<(AttributeValue, usize)>)
    requires
        p <= s@.len(),
    ensures
        r matches Some((v, q)) ==> attribute_value(s@, p as int) == Some((v@, q as int)) && p < q
            <= s@.len(),
        r is None ==> attribute_value(s@, p as int) is None,
{
    match number_text_exec(s, p) {
        Some(q) => {
            if let Some((v, e)) = u64_exec(s, p) {
                if e == q {
                    return Some((AttributeValue::AttributeValueU64(v), q));
                }
            }
            if let Some((v, e)) = i64_exec(s, p) {
                if e == q {
                    return Some((AttributeValue::AttributeValueI64(v), q));
                }
            }
            Some((AttributeValue::AttributeValueF64(text_exec(s, p, q)), q))
        },
        None => {
            let (t, q) = string_lit_exec(s, p)?;
            Some((AttributeValue::AttributeValueCharString(t), q))
        },
    }
}

/// `BA_DEF_DEF_ "name" value;`
pub struct AttributeDefaultRule;

impl Grammar for AttributeDefaultRule {
    type Out = AttributeDefault;

    open spec fn spec_parse(s: Seq<u8>, p: int) -> Option<(SpecAttributeDefault, int)> {
        match tag(s, ms0(s, p), kw(Kw::BaDefDef)) {
            Some(a) => match ws1(s, a) {
                Some(b) => match string_lit(s, b) {
                    Some((name, c)) => match ws1(s, c) {
                        Some(d) => match attribute_value(s, d) {
                            Some((v, e)) => match semicolon(s, e) {
                                Some(q) => Some(
                                    (
                                        SpecAttributeDefault {
                                            attribute_name: name,
                                            attribute_value: v,
                                        },
                                        q,
                                    ),
                                ),
                                None => None,
                            },
                            None => None,
                        },
                        None => None,
                    },
                    None => None,
                },
                None => None,
            },
            None => None,
        }
    }

    fn parse(s: &[u8], p: usize) -> (r: Option<(AttributeDefault, usize)>) {
        let a = kw_exec(s, skip(s, p, Class::MultiSpace), Kw::BaDefDef)?;
        let b = ws1_exec(s, a)?;
        let (name, c) = string_lit_exec(s, b)?;
        let d = ws1_exec(s, c)?;
        let (v, e) = attribute_value_exec(s, d)?;
        let q = semicolon_exec(s, e)?;
        Some((AttributeDefault::new(name, v), q))
    }
}

/// `BU_ node value`
pub open spec fn object_node(s: Seq<u8>, p: int) -> Option<(SpecAttributeValuedForObjectType, int)> {
    match tag(s, p, kw(Kw::Bu)) {
        Some(a) => match ws1(s, a) {
            Some(b) => match ident(s, b) {
                Some(c) => match ws1(s, c) {
                    Some(d) => match attribute_value(s, d) {
                        Some((v, q)) => Some(
                            (
                                SpecAttributeValuedForObjectType::NetworkNodeAttributeValue(
                                    text(s, b, c),
                                    v,
                                ),
                                q,
                            ),
                        ),
                        None => None,
                    },
                    None => None,
                },
                None => None,
            },
            None => None,
        },
        None => None,
    }
}

fn object_node_exec(s: &[u8], p: usize) -> (r: Option<(AttributeValuedForObjectType, usize)>)
    requires
        p <= s@.len(),
    ensures
        r matches Some((x, q)) ==> object_node(s@, p as int) == Some((x@, q as int)) && p <= q
            <= s@.len(),
        r is None ==> object_node(s@, p as int) is None,
{
    let a = kw_exec(s, p, Kw::Bu)?;
    let b = ws1_exec(s, a)?;
    let c = ident_exec(s, b)?;
    let d = ws1_exec(s, c)?;
    let (v, q) = attribute_value_exec(s, d)?;
    Some((AttributeValuedForObjectType::NetworkNodeAttributeValue(text_exec(s, b, c), v), q))
}

/// `BO_ id [value]`
pub open spec fn object_message(s: Seq<u8>, p: int) -> Option<
    (SpecAttributeValuedForObjectType, int),
> {
    match tag(s, p, kw(Kw::Bo)) {
        Some(a) => match ws1(s, a) {
            Some(b) => match u64_num(s, b) {
                Some((id, c)) => match ws1(s, c) {
                    Some(d) => match attribute_value(s, d) {
                        Some((v, q)) => Some(
                            (
                                SpecAttributeValuedForObjectType::MessageDefinitionAttributeValue(
                                    MessageId(id),
                                    Some(v),
                                ),
                                q,
                            ),
                        ),
                        None => Some(
                            (
                                SpecAttributeValuedForObjectType::MessageDefinitionAttributeValue(
                                    MessageId(id),
                                    None,
                                ),
                                c,
                            ),
                        ),
                    },
                    None => Some(
                        (
                            SpecAttributeValuedForObjectType::MessageDefinitionAttributeValue(
                                MessageId(id),
                                None,
                            ),
                            c,
                        ),
                    ),
                },
                None => None,
            },
            None => None,
        },
        None => None,
    }
}

fn object_message_exec(s: &[u8], p: usize) -> (r: Option<(AttributeValuedForObjectType, usize)>)
    requires
        p <= s@.len(),
    ensures
        r matches Some((x, q)) ==> object_message(s@, p as int) == Some((x@, q as int)) && p <= q
            <= s@.len(),
        r is None ==> object_message(s@, p as int) is None,
{
    let a = kw_exec(s, p, Kw::Bo)?;
    let b = ws1_exec(s, a)?;
    let (id, c) = u64_exec(s, b)?;
    if let Some(d) = ws1_exec(s, c) {
        if let Some((v, q)) = attribute_value_exec(s, d) {
            return Some(
                (AttributeValuedForObjectType::MessageDefinitionAttributeValue(MessageId(id), Some(v)), q),
            );
        }
    }
    Some((AttributeValuedForObjectType::MessageDefinitionAttributeValue(MessageId(id), None), c))
}

/// `SG_ id signal value`
pub open spec fn object_signal(s: Seq<u8>, p: int) -> Option<(SpecAttributeValuedForObjectType, int)> {
    match tag(s, p, kw(Kw::Sg)) {
        Some(a) => match ws1(s, a) {
            Some(b) => match u64_num(s, b) {
                Some((id, c)) => match ws1(s, c) {
                    Some(d) => match ident(s, d) {
                        Some(e) => match ws1(s, e) {
                            Some(f) => match attribute_value(s, f) {
                                Some((v, q)) => Some(
                                    (
                                        SpecAttributeValuedForObjectType::SignalAttributeValue(
                                            MessageId(id),
                                            text(s, d, e),
                                            v,
                                        ),
                                        q,
                                    ),
                                ),
                                None => None,
                            },
                            None => None,
                        },
                        None => None,
                    },
                    None => None,
                },
                None => None,
            },
            None => None,
        },
        None => None,
    }
}

fn object_signal_exec(s: &[u8], p: usize) -> (r: Option<(AttributeValuedForObjectType, usize)>)
    requires
        p <= s@.len(),
    ensures
        r matches Some((x, q)) ==> object_signal(s@, p as int) == Some((x@, q as int)) && p <= q
            <= s@.len(),
        r is None ==> object_signal(s@, p as int) is None,
{
    let a = kw_exec(s, p, Kw::Sg)?;
    let b = ws1_exec(s, a)?;
    let (id, c) = u64_exec(s, b)?;
    let d = ws1_exec(s, c)?;
    let e = ident_exec(s, d)?;
    let f = ws1_exec(s, e)?;
    let (v, q) = attribute_value_exec(s, f)?;
    Some(
        (
            AttributeValuedForObjectType::SignalAttributeValue(
                MessageId(id),
                text_exec(s, d, e),
                v,
            ),
            q,
        ),
    )
}

/// `EV_ variable value`
pub open spec fn object_env_var(s: Seq<u8>, p: int) -> Option<(SpecAttributeValuedForObjectType, int)> {
    match tag(s, p, kw(Kw::Ev)) {
        Some(a) => match ws1(s, a) {
            Some(b) => match ident(s, b) {
                Some(c) => match ws1(s, c) {
                    Some(d) => match attribute_value(s, d) {
                        Some((v, q)) => Some(
                            (
                                SpecAttributeValuedForObjectType::EnvVariableAttributeValue(
                                    text(s, b, c),
                                    v,
                                ),
                                q,
                            ),
                        ),
                        None => None,
                    },
                    None => None,
                },
                None => None,
            },
            None => None,
        },
        None => None,
    }
}

fn object_env_var_exec(s: &[u8], p: usize) -> (r: Option<(AttributeValuedForObjectType, usize)>)
    requires
        p <= s@.len(),
    ensures
        r matches Some((x, q)) ==> object_env_var(s@, p as int) == Some((x@, q as int)) && p <= q
            <= s@.len(),
        r is None ==> object_env_var(s@, p as int) is None,
{
    let a = kw_exec(s, p, Kw::Ev)?;
    let b = ws1_exec(s, a)?;
    let c = ident_exec(s, b)?;
    let d = ws1_exec(s, c)?;
    let (v, q) = attribute_value_exec(s, d)?;
    Some((AttributeValuedForObjectType::EnvVariableAttributeValue(text_exec(s, b, c), v), q))
}

/// The object an attribute value is for, and the value; the first
/// alternative that reads wins, and a bare value is for the network.
pub open spec fn object_value(s: Seq<u8>, p: int) -> Option<(SpecAttributeValuedForObjectType, int)> {
    match object_node(s, p) {
        Some(r) => Some(r),
        None => match object_message(s, p) {
            Some(r) => Some(r),
            None => match object_signal(s, p) {
                Some(r) => Some(r),
                None => match object_env_var(s, p) {
                    Some(r) => Some(r),
                    None => match attribute_value(s, p) {
                        Some((v, q)) => Some(
                            (SpecAttributeValuedForObjectType::RawAttributeValue(v), q),
                        ),
                        None => None,
                    },
                },
            },
        },
    }
}

fn object_value_exec(s: &[u8], p: usize) -> (r: Option<(AttributeValuedForObjectType, usize)>)
    requires
        p <= s@.len(),
    ensures
        r matches Some((x, q)) ==> object_value(s@, p as int) == Some((x@, q as int)) && p <= q
            <= s@.len(),
        r is None ==> object_value(s@, p as int) is None,
{
    if let Some(r) = object_node_exec(s, p) {
        return Some(r);
    }
    if let Some(r) = object_message_exec(s, p) {
        return Some(r);
    }
    if let Some(r) = object_signal_exec(s, p) {
        return Some(r);
    }
    if let Some(r) = object_env_var_exec(s, p) {
        return Some(r);
    }
    let (v, q) = attribute_value_exec(s, p)?;
    Some((AttributeValuedForObjectType::RawAttributeValue(v), q))
}

/// `BA_ "name" [object] value;`
pub struct AttributeValueRule;

impl Grammar for AttributeValueRule {
    type Out = AttributeValueForObject;

    open spec fn spec_parse(s: Seq<u8>, p: int) -> Option<(SpecAttributeValueForObject, int)> {
        match tag(s, ms0(s, p), kw(Kw::Ba)) {
            Some(a) => match ws1(s, a) {
                Some(b) => match string_lit(s, b) {
                    Some((name, c)) => match ws1(s, c) {
                        Some(d) => match object_value(s, d) {
                            Some((v, e)) => match semicolon(s, e) {
                                Some(q) => Some(
                                    (
                                        SpecAttributeValueForObject {
                                            attribute_name: name,
                                            attribute_value: v,
                                        },
                                        q,
                                    ),
                                ),
                                None => None,
                            },
                            None => None,
                        },
                        None => None,
                    },
                    None => None,
                },
                None => None,
            },
            None => None,
        }
    }

    fn parse(s: &[u8], p: usize) -> (r: Option<(AttributeValueForObject, usize)>) {
        let a = kw_exec(s, skip(s, p, Class::MultiSpace), Kw::Ba)?;
        let b = ws1_exec(s, a)?;
        let (name, c) = string_lit_exec(s, b)?;
        let d = ws1_exec(s, c)?;
        let (v, e) = object_value_exec(s, d)?;
        let q = semicolon_exec(s, e)?;
        Some((AttributeValueForObject::new(name, v), q))
    }
}

/// Spaces, a raw value and its description: ` 0 "off"`.
pub struct ValDescriptionRule;

impl Grammar for ValDescriptionRule {
    type Out = ValDescription;

    open spec fn spec_parse(s: Seq<u8>, p: int) -> Option<(SpecValDescription, int)> {
        match ws1(s, p) {
            Some(a) => match number_text(s, a) {
                Some(b) => match ws1(s, b) {
                    Some(c) => match string_lit(s, c) {
                        Some((t, q)) => Some((SpecValDescription { a: text(s, a, b), b: t }, q)),
                        None => None,
                    },
                    None => None,
                },
                None => None,
            },
            None => None,
        }
    }

    fn parse(s: &[u8], p: usize) -> (r: Option<(ValDescription, usize)>) {
        let a = ws1_exec(s, p)?;
        let b = number_text_exec(s, a)?;
        let c = ws1_exec(s, b)?;
        let (t, q) = string_lit_exec(s, c)?;
        Some((ValDescription::new(text_exec(s, a, b), t), q))
    }
}

/// What a value description is for: a message id and a signal name, or an
/// environment variable's name (no id). Yields the bounds of the name.
pub open spec fn value_description_target(s: Seq<u8>, p: int) -> Option<(Option<MessageId>, int, int)> {
    let signal = match u64_num(s, p) {
        Some((id, a)) => match ws1(s, a) {
            Some(b) => match ident(s, b) {
                Some(q) => Some((Some(MessageId(id)), b, q)),
                None => None,
            },
            None => None,
        },
        None => None,
    };
    match signal {
        Some(r) => Some(r),
        None => match ident(s, p) {
            Some(q) => Some((None, p, q)),
            None => None,
        },
    }
}

fn value_description_target_exec(s: &[u8], p: usize) -> (r: Option<(Option<MessageId>, usize, usize)>)
    requires
        p <= s@.len(),
    ensures
        r matches Some((id, a, q)) ==> value_description_target(s@, p as int) == Some(
            (id, a as int, q as int),
        ) && p <= a <= q <= s@.len(),
        r is None ==> value_description_target(s@, p as int) is None,
{
    if let Some((id, a)) = u64_exec(s, p) {
        if let Some(b) = ws1_exec(s, a) {
            if let Some(q) = ident_exec(s, b) {
                return Some((Some(MessageId(id)), b, q));
            }
        }
    }
    let q = ident_exec(s, p)?;
    Some((None, p, q))
}

/// `VAL_ target descriptions;`
pub struct ValueDescriptionRule;

impl Grammar for ValueDescriptionRule {
    type Out = ValueDescription;

    open spec fn spec_parse(s: Seq<u8>, p: int) -> Option<(SpecValueDescription, int)> {
        match tag(s, ms0(s, p), kw(Kw::Val)) {
            Some(a) => match ws1(s, a) {
                Some(b) => match value_description_target(s, b) {
                    Some((target, c, d)) => {
                        let vds = many0::<ValDescriptionRule>(s, d);
                        match semicolon(s, vds.1) {
                            Some(q) => Some(
                                (
                                    match target {
                                        Some(id) => SpecValueDescription::Signal {
                                            message_id: id,
                                            signal_name: text(s, c, d),
                                            value_descriptions: vds.0,
                                        },
                                        None => SpecValueDescription::EnvironmentVariable {
                                            env_var_name: text(s, c, d),
                                            value_descriptions: vds.0,
                                        },
                                    },
                                    q,
                                ),
                            ),
                            None => None,
                        }
                    },
                    None => None,
                },
                None => None,
            },
            None => None,
        }
    }

    fn parse(s: &[u8], p: usize) -> (r: Option<(ValueDescription, usize)>) {
        let a = kw_exec(s, skip(s, p, Class::MultiSpace), Kw::Val)?;
        let b = ws1_exec(s, a)?;
        let (target, c, d) = value_description_target_exec(s, b)?;
        let (vds, e) = many0_exec::<ValDescriptionRule>(s, d);
        let q = semicolon_exec(s, e)?;
        let name = text_exec(s, c, d);
        match target {
            Some(id) => Some(
                (
                    ValueDescription::Signal {
                        message_id: id,
                        signal_name: name,
                        value_descriptions: vds,
                    },
                    q,
                ),
            ),
            None => Some(
                (
                    ValueDescription::EnvironmentVariable {
                        env_var_name: name,
                        value_descriptions: vds,
                    },
                    q,
                ),
            ),
        }
    }
}

/// `VAL_TABLE_ name descriptions;`
pub struct ValueTableRule;

impl Grammar for ValueTableRule {
    type Out = ValueTable;

    open spec fn spec_parse(s: Seq<u8>, p: int) -> Option<(SpecValueTable, int)> {
        match tag(s, ms0(s, p), kw(Kw::ValTable)) {
            Some(a) => match ws1(s, a) {
                Some(b) => match ident(s, b) {
                    Some(c) => {
                        let vds = many0::<ValDescriptionRule>(s, c);
                        match semicolon(s, vds.1) {
                            Some(q) => Some(
                                (
                                    SpecValueTable {
                                        value_table_name: text(s, b, c),
                                        value_descriptions: vds.0,
                                    },
                                    q,
                                ),
                            ),
                            None => None,
                        }
                    },
                    None => None,
                },
                None => None,
            },
            None => None,
        }
    }

    fn parse(s: &[u8], p: usize) -> (r: Option<(ValueTable, usize)>) {
        let a = kw_exec(s, skip(s, p, Class::MultiSpace), Kw::ValTable)?;
        let b = ws1_exec(s, a)?;
        let c = ident_exec(s, b)?;
        let (vds, d) = many0_exec::<ValDescriptionRule>(s, c);
        let q = semicolon_exec(s, d)?;
        Some((ValueTable::new(text_exec(s, b, c), vds), q))
    }
}

/// `SIG_TYPE_REF_ id signal : type;`
pub struct SignalTypeRefRule;

impl Grammar for SignalTypeRefRule {
    type Out = SignalTypeRef;

    open spec fn spec_parse(s: Seq<u8>, p: int) -> Option<(SpecSignalTypeRef, int)> {
        match tag(s, ms0(s, p), kw(Kw::SigTypeRef)) {
            Some(a) => match ws1(s, a) {
                Some(b) => match u64_num(s, b) {
                    Some((id, c)) => match ws1(s, c) {
                        Some(d) => match ident(s, d) {
                            Some(e) => match colon(s, e) {
                                Some(f) => match ident(s, ws0(s, f)) {
                                    Some(g) => match semicolon(s, g) {
                                        Some(q) => Some(
                                            (
                                                SpecSignalTypeRef {
                                                    message_id: MessageId(id),
                                                    signal_name: text(s, d, e),
                                                    signal_type_name: text(s, ws0(s, f), g),
                                                },
                                                q,
                                            ),
                                        ),
                                        None => None,
                                    },
                                    None => None,
                                },
                                None => None,
                            },
                            None => None,
                        },
                        None => None,
                    },
                    None => None,
                },
                None => None,
            },
            None => None,
        }
    }

    fn parse(s: &[u8], p: usize) -> (r: Option<(SignalTypeRef, usize)>) {
        let a = kw_exec(s, skip(s, p, Class::MultiSpace), Kw::SigTypeRef)?;
        let b = ws1_exec(s, a)?;
        let (id, c) = u64_exec(s, b)?;
        let d = ws1_exec(s, c)?;
        let e = ident_exec(s, d)?;
        let f = colon_exec(s, e)?;
        let f1 = skip(s, f, Class::Space);
        let g = ident_exec(s, f1)?;
        let q = semicolon_exec(s, g)?;
        Some((SignalTypeRef::new(MessageId(id), text_exec(s, d, e), text_exec(s, f1, g)), q))
    }
}

/// `SIG_GROUP_ id name repetitions : signals;`
pub struct SignalGroupsRule;

impl Grammar for SignalGroupsRule {
    type Out = SignalGroups;

    open spec fn spec_parse(s: Seq<u8>, p: int) -> Option<(SpecSignalGroups, int)> {
        match tag(s, ms0(s, p), kw(Kw::SigGroup)) {
            Some(a) => match ws1(s, a) {
                Some(b) => match u64_num(s, b) {
                    Some((id, c)) => match ws1(s, c) {
                        Some(d) => match ident(s, d) {
                            Some(e) => match ws1(s, e) {
                                Some(f) => match u64_num(s, f) {
                                    Some((reps, g)) => match colon(s, g) {
                                        Some(h) => {
                                            let names = many0::<After<Blank, NameRule>>(s, h);
                                            match semicolon(s, names.1) {
                                                Some(q) => Some(
                                                    (
                                                        SpecSignalGroups {
                                                            message_id: MessageId(id),
                                                            signal_group_name: text(s, d, e),
                                                            repetitions: reps,
                                                            signal_names: names.0,
                                                        },
                                                        q,
                                                    ),
                                                ),
                                                None => None,
                                            }
                                        },
                                        None => None,
                                    },
                                    None => None,
                                },
                                None => None,
                            },
                            None => None,
                        },
                        None => None,
                    },
                    None => None,
                },
                None => None,
            },
            None => None,
        }
    }

    fn parse(s: &[u8], p: usize) -> (r: Option<(SignalGroups, usize)>) {
        let a = kw_exec(s, skip(s, p, Class::MultiSpace), Kw::SigGroup)?;
        let b = ws1_exec(s, a)?;
        let (id, c) = u64_exec(s, b)?;
        let d = ws1_exec(s, c)?;
        let e = ident_exec(s, d)?;
        let f = ws1_exec(s, e)?;
        let (reps, g) = u64_exec(s, f)?;
        let h = colon_exec(s, g)?;
        let (names, i) = many0_exec::<After<Blank, NameRule>>(s, h);
        let q = semicolon_exec(s, i)?;
        Some((SignalGroups::new(MessageId(id), text_exec(s, d, e), reps, names), q))
    }
}

/// `0` (integer), `1` (32-bit float) or `2` (64-bit float).
pub open spec fn extended_value_type(s: Seq<u8>, p: int) -> Option<(SignalExtendedValueType, int)> {
    if byte_at(s, p, 48) is Some {
        Some((SignalExtendedValueType::SignedOrUnsignedInteger, p + 1))
    } else if byte_at(s, p, 49) is Some {
        Some((SignalExtendedValueType::IEEEfloat32Bit, p + 1))
    } else if byte_at(s, p, 50) is Some {
        Some((SignalExtendedValueType::IEEEdouble64bit, p + 1))
    } else {
        None
    }
}

fn extended_value_type_exec(s: &[u8], p: usize) -> (r: Option<(SignalExtendedValueType, usize)>)
    requires
        p <= s@.len(),
    ensures
        r matches Some((t, q)) ==> extended_value_type(s@, p as int) == Some((t, q as int)) && p
            < q <= s@.len(),
        r is None ==> extended_value_type(s@, p as int) is None,
{
    if byte_exec(s, p, 48).is_some() {
        Some((SignalExtendedValueType::SignedOrUnsignedInteger, p + 1))
    } else if byte_exec(s, p, 49).is_some() {
        Some((SignalExtendedValueType::IEEEfloat32Bit, p + 1))
    } else if byte_exec(s, p, 50).is_some() {
        Some((SignalExtendedValueType::IEEEdouble64bit, p + 1))
    } else {
        None
    }
}

/// `SIG_VALTYPE_ id signal : type;`
pub struct SignalExtendedValueTypeRule;

impl Grammar for SignalExtendedValueTypeRule {
    type Out = SignalExtendedValueTypeList;

    open spec fn spec_parse(s: Seq<u8>, p: int) -> Option<(SpecSignalExtendedValueTypeList, int)> {
        match tag(s, ms0(s, p), kw(Kw::SigValType)) {
            Some(a) => match ws1(s, a) {
                Some(b) => match u64_num(s, b) {
                    Some((id, c)) => match ws1(s, c) {
                        Some(d) => match ident(s, d) {
                            Some(e) => match colon(s, e) {
                                Some(f) => match extended_value_type(s, ws0(s, f)) {
                                    Some((t, g)) => match semicolon(s, g) {
                                        Some(q) => Some(
                                            (
                                                SpecSignalExtendedValueTypeList {
                                                    message_id: MessageId(id),
                                                    signal_name: text(s, d, e),
                                                    signal_extended_value_type: t,
                                                },
                                                q,
                                            ),
                                        ),
                                        None => None,
                                    },
                                    None => None,
                                },
                                None => None,
                            },
                            None => None,
                        },
                        None => None,
                    },
                    None => None,
                },
                None => None,
            },
            None => None,
        }
    }

    fn parse(s: &[u8], p: usize) -> (r: Option<(SignalExtendedValueTypeList, usize)>) {
        let a = kw_exec(s, skip(s, p, Class::MultiSpace), Kw::SigValType)?;
        let b = ws1_exec(s, a)?;
        let (id, c) = u64_exec(s, b)?;
        let d = ws1_exec(s, c)?;
        let e = ident_exec(s, d)?;
        let f = colon_exec(s, e)?;
        let (t, g) = extended_value_type_exec(s, skip(s, f, Class::Space))?;
        let q = semicolon_exec(s, g)?;
        Some((SignalExtendedValueTypeList::new(MessageId(id), text_exec(s, d, e), t), q))
    }
}

} // verus!
