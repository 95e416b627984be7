//! What the rules of the grammar mean, stated over the bytes they read.
//!
//! Each law says which value a rule yields for which text, in terms of the
//! input bytes alone, so that it pins down the correspondence between the
//! format's codes and words and the library's types.
use vstd::prelude::*;
use crate::combinator::Grammar;
use crate::dbc::comment_text;
use crate::grammar::{
    access_type,
    attribute_value,
    bit_layout,
    comment_body,
    env_type,
    extended_value_type,
    int_range,
    mux,
    number_pair,
    object_value,
    order_and_type,
    string_lit,
    text,
    AccessNodeRule,
    AttributeDefaultRule,
    AttributeDefinitionRule,
    AttributeValueRule,
    CommentRule,
    EnvironmentVariableDataRule,
    EnvironmentVariableRule,
    MessageRule,
    MessageTransmitterRule,
    SignalExtendedValueTypeRule,
    SignalGroupsRule,
    SignalRule,
    SignalTypeRefRule,
    SignalTypeRule,
    TransmitterRule,
    ValDescriptionRule,
    ValueDescriptionRule,
    ValueTableRule,
    VersionRule,
};
use crate::lexer::{
    dec_value,
    i64_num,
    in_class,
    is_digit,
    is_ident_char,
    is_ident_head,
    is_space,
    lemma_dec_value_nonneg,
    lemma_skip_while,
    mantissa,
    ms0,
    number_text,
    sign,
    skip_while,
    u64_num,
    ws0,
    Class,
};
use crate::types::{
    AccessType,
    ByteOrder,
    EnvType,
    MessageId,
    MultiplexIndicator,
    SignalExtendedValueType,
    SpecAccessNode,
    SpecAttributeDefinition,
    SpecAttributeValue,
    SpecAttributeValuedForObjectType,
    SpecComment,
    SpecTransmitter,
    SpecValueDescription,
    ValueType,
};

verus! {

/// Skipping a class stops at `q` when every byte from `p` to `q` is in the
/// class and the byte at `q` is not (or `q` is the end).
pub proof fn lemma_skip_while_at(s: Seq<u8>, p: int, q: int, c: Class)
    requires
        0 <= p <= q <= s.len(),
        forall|k: int| p <= k < q ==> in_class(c, #[trigger] s[k]),
        q == s.len() || !in_class(c, s[q]),
    ensures
        skip_while(s, p, c) == q,
    decreases q - p,
{
    if p < q {
        lemma_skip_while_at(s, p + 1, q, c);
    }
}

/// Skipping from `p` or from a later `r` ends at the same place when the bytes
/// between them are all in the class.
pub proof fn lemma_skip_while_from(s: Seq<u8>, p: int, r: int, c: Class)
    requires
        0 <= p <= r <= s.len(),
        forall|k: int| p <= k < r ==> in_class(c, #[trigger] s[k]),
    ensures
        skip_while(s, p, c) == skip_while(s, r, c),
    decreases r - p,
{
    if p < r {
        lemma_skip_while_from(s, p + 1, r, c);
    }
}

/// The digit of a signal's byte order (`1` little endian, `0` big endian)
/// and the sign of its value type (`+` unsigned, `-` signed) are read each
/// on its own: the byte order depends on the digit alone, the value type on
/// the sign alone, and any other pair of bytes is refused.
pub proof fn law_order_and_type(s: Seq<u8>, p: int)
    requires
        0 <= p,
        p + 2 <= s.len(),
    ensures
        order_and_type(s, p) is Some <==> (s[p] == 49 || s[p] == 48) && (s[p + 1] == 43 || s[p
            + 1] == 45),
        order_and_type(s, p) matches Some((o, t, q)) ==> {
            &&& q == p + 2
            &&& (o == ByteOrder::LittleEndian <==> s[p] == 49)
            &&& (o == ByteOrder::BigEndian <==> s[p] == 48)
            &&& (t == ValueType::Unsigned <==> s[p + 1] == 43)
            &&& (t == ValueType::Signed <==> s[p + 1] == 45)
        },
{
}

/// The code of a signal's extended value type: `0` an integer, `1` a 32-bit
/// float, `2` a 64-bit float; any other byte is refused.
pub proof fn law_extended_value_type(s: Seq<u8>, p: int)
    requires
        0 <= p < s.len(),
    ensures
        extended_value_type(s, p) is Some <==> 48 <= s[p] <= 50,
        extended_value_type(s, p) matches Some((t, q)) ==> {
            &&& q == p + 1
            &&& (t == SignalExtendedValueType::SignedOrUnsignedInteger <==> s[p] == 48)
            &&& (t == SignalExtendedValueType::IEEEfloat32Bit <==> s[p] == 49)
            &&& (t == SignalExtendedValueType::IEEEdouble64bit <==> s[p] == 50)
        },
{
}

/// `DUMMY_NODE_VECTOR` followed by the digit `k`.
pub open spec fn dummy_node_vector(k: int) -> Seq<u8> {
    seq![68u8, 85u8, 77u8, 77u8, 89u8, 95u8, 78u8, 79u8, 68u8, 69u8, 95u8, 86u8, 69u8, 67u8, 84u8, 79u8, 82u8].push((48 + k) as u8)
}

/// The number in the name of an access type.
pub open spec fn access_type_number(t: AccessType) -> int {
    match t {
        AccessType::DummyNodeVector0 => 0,
        AccessType::DummyNodeVector1 => 1,
        AccessType::DummyNodeVector2 => 2,
        AccessType::DummyNodeVector3 => 3,
    }
}

proof fn lemma_dummy_word(s: Seq<u8>, p: int, k: int)
    requires
        0 <= p,
        0 <= k <= 3,
        p + 18 <= s.len(),
        s.subrange(p, p + 18) == dummy_node_vector(k),
        p + 18 == s.len() || !is_ident_char(s[p + 18]),
    ensures
        access_type(s, p) matches Some((t, q)) && access_type_number(t) == k && q == p + 18,
{
    assert forall|i: int| 0 <= i < 18 implies s[p + i] == #[trigger] dummy_node_vector(k)[i] by {
        assert(s.subrange(p, p + 18)[i] == s[p + i]);
    }
    assert(dummy_node_vector(k)[17] == (48 + k) as u8);
    assert(s[p + 0] == dummy_node_vector(k)[0]);
    assert(s[p + 1] == dummy_node_vector(k)[1]);
    assert(s[p + 2] == dummy_node_vector(k)[2]);
    assert(s[p + 3] == dummy_node_vector(k)[3]);
    assert(s[p + 4] == dummy_node_vector(k)[4]);
    assert(s[p + 5] == dummy_node_vector(k)[5]);
    assert(s[p + 6] == dummy_node_vector(k)[6]);
    assert(s[p + 7] == dummy_node_vector(k)[7]);
    assert(s[p + 8] == dummy_node_vector(k)[8]);
    assert(s[p + 9] == dummy_node_vector(k)[9]);
    assert(s[p + 10] == dummy_node_vector(k)[10]);
    assert(s[p + 11] == dummy_node_vector(k)[11]);
    assert(s[p + 12] == dummy_node_vector(k)[12]);
    assert(s[p + 13] == dummy_node_vector(k)[13]);
    assert(s[p + 14] == dummy_node_vector(k)[14]);
    assert(s[p + 15] == dummy_node_vector(k)[15]);
    assert(s[p + 16] == dummy_node_vector(k)[16]);
    assert(s[p + 0] == 68u8);
    assert(s[p + 1] == 85u8);
    assert(s[p + 2] == 77u8);
    assert(s[p + 3] == 77u8);
    assert(s[p + 4] == 89u8);
    assert(s[p + 5] == 95u8);
    assert(s[p + 6] == 78u8);
    assert(s[p + 7] == 79u8);
    assert(s[p + 8] == 68u8);
    assert(s[p + 9] == 69u8);
    assert(s[p + 10] == 95u8);
    assert(s[p + 11] == 86u8);
    assert(s[p + 12] == 69u8);
    assert(s[p + 13] == 67u8);
    assert(s[p + 14] == 84u8);
    assert(s[p + 15] == 79u8);
    assert(s[p + 16] == 82u8);
    assert forall|j: int| p + 1 <= j < p + 18 implies in_class(Class::IdentChar, #[trigger] s[j]) by {
        assert(s[j] == dummy_node_vector(k)[j - p]);
    }
    lemma_skip_while_at(s, p + 1, p + 18, Class::IdentChar);
    assert(dummy_node_vector(0) =~= crate::keyword::kw(crate::keyword::Kw::DummyNodeVector0));
    assert(dummy_node_vector(1) =~= crate::keyword::kw(crate::keyword::Kw::DummyNodeVector1));
    assert(dummy_node_vector(2) =~= crate::keyword::kw(crate::keyword::Kw::DummyNodeVector2));
    assert(dummy_node_vector(3) =~= crate::keyword::kw(crate::keyword::Kw::DummyNodeVector3));
    assert forall|j: int| 0 <= j <= 3 && j != k implies s.subrange(p, p + 18) != dummy_node_vector(j) by {
        assert(dummy_node_vector(j)[17] == (48 + j) as u8);
    }
}

/// An access type is the word `DUMMY_NODE_VECTOR` followed by one digit from
/// `0` to `3`, and the digit is the access type's number: each word gives
/// its own variant, and nothing else is read.
pub proof fn law_access_type(s: Seq<u8>, p: int)
    requires
        0 <= p <= s.len(),
    ensures
        access_type(s, p) matches Some((t, q)) ==> {
            &&& q == p + 18
            &&& s.subrange(p, q) == dummy_node_vector(access_type_number(t))
            &&& (q == s.len() || !is_ident_char(s[q]))
        },
        forall|k: int|
            0 <= k <= 3 && p + 18 <= s.len() && #[trigger] dummy_node_vector(k) == s.subrange(
                p,
                p + 18,
            ) && (p + 18 == s.len() || !is_ident_char(s[p + 18])) ==> (access_type(s, p) matches Some(
                (t, q),
            ) && access_type_number(t) == k && q == p + 18),
{
    assert forall|k: int|
        0 <= k <= 3 && p + 18 <= s.len() && #[trigger] dummy_node_vector(k) == s.subrange(p, p + 18)
            && (p + 18 == s.len() || !is_ident_char(s[p + 18])) implies (access_type(s, p) matches Some(
        (t, q),
    ) && access_type_number(t) == k && q == p + 18) by {
        lemma_dummy_word(s, p, k);
    }
    if let Some((t, q)) = access_type(s, p) {
        lemma_skip_while(s, p + 1, Class::IdentChar);
        assert(dummy_node_vector(0) =~= crate::keyword::kw(crate::keyword::Kw::DummyNodeVector0));
        assert(dummy_node_vector(1) =~= crate::keyword::kw(crate::keyword::Kw::DummyNodeVector1));
        assert(dummy_node_vector(2) =~= crate::keyword::kw(crate::keyword::Kw::DummyNodeVector2));
        assert(dummy_node_vector(3) =~= crate::keyword::kw(crate::keyword::Kw::DummyNodeVector3));
    }
}

/// The object keywords that may follow `BA_DEF_`.
pub open spec fn word_bu() -> Seq<u8> {
    seq![66u8, 85u8, 95u8]
}

pub open spec fn word_bo() -> Seq<u8> {
    seq![66u8, 79u8, 95u8]
}

pub open spec fn word_sg() -> Seq<u8> {
    seq![83u8, 71u8, 95u8]
}

pub open spec fn word_ev() -> Seq<u8> {
    seq![69u8, 86u8, 95u8]
}

/// The three bytes at `b` are `w`, and a space or tab follows them.
pub open spec fn word_then_blank(s: Seq<u8>, b: int, w: Seq<u8>) -> bool {
    0 <= b && b + 4 <= s.len() && s.subrange(b, b + 3) == w && is_space(s[b + 3])
}

proof fn lemma_rest_of_statement(s: Seq<u8>, c: int)
    requires
        0 <= c <= s.len(),
    ensures
        crate::grammar::rest_of_statement(s, c) matches Some((t, q)) ==> {
            &&& c < q <= s.len()
            &&& s[q - 1] == 59
            &&& t == text(s, c, q - 1)
            &&& forall|k: int| c <= k < q - 1 ==> s[k] != 59
        },
{
    lemma_skip_while(s, c, Class::NotSemicolon);
}

proof fn lemma_keyed_rest(s: Seq<u8>, b: int, k: crate::keyword::Kw, w: Seq<u8>)
    requires
        0 <= b <= s.len(),
        crate::keyword::kw(k) == w,
        w.len() == 3,
        forall|i: int| 0 <= i < 3 ==> w[i] != 59 && !is_space(#[trigger] w[i]),
    ensures
        crate::grammar::keyed_rest(s, b, k) is Some ==> word_then_blank(s, b, w),
        word_then_blank(s, b, w) ==> crate::grammar::keyed_rest(s, b, k) == crate::grammar::rest_of_statement(
            s,
            ws0(s, b + 3),
        ),
        word_then_blank(s, b, w) ==> (crate::grammar::rest_of_statement(s, ws0(s, b + 3)) is Some
            <==> crate::grammar::rest_of_statement(s, b) is Some),
{
    if word_then_blank(s, b, w) {
        assert(s.subrange(b, b + 3) =~= w);
        lemma_skip_while(s, b + 3, Class::Space);
        let c = ws0(s, b + 3);
        assert forall|j: int| b <= j < c implies in_class(Class::NotSemicolon, #[trigger] s[j]) by {
            if j < b + 3 {
                assert(s[j] == s.subrange(b, b + 3)[j - b]);
            }
        }
        lemma_skip_while_from(s, b, c, Class::NotSemicolon);
    }
}

/// An attribute definition is for the kind of object its first word names:
/// `BU_` a node, `BO_` a message, `SG_` a signal, `EV_` an environment
/// variable (each followed by a blank); without such a word it is for the
/// network. Its text is the rest of the statement up to the semicolon that
/// ends it.
pub proof fn law_attribute_definition_kind(s: Seq<u8>, p: int)
    requires
        0 <= p <= s.len(),
        AttributeDefinitionRule::spec_parse(s, p) is Some,
    ensures
        ({
            let (d, q) = AttributeDefinitionRule::spec_parse(s, p).unwrap();
            let b = ws0(s, ms0(s, p) + 7);
            &&& 0 < q <= s.len()
            &&& s[q - 1] == 59
            &&& word_then_blank(s, b, word_bu()) ==> d == SpecAttributeDefinition::Node(
                text(s, ws0(s, b + 3), q - 1),
            )
            &&& word_then_blank(s, b, word_bo()) ==> d == SpecAttributeDefinition::Message(
                text(s, ws0(s, b + 3), q - 1),
            )
            &&& word_then_blank(s, b, word_sg()) ==> d == SpecAttributeDefinition::Signal(
                text(s, ws0(s, b + 3), q - 1),
            )
            &&& word_then_blank(s, b, word_ev()) ==> d
                == SpecAttributeDefinition::EnvironmentVariable(text(s, ws0(s, b + 3), q - 1))
            &&& !word_then_blank(s, b, word_bu()) && !word_then_blank(s, b, word_bo())
                && !word_then_blank(s, b, word_sg()) && !word_then_blank(s, b, word_ev()) ==> d
                == SpecAttributeDefinition::Plain(text(s, b, q - 1))
        }),
{
    let a0 = ms0(s, p);
    lemma_skip_while(s, p, Class::MultiSpace);
    let a = a0 + 7;
    let b = ws0(s, a);
    lemma_skip_while(s, a, Class::Space);
    assert(word_bu() =~= crate::keyword::kw(crate::keyword::Kw::Bu));
    assert(word_bo() =~= crate::keyword::kw(crate::keyword::Kw::Bo));
    assert(word_sg() =~= crate::keyword::kw(crate::keyword::Kw::Sg));
    assert(word_ev() =~= crate::keyword::kw(crate::keyword::Kw::Ev));
    lemma_keyed_rest(s, b, crate::keyword::Kw::Bu, word_bu());
    lemma_keyed_rest(s, b, crate::keyword::Kw::Bo, word_bo());
    lemma_keyed_rest(s, b, crate::keyword::Kw::Sg, word_sg());
    lemma_keyed_rest(s, b, crate::keyword::Kw::Ev, word_ev());
    lemma_rest_of_statement(s, b);
    if b + 3 <= s.len() {
        lemma_skip_while(s, b + 3, Class::Space);
        lemma_rest_of_statement(s, ws0(s, b + 3));
    }
    if word_then_blank(s, b, word_bu()) {
        assert(s.subrange(b, b + 3)[0] == 66);
    }
    if word_then_blank(s, b, word_bo()) {
        assert(s.subrange(b, b + 3)[0] == 66);
        assert(s.subrange(b, b + 3)[1] == 79);
    }
    if word_then_blank(s, b, word_sg()) {
        assert(s.subrange(b, b + 3)[0] == 83);
    }
    if word_then_blank(s, b, word_ev()) {
        assert(s.subrange(b, b + 3)[0] == 69);
    }
}

/// A byte that may stand in the text of a decimal number: a digit, a sign,
/// the decimal point or the letter of the exponent.
pub open spec fn is_number_byte(b: u8) -> bool {
    is_digit(b) || b == 43 || b == 45 || b == 46 || b == 101 || b == 69
}

proof fn lemma_digits_are_number_bytes(s: Seq<u8>, a: int)
    requires
        0 <= a <= s.len(),
    ensures
        a <= skip_while(s, a, Class::Digit) <= s.len(),
        forall|k: int| a <= k < skip_while(s, a, Class::Digit) ==> is_number_byte(#[trigger] s[k]),
{
    lemma_skip_while(s, a, Class::Digit);
    assert forall|k: int| a <= k < skip_while(s, a, Class::Digit) implies is_number_byte(
        #[trigger] s[k],
    ) by {
        assert(in_class(Class::Digit, s[k]));
    }
}

/// The text of a number spans at least one byte, and only bytes that may
/// stand in a number.
pub proof fn lemma_number_text_bytes(s: Seq<u8>, p: int)
    requires
        0 <= p <= s.len(),
    ensures
        number_text(s, p) matches Some(q) ==> {
            &&& p < q <= s.len()
            &&& forall|k: int| p <= k < q ==> is_number_byte(#[trigger] s[k])
        },
{
    let a = sign(s, p).1;
    lemma_digits_are_number_bytes(s, a);
    let d = skip_while(s, a, Class::Digit);
    if d < s.len() {
        lemma_digits_are_number_bytes(s, d + 1);
    }
    if a < s.len() {
        lemma_digits_are_number_bytes(s, a + 1);
    }
    if let Some(m) = mantissa(s, a) {
        assert(a < m <= s.len());
        assert(forall|k: int| p <= k < m ==> is_number_byte(#[trigger] s[k]));
        if m < s.len() && (s[m] == 101 || s[m] == 69) {
            let c = sign(s, m + 1).1;
            lemma_digits_are_number_bytes(s, c);
        }
    }
}

/// A value description is a number and a quoted description, each after
/// blanks. Its value is the whole text of the number, from the first byte
/// after the leading blanks up to the blank before the description, and its
/// description is the text between the quotes.
pub proof fn law_val_description(s: Seq<u8>, p: int)
    requires
        0 <= p <= s.len(),
        ValDescriptionRule::spec_parse(s, p) is Some,
    ensures
        ({
            let (v, q) = ValDescriptionRule::spec_parse(s, p).unwrap();
            let x = ws0(s, p);
            &&& p < x
            &&& exists|y: int|
                {
                    &&& x < y < q
                    &&& forall|k: int| x <= k < y ==> is_number_byte(#[trigger] s[k])
                    &&& is_space(s[y])
                    &&& v.a == text(s, x, y)
                    &&& s[ws0(s, y)] == 34
                    &&& ws0(s, y) < q - 1
                    &&& s[q - 1] == 34
                    &&& forall|k: int| ws0(s, y) < k < q - 1 ==> s[k] != 34
                    &&& v.b == text(s, ws0(s, y) + 1, q - 1)
                }
        }),
{
    lemma_skip_while(s, p, Class::Space);
    let x = ws0(s, p);
    lemma_number_text_bytes(s, x);
    let y = number_text(s, x).unwrap();
    lemma_skip_while(s, y, Class::Space);
    let z = ws0(s, y);
    lemma_skip_while(s, z + 1, Class::NotQuote);
    let (v, q) = ValDescriptionRule::spec_parse(s, p).unwrap();
    assert forall|k: int| z < k < q - 1 implies s[k] != 34 by {
        assert(in_class(Class::NotQuote, s[k]));
    }
    assert(v.a == text(s, x, y));
}

/// The type code of an environment variable: `0` a float, `1` an integer,
/// `2` data; any other byte is refused.
pub proof fn law_env_type(s: Seq<u8>, p: int)
    requires
        0 <= p < s.len(),
    ensures
        env_type(s, p) is Some <==> 48 <= s[p] <= 50,
        env_type(s, p) matches Some((t, q)) ==> {
            &&& q == p + 1
            &&& (t == EnvType::EnvTypeFloat <==> s[p] == 48)
            &&& (t == EnvType::EnvTypeu64 <==> s[p] == 49)
            &&& (t == EnvType::EnvTypeData <==> s[p] == 50)
        },
{
}

/// A signal's multiplexing: `M` makes it the multiplexer switch, `m` and a
/// decimal number (that fits in 64 bits) a signal multiplexed under that
/// number, and anything else a plain signal, of which nothing is read. The
/// blanks after the indicator are skipped.
pub proof fn law_mux(s: Seq<u8>, p: int)
    requires
        0 <= p <= s.len(),
    ensures
        p < s.len() && s[p] == 77 ==> mux(s, p) == (MultiplexIndicator::Multiplexor, ws0(s, p + 1)),
        p < s.len() && s[p] == 109 ==> ({
            let e = skip_while(s, p + 1, Class::Digit);
            let v = dec_value(s.subrange(p + 1, e));
            if e > p + 1 && v <= u64::MAX {
                mux(s, p) == (MultiplexIndicator::MultiplexedSignal(v as u64), ws0(s, e))
            } else {
                mux(s, p) == (MultiplexIndicator::Plain, p)
            }
        }),
        p == s.len() || (s[p] != 77 && s[p] != 109) ==> mux(s, p) == (MultiplexIndicator::Plain, p),
{
}

/// `Vector__XXX`, the word for a message that no node sends.
pub open spec fn vector_xxx() -> Seq<u8> {
    seq![86u8, 101u8, 99u8, 116u8, 111u8, 114u8, 95u8, 95u8, 88u8, 88u8, 88u8]
}

/// `VECTOR__XXX`, the word for an environment variable without access node.
pub open spec fn vector_xxx_upper() -> Seq<u8> {
    seq![86u8, 69u8, 67u8, 84u8, 79u8, 82u8, 95u8, 95u8, 88u8, 88u8, 88u8]
}

/// A transmitter is a whole identifier: exactly the word `Vector__XXX`
/// means that no node sends the message, any other identifier names the
/// node that does.
pub proof fn law_transmitter(s: Seq<u8>, p: int)
    requires
        0 <= p <= s.len(),
    ensures
        TransmitterRule::spec_parse(s, p) is Some <==> p < s.len() && is_ident_head(s[p]),
        TransmitterRule::spec_parse(s, p) matches Some((t, q)) ==> {
            &&& q == skip_while(s, p + 1, Class::IdentChar)
            &&& (t == SpecTransmitter::VectorXXX <==> s.subrange(p, q) == vector_xxx())
            &&& (t != SpecTransmitter::VectorXXX ==> t == SpecTransmitter::NodeName(text(s, p, q)))
        },
{
    assert(vector_xxx() =~= crate::keyword::kw(crate::keyword::Kw::VectorXxx));
    if p < s.len() && is_ident_head(s[p]) {
        lemma_skip_while(s, p + 1, Class::IdentChar);
    }
}

/// An access node is a whole identifier: exactly the word `VECTOR__XXX`
/// means no node, any other identifier names the node.
pub proof fn law_access_node(s: Seq<u8>, p: int)
    requires
        0 <= p <= s.len(),
    ensures
        AccessNodeRule::spec_parse(s, p) is Some <==> p < s.len() && is_ident_head(s[p]),
        AccessNodeRule::spec_parse(s, p) matches Some((t, q)) ==> {
            &&& q == skip_while(s, p + 1, Class::IdentChar)
            &&& (t == SpecAccessNode::AccessNodeVectorXXX <==> s.subrange(p, q) == vector_xxx_upper())
            &&& (t != SpecAccessNode::AccessNodeVectorXXX ==> t == SpecAccessNode::AccessNodeName(
                text(s, p, q),
            ))
        },
{
    assert(vector_xxx_upper() =~= crate::keyword::kw(crate::keyword::Kw::VectorXxxUpper));
    if p < s.len() && is_ident_head(s[p]) {
        lemma_skip_while(s, p + 1, Class::IdentChar);
    }
}

/// The three bytes at `b` are `w`.
pub open spec fn word_at(s: Seq<u8>, b: int, w: Seq<u8>) -> bool {
    0 <= b && b + 3 <= s.len() && s.subrange(b, b + 3) == w
}

/// A comment is for the kind of object its first word names: `BU_` a node,
/// `BO_` a message, `SG_` a signal, `EV_` an environment variable; one that
/// starts with its quoted text is for the network.
pub proof fn law_comment_kind(s: Seq<u8>, p: int)
    requires
        0 <= p <= s.len(),
        comment_body(s, p) is Some,
    ensures
        ({
            let c = comment_body(s, p).unwrap().0;
            &&& (c is Node <==> word_at(s, p, word_bu()))
            &&& (c is Message <==> word_at(s, p, word_bo()))
            &&& (c is Signal <==> word_at(s, p, word_sg()))
            &&& (c is EnvVar <==> word_at(s, p, word_ev()))
            &&& (c is Plain <==> s[p] == 34)
        }),
{
    assert(word_bu() =~= crate::keyword::kw(crate::keyword::Kw::Bu));
    assert(word_bo() =~= crate::keyword::kw(crate::keyword::Kw::Bo));
    assert(word_sg() =~= crate::keyword::kw(crate::keyword::Kw::Sg));
    assert(word_ev() =~= crate::keyword::kw(crate::keyword::Kw::Ev));
    if p + 3 <= s.len() {
        assert(s.subrange(p, p + 3)[0] == s[p]);
        assert(s.subrange(p, p + 3)[1] == s[p + 1]);
    }
}

/// An attribute value is for the kind of object its first word names: `BU_`
/// a node, `BO_` a message, `SG_` a signal, `EV_` an environment variable;
/// a bare value is for the network.
pub proof fn law_object_kind(s: Seq<u8>, p: int)
    requires
        0 <= p <= s.len(),
        object_value(s, p) is Some,
    ensures
        ({
            let v = object_value(s, p).unwrap().0;
            &&& (v is NetworkNodeAttributeValue <==> word_at(s, p, word_bu()))
            &&& (v is MessageDefinitionAttributeValue <==> word_at(s, p, word_bo()))
            &&& (v is SignalAttributeValue <==> word_at(s, p, word_sg()))
            &&& (v is EnvVariableAttributeValue <==> word_at(s, p, word_ev()))
            &&& (v is RawAttributeValue <==> !word_at(s, p, word_bu()) && !word_at(s, p, word_bo())
                && !word_at(s, p, word_sg()) && !word_at(s, p, word_ev()))
        }),
{
    assert(word_bu() =~= crate::keyword::kw(crate::keyword::Kw::Bu));
    assert(word_bo() =~= crate::keyword::kw(crate::keyword::Kw::Bo));
    assert(word_sg() =~= crate::keyword::kw(crate::keyword::Kw::Sg));
    assert(word_ev() =~= crate::keyword::kw(crate::keyword::Kw::Ev));
    if p + 3 <= s.len() {
        assert(s.subrange(p, p + 3)[0] == s[p]);
        assert(s.subrange(p, p + 3)[1] == s[p + 1]);
    }
}

/// The bytes from `a` to `b` are all decimal digits.
pub open spec fn all_digits(s: Seq<u8>, a: int, b: int) -> bool {
    forall|k: int| a <= k < b ==> is_digit(#[trigger] s[k])
}

proof fn lemma_number_text_covers_digits(s: Seq<u8>, p: int)
    requires
        0 <= p <= s.len(),
        number_text(s, p) is Some,
    ensures
        sign(s, p).1 <= skip_while(s, sign(s, p).1, Class::Digit) <= number_text(s, p).unwrap(),
{
    let a = sign(s, p).1;
    lemma_skip_while(s, a, Class::Digit);
    let d = skip_while(s, a, Class::Digit);
    if d < s.len() {
        lemma_skip_while(s, d + 1, Class::Digit);
    }
    if a < s.len() {
        lemma_skip_while(s, a + 1, Class::Digit);
    }
    let m = mantissa(s, a).unwrap();
    if m < s.len() && (s[m] == 101 || s[m] == 69) {
        lemma_skip_while(s, sign(s, m + 1).1, Class::Digit);
    }
}

/// An attribute's value is a quoted text exactly when it starts with a
/// quote. A number is an unsigned integer when its text is digits alone
/// that fit in 64 bits, and then it is their value; a signed integer is the
/// value of its digits with their sign; any other number keeps its text.
pub proof fn law_attribute_value(s: Seq<u8>, p: int)
    requires
        0 <= p <= s.len(),
        attribute_value(s, p) is Some,
    ensures
        ({
            let (v, q) = attribute_value(s, p).unwrap();
            let a = sign(s, p).1;
            &&& p < q <= s.len()
            &&& (v is AttributeValueCharString <==> s[p] == 34)
            &&& (all_digits(s, p, q) && dec_value(s.subrange(p, q)) <= u64::MAX ==> v
                is AttributeValueU64)
            &&& v matches SpecAttributeValue::AttributeValueU64(x) ==> all_digits(s, p, q) && x
                == dec_value(s.subrange(p, q))
            &&& v matches SpecAttributeValue::AttributeValueI64(x) ==> {
                &&& p <= a < q
                &&& all_digits(s, a, q)
                &&& (a > p && s[p] == 45 ==> x == -dec_value(s.subrange(a, q)))
                &&& (a == p || s[p] == 43 ==> x == dec_value(s.subrange(a, q)))
            }
            &&& v matches SpecAttributeValue::AttributeValueF64(x) ==> x == text(s, p, q) && forall|
                k: int,
            |
                p <= k < q ==> is_number_byte(#[trigger] s[k])
        }),
{
    let (v, q) = attribute_value(s, p).unwrap();
    lemma_number_text_bytes(s, p);
    if number_text(s, p) is Some {
        lemma_number_text_covers_digits(s, p);
        lemma_skip_while(s, p, Class::Digit);
        lemma_skip_while(s, sign(s, p).1, Class::Digit);
        if all_digits(s, p, q) && q > p {
            assert(is_digit(s[p]));
            if skip_while(s, p, Class::Digit) < q {
                assert(is_digit(s[skip_while(s, p, Class::Digit)]));
            }
            assert(skip_while(s, p, Class::Digit) == q);
        }
    } else {
        if p < s.len() && s[p] == 34 {
            lemma_skip_while(s, p + 1, Class::NotQuote);
        }
    }
    if let SpecAttributeValue::AttributeValueU64(x) = v {
        assert(all_digits(s, p, q));
        lemma_dec_value_nonneg(s.subrange(p, q));
        assert(x == dec_value(s.subrange(p, q)));
    }
}

/// An unsigned number is the whole run of digits at `p`, and its value is
/// theirs.
pub proof fn lemma_u64_num(s: Seq<u8>, p: int)
    requires
        0 <= p <= s.len(),
    ensures
        u64_num(s, p) matches Some((v, q)) ==> {
            &&& q == skip_while(s, p, Class::Digit)
            &&& p < q <= s.len()
            &&& all_digits(s, p, q)
            &&& v == dec_value(s.subrange(p, q))
        },
{
    lemma_skip_while(s, p, Class::Digit);
    let q = skip_while(s, p, Class::Digit);
    assert(all_digits(s, p, q));
    lemma_dec_value_nonneg(s.subrange(p, q));
}

/// Two numbers between an opening and a closing byte, with a separator
/// between them: the first number comes first, each is the whole text of a
/// number, and blanks may stand around each.
pub proof fn law_number_pair(s: Seq<u8>, p: int, open: u8, mid: u8, close: u8)
    requires
        0 <= p <= s.len(),
    ensures
        number_pair(s, p, open, mid, close) matches Some((x1, y1, x2, y2, q)) ==> {
            &&& p < s.len() && s[p] == open
            &&& x1 == ws0(s, p + 1)
            &&& x1 < y1 && y1 == number_text(s, x1).unwrap()
            &&& ws0(s, y1) < s.len() && s[ws0(s, y1)] == mid
            &&& x2 == ws0(s, ws0(s, y1) + 1)
            &&& x2 < y2 && y2 == number_text(s, x2).unwrap()
            &&& ws0(s, y2) < s.len() && s[ws0(s, y2)] == close
            &&& q == ws0(s, y2) + 1
            &&& forall|k: int| x1 <= k < y1 ==> is_number_byte(#[trigger] s[k])
            &&& forall|k: int| x2 <= k < y2 ==> is_number_byte(#[trigger] s[k])
        },
{
    if let Some((x1, y1, x2, y2, q)) = number_pair(s, p, open, mid, close) {
        lemma_skip_while(s, p + 1, Class::Space);
        lemma_number_text_bytes(s, x1);
        lemma_skip_while(s, y1, Class::Space);
        lemma_skip_while(s, ws0(s, y1) + 1, Class::Space);
        lemma_number_text_bytes(s, x2);
        lemma_skip_while(s, y2, Class::Space);
    }
}

/// The bits of a signal: its start bit is the number before `|`, its size
/// the number between `|` and `@`, and the two bytes after `@` are its byte
/// order and value type.
pub proof fn law_bit_layout(s: Seq<u8>, p: int)
    requires
        0 <= p <= s.len(),
    ensures
        bit_layout(s, p) matches Some((start, size, o, t, q)) ==> {
            let x = ws0(s, p);
            let a = skip_while(s, x, Class::Digit);
            let c = skip_while(s, a + 1, Class::Digit);
            &&& x < a < s.len() && s[a] == 124
            &&& a + 1 < c && c + 3 <= s.len() && s[c] == 64
            &&& start == dec_value(s.subrange(x, a))
            &&& size == dec_value(s.subrange(a + 1, c))
            &&& (o == ByteOrder::LittleEndian <==> s[c + 1] == 49)
            &&& (o == ByteOrder::BigEndian <==> s[c + 1] == 48)
            &&& (t == ValueType::Unsigned <==> s[c + 2] == 43)
            &&& (t == ValueType::Signed <==> s[c + 2] == 45)
            &&& q == c + 3
        },
{
    lemma_skip_while(s, p, Class::Space);
    let x = ws0(s, p);
    lemma_u64_num(s, x);
    if let Some((start, a)) = u64_num(s, x) {
        if a < s.len() && s[a] == 124 {
            lemma_u64_num(s, a + 1);
            if let Some((size, c)) = u64_num(s, a + 1) {
                if c < s.len() && s[c] == 64 && c + 3 <= s.len() {
                    law_order_and_type(s, c + 1);
                }
            }
        }
    }
}

/// A signal line `SG_ name [mux] : start|size@order type (factor,offset)
/// [min|max] ...`: the name is the identifier after the keyword, its
/// multiplexing is read right after it, and what follows the first colon
/// gives the bits, the byte order, the value type, the factor and offset
/// (in that order) and the minimum and maximum (in that order).
pub proof fn law_signal_layout(s: Seq<u8>, p: int)
    requires
        0 <= p <= s.len(),
        SignalRule::spec_parse(s, p) is Some,
    ensures
        ({
            let g = SignalRule::spec_parse(s, p).unwrap().0;
            let b = ws0(s, ms0(s, p) + 3);
            let e = skip_while(s, b + 1, Class::IdentChar);
            &&& g.name == text(s, b, e)
            &&& g.multiplexer_indicator == mux(s, ws0(s, e)).0
            &&& exists|k: int|
                {
                    &&& b < k < s.len()
                    &&& s[k] == 58
                    &&& forall|j: int| b <= j < k ==> #[trigger] s[j] != 58
                    &&& bit_layout(s, k + 1) matches Some((start, size, o, t, f)) && {
                        &&& g.start_bit == start
                        &&& g.signal_size == size
                        &&& g.byte_order == o
                        &&& g.value_type == t
                        &&& number_pair(s, ws0(s, f), 40, 44, 41) matches Some(
                            (f1, f2, f3, f4, h),
                        ) && {
                            &&& g.factor == text(s, f1, f2)
                            &&& g.offset == text(s, f3, f4)
                            &&& number_pair(s, ws0(s, h), 91, 124, 93) matches Some(
                                (m1, m2, m3, m4, i),
                            ) && {
                                let w = ws0(s, i);
                                let u = skip_while(s, w + 1, Class::NotQuote);
                                &&& g.min == text(s, m1, m2)
                                &&& g.max == text(s, m3, m4)
                                &&& w < u < s.len() && s[w] == 34 && s[u] == 34
                                &&& g.unit == text(s, w + 1, u)
                            }
                        }
                    }
                }
        }),
{
    let (g, q) = SignalRule::spec_parse(s, p).unwrap();
    lemma_skip_while(s, p, Class::MultiSpace);
    let a = ms0(s, p) + 3;
    lemma_skip_while(s, a, Class::Space);
    let b = ws0(s, a);
    lemma_skip_while(s, b + 1, Class::IdentChar);
    let e = skip_while(s, b + 1, Class::IdentChar);
    lemma_skip_while(s, e, Class::Space);
    let m0 = ws0(s, e);
    let d = mux(s, m0).1;
    if m0 < s.len() && s[m0] == 77 {
        lemma_skip_while(s, m0 + 1, Class::Space);
    } else if m0 < s.len() && s[m0] == 109 {
        lemma_u64_num(s, m0 + 1);
        if let Some((v, c)) = u64_num(s, m0 + 1) {
            lemma_skip_while(s, c, Class::Space);
        }
    }
    assert forall|j: int| b <= j < d implies #[trigger] s[j] != 58 by {
        if j > b && j < e {
            assert(in_class(Class::IdentChar, s[j]));
        }
        if j >= e && j < m0 {
            assert(in_class(Class::Space, s[j]));
        }
        if j > m0 && m0 < s.len() && s[m0] == 109 && u64_num(s, m0 + 1) is Some {
            let c = u64_num(s, m0 + 1).unwrap().1;
            if j < c {
                assert(is_digit(s[j]));
            } else {
                assert(in_class(Class::Space, s[j]));
            }
        }
        if j > m0 && m0 < s.len() && s[m0] == 77 {
            assert(in_class(Class::Space, s[j]));
        }
    }
    let (start, size, o, t, f) = bit_layout(s, d + 1).unwrap();
    law_bit_layout(s, d + 1);
    law_number_pair(s, ws0(s, f), 40, 44, 41);
    let (f1, f2, f3, f4, h) = number_pair(s, ws0(s, f), 40, 44, 41).unwrap();
    lemma_skip_while(s, f, Class::Space);
    lemma_skip_while(s, h, Class::Space);
    law_number_pair(s, ws0(s, h), 91, 124, 93);
    let i = number_pair(s, ws0(s, h), 91, 124, 93).unwrap().4;
    lemma_skip_while(s, i, Class::Space);
    let w = ws0(s, i);
    if w < s.len() {
        lemma_skip_while(s, w + 1, Class::NotQuote);
    }
}

/// A message line `BO_ id name: size transmitter`: the id is the number
/// after the keyword, the name the identifier after it, the size the
/// number after the colon, and the transmitter the word after that.
pub proof fn law_message_header(s: Seq<u8>, p: int)
    requires
        0 <= p <= s.len(),
        MessageRule::spec_parse(s, p) is Some,
    ensures
        ({
            let m = MessageRule::spec_parse(s, p).unwrap().0;
            let b = ws0(s, ms0(s, p) + 3);
            let c = skip_while(s, b, Class::Digit);
            let d = ws0(s, c);
            let e = skip_while(s, d + 1, Class::IdentChar);
            let x = ws0(s, ws0(s, e) + 1);
            let y = skip_while(s, x, Class::Digit);
            &&& b < c < d < e
            &&& all_digits(s, b, c)
            &&& m.message_id == MessageId(dec_value(s.subrange(b, c)) as u64)
            &&& m.message_name == text(s, d, e)
            &&& ws0(s, e) < s.len() && s[ws0(s, e)] == 58
            &&& x < y && all_digits(s, x, y)
            &&& m.message_size == dec_value(s.subrange(x, y))
            &&& TransmitterRule::spec_parse(s, ws0(s, y)) == Some((m.transmitter, skip_while(s, ws0(s, y) + 1, Class::IdentChar)))
        }),
{
    lemma_skip_while(s, p, Class::MultiSpace);
    let a = ms0(s, p) + 3;
    lemma_skip_while(s, a, Class::Space);
    let b = ws0(s, a);
    lemma_u64_num(s, b);
    let c = skip_while(s, b, Class::Digit);
    lemma_skip_while(s, c, Class::Space);
    let d = ws0(s, c);
    if d < s.len() {
        lemma_skip_while(s, d + 1, Class::IdentChar);
    }
    let e = skip_while(s, d + 1, Class::IdentChar);
    lemma_skip_while(s, e, Class::Space);
    lemma_skip_while(s, ws0(s, e) + 1, Class::Space);
    let x = ws0(s, ws0(s, e) + 1);
    lemma_u64_num(s, x);
    let y = skip_while(s, x, Class::Digit);
    lemma_skip_while(s, y, Class::Space);
    law_transmitter(s, ws0(s, y));
}

/// A value description `VAL_ ...` is for a signal exactly when a message id
/// (digits) follows the keyword: the id is their value and the signal's
/// name the identifier after them. Otherwise it is for the environment
/// variable that the identifier after the keyword names.
pub proof fn law_value_description_target(s: Seq<u8>, p: int)
    requires
        0 <= p <= s.len(),
        ValueDescriptionRule::spec_parse(s, p) is Some,
    ensures
        ({
            let v = ValueDescriptionRule::spec_parse(s, p).unwrap().0;
            let b = ws0(s, ms0(s, p) + 4);
            let c = skip_while(s, b, Class::Digit);
            let d = ws0(s, c);
            &&& b < s.len()
            &&& (v is Signal <==> is_digit(s[b]))
            &&& v matches SpecValueDescription::Signal { message_id, signal_name, .. } ==> {
                &&& message_id == MessageId(dec_value(s.subrange(b, c)) as u64)
                &&& signal_name == text(s, d, skip_while(s, d + 1, Class::IdentChar))
            }
            &&& v matches SpecValueDescription::EnvironmentVariable { env_var_name, .. } ==> env_var_name
                == text(s, b, skip_while(s, b + 1, Class::IdentChar))
        }),
{
    lemma_skip_while(s, p, Class::MultiSpace);
    lemma_skip_while(s, ms0(s, p) + 4, Class::Space);
    let b = ws0(s, ms0(s, p) + 4);
    lemma_u64_num(s, b);
}

/// `SIG_VALTYPE_ id name : code;`: the id is the number after the keyword,
/// the name the identifier after it, and the type the code after the colon.
pub proof fn law_signal_extended_value_type(s: Seq<u8>, p: int)
    requires
        0 <= p <= s.len(),
        SignalExtendedValueTypeRule::spec_parse(s, p) is Some,
    ensures
        ({
            let v = SignalExtendedValueTypeRule::spec_parse(s, p).unwrap().0;
            let b = ws0(s, ms0(s, p) + 12);
            let c = skip_while(s, b, Class::Digit);
            let d = ws0(s, c);
            let e = skip_while(s, d + 1, Class::IdentChar);
            let x = ws0(s, ws0(s, e) + 1);
            &&& v.message_id == MessageId(dec_value(s.subrange(b, c)) as u64)
            &&& v.signal_name == text(s, d, e)
            &&& s[ws0(s, e)] == 58
            &&& x < s.len()
            &&& (v.signal_extended_value_type == SignalExtendedValueType::SignedOrUnsignedInteger
                <==> s[x] == 48)
            &&& (v.signal_extended_value_type == SignalExtendedValueType::IEEEfloat32Bit <==> s[x]
                == 49)
            &&& (v.signal_extended_value_type == SignalExtendedValueType::IEEEdouble64bit <==> s[x]
                == 50)
        }),
{
    lemma_skip_while(s, p, Class::MultiSpace);
    lemma_skip_while(s, ms0(s, p) + 12, Class::Space);
    let b = ws0(s, ms0(s, p) + 12);
    lemma_u64_num(s, b);
    let c = skip_while(s, b, Class::Digit);
    lemma_skip_while(s, c, Class::Space);
    let d = ws0(s, c);
    if d < s.len() {
        lemma_skip_while(s, d + 1, Class::IdentChar);
    }
    let e = skip_while(s, d + 1, Class::IdentChar);
    lemma_skip_while(s, e, Class::Space);
    lemma_skip_while(s, ws0(s, e) + 1, Class::Space);
    law_extended_value_type(s, ws0(s, ws0(s, e) + 1));
}

/// The value of an optionally signed integer: its digits' value, negated
/// after a minus.
pub open spec fn signed_value(s: Seq<u8>, a: int, b: int) -> int {
    if a < b && s[a] == 45 {
        -dec_value(s.subrange(a + 1, b))
    } else if a < b && s[a] == 43 {
        dec_value(s.subrange(a + 1, b))
    } else {
        dec_value(s.subrange(a, b))
    }
}

/// A signed integer is an optional sign and the whole run of digits after
/// it, and its value is theirs, with the sign.
pub proof fn lemma_i64_num(s: Seq<u8>, p: int)
    requires
        0 <= p <= s.len(),
    ensures
        i64_num(s, p) matches Some((v, q)) ==> {
            &&& q == skip_while(s, sign(s, p).1, Class::Digit)
            &&& p <= sign(s, p).1 < q <= s.len()
            &&& all_digits(s, sign(s, p).1, q)
            &&& v == signed_value(s, p, q)
        },
{
    let a = sign(s, p).1;
    lemma_skip_while(s, a, Class::Digit);
    let q = skip_while(s, a, Class::Digit);
    assert(all_digits(s, a, q));
    lemma_dec_value_nonneg(s.subrange(a, q));
}

/// A range `[min|max]` of signed integers: the minimum is the number before
/// `|`, the maximum the number after it.
pub proof fn law_int_range(s: Seq<u8>, p: int)
    requires
        0 <= p <= s.len(),
    ensures
        int_range(s, p) matches Some((lo, hi, q)) ==> {
            let x = ws0(s, p + 1);
            let a = skip_while(s, sign(s, x).1, Class::Digit);
            let y = ws0(s, ws0(s, a) + 1);
            let c = skip_while(s, sign(s, y).1, Class::Digit);
            &&& s[p] == 91
            &&& x < a && ws0(s, a) < s.len() && s[ws0(s, a)] == 124
            &&& y < c && ws0(s, c) < s.len() && s[ws0(s, c)] == 93
            &&& lo == signed_value(s, x, a)
            &&& hi == signed_value(s, y, c)
            &&& q == ws0(s, c) + 1
        },
{
    if p < s.len() && s[p] == 91 {
        lemma_skip_while(s, p + 1, Class::Space);
        let x = ws0(s, p + 1);
        lemma_i64_num(s, x);
        if let Some((lo, a)) = i64_num(s, x) {
            lemma_skip_while(s, a, Class::Space);
            if ws0(s, a) < s.len() && s[ws0(s, a)] == 124 {
                lemma_skip_while(s, ws0(s, a) + 1, Class::Space);
                lemma_i64_num(s, ws0(s, ws0(s, a) + 1));
            }
        }
    }
}

/// An environment variable `EV_ name: type [min|max] ...`: the name is the
/// identifier after the keyword, the type the code after the colon, the
/// range the one after the type.
pub proof fn law_environment_variable(s: Seq<u8>, p: int)
    requires
        0 <= p <= s.len(),
        EnvironmentVariableRule::spec_parse(s, p) is Some,
    ensures
        ({
            let v = EnvironmentVariableRule::spec_parse(s, p).unwrap().0;
            let b = ws0(s, ms0(s, p) + 3);
            let c = skip_while(s, b + 1, Class::IdentChar);
            let x = ws0(s, ws0(s, c) + 1);
            &&& v.env_var_name == text(s, b, c)
            &&& s[ws0(s, c)] == 58
            &&& x < s.len()
            &&& (v.env_var_type == EnvType::EnvTypeFloat <==> s[x] == 48)
            &&& (v.env_var_type == EnvType::EnvTypeu64 <==> s[x] == 49)
            &&& (v.env_var_type == EnvType::EnvTypeData <==> s[x] == 50)
            &&& int_range(s, ws0(s, x + 1)) matches Some((lo, hi, g)) && {
                let h = ws0(s, g);
                let u = skip_while(s, h + 1, Class::NotQuote);
                let j = ws0(s, u + 1);
                let k = number_text(s, j).unwrap();
                let l = ws0(s, k);
                let m = skip_while(s, sign(s, l).1, Class::Digit);
                let n = ws0(s, m);
                &&& v.min == lo && v.max == hi
                &&& h < u < s.len() && s[h] == 34 && s[u] == 34
                &&& v.unit == text(s, h + 1, u)
                &&& v.initial_value == text(s, j, k)
                &&& v.ev_id == signed_value(s, l, m)
                &&& n + 18 <= s.len()
                &&& s.subrange(n, n + 18) == dummy_node_vector(access_type_number(v.access_type))
            }
        }),
{
    lemma_skip_while(s, p, Class::MultiSpace);
    lemma_skip_while(s, ms0(s, p) + 3, Class::Space);
    let b = ws0(s, ms0(s, p) + 3);
    if b < s.len() {
        lemma_skip_while(s, b + 1, Class::IdentChar);
    }
    let c = skip_while(s, b + 1, Class::IdentChar);
    lemma_skip_while(s, c, Class::Space);
    lemma_skip_while(s, ws0(s, c) + 1, Class::Space);
    law_env_type(s, ws0(s, ws0(s, c) + 1));
    let x = ws0(s, ws0(s, c) + 1);
    lemma_skip_while(s, x + 1, Class::Space);
    law_int_range(s, ws0(s, x + 1));
    if let Some((lo, hi, g)) = int_range(s, ws0(s, x + 1)) {
        lemma_skip_while(s, g, Class::Space);
        let h = ws0(s, g);
        lemma_string_lit(s, h);
        if h < s.len() {
            lemma_skip_while(s, h + 1, Class::NotQuote);
            let u = skip_while(s, h + 1, Class::NotQuote);
            if u < s.len() {
                lemma_skip_while(s, u + 1, Class::Space);
                let j = ws0(s, u + 1);
                lemma_number_text_bytes(s, j);
                if let Some(k) = number_text(s, j) {
                    lemma_skip_while(s, k, Class::Space);
                    let l = ws0(s, k);
                    lemma_i64_num(s, l);
                    if let Some((ev_id, m)) = i64_num(s, l) {
                        lemma_skip_while(s, m, Class::Space);
                        law_access_type(s, ws0(s, m));
                    }
                }
            }
        }
    }
}

/// A signal type `SGTYPE_ name: size@order type (factor,offset) [min|max]
/// ...`: the name is the identifier after the keyword, the size the number
/// after the colon, the two bytes after `@` its byte order and value type,
/// then come the factor and offset and the minimum and maximum, in that
/// order.
pub proof fn law_signal_type(s: Seq<u8>, p: int)
    requires
        0 <= p <= s.len(),
        SignalTypeRule::spec_parse(s, p) is Some,
    ensures
        ({
            let v = SignalTypeRule::spec_parse(s, p).unwrap().0;
            let b = ws0(s, ms0(s, p) + 7);
            let c = skip_while(s, b + 1, Class::IdentChar);
            let x = ws0(s, ws0(s, c) + 1);
            let y = skip_while(s, x, Class::Digit);
            let z = ws0(s, y);
            &&& v.signal_type_name == text(s, b, c)
            &&& s[ws0(s, c)] == 58
            &&& x < y && v.signal_size == dec_value(s.subrange(x, y))
            &&& z + 3 <= s.len() && s[z] == 64
            &&& (v.byte_order == ByteOrder::LittleEndian <==> s[z + 1] == 49)
            &&& (v.byte_order == ByteOrder::BigEndian <==> s[z + 1] == 48)
            &&& (v.value_type == ValueType::Unsigned <==> s[z + 2] == 43)
            &&& (v.value_type == ValueType::Signed <==> s[z + 2] == 45)
            &&& number_pair(s, ws0(s, z + 3), 40, 44, 41) matches Some((f1, f2, f3, f4, h)) && {
                &&& v.factor == text(s, f1, f2)
                &&& v.offset == text(s, f3, f4)
                &&& number_pair(s, ws0(s, h), 91, 124, 93) matches Some((m1, m2, m3, m4, _))
                    && v.min == text(s, m1, m2) && v.max == text(s, m3, m4)
            }
        }),
{
    lemma_skip_while(s, p, Class::MultiSpace);
    lemma_skip_while(s, ms0(s, p) + 7, Class::Space);
    let b = ws0(s, ms0(s, p) + 7);
    if b < s.len() {
        lemma_skip_while(s, b + 1, Class::IdentChar);
    }
    let c = skip_while(s, b + 1, Class::IdentChar);
    lemma_skip_while(s, c, Class::Space);
    lemma_skip_while(s, ws0(s, c) + 1, Class::Space);
    let x = ws0(s, ws0(s, c) + 1);
    lemma_u64_num(s, x);
    let y = skip_while(s, x, Class::Digit);
    lemma_skip_while(s, y, Class::Space);
    let z = ws0(s, y);
    if z + 3 <= s.len() {
        law_order_and_type(s, z + 1);
    }
}

/// The quoted text at `z` runs up to `q`: a quote at `z`, one at `q - 1`,
/// and none between.
pub open spec fn quoted_span(s: Seq<u8>, z: int, q: int) -> bool {
    &&& 0 <= z < q - 1
    &&& q <= s.len()
    &&& s[z] == 34
    &&& s[q - 1] == 34
    &&& forall|k: int| z < k < q - 1 ==> #[trigger] s[k] != 34
}

proof fn lemma_string_lit(s: Seq<u8>, z: int)
    requires
        0 <= z <= s.len(),
    ensures
        string_lit(s, z) matches Some((t, q)) ==> quoted_span(s, z, q) && t == text(s, z + 1, q - 1),
{
    if z < s.len() && s[z] == 34 {
        lemma_skip_while(s, z + 1, Class::NotQuote);
        if let Some((t, q)) = string_lit(s, z) {
            assert forall|k: int| z < k < q - 1 implies #[trigger] s[k] != 34 by {
                assert(in_class(Class::NotQuote, s[k]));
            }
        }
    }
}

/// What a comment is about: the node or environment variable that the
/// identifier after its keyword names, or the message whose id follows the
/// keyword (and, for a signal, the signal that the identifier after the id
/// names). Its text is the last quoted text of the comment.
pub proof fn law_comment_subject(s: Seq<u8>, p: int)
    requires
        0 <= p <= s.len(),
        comment_body(s, p) is Some,
    ensures
        ({
            let (c, q) = comment_body(s, p).unwrap();
            let b = ws0(s, p + 3);
            let e = skip_while(s, b, Class::Digit);
            let d = ws0(s, e);
            &&& exists|z: int| quoted_span(s, z, q) && comment_text(c) == text(s, z + 1, q - 1)
            &&& c matches SpecComment::Node { node_name, .. } ==> node_name == text(
                s,
                b,
                skip_while(s, b + 1, Class::IdentChar),
            )
            &&& c matches SpecComment::EnvVar { env_var_name, .. } ==> env_var_name == text(
                s,
                b,
                skip_while(s, b + 1, Class::IdentChar),
            )
            &&& c matches SpecComment::Message { message_id, .. } ==> message_id == MessageId(
                dec_value(s.subrange(b, e)) as u64,
            )
            &&& c matches SpecComment::Signal { message_id, signal_name, .. } ==> {
                &&& message_id == MessageId(dec_value(s.subrange(b, e)) as u64)
                &&& signal_name == text(s, d, skip_while(s, d + 1, Class::IdentChar))
            }
        }),
{
    let (c, q) = comment_body(s, p).unwrap();
    law_comment_kind(s, p);
    if p + 3 <= s.len() {
        lemma_skip_while(s, p + 3, Class::Space);
        let b = ws0(s, p + 3);
        lemma_u64_num(s, b);
        if b < s.len() {
            lemma_skip_while(s, b + 1, Class::IdentChar);
            let c1 = skip_while(s, b + 1, Class::IdentChar);
            lemma_skip_while(s, c1, Class::Space);
            lemma_string_lit(s, ws0(s, c1));
        }
        lemma_skip_while(s, b, Class::Digit);
        let e = skip_while(s, b, Class::Digit);
        lemma_skip_while(s, e, Class::Space);
        let d = ws0(s, e);
        lemma_string_lit(s, d);
        if d < s.len() {
            lemma_skip_while(s, d + 1, Class::IdentChar);
            let e1 = skip_while(s, d + 1, Class::IdentChar);
            lemma_skip_while(s, e1, Class::Space);
            lemma_string_lit(s, ws0(s, e1));
        }
    }
    lemma_string_lit(s, p);
}

/// What an attribute value is for: the node or environment variable that
/// the identifier after its keyword names, or the message whose id follows
/// the keyword (and, for a signal, the signal that the identifier after the
/// id names); a bare value is the value at the start.
pub proof fn law_object_subject(s: Seq<u8>, p: int)
    requires
        0 <= p <= s.len(),
        object_value(s, p) is Some,
    ensures
        ({
            let (v, q) = object_value(s, p).unwrap();
            let b = ws0(s, p + 3);
            let e = skip_while(s, b, Class::Digit);
            let d = ws0(s, e);
            &&& v matches SpecAttributeValuedForObjectType::NetworkNodeAttributeValue(n, _) ==> n
                == text(s, b, skip_while(s, b + 1, Class::IdentChar))
            &&& v matches SpecAttributeValuedForObjectType::EnvVariableAttributeValue(n, _) ==> n
                == text(s, b, skip_while(s, b + 1, Class::IdentChar))
            &&& v matches SpecAttributeValuedForObjectType::MessageDefinitionAttributeValue(id, _)
                ==> id == MessageId(dec_value(s.subrange(b, e)) as u64)
            &&& v matches SpecAttributeValuedForObjectType::SignalAttributeValue(id, n, _) ==> {
                &&& id == MessageId(dec_value(s.subrange(b, e)) as u64)
                &&& n == text(s, d, skip_while(s, d + 1, Class::IdentChar))
            }
            &&& v matches SpecAttributeValuedForObjectType::RawAttributeValue(x) ==> attribute_value(
                s,
                p,
            ) == Some((x, q))
        }),
{
    law_object_kind(s, p);
    if p + 3 <= s.len() {
        lemma_skip_while(s, p + 3, Class::Space);
        let b = ws0(s, p + 3);
        lemma_u64_num(s, b);
    }
}

/// The identifier that starts at `b`, as text.
pub open spec fn ident_text(s: Seq<u8>, b: int) -> Seq<char> {
    text(s, b, skip_while(s, b + 1, Class::IdentChar))
}

/// The value of the digits that start at `b`.
pub open spec fn digits_value(s: Seq<u8>, b: int) -> int {
    dec_value(s.subrange(b, skip_while(s, b, Class::Digit)))
}

/// Where the identifier after the number at `b` starts.
pub open spec fn after_number(s: Seq<u8>, b: int) -> int {
    ws0(s, skip_while(s, b, Class::Digit))
}

/// Where the identifier or number after the colon that follows the
/// identifier at `b` starts.
pub open spec fn after_colon(s: Seq<u8>, b: int) -> int {
    ws0(s, ws0(s, skip_while(s, b + 1, Class::IdentChar)) + 1)
}

proof fn lemma_ident_then(s: Seq<u8>, b: int)
    requires
        0 <= b < s.len(),
    ensures
        b + 1 <= skip_while(s, b + 1, Class::IdentChar) <= ws0(s, skip_while(s, b + 1, Class::IdentChar))
            <= s.len(),
        ws0(s, skip_while(s, b + 1, Class::IdentChar)) < s.len() ==> ws0(s, skip_while(s, b + 1, Class::IdentChar)) + 1 <= after_colon(s, b) <= s.len(),
{
    lemma_skip_while(s, b + 1, Class::IdentChar);
    let c = skip_while(s, b + 1, Class::IdentChar);
    lemma_skip_while(s, c, Class::Space);
    if ws0(s, c) < s.len() {
        lemma_skip_while(s, ws0(s, c) + 1, Class::Space);
    }
}

proof fn lemma_number_then(s: Seq<u8>, b: int)
    requires
        0 <= b <= s.len(),
    ensures
        b <= skip_while(s, b, Class::Digit) <= after_number(s, b) <= s.len(),
        u64_num(s, b) matches Some((v, c)) ==> v == digits_value(s, b) && c == skip_while(s, b, Class::Digit),
{
    lemma_skip_while(s, b, Class::Digit);
    lemma_skip_while(s, skip_while(s, b, Class::Digit), Class::Space);
    lemma_u64_num(s, b);
}

/// `SIG_GROUP_ id name repetitions : signals;`: the message id, the group's
/// name and the repetitions, in that order.
pub proof fn law_signal_groups(s: Seq<u8>, p: int)
    requires
        0 <= p <= s.len(),
        SignalGroupsRule::spec_parse(s, p) is Some,
    ensures
        ({
            let v = SignalGroupsRule::spec_parse(s, p).unwrap().0;
            let b = ws0(s, ms0(s, p) + 10);
            let d = after_number(s, b);
            let f = ws0(s, skip_while(s, d + 1, Class::IdentChar));
            &&& v.message_id == MessageId(digits_value(s, b) as u64)
            &&& v.signal_group_name == ident_text(s, d)
            &&& v.repetitions == digits_value(s, f)
        }),
{
    lemma_skip_while(s, p, Class::MultiSpace);
    lemma_skip_while(s, ms0(s, p) + 10, Class::Space);
    let b = ws0(s, ms0(s, p) + 10);
    lemma_number_then(s, b);
    let d = after_number(s, b);
    if d < s.len() {
        lemma_ident_then(s, d);
        lemma_number_then(s, ws0(s, skip_while(s, d + 1, Class::IdentChar)));
    }
}

/// `SIG_TYPE_REF_ id signal : type;`: the message id, the signal's name,
/// and after the colon the name of the signal type.
pub proof fn law_signal_type_ref(s: Seq<u8>, p: int)
    requires
        0 <= p <= s.len(),
        SignalTypeRefRule::spec_parse(s, p) is Some,
    ensures
        ({
            let v = SignalTypeRefRule::spec_parse(s, p).unwrap().0;
            let b = ws0(s, ms0(s, p) + 13);
            let d = after_number(s, b);
            &&& v.message_id == MessageId(digits_value(s, b) as u64)
            &&& v.signal_name == ident_text(s, d)
            &&& v.signal_type_name == ident_text(s, after_colon(s, d))
        }),
{
    lemma_skip_while(s, p, Class::MultiSpace);
    lemma_skip_while(s, ms0(s, p) + 13, Class::Space);
    let b = ws0(s, ms0(s, p) + 13);
    lemma_number_then(s, b);
    let d = after_number(s, b);
    if d < s.len() {
        lemma_ident_then(s, d);
    }
}

/// `BO_TX_BU_ id : transmitters;`: the message id is the number after the
/// keyword.
pub proof fn law_message_transmitter(s: Seq<u8>, p: int)
    requires
        0 <= p <= s.len(),
        MessageTransmitterRule::spec_parse(s, p) is Some,
    ensures
        MessageTransmitterRule::spec_parse(s, p).unwrap().0.message_id == MessageId(
            digits_value(s, ws0(s, ms0(s, p) + 9)) as u64,
        ),
{
    lemma_skip_while(s, p, Class::MultiSpace);
    lemma_skip_while(s, ms0(s, p) + 9, Class::Space);
    lemma_number_then(s, ws0(s, ms0(s, p) + 9));
}

/// `ENVVAR_DATA_ name: size;`: the variable's name, and after the colon the
/// size of its data.
pub proof fn law_environment_variable_data(s: Seq<u8>, p: int)
    requires
        0 <= p <= s.len(),
        EnvironmentVariableDataRule::spec_parse(s, p) is Some,
    ensures
        ({
            let v = EnvironmentVariableDataRule::spec_parse(s, p).unwrap().0;
            let b = ws0(s, ms0(s, p) + 12);
            &&& v.env_var_name == ident_text(s, b)
            &&& v.data_size == digits_value(s, after_colon(s, b))
        }),
{
    lemma_skip_while(s, p, Class::MultiSpace);
    lemma_skip_while(s, ms0(s, p) + 12, Class::Space);
    let b = ws0(s, ms0(s, p) + 12);
    if b < s.len() {
        lemma_ident_then(s, b);
        lemma_number_then(s, after_colon(s, b));
    }
}

/// `VAL_TABLE_ name descriptions;`: the table's name is the identifier
/// after the keyword.
pub proof fn law_value_table_name(s: Seq<u8>, p: int)
    requires
        0 <= p <= s.len(),
        ValueTableRule::spec_parse(s, p) is Some,
    ensures
        ValueTableRule::spec_parse(s, p).unwrap().0.value_table_name == ident_text(
            s,
            ws0(s, ms0(s, p) + 10),
        ),
{
}

/// `VERSION "text"`: the version is the text between the quotes.
pub proof fn law_version(s: Seq<u8>, p: int)
    requires
        0 <= p <= s.len(),
        VersionRule::spec_parse(s, p) is Some,
    ensures
        ({
            let (v, q) = VersionRule::spec_parse(s, p).unwrap();
            let x = ws0(s, ms0(s, p) + 7);
            quoted_span(s, x, q) && v == text(s, x + 1, q - 1)
        }),
{
    lemma_skip_while(s, p, Class::MultiSpace);
    lemma_skip_while(s, ms0(s, p) + 7, Class::Space);
    let x = ws0(s, ms0(s, p) + 7);
    lemma_string_lit(s, x);
}

/// `BA_DEF_DEF_ "name" value;`: the name is the quoted text after the
/// keyword, and the value is the one that follows it.
pub proof fn law_attribute_default(s: Seq<u8>, p: int)
    requires
        0 <= p <= s.len(),
        AttributeDefaultRule::spec_parse(s, p) is Some,
    ensures
        ({
            let v = AttributeDefaultRule::spec_parse(s, p).unwrap().0;
            let x = ws0(s, ms0(s, p) + 11);
            exists|c: int|
                {
                    &&& quoted_span(s, x, c)
                    &&& v.attribute_name == text(s, x + 1, c - 1)
                    &&& attribute_value(s, ws0(s, c)) matches Some((a, _)) && v.attribute_value == a
                }
        }),
{
    lemma_skip_while(s, p, Class::MultiSpace);
    lemma_skip_while(s, ms0(s, p) + 11, Class::Space);
    let x = ws0(s, ms0(s, p) + 11);
    lemma_string_lit(s, x);
}

/// `BA_ "name" object value;`: the name is the quoted text after the
/// keyword, and what follows it is the object and the value.
pub proof fn law_attribute_value_statement(s: Seq<u8>, p: int)
    requires
        0 <= p <= s.len(),
        AttributeValueRule::spec_parse(s, p) is Some,
    ensures
        ({
            let v = AttributeValueRule::spec_parse(s, p).unwrap().0;
            let x = ws0(s, ms0(s, p) + 3);
            exists|c: int|
                {
                    &&& quoted_span(s, x, c)
                    &&& v.attribute_name == text(s, x + 1, c - 1)
                    &&& object_value(s, ws0(s, c)) matches Some((o, _)) && v.attribute_value == o
                }
        }),
{
    lemma_skip_while(s, p, Class::MultiSpace);
    lemma_skip_while(s, ms0(s, p) + 3, Class::Space);
    lemma_string_lit(s, ws0(s, ms0(s, p) + 3));
}

/// `CM_ ...;`: a comment statement holds what its body reads.
pub proof fn law_comment_statement(s: Seq<u8>, p: int)
    requires
        0 <= p <= s.len(),
        CommentRule::spec_parse(s, p) is Some,
    ensures
        comment_body(s, ws0(s, ms0(s, p) + 3)) matches Some((c, _)) && CommentRule::spec_parse(
            s,
            p,
        ).unwrap().0 == c,
{
}

} // verus!
