use can_dbc::{
    AccessNode, AccessType, AttributeDefinition, AttributeValue, AttributeValuedForObjectType,
    ByteOrder, Comment, EnvType, Error, MessageId, MultiplexIndicator, SignalExtendedValueType,
    Transmitter, ValueDescription, ValueType, DBC,
};

const FULL: &str = "VERSION \"1.2\"

NS_ :
\tCM_

BS_: 500,250
BU_: ECU1 ECU2
VAL_TABLE_ Gears 0 \"neutral\" 1 \"first\" ;
BO_ 100 Engine: 8 ECU1
 SG_ Mux M : 0|8@1+ (1,0) [0|255] \"\" ECU2
 SG_ Speed m1 : 8|16@0- (0.5,-1.25e2) [-10|10.5] \"km/h\" ECU1,ECU2
BO_ 200 Idle: 0 Vector__XXX
BO_TX_BU_ 100 : ECU1,ECU2;
EV_ Volt: 1 [-5|5] \"V\" 2.5 3 DUMMY_NODE_VECTOR3 VECTOR__XXX,ECU1;
SGTYPE_ Byte : 8@1+ (1,0) [0|255] \"\" 0, Gears;
CM_ \"whole network\";
CM_ BU_ ECU1 \"engine control\";
CM_ BO_ 100 \"engine frame\";
CM_ BO_ 100 \"second engine comment\";
CM_ EV_ Volt \"supply\";
BA_DEF_ BO_ \"GenMsgCycleTime\" INT 0 65535;
BA_DEF_ \"BusType\" STRING ;
BA_DEF_ BU_ \"NodeLayer\" INT 0 3;
BA_DEF_DEF_ \"GenMsgCycleTime\" -5;
BA_DEF_DEF_ \"Ratio\" 0.25;
BA_ \"BusType\" \"CAN\";
BA_ \"NodeLayer\" BU_ ECU1 2;
BA_ \"GenMsgCycleTime\" BO_ 100 10;
BA_ \"SigAttr\" SG_ 100 Speed 3;
BA_ \"EnvAttr\" EV_ Volt \"x\";
VAL_ 100 Speed 0 \"stop\" 1 \"go\" ;
VAL_ Volt 0 \"off\" ;
SIG_TYPE_REF_ 100 Mux : Byte;
SIG_GROUP_ 100 Group1 1 : Mux Speed;
SIG_VALTYPE_ 100 Speed : 1;
";

fn full() -> DBC {
    DBC::from_slice(FULL.as_bytes()).unwrap()
}

#[test]
fn header_bit_timing_and_nodes() {
    let dbc = full();
    assert_eq!(format!("{:?}", dbc.version()), "Version(\"1.2\")");
    assert_eq!(format!("{:?}", dbc.new_symbols()), "[Symbol(\"CM_\")]");
    assert_eq!(format!("{:?}", dbc.bit_timing()), "Some([Baudrate(500), Baudrate(250)])");
    assert_eq!(format!("{:?}", dbc.nodes()), "[Node([\"ECU1\", \"ECU2\"])]");
}

#[test]
fn value_table() {
    let dbc = full();
    let tables = dbc.value_tables();
    assert_eq!(tables.len(), 1);
    assert_eq!(tables[0].value_table_name(), "Gears");
    let d = tables[0].value_descriptions();
    assert_eq!(d.len(), 2);
    assert_eq!(d[0].a(), "0");
    assert_eq!(d[0].b(), "neutral");
    assert_eq!(d[1].a(), "1");
    assert_eq!(d[1].b(), "first");
}

#[test]
fn multiplexed_signals() {
    let dbc = full();
    let m = &dbc.messages()[0];
    assert_eq!(m.message_name(), "Engine");
    assert_eq!(m.transmitter(), &Transmitter::NodeName("ECU1".to_string()));
    let mux = &m.signals()[0];
    assert_eq!(mux.multiplexer_indicator(), &MultiplexIndicator::Multiplexor);
    let speed = &m.signals()[1];
    assert_eq!(speed.name(), "Speed");
    assert_eq!(speed.multiplexer_indicator(), &MultiplexIndicator::MultiplexedSignal(1));
    assert_eq!(speed.start_bit, 8);
    assert_eq!(speed.signal_size, 16);
    assert_eq!(speed.byte_order(), &ByteOrder::BigEndian);
    assert_eq!(speed.value_type(), &ValueType::Signed);
    assert_eq!(speed.factor(), "0.5");
    assert_eq!(speed.offset(), "-1.25e2");
    assert_eq!(speed.min(), "-10");
    assert_eq!(speed.max(), "10.5");
    assert_eq!(speed.unit(), "km/h");
    assert_eq!(speed.receivers(), &vec!["ECU1".to_string(), "ECU2".to_string()]);
    let idle = &dbc.messages()[1];
    assert_eq!(idle.message_id(), &MessageId(200));
    assert_eq!(*idle.message_size(), 0);
    assert_eq!(idle.transmitter(), &Transmitter::VectorXXX);
    assert!(idle.signals().is_empty());
}

#[test]
fn message_transmitters() {
    let dbc = full();
    let t = dbc.message_transmitters();
    assert_eq!(t.len(), 1);
    assert_eq!(t[0].message_id(), &MessageId(100));
    assert_eq!(
        t[0].transmitter(),
        &vec![Transmitter::NodeName("ECU1".to_string()), Transmitter::NodeName("ECU2".to_string())]
    );
}

#[test]
fn environment_variable() {
    let dbc = full();
    let ev = &dbc.environment_variables()[0];
    assert_eq!(ev.env_var_name(), "Volt");
    assert_eq!(ev.env_var_type(), &EnvType::EnvTypeu64);
    assert_eq!(*ev.min(), -5);
    assert_eq!(*ev.max(), 5);
    assert_eq!(ev.unit(), "V");
    assert_eq!(ev.initial_value(), "2.5");
    assert_eq!(*ev.ev_id(), 3);
    assert_eq!(ev.access_type(), &AccessType::DummyNodeVector3);
    assert_eq!(
        ev.access_nodes(),
        &vec![AccessNode::AccessNodeVectorXXX, AccessNode::AccessNodeName("ECU1".to_string())]
    );
}

#[test]
fn signal_type() {
    let dbc = full();
    let st = &dbc.signal_types()[0];
    assert_eq!(st.signal_type_name(), "Byte");
    assert_eq!(*st.signal_size(), 8);
    assert_eq!(st.byte_order(), &ByteOrder::LittleEndian);
    assert_eq!(st.value_type(), &ValueType::Unsigned);
    assert_eq!(st.factor(), "1");
    assert_eq!(st.offset(), "0");
    assert_eq!(st.min(), "0");
    assert_eq!(st.max(), "255");
    assert_eq!(st.unit(), "");
    assert_eq!(st.default_value(), "0");
    assert_eq!(st.value_table(), "Gears");
}

#[test]
fn comments_of_each_kind() {
    let dbc = full();
    let c = dbc.comments();
    assert_eq!(c.len(), 5);
    assert_eq!(c[0], Comment::Plain { comment: "whole network".to_string() });
    assert_eq!(
        c[1],
        Comment::Node { node_name: "ECU1".to_string(), comment: "engine control".to_string() }
    );
    assert_eq!(
        c[2],
        Comment::Message { message_id: MessageId(100), comment: "engine frame".to_string() }
    );
    assert_eq!(
        c[4],
        Comment::EnvVar { env_var_name: "Volt".to_string(), comment: "supply".to_string() }
    );
}

#[test]
fn message_comment_is_the_first_one() {
    let dbc = full();
    assert_eq!(dbc.message_comment(&MessageId(100)), Some("engine frame"));
    assert_eq!(dbc.message_comment(&MessageId(200)), None);
    assert_eq!(dbc.signal_comment(&MessageId(100), "Speed"), None);
}

#[test]
fn attribute_definitions() {
    let dbc = full();
    let d = dbc.attribute_definitions();
    assert_eq!(
        d,
        &vec![
            AttributeDefinition::Message("\"GenMsgCycleTime\" INT 0 65535".to_string()),
            AttributeDefinition::Plain("\"BusType\" STRING ".to_string()),
            AttributeDefinition::Node("\"NodeLayer\" INT 0 3".to_string()),
        ]
    );
}

#[test]
fn attribute_defaults_are_typed_by_their_text() {
    let dbc = full();
    let d = dbc.attribute_defaults();
    assert_eq!(d.len(), 2);
    assert_eq!(d[0].attribute_value(), &AttributeValue::AttributeValueI64(-5));
    assert_eq!(d[1].attribute_name(), "Ratio");
    assert_eq!(d[1].attribute_value(), &AttributeValue::AttributeValueF64("0.25".to_string()));
}

#[test]
fn attribute_values_for_each_object() {
    let dbc = full();
    let v = dbc.attribute_values();
    assert_eq!(v.len(), 5);
    assert_eq!(
        v[0].attribute_value(),
        &AttributeValuedForObjectType::RawAttributeValue(
            AttributeValue::AttributeValueCharString("CAN".to_string())
        )
    );
    assert_eq!(
        v[1].attribute_value(),
        &AttributeValuedForObjectType::NetworkNodeAttributeValue(
            "ECU1".to_string(),
            AttributeValue::AttributeValueU64(2)
        )
    );
    assert_eq!(
        v[2].attribute_value(),
        &AttributeValuedForObjectType::MessageDefinitionAttributeValue(
            MessageId(100),
            Some(AttributeValue::AttributeValueU64(10))
        )
    );
    assert_eq!(
        v[3].attribute_value(),
        &AttributeValuedForObjectType::SignalAttributeValue(
            MessageId(100),
            "Speed".to_string(),
            AttributeValue::AttributeValueU64(3)
        )
    );
    assert_eq!(
        v[4].attribute_value(),
        &AttributeValuedForObjectType::EnvVariableAttributeValue(
            "Volt".to_string(),
            AttributeValue::AttributeValueCharString("x".to_string())
        )
    );
}

#[test]
fn value_descriptions_for_signals_and_variables() {
    let dbc = full();
    let v = dbc.value_descriptions();
    assert_eq!(v.len(), 2);
    match &v[1] {
        ValueDescription::EnvironmentVariable { env_var_name, value_descriptions } => {
            assert_eq!(env_var_name, "Volt");
            assert_eq!(value_descriptions.len(), 1);
            assert_eq!(value_descriptions[0].b(), "off");
        }
        _ => panic!("expected a value description of an environment variable"),
    }
    let d = dbc.value_descriptions_for_signal(&MessageId(100), "Speed").unwrap();
    assert_eq!(d.len(), 2);
    assert_eq!(d[0].a(), "0");
    assert_eq!(d[0].b(), "stop");
    assert_eq!(d[1].a(), "1");
    assert_eq!(d[1].b(), "go");
    assert!(dbc.value_descriptions_for_signal(&MessageId(100), "Mux").is_none());
    assert!(dbc.value_descriptions_for_signal(&MessageId(101), "Speed").is_none());
}

#[test]
fn signal_type_refs_groups_and_value_type() {
    let dbc = full();
    let r = &dbc.signal_type_refs()[0];
    assert_eq!(r.message_id(), &MessageId(100));
    assert_eq!(r.signal_name(), "Mux");
    assert_eq!(r.signal_type_name(), "Byte");
    let g = &dbc.signal_groups()[0];
    assert_eq!(g.signal_group_name(), "Group1");
    assert_eq!(*g.repetitions(), 1);
    assert_eq!(g.signal_names(), &vec!["Mux".to_string(), "Speed".to_string()]);
    let e = dbc.signal_extended_value_type_list().as_ref().unwrap();
    assert_eq!(e.signal_name(), "Speed");
    assert_eq!(e.signal_extended_value_type(), &SignalExtendedValueType::IEEEfloat32Bit);
}

#[test]
fn missing_version_is_a_parse_error_at_the_start() {
    match DBC::from_slice(b"NS_ :\n") {
        Err(Error::Parse(offset)) => assert_eq!(offset, 0),
        other => panic!("unexpected result {:?}", other),
    }
}

#[test]
fn missing_new_symbols_is_a_parse_error_after_the_version() {
    match DBC::from_slice(b"VERSION \"\"\nBS_:\n") {
        Err(Error::Parse(offset)) => assert_eq!(offset, 10),
        other => panic!("unexpected result {:?}", other),
    }
}

#[test]
fn unreadable_statement_leaves_the_rest() {
    let input = b"VERSION \"\"\nNS_ :\n\nBO_ 1 M: 8 Vector__XXX\nGARBAGE here\n";
    match DBC::from_slice(input) {
        Err(Error::Incomplete(dbc, rest)) => {
            assert_eq!(dbc.messages().len(), 1);
            assert_eq!(rest, b"GARBAGE here\n".to_vec());
        }
        other => panic!("unexpected result {:?}", other),
    }
}

#[test]
fn statements_out_of_order_are_not_read() {
    let input = b"VERSION \"\"\nNS_ :\nCM_ \"c\";\nBO_ 1 M: 8 Vector__XXX\n";
    match DBC::from_slice(input) {
        Err(Error::Incomplete(dbc, rest)) => {
            assert_eq!(dbc.comments().len(), 1);
            assert!(dbc.messages().is_empty());
            assert_eq!(rest, b"BO_ 1 M: 8 Vector__XXX\n".to_vec());
        }
        other => panic!("unexpected result {:?}", other),
    }
}

#[test]
fn trailing_blank_lines_are_read() {
    let dbc = DBC::from_slice(b"VERSION \"v\"\nNS_ :\n\n\r\n  \t\n").unwrap();
    assert!(dbc.bit_timing().is_none());
    assert!(dbc.new_symbols().is_empty());
    assert!(dbc.messages().is_empty());
}

#[test]
fn id_that_overflows_u64_is_not_read() {
    let input = b"VERSION \"\"\nNS_ :\nBO_ 18446744073709551616 M: 8 X\n";
    match DBC::from_slice(input) {
        Err(Error::Incomplete(_, rest)) => {
            assert_eq!(rest, b"BO_ 18446744073709551616 M: 8 X\n".to_vec())
        }
        other => panic!("unexpected result {:?}", other),
    }
    let dbc =
        DBC::from_slice(b"VERSION \"\"\nNS_ :\nBO_ 18446744073709551615 M: 8 X\n").unwrap();
    assert_eq!(dbc.messages()[0].message_id(), &MessageId(18446744073709551615));
}

#[test]
fn attribute_values_at_integer_limits() {
    let input = b"VERSION \"\"\nNS_ :\nBA_DEF_DEF_ \"a\" -9223372036854775808;\nBA_DEF_DEF_ \"b\" 18446744073709551615;\nBA_DEF_DEF_ \"c\" 18446744073709551616;\nBA_DEF_DEF_ \"d\" +.5E-3;\n";
    let dbc = DBC::from_slice(input).unwrap();
    let d = dbc.attribute_defaults();
    assert_eq!(d[0].attribute_value(), &AttributeValue::AttributeValueI64(i64::MIN));
    assert_eq!(d[1].attribute_value(), &AttributeValue::AttributeValueU64(u64::MAX));
    assert_eq!(
        d[2].attribute_value(),
        &AttributeValue::AttributeValueF64("18446744073709551616".to_string())
    );
    assert_eq!(d[3].attribute_value(), &AttributeValue::AttributeValueF64("+.5E-3".to_string()));
}

#[test]
fn invalid_utf8_in_a_comment_is_replaced() {
    let input = b"VERSION \"\"\nNS_ :\nCM_ \"caf\xe9 \xc3\xa9\";\n";
    let dbc = DBC::from_slice(input).unwrap();
    assert_eq!(dbc.comments()[0], Comment::Plain { comment: "caf\u{fffd} \u{e9}".to_string() });
}

#[test]
fn crlf_line_endings_and_empty_lists() {
    let input = b"VERSION \"x\"\r\nNS_ :\r\n    CM_\r\n\r\nBS_:\r\nBU_:\r\nBO_ 7 Frame: 2 Vector__XXX\r\n SG_ S : 0|8@1+ (1,0) [0|1] \"\"\r\n";
    let dbc = DBC::from_slice(input).unwrap();
    assert_eq!(format!("{:?}", dbc.new_symbols()), "[Symbol(\"CM_\")]");
    assert_eq!(format!("{:?}", dbc.nodes()), "[Node([])]");
    let s = &dbc.messages()[0].signals()[0];
    assert_eq!(s.name(), "S");
    assert!(s.receivers().is_empty());
}

#[test]
fn comment_for_a_signal_is_found_by_its_name() {
    let input = b"VERSION \"\"\nNS_ :\nCM_ SG_ 3 A \"first\";\nCM_ SG_ 3 B \"second\";\nCM_ SG_ 3 B \"third\";\n";
    let dbc = DBC::from_slice(input).unwrap();
    assert_eq!(dbc.signal_comment(&MessageId(3), "A"), Some("first"));
    assert_eq!(dbc.signal_comment(&MessageId(3), "B"), Some("second"));
    assert_eq!(dbc.signal_comment(&MessageId(3), "C"), None);
    assert_eq!(dbc.message_comment(&MessageId(3)), None);
}
