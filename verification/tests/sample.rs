use can_dbc::{
    AccessNode, AccessType, AttributeValue, AttributeValuedForObjectType, ByteOrder, Comment,
    EnvType, MessageId, MultiplexIndicator, Transmitter, ValueType, DBC,
};

fn sample() -> &'static [u8] {
    b"
VERSION \"0.1\"
NS_ :
    NS_DESC_
    CM_
    BA_DEF_
    BA_
    VAL_
    CAT_DEF_
    CAT_
    FILTER
    BA_DEF_DEF_
    EV_DATA_
    ENVVAR_DATA_
    SGTYPE_
    SGTYPE_VAL_
    BA_DEF_SGTYPE_
    BA_SGTYPE_
    SIG_TYPE_REF_
    VAL_TABLE_
    SIG_GROUP_
    SIG_VALTYPE_
    SIGTYPE_VALTYPE_
    BO_TX_BU_
    BA_DEF_REL_
    BA_REL_
    BA_DEF_DEF_REL_
    BU_SG_REL_
    BU_EV_REL_
    BU_BO_REL_
    SG_MUL_VAL_
BS_:
BU_: PC
BO_ 2000 WebData_2000: 4 Vector__XXX
    SG_ Signal_8 : 24|8@1+ (1,0) [0|255] \"\" Vector__XXX
    SG_ Signal_7 : 16|8@1+ (1,0) [0|255] \"\" Vector__XXX
    SG_ Signal_6 : 8|8@1+ (1,0) [0|255] \"\" Vector__XXX
    SG_ Signal_5 : 0|8@1+ (1,0) [0|255] \"\" Vector__XXX
BO_ 1840 WebData_1840: 4 PC
    SG_ Signal_4 : 24|8@1+ (1,0) [0|255] \"\" Vector__XXX
    SG_ Signal_3 : 16|8@1+ (1,0) [0|255] \"\" Vector__XXX
    SG_ Signal_2 : 8|8@1+ (1,0) [0|255] \"\" Vector__XXX
    SG_ Signal_1 : 0|8@1+ (1,0) [0|0] \"\" Vector__XXX

EV_ Environment1: 0 [0|220] \"\" 0 6 DUMMY_NODE_VECTOR0 DUMMY_NODE_VECTOR2;
EV_ Environment2: 0 [0|177] \"\" 0 7 DUMMY_NODE_VECTOR1 DUMMY_NODE_VECTOR2;
ENVVAR_DATA_ SomeEnvVarData: 399;

CM_ SG_ 4 TestSigLittleUnsigned1 \"asaklfjlsdfjlsdfgls
HH?=(%)/&KKDKFSDKFKDFKSDFKSDFNKCnvsdcvsvxkcv\";
CM_ SG_ 5 TestSigLittleUnsigned1 \"asaklfjlsdfjlsdfgls
=0943503450KFSDKFKDFKSDFKSDFNKCnvsdcvsvxkcv\";

BA_DEF_DEF_ \"BusType\" \"AS\";

BA_ \"Attr\" BO_ 4358435 283;
BA_ \"Attr\" BO_ 56949545 344;
"
}

#[test]
fn sample_version_and_symbols() {
    let dbc = DBC::from_slice(sample()).unwrap();
    assert_eq!(format!("{:?}", dbc.version()), "Version(\"0.1\")");
    assert_eq!(dbc.new_symbols().len(), 28);
    assert_eq!(format!("{:?}", dbc.new_symbols()[0]), "Symbol(\"NS_DESC_\")");
    assert_eq!(format!("{:?}", dbc.new_symbols()[27]), "Symbol(\"SG_MUL_VAL_\")");
    assert_eq!(dbc.bit_timing(), &Some(vec![]));
    assert_eq!(dbc.nodes().len(), 1);
    assert_eq!(format!("{:?}", dbc.nodes()[0]), "Node([\"PC\"])");
}

#[test]
fn sample_messages() {
    let dbc = DBC::from_slice(sample()).unwrap();
    let messages = dbc.messages();
    assert_eq!(messages.len(), 2);
    assert_eq!(messages[0].message_id(), &MessageId(2000));
    assert_eq!(messages[0].message_name(), "WebData_2000");
    assert_eq!(*messages[0].message_size(), 4);
    assert_eq!(messages[0].transmitter(), &Transmitter::VectorXXX);
    assert_eq!(messages[1].message_id(), &MessageId(1840));
    assert_eq!(messages[1].transmitter(), &Transmitter::NodeName("PC".to_string()));
    assert_eq!(messages[0].signals().len(), 4);
    assert_eq!(messages[1].signals().len(), 4);
    let s = &messages[0].signals()[0];
    assert_eq!(s.name(), "Signal_8");
    assert_eq!(s.multiplexer_indicator(), &MultiplexIndicator::Plain);
    assert_eq!(s.start_bit, 24);
    assert_eq!(s.signal_size, 8);
    assert_eq!(s.byte_order(), &ByteOrder::LittleEndian);
    assert_eq!(s.value_type(), &ValueType::Unsigned);
    assert_eq!(s.factor(), "1");
    assert_eq!(s.offset(), "0");
    assert_eq!(s.min(), "0");
    assert_eq!(s.max(), "255");
    assert_eq!(s.unit(), "");
    assert_eq!(s.receivers(), &vec!["Vector__XXX".to_string()]);
    let last = &messages[1].signals()[3];
    assert_eq!(last.name(), "Signal_1");
    assert_eq!(last.max(), "0");
}

#[test]
fn sample_environment_variables() {
    let dbc = DBC::from_slice(sample()).unwrap();
    let evs = dbc.environment_variables();
    assert_eq!(evs.len(), 2);
    assert_eq!(evs[0].env_var_name(), "Environment1");
    assert_eq!(evs[0].env_var_type(), &EnvType::EnvTypeFloat);
    assert_eq!(*evs[0].min(), 0);
    assert_eq!(*evs[0].max(), 220);
    assert_eq!(evs[0].unit(), "");
    assert_eq!(evs[0].initial_value(), "0");
    assert_eq!(*evs[0].ev_id(), 6);
    assert_eq!(evs[0].access_type(), &AccessType::DummyNodeVector0);
    assert_eq!(
        evs[0].access_nodes(),
        &vec![AccessNode::AccessNodeName("DUMMY_NODE_VECTOR2".to_string())]
    );
    assert_eq!(*evs[1].max(), 177);
    assert_eq!(*evs[1].ev_id(), 7);
    let data = dbc.environment_variable_data();
    assert_eq!(data.len(), 1);
    assert_eq!(data[0].env_var_name(), "SomeEnvVarData");
    assert_eq!(*data[0].data_size(), 399);
}

#[test]
fn sample_comments_and_attributes() {
    let dbc = DBC::from_slice(sample()).unwrap();
    let comments = dbc.comments();
    assert_eq!(comments.len(), 2);
    assert_eq!(
        comments[0],
        Comment::Signal {
            message_id: MessageId(4),
            signal_name: "TestSigLittleUnsigned1".to_string(),
            comment: "asaklfjlsdfjlsdfgls\nHH?=(%)/&KKDKFSDKFKDFKSDFKSDFNKCnvsdcvsvxkcv".to_string(),
        }
    );
    assert_eq!(
        dbc.signal_comment(&MessageId(5), "TestSigLittleUnsigned1"),
        Some("asaklfjlsdfjlsdfgls\n=0943503450KFSDKFKDFKSDFKSDFNKCnvsdcvsvxkcv")
    );
    assert_eq!(dbc.signal_comment(&MessageId(6), "TestSigLittleUnsigned1"), None);
    assert_eq!(dbc.message_comment(&MessageId(4)), None);
    assert_eq!(dbc.attribute_defaults().len(), 1);
    assert_eq!(dbc.attribute_defaults()[0].attribute_name(), "BusType");
    assert_eq!(
        dbc.attribute_defaults()[0].attribute_value(),
        &AttributeValue::AttributeValueCharString("AS".to_string())
    );
    let values = dbc.attribute_values();
    assert_eq!(values.len(), 2);
    assert_eq!(values[0].attribute_name(), "Attr");
    assert_eq!(
        values[0].attribute_value(),
        &AttributeValuedForObjectType::MessageDefinitionAttributeValue(
            MessageId(4358435),
            Some(AttributeValue::AttributeValueU64(283))
        )
    );
    assert_eq!(
        values[1].attribute_value(),
        &AttributeValuedForObjectType::MessageDefinitionAttributeValue(
            MessageId(56949545),
            Some(AttributeValue::AttributeValueU64(344))
        )
    );
    assert!(dbc.value_tables().is_empty());
    assert!(dbc.message_transmitters().is_empty());
    assert!(dbc.signal_types().is_empty());
    assert!(dbc.attribute_definitions().is_empty());
    assert!(dbc.value_descriptions().is_empty());
    assert!(dbc.signal_type_refs().is_empty());
    assert!(dbc.signal_groups().is_empty());
    assert!(dbc.signal_extended_value_type_list().is_none());
}
