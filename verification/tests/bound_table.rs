use rayexec_execution::ast::ObjectReference;
use rayexec_execution::database::entry::{CatalogEntry, CatalogEntryInner, TableEntry};
use rayexec_execution::database::{AttachInfo, AttachOption, DatabaseContext};
use rayexec_execution::datatype::{DataType, Field};
use rayexec_execution::logical::binder::bound_table::{
    BoundTableOrCteReference, CteIndex, UnboundTableReference,
};
use rayexec_execution::proto::binder::{
    BoundCteReferenceMessage, BoundTableOrCteReferenceMessage, BoundTableOrCteReferenceValue,
    BoundTableReferenceMessage, UnboundTableReferenceMessage,
};
use rayexec_execution::proto::catalog::{AttachInfoMessage, AttachOptionMessage};
use rayexec_execution::proto::{DatabaseProtoConv, ProtoConv};
use rayexec_execution::scalar::{OwnedScalarValue, ScalarValue};
use std::sync::Arc;

#[test]
fn roundtrip_unbound_table_reference() {
    let reference = UnboundTableReference {
        reference: ObjectReference::from_strings(vec!["my".to_string(), "table".to_string()]),
        catalog: "catalog".to_string(),
        attach_info: Some(
            AttachInfo::try_new(
                "snowbricks".to_string(),
                vec![AttachOption {
                    key: "key".to_string(),
                    value: OwnedScalarValue::Float32(3.5f32.to_bits()),
                }],
            )
            .unwrap(),
        ),
    };

    let proto = reference.to_proto().unwrap();
    let got = UnboundTableReference::from_proto(proto).unwrap();
    assert_eq!(reference, got);
}

#[test]
fn unbound_reference_message_fields() {
    let reference = UnboundTableReference {
        reference: ObjectReference::from_strings(vec!["t".to_string()]),
        catalog: "c".to_string(),
        attach_info: None,
    };
    let proto = reference.to_proto().unwrap();
    assert_eq!(proto.catalog, "c");
    assert_eq!(proto.attach_info, None);
    let idents = proto.reference.as_ref().unwrap();
    assert_eq!(idents.idents.len(), 1);
    assert_eq!(idents.idents[0].value, "t");
    assert!(!idents.idents[0].quoted);
    assert_eq!(UnboundTableReference::from_proto(proto).unwrap(), reference);
}

#[test]
fn unbound_reference_missing_fields() {
    let err = UnboundTableReference::from_proto(UnboundTableReferenceMessage {
        reference: None,
        catalog: "c".to_string(),
        attach_info: None,
    })
    .unwrap_err();
    assert_eq!(err.to_string(), "reference");

    let reference = ObjectReference::from_strings(vec!["t".to_string()]).to_proto().unwrap();
    let err = UnboundTableReference::from_proto(UnboundTableReferenceMessage {
        reference: Some(reference),
        catalog: "c".to_string(),
        attach_info: Some(AttachInfoMessage {
            datasource: "d".to_string(),
            options: vec![AttachOptionMessage { key: "k".to_string(), value: None }],
        }),
    })
    .unwrap_err();
    assert_eq!(err.to_string(), "value");
}

fn table_entry() -> CatalogEntry {
    CatalogEntry {
        name: "people".to_string(),
        entry: CatalogEntryInner::Table(TableEntry {
            columns: vec![
                Field { name: "id".to_string(), datatype: DataType::Int64, nullable: false },
                Field { name: "name".to_string(), datatype: DataType::Utf8, nullable: true },
            ],
        }),
    }
}

#[test]
fn roundtrip_bound_table_reference() {
    let context = DatabaseContext::new_with_temp();
    let reference = BoundTableOrCteReference::Table {
        catalog: "temp".to_string(),
        schema: "temp".to_string(),
        entry: Arc::new(table_entry()),
    };
    let proto = reference.to_proto_ctx(&context).unwrap();
    let got = BoundTableOrCteReference::from_proto_ctx(proto, &context).unwrap();
    assert_eq!(reference, got);
}

#[test]
fn roundtrip_bound_cte_reference() {
    let context = DatabaseContext::new_with_temp();
    let reference = BoundTableOrCteReference::Cte { cte_idx: CteIndex(7) };
    let proto = reference.to_proto_ctx(&context).unwrap();
    assert_eq!(
        proto,
        BoundTableOrCteReferenceMessage {
            value: Some(BoundTableOrCteReferenceValue::Cte(BoundCteReferenceMessage { idx: 7 })),
        }
    );
    let got = BoundTableOrCteReference::from_proto_ctx(proto, &context).unwrap();
    assert_eq!(reference, got);
}

#[test]
fn cte_index_travels_whole() {
    let context = DatabaseContext::new_with_temp();
    for idx in [0usize, 7, u32::MAX as usize, usize::MAX] {
        let reference = BoundTableOrCteReference::Cte { cte_idx: CteIndex(idx) };
        let proto = reference.to_proto_ctx(&context).unwrap();
        assert_eq!(
            proto,
            BoundTableOrCteReferenceMessage {
                value: Some(BoundTableOrCteReferenceValue::Cte(BoundCteReferenceMessage {
                    idx: idx as u64,
                })),
            }
        );
        assert_eq!(BoundTableOrCteReference::from_proto_ctx(proto, &context).unwrap(), reference);
    }
}

#[test]
fn attach_options_are_keyed() {
    let option = |key: &str, value: i32| AttachOption {
        key: key.to_string(),
        value: OwnedScalarValue::Int32(value),
    };
    let info = AttachInfo::try_new("d".to_string(), vec![option("a", 1), option("b", 1)]).unwrap();
    assert_eq!(info.datasource(), "d");
    assert_eq!(info.options().len(), 2);
    let err = AttachInfo::try_new("d".to_string(), vec![option("a", 1), option("a", 2)])
        .unwrap_err();
    assert_eq!(err.to_string(), "Duplicate option key");

    let message = |keys: &[&str]| AttachInfoMessage {
        datasource: "d".to_string(),
        options: keys
            .iter()
            .map(|k| AttachOptionMessage {
                key: k.to_string(),
                value: Some(OwnedScalarValue::Int32(1)),
            })
            .collect(),
    };
    assert_eq!(
        AttachInfo::from_proto(message(&["a", "b"])).unwrap(),
        AttachInfo::try_new("d".to_string(), vec![option("a", 1), option("b", 1)]).unwrap()
    );
    let err = AttachInfo::from_proto(message(&["a", "b", "a"])).unwrap_err();
    assert_eq!(err.to_string(), "Duplicate option key");
}

#[test]
fn bound_reference_missing_fields() {
    let context = DatabaseContext::new_with_temp();
    let err = BoundTableOrCteReference::from_proto_ctx(
        BoundTableOrCteReferenceMessage { value: None },
        &context,
    )
    .unwrap_err();
    assert_eq!(err.to_string(), "value");

    let err = BoundTableOrCteReference::from_proto_ctx(
        BoundTableOrCteReferenceMessage {
            value: Some(BoundTableOrCteReferenceValue::Table(BoundTableReferenceMessage {
                catalog: "c".to_string(),
                schema: "s".to_string(),
                entry: None,
            })),
        },
        &context,
    )
    .unwrap_err();
    assert_eq!(err.to_string(), "entry");
}

#[test]
fn scalar_value_display() {
    assert_eq!(ScalarValue::Null.to_string(), "NULL");
    assert_eq!(ScalarValue::Boolean(true).to_string(), "true");
    assert_eq!(ScalarValue::Int8(-128).to_string(), "-128");
    assert_eq!(ScalarValue::Int128(i128::MIN).to_string(), i128::MIN.to_string());
    assert_eq!(ScalarValue::UInt128(u128::MAX).to_string(), u128::MAX.to_string());
    assert_eq!(ScalarValue::UInt64(0).to_string(), "0");
    assert_eq!(ScalarValue::Utf8("hi".to_string()).to_string(), "hi");
    assert_eq!(
        ScalarValue::Float32(3.5f32.to_bits()).to_string(),
        format!("Float32(bits={})", 3.5f32.to_bits())
    );
}
