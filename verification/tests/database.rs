use rayexec_execution::database::catalog::{MemoryCatalog, MemorySchema};
use rayexec_execution::database::entry::{CatalogEntry, CatalogEntryInner, CopyToFunctionEntry};
use rayexec_execution::database::DatabaseContext;
use rayexec_execution::functions::copy::CopyToFunction;
use rayexec_execution::logical::resolver::resolved_copy_to::ResolvedCopyTo;
use rayexec_execution::proto::resolver::ResolvedCopyToMessage;
use rayexec_execution::proto::DatabaseProtoConv;

#[test]
fn new_with_temp_has_system_and_temp() {
    let context = DatabaseContext::new_with_temp();
    assert!(context.catalog_exists("system"));
    assert!(context.catalog_exists("temp"));
    assert!(!context.catalog_exists("other"));
    assert!(context.system_catalog().unwrap().read_only);
    let temp = context.get_catalog("temp").unwrap();
    assert!(!temp.read_only);
    assert_eq!(temp.schemas.len(), 1);
    assert_eq!(temp.schemas[0].name, "temp");

    let context = DatabaseContext::default();
    assert!(context.catalog_exists("system"));
    assert!(context.catalog_exists("temp"));
}

#[test]
fn attach_duplicate_catalog() {
    let mut context = DatabaseContext::new_with_temp();
    context.attach_catalog("x".to_string(), MemoryCatalog::new_with_schema("a")).unwrap();
    assert!(context.catalog_exists("x"));

    let err = context
        .attach_catalog("x".to_string(), MemoryCatalog::new_with_schema("b"))
        .unwrap_err();
    assert_eq!(err.to_string(), "Catalog with name 'x' already attached");
    // The first catalog stays.
    assert_eq!(context.get_catalog("x").unwrap().schemas[0].name, "a");

    context.detach_catalog("x").unwrap();
    assert!(!context.catalog_exists("x"));
    context.attach_catalog("x".to_string(), MemoryCatalog::new_with_schema("b")).unwrap();
    assert_eq!(context.get_catalog("x").unwrap().schemas[0].name, "b");
    // Other catalogs are untouched.
    assert!(context.catalog_exists("system"));
    assert!(context.catalog_exists("temp"));
}

#[test]
fn detach_and_lookup_of_missing_catalog_fail() {
    let mut context = DatabaseContext::new_with_temp();
    let err = context.detach_catalog("nope").unwrap_err();
    assert_eq!(err.to_string(), "Catalog with name 'nope' doesn't exist");
    let err = context.get_catalog("nope").unwrap_err();
    assert_eq!(err.to_string(), "Missing catalog 'nope'");

    context.detach_catalog("system").unwrap();
    let err = context.system_catalog().unwrap_err();
    assert_eq!(err.to_string(), "Missing system catalog");
}

fn system_with_copy_function(name: &str) -> MemoryCatalog {
    MemoryCatalog {
        read_only: true,
        schemas: vec![MemorySchema {
            name: "glare_catalog".to_string(),
            entries: vec![CatalogEntry {
                name: name.to_string(),
                entry: CatalogEntryInner::CopyToFunction(CopyToFunctionEntry {
                    format: "parquet".to_string(),
                }),
            }],
        }],
    }
}

#[test]
fn catalog_lookup_finds_entries_by_schema_and_name() {
    let catalog = system_with_copy_function("parquet_copy_to");
    assert_eq!(
        catalog.get_entry("glare_catalog", "parquet_copy_to").unwrap().name,
        "parquet_copy_to"
    );
    assert!(catalog.get_entry("glare_catalog", "csv_copy_to").is_none());
    assert!(catalog.get_entry("other", "parquet_copy_to").is_none());
}

#[test]
fn roundtrip_resolved_copy_to() {
    let context = DatabaseContext::new(system_with_copy_function("parquet_copy_to"));
    let resolved = ResolvedCopyTo { func: CopyToFunction { name: "parquet_copy_to".to_string() } };
    let proto = resolved.to_proto_ctx(&context).unwrap();
    assert_eq!(proto.func.as_ref().unwrap().name, "parquet_copy_to");
    let got = ResolvedCopyTo::from_proto_ctx(proto, &context).unwrap();
    assert_eq!(resolved, got);
}

#[test]
fn resolved_copy_to_needs_a_registered_function() {
    let context = DatabaseContext::new_with_temp();
    let resolved = ResolvedCopyTo { func: CopyToFunction { name: "csv_copy_to".to_string() } };
    let proto = resolved.to_proto_ctx(&context).unwrap();
    let err = ResolvedCopyTo::from_proto_ctx(proto, &context).unwrap_err();
    assert_eq!(err.to_string(), "Missing copy to function: csv_copy_to");

    let err = ResolvedCopyTo::from_proto_ctx(ResolvedCopyToMessage { func: None }, &context)
        .unwrap_err();
    assert_eq!(err.to_string(), "func");
}
