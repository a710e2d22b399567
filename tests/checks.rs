use arrow_schema::DataType;

use lance_gateway::ipc::{ColumnAlterationInput, FieldDataType, OptimizeActionV1, UpdateColumnInputV1};
use lance_gateway::validate::{build_column_alteration, check_index_name, check_updates, plan_optimize, OptimizePlan};

fn alteration(path: &str, rename: Option<&str>, nullable: Option<bool>, data_type: Option<FieldDataType>) -> ColumnAlterationInput {
    ColumnAlterationInput { path: path.to_string(), rename: rename.map(|s| s.to_string()), nullable, data_type, vector_length: None }
}

#[test]
fn index_names_are_checked() {
    assert_eq!(check_index_name(&None), Ok(None));
    assert_eq!(check_index_name(&Some("  ".to_string())), Err("index name cannot be empty".to_string()));
    assert_eq!(check_index_name(&Some(" id_btree ".to_string())), Ok(Some("id_btree".to_string())));
}

#[test]
fn column_alterations_are_checked() {
    let e = build_column_alteration(&alteration(" ", Some("x"), None, None)).err();
    assert_eq!(e, Some("column path cannot be empty".to_string()));
    let e = build_column_alteration(&alteration("notes", Some("  "), None, None)).err();
    assert_eq!(e, Some("column alteration must specify rename, nullable, or data_type".to_string()));
    let mut vector = alteration("v", None, None, Some(FieldDataType::FixedSizeListFloat32));
    vector.vector_length = Some(0);
    assert_eq!(build_column_alteration(&vector).err(), Some("vector_length must be greater than 0".to_string()));

    let p = build_column_alteration(&alteration(" notes ", Some(" notes_text "), Some(true), None)).ok().unwrap();
    assert_eq!(p.path, "notes");
    assert_eq!(p.rename.as_deref(), Some("notes_text"));
    assert_eq!(p.nullable, Some(true));
    assert!(p.cast_to.is_none());
    let p = build_column_alteration(&alteration("id", None, None, Some(FieldDataType::Int64))).ok().unwrap();
    assert_eq!(p.cast_to, Some(DataType::Int64));
}

fn update(column: &str, expr: &str) -> UpdateColumnInputV1 {
    UpdateColumnInputV1 { column: column.to_string(), expr: expr.to_string() }
}

#[test]
fn updates_are_checked() {
    assert_eq!(check_updates(&vec![]), Err("no updates specified".to_string()));
    assert_eq!(check_updates(&vec![update("text", "'new'"), update(" ", "1")]), Err("update column and expression cannot be empty".to_string()));
    assert_eq!(
        check_updates(&vec![update(" text ", " 'updated' ")]),
        Ok(vec![("text".to_string(), "'updated'".to_string())])
    );
}

#[test]
fn maintenance_parameters_are_checked() {
    assert_eq!(plan_optimize(OptimizeActionV1::Compact, Some(0), None).err(), Some("target_rows_per_fragment must be greater than 0".to_string()));
    assert!(matches!(plan_optimize(OptimizeActionV1::Compact, Some(1000), None), Ok(OptimizePlan::Compact { target_rows_per_fragment: Some(1000) })));
    assert!(matches!(plan_optimize(OptimizeActionV1::Compact, None, Some(3)), Ok(OptimizePlan::Compact { target_rows_per_fragment: None })));
    assert_eq!(plan_optimize(OptimizeActionV1::Vacuum, None, Some(u64::MAX)).err(), Some("older_than_days is too large".to_string()));
    assert!(matches!(plan_optimize(OptimizeActionV1::Vacuum, None, Some(7)), Ok(OptimizePlan::Vacuum { older_than_days: Some(7) })));
    assert!(matches!(plan_optimize(OptimizeActionV1::Vacuum, Some(0), None), Ok(OptimizePlan::Vacuum { older_than_days: None })));
}
