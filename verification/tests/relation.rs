use expr::datum::Datum;
use expr::plan::Params;
use expr::relation::{NotNullViolation, RelationDesc, RelationType, UnionError};
use expr::scalar_type::{ColumnName, ColumnType, ScalarType};
use expr::session::EndTransactionAction;

fn name(s: &str) -> ColumnName {
    ColumnName::new(s.to_string())
}

fn desc() -> RelationDesc {
    RelationDesc::empty()
        .with_named_column(name("id"), ScalarType::Int64.nullable(false))
        .with_named_column(name("price"), ScalarType::Int32.nullable(true))
        .with_key(vec![0])
}

#[test]
fn a_description_of_columns() {
    let d = desc();
    assert_eq!(d.arity(), 2);
    assert_eq!(d.typ().arity(), 2);
    assert_eq!(d.typ().keys, vec![vec![0]]);
    assert_eq!(d.get_name(0), Some(&name("id")));
    assert_eq!(d.get_name(1).map(|n| n.as_str()), Some("price"));
    assert_eq!(d.get_by_name(&name("price")), Some((1, &ScalarType::Int32.nullable(true))));
    assert_eq!(d.get_by_name(&name("nothing")), None);
    let names: Vec<Option<&str>> = d.iter_names().into_iter().map(|n| n.map(|n| n.as_str())).collect();
    assert_eq!(names, vec![Some("id"), Some("price")]);
    let types: Vec<bool> = d.iter_types().into_iter().map(|t| t.nullable).collect();
    assert_eq!(types, vec![false, true]);
    assert_eq!(d.iter().len(), 2);
}

#[test]
fn a_null_where_none_may_stand() {
    let d = desc();
    assert_eq!(d.constraints_met(0, &Datum::Int64(1)), Ok(()));
    assert_eq!(d.constraints_met(0, &Datum::Null), Err(NotNullViolation(Some(name("id")))));
    assert_eq!(d.constraints_met(1, &Datum::Null), Ok(()));
}

#[test]
fn a_name_that_two_columns_have() {
    let d = desc().with_named_column(name("id"), ScalarType::String.nullable(true));
    assert_eq!(d.get_unambiguous_name(1), Some(&name("price")));
    assert_eq!(d.get_unambiguous_name(0), None);
    assert_eq!(d.get_unambiguous_name(2), None);
    assert_eq!(d.get_by_name(&name("id")).map(|(i, _)| i), Some(0));
}

#[test]
fn two_descriptions_side_by_side() {
    let both = desc().concat(desc());
    assert_eq!(both.arity(), 4);
    assert_eq!(both.typ().keys, vec![vec![0], vec![2]]);
    assert_eq!(both.get_name(3), Some(&name("price")));
    assert_eq!(desc().without_keys().typ().keys, Vec::<Vec<usize>>::new());
}

#[test]
fn keys_of_a_relation() {
    let t = RelationType::new(vec![ScalarType::Int32.nullable(false), ScalarType::Int32.nullable(false)]);
    assert_eq!(t.default_key(), vec![0, 1]);
    let keyed = t.with_key(vec![1, 0]).with_key(vec![0, 1]);
    assert_eq!(keyed.keys, vec![vec![0, 1]]);
    assert_eq!(keyed.default_key(), vec![0, 1]);
    let two = keyed.with_keys(vec![vec![1], vec![1]]);
    assert_eq!(two.keys, vec![vec![0, 1], vec![1]]);
    assert_eq!(two.default_key(), vec![0, 1]);
    assert_eq!(RelationType::empty().arity(), 0);
    assert_eq!(RelationType::empty().default_key(), Vec::<usize>::new());
}

#[test]
fn the_union_of_two_column_types() {
    let a: ColumnType = ScalarType::Int32.nullable(false);
    let b: ColumnType = ScalarType::Int32.nullable(true);
    assert_eq!(a.union(&b), Ok(ScalarType::Int32.nullable(true)));
    assert_eq!(a.union(&a), Ok(ScalarType::Int32.nullable(false)));
    let c: ColumnType = ScalarType::String.nullable(false);
    assert_eq!(a.union(&c), Err(UnionError));
    let n2 = (ScalarType::Numeric { scale: Some(2) }).nullable(false);
    let n4 = (ScalarType::Numeric { scale: Some(4) }).nullable(false);
    assert_eq!(n2.union(&n4), Ok((ScalarType::Numeric { scale: Some(2) }).nullable(false)));
}

#[test]
fn names_can_be_changed_in_place() {
    let mut n = name("a");
    n.as_mut_str().push('b');
    assert_eq!(n.as_str(), "ab");
}

#[test]
fn tags_and_parameters() {
    assert_eq!(EndTransactionAction::Commit.tag(), "COMMIT");
    assert_eq!(EndTransactionAction::Rollback.tag(), "ROLLBACK");
    let p = Params::empty();
    assert_eq!(p.datums.unpack(), Vec::<Datum>::new());
    assert!(p.types.is_empty());
}
