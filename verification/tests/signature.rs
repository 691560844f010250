use wasm3::error::Error;
use wasm3::function::{find_import_function, find_named_function, function_at, FunctionSlot, ImportInfo};
use wasm3::signature::{Signature, ValueType};

fn all_types() -> [ValueType; 4] {
    [ValueType::I32, ValueType::I64, ValueType::F32, ValueType::F64]
}

#[test]
fn widths() {
    assert_eq!(ValueType::I32.width(), 4);
    assert_eq!(ValueType::F32.width(), 4);
    assert_eq!(ValueType::I64.width(), 8);
    assert_eq!(ValueType::F64.width(), 8);
}

#[test]
fn a_contract_agrees_with_itself() {
    for a in all_types() {
        for b in all_types() {
            let s = Signature::new(vec![a, b, a], Some(b));
            assert_eq!(s.arity(), 3);
            assert_eq!(s.validate_sig(&Signature::new(vec![a, b, a], Some(b))), Ok(()));
        }
    }
    assert_eq!(Signature::new(vec![], None).validate_sig(&Signature::new(vec![], None)), Ok(()));
}

#[test]
fn no_type_is_widened() {
    for a in all_types() {
        for b in all_types() {
            if a != b {
                let contract = Signature::new(vec![ValueType::I32, a], None);
                let declared = Signature::new(vec![ValueType::I32, b], None);
                assert_eq!(contract.validate_sig(&declared), Err(Error::SignatureMismatch));
                let contract = Signature::new(vec![], Some(a));
                let declared = Signature::new(vec![], Some(b));
                assert_eq!(contract.validate_sig(&declared), Err(Error::SignatureMismatch));
            }
        }
    }
}

#[test]
fn arity_and_return_must_match() {
    let one = Signature::new(vec![ValueType::I32], None);
    let two = Signature::new(vec![ValueType::I32, ValueType::I32], None);
    let ret = Signature::new(vec![ValueType::I32], Some(ValueType::I32));
    assert_eq!(one.validate_sig(&two), Err(Error::SignatureMismatch));
    assert_eq!(two.validate_sig(&one), Err(Error::SignatureMismatch));
    assert_eq!(one.validate_sig(&ret), Err(Error::SignatureMismatch));
    assert_eq!(ret.validate_sig(&one), Err(Error::SignatureMismatch));
}

fn slot(name: &str, import: Option<(&str, &str)>) -> FunctionSlot {
    FunctionSlot::new(
        name.to_string(),
        import.map(|(m, f)| ImportInfo { module: m.to_string(), field: f.to_string() }),
        Signature::new(vec![], None),
    )
}

#[test]
fn lookups_scan_in_table_order() {
    let table = vec![
        slot("a", None),
        slot("b", Some(("env", "x"))),
        slot("a", Some(("env", "y"))),
        slot("", Some(("env", "x"))),
        slot("a", Some(("env2", "x"))),
    ];
    assert_eq!(find_import_function(&table, "env", "x"), Ok(1));
    assert_eq!(find_import_function(&table, "env", "y"), Ok(2));
    assert_eq!(find_import_function(&table, "env2", "x"), Ok(4));
    assert_eq!(find_import_function(&table, "env2", "y"), Err(Error::FunctionNotFound));
    assert_eq!(find_import_function(&table, "en", "x"), Err(Error::FunctionNotFound));
    assert_eq!(find_import_function(&table, "env", "X"), Err(Error::FunctionNotFound));
    assert_eq!(find_named_function(&table, "a"), Ok(0));
    assert_eq!(find_named_function(&table, "b"), Ok(1));
    assert_eq!(find_named_function(&table, ""), Ok(3));
    assert_eq!(find_named_function(&table, "c"), Err(Error::FunctionNotFound));
    assert_eq!(function_at(&table, 0), Ok(0));
    assert_eq!(function_at(&table, 4), Ok(4));
    assert_eq!(function_at(&table, 5), Err(Error::FunctionNotFound));
    assert_eq!(find_import_function(&Vec::new(), "env", "x"), Err(Error::FunctionNotFound));
    assert_eq!(function_at(&Vec::new(), 0), Err(Error::FunctionNotFound));
}
