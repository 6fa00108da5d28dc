use sqlbridge::record::{CellValue, Record};

#[test]
fn fresh_keys_are_appended_in_insertion_order() {
    let mut r = Record::new();
    r.insert("a".to_string(), CellValue::Int(1));
    r.insert("b".to_string(), CellValue::Text("x".to_string()));
    r.insert("c".to_string(), CellValue::Null);
    assert_eq!(
        r.entries,
        vec![
            ("a".to_string(), CellValue::Int(1)),
            ("b".to_string(), CellValue::Text("x".to_string())),
            ("c".to_string(), CellValue::Null),
        ]
    );
}

#[test]
fn duplicate_key_overwrites_in_place() {
    let mut r = Record::new();
    r.insert("a".to_string(), CellValue::Int(1));
    r.insert("b".to_string(), CellValue::Int(2));
    r.insert("a".to_string(), CellValue::Text("later".to_string()));
    assert_eq!(
        r.entries,
        vec![
            ("a".to_string(), CellValue::Text("later".to_string())),
            ("b".to_string(), CellValue::Int(2)),
        ]
    );
}

#[test]
fn float_cells_carry_the_exact_bit_pattern() {
    let mut r = Record::new();
    r.insert("f".to_string(), CellValue::Float(1.5f64.to_bits()));
    match &r.entries[0].1 {
        CellValue::Float(bits) => assert_eq!(f64::from_bits(*bits), 1.5),
        other => panic!("expected a float cell, got {:?}", other),
    }
}
