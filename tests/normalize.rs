use sql_gateway::{normalize_cell, normalize_row, CellProbe, Scalar};

fn probe() -> CellProbe {
    CellProbe { present: true, text: None, integer: None, float_bits: None, boolean: None, bytes: None }
}

#[test]
fn ladder_prefers_text_then_integer_then_float_then_bool() {
    let mut p = probe();
    p.text = Some("x".to_string());
    p.integer = Some(4);
    assert_eq!(normalize_cell(&p), Scalar::Text("x".to_string()));
    p.text = None;
    assert_eq!(normalize_cell(&p), Scalar::Integer(4));
    p.integer = None;
    p.float_bits = Some(2.5f64.to_bits());
    p.boolean = Some(true);
    assert_eq!(normalize_cell(&p), Scalar::Float(2.5f64.to_bits()));
    p.float_bits = None;
    assert_eq!(normalize_cell(&p), Scalar::Boolean(true));
}

#[test]
fn ladder_decodes_bytes_as_text() {
    let mut p = probe();
    p.bytes = Some(b"2024-01-02 03:04:05".to_vec());
    assert_eq!(normalize_cell(&p), Scalar::Text("2024-01-02 03:04:05".to_string()));
    p.bytes = Some(vec![0x61, 0xff, 0x62]);
    assert_eq!(normalize_cell(&p), Scalar::Text("a\u{fffd}b".to_string()));
}

#[test]
fn unreadable_cells_are_null() {
    assert_eq!(normalize_cell(&probe()), Scalar::Null);
    let mut p = probe();
    p.present = false;
    p.text = Some("ignored".to_string());
    assert_eq!(normalize_cell(&p), Scalar::Null);
}

#[test]
fn rows_keep_column_order_and_names() {
    let mut a = probe();
    a.integer = Some(1);
    let mut b = probe();
    b.text = Some("a".to_string());
    let row = normalize_row(&vec![("id".to_string(), a), ("Name".to_string(), b), ("z".to_string(), probe())]);
    assert_eq!(
        row,
        vec![
            ("id".to_string(), Scalar::Integer(1)),
            ("Name".to_string(), Scalar::Text("a".to_string())),
            ("z".to_string(), Scalar::Null),
        ]
    );
}
