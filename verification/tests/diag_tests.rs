use webhook2amqp::diag::{i64_text, render_diag, render_line, DiagValue};

#[test]
fn renders_small_numbers() {
    assert_eq!(i64_text(0), "0");
    assert_eq!(i64_text(7), "7");
    assert_eq!(i64_text(10), "10");
    assert_eq!(i64_text(409), "409");
}

#[test]
fn renders_negative_numbers() {
    assert_eq!(i64_text(-1), "-1");
    assert_eq!(i64_text(-120), "-120");
}

#[test]
fn renders_extreme_numbers() {
    assert_eq!(i64_text(i64::MAX), "9223372036854775807");
    assert_eq!(i64_text(i64::MIN), "-9223372036854775808");
}

#[test]
fn number_rendering_agrees_with_std() {
    for n in [0i64, 1, -1, 42, -42, 1000000, i64::MAX, i64::MIN, i64::MIN + 1] {
        assert_eq!(i64_text(n), format!("{}", n));
    }
}

#[test]
fn renders_each_category() {
    assert_eq!(render_diag(&DiagValue::Nil), "nil");
    assert_eq!(render_diag(&DiagValue::Boolean(true)), "true");
    assert_eq!(render_diag(&DiagValue::Boolean(false)), "false");
    assert_eq!(render_diag(&DiagValue::Integer(42)), "42");
    assert_eq!(render_diag(&DiagValue::Number(String::from("0.5"))), "0.5");
    assert_eq!(render_diag(&DiagValue::Text(String::from("hi"))), "hi");
    assert_eq!(render_diag(&DiagValue::Table(String::from("0x1"))), "(table: 0x1)");
    assert_eq!(render_diag(&DiagValue::Callable(String::from("f"))), "(function: f)");
    assert_eq!(render_diag(&DiagValue::LightUserData), "(LightUserData)");
    assert_eq!(render_diag(&DiagValue::Thread), "(Thread)");
    assert_eq!(render_diag(&DiagValue::UserData), "(UserData)");
    assert_eq!(render_diag(&DiagValue::Error(String::from("e"))), "(error: e)");
    assert_eq!(render_diag(&DiagValue::Opaque), "(unknown)");
}

#[test]
fn joins_tokens_with_spaces() {
    let vs = vec![
        DiagValue::Integer(1),
        DiagValue::Text(String::from("a")),
        DiagValue::Boolean(true),
        DiagValue::Nil,
    ];
    assert_eq!(render_line(&vs), "1 a true nil");
}

#[test]
fn renders_empty_and_single_lines() {
    assert_eq!(render_line(&Vec::new()), "");
    assert_eq!(render_line(&vec![DiagValue::Text(String::from("only"))]), "only");
}
