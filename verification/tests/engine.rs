use calc_engine::{CalcApp, CalcError, Op};

/// The arithmetic the host performs on its own numeric type.
fn apply(op: Op, a: f64, b: f64) -> f64 {
    match op {
        Op::Add => a + b,
        Op::Sub => a - b,
        Op::Mul => a * b,
        Op::Div => a / b,
        Op::Mod => a % b,
    }
}

/// The commit value the host computes for the engine's current state: the
/// pending operation applied to the result and the parsed buffer when both
/// are set, else the parsed buffer itself; `None` when the buffer is empty
/// or does not parse.
fn host_value(c: &CalcApp) -> Option<u64> {
    let text = c.current_display_text();
    if text.is_empty() {
        return None;
    }
    let parsed: f64 = match text.parse() {
        Ok(v) => v,
        Err(_) => return None,
    };
    let v = match (c.result, c.op) {
        (Some(acc), Some(op)) => apply(op, f64::from_bits(acc), parsed),
        _ => parsed,
    };
    Some(v.to_bits())
}

fn press_equals(c: &mut CalcApp) -> Result<(), CalcError> {
    let v = host_value(c);
    c.evaluate(v)
}

fn press_operator(c: &mut CalcApp, op: Op) -> Result<(), CalcError> {
    let v = host_value(c);
    c.do_op(op, v)
}

fn press_digits(c: &mut CalcApp, digits: &str) {
    for d in digits.chars() {
        c.add_digit(d);
    }
}

fn result_f64(c: &CalcApp) -> f64 {
    f64::from_bits(c.result.expect("a result should be set"))
}

#[test]
fn default_state_is_all_unset() {
    let c = CalcApp::default();
    assert_eq!(c.result, None);
    assert_eq!(c.op, None);
    assert_eq!(c.current_display_text(), "");
}

#[test]
fn typed_digits_display_exactly() {
    let mut c = CalcApp::default();
    press_digits(&mut c, "123");
    assert_eq!(c.current_display_text(), "123");
    assert_eq!(c.result, None);
    assert_eq!(c.op, None);
}

#[test]
fn buffer_length_is_capped() {
    let mut c = CalcApp::default();
    press_digits(&mut c, "1234567890123");
    assert_eq!(c.current_display_text(), "12345678901");
}

#[test]
fn chain_resolves_left_to_right() {
    let mut c = CalcApp::default();
    press_digits(&mut c, "2");
    press_operator(&mut c, Op::Add).unwrap();
    press_digits(&mut c, "3");
    press_operator(&mut c, Op::Mul).unwrap();
    press_digits(&mut c, "4");
    press_equals(&mut c).unwrap();
    assert_eq!(result_f64(&c), 20.0);
}

#[test]
fn equals_twice_keeps_result() {
    let mut c = CalcApp::default();
    press_digits(&mut c, "2");
    press_operator(&mut c, Op::Add).unwrap();
    press_digits(&mut c, "3");
    press_equals(&mut c).unwrap();
    assert_eq!(result_f64(&c), 5.0);
    press_equals(&mut c).unwrap();
    assert_eq!(result_f64(&c), 5.0);
    assert_eq!(c.op, None);
    assert_eq!(c.current_display_text(), "");
}

#[test]
fn toggle_sign_is_its_own_inverse() {
    let mut c = CalcApp::default();
    press_digits(&mut c, "12");
    c.negate();
    assert_eq!(c.current_display_text(), "-12");
    c.negate();
    assert_eq!(c.current_display_text(), "12");
}

#[test]
fn toggle_sign_on_empty_buffer() {
    let mut c = CalcApp::default();
    c.negate();
    assert_eq!(c.current_display_text(), "-");
    c.negate();
    assert_eq!(c.current_display_text(), "");
}

#[test]
fn clear_entry_preserves_result_and_operator() {
    let mut c = CalcApp::default();
    press_digits(&mut c, "2");
    press_operator(&mut c, Op::Add).unwrap();
    press_digits(&mut c, "3");
    c.clear_entry();
    assert_eq!(c.result, Some(2.0f64.to_bits()));
    assert_eq!(c.op, Some(Op::Add));
    assert_eq!(c.current_display_text(), "");
}

#[test]
fn clear_all_resets_everything() {
    let mut c = CalcApp::default();
    press_digits(&mut c, "2");
    press_operator(&mut c, Op::Add).unwrap();
    press_digits(&mut c, "3");
    c.clear_all();
    assert_eq!(c.result, None);
    assert_eq!(c.op, None);
    assert_eq!(c.current_display_text(), "");
}

#[test]
fn division_by_zero_is_non_finite() {
    let mut c = CalcApp::default();
    press_digits(&mut c, "5");
    press_operator(&mut c, Op::Div).unwrap();
    press_digits(&mut c, "0");
    press_equals(&mut c).unwrap();
    assert!(result_f64(&c).is_infinite());
}

#[test]
fn decimal_point_twice_yields_single_point() {
    let mut c = CalcApp::default();
    c.add_point();
    c.add_point();
    assert_eq!(c.current_display_text(), ".");
}

#[test]
fn seven_divided_by_two() {
    let mut c = CalcApp::default();
    c.add_digit('7');
    press_operator(&mut c, Op::Div).unwrap();
    c.add_digit('2');
    press_equals(&mut c).unwrap();
    assert_eq!(result_f64(&c), 3.5);
    assert_eq!(c.current_display_text(), "");
    assert_eq!(c.op, None);
}

#[test]
fn addition() {
    let mut c = CalcApp::default();
    press_digits(&mut c, "2");
    press_operator(&mut c, Op::Add).unwrap();
    press_digits(&mut c, "3");
    press_equals(&mut c).unwrap();
    assert_eq!(result_f64(&c), 5.0);
}

#[test]
fn subtraction() {
    let mut c = CalcApp::default();
    press_digits(&mut c, "9");
    press_operator(&mut c, Op::Sub).unwrap();
    press_digits(&mut c, "4");
    press_equals(&mut c).unwrap();
    assert_eq!(result_f64(&c), 5.0);
}

#[test]
fn multiplication() {
    let mut c = CalcApp::default();
    press_digits(&mut c, "6");
    press_operator(&mut c, Op::Mul).unwrap();
    press_digits(&mut c, "7");
    press_equals(&mut c).unwrap();
    assert_eq!(result_f64(&c), 42.0);
}

#[test]
fn remainder_sign_follows_dividend() {
    let mut c = CalcApp::default();
    press_digits(&mut c, "7");
    press_operator(&mut c, Op::Mod).unwrap();
    press_digits(&mut c, "3");
    press_equals(&mut c).unwrap();
    assert_eq!(result_f64(&c), 1.0);

    let mut c = CalcApp::default();
    press_digits(&mut c, "7");
    c.negate();
    press_operator(&mut c, Op::Mod).unwrap();
    press_digits(&mut c, "3");
    press_equals(&mut c).unwrap();
    assert_eq!(result_f64(&c), -1.0);
}

#[test]
fn decimal_entry_parses() {
    let mut c = CalcApp::default();
    c.add_digit('3');
    c.add_point();
    c.add_digit('5');
    assert_eq!(c.current_display_text(), "3.5");
    press_operator(&mut c, Op::Add).unwrap();
    c.add_digit('1');
    press_equals(&mut c).unwrap();
    assert_eq!(result_f64(&c), 4.5);
}

#[test]
fn operator_before_any_number_is_dropped() {
    let mut c = CalcApp::default();
    press_operator(&mut c, Op::Add).unwrap();
    assert_eq!(c.result, None);
    assert_eq!(c.op, None);
}

#[test]
fn digit_press_displaces_finished_result() {
    let mut c = CalcApp::default();
    press_digits(&mut c, "2");
    press_operator(&mut c, Op::Add).unwrap();
    press_digits(&mut c, "3");
    press_equals(&mut c).unwrap();
    c.add_digit('9');
    assert_eq!(c.result, None);
    assert_eq!(c.current_display_text(), "9");
}

#[test]
fn fault_unparseable_buffer() {
    let mut c = CalcApp {
        result: None,
        op: None,
        current: vec!['x'],
    };
    assert_eq!(press_equals(&mut c), Err(CalcError::BufferNotNumeric));
    assert_eq!(c.result, None);
    assert_eq!(c.op, None);
    assert_eq!(c.current_display_text(), "x");
}

#[test]
fn fault_operator_without_operand() {
    let mut c = CalcApp {
        result: None,
        op: Some(Op::Add),
        current: vec!['5'],
    };
    assert_eq!(press_equals(&mut c), Err(CalcError::OperatorWithoutOperand));
    assert_eq!(c.result, None);
    assert_eq!(c.op, Some(Op::Add));
    assert_eq!(c.current_display_text(), "5");
}

#[test]
fn fault_missing_operator() {
    let mut c = CalcApp {
        result: Some(2.0f64.to_bits()),
        op: None,
        current: vec!['5'],
    };
    assert_eq!(press_equals(&mut c), Err(CalcError::MissingOperator));
    assert_eq!(c.result, Some(2.0f64.to_bits()));
    assert_eq!(c.op, None);
    assert_eq!(c.current_display_text(), "5");
}

#[test]
fn operator_symbols() {
    assert_eq!(Op::Add.to_string(), "+");
    assert_eq!(Op::Sub.to_string(), "-");
    assert_eq!(Op::Mul.to_string(), "*");
    assert_eq!(Op::Div.to_string(), "/");
    assert_eq!(Op::Mod.to_string(), "%");
}

#[test]
fn accumulator_line_shows_result_and_operator() {
    let mut c = CalcApp::default();
    press_digits(&mut c, "20");
    press_operator(&mut c, Op::Add).unwrap();
    let rendered = c
        .result
        .map(|b| {
            let v = f64::from_bits(b);
            format!("{v}")
        })
        .unwrap_or_default();
    assert_eq!(c.accumulator_display_text(&rendered), "20 +");

    let c = CalcApp::default();
    assert_eq!(c.accumulator_display_text(""), " ");
}
