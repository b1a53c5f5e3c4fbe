use console_fmt::render::{render, render_field};
use console_fmt::value::{Category, Value};

fn sval(s: &str) -> Value {
    Value::new(Category::Str, Some(s.to_string()), Some(format!("\"{}\"", s)))
}

fn nval(s: &str) -> Value {
    Value::new(Category::Number, Some(s.to_string()), Some(s.to_string()))
}

fn bval(s: &str) -> Value {
    Value::new(Category::Boolean, Some(s.to_string()), Some(s.to_string()))
}

fn oval(json: &str) -> Value {
    Value::new(
        Category::Object,
        Some("[object Object]".to_string()),
        Some(json.to_string()),
    )
}

fn aval(json: &str) -> Value {
    Value::new(Category::Array, Some(json.to_string()), Some(json.to_string()))
}

fn display_only(category: Category, s: &str) -> Value {
    Value::new(category, Some(s.to_string()), None)
}

#[test]
fn plain_template_passes_through() {
    let args = vec![sval("hello there"), nval("5"), bval("true")];
    assert_eq!(console_fmt::compose::format("c", &args), "CONTEXT:[c]: hello there 5 true");
}

#[test]
fn empty_args_yield_prefix_alone() {
    let args: Vec<Value> = vec![];
    assert_eq!(console_fmt::compose::format("c", &args), "CONTEXT:[c]: ");
}

#[test]
fn render_int_truncates_and_pads() {
    let v = nval("3.7");
    assert_eq!(render('i', None, &v), "3");
    let w = nval("3");
    assert_eq!(render('i', Some(3), &w), "003");
}

#[test]
fn render_float_pads_and_truncates() {
    assert_eq!(render('f', Some(2), &nval("1.1")), "1.10");
    assert_eq!(render('f', Some(2), &nval("3")), "3.00");
    assert_eq!(render('f', Some(2), &nval("1.567")), "1.56");
}

#[test]
fn zero_precision_float_field_acts_as_int() {
    let v = nval("1.9");
    assert_eq!(render_field("%.0f", &v), "1");
    assert_eq!(render_field("%.0f", &v), render('i', None, &v));
}

#[test]
fn render_d_kind_matches_i_kind() {
    let v = nval("12.34");
    assert_eq!(render('d', None, &v), render('i', None, &v));
    assert_eq!(render('d', Some(4), &v), "0012");
}

#[test]
fn render_s_and_fallback_use_display() {
    let v = sval("abc");
    assert_eq!(render('s', None, &v), "abc");
    let o = oval("{\"a\":1}");
    assert_eq!(render('s', None, &o), "[object Object]");
}

#[test]
fn render_o_uses_structured_for_any_category() {
    let o = oval("{\"a\":1}");
    assert_eq!(render('o', None, &o), "{\"a\":1}");
    assert_eq!(render('O', None, &o), "{\"a\":1}");
    let n = Value::new(Category::Number, Some("7".to_string()), Some("7".to_string()));
    assert_eq!(render('o', None, &n), "7");
}

#[test]
fn failed_coercion_degrades_to_empty() {
    let v = Value::new(Category::Other, None, None);
    assert_eq!(render('s', None, &v), "");
    assert_eq!(render('o', None, &v), "");
    let args = vec![sval("x: %s"), Value::new(Category::Other, None, None)];
    assert_eq!(console_fmt::compose::format("c", &args), "CONTEXT:[c]: x: ");
}

#[test]
fn leftover_args_each_get_one_space() {
    let args = vec![sval("t %s"), sval("a"), nval("1"), oval("{\"b\":2}")];
    assert_eq!(console_fmt::compose::format("c", &args), "CONTEXT:[c]: t a 1 {\"b\":2}");
}

#[test]
fn number_head_is_not_scanned() {
    let args = vec![display_only(Category::Number, "42"), sval("x")];
    assert_eq!(console_fmt::compose::format("c", &args), "CONTEXT:[c]: 42 x");
    let args2 = vec![display_only(Category::Boolean, "true %s"), sval("x")];
    assert_eq!(console_fmt::compose::format("c", &args2), "CONTEXT:[c]: true %s x");
}

#[test]
fn object_head_is_serialized_not_scanned() {
    let head = Value::new(
        Category::Object,
        Some("[object Object]".to_string()),
        Some("{\"a\":\"%s\"}".to_string()),
    );
    let args = vec![head, sval("z")];
    assert_eq!(console_fmt::compose::format("c", &args), "CONTEXT:[c]: {\"a\":\"%s\"} z");
}

#[test]
fn end_to_end_string_substitution() {
    let args = vec![sval("one %s"), sval("two"), nval("3")];
    assert_eq!(console_fmt::compose::format("ctx1", &args), "CONTEXT:[ctx1]: one two 3");
}

#[test]
fn end_to_end_padded_int() {
    let args = vec![sval("val: %.3i"), nval("7")];
    assert_eq!(console_fmt::compose::format("ctx1", &args), "CONTEXT:[ctx1]: val: 007");
}

#[test]
fn end_to_end_two_objects() {
    let args = vec![oval("{\"a\":1}"), oval("{\"b\":2}")];
    assert_eq!(console_fmt::compose::format("ctx1", &args), "CONTEXT:[ctx1]: {\"a\":1} {\"b\":2}");
}

#[test]
fn exhausted_args_leave_directive_verbatim() {
    let args = vec![sval("a %s %d"), sval("x")];
    assert_eq!(console_fmt::compose::format("c", &args), "CONTEXT:[c]: a x %d");
}

#[test]
fn unterminated_directive_is_dropped() {
    let args = vec![sval("hi %.2"), nval("9")];
    assert_eq!(console_fmt::compose::format("c", &args), "CONTEXT:[c]: hi  9");
}

#[test]
fn non_numeric_precision_applies_no_padding() {
    let v = nval("5");
    assert_eq!(render_field("%.xzi", &v), "5");
    assert_eq!(render_field("%.i", &v), "5");
}

#[test]
fn double_zero_precision_float_leaves_text() {
    let v = nval("1.9");
    assert_eq!(render_field("%.00f", &v), "1.9");
}

#[test]
fn percent_inside_field_code_is_accumulated() {
    let args = vec![sval("a %%s b"), sval("x")];
    assert_eq!(console_fmt::compose::format("c", &args), "CONTEXT:[c]: a x b");
}

#[test]
fn float_without_precision_is_unchanged() {
    let args = vec![sval("%f"), nval("2.46")];
    assert_eq!(console_fmt::compose::format("c", &args), "CONTEXT:[c]: 2.46");
}

#[test]
fn long_directive_run() {
    let args = vec![
        sval("the %s %s %s jumped over %i fences with a accuracy of %.2f"),
        sval("quick"),
        sval("brown"),
        sval("fox"),
        nval("32"),
        nval("0.512"),
    ];
    assert_eq!(
        console_fmt::compose::format("c", &args),
        "CONTEXT:[c]: the quick brown fox jumped over 32 fences with a accuracy of 0.51"
    );
}

#[test]
fn padding_counts_sign_characters() {
    let v = nval("-3.2");
    assert_eq!(render('i', Some(4), &v), "00-3");
}

#[test]
fn function_head_is_serialized() {
    let head = Value::new(
        Category::Function,
        Some("function f() {}".to_string()),
        Some("undefined".to_string()),
    );
    let args = vec![head];
    assert_eq!(console_fmt::compose::format("c", &args), "CONTEXT:[c]: undefined");
}

#[test]
fn array_leftover_uses_structured() {
    let args = vec![sval("array:"), aval("[1,2,true,{\"a\":1}]")];
    assert_eq!(console_fmt::compose::format("c", &args), "CONTEXT:[c]: array: [1,2,true,{\"a\":1}]");
}
