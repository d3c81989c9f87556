use exec_time::{instrumentation_plan, MacroArgs};

// Each function below carries, in a program that uses the attribute,
// `#[exec_time(print = "never", ...)]` or `#[exec_time()]`; the library's
// plan for those arguments is checked beside the call.

fn never() -> MacroArgs {
    MacroArgs {
        print: Some("never".to_string()),
        ..MacroArgs::default()
    }
}

fn adds_one(value: i32) -> i32 {
    value + 1
}

fn multiplies(left: i32, right: i32) -> i32 {
    left * right
}

fn sum_slice(values: &[i32]) -> i32 {
    values.iter().sum()
}

fn first_owned<T>(mut values: Vec<T>) -> T
where
    T: Clone,
{
    values.remove(0)
}

struct Accumulator {
    value: i32,
}

impl Accumulator {
    fn add(&mut self, amount: i32) -> i32 {
        self.value += amount;
        self.value
    }
}

#[test]
fn sync_function_returns_expected_value() {
    assert!(instrumentation_plan(&never(), "adds_one", true, false).is_none());
    assert_eq!(adds_one(41), 42);
}

#[test]
fn sync_function_with_empty_attribute_arguments_still_runs() {
    let plan = instrumentation_plan(&MacroArgs::default(), "multiplies", true, false);
    assert_eq!(plan.map(|p| p.label), Some("multiplies".to_string()));
    assert_eq!(multiplies(6, 7), 42);
}

#[test]
fn sync_function_accepts_prefix_and_suffix_arguments() {
    let args = MacroArgs {
        prefix: Some("math".to_string()),
        suffix: Some("sum".to_string()),
        ..never()
    };
    assert!(instrumentation_plan(&args, "sum_slice", true, false).is_none());
    assert_eq!(exec_time::build_label("sum_slice", &args), "math::sum_slice::sum");
    assert_eq!(sum_slice(&[10, 20, 12]), 42);
}

#[test]
fn sync_function_preserves_generics_and_where_clause() {
    assert!(instrumentation_plan(&never(), "first_owned", false, false).is_none());
    assert_eq!(first_owned(vec![42, 7, 9]), 42);
}

#[test]
fn sync_method_inside_impl_preserves_mutation_and_return_value() {
    assert!(instrumentation_plan(&never(), "add", true, false).is_none());
    let mut accumulator = Accumulator { value: 40 };

    assert_eq!(accumulator.add(2), 42);
    assert_eq!(accumulator.value, 42);
}
