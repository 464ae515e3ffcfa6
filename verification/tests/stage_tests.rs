use minigrep::stage::add_exclamations;
use minigrep::stage::compose;
use minigrep::stage::invoke;
use minigrep::stage::plugin;
use minigrep::stage::uppercase;
use minigrep::stage::InvocationCounter;

#[test]
fn counter_starts_at_zero() {
    let counter = InvocationCounter::new();
    assert_eq!(0, counter.read_invocation_count());
}

#[test]
fn single_stage_counts_once() {
    let mut counter = InvocationCounter::new();
    let stage = plugin(uppercase);
    let out = invoke(&stage, String::from("hello"), &mut counter);
    assert_eq!("HELLO", out);
    assert_eq!(1, counter.read_invocation_count());
    let out2 = invoke(&stage, String::from("world"), &mut counter);
    assert_eq!("WORLD", out2);
    assert_eq!(2, counter.read_invocation_count());
}

#[test]
fn composed_pipeline_uppercases_then_exclaims() {
    let mut counter = InvocationCounter::new();
    let combined = compose(plugin(uppercase), plugin(add_exclamations));
    let out = invoke(&combined, String::from("combined"), &mut counter);
    assert_eq!("COMBINED!!!", out);
}

#[test]
fn two_stage_pipeline_counts_twice() {
    let mut counter = InvocationCounter::new();
    let combined = compose(plugin(uppercase), plugin(add_exclamations));
    invoke(&combined, String::from("x"), &mut counter);
    assert_eq!(2, counter.read_invocation_count());
}

#[test]
fn three_stage_pipeline_counts_three_times() {
    let mut counter = InvocationCounter::new();
    let pipeline = compose(
        compose(plugin(uppercase), plugin(add_exclamations)),
        plugin(add_exclamations),
    );
    let out = invoke(&pipeline, String::from("abc"), &mut counter);
    assert_eq!("ABC!!!!!!", out);
    assert_eq!(3, counter.read_invocation_count());
}

#[test]
fn composition_is_associative_on_outputs() {
    let mut counter = InvocationCounter::new();
    let left_first = compose(
        compose(plugin(uppercase), plugin(add_exclamations)),
        plugin(add_exclamations),
    );
    let right_first = compose(
        plugin(uppercase),
        compose(plugin(add_exclamations), plugin(add_exclamations)),
    );
    let from_left = invoke(&left_first, String::from("same input"), &mut counter);
    let from_right = invoke(&right_first, String::from("same input"), &mut counter);
    assert_eq!(from_left, from_right);
    assert_eq!(6, counter.read_invocation_count());
}

#[test]
fn uppercase_leaves_non_letters_alone() {
    assert_eq!("A-1 B!", uppercase(String::from("a-1 b!")));
}

#[test]
fn add_exclamations_appends_three() {
    assert_eq!("quiet!!!", add_exclamations(String::from("quiet")));
}
