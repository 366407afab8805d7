use sdk_provision::shim::fallible_func;

// The bound native function is a black box to the shim; the shim's whole
// contract is to hand its result through unchanged. This stand-in plays the
// part of a fixed known native behavior for the check below.
fn reference_bound_behavior(value: i32) -> i32 {
    value.wrapping_mul(2) + 1
}

#[test]
fn shim_returns_the_bound_result_for_input_five() {
    let bound = reference_bound_behavior(5);
    assert_eq!(bound, 11);
    assert_eq!(fallible_func(bound), 11);
}

#[test]
fn shim_forwards_every_value_unchanged() {
    for value in [i32::MIN, -1, 0, 1, 5, 42, i32::MAX] {
        assert_eq!(fallible_func(value), value);
    }
}
