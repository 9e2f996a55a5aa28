use common_concepts::bindings::{shadowed_variables, variables, Bindings, Shadowed};

#[test]
fn immutable_binding_is_five() {
    assert_eq!(variables().immutable, 5);
}

#[test]
fn mutable_binding_goes_from_ten_to_five() {
    let seen = variables();
    assert_eq!(seen.initial, 10);
    assert_eq!(seen.mutated, 5);
}

#[test]
fn variables_gives_all_three_values() {
    assert_eq!(
        variables(),
        Bindings {
            immutable: 5,
            initial: 10,
            mutated: 5
        }
    );
}

#[test]
fn shadowed_number_is_five_plus_ten() {
    assert_eq!(shadowed_variables().number, 15);
}

#[test]
fn shadowed_text_becomes_its_length() {
    assert_eq!(shadowed_variables().length, 3);
    assert_eq!(shadowed_variables().length, "   ".len());
}

#[test]
fn shadowed_variables_gives_both_values() {
    assert_eq!(
        shadowed_variables(),
        Shadowed {
            number: 15,
            length: 3
        }
    );
}

#[test]
fn demonstrations_give_the_same_values_every_time() {
    assert_eq!(variables(), variables());
    assert_eq!(shadowed_variables(), shadowed_variables());
}
