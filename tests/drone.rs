use sealed::drone::{DroneState, Flying, Hovering, Idle};

fn accepts<S: DroneState>(states: &mut Vec<&'static str>, _: S, name: &'static str) {
    states.push(name);
}

#[test]
fn drone_states_are_the_sealed_set() {
    let mut states = Vec::new();
    accepts(&mut states, Idle, "idle");
    accepts(&mut states, Hovering, "hovering");
    accepts(&mut states, Flying, "flying");
    assert_eq!(states, vec!["idle", "hovering", "flying"]);
    assert_eq!(Idle, Idle);
}
