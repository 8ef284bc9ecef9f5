use wasm_host::error::HostFault;
use wasm_host::registry::{dispatch_multiply, dispatch_state_add, Runtime, State,
    MULT_FUNC_INDEX, STATE_ADD_FUNC_INDEX};

#[test]
fn state_add_accumulates() {
    let mut st = State(0);
    st.add(5);
    assert_eq!(st, State(5));
    st.add(-2);
    assert_eq!(st, State(3));
}

#[test]
fn state_add_wraps_around() {
    let mut st = State(i32::MAX);
    st.add(1);
    assert_eq!(st, State(i32::MIN));
}

#[test]
fn multiply_is_exact() {
    let rt = Runtime::new();
    assert_eq!(rt.multiply(3, 6), 18);
    assert_eq!(rt.multiply(-4, 5), -20);
}

#[test]
fn insert_and_get_state() {
    let mut rt = Runtime::new();
    assert_eq!(rt.get_state(1), None);
    rt.insert_state(1, 0);
    assert_eq!(rt.get_state(1), Some(0));
    rt.insert_state(1, 7);
    assert_eq!(rt.get_state(1), Some(7));
}

#[test]
fn state_add_mutates_the_registered_object() {
    let mut rt = Runtime::new();
    rt.insert_state(2, 10);
    rt.state_add(2, 5);
    assert_eq!(rt.get_state(2), Some(15));
}

#[test]
fn state_add_on_missing_handle_is_a_fault() {
    let mut rt = Runtime::new();
    assert_eq!(dispatch_state_add(&mut rt, 7, 5), Err(HostFault::MissingState(7)));
    assert_eq!(rt.get_state(7), None);
}

#[test]
fn invoke_index_routes_multiply() {
    let mut rt = Runtime::new();
    let r = rt.invoke_index(MULT_FUNC_INDEX, &vec![3, 6]);
    assert_eq!(r, Ok(Some(18)));
}

#[test]
fn invoke_index_routes_state_add() {
    let mut rt = Runtime::new();
    rt.insert_state(1, 0);
    let r = rt.invoke_index(STATE_ADD_FUNC_INDEX, &vec![1, 5]);
    assert_eq!(r, Ok(None));
    assert_eq!(rt.get_state(1), Some(5));
}

#[test]
fn dispatchers_route_by_index() {
    let mut rt = Runtime::new();
    assert_eq!(dispatch_multiply(&mut rt, 7, 6), 42);
    rt.insert_state(2, 10);
    assert_eq!(dispatch_state_add(&mut rt, 2, 5), Ok(()));
    assert_eq!(rt.get_state(2), Some(15));
    assert_eq!(dispatch_state_add(&mut rt, 3, 5), Err(HostFault::MissingState(3)));
}
