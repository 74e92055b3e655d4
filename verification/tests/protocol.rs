use async_serde::request::{names_eq, str_eq};
use async_serde::{BridgeError, Deserialize, Executor, Inspect, Instructor, State, Step, Visit};

/// Drives a fresh run up to the step that handles the first reported value:
/// asks for `d`, lets the bridge take the request, lets `report` play the
/// deserializer's part, and polls the ask again.
fn first_step<'de>(d: Deserialize, report: impl FnOnce(&mut State<'de>)) -> (State<'de>, Step) {
    let (_, mut state, instructor): (u8, State<'de>, Instructor) = Executor::new(0u8).start();
    let ask = instructor.ask(&mut state, d).ok().unwrap();
    assert!(ask.poll(&mut state).is_none());
    assert_eq!(state.begin_deserialize(), Ok(d));
    report(&mut state);
    let step = ask.poll(&mut state).unwrap();
    (state, step)
}

fn describe(i: Inspect<'_, '_, str>) -> (u8, String) {
    match i {
        Inspect::Borrowed(s) => (0, s.to_string()),
        Inspect::Buffered(s) => (1, s.to_string()),
        Inspect::Owned(s) => (2, s.to_string()),
    }
}

fn byte_count(i: Inspect<'_, '_, [u8]>) -> usize {
    match i {
        Inspect::Borrowed(b) => b.len(),
        Inspect::Buffered(b) => b.len(),
        Inspect::Owned(b) => b.len(),
    }
}

#[test]
fn executor_start_hands_back_deserializer() {
    let (d, state, instructor): (u32, State<'static>, Instructor) = Executor::new(42u32).start();
    assert_eq!(d, 42);
    assert_eq!(state.depth(), 0);
    assert_eq!(state.expected_depth(), 0);
    assert!(state.visit().is_none());
    assert!(state.internal_op().is_none());
    assert_eq!(instructor.depth(), 0);
}

#[test]
fn pending_ask_is_taken_by_bridge() {
    let (_, mut state, instructor): (u8, State<'static>, Instructor) = Executor::new(0u8).start();
    let ask = instructor.ask(&mut state, Deserialize::Str).ok().unwrap();
    assert_eq!(ask.depth(), 0);
    assert!(ask.poll(&mut state).is_none());
    assert_eq!(state.expected_depth(), 0);
    assert_eq!(state.begin_deserialize(), Ok(Deserialize::Str));
    assert_eq!(state.depth(), 1);
}

#[test]
fn begin_without_ask_reports_incorrect_future() {
    let (_, mut state, _instructor): (u8, State<'static>, Instructor) = Executor::new(0u8).start();
    let r = state.begin_deserialize();
    assert_eq!(r, Err(BridgeError::AwaitingIncorrectFuture));
    assert_eq!(r.unwrap_err().message(), "awaiting on incorrect future");
    assert_eq!(state.depth(), 1);
}

#[test]
fn second_take_without_new_ask_fails() {
    let (_, mut state, instructor): (u8, State<'static>, Instructor) = Executor::new(0u8).start();
    let _ask = instructor.ask(&mut state, Deserialize::U8).ok().unwrap();
    assert_eq!(state.begin_deserialize(), Ok(Deserialize::U8));
    assert_eq!(state.begin_deserialize(), Err(BridgeError::AwaitingIncorrectFuture));
}

#[test]
fn same_ask_accepted_other_refused() {
    let (_, mut state, mut instructor): (u8, State<'static>, Instructor) =
        Executor::new(0u8).start();
    let mut second = instructor.cloned();
    let third = second.cloned();
    let a = Deserialize::Struct { name: "S", fields: &["a", "b"] };
    assert!(instructor.ask(&mut state, a).is_ok());
    let same = Deserialize::Struct { name: "S", fields: &["a", "b"] };
    assert!(second.ask(&mut state, same).is_ok());
    match third.ask(&mut state, Deserialize::Str) {
        Err((back, current)) => {
            assert_eq!(back.depth(), 0);
            assert_eq!(current, a);
        },
        Ok(_) => panic!("a different type must be refused"),
    }
}

#[test]
fn requests_compare_by_content() {
    let a = Deserialize::Struct { name: "S", fields: &["a", "b"] };
    assert!(a.same_as(&Deserialize::Struct { name: "S", fields: &["a", "b"] }));
    assert!(!a.same_as(&Deserialize::Struct { name: "S", fields: &["a", "c"] }));
    assert!(!a.same_as(&Deserialize::Struct { name: "S", fields: &["a"] }));
    assert!(!a.same_as(&Deserialize::Struct { name: "T", fields: &["a", "b"] }));
    assert!(!a.same_as(&Deserialize::Enum { name: "S", variants: &["a", "b"] }));
    assert!(Deserialize::Tuple(2).same_as(&Deserialize::Tuple(2)));
    assert!(!Deserialize::Tuple(2).same_as(&Deserialize::Tuple(3)));
    assert!(!Deserialize::String.same_as(&Deserialize::Str));
    let ts = Deserialize::TupleStruct { name: "P", len: 2 };
    assert!(ts.same_as(&Deserialize::TupleStruct { name: "P", len: 2 }));
    assert!(!ts.same_as(&Deserialize::TupleStruct { name: "P", len: 3 }));
}

#[test]
fn string_and_name_comparison() {
    assert!(str_eq("héllo", "héllo"));
    assert!(!str_eq("héllo", "hello"));
    assert!(!str_eq("ab", "abc"));
    assert!(str_eq("", ""));
    assert!(names_eq(&["x", "y"], &["x", "y"]));
    assert!(!names_eq(&["x", "y"], &["y", "x"]));
    assert!(!names_eq(&["x"], &["x", "y"]));
}

#[test]
fn borrowed_string_is_lent_for_input_lifetime() {
    let input: &'static str = "hello";
    let (mut state, step) = first_step(Deserialize::Str, |s| s.visit_borrowed_str(input));
    assert_eq!(step.depth(), 1);
    assert_eq!(step.kind(&state), Visit::Str);
    let r = step.inspect_string(&mut state, describe);
    assert_eq!(r, Some((0, "hello".to_string())));
    assert!(state.is_str_ready());
}

#[test]
fn owned_string_is_handed_over_once() {
    let (mut state, step) =
        first_step(Deserialize::String, |s| s.visit_string("abc".to_string()));
    let r = step.inspect_string(&mut state, describe);
    assert_eq!(r, Some((2, "abc".to_string())));
    assert_eq!(state.visit(), Some(Visit::Str));
    assert!(!state.is_str_ready());
}

#[test]
fn cloned_steps_share_the_string() {
    let (mut state, mut step) =
        first_step(Deserialize::String, |s| s.visit_string("abc".to_string()));
    let other = step.cloned();
    assert_eq!(other.depth(), step.depth());
    let r1 = step.inspect_string(&mut state, describe);
    let r2 = other.inspect_string(&mut state, describe);
    assert_eq!(r1, Some((1, "abc".to_string())));
    assert_eq!(r2, Some((1, "abc".to_string())));
    assert!(state.is_str_ready());
}

#[test]
fn lent_string_is_buffered_and_released() {
    let lent = String::from("tmp");
    let (mut state, step) = first_step(Deserialize::Str, |s| s.visit_str(&lent));
    let r = step.inspect_string(&mut state, describe);
    assert_eq!(r, Some((1, "tmp".to_string())));
    assert!(state.is_str_ready());
    state.release_buffer();
    assert!(!state.is_str_ready());
}

#[test]
fn sequence_step_yields_seq_instructor() {
    let (mut state, mut step) = first_step(Deserialize::Sequence, |s| s.visit_seq());
    assert_eq!(step.kind(&state), Visit::Sequence);
    let other = step.cloned();
    assert_eq!(other.inspect_string(&mut state, describe), None);
    let other = step.cloned();
    assert_eq!(other.inspect_bytes(&mut state, byte_count), None);
    let mut seq = step.inspect_seq(&state).unwrap();
    assert_eq!(seq.depth(), 1);
    let mut seq2 = seq.cloned();
    assert!(seq.ask(&mut state, Deserialize::U8).is_ok());
    assert_eq!(seq2.ask(&mut state, Deserialize::I8).err(), Some(Some(Deserialize::U8)));
    assert!(seq2.ask(&mut state, Deserialize::U8).is_ok());
}

#[test]
fn non_sequence_step_has_no_seq_instructor() {
    let (state, step) = first_step(Deserialize::Str, |s| s.visit_borrowed_str("x"));
    assert!(step.inspect_seq(&state).is_none());
}

#[test]
fn float_values_travel_as_bits() {
    let v = Visit::F64(2.5f64.to_bits());
    match v {
        Visit::F64(bits) => assert_eq!(f64::from_bits(bits), 2.5),
        _ => panic!("wrong variant"),
    }
    assert_eq!(Visit::F32(1.0f32.to_bits()), Visit::F32(0x3f80_0000));
}

#[test]
fn float_values_compare_as_floats() {
    assert_eq!(Visit::F32(0.0f32.to_bits()), Visit::F32((-0.0f32).to_bits()));
    assert_eq!(Visit::F64(0.0f64.to_bits()), Visit::F64((-0.0f64).to_bits()));
    assert_ne!(Visit::F32(f32::NAN.to_bits()), Visit::F32(f32::NAN.to_bits()));
    assert_ne!(Visit::F64(f64::NAN.to_bits()), Visit::F64(f64::NAN.to_bits()));
    assert_ne!(Visit::F32(1.0f32.to_bits()), Visit::F32(2.0f32.to_bits()));
    assert_eq!(Visit::F64(f64::INFINITY.to_bits()), Visit::F64(f64::INFINITY.to_bits()));
    assert_ne!(Visit::F32(0), Visit::F64(0));
    assert_eq!(Visit::I128(-5), Visit::I128(-5));
    assert_ne!(Visit::Char('a'), Visit::Char('b'));
    assert_eq!(Visit::Str, Visit::Str);
}
