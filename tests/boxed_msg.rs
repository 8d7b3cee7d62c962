use zestors::boxed_msg::{BoxedMessage, Message};

#[derive(Debug, PartialEq)]
struct Msg1;
#[derive(Debug, PartialEq)]
struct Msg2;

impl Message for Msg1 {}
impl Message for Msg2 {}

#[derive(Debug, PartialEq)]
struct Counted(u32, String);
impl Message for Counted {}

#[test]
fn boxed_msg() {
    let boxed = BoxedMessage::new::<Msg1>(Msg1);
    assert!(boxed.downcast::<Msg1>().is_ok());

    let boxed = BoxedMessage::new::<Msg1>(Msg1);
    assert!(boxed.downcast::<Msg2>().is_err());
}

#[test]
fn boxed_msg_round_trip_keeps_value() {
    let boxed = BoxedMessage::new(Counted(7, "seven".to_string()));
    assert_eq!(boxed.downcast::<Counted>().ok(), Some(Counted(7, "seven".to_string())));
}

#[test]
fn boxed_msg_wrong_type_keeps_envelope() {
    let boxed = BoxedMessage::new(Counted(3, "three".to_string()));
    let back = match boxed.downcast::<Msg1>() {
        Ok(_) => panic!("downcast to the wrong type succeeded"),
        Err(b) => b,
    };
    assert_eq!(back.downcast_into_msg::<Counted>().ok(), Some(Counted(3, "three".to_string())));
}
