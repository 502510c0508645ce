use std::cell::RefCell;
use up_client_android::client::MessageListener;
use up_client_android::iulistener::build_parcel_onReceive;
use up_client_android::iulistener::deliver_to_service;
use up_client_android::iulistener::on_transact;
use up_client_android::iulistener::prepare_onReceive;
use up_client_android::iulistener::read_response_onReceive;
use up_client_android::iulistener::settle;
use up_client_android::iulistener::IUListener;
use up_client_android::iulistener::IUListenerDefault;
use up_client_android::iulistener::Method;
use up_client_android::iulistener::TransactionFlags;
use up_client_android::iulistener::DESCRIPTOR;
use up_client_android::iulistener::FIRST_CALL_TRANSACTION;
use up_client_android::iulistener::TRANSACTION_ON_RECEIVE;
use up_client_android::parcel::ByteOrder;
use up_client_android::parcel::Parcel;
use up_client_android::parcelable_stubs::ParcelableUMessage;
use up_client_android::status::StatusCode;

fn sample_event() -> ParcelableUMessage {
    ParcelableUMessage(up_rust::UMessage {
        payload: Some(vec![1u8, 2, 3].into()),
        ..Default::default()
    })
}

struct Recorder {
    received: RefCell<Vec<up_rust::UMessage>>,
    answer: Result<(), StatusCode>,
}

impl Recorder {
    fn answering(answer: Result<(), StatusCode>) -> Recorder {
        Recorder { received: RefCell::new(Vec::new()), answer }
    }
}

#[allow(non_snake_case)]
impl IUListener for Recorder {
    fn onReceive(&self, event: &ParcelableUMessage) -> Result<(), StatusCode> {
        self.received.borrow_mut().push(event.0.clone());
        self.answer
    }
}

#[allow(non_snake_case)]
impl IUListenerDefault for Recorder {
    fn implements_on_receive(&self) -> bool {
        true
    }

    fn onReceive(&self, event: &ParcelableUMessage) -> Result<(), StatusCode> {
        self.received.borrow_mut().push(event.0.clone());
        self.answer
    }
}

struct Unconfigured;

impl IUListenerDefault for Unconfigured {}

#[test]
fn descriptor_names_the_interface() {
    assert_eq!(DESCRIPTOR, "org.eclipse.uprotocol.core.ubus.IUListener");
    assert_eq!(<MessageListener as IUListener>::get_descriptor(), DESCRIPTOR);
    assert_eq!(<Recorder as IUListener>::get_descriptor(), DESCRIPTOR);
}

#[test]
fn transaction_codes_start_at_the_first_call() {
    assert_eq!(FIRST_CALL_TRANSACTION, 1);
    assert_eq!(TRANSACTION_ON_RECEIVE, 1);
    assert_eq!(Method::OnReceive.transaction_code(), 1);
    assert_eq!(Method::from_transaction_code(1), Some(Method::OnReceive));
    assert_eq!(Method::from_transaction_code(0), None);
    assert_eq!(Method::from_transaction_code(2), None);
    assert_eq!(Method::from_transaction_code(u32::MAX), None);
    assert!(Method::OnReceive.is_oneway());
}

#[test]
fn call_is_prepared_with_code_arguments_and_flags() {
    let call = prepare_onReceive(&sample_event(), ByteOrder::LittleEndian).unwrap();
    assert_eq!(call.code, 1);
    assert_eq!(call.flags, TransactionFlags { oneway: true, private_local: true });
    assert_eq!(call.data.data_position(), 0);
    assert_eq!(call.data.into_bytes(), vec![5, 0, 0, 0, 0x12, 0x03, 1, 2, 3]);
}

#[test]
fn arguments_are_appended_to_the_prepared_parcel() {
    let mut data = Parcel::new(ByteOrder::BigEndian);
    data.write_i32(7);
    let data = build_parcel_onReceive(&sample_event(), data).unwrap();
    assert_eq!(data.into_bytes(), vec![0, 0, 0, 7, 0, 0, 0, 5, 0x12, 0x03, 1, 2, 3]);
}

#[test]
fn dispatch_hands_the_argument_to_the_service() {
    let service = Recorder::answering(Ok(()));
    let call = prepare_onReceive(&sample_event(), ByteOrder::LittleEndian).unwrap();
    let mut data = call.data;
    let mut reply = Parcel::new(ByteOrder::LittleEndian);
    assert_eq!(on_transact(&service, call.code, &mut data, &mut reply), Ok(()));
    assert_eq!(service.received.borrow().len(), 1);
    assert_eq!(service.received.borrow()[0], sample_event().0);
    assert_eq!(data.data_avail(), 0);
    assert_eq!(reply.data_size(), 0);
}

#[test]
fn dispatch_succeeds_whatever_the_service_answers() {
    let service = Recorder::answering(Err(StatusCode::DEAD_OBJECT));
    let call = prepare_onReceive(&sample_event(), ByteOrder::LittleEndian).unwrap();
    let mut data = call.data;
    let mut reply = Parcel::new(ByteOrder::LittleEndian);
    assert_eq!(on_transact(&service, call.code, &mut data, &mut reply), Ok(()));
    assert_eq!(service.received.borrow().len(), 1);
    assert_eq!(reply.data_size(), 0);
}

#[test]
fn dispatch_of_an_unknown_code_is_an_unknown_transaction() {
    let service = Recorder::answering(Ok(()));
    for code in [0, 2, 3, 0x00ff_ffff, u32::MAX] {
        let mut data = prepare_onReceive(&sample_event(), ByteOrder::LittleEndian).unwrap().data;
        let mut reply = Parcel::new(ByteOrder::LittleEndian);
        assert_eq!(
            on_transact(&service, code, &mut data, &mut reply),
            Err(StatusCode::UNKNOWN_TRANSACTION)
        );
        assert_eq!(data.data_position(), 0);
        assert_eq!(reply.data_size(), 0);
    }
    assert_eq!(service.received.borrow().len(), 0);
}

#[test]
fn dispatch_of_a_bad_argument_is_a_bad_value() {
    let service = Recorder::answering(Ok(()));
    let mut reply = Parcel::new(ByteOrder::LittleEndian);
    let mut truncated = Parcel::from_bytes(ByteOrder::LittleEndian, vec![5, 0, 0, 0, 0x12]);
    assert_eq!(on_transact(&service, 1, &mut truncated, &mut reply), Err(StatusCode::BAD_VALUE));
    assert_eq!(truncated.data_position(), 0);
    let mut malformed = Parcel::from_bytes(ByteOrder::LittleEndian, vec![1, 0, 0, 0, 0xff]);
    assert_eq!(on_transact(&service, 1, &mut malformed, &mut reply), Err(StatusCode::BAD_VALUE));
    let mut empty = Parcel::new(ByteOrder::LittleEndian);
    assert_eq!(on_transact(&service, 1, &mut empty, &mut reply), Err(StatusCode::BAD_VALUE));
    assert_eq!(service.received.borrow().len(), 0);
}

#[test]
fn undecoded_argument_does_not_reach_the_service() {
    let service = Recorder::answering(Ok(()));
    assert_eq!(
        deliver_to_service(&service, Err(StatusCode::BAD_VALUE)),
        Err(StatusCode::BAD_VALUE)
    );
    assert_eq!(service.received.borrow().len(), 0);
    assert_eq!(deliver_to_service(&service, Ok(sample_event())), Ok(()));
    assert_eq!(service.received.borrow().len(), 1);
}

#[test]
fn message_listener_accepts_every_message() {
    assert_eq!(MessageListener.onReceive(&sample_event()), Ok(()));
    let mut data = prepare_onReceive(&sample_event(), ByteOrder::BigEndian).unwrap().data;
    let mut reply = Parcel::new(ByteOrder::BigEndian);
    assert_eq!(on_transact(&MessageListener, 1, &mut data, &mut reply), Ok(()));
}

#[test]
fn unknown_transaction_falls_back_on_the_default_implementation() {
    let fallback = Recorder::answering(Ok(()));
    let answer = read_response_onReceive(
        &sample_event(),
        Err(StatusCode::UNKNOWN_TRANSACTION),
        Some(&fallback),
    );
    assert_eq!(answer, Ok(()));
    assert_eq!(fallback.received.borrow().len(), 1);
    assert_eq!(fallback.received.borrow()[0], sample_event().0);

    let failing = Recorder::answering(Err(StatusCode::DEAD_OBJECT));
    let answer = read_response_onReceive(
        &sample_event(),
        Err(StatusCode::UNKNOWN_TRANSACTION),
        Some(&failing),
    );
    assert_eq!(answer, Err(StatusCode::DEAD_OBJECT));
}

#[test]
fn unknown_transaction_without_a_default_is_passed_on() {
    let answer = read_response_onReceive::<Recorder>(
        &sample_event(),
        Err(StatusCode::UNKNOWN_TRANSACTION),
        None,
    );
    assert_eq!(answer, Err(StatusCode::UNKNOWN_TRANSACTION));
}

#[test]
fn provided_default_answers_as_a_remote_end_without_the_method() {
    assert_eq!(
        IUListenerDefault::onReceive(&Unconfigured, &sample_event()),
        Err(StatusCode::UNKNOWN_TRANSACTION)
    );
    let answer = read_response_onReceive(
        &sample_event(),
        Err(StatusCode::UNKNOWN_TRANSACTION),
        Some(&Unconfigured),
    );
    assert_eq!(answer, Err(StatusCode::UNKNOWN_TRANSACTION));
}

#[test]
fn default_implementation_is_left_alone_on_other_replies() {
    let fallback = Recorder::answering(Err(StatusCode::FAILED_TRANSACTION));
    let reply = Parcel::new(ByteOrder::LittleEndian);
    assert_eq!(read_response_onReceive(&sample_event(), Ok(reply), Some(&fallback)), Ok(()));
    for code in [
        StatusCode::UNKNOWN_ERROR,
        StatusCode::NO_MEMORY,
        StatusCode::INVALID_OPERATION,
        StatusCode::BAD_VALUE,
        StatusCode::BAD_TYPE,
        StatusCode::NAME_NOT_FOUND,
        StatusCode::PERMISSION_DENIED,
        StatusCode::NO_INIT,
        StatusCode::ALREADY_EXISTS,
        StatusCode::DEAD_OBJECT,
        StatusCode::FAILED_TRANSACTION,
        StatusCode::BAD_INDEX,
        StatusCode::NOT_ENOUGH_DATA,
        StatusCode::WOULD_BLOCK,
        StatusCode::TIMED_OUT,
        StatusCode::FDS_NOT_ALLOWED,
        StatusCode::UNEXPECTED_NULL,
    ] {
        assert_eq!(
            read_response_onReceive(&sample_event(), Err(code), Some(&fallback)),
            Err(code)
        );
        assert_eq!(settle(Err(code), Some(Ok(()))), Err(code));
    }
    assert_eq!(fallback.received.borrow().len(), 0);
}

#[test]
fn settling_replaces_only_an_unknown_transaction() {
    let reply = || Parcel::new(ByteOrder::LittleEndian);
    assert_eq!(settle(Err(StatusCode::UNKNOWN_TRANSACTION), Some(Ok(()))), Ok(()));
    assert_eq!(
        settle(Err(StatusCode::UNKNOWN_TRANSACTION), Some(Err(StatusCode::BAD_VALUE))),
        Err(StatusCode::BAD_VALUE)
    );
    assert_eq!(
        settle(Err(StatusCode::UNKNOWN_TRANSACTION), None),
        Err(StatusCode::UNKNOWN_TRANSACTION)
    );
    assert_eq!(settle(Ok(reply()), Some(Err(StatusCode::BAD_VALUE))), Ok(()));
    assert_eq!(settle(Ok(reply()), None), Ok(()));
    assert_eq!(settle(Err(StatusCode::DEAD_OBJECT), Some(Ok(()))), Err(StatusCode::DEAD_OBJECT));
    assert_eq!(settle(Err(StatusCode::DEAD_OBJECT), None), Err(StatusCode::DEAD_OBJECT));
}

#[test]
fn call_for_a_message_that_cannot_be_written_is_a_bad_value() {
    let mut message = sample_event().0;
    protobuf::Message::mut_unknown_fields(&mut message).add_fixed32(0, 1);
    let event = ParcelableUMessage(message);
    assert_eq!(prepare_onReceive(&event, ByteOrder::LittleEndian).err(), Some(StatusCode::BAD_VALUE));
    assert_eq!(
        build_parcel_onReceive(&event, Parcel::new(ByteOrder::LittleEndian)).err(),
        Some(StatusCode::BAD_VALUE)
    );
}
