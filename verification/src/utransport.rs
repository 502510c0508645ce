//! The transport bridge: the registration round trip from the native side to
//! the foreign runtime, and the delivery of inbound messages to native
//! listeners.
//!
//! Calls into the foreign runtime are not made here. A registration is a state
//! machine: it tells its driver which foreign call to make next, the driver makes
//! the call and reports what happened, and the machine decides how to go on.
//! Inbound delivery is a decision too: given a handle and the bytes that came
//! with it, the bridge says which listener is to receive which message, or why
//! the message is dropped.

use vstd::prelude::*;
use vstd::string::StringExecFns;
use crate::listener_registry::listener_handle;
use crate::listener_registry::Listener;
use crate::listener_registry::ListenerRegistry;
use crate::listener_registry::RegistryView;
use crate::listener_registry::Topic;
use crate::listener_registry::TopicView;
use crate::parcel::ByteOrder;
use crate::parcel::DecodeError;
use crate::parcelable_stubs::encode_topic;
use crate::parcelable_stubs::message_decoding;
use crate::parcelable_stubs::topic_encoding;
use crate::status::StatusCode;
use crate::status::UCode;
use crate::status::UStatus;
use crate::status::UStatusView;

verus! {

/// The foreign runtime's name for the type of a topic.
pub const CLASS_UURI: &'static str = "Lorg/eclipse/uprotocol/v1/UUri;";

/// The foreign runtime's name for the type of a listener.
pub const CLASS_ULISTENER: &'static str = "Lorg/eclipse/uprotocol/transport/UListener;";

/// The foreign runtime's name for the type of a status.
pub const CLASS_USTATUS: &'static str = "Lorg/eclipse/uprotocol/v1/UStatus;";

/// The signature of the remote registration method: it takes a topic and a
/// listener and returns a status.
pub fn register_listener_signature() -> (signature: String)
    ensures
        signature@ == "("@ + CLASS_UURI@ + CLASS_ULISTENER@ + ")"@ + CLASS_USTATUS@,
        signature@
            == "(Lorg/eclipse/uprotocol/v1/UUri;Lorg/eclipse/uprotocol/transport/UListener;)Lorg/eclipse/uprotocol/v1/UStatus;"@,
{
    let mut signature = String::from_str("(");
    signature.append(CLASS_UURI);
    signature.append(CLASS_ULISTENER);
    signature.append(")");
    signature.append(CLASS_USTATUS);
    proof {
        reveal_strlit("(");
        reveal_strlit(")");
        reveal_strlit("Lorg/eclipse/uprotocol/v1/UUri;");
        reveal_strlit("Lorg/eclipse/uprotocol/transport/UListener;");
        reveal_strlit("Lorg/eclipse/uprotocol/v1/UStatus;");
        reveal_strlit(
            "(Lorg/eclipse/uprotocol/v1/UUri;Lorg/eclipse/uprotocol/transport/UListener;)Lorg/eclipse/uprotocol/v1/UStatus;",
        );
        assert(signature@
            =~= "(Lorg/eclipse/uprotocol/v1/UUri;Lorg/eclipse/uprotocol/transport/UListener;)Lorg/eclipse/uprotocol/v1/UStatus;"@);
    }
    signature
}

/// The signature of the foreign function that rebuilds a topic from its
/// encoding: it takes a byte array and returns a topic.
pub fn deserialize_uuri_signature() -> (signature: String)
    ensures
        signature@ == "([B)"@ + CLASS_UURI@,
        signature@ == "([B)Lorg/eclipse/uprotocol/v1/UUri;"@,
{
    let mut signature = String::from_str("([B)");
    signature.append(CLASS_UURI);
    proof {
        reveal_strlit("([B)");
        reveal_strlit("Lorg/eclipse/uprotocol/v1/UUri;");
        reveal_strlit("([B)Lorg/eclipse/uprotocol/v1/UUri;");
        assert(signature@ =~= "([B)Lorg/eclipse/uprotocol/v1/UUri;"@);
    }
    signature
}

/// The signed 64-bit integer with the same two's complement bits as `handle`:
/// the form in which a handle is given to the foreign runtime, whose integers
/// are signed.
pub open spec fn handle_as_signed(handle: u64) -> i64 {
    if handle <= i64::MAX {
        handle as i64
    } else {
        (handle - 0x1_0000_0000_0000_0000) as i64
    }
}

/// The handle with the same two's complement bits as `signed`.
pub open spec fn handle_from_signed(signed: i64) -> u64 {
    if signed >= 0 {
        signed as u64
    } else {
        (signed + 0x1_0000_0000_0000_0000) as u64
    }
}

/// Converts a handle to the signed form in which the foreign runtime holds it.
pub fn handle_to_foreign(handle: u64) -> (signed: i64)
    ensures
        signed == handle_as_signed(handle),
        handle_from_signed(signed) == handle,
{
    if handle <= 0x7fff_ffff_ffff_ffff {
        handle as i64
    } else {
        let below: u64 = u64::MAX - handle;
        -(below as i64) - 1
    }
}

/// Converts a handle from the signed form in which the foreign runtime holds it.
pub fn handle_from_foreign(signed: i64) -> (handle: u64)
    ensures
        handle == handle_from_signed(signed),
        handle_as_signed(handle) == signed,
{
    if signed >= 0 {
        signed as u64
    } else {
        let below: u64 = (-(signed + 1)) as u64;
        u64::MAX - below
    }
}

/// What the remote service is asked to do with a listener: to register it for a
/// topic, or to stop delivering to it. Both take the same steps and differ in the
/// remote method that is called at the end.
#[derive(Clone, Copy, Debug, PartialEq, Eq, Structural)]
pub enum Request {
    Register,
    Unregister,
}

/// Where a registration, or the withdrawal of one, stands. Before the bridge is
/// asked, it is idle; a registration exists from the moment its handle is in the
/// registry.
#[derive(Debug)]
pub enum RegistrationState {
    /// The handle is known; the foreign-side proxy that carries it is being
    /// built.
    ConstructingProxy,
    /// The proxy exists; the encoded topic is being turned into the foreign
    /// runtime's own topic.
    EncodingTopic,
    /// The remote service is being asked to register the proxy for the topic, or
    /// to stop delivering to it.
    RemoteRegistration,
    /// The remote service has done what it was asked to do. Terminal.
    Registered,
    /// A step failed, and no remote registration is established. Terminal.
    Failed(UStatus),
}

/// The mathematical value of a [`RegistrationState`].
pub enum RegistrationStateView {
    ConstructingProxy,
    EncodingTopic,
    RemoteRegistration,
    Registered,
    Failed(UStatusView),
}

impl View for RegistrationState {
    type V = RegistrationStateView;

    open spec fn view(&self) -> RegistrationStateView {
        match self {
            RegistrationState::ConstructingProxy => RegistrationStateView::ConstructingProxy,
            RegistrationState::EncodingTopic => RegistrationStateView::EncodingTopic,
            RegistrationState::RemoteRegistration => RegistrationStateView::RemoteRegistration,
            RegistrationState::Registered => RegistrationStateView::Registered,
            RegistrationState::Failed(status) => RegistrationStateView::Failed(status@),
        }
    }
}

impl RegistrationStateView {
    /// Whether the registration has come to its end, one way or the other.
    pub open spec fn is_terminal(self) -> bool {
        self is Registered || self is Failed
    }
}

/// What the driver reports after it made the foreign call it was asked to make.
#[derive(Debug)]
pub enum ForeignOutcome {
    /// The call returned and left no exception pending.
    Completed,
    /// The call could not be made or reported a failure of its own, such as a
    /// class that was not found.
    CallFailed,
    /// The call returned something that is not of the expected kind.
    ConversionFailed,
    /// The call returned, and an exception is pending in the foreign runtime.
    ExceptionPending,
    /// The remote method returned this status.
    Answered(UStatus),
}

/// The mathematical value of a [`ForeignOutcome`].
pub enum ForeignOutcomeView {
    Completed,
    CallFailed,
    ConversionFailed,
    ExceptionPending,
    Answered(UStatusView),
}

impl View for ForeignOutcome {
    type V = ForeignOutcomeView;

    open spec fn view(&self) -> ForeignOutcomeView {
        match self {
            ForeignOutcome::Completed => ForeignOutcomeView::Completed,
            ForeignOutcome::CallFailed => ForeignOutcomeView::CallFailed,
            ForeignOutcome::ConversionFailed => ForeignOutcomeView::ConversionFailed,
            ForeignOutcome::ExceptionPending => ForeignOutcomeView::ExceptionPending,
            ForeignOutcome::Answered(status) => ForeignOutcomeView::Answered(status@),
        }
    }
}

/// A call into the foreign runtime that the driver is asked to make.
#[derive(Debug)]
pub enum ForeignCall {
    /// Build the foreign-side proxy of a listener. It carries `handle` and
    /// nothing else of the listener.
    ConstructProxy { handle: i64 },
    /// Turn the encoded topic into the foreign runtime's own topic.
    ConvertTopic { encoded_topic: Vec<u8> },
    /// Ask the remote service to register the proxy for the topic.
    RegisterListener,
    /// Ask the remote service to stop delivering to the proxy for the topic.
    UnregisterListener,
}

/// What the driver is to do next.
#[derive(Debug)]
pub enum Action {
    /// Make this call and report its outcome.
    Call(ForeignCall),
    /// Stop. If `clear_exception` is set, first take note of the exception that
    /// is pending in the foreign runtime and clear it. Then hand `result` to
    /// whoever asked for the registration.
    Finish { clear_exception: bool, result: Result<(), UStatus> },
}

/// The mathematical value of an [`Action`].
pub enum ActionView {
    ConstructProxy { handle: i64 },
    ConvertTopic { encoded_topic: Seq<u8> },
    RegisterListener,
    UnregisterListener,
    Finish { clear_exception: bool, result: Result<(), UStatusView> },
}

impl View for Action {
    type V = ActionView;

    open spec fn view(&self) -> ActionView {
        match self {
            Action::Call(ForeignCall::ConstructProxy { handle }) => ActionView::ConstructProxy {
                handle: *handle,
            },
            Action::Call(ForeignCall::ConvertTopic { encoded_topic }) => ActionView::ConvertTopic {
                encoded_topic: encoded_topic@,
            },
            Action::Call(ForeignCall::RegisterListener) => ActionView::RegisterListener,
            Action::Call(ForeignCall::UnregisterListener) => ActionView::UnregisterListener,
            Action::Finish { clear_exception, result } => ActionView::Finish {
                clear_exception: *clear_exception,
                result: match result {
                    Ok(()) => Ok(()),
                    Err(status) => Err(status@),
                },
            },
        }
    }
}

impl ActionView {
    /// Whether the action asks for a call into the foreign runtime.
    pub open spec fn is_call(self) -> bool {
        !(self is Finish)
    }
}

/// The status of a step that failed on the native side or in the foreign
/// runtime: an internal error with the given message.
pub open spec fn internal_error(message: Seq<char>) -> UStatusView {
    UStatusView { code: UCode::INTERNAL, message }
}

/// The failure, if any, that `outcome` means for a registration in `state`.
///
/// An exception, a failed call and a failed conversion are internal errors. A
/// failure status that the remote method returned is passed on as it is.
pub open spec fn failure_of(
    request: Request,
    state: RegistrationStateView,
    outcome: ForeignOutcomeView,
) -> Option<UStatusView> {
    match outcome {
        ForeignOutcomeView::Completed => None,
        ForeignOutcomeView::Answered(status) => if status.code == UCode::OK {
            None
        } else {
            Some(status)
        },
        ForeignOutcomeView::ExceptionPending => Some(internal_error("Exception was thrown"@)),
        ForeignOutcomeView::ConversionFailed => Some(
            internal_error("Failed when converting uuri_obj to a JObject"@),
        ),
        ForeignOutcomeView::CallFailed => Some(
            internal_error(
                match state {
                    RegistrationStateView::ConstructingProxy => "Class not found"@,
                    RegistrationStateView::EncodingTopic => "Failed when calling deserializeToUUri"@,
                    _ => match request {
                        Request::Register => "Unable to call UPClient.registerListner()"@,
                        Request::Unregister => "Unable to call UPClient.unregisterListener()"@,
                    },
                },
            ),
        ),
    }
}

/// Whether `outcome` may have left an exception pending in the foreign runtime,
/// which must be cleared before the runtime is called again.
pub open spec fn leaves_exception(outcome: ForeignOutcomeView) -> bool {
    outcome is CallFailed || outcome is ConversionFailed || outcome is ExceptionPending
}

/// The state that follows `state` when the driver reports `outcome`, and what
/// the driver is to do then. `encoded_topic` is the encoding of the
/// registration's topic, if it has one.
///
/// A terminal state stays as it is. In any other state a failure ends the
/// registration. Without a failure, the registration moves on: from the proxy to
/// the topic (which fails if the topic has no encoding), from the topic to the
/// remote method that `request` names, and from there to its end.
pub open spec fn transition(
    request: Request,
    state: RegistrationStateView,
    outcome: ForeignOutcomeView,
    encoded_topic: Option<Seq<u8>>,
) -> (RegistrationStateView, ActionView) {
    match state {
        RegistrationStateView::Registered => (
            state,
            ActionView::Finish { clear_exception: false, result: Ok(()) },
        ),
        RegistrationStateView::Failed(status) => (
            state,
            ActionView::Finish { clear_exception: false, result: Err(status) },
        ),
        _ => match failure_of(request, state, outcome) {
            Some(status) => (
                RegistrationStateView::Failed(status),
                ActionView::Finish {
                    clear_exception: leaves_exception(outcome),
                    result: Err(status),
                },
            ),
            None => match state {
                RegistrationStateView::ConstructingProxy => match encoded_topic {
                    Some(encoded_topic) => (
                        RegistrationStateView::EncodingTopic,
                        ActionView::ConvertTopic { encoded_topic },
                    ),
                    None => (
                        RegistrationStateView::Failed(
                            internal_error("Failed to obtain UUri bytes"@),
                        ),
                        ActionView::Finish {
                            clear_exception: false,
                            result: Err(internal_error("Failed to obtain UUri bytes"@)),
                        },
                    ),
                },
                RegistrationStateView::EncodingTopic => (
                    RegistrationStateView::RemoteRegistration,
                    match request {
                        Request::Register => ActionView::RegisterListener,
                        Request::Unregister => ActionView::UnregisterListener,
                    },
                ),
                _ => (
                    RegistrationStateView::Registered,
                    ActionView::Finish { clear_exception: false, result: Ok(()) },
                ),
            },
        },
    }
}

/// A terminal state is final: whatever is reported afterwards, the state stays
/// and the driver is told to stop.
pub proof fn lemma_terminal_states_are_final(
    request: Request,
    state: RegistrationStateView,
    outcome: ForeignOutcomeView,
    encoded_topic: Option<Seq<u8>>,
)
    requires
        state.is_terminal(),
    ensures
        transition(request, state, outcome, encoded_topic).0 == state,
        !transition(request, state, outcome, encoded_topic).1.is_call(),
{
}

/// There is no partial state: the driver is told to stop exactly when the
/// registration has come to its end, and it is handed success exactly when the
/// remote service has registered the listener.
pub proof fn lemma_finish_means_terminal(
    request: Request,
    state: RegistrationStateView,
    outcome: ForeignOutcomeView,
    encoded_topic: Option<Seq<u8>>,
)
    ensures
        ({
            let (next, action) = transition(request, state, outcome, encoded_topic);
            &&& action.is_call() <==> !next.is_terminal()
            &&& action matches ActionView::Finish { result, .. } ==> (result is Ok <==> next
                is Registered)
            &&& action matches ActionView::Finish { result, .. } ==> (result matches Err(status)
                ==> next == RegistrationStateView::Failed(status))
        }),
{
}

/// An exception is always cleared before the foreign runtime is called again:
/// after an outcome that may have left one pending, a registration that was
/// under way makes no further call, and tells the driver to clear it.
pub proof fn lemma_exception_is_cleared_before_next_call(
    request: Request,
    state: RegistrationStateView,
    outcome: ForeignOutcomeView,
    encoded_topic: Option<Seq<u8>>,
)
    requires
        !state.is_terminal(),
        leaves_exception(outcome),
    ensures
        transition(request, state, outcome, encoded_topic).1 matches ActionView::Finish {
            clear_exception,
            result,
        } && clear_exception && result is Err,
{
}

/// The remote service is asked to register only after every earlier step went
/// through: the proxy was built, the topic was encoded and converted.
pub proof fn lemma_success_needs_every_step(
    request: Request,
    state: RegistrationStateView,
    outcome: ForeignOutcomeView,
    encoded_topic: Option<Seq<u8>>,
)
    requires
        !state.is_terminal(),
        transition(request, state, outcome, encoded_topic).0 is Registered,
    ensures
        state is RemoteRegistration,
        failure_of(request, state, outcome) is None,
{
}

/// A registration, or the withdrawal of one, under way: the state it has
/// reached, and what it needs to go on.
#[derive(Debug)]
pub struct Registration {
    request: Request,
    state: RegistrationState,
    handle: u64,
    topic: Topic,
    order: ByteOrder,
}

impl Registration {
    /// What the remote service is asked to do.
    pub closed spec fn request(&self) -> Request {
        self.request
    }

    /// What the remote service is asked to do.
    pub fn requested(&self) -> (request: Request)
        ensures
            request == self.request(),
    {
        self.request
    }

    /// The state that the registration has reached.
    pub closed spec fn state(&self) -> RegistrationStateView {
        self.state@
    }

    /// The handle that stands for the listener on the foreign side.
    pub closed spec fn handle(&self) -> u64 {
        self.handle
    }

    /// The topic that the listener is being registered on.
    pub closed spec fn topic(&self) -> TopicView {
        self.topic@
    }

    /// The byte order of the transport.
    pub closed spec fn order(&self) -> ByteOrder {
        self.order
    }

    /// The state that the registration has reached.
    pub fn current_state(&self) -> (state: &RegistrationState)
        ensures
            state@ == self.state(),
    {
        &self.state
    }

    /// The handle that stands for the listener on the foreign side.
    pub fn listener_id(&self) -> (handle: u64)
        ensures
            handle == self.handle(),
    {
        self.handle
    }

    /// Whether the registration has come to its end, one way or the other.
    pub fn is_finished(&self) -> (finished: bool)
        ensures
            finished == self.state().is_terminal(),
    {
        match self.state {
            RegistrationState::Registered => true,
            RegistrationState::Failed(_) => true,
            _ => false,
        }
    }

    /// Ends the registration with an internal error.
    fn fail(&mut self, message: &str, clear_exception: bool) -> (action: Action)
        ensures
            final(self).request() == old(self).request(),
            final(self).handle() == old(self).handle(),
            final(self).topic() == old(self).topic(),
            final(self).order() == old(self).order(),
            final(self).state() == RegistrationStateView::Failed(internal_error(message@)),
            action@ == (ActionView::Finish {
                clear_exception,
                result: Err(internal_error(message@)),
            }),
    {
        self.state = RegistrationState::Failed(UStatus::fail_with_code(UCode::INTERNAL, message));
        Action::Finish {
            clear_exception,
            result: Err(UStatus::fail_with_code(UCode::INTERNAL, message)),
        }
    }

    /// Moves the registration on after the driver reported `outcome`, given the
    /// outcome of encoding the registration's topic.
    ///
    /// The encoding is looked at only when the proxy has just been built.
    pub fn advance_with(
        &mut self,
        outcome: ForeignOutcome,
        encoded_topic: Result<Vec<u8>, StatusCode>,
    ) -> (action: Action)
        ensures
            final(self).request() == old(self).request(),
            final(self).handle() == old(self).handle(),
            final(self).topic() == old(self).topic(),
            final(self).order() == old(self).order(),
            (final(self).state(), action@) == transition(
                old(self).request(),
                old(self).state(),
                outcome@,
                match encoded_topic {
                    Ok(encoded_topic) => Some(encoded_topic@),
                    Err(_) => None,
                },
            ),
    {
        match &self.state {
            RegistrationState::Registered => {
                return Action::Finish { clear_exception: false, result: Ok(()) };
            },
            RegistrationState::Failed(status) => {
                return Action::Finish { clear_exception: false, result: Err(status.duplicate()) };
            },
            _ => {},
        }
        match outcome {
            ForeignOutcome::Completed => {},
            ForeignOutcome::Answered(status) => {
                if status.is_failed() {
                    self.state = RegistrationState::Failed(status.duplicate());
                    return Action::Finish { clear_exception: false, result: Err(status) };
                }
            },
            ForeignOutcome::ExceptionPending => {
                return self.fail("Exception was thrown", true);
            },
            ForeignOutcome::ConversionFailed => {
                return self.fail("Failed when converting uuri_obj to a JObject", true);
            },
            ForeignOutcome::CallFailed => {
                return match &self.state {
                    RegistrationState::ConstructingProxy => self.fail("Class not found", true),
                    RegistrationState::EncodingTopic => self.fail(
                        "Failed when calling deserializeToUUri",
                        true,
                    ),
                    _ => match self.request {
                        Request::Register => self.fail(
                            "Unable to call UPClient.registerListner()",
                            true,
                        ),
                        Request::Unregister => self.fail(
                            "Unable to call UPClient.unregisterListener()",
                            true,
                        ),
                    },
                };
            },
        }
        match &self.state {
            RegistrationState::ConstructingProxy => match encoded_topic {
                Ok(encoded_topic) => {
                    self.state = RegistrationState::EncodingTopic;
                    Action::Call(ForeignCall::ConvertTopic { encoded_topic })
                },
                Err(_) => self.fail("Failed to obtain UUri bytes", false),
            },
            RegistrationState::EncodingTopic => {
                self.state = RegistrationState::RemoteRegistration;
                match self.request {
                    Request::Register => Action::Call(ForeignCall::RegisterListener),
                    Request::Unregister => Action::Call(ForeignCall::UnregisterListener),
                }
            },
            _ => {
                self.state = RegistrationState::Registered;
                Action::Finish { clear_exception: false, result: Ok(()) }
            },
        }
    }

    /// Moves the registration on after the driver reported `outcome`, and says
    /// what the driver is to do next.
    ///
    /// When the proxy has just been built, the topic is encoded here, and its
    /// encoding is what the driver is asked to convert.
    pub fn advance(&mut self, outcome: ForeignOutcome) -> (action: Action)
        ensures
            final(self).request() == old(self).request(),
            final(self).handle() == old(self).handle(),
            final(self).topic() == old(self).topic(),
            final(self).order() == old(self).order(),
            (final(self).state(), action@) == transition(
                old(self).request(),
                old(self).state(),
                outcome@,
                topic_encoding(old(self).order(), old(self).topic()),
            ),
    {
        let encoded_topic: Result<Vec<u8>, StatusCode> = match &self.state {
            RegistrationState::ConstructingProxy => encode_topic(&self.topic, self.order),
            _ => Err(StatusCode::BAD_VALUE),
        };
        self.advance_with(outcome, encoded_topic)
    }
}

/// Why an inbound message is not delivered.
#[derive(Clone, Copy, Debug, PartialEq, Eq, Structural)]
pub enum DropReason {
    /// The bytes that came with the handle are not an encoded message.
    Undecodable(DecodeError),
    /// The handle stands for no listener, for one that was unregistered, say.
    UnknownHandle,
}

/// What is to happen to an inbound message.
#[derive(Debug)]
pub enum Delivery<'a, L> {
    /// The listener is to receive the message.
    Deliver { listener: &'a Listener<L>, message: up_rust::UMessage },
    /// The message is dropped, and no listener is to be called.
    Dropped(DropReason),
}

/// What becomes of an inbound message for `handle`, given what decoding made of
/// the bytes that came with it.
///
/// A message that could not be decoded is dropped. A decoded message goes to the
/// listener that the handle stands for, and is dropped if there is none.
pub open spec fn routed<'a, L>(
    registry: RegistryView<L>,
    handle: u64,
    decoded: Result<up_rust::UMessage, DecodeError>,
) -> Delivery<'a, L> {
    match decoded {
        Err(error) => Delivery::Dropped(DropReason::Undecodable(error)),
        Ok(message) => match registry.resolve(handle) {
            Some(listener) => Delivery::Deliver { listener: &listener, message },
            None => Delivery::Dropped(DropReason::UnknownHandle),
        },
    }
}

/// A message for a handle that stands for no listener is dropped, whatever came
/// with it.
pub proof fn lemma_unknown_handle_is_dropped<'a, L>(
    registry: RegistryView<L>,
    handle: u64,
    decoded: Result<up_rust::UMessage, DecodeError>,
)
    requires
        registry.resolve(handle) is None,
    ensures
        routed::<L>(registry, handle, decoded) is Dropped,
{
}

/// The bridge between a native transport and the foreign runtime: the registry
/// of the listeners it has registered, and the byte order of the transport.
#[derive(Debug)]
pub struct TransportBridge<L> {
    order: ByteOrder,
    registry: ListenerRegistry<L>,
}

impl<L> TransportBridge<L> {
    /// The registrations that the bridge holds.
    pub closed spec fn registry(&self) -> RegistryView<L> {
        self.registry@
    }

    /// The byte order of the transport.
    pub closed spec fn order(&self) -> ByteOrder {
        self.order
    }

    /// The registry of the bridge is well formed. Every constructor establishes
    /// this and every method keeps it.
    pub open spec fn wf(&self) -> bool {
        self.registry().wf()
    }

    /// A bridge without registrations, for a transport of the given byte order.
    pub fn new(order: ByteOrder) -> (bridge: TransportBridge<L>)
        ensures
            bridge.wf(),
            bridge.order() == order,
            bridge.registry().registrations == Seq::<crate::listener_registry::Registration>::empty(),
            bridge.registry().listeners == Map::<u64, Listener<L>>::empty(),
    {
        TransportBridge { order, registry: ListenerRegistry::new() }
    }

    /// The registry of the bridge.
    pub fn listeners(&self) -> (registry: &ListenerRegistry<L>)
        ensures
            registry@ == self.registry(),
    {
        &self.registry
    }

    /// Starts the registration of `listener` on `topic`.
    ///
    /// The listener is stored in the registry (see
    /// [`ListenerRegistry::store_listener`]), and the registration that is
    /// returned asks first for the foreign-side proxy that carries the handle.
    /// From here on [`Registration::advance`] leads the driver. Whatever comes of
    /// the registration, the handle stays in the registry.
    pub fn register_listener(&mut self, topic: Topic, listener: Listener<L>) -> (started: (
        Registration,
        Action,
    ))
        requires
            old(self).wf(),
        ensures
            final(self).wf(),
            final(self).order() == old(self).order(),
            final(self).registry() == old(self).registry().store(topic@, listener),
            started.0.request() == Request::Register,
            started.0.state() == RegistrationStateView::ConstructingProxy,
            started.0.handle() == listener_handle(topic@, listener.identity),
            started.0.topic() == topic@,
            started.0.order() == old(self).order(),
            started.1@ == (ActionView::ConstructProxy {
                handle: handle_as_signed(listener_handle(topic@, listener.identity)),
            }),
    {
        let handle: u64 = self.registry.store_listener(topic.clone(), listener);
        let registration = Registration {
            request: Request::Register,
            state: RegistrationState::ConstructingProxy,
            handle,
            topic,
            order: self.order,
        };
        (registration, Action::Call(ForeignCall::ConstructProxy { handle: handle_to_foreign(handle) }))
    }

    /// Unregisters the listener `identity` from `topic` (see
    /// [`ListenerRegistry::remove_listener`]) and starts the withdrawal on the
    /// remote side.
    ///
    /// Returns whether there was such a registration, and the withdrawal, which
    /// asks first for the foreign-side proxy that carries the handle of the
    /// registration. From here on [`Registration::advance`] leads the driver to
    /// the remote method that stops the delivery.
    pub fn unregister_listener(&mut self, topic: &Topic, identity: u64) -> (started: (
        bool,
        Registration,
        Action,
    ))
        requires
            old(self).wf(),
        ensures
            final(self).wf(),
            final(self).order() == old(self).order(),
            final(self).registry() == old(self).registry().remove(topic@, identity),
            started.0 == old(self).registry().holds(topic@, identity),
            started.1.request() == Request::Unregister,
            started.1.state() == RegistrationStateView::ConstructingProxy,
            started.1.handle() == listener_handle(topic@, identity),
            started.1.topic() == topic@,
            started.1.order() == old(self).order(),
            started.2@ == (ActionView::ConstructProxy {
                handle: handle_as_signed(listener_handle(topic@, identity)),
            }),
    {
        let removed: bool = self.registry.remove_listener(topic, identity);
        let handle: u64 = crate::listener_registry::compute_handle(topic, identity);
        let withdrawal = Registration {
            request: Request::Unregister,
            state: RegistrationState::ConstructingProxy,
            handle,
            topic: topic.clone(),
            order: self.order,
        };
        (
            removed,
            withdrawal,
            Action::Call(ForeignCall::ConstructProxy { handle: handle_to_foreign(handle) }),
        )
    }

    /// Decides what becomes of an inbound message for `listener_id`, given what
    /// decoding made of the bytes that came with it.
    pub fn route(&self, listener_id: u64, decoded: Result<up_rust::UMessage, DecodeError>) -> (delivery:
        Delivery<'_, L>)
        ensures
            delivery == routed::<L>(self.registry(), listener_id, decoded),
    {
        match decoded {
            Err(error) => Delivery::Dropped(DropReason::Undecodable(error)),
            Ok(message) => match self.registry.get_listener(listener_id) {
                Some(listener) => Delivery::Deliver { listener, message },
                None => Delivery::Dropped(DropReason::UnknownHandle),
            },
        }
    }

    /// Decides what becomes of the inbound message `message_bytes` for
    /// `listener_id`.
    ///
    /// The bytes are decoded first, and [`TransportBridge::route`] decides on what
    /// decoding made of them. So bytes that do not decode to a message are
    /// dropped, a message for a handle that stands for no listener is dropped,
    /// and a message is only ever delivered to the listener that its handle
    /// stands for.
    pub fn on_receive(&self, listener_id: u64, message_bytes: &[u8]) -> (delivery: Delivery<'_, L>)
        ensures
            delivery == routed::<L>(
                self.registry(),
                listener_id,
                message_decoding(self.order(), message_bytes@),
            ),
            self.registry().resolve(listener_id) is None ==> delivery is Dropped,
            delivery matches Delivery::Deliver { listener, .. } ==> self.registry().resolve(
                listener_id,
            ) == Some(*listener),
    {
        self.route(listener_id, crate::parcelable_stubs::decode(message_bytes, self.order))
    }
}

} // verus!
