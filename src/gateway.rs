//! The greeter's persistent state, the inbound authorization rule and the
//! outbound call to the L1 counterpart.

use crate::address::{alias_of, alias_value, lemma_alias_differs, lemma_value_injective, Address};
use crate::calldata::{call_data_for, encode_call};
use vstd::prelude::*;
use vstd::string::StringSliceAdditionalSpecFns;
use vstd::utf8::encode_utf8;

verus! {

/// Textual signature of the function that is called on the L1 counterpart.
pub const SET_GREETING_SIGNATURE: &'static str = "setGreeting(string)";

/// Why an operation of the greeter was rejected.
#[derive(Clone, Copy, Debug, PartialEq, Eq, Structural)]
pub enum GreeterError {
    /// The inbound caller is not the alias of the registered counterpart.
    Unauthorized,
    /// The transport refused the outbound message.
    OutboundDispatchFailed,
}

impl GreeterError {
    /// The revert message that the contract reports for this error.
    pub fn message(&self) -> (r: &'static str)
        ensures
            *self == GreeterError::Unauthorized ==> r@ == "Greeting only updateable by L1"@,
            *self == GreeterError::OutboundDispatchFailed ==> r@ == "External call failed"@,
    {
        match self {
            GreeterError::Unauthorized => "Greeting only updateable by L1",
            GreeterError::OutboundDispatchFailed => "External call failed",
        }
    }
}

/// The identifier that the transport gives a submitted message: an unsigned
/// 256-bit number as 32 big-endian bytes.
#[derive(Clone, Copy, Debug, PartialEq, Eq)]
pub struct MessageId {
    pub bytes: [u8; 32],
}

/// The transport's refusal of an outbound message.
#[derive(Clone, Copy, Debug, PartialEq, Eq)]
pub struct TransportError;

/// The event emitted once an outbound message has been accepted.
#[derive(Clone, Copy, Debug, PartialEq, Eq)]
pub struct L2ToL1TxCreated {
    pub withdrawal_id: MessageId,
}

/// What the greeter's state means: the greeting and the registered counterpart.
pub struct GreeterModel {
    pub greeting: Seq<char>,
    pub l1_target: Address,
}

impl GreeterModel {
    /// An inbound call from `caller` may change state exactly when `caller`
    /// is the alias of the registered counterpart.
    pub open spec fn authorizes(self, caller: Address) -> bool {
        caller.value() == alias_value(self.l1_target.value())
    }

    /// The state after `caller` asked to set the greeting to `g`.
    pub open spec fn after_set_greeting(self, caller: Address, g: Seq<char>) -> GreeterModel {
        if self.authorizes(caller) {
            GreeterModel { greeting: g, l1_target: self.l1_target }
        } else {
            self
        }
    }

    /// What `caller`'s request to set the greeting returns.
    pub open spec fn set_greeting_result(self, caller: Address) -> Result<(), GreeterError> {
        if self.authorizes(caller) {
            Ok(())
        } else {
            Err(GreeterError::Unauthorized)
        }
    }

    /// The state after the counterpart is registered as `t`.
    pub open spec fn after_update_l1_target(self, t: Address) -> GreeterModel {
        GreeterModel { greeting: self.greeting, l1_target: t }
    }
}

/// What an outbound dispatch returns, given what the transport returned.
pub open spec fn dispatch_result(outcome: Result<MessageId, TransportError>) -> Result<
    MessageId,
    GreeterError,
> {
    match outcome {
        Ok(id) => Ok(id),
        Err(_) => Err(GreeterError::OutboundDispatchFailed),
    }
}

/// The event log after an outbound dispatch whose transport returned `outcome`.
pub open spec fn log_after(
    log: Seq<L2ToL1TxCreated>,
    outcome: Result<MessageId, TransportError>,
) -> Seq<L2ToL1TxCreated> {
    match outcome {
        Ok(id) => log.push(L2ToL1TxCreated { withdrawal_id: id }),
        Err(_) => log,
    }
}

/// Turns the transport's answer into the operation's result, and records the
/// event for an accepted message.
pub fn record_dispatch(
    outcome: Result<MessageId, TransportError>,
    log: &mut Vec<L2ToL1TxCreated>,
) -> (r: Result<MessageId, GreeterError>)
    ensures
        r == dispatch_result(outcome),
        final(log)@ == log_after(old(log)@, outcome),
{
    match outcome {
        Ok(id) => {
            log.push(L2ToL1TxCreated { withdrawal_id: id });
            Ok(id)
        },
        Err(_) => Err(GreeterError::OutboundDispatchFailed),
    }
}

/// The registered counterpart's own address is never authorized: only its
/// alias is.
pub proof fn lemma_raw_counterpart_not_authorized(s: GreeterModel)
    ensures
        !s.authorizes(s.l1_target),
{
    lemma_alias_differs(s.l1_target);
}

/// Setting the greeting from the counterpart's own (unaliased) address fails
/// with `Unauthorized` and leaves the state as it was.
pub proof fn lemma_raw_counterpart_rejected(s: GreeterModel, g: Seq<char>)
    ensures
        s.set_greeting_result(s.l1_target) == Err::<(), GreeterError>(GreeterError::Unauthorized),
        s.after_set_greeting(s.l1_target, g) == s,
{
    lemma_raw_counterpart_not_authorized(s);
}

/// Setting the greeting from the alias of the counterpart succeeds, and the
/// greeting read afterwards is exactly the new one.
pub proof fn lemma_alias_sets_greeting(s: GreeterModel, caller: Address, g: Seq<char>)
    requires
        caller.value() == alias_value(s.l1_target.value()),
    ensures
        s.set_greeting_result(caller) == Ok::<(), GreeterError>(()),
        s.after_set_greeting(caller, g).greeting == g,
        s.after_set_greeting(caller, g).l1_target == s.l1_target,
{
}

/// Registering a counterpart and reading it back gives the same address,
/// the zero address included.
pub proof fn lemma_l1_target_round_trip(s: GreeterModel, x: Address)
    ensures
        s.after_update_l1_target(x).l1_target == x,
        s.after_update_l1_target(x).greeting == s.greeting,
{
}

/// The L2 greeter contract's state.
pub struct GreeterL2 {
    greeting: String,
    l1_target: Address,
}

impl View for GreeterL2 {
    type V = GreeterModel;

    closed spec fn view(&self) -> GreeterModel {
        GreeterModel { greeting: self.greeting@, l1_target: self.l1_target }
    }
}

impl GreeterL2 {
    /// A freshly deployed greeter: empty greeting, zero counterpart.
    pub fn new() -> (r: GreeterL2)
        ensures
            r@.greeting == Seq::<char>::empty(),
            r@.l1_target.value() == 0,
    {
        GreeterL2 { greeting: String::new(), l1_target: Address::zero() }
    }

    /// The greeter whose stored greeting is `greeting` and whose registered
    /// counterpart is `l1_target`.
    pub fn load(greeting: String, l1_target: Address) -> (r: GreeterL2)
        ensures
            r@ == (GreeterModel { greeting: greeting@, l1_target }),
    {
        GreeterL2 { greeting, l1_target }
    }

    /// The registered counterpart.
    pub fn get_l1_target(&self) -> (r: Result<Address, GreeterError>)
        ensures
            r == Ok::<Address, GreeterError>(self@.l1_target),
    {
        Ok(self.l1_target)
    }

    /// Registers `l1_target` as the counterpart. Anyone may call this.
    pub fn update_l1_target(&mut self, l1_target: Address) -> (r: Result<(), GreeterError>)
        ensures
            r == Ok::<(), GreeterError>(()),
            final(self)@ == old(self)@.after_update_l1_target(l1_target),
    {
        self.l1_target = l1_target;
        Ok(())
    }

    /// The stored greeting.
    pub fn greet(&self) -> (r: Result<String, GreeterError>)
        ensures
            r matches Ok(g) && g@ == self@.greeting,
    {
        Ok(self.greeting.clone())
    }

    /// Whether an inbound call from `caller` comes from the registered
    /// counterpart through the bridge.
    pub fn authorize_inbound(&self, caller: Address) -> (r: bool)
        ensures
            r == self@.authorizes(caller),
    {
        let alias = alias_of(self.l1_target);
        proof {
            lemma_value_injective(caller, alias);
        }
        caller == alias
    }

    /// Sets the greeting on behalf of `caller`, which must be the alias of the
    /// registered counterpart; otherwise nothing changes.
    pub fn set_greeting(&mut self, caller: Address, greeting: String) -> (r: Result<
        (),
        GreeterError,
    >)
        ensures
            r == old(self)@.set_greeting_result(caller),
            final(self)@ == old(self)@.after_set_greeting(caller, greeting@),
    {
        if !self.authorize_inbound(caller) {
            return Err(GreeterError::Unauthorized);
        }
        self.greeting = greeting;
        Ok(())
    }

    /// Calls the function with textual signature `function_signature` on the
    /// counterpart: the call data goes to `submit` together with the
    /// counterpart, and its answer decides the result and the logged event.
    pub fn build_and_dispatch<F>(
        &self,
        function_signature: &str,
        args_encoded: &[u8],
        submit: F,
        log: &mut Vec<L2ToL1TxCreated>,
    ) -> (r: Result<MessageId, GreeterError>) where
        F: FnOnce(Address, Vec<u8>) -> Result<MessageId, TransportError>,

        requires
            forall|d: Address, p: Vec<u8>| call_requires(submit, (d, p)),
        ensures
            exists|p: Vec<u8>, outcome: Result<MessageId, TransportError>|
                #![trigger call_ensures(submit, (self@.l1_target, p), outcome)]
                p@ == call_data_for(function_signature.spec_bytes(), args_encoded@)
                    && call_ensures(submit, (self@.l1_target, p), outcome)
                    && r == dispatch_result(outcome)
                    && final(log)@ == log_after(old(log)@, outcome),
    {
        let payload = encode_call(function_signature, args_encoded);
        let ghost p = payload;
        let outcome = submit(self.l1_target, payload);
        let ghost o = outcome;
        let r = record_dispatch(outcome, log);
        assert(call_ensures(submit, (self@.l1_target, p), o));
        r
    }

    /// Asks the counterpart to set its greeting to `greeting`.
    pub fn set_greeting_in_l1<F>(
        &self,
        greeting: String,
        submit: F,
        log: &mut Vec<L2ToL1TxCreated>,
    ) -> (r: Result<MessageId, GreeterError>) where
        F: FnOnce(Address, Vec<u8>) -> Result<MessageId, TransportError>,

        requires
            forall|d: Address, p: Vec<u8>| call_requires(submit, (d, p)),
        ensures
            exists|p: Vec<u8>, outcome: Result<MessageId, TransportError>|
                #![trigger call_ensures(submit, (self@.l1_target, p), outcome)]
                p@ == call_data_for(
                    SET_GREETING_SIGNATURE.spec_bytes(),
                    encode_utf8(greeting@),
                ) && call_ensures(submit, (self@.l1_target, p), outcome) && r == dispatch_result(
                    outcome,
                ) && final(log)@ == log_after(old(log)@, outcome),
    {
        self.build_and_dispatch(SET_GREETING_SIGNATURE, greeting.as_str().as_bytes(), submit, log)
    }
}

} // verus!
