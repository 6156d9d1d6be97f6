//! The one call that leads from the plugin into the host.

use crate::marshal::{decode, decoded, encode, encoded};
use crate::opcode::VlType;
use vstd::prelude::*;

verus! {

/// Where the plugin stands between two loads.
#[derive(Clone, Copy, Debug, PartialEq, Eq, Structural)]
pub enum Lifecycle {
    /// No callback is held.
    Unloaded,
    /// The host's callback is held and the work of the load is under way.
    CallbackBound,
    /// The work of the load is done and the plugin's own window has control.
    Running,
}

/// A host callback that takes every request: any code, any two integers and any
/// payload. The host ignores what it does not know.
pub open spec fn accepts_all<E: Fn(i32, i32, i32, Option<Vec<u8>>) -> Option<Vec<u16>>>(
    engine: E,
) -> bool {
    forall|code: i32, param1: i32, param2: i32, payload: Option<Vec<u8>>|
        call_requires(engine, (code, param1, param2, payload))
}

/// The plugin's handle on the host: the callback that the host gave at load,
/// or nothing before that and after unload.
///
/// The callback stays the host's. An answer of it is a copy that the caller owns.
pub struct Bridge<E: Fn(i32, i32, i32, Option<Vec<u8>>) -> Option<Vec<u16>>> {
    engine: Option<E>,
    state: Lifecycle,
}

impl<E: Fn(i32, i32, i32, Option<Vec<u8>>) -> Option<Vec<u16>>> Bridge<E> {
    #[verifier::type_invariant]
    spec fn inv(self) -> bool {
        &&& self.state is Unloaded <==> self.engine is None
        &&& self.engine matches Some(engine) ==> accepts_all(engine)
    }

    /// The callback that is bound, if any.
    pub closed spec fn engine(&self) -> Option<E> {
        self.engine
    }

    /// The state of the lifecycle.
    pub closed spec fn spec_state(&self) -> Lifecycle {
        self.state
    }

    /// Whether a callback is bound.
    pub open spec fn spec_is_bound(&self) -> bool {
        self.engine() is Some
    }

    /// `reply` is what the host may give back for the request; with no callback
    /// bound there is no host to ask and the only answer is none.
    pub open spec fn answers(
        &self,
        vl_type: VlType,
        param1: i32,
        param2: i32,
        payload: Option<Vec<u8>>,
        reply: Option<Vec<u16>>,
    ) -> bool {
        match self.engine() {
            None => reply is None,
            Some(engine) => call_ensures(engine, (vl_type.code(), param1, param2, payload), reply),
        }
    }

    /// A bridge with no callback bound.
    pub fn new() -> (bridge: Self)
        ensures
            bridge.engine() is None,
            bridge.state() == Lifecycle::Unloaded,
    {
        Bridge { engine: None, state: Lifecycle::Unloaded }
    }

    /// The state of the lifecycle. It is `Unloaded` exactly when no callback is bound.
    #[verifier::when_used_as_spec(spec_state)]
    pub fn state(&self) -> (state: Lifecycle)
        ensures
            state == self.spec_state(),
            state is Unloaded <==> !self.is_bound(),
    {
        proof {
            use_type_invariant(self);
        }
        self.state
    }

    /// Whether a callback is bound.
    #[verifier::when_used_as_spec(spec_is_bound)]
    pub fn is_bound(&self) -> (bound: bool)
        ensures
            bound == self.spec_is_bound(),
    {
        self.engine.is_some()
    }

    /// Binds the callback that the host handed over at load.
    ///
    /// Without a callback nothing changes and the load is to be given up.
    pub fn init(&mut self, engine: Option<E>) -> (bound: bool)
        requires
            engine matches Some(f) ==> accepts_all(f),
        ensures
            bound == engine is Some,
            engine is None ==> *final(self) == *old(self),
            engine is Some ==> final(self).engine() == engine && final(self).state()
                == Lifecycle::CallbackBound,
    {
        match engine {
            None => false,
            Some(f) => {
                *self = Bridge { engine: Some(f), state: Lifecycle::CallbackBound };
                true
            },
        }
    }

    /// Marks the work of the load as done.
    pub(crate) fn enter_running(&mut self)
        requires
            old(self).is_bound(),
        ensures
            final(self).engine() == old(self).engine(),
            final(self).state() == Lifecycle::Running,
    {
        proof {
            use_type_invariant(&*self);
        }
        self.state = Lifecycle::Running;
    }

    /// Lets go of the callback when the plugin's window has closed.
    pub fn unload(&mut self)
        ensures
            final(self).engine() is None,
            final(self).state() == Lifecycle::Unloaded,
    {
        *self = Bridge { engine: None, state: Lifecycle::Unloaded };
    }

    /// Asks the host to perform an operation and hands its answer through as it is.
    ///
    /// Before a callback is bound nothing is called and there is no answer.
    pub fn invoke(
        &self,
        vl_type: VlType,
        param1: i32,
        param2: i32,
        payload: Option<Vec<u8>>,
    ) -> (reply: Option<Vec<u16>>)
        ensures
            self.answers(vl_type, param1, param2, payload, reply),
            !self.is_bound() ==> reply is None,
    {
        proof {
            use_type_invariant(self);
        }
        match &self.engine {
            None => None,
            Some(engine) => engine(vl_type.code(), param1, param2, payload),
        }
    }

    /// Reads a text value from the host.
    ///
    /// The request carries no payload. The text is what `decode` makes of the
    /// host's answer: the empty string where the host gave none, and before a
    /// callback is bound.
    pub fn get_value(&self, vl_type: VlType, vl_number: i32, vl_fn_number: i32) -> (text: String)
        ensures
            exists|reply: Option<Vec<u16>>|
                #[trigger] self.answers(vl_type, vl_number, vl_fn_number, None, reply) && text@
                    == decoded(reply),
            !self.is_bound() ==> text@ == Seq::<char>::empty(),
    {
        let reply = self.invoke(vl_type, vl_number, vl_fn_number, None);
        decode(reply)
    }

    /// Writes a text value to the host, as the payload that `encode` makes of it.
    ///
    /// The host's answer is dropped. Before a callback is bound nothing is sent.
    pub fn set_value(&self, vl_type: VlType, value: &str, vl_number: i32, vl_fn_number: i32)
        ensures
            self.is_bound() ==> exists|payload: Vec<u8>, reply: Option<Vec<u16>>|
                payload@ == encoded(value@) && #[trigger] self.answers(
                    vl_type,
                    vl_number,
                    vl_fn_number,
                    Some(payload),
                    reply,
                ),
    {
        if self.is_bound() {
            let payload = encode(value);
            let _ = self.invoke(vl_type, vl_number, vl_fn_number, Some(payload));
        }
    }
}

} // verus!
