use vstd::prelude::*;

verus! {

/// A hook that is told about every message a session receives.
pub trait ScriptHandler: Send + Sync {
    fn on_new_incoming_message(&self, session_id: usize, text: &str);
}

/// The registered hooks, called in the order they were registered.
pub struct ScriptEngine {
    handlers: Vec<Box<dyn ScriptHandler>>,
}

impl Default for ScriptEngine {
    fn default() -> (e: Self)
        ensures
            e.handlers() == Seq::<Box<dyn ScriptHandler>>::empty(),
    {
        Self::new()
    }
}

impl ScriptEngine {
    /// The registered hooks, in order.
    pub closed spec fn handlers(&self) -> Seq<Box<dyn ScriptHandler>> {
        self.handlers@
    }

    pub fn new() -> (e: Self)
        ensures
            e.handlers() == Seq::<Box<dyn ScriptHandler>>::empty(),
    {
        Self { handlers: Vec::new() }
    }

    /// Adds a hook after those already registered.
    pub fn register(&mut self, handler: Box<dyn ScriptHandler>)
        ensures
            final(self).handlers() == old(self).handlers().push(handler),
    {
        self.handlers.push(handler);
    }

    /// Passes a message to every hook, in registration order.
    pub fn on_new_incoming_message(&self, session_id: usize, text: &str) {
        let mut i: usize = 0;
        while i < self.handlers.len()
            invariant
                i <= self.handlers@.len(),
            decreases self.handlers@.len() - i,
        {
            self.handlers[i].on_new_incoming_message(session_id, text);
            i += 1;
        }
    }
}

} // verus!
