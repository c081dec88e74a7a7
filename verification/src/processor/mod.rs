//! Routing of commands to handlers: an ordered list of handlers with
//! distinct names, of which the first that accepts a command runs.

pub mod echo;

use crate::message::{Command, CommandView};
use crate::processor::echo::EchoCommandProcessor;
use crate::socket::session::Session;
use crate::utils::text_util::same_text;
use std::sync::Arc;
use vstd::prelude::*;

verus! {

/// A handler of commands.
///
/// A verified handler sets `described` and says with `accepts` and `name`, as
/// mathematical functions, what `matches` and `get_name` return. A handler
/// written without the verifier leaves the three as they are: nothing is then
/// claimed of what it returns, and the contracts of the dispatcher, which hold
/// for described handlers, are silent about it.
pub trait CommandProcessor: Send + Sync {
    /// Whether `accepts` and `name` describe this type of handler.
    open spec fn described() -> bool {
        false
    }

    /// The commands that this handler takes.
    open spec fn accepts(&self, command: CommandView) -> bool {
        false
    }

    /// The handler's name.
    open spec fn name(&self) -> Seq<char> {
        Seq::empty()
    }

    /// Handles a command of `session`. The handler may send any number of
    /// responses to the session.
    fn process(&self, session: Arc<Session>, command: &Command);

    /// Whether this handler takes the command.
    fn matches(&self, command: &Command) -> (accepted: bool)
        ensures
            Self::described() ==> accepted == self.accepts(command@),
    ;

    /// The handler's name, which no other registered handler may share.
    fn get_name(&self) -> (name: &str)
        ensures
            Self::described() ==> name@ == self.name(),
    ;
}

/// Why a handler was not registered.
#[derive(Debug, Clone, Copy, PartialEq, Eq)]
pub enum RegistrationError {
    /// A handler of the same name is registered already.
    DuplicateName,
}

/// Whether no two handlers of the list share a name.
pub open spec fn names_distinct<P: CommandProcessor>(handlers: Seq<P>) -> bool {
    forall|i: int, j: int|
        0 <= i < j < handlers.len() ==> (#[trigger] handlers[i]).name() != (
        #[trigger] handlers[j]).name()
}

/// Whether some handler of the list has the given name.
pub open spec fn name_taken<P: CommandProcessor>(handlers: Seq<P>, name: Seq<char>) -> bool {
    exists|i: int| 0 <= i < handlers.len() && (#[trigger] handlers[i]).name() == name
}

/// Whether `target` is where routing `command` through `handlers` ends: at
/// the first handler that accepts it, or nowhere when none does.
pub open spec fn routes_to<P: CommandProcessor>(
    handlers: Seq<P>,
    command: CommandView,
    target: Option<usize>,
) -> bool {
    match target {
        Some(index) => {
            &&& index < handlers.len()
            &&& handlers[index as int].accepts(command)
            &&& forall|j: int| 0 <= j < index ==> !(#[trigger] handlers[j]).accepts(command)
        },
        None => forall|j: int|
            0 <= j < handlers.len() ==> !(#[trigger] handlers[j]).accepts(command),
    }
}

/// Routing ends in one place only: a command has at most one handler, the
/// first in registration order that accepts it.
pub proof fn lemma_route_is_unique<P: CommandProcessor>(
    handlers: Seq<P>,
    command: CommandView,
    first: Option<usize>,
    second: Option<usize>,
)
    requires
        routes_to(handlers, command, first),
        routes_to(handlers, command, second),
    ensures
        first == second,
{
    match (first, second) {
        (Some(i), Some(j)) => {
            if i < j {
                assert(!handlers[i as int].accepts(command));
            } else if j < i {
                assert(!handlers[j as int].accepts(command));
            }
        },
        (Some(i), None) => {
            assert(!handlers[i as int].accepts(command));
        },
        (None, Some(j)) => {
            assert(!handlers[j as int].accepts(command));
        },
        (None, None) => {},
    }
}

/// The ordered list of registered handlers. `P` is the type of the handlers:
/// the echo handler unless the deployment brings its own.
pub struct CommandDispatcher<P: CommandProcessor = EchoCommandProcessor> {
    processors: Vec<P>,
}

impl CommandDispatcher<EchoCommandProcessor> {
    /// A dispatcher with the echo handler registered, and no other.
    pub fn new() -> (dispatcher: CommandDispatcher<EchoCommandProcessor>)
        ensures
            dispatcher.wf(),
            dispatcher.handlers() == seq![EchoCommandProcessor {  }],
    {
        let mut dispatcher = CommandDispatcher::empty();
        let _ = dispatcher.register(EchoCommandProcessor::new());
        assert(dispatcher.handlers() =~= seq![EchoCommandProcessor {  }]);
        dispatcher
    }
}

/// A dispatcher that holds the echo handler alone routes the commands whose
/// operation is `echo` to it, and no others anywhere.
pub proof fn lemma_echo_alone_routes_echo(command: CommandView)
    ensures
        routes_to(
            seq![EchoCommandProcessor {  }],
            command,
            if command.op == "echo"@ {
                Some(0usize)
            } else {
                None
            },
        ),
{
}

impl<P: CommandProcessor> CommandDispatcher<P> {
    /// The registered handlers, in registration order.
    pub closed spec fn handlers(&self) -> Seq<P> {
        self.processors@
    }

    /// The dispatcher's invariant: no two registered handlers share a name.
    pub open spec fn wf(&self) -> bool {
        P::described() ==> names_distinct(self.handlers())
    }

    /// A dispatcher without handlers.
    pub fn empty() -> (dispatcher: CommandDispatcher<P>)
        ensures
            dispatcher.wf(),
            dispatcher.handlers().len() == 0,
    {
        CommandDispatcher { processors: Vec::new() }
    }

    /// Whether a handler of the given name is registered.
    pub fn has_name(&self, name: &str) -> (taken: bool)
        ensures
            P::described() ==> taken == name_taken(self.handlers(), name@),
    {
        let mut index: usize = 0;
        while index < self.processors.len()
            invariant
                index <= self.processors@.len(),
                P::described() ==> forall|i: int|
                    0 <= i < index ==> (#[trigger] self.processors@[i]).name() != name@,
            decreases self.processors@.len() - index,
        {
            if same_text(self.processors[index].get_name(), name) {
                return true;
            }
            index = index + 1;
        }
        false
    }

    /// Appends a handler, unless `get_name` gives a name that a registered
    /// handler gives too: then the list stays as it is.
    pub fn register(&mut self, processor: P) -> (registered: Result<(), RegistrationError>)
        requires
            old(self).wf(),
        ensures
            final(self).wf(),
            match registered {
                Ok(_) => final(self).handlers() == old(self).handlers().push(processor),
                Err(_) => final(self).handlers() == old(self).handlers(),
            },
            P::described() ==> (registered is Err <==> name_taken(
                old(self).handlers(),
                processor.name(),
            )),
    {
        if self.has_name(processor.get_name()) {
            return Err(RegistrationError::DuplicateName);
        }
        let ghost before = self.processors@;
        self.processors.push(processor);
        proof {
            let after = self.processors@;
            if P::described() {
                assert forall|i: int, j: int| 0 <= i < j < after.len() implies (
                #[trigger] after[i]).name() != (#[trigger] after[j]).name() by {
                    assert(after[i] == before[i]);
                    if j < before.len() {
                        assert(after[j] == before[j]);
                    }
                }
            }
        }
        Ok(())
    }

    /// The index of the first handler whose `matches` takes the command, or
    /// `None` when no handler does.
    pub fn route(&self, command: &Command) -> (target: Option<usize>)
        ensures
            target matches Some(index) ==> index < self.handlers().len(),
            P::described() ==> routes_to(self.handlers(), command@, target),
    {
        let mut index: usize = 0;
        while index < self.processors.len()
            invariant
                index <= self.processors@.len(),
                P::described() ==> forall|j: int|
                    0 <= j < index ==> !(#[trigger] self.processors@[j]).accepts(command@),
            decreases self.processors@.len() - index,
        {
            if self.processors[index].matches(command) {
                return Some(index);
            }
            index = index + 1;
        }
        None
    }

    /// Hands the command to the first handler that accepts it, and to no
    /// other. Returns that handler's index, or `None` when the command was
    /// not routed.
    pub fn dispatch(&self, session: Arc<Session>, command: &Command) -> (target: Option<usize>)
        ensures
            target matches Some(index) ==> index < self.handlers().len(),
            P::described() ==> routes_to(self.handlers(), command@, target),
    {
        let target = self.route(command);
        match target {
            Some(index) => {
                self.processors[index].process(session, command);
            },
            None => {},
        }
        target
    }
}

} // verus!
