//! Command dispatch: a read-only registry from command name to handler,
//! populated once before the first request is served and never mutated
//! afterwards. Lookup is exact-match and case-sensitive; an unknown name is
//! an error, never a fallback handler.

use vstd::prelude::*;

use crate::discord::{ChannelMessageWithSourceData, InteractionResponse, MessageDataModel,
    ResponseModel};
use crate::strutil::str_eq;

verus! {

/// Why dispatch failed.
#[derive(Clone, Copy, Debug, PartialEq, Eq, Structural)]
pub enum DispatchError {
    /// No handler is registered under exactly the requested name.
    UnknownCommand,
}

/// The closed set of command handlers the engine ships.
#[derive(Clone, Copy, Debug, PartialEq, Eq, Structural)]
pub enum Handler {
    Ping,
}

/// The response a handler produces. A handler takes no arguments, so its
/// response is determined by the handler alone.
pub open spec fn spec_handler_response(h: Handler) -> ResponseModel {
    match h {
        Handler::Ping => ResponseModel::ChannelMessageWithSource(
            MessageDataModel {
                tts: None,
                content: Some("Pong!"@),
                embeds: None,
                allowed_mentions: None,
                flags: None,
                components: None,
                attachments: None,
            },
        ),
    }
}

/// Invoke a handler.
pub fn handler_response(h: &Handler) -> (r: InteractionResponse)
    ensures
        r@ == spec_handler_response(*h),
{
    match h {
        Handler::Ping => InteractionResponse::ChannelMessageWithSource(
            ChannelMessageWithSourceData::content("Pong!"),
        ),
    }
}

/// One registered command.
pub struct Command {
    pub name: String,
    pub description: String,
    pub handler: Handler,
}

/// Model of a registered command.
pub struct CommandModel {
    pub name: Seq<char>,
    pub description: Seq<char>,
    pub handler: Handler,
}

impl View for Command {
    type V = CommandModel;

    open spec fn view(&self) -> CommandModel {
        CommandModel { name: self.name@, description: self.description@, handler: self.handler }
    }
}

/// The read-only name-to-handler mapping used for dispatch.
pub struct CommandRegistry {
    entries: Vec<Command>,
}

impl View for CommandRegistry {
    type V = Seq<CommandModel>;

    closed spec fn view(&self) -> Seq<CommandModel> {
        self.entries@.map_values(|c: Command| c@)
    }
}

/// The first handler registered under exactly `name`.
pub open spec fn spec_lookup(entries: Seq<CommandModel>, name: Seq<char>) -> Option<Handler>
    decreases entries.len(),
{
    if entries.len() == 0 {
        None
    } else if entries[0].name == name {
        Some(entries[0].handler)
    } else {
        spec_lookup(entries.drop_first(), name)
    }
}

/// Dispatch is exact-match: a name resolves if and only if some entry's
/// name equals it character for character — no case folding, no trimming.
pub proof fn lemma_dispatch_exact_match(entries: Seq<CommandModel>, name: Seq<char>)
    ensures
        (spec_lookup(entries, name) is Some) <==> (exists|i: int|
            0 <= i < entries.len() && entries[i].name == name),
    decreases entries.len(),
{
    if entries.len() > 0 {
        lemma_dispatch_exact_match(entries.drop_first(), name);
        if entries[0].name == name {
            assert(entries[0].name == name);
        } else {
            if spec_lookup(entries, name) is Some {
                let j = choose|j: int|
                    0 <= j < entries.drop_first().len() && entries.drop_first()[j].name == name;
                assert(entries[j + 1].name == name);
            }
            if exists|i: int| 0 <= i < entries.len() && entries[i].name == name {
                let i = choose|i: int| 0 <= i < entries.len() && entries[i].name == name;
                assert(i > 0);
                assert(entries.drop_first()[i - 1].name == name);
            }
        }
    }
}

impl CommandRegistry {
    /// An empty registry.
    pub fn new() -> (r: CommandRegistry)
        ensures
            r@ =~= Seq::<CommandModel>::empty(),
    {
        let r = CommandRegistry { entries: Vec::new() };
        proof {
            assert(r@ =~= Seq::<CommandModel>::empty());
        }
        r
    }

    /// Register one more command; meaningful only while the table is being
    /// built, before serving begins.
    pub fn register(&mut self, name: &str, description: &str, handler: Handler)
        ensures
            final(self)@ =~= old(self)@.push(
                CommandModel { name: name@, description: description@, handler },
            ),
    {
        self.entries.push(
            Command {
                name: String::from_str(name),
                description: String::from_str(description),
                handler,
            },
        );
    }

    /// Exact-match lookup: the first handler registered under exactly
    /// `name`, and `Some` if and only if such an entry exists.
    pub fn lookup(&self, name: &str) -> (r: Option<Handler>)
        ensures
            r == spec_lookup(self@, name@),
            (r is Some) <==> (exists|i: int| 0 <= i < self@.len() && self@[i].name == name@),
    {
        let n = self.entries.len();
        let mut i: usize = 0;
        proof {
            assert(self@.skip(0) =~= self@);
        }
        while i < n
            invariant
                n == self.entries@.len(),
                i <= n,
                forall|j: int| 0 <= j < i ==> self@[j].name != name@,
                spec_lookup(self@, name@) == spec_lookup(self@.skip(i as int), name@),
            decreases n - i,
        {
            if str_eq(name, self.entries[i].name.as_str()) {
                proof {
                    assert(self@.skip(i as int)[0] == self@[i as int]);
                }
                return Some(self.entries[i].handler);
            }
            proof {
                assert(self@.skip(i as int).drop_first() =~= self@.skip(i + 1));
                assert(self@.skip(i as int)[0] == self@[i as int]);
            }
            i = i + 1;
        }
        proof {
            assert(self@.skip(n as int) =~= Seq::<CommandModel>::empty());
        }
        None
    }
}

/// Model of the registry the engine serves with.
pub open spec fn default_registry_model() -> Seq<CommandModel> {
    seq![CommandModel { name: "ping"@, description: "Simple ping"@, handler: Handler::Ping }]
}

/// The registry the engine serves with: the built-in commands, registered
/// once before the first request.
pub fn default_registry() -> (r: CommandRegistry)
    ensures
        r@ =~= default_registry_model(),
{
    let mut r = CommandRegistry::new();
    r.register("ping", "Simple ping", Handler::Ping);
    proof {
        assert(r@ =~= default_registry_model());
    }
    r
}

/// The registered commands as (name, description) pairs, for out-of-band
/// registration with the calling platform.
pub fn commands() -> (r: Vec<(String, String)>)
    ensures
        r@.len() == default_registry_model().len(),
        forall|i: int|
            0 <= i < r@.len() ==> r@[i].0@ == default_registry_model()[i].name && r@[i].1@
                == default_registry_model()[i].description,
{
    let mut v: Vec<(String, String)> = Vec::new();
    v.push((String::from_str("ping"), String::from_str("Simple ping")));
    v
}

/// Dispatch a command name over the engine's registry and run its handler;
/// an unregistered name is an unknown-command error, never a fallback.
pub fn run(name: &str) -> (r: Result<InteractionResponse, DispatchError>)
    ensures
        (match r {
            Ok(resp) => spec_lookup(default_registry_model(), name@) matches Some(h) && resp@
                == spec_handler_response(h),
            Err(e) => spec_lookup(default_registry_model(), name@) is None && e
                == DispatchError::UnknownCommand,
        }),
{
    let reg = default_registry();
    match reg.lookup(name) {
        Some(h) => Ok(handler_response(&h)),
        None => Err(DispatchError::UnknownCommand),
    }
}

} // verus!
