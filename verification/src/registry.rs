//! The command registry: named commands, their argument arity, and their
//! access restrictions, immutable after registration.

use vstd::prelude::*;
use crate::text::str_eq;

verus! {

/// One registered command: its name, the minimum number of arguments it
/// requires, and the restriction predicates the dispatcher evaluates before
/// ever invoking its handler.
pub struct CommandSpec {
    pub name: String,
    pub min_args: usize,
    pub guild_only: bool,
    pub owner_only: bool,
}

/// Why a registration was refused.
#[derive(Clone, Copy, PartialEq, Eq, Structural, Debug)]
pub enum RegistryError {
    DuplicateCommand,
}

/// The set of registered commands, owned for the process lifetime.
pub struct Registry {
    pub commands: Vec<CommandSpec>,
}

impl Registry {
    /// Registered names are pairwise distinct.
    pub open spec fn wf(self) -> bool {
        forall|i: int, j: int|
            0 <= i < j < self.commands@.len() ==> self.commands@[i].name@ != self.commands@[j].name@
    }

    /// A command of that name is registered.
    pub open spec fn has_name(self, name: Seq<char>) -> bool {
        exists|i: int| 0 <= i < self.commands@.len() && self.commands@[i].name@ == name
    }

    /// An empty registry.
    pub fn new() -> (r: Registry)
        ensures
            r.wf(),
            r.commands@.len() == 0,
    {
        Registry { commands: Vec::new() }
    }

    /// Adds a command; fails with `DuplicateCommand`, leaving the registry
    /// unchanged, exactly when the name is already taken.
    pub fn register(&mut self, cmd: CommandSpec) -> (r: Result<(), RegistryError>)
        requires
            old(self).wf(),
        ensures
            final(self).wf(),
            r is Err <==> old(self).has_name(cmd.name@),
            r is Err ==> r->Err_0 == RegistryError::DuplicateCommand && *final(self) == *old(
                self,
            ),
            r is Ok ==> final(self).commands@ == old(self).commands@.push(cmd),
    {
        match self.resolve(cmd.name.as_str()) {
            Some(_) => Err(RegistryError::DuplicateCommand),
            None => {
                self.commands.push(cmd);
                Ok(())
            },
        }
    }

    /// Looks a name up: returns the index of the command bearing it, or
    /// `None` exactly when no registered command does.
    pub fn resolve(&self, name: &str) -> (r: Option<usize>)
        ensures
            r is Some <==> self.has_name(name@),
            r is Some ==> r->0 < self.commands@.len() && self.commands@[r->0 as int].name@
                == name@,
    {
        let n = self.commands.len();
        let mut i: usize = 0;
        while i < n
            invariant
                i <= n,
                n == self.commands@.len(),
                forall|j: int| 0 <= j < i ==> self.commands@[j].name@ != name@,
            decreases n - i,
        {
            if str_eq(self.commands[i].name.as_str(), name) {
                return Some(i);
            }
            i += 1;
        }
        None
    }
}

/// The bot's built-in command surface: `ping` and `ngg` without
/// restrictions, and `nick`, which needs one argument, a guild, and an
/// owner as caller.
pub fn builtin_registry() -> (r: Registry)
    ensures
        r.wf(),
        r.commands@.len() == 3,
        r.commands@[0].name@ == "ping"@ && r.commands@[0].min_args == 0 && !r.commands@[0].guild_only
            && !r.commands@[0].owner_only,
        r.commands@[1].name@ == "ngg"@ && r.commands@[1].min_args == 0 && !r.commands@[1].guild_only
            && !r.commands@[1].owner_only,
        r.commands@[2].name@ == "nick"@ && r.commands@[2].min_args == 1 && r.commands@[2].guild_only
            && r.commands@[2].owner_only,
{
    let mut commands: Vec<CommandSpec> = Vec::new();
    commands.push(
        CommandSpec { name: "ping".to_owned(), min_args: 0, guild_only: false, owner_only: false },
    );
    commands.push(
        CommandSpec { name: "ngg".to_owned(), min_args: 0, guild_only: false, owner_only: false },
    );
    commands.push(
        CommandSpec { name: "nick".to_owned(), min_args: 1, guild_only: true, owner_only: true },
    );
    proof {
        reveal_strlit("ping");
        reveal_strlit("ngg");
        reveal_strlit("nick");
        assert("ping"@.len() == 4 && "ngg"@.len() == 3 && "nick"@.len() == 4);
        assert("ping"@[0] != "nick"@[0]);
        assert("ping"@ != "nick"@);
    }
    Registry { commands }
}

} // verus!
