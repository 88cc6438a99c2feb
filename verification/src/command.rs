//! The demo record type `Command` with the builder artifacts that synthesis
//! defines for it: the builder type, the factory, one setter per field and
//! the finalizer, written out concretely for this one record.

use vstd::prelude::*;

use crate::instance::BuildError;

verus! {

/// A record with four named fields, in this declaration order.
#[derive(Debug)]
pub struct Command {
    pub executable: String,
    pub args: Vec<String>,
    pub env: Vec<String>,
    pub current_dir: String,
}

/// The builder for `Command`: one optional slot per field, in the record's
/// declaration order, and nothing else.
pub struct CommandBuilder {
    executable: Option<String>,
    args: Option<Vec<String>>,
    env: Option<Vec<String>>,
    current_dir: Option<String>,
}

impl CommandBuilder {
    /// The `executable` slot.
    pub closed spec fn executable_slot(self) -> Option<String> {
        self.executable
    }

    /// The `args` slot.
    pub closed spec fn args_slot(self) -> Option<Vec<String>> {
        self.args
    }

    /// The `env` slot.
    pub closed spec fn env_slot(self) -> Option<Vec<String>> {
        self.env
    }

    /// The `current_dir` slot.
    pub closed spec fn current_dir_slot(self) -> Option<String> {
        self.current_dir
    }

    /// Every slot holds a value.
    pub open spec fn all_slots_set(self) -> bool {
        &&& self.executable_slot() is Some
        &&& self.args_slot() is Some
        &&& self.env_slot() is Some
        &&& self.current_dir_slot() is Some
    }

    /// The name of the first unset field, in declaration order.
    pub open spec fn first_unset_name(self) -> Seq<char> {
        if self.executable_slot() is None {
            "executable"@
        } else if self.args_slot() is None {
            "args"@
        } else if self.env_slot() is None {
            "env"@
        } else {
            "current_dir"@
        }
    }

    /// Setter for `executable`: overwrites its slot, leaves the others
    /// untouched, and returns the builder for chaining. Never fails.
    pub fn executable(self, executable: String) -> (r: Self)
        ensures
            r.executable_slot() == Some(executable),
            r.args_slot() == self.args_slot(),
            r.env_slot() == self.env_slot(),
            r.current_dir_slot() == self.current_dir_slot(),
    {
        CommandBuilder { executable: Some(executable), ..self }
    }

    /// Setter for `args`: overwrites its slot, leaves the others untouched,
    /// and returns the builder for chaining. Never fails.
    pub fn args(self, args: Vec<String>) -> (r: Self)
        ensures
            r.args_slot() == Some(args),
            r.executable_slot() == self.executable_slot(),
            r.env_slot() == self.env_slot(),
            r.current_dir_slot() == self.current_dir_slot(),
    {
        CommandBuilder { args: Some(args), ..self }
    }

    /// Setter for `env`: overwrites its slot, leaves the others untouched,
    /// and returns the builder for chaining. Never fails.
    pub fn env(self, env: Vec<String>) -> (r: Self)
        ensures
            r.env_slot() == Some(env),
            r.executable_slot() == self.executable_slot(),
            r.args_slot() == self.args_slot(),
            r.current_dir_slot() == self.current_dir_slot(),
    {
        CommandBuilder { env: Some(env), ..self }
    }

    /// Setter for `current_dir`: overwrites its slot, leaves the others
    /// untouched, and returns the builder for chaining. Never fails.
    pub fn current_dir(self, current_dir: String) -> (r: Self)
        ensures
            r.current_dir_slot() == Some(current_dir),
            r.executable_slot() == self.executable_slot(),
            r.args_slot() == self.args_slot(),
            r.env_slot() == self.env_slot(),
    {
        CommandBuilder { current_dir: Some(current_dir), ..self }
    }

    /// The finalizer: checks the slots in declaration order and fails at the
    /// first unset one, naming that field; when every slot is set, assembles
    /// a `Command` holding a copy of each slot's value. The builder is left
    /// untouched either way, so a failed attempt can be retried after more
    /// setter calls.
    pub fn build(&self) -> (r: Result<Command, BuildError>)
        ensures
            match r {
                Ok(c) => {
                    &&& self.all_slots_set()
                    &&& c.executable == self.executable_slot()->0
                    &&& c.args@ == self.args_slot()->0@
                    &&& c.env@ == self.env_slot()->0@
                    &&& c.current_dir == self.current_dir_slot()->0
                },
                Err(BuildError::FieldNotSet(name)) => {
                    &&& !self.all_slots_set()
                    &&& name@ == self.first_unset_name()
                },
            },
    {
        if self.executable.is_none() {
            return Err(BuildError::FieldNotSet(String::from_str("executable")));
        }
        if self.args.is_none() {
            return Err(BuildError::FieldNotSet(String::from_str("args")));
        }
        if self.env.is_none() {
            return Err(BuildError::FieldNotSet(String::from_str("env")));
        }
        if self.current_dir.is_none() {
            return Err(BuildError::FieldNotSet(String::from_str("current_dir")));
        }
        let args = clone_strings(self.args.as_ref().unwrap());
        let env = clone_strings(self.env.as_ref().unwrap());
        Ok(
            Command {
                executable: self.executable.as_ref().unwrap().clone(),
                args,
                env,
                current_dir: self.current_dir.as_ref().unwrap().clone(),
            },
        )
    }
}

/// Copies a vector of strings element by element; the copy's contents equal
/// the source vector's.
fn clone_strings(v: &Vec<String>) -> (r: Vec<String>)
    ensures
        r@ == v@,
{
    let mut r: Vec<String> = Vec::new();
    let n = v.len();
    for i in 0..n
        invariant
            n == v@.len(),
            r@.len() == i,
            forall|j: int| 0 <= j < i ==> r@[j] == v@[j],
    {
        r.push(v[i].clone());
    }
    proof {
        assert(r@ =~= v@);
    }
    r
}

impl Command {
    /// The factory: a fresh builder with every slot unset. Pure and always
    /// succeeds.
    pub fn builder() -> (b: CommandBuilder)
        ensures
            b.executable_slot() is None,
            b.args_slot() is None,
            b.env_slot() is None,
            b.current_dir_slot() is None,
    {
        CommandBuilder { executable: None, args: None, env: None, current_dir: None }
    }
}

} // verus!
