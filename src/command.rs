use vstd::prelude::*;
use crate::plan::missing_message;
use crate::slot::{
    assigned, collected, finish_optional, finish_repeated, pushed, push_item, set_slot,
    take_optional, take_repeated, take_required,
};

verus! {

/// A command line to run: the struct that the builder below is made for.
/// Its `args` field carries the directive `builder(each = "arg")`.
#[derive(Debug)]
pub struct Command {
    pub executable: String,
    pub args: Vec<String>,
    pub env: Vec<String>,
    pub current_dir: Option<String>,
}

/// The builder generated for `Command`: one slot per field.
#[derive(Debug)]
pub struct CommandBuilder {
    pub executable: Option<String>,
    pub args: Option<Vec<String>>,
    pub env: Option<Vec<String>>,
    pub current_dir: Option<String>,
}

impl Command {
    /// A builder with every slot unset.
    pub fn builder() -> (r: CommandBuilder)
        ensures
            r.executable is None,
            r.args is None,
            r.env is None,
            r.current_dir is None,
    {
        CommandBuilder { executable: None, args: None, env: None, current_dir: None }
    }
}

impl CommandBuilder {
    pub fn executable(&mut self, executable: String) -> (r: &mut Self)
        ensures
            *r == (CommandBuilder { executable: assigned(old(self).executable, executable), ..*old(self) }),
            *final(self) == *final(r),
    {
        set_slot(&mut self.executable, executable);
        self
    }

    /// Appends one argument.
    pub fn arg(&mut self, arg: String) -> (r: &mut Self)
        ensures
            collected(r.args) == pushed(collected(old(self).args), arg),
            r.executable == old(self).executable,
            r.env == old(self).env,
            r.current_dir == old(self).current_dir,
            *final(self) == *final(r),
    {
        push_item(&mut self.args, arg);
        self
    }

    /// Replaces the whole list of arguments.
    pub fn args(&mut self, args: Vec<String>) -> (r: &mut Self)
        ensures
            *r == (CommandBuilder { args: assigned(old(self).args, args), ..*old(self) }),
            *final(self) == *final(r),
    {
        set_slot(&mut self.args, args);
        self
    }

    pub fn env(&mut self, env: Vec<String>) -> (r: &mut Self)
        ensures
            *r == (CommandBuilder { env: assigned(old(self).env, env), ..*old(self) }),
            *final(self) == *final(r),
    {
        set_slot(&mut self.env, env);
        self
    }

    pub fn current_dir(&mut self, current_dir: String) -> (r: &mut Self)
        ensures
            *r == (CommandBuilder { current_dir: assigned(old(self).current_dir, current_dir), ..*old(self) }),
            *final(self) == *final(r),
    {
        set_slot(&mut self.current_dir, current_dir);
        self
    }

    /// Assembles the `Command`. Fails, and leaves the builder as it was,
    /// while `executable` is unset; otherwise moves every value out,
    /// leaving each slot unset.
    pub fn build(&mut self) -> (r: Result<Command, String>)
        ensures
            r is Ok <==> old(self).executable is Some,
            match r {
                Ok(c) => {
                    &&& c.executable == old(self).executable->Some_0
                    &&& c.args@ == finish_repeated(collected(old(self).args))
                    &&& c.env@ == finish_repeated(collected(old(self).env))
                    &&& c.current_dir == finish_optional(old(self).current_dir)
                    &&& final(self).executable is None
                    &&& final(self).args is None
                    &&& final(self).env is None
                    &&& final(self).current_dir is None
                },
                Err(e) => e@ == missing_message("executable"@) && *final(self) == *old(self),
            },
    {
        if self.executable.is_none() {
            let mut message = String::from_str("Field ");
            message.append("executable");
            message.append(" not initialized");
            return Err(message);
        }
        Ok(Command {
            executable: take_required(&mut self.executable),
            args: take_repeated(&mut self.args),
            env: take_repeated(&mut self.env),
            current_dir: take_optional(&mut self.current_dir),
        })
    }
}

} // verus!
