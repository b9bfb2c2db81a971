//! Evaluation of the dynamically computed node kinds: variable lookup and
//! shell command output.

use vstd::prelude::*;

use crate::node::Code;
use crate::node::Variable;

verus! {

/// Error from a failed attempt to run a snippet's shell command: the command
/// could not be executed at all. The previously cached output is left
/// untouched.
#[derive(Debug)]
pub struct RunError {
    /// What went wrong, as the shell runner reported it.
    pub message: String,
}

impl Variable {
    /// Recomputes and stores the cached value.
    ///
    /// With a client-supplied resolution callback attached, the callback is
    /// invoked with the variable's name and its return unconditionally
    /// overwrites the cached value. Without one, the named process
    /// environment variable's content is stored: the embedding program reads
    /// it and hands it in as `env_value`, `None` standing for an unset
    /// variable, which is stored as the empty string, never an error.
    pub fn evaluate<F: Fn(&str) -> String>(
        &mut self,
        get_from_client: Option<&F>,
        env_value: Option<String>,
    )
        requires
            get_from_client matches Some(f) ==> forall|s: &str|
                s@ == old(self).name@ ==> call_requires(*f, (s,)),
        ensures
            final(self).name == old(self).name,
            get_from_client matches Some(f) ==> exists|s: &str|
                s@ == old(self).name@ && call_ensures(*f, (s,), final(self).value),
            get_from_client is None ==> final(self).value@ == match env_value {
                Some(v) => v@,
                None => Seq::<char>::empty(),
            },
    {
        match get_from_client {
            Some(get_from_client_function) => {
                let name_str: &str = self.name.as_str();
                let value = get_from_client_function(name_str);
                self.value = value;
                proof {
                    assert(call_ensures(*get_from_client_function, (name_str,), self.value));
                }
            },
            None => {
                self.evaluate_from_environment(env_value);
            },
        }
    }

    /// Recomputes the cached value for a variable with no client callback:
    /// the named process environment variable's content, as the embedding
    /// program read it, replaces the cached value; `None` stands for an
    /// unset variable and stores the empty string, never an error.
    pub fn evaluate_from_environment(&mut self, env_value: Option<String>)
        ensures
            final(self).name == old(self).name,
            final(self).value@ == match env_value {
                Some(v) => v@,
                None => Seq::<char>::empty(),
            },
    {
        match env_value {
            Some(value) => {
                self.value = value;
            },
            None => {
                self.value = String::new();
            },
        }
    }
}

/// Relies on run_script::run: invokes the command with the platform shell,
/// capturing its exit code, standard output and standard error; `Err` means
/// the command could not be executed at all, with the runner's description
/// of the trouble.
#[verifier::external_body]
fn run_shell(command: &String) -> (r: Result<(i32, String, String), String>) {
    let options = run_script::ScriptOptions::new();
    let args: Vec<String> = Vec::new();
    match run_script::run(command.as_str(), &args, &options) {
        Ok(outcome) => Ok(outcome),
        Err(error) => Err(error.to_string()),
    }
}

impl Code {
    /// Records the outcome of one run of `code_to_run`: a run that went
    /// through replaces the cached output with the captured standard output,
    /// whatever the exit code; a run that could not be executed leaves the
    /// cache untouched and is reported as an error carrying the runner's
    /// message.
    pub fn store_run(&mut self, run: Result<(i32, String, String), String>) -> (r: Result<
        (),
        RunError,
    >)
        ensures
            final(self).code_to_run == old(self).code_to_run,
            match run {
                Ok(outcome) => r is Ok && final(self).output@ == outcome.1@,
                Err(message) => (r matches Err(e) && e.message@ == message@) && final(self).output
                    == old(self).output,
            },
    {
        match run {
            Ok((_code, output, _error)) => {
                self.output = output;
                Ok(())
            },
            Err(message) => Err(RunError { message }),
        }
    }

    /// Runs `code_to_run` in a fresh shell and caches the captured standard
    /// output. The command itself is never altered; when the command could
    /// not be executed, the error is returned and the previously cached
    /// output is left untouched.
    pub fn evaluate(&mut self) -> (r: Result<(), RunError>)
        ensures
            final(self).code_to_run == old(self).code_to_run,
            r is Err ==> final(self).output == old(self).output,
    {
        let run = run_shell(&self.code_to_run);
        self.store_run(run)
    }
}

} // verus!
