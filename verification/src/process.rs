//! The plan for the payload: what to execute, with which arguments,
//! environment and working directory.

use crate::bundle::{ProcessSpecView, Spec, SpecView};
use crate::error::SpecError;
use vstd::prelude::*;
use vstd::string::StrSliceExecFns;

verus! {

/// Whether the first `=` of `entry` stands at index `at`.
pub open spec fn splits_at(entry: Seq<char>, at: int) -> bool {
    &&& 0 <= at < entry.len()
    &&& entry[at] == '='
    &&& forall|j: int| 0 <= j < at ==> entry[j] != '='
}

/// The name and the value of an environment entry: what stands before its
/// first `=` and what stands after it. An entry without `=` has neither.
pub open spec fn split_entry(entry: Seq<char>) -> Option<(Seq<char>, Seq<char>)> {
    if exists|at: int| splits_at(entry, at) {
        let at = choose|at: int| splits_at(entry, at);
        Some((entry.take(at), entry.skip(at + 1)))
    } else {
        None
    }
}

/// An entry has at most one first `=`.
pub proof fn lemma_split_unique(entry: Seq<char>, a: int, b: int)
    requires
        splits_at(entry, a),
        splits_at(entry, b),
    ensures
        a == b,
{
    if a < b {
        assert(entry[a] != '=');
    } else if b < a {
        assert(entry[b] != '=');
    }
}

/// An entry splits exactly when it holds a `=`; the name then holds none,
/// and name, `=` and value together are the entry.
pub proof fn lemma_split_entry(entry: Seq<char>)
    ensures
        split_entry(entry) is Some <==> entry.contains('='),
        split_entry(entry) matches Some((name, value)) ==> {
            &&& !name.contains('=')
            &&& entry == name + seq!['='] + value
        },
{
    if entry.contains('=') {
        lemma_first_eq(entry, entry.len() as int);
    }
    if split_entry(entry) is Some {
        let at = choose|at: int| splits_at(entry, at);
        let name = entry.take(at);
        let value = entry.skip(at + 1);
        assert(entry.contains('='));
        assert(entry =~= name + seq!['='] + value);
        if name.contains('=') {
            let j = choose|j: int| 0 <= j < name.len() && name[j] == '=';
            assert(entry[j] == '=');
        }
    }
}

/// If `=` occurs among the first `bound` characters, some index is its first.
proof fn lemma_first_eq(entry: Seq<char>, bound: int)
    requires
        0 <= bound <= entry.len(),
        exists|i: int| 0 <= i < bound && entry[i] == '=',
    ensures
        exists|at: int| splits_at(entry, at),
    decreases bound,
{
    let i = choose|i: int| 0 <= i < bound && entry[i] == '=';
    if exists|j: int| 0 <= j < i && entry[j] == '=' {
        lemma_first_eq(entry, i);
    } else {
        assert(splits_at(entry, i));
    }
}

/// Splits an environment entry at its first `=`.
pub fn split_env_entry(entry: &str) -> (pair: Option<(String, String)>)
    ensures
        match pair {
            Some((name, value)) => split_entry(entry@) == Some((name@, value@)),
            None => split_entry(entry@) is None,
        },
{
    let len = entry.unicode_len();
    let mut at: usize = 0;
    while at < len
        invariant
            at <= len,
            len == entry@.len(),
            forall|j: int| 0 <= j < at ==> entry@[j] != '=',
        decreases len - at,
    {
        if entry.get_char(at) == '=' {
            let name = entry.substring_char(0, at);
            let value = entry.substring_char(at + 1, len);
            proof {
                assert(splits_at(entry@, at as int));
                let chosen = choose|c: int| splits_at(entry@, c);
                lemma_split_unique(entry@, at as int, chosen);
            }
            return Some((name.to_owned(), value.to_owned()));
        }
        at += 1;
    }
    proof {
        if exists|c: int| splits_at(entry@, c) {
            let c = choose|c: int| splits_at(entry@, c);
            assert(entry@[c] == '=');
        }
    }
    None
}

/// The program to execute for a container's payload.
#[derive(Clone, Debug, PartialEq)]
pub struct Process {
    /// The program: the first of the configured arguments.
    pub program: String,
    /// The arguments after the program.
    pub args: Vec<String>,
    /// The whole environment of the payload, as names and values.
    pub env: Vec<(String, String)>,
    /// The working directory.
    pub cwd: String,
}

/// A plan as plain mathematical values.
pub struct ProcessView {
    pub program: Seq<char>,
    pub args: Seq<Seq<char>>,
    pub env: Seq<(Seq<char>, Seq<char>)>,
    pub cwd: Seq<char>,
}

/// The names and values of a list of pairs of strings.
pub open spec fn pairs_view(pairs: Seq<(String, String)>) -> Seq<(Seq<char>, Seq<char>)> {
    Seq::new(pairs.len(), |i: int| (pairs[i].0@, pairs[i].1@))
}

impl View for Process {
    type V = ProcessView;

    open spec fn view(&self) -> ProcessView {
        ProcessView {
            program: self.program@,
            args: self.args.deep_view(),
            env: pairs_view(self.env@),
            cwd: self.cwd@,
        }
    }
}

/// Whether `at` is the first entry of `env` that has no `=`.
pub open spec fn malformed_at(env: Seq<Seq<char>>, at: int) -> bool {
    &&& 0 <= at < env.len()
    &&& split_entry(env[at]) is None
    &&& forall|j: int| 0 <= j < at ==> split_entry(#[trigger] env[j]) is Some
}

/// Whether every entry of `env` has a `=`.
pub open spec fn all_split(env: Seq<Seq<char>>) -> bool {
    forall|j: int| 0 <= j < env.len() ==> split_entry(#[trigger] env[j]) is Some
}

/// The environment entries of a process block; none where it has no list.
pub open spec fn env_entries(process: ProcessSpecView) -> Seq<Seq<char>> {
    match process.env {
        Some(env) => env,
        None => Seq::empty(),
    }
}

/// The plan that a process block asks for.
pub open spec fn plan_of_process(process: ProcessSpecView) -> Result<ProcessView, SpecError> {
    match process.args {
        None => Err(SpecError::MissingArgs),
        Some(args) => {
            let env = env_entries(process);
            if args.len() == 0 {
                Err(SpecError::EmptyArgs)
            } else if exists|at: int| malformed_at(env, at) {
                Err(SpecError::MalformedEnv {
                    index: (choose|at: int| malformed_at(env, at)) as usize,
                })
            } else {
                Ok(ProcessView {
                    program: args[0],
                    args: args.skip(1),
                    env: Seq::new(env.len(), |i: int| split_entry(env[i])->0),
                    cwd: process.cwd,
                })
            }
        },
    }
}

/// The plan that a configuration asks for, or what it lacks.
pub open spec fn plan_of(spec: SpecView) -> Result<ProcessView, SpecError> {
    match spec.process {
        None => Err(SpecError::MissingProcess),
        Some(process) => plan_of_process(process),
    }
}

/// A list of entries has at most one first entry without `=`.
pub proof fn lemma_malformed_unique(env: Seq<Seq<char>>, a: int, b: int)
    requires
        malformed_at(env, a),
        malformed_at(env, b),
    ensures
        a == b,
{
    if a < b {
        assert(split_entry(env[a]) is Some);
    } else if b < a {
        assert(split_entry(env[b]) is Some);
    }
}

impl Process {
    /// Makes the plan for the payload of a configuration. The environment
    /// of the plan is the configured one and nothing else.
    pub fn try_from(spec: &Spec) -> (plan: Result<Process, SpecError>)
        ensures
            match plan {
                Ok(process) => plan_of(spec@) == Ok::<ProcessView, SpecError>(process@),
                Err(error) => plan_of(spec@) == Err::<ProcessView, SpecError>(error),
            },
    {
        let process = match &spec.process {
            Some(process) => process,
            None => {
                return Err(SpecError::MissingProcess);
            },
        };
        let args = match &process.args {
            Some(args) => args,
            None => {
                return Err(SpecError::MissingArgs);
            },
        };
        if args.len() == 0 {
            return Err(SpecError::EmptyArgs);
        }
        let ghost model = process@;
        let ghost env_model = env_entries(model);
        let program = args[0].clone();
        let mut rest: Vec<String> = Vec::new();
        let mut i: usize = 1;
        while i < args.len()
            invariant
                1 <= i <= args.len(),
                rest.len() == i - 1,
                forall|j: int| 0 <= j < rest.len() ==> rest[j]@ == args[j + 1]@,
            decreases args.len() - i,
        {
            rest.push(args[i].clone());
            i += 1;
        }
        let mut env: Vec<(String, String)> = Vec::new();
        match &process.env {
            Some(entries) => {
                assert(env_model == entries.deep_view());
                let mut k: usize = 0;
                while k < entries.len()
                    invariant
                        k <= entries.len(),
                        env.len() == k,
                        env_model == entries.deep_view(),
                        env_model == env_entries(model),
                        model.args is Some,
                        model.args->0.len() > 0,
                        plan_of(spec@) == plan_of_process(model),
                        forall|j: int|
                            0 <= j < k ==> split_entry(#[trigger] env_model[j]) == Some(
                                (env[j].0@, env[j].1@),
                            ),
                    decreases entries.len() - k,
                {
                    assert(env_model[k as int] == entries[k as int]@);
                    match split_env_entry(entries[k].as_str()) {
                        Some(pair) => {
                            env.push(pair);
                        },
                        None => {
                            proof {
                                assert(malformed_at(env_model, k as int));
                                let chosen = choose|at: int| malformed_at(env_model, at);
                                lemma_malformed_unique(env_model, k as int, chosen);
                            }
                            return Err(SpecError::MalformedEnv { index: k });
                        },
                    }
                    k += 1;
                }
            },
            None => {},
        }
        let cwd = process.cwd.clone();
        let plan = Process { program, args: rest, env, cwd };
        proof {
            let wanted = plan_of_process(model);
            assert(env_model.len() == plan.env.len());
            if exists|at: int| malformed_at(env_model, at) {
                let at = choose|at: int| malformed_at(env_model, at);
                assert(split_entry(env_model[at]) is None);
            }
            assert(wanted is Ok);
            let args_model = model.args->0;
            assert(args_model == args.deep_view());
            assert(args_model[0] == args[0]@);
            assert(plan@.args =~= args_model.skip(1)) by {
                assert forall|j: int| 0 <= j < plan@.args.len() implies plan@.args[j]
                    == args_model.skip(1)[j] by {
                    assert(args_model[j + 1] == args[j + 1]@);
                }
            }
            assert(plan@.env =~= wanted->Ok_0.env);
            assert(plan@ == wanted->Ok_0);
        }
        Ok(plan)
    }
}

} // verus!
