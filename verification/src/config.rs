//! The lab's configuration, read from the process environment.
//!
//! The environment is handed in as the list of its (name, value) pairs, so
//! that every decision about it is made here.
use vstd::prelude::*;
use vstd::string::StringExecFns;

use std::str::FromStr;

use crate::text::{parses_within, unsigned_text_value};

verus! {

/// Why the configuration could not be built.
#[derive(Debug)]
pub enum GlobalConfigError {
    /// The named variable is not set (or not valid unicode).
    MissingEnv(&'static str),
    /// The named variable is not an unsigned integer in range.
    InvalidDelayMs(&'static str),
    /// `ADMISSION_POLICY` is none of `unbounded`, `wait`, `reject`.
    InvalidPolicy,
}

/// How the simulation queue treats a job when it is full.
#[derive(Clone, Copy, Debug)]
pub enum AdmissionPolicy {
    /// Mode A: the queue has no bound.
    Unbounded,
    /// Mode B: bounded; the sender waits for room.
    WaitWhenFull,
    /// Mode C: bounded; the job is refused.
    RejectWhenFull,
}

pub struct GlobalConfig {
    pub db_url: String,
    pub http_bind: String,
    pub sleep_delay_ms: u64,
    pub simulation_queue_capacity: usize,
    pub result_queue_capacity: usize,
    pub admission_policy: AdmissionPolicy,
}

/// The abstract form of a configuration error.
pub enum ConfigFault {
    MissingEnv(Seq<char>),
    InvalidDelayMs(Seq<char>),
    InvalidPolicy,
}

/// The abstract form of a configuration.
pub struct ConfigValues {
    pub db_url: Seq<char>,
    pub http_bind: Seq<char>,
    pub sleep_delay_ms: nat,
    pub simulation_queue_capacity: nat,
    pub result_queue_capacity: nat,
    pub admission_policy: AdmissionPolicy,
}

impl View for GlobalConfigError {
    type V = ConfigFault;

    open spec fn view(&self) -> ConfigFault {
        match self {
            GlobalConfigError::MissingEnv(n) => ConfigFault::MissingEnv(n@),
            GlobalConfigError::InvalidDelayMs(n) => ConfigFault::InvalidDelayMs(n@),
            GlobalConfigError::InvalidPolicy => ConfigFault::InvalidPolicy,
        }
    }
}

impl View for GlobalConfig {
    type V = ConfigValues;

    open spec fn view(&self) -> ConfigValues {
        ConfigValues {
            db_url: self.db_url@,
            http_bind: self.http_bind@,
            sleep_delay_ms: self.sleep_delay_ms as nat,
            simulation_queue_capacity: self.simulation_queue_capacity as nat,
            result_queue_capacity: self.result_queue_capacity as nat,
            admission_policy: self.admission_policy,
        }
    }
}

/// The value of the first variable called `name`, if any.
pub open spec fn env_lookup(vars: Seq<(String, String)>, name: Seq<char>) -> Option<Seq<char>>
    decreases vars.len(),
{
    if vars.len() == 0 {
        None
    } else if vars[0].0@ == name {
        Some(vars[0].1@)
    } else {
        env_lookup(vars.drop_first(), name)
    }
}

/// A variable that must be set, taken as it is.
pub open spec fn text_var(vars: Seq<(String, String)>, name: Seq<char>) -> Result<
    Seq<char>,
    ConfigFault,
> {
    match env_lookup(vars, name) {
        Some(v) => Ok(v),
        None => Err(ConfigFault::MissingEnv(name)),
    }
}

/// A variable that must hold a decimal number no larger than `max`.
pub open spec fn number_var(vars: Seq<(String, String)>, name: Seq<char>, max: nat) -> Result<
    nat,
    ConfigFault,
> {
    match env_lookup(vars, name) {
        None => Err(ConfigFault::MissingEnv(name)),
        Some(v) => if parses_within(v, 10, max) {
            Ok(unsigned_text_value(v, 10)->0)
        } else {
            Err(ConfigFault::InvalidDelayMs(name))
        },
    }
}

/// The policy a text names, if it names one.
pub open spec fn policy_named(s: Seq<char>) -> Option<AdmissionPolicy> {
    if s == "unbounded"@ {
        Some(AdmissionPolicy::Unbounded)
    } else if s == "wait"@ {
        Some(AdmissionPolicy::WaitWhenFull)
    } else if s == "reject"@ {
        Some(AdmissionPolicy::RejectWhenFull)
    } else {
        None
    }
}

pub open spec fn policy_var(vars: Seq<(String, String)>) -> Result<AdmissionPolicy, ConfigFault> {
    match env_lookup(vars, "ADMISSION_POLICY"@) {
        None => Err(ConfigFault::MissingEnv("ADMISSION_POLICY"@)),
        Some(v) => match policy_named(v) {
            Some(p) => Ok(p),
            None => Err(ConfigFault::InvalidPolicy),
        },
    }
}

/// The configuration an environment gives: the variables are read in this
/// order, and the first one that is missing or malformed is reported.
pub open spec fn config_from_env(vars: Seq<(String, String)>) -> Result<ConfigValues, ConfigFault> {
    match text_var(vars, "DATABASE_URL"@) {
        Err(e) => Err(e),
        Ok(db_url) => match text_var(vars, "HTTP_BIND"@) {
            Err(e) => Err(e),
            Ok(http_bind) => match number_var(vars, "SIMULATION_DELAY_MS"@, u64::MAX as nat) {
                Err(e) => Err(e),
                Ok(delay) => match number_var(
                    vars,
                    "SIMULATION_QUEUE_CAPACITY"@,
                    usize::MAX as nat,
                ) {
                    Err(e) => Err(e),
                    Ok(sim_cap) => match number_var(
                        vars,
                        "RESULT_QUEUE_CAPACITY"@,
                        usize::MAX as nat,
                    ) {
                        Err(e) => Err(e),
                        Ok(res_cap) => match policy_var(vars) {
                            Err(e) => Err(e),
                            Ok(policy) => Ok(
                                ConfigValues {
                                    db_url,
                                    http_bind,
                                    sleep_delay_ms: delay,
                                    simulation_queue_capacity: sim_cap,
                                    result_queue_capacity: res_cap,
                                    admission_policy: policy,
                                },
                            ),
                        },
                    },
                },
            },
        },
    }
}

/// The value of the first variable called `name`.
fn env_var(vars: &[(String, String)], name: &str) -> (res: Option<String>)
    ensures
        res is Some <==> env_lookup(vars@, name@) is Some,
        res matches Some(v) ==> v@ == env_lookup(vars@, name@)->0,
{
    let mut i: usize = 0;
    assert(vars@.skip(0) == vars@);
    while i < vars.len()
        invariant
            i <= vars@.len(),
            env_lookup(vars@, name@) == env_lookup(vars@.skip(i as int), name@),
        decreases vars@.len() - i,
    {
        assert(vars@.skip(i as int).drop_first() == vars@.skip(i + 1));
        assert(vars@.skip(i as int)[0] == vars@[i as int]);
        if vars[i].0.as_str().eq(name) {
            return Some(vars[i].1.clone());
        }
        i = i + 1;
    }
    None
}

/// The policy that a text names.
pub fn parse_admission_policy(s: &str) -> (res: Option<AdmissionPolicy>)
    ensures
        res == policy_named(s@),
{
    if s.eq("unbounded") {
        Some(AdmissionPolicy::Unbounded)
    } else if s.eq("wait") {
        Some(AdmissionPolicy::WaitWhenFull)
    } else if s.eq("reject") {
        Some(AdmissionPolicy::RejectWhenFull)
    } else {
        None
    }
}

impl GlobalConfigError {
    /// The text that describes the error.
    pub fn message(&self) -> (res: String)
        ensures
            self matches GlobalConfigError::MissingEnv(n) ==> res@ == "environment variable "@
                + n@ + " is not set"@,
            self matches GlobalConfigError::InvalidDelayMs(n) ==> res@ == "environment variable "@
                + n@ + " must be an integer (milliseconds)"@,
            self is InvalidPolicy ==> res@ == "admission policy must be in (unbounded|wait|reject)"@,
    {
        let mut out = String::new();
        match self {
            GlobalConfigError::MissingEnv(n) => {
                out.append("environment variable ");
                out.append(n);
                out.append(" is not set");
            },
            GlobalConfigError::InvalidDelayMs(n) => {
                out.append("environment variable ");
                out.append(n);
                out.append(" must be an integer (milliseconds)");
            },
            GlobalConfigError::InvalidPolicy => {
                out.append("admission policy must be in (unbounded|wait|reject)");
            },
        }
        out
    }
}

impl GlobalConfig {
    fn db_url_from_env(vars: &[(String, String)]) -> (res: Result<String, GlobalConfigError>)
        ensures
            res matches Ok(v) ==> text_var(vars@, "DATABASE_URL"@) == Ok::<
                Seq<char>,
                ConfigFault,
            >(v@),
            res matches Err(e) ==> text_var(vars@, "DATABASE_URL"@) == Err::<
                Seq<char>,
                ConfigFault,
            >(e@),
    {
        match env_var(vars, "DATABASE_URL") {
            Some(v) => Ok(v),
            None => Err(GlobalConfigError::MissingEnv("DATABASE_URL")),
        }
    }

    fn http_bind_from_env(vars: &[(String, String)]) -> (res: Result<String, GlobalConfigError>)
        ensures
            res matches Ok(v) ==> text_var(vars@, "HTTP_BIND"@) == Ok::<Seq<char>, ConfigFault>(
                v@,
            ),
            res matches Err(e) ==> text_var(vars@, "HTTP_BIND"@) == Err::<
                Seq<char>,
                ConfigFault,
            >(e@),
    {
        match env_var(vars, "HTTP_BIND") {
            Some(v) => Ok(v),
            None => Err(GlobalConfigError::MissingEnv("HTTP_BIND")),
        }
    }

    fn sleep_delay_from_env(vars: &[(String, String)]) -> (res: Result<u64, GlobalConfigError>)
        ensures
            res matches Ok(v) ==> number_var(vars@, "SIMULATION_DELAY_MS"@, u64::MAX as nat)
                == Ok::<nat, ConfigFault>(v as nat),
            res matches Err(e) ==> number_var(vars@, "SIMULATION_DELAY_MS"@, u64::MAX as nat)
                == Err::<nat, ConfigFault>(e@),
    {
        match env_var(vars, "SIMULATION_DELAY_MS") {
            None => Err(GlobalConfigError::MissingEnv("SIMULATION_DELAY_MS")),
            Some(v) => match u64::from_str(v.as_str()) {
                Ok(n) => Ok(n),
                Err(_) => Err(GlobalConfigError::InvalidDelayMs("SIMULATION_DELAY_MS")),
            },
        }
    }

    fn simulation_queue_capacity_from_env(vars: &[(String, String)]) -> (res: Result<
        usize,
        GlobalConfigError,
    >)
        ensures
            res matches Ok(v) ==> number_var(
                vars@,
                "SIMULATION_QUEUE_CAPACITY"@,
                usize::MAX as nat,
            ) == Ok::<nat, ConfigFault>(v as nat),
            res matches Err(e) ==> number_var(
                vars@,
                "SIMULATION_QUEUE_CAPACITY"@,
                usize::MAX as nat,
            ) == Err::<nat, ConfigFault>(e@),
    {
        match env_var(vars, "SIMULATION_QUEUE_CAPACITY") {
            None => Err(GlobalConfigError::MissingEnv("SIMULATION_QUEUE_CAPACITY")),
            Some(v) => match usize::from_str(v.as_str()) {
                Ok(n) => Ok(n),
                Err(_) => Err(GlobalConfigError::InvalidDelayMs("SIMULATION_QUEUE_CAPACITY")),
            },
        }
    }

    fn result_queue_capacity_from_env(vars: &[(String, String)]) -> (res: Result<
        usize,
        GlobalConfigError,
    >)
        ensures
            res matches Ok(v) ==> number_var(vars@, "RESULT_QUEUE_CAPACITY"@, usize::MAX as nat)
                == Ok::<nat, ConfigFault>(v as nat),
            res matches Err(e) ==> number_var(vars@, "RESULT_QUEUE_CAPACITY"@, usize::MAX as nat)
                == Err::<nat, ConfigFault>(e@),
    {
        match env_var(vars, "RESULT_QUEUE_CAPACITY") {
            None => Err(GlobalConfigError::MissingEnv("RESULT_QUEUE_CAPACITY")),
            Some(v) => match usize::from_str(v.as_str()) {
                Ok(n) => Ok(n),
                Err(_) => Err(GlobalConfigError::InvalidDelayMs("RESULT_QUEUE_CAPACITY")),
            },
        }
    }

    fn admission_policy_from_env(vars: &[(String, String)]) -> (res: Result<
        AdmissionPolicy,
        GlobalConfigError,
    >)
        ensures
            res matches Ok(p) ==> policy_var(vars@) == Ok::<AdmissionPolicy, ConfigFault>(p),
            res matches Err(e) ==> policy_var(vars@) == Err::<AdmissionPolicy, ConfigFault>(e@),
    {
        match env_var(vars, "ADMISSION_POLICY") {
            None => Err(GlobalConfigError::MissingEnv("ADMISSION_POLICY")),
            Some(v) => match parse_admission_policy(v.as_str()) {
                Some(p) => Ok(p),
                None => Err(GlobalConfigError::InvalidPolicy),
            },
        }
    }

    /// Builds the configuration from the environment's (name, value) pairs.
    /// Names are matched exactly, as the environment of a Unix process does;
    /// on Windows `std::env::var` ignores the case of names, which this does
    /// not.
    pub fn from_env(vars: &[(String, String)]) -> (res: Result<Self, GlobalConfigError>)
        ensures
            res matches Ok(c) ==> config_from_env(vars@) == Ok::<ConfigValues, ConfigFault>(c@),
            res matches Err(e) ==> config_from_env(vars@) == Err::<ConfigValues, ConfigFault>(
                e@,
            ),
            res matches Ok(c) ==> (c.db_url@ == env_lookup(vars@, "DATABASE_URL"@)->0
                && c.http_bind@ == env_lookup(vars@, "HTTP_BIND"@)->0 && c.sleep_delay_ms
                == unsigned_text_value(env_lookup(vars@, "SIMULATION_DELAY_MS"@)->0, 10)->0
                && c.simulation_queue_capacity == unsigned_text_value(
                env_lookup(vars@, "SIMULATION_QUEUE_CAPACITY"@)->0,
                10,
            )->0 && c.result_queue_capacity == unsigned_text_value(
                env_lookup(vars@, "RESULT_QUEUE_CAPACITY"@)->0,
                10,
            )->0 && policy_named(env_lookup(vars@, "ADMISSION_POLICY"@)->0) == Some(
                c.admission_policy,
            )),
    {
        proof {
            lemma_config_fields_are_their_variables(vars@);
        }
        let db_url = match Self::db_url_from_env(vars) {
            Ok(v) => v,
            Err(e) => return Err(e),
        };
        let http_bind = match Self::http_bind_from_env(vars) {
            Ok(v) => v,
            Err(e) => return Err(e),
        };
        let sleep_delay_ms: u64 = match Self::sleep_delay_from_env(vars) {
            Ok(v) => v,
            Err(e) => return Err(e),
        };
        let simulation_queue_capacity: usize = match Self::simulation_queue_capacity_from_env(vars) {
            Ok(v) => v,
            Err(e) => return Err(e),
        };
        let result_queue_capacity: usize = match Self::result_queue_capacity_from_env(vars) {
            Ok(v) => v,
            Err(e) => return Err(e),
        };
        let admission_policy = match Self::admission_policy_from_env(vars) {
            Ok(v) => v,
            Err(e) => return Err(e),
        };
        Ok(
            GlobalConfig {
                db_url,
                http_bind,
                sleep_delay_ms,
                simulation_queue_capacity,
                result_queue_capacity,
                admission_policy,
            },
        )
    }
}

/// Every variable is set and well formed: the two texts are present, the
/// three numbers are decimal and in range, and the policy is named.
pub open spec fn every_variable_valid(vars: Seq<(String, String)>) -> bool {
    &&& env_lookup(vars, "DATABASE_URL"@) is Some
    &&& env_lookup(vars, "HTTP_BIND"@) is Some
    &&& env_lookup(vars, "SIMULATION_DELAY_MS"@) matches Some(v) && parses_within(
        v,
        10,
        u64::MAX as nat,
    )
    &&& env_lookup(vars, "SIMULATION_QUEUE_CAPACITY"@) matches Some(v) && parses_within(
        v,
        10,
        usize::MAX as nat,
    )
    &&& env_lookup(vars, "RESULT_QUEUE_CAPACITY"@) matches Some(v) && parses_within(
        v,
        10,
        usize::MAX as nat,
    )
    &&& env_lookup(vars, "ADMISSION_POLICY"@) matches Some(v) && policy_named(v) is Some
}

/// The configuration is built exactly when every variable is valid, and
/// then each field is its own variable's value and depends on no other:
/// the two texts as they are, each number the decimal value of its own
/// variable (the simulation queue's capacity is `SIMULATION_QUEUE_CAPACITY`
/// whatever `RESULT_QUEUE_CAPACITY` holds), and the policy the one
/// `ADMISSION_POLICY` names.
pub proof fn lemma_config_fields_are_their_variables(vars: Seq<(String, String)>)
    ensures
        config_from_env(vars) is Ok <==> every_variable_valid(vars),
        config_from_env(vars) matches Ok(c) ==> {
            &&& c.db_url == env_lookup(vars, "DATABASE_URL"@)->0
            &&& c.http_bind == env_lookup(vars, "HTTP_BIND"@)->0
            &&& c.sleep_delay_ms == unsigned_text_value(
                env_lookup(vars, "SIMULATION_DELAY_MS"@)->0,
                10,
            )->0
            &&& c.simulation_queue_capacity == unsigned_text_value(
                env_lookup(vars, "SIMULATION_QUEUE_CAPACITY"@)->0,
                10,
            )->0
            &&& c.result_queue_capacity == unsigned_text_value(
                env_lookup(vars, "RESULT_QUEUE_CAPACITY"@)->0,
                10,
            )->0
            &&& policy_named(env_lookup(vars, "ADMISSION_POLICY"@)->0) == Some(c.admission_policy)
        },
{
}

/// `env_lookup` finds the first pair with the name: when it finds a value,
/// some pair at index `i` has that name and value and no pair before it has
/// the name; when it finds none, no pair has the name.
pub proof fn lemma_env_lookup_first_match(vars: Seq<(String, String)>, name: Seq<char>)
    ensures
        env_lookup(vars, name) matches Some(v) ==> exists|i: int|
            0 <= i < vars.len() && #[trigger] vars[i].0@ == name && vars[i].1@ == v && forall|
                j: int,
            |
                0 <= j < i ==> #[trigger] vars[j].0@ != name,
        env_lookup(vars, name) is None ==> forall|j: int|
            0 <= j < vars.len() ==> #[trigger] vars[j].0@ != name,
    decreases vars.len(),
{
    if vars.len() > 0 {
        let rest = vars.drop_first();
        lemma_env_lookup_first_match(rest, name);
        if vars[0].0@ == name {
            assert(vars[0].0@ == name);
        } else {
            if let Some(v) = env_lookup(vars, name) {
                let k = choose|i: int|
                    0 <= i < rest.len() && #[trigger] rest[i].0@ == name && rest[i].1@ == v
                        && forall|j: int| 0 <= j < i ==> #[trigger] rest[j].0@ != name;
                assert(vars[k + 1] == rest[k]);
                assert forall|j: int| 0 <= j < k + 1 implies #[trigger] vars[j].0@ != name by {
                    if j > 0 {
                        assert(vars[j] == rest[j - 1]);
                    }
                }
                assert(vars[k + 1].0@ == name);
            } else {
                assert forall|j: int| 0 <= j < vars.len() implies #[trigger] vars[j].0@ != name by {
                    if j > 0 {
                        assert(vars[j] == rest[j - 1]);
                    }
                }
            }
        }
    }
}

/// The name of a policy, as `ADMISSION_POLICY` writes it and as the `mode`
/// metric label shows it.
pub open spec fn policy_label(p: AdmissionPolicy) -> Seq<char> {
    match p {
        AdmissionPolicy::Unbounded => "unbounded"@,
        AdmissionPolicy::WaitWhenFull => "wait"@,
        AdmissionPolicy::RejectWhenFull => "reject"@,
    }
}

/// The three policy names and the three policies correspond one to one:
/// each policy's label names it, and a text names a policy only if it is
/// that policy's label.
pub proof fn lemma_policy_names_round_trip(p: AdmissionPolicy, s: Seq<char>)
    ensures
        policy_named(policy_label(p)) == Some(p),
        policy_named(s) == Some(p) ==> s == policy_label(p),
{
    reveal_strlit("unbounded");
    reveal_strlit("wait");
    reveal_strlit("reject");
    assert("wait"@.len() != "unbounded"@.len());
    assert("reject"@.len() != "unbounded"@.len());
    assert("reject"@.len() != "wait"@.len());
}

/// Reading `ADMISSION_POLICY` undoes labelling: the variable set to a
/// policy's label reads as that policy, any other value as `InvalidPolicy`,
/// and an unset variable as missing (this is what the reader of the
/// variable, and so `from_env`, decides).
pub proof fn lemma_policy_variable_reads_labels(vars: Seq<(String, String)>, p: AdmissionPolicy)
    ensures
        env_lookup(vars, "ADMISSION_POLICY"@) == Some(policy_label(p)) ==> policy_var(vars) == Ok::<
            AdmissionPolicy,
            ConfigFault,
        >(p),
        env_lookup(vars, "ADMISSION_POLICY"@) matches Some(v) ==> (policy_named(v) is None
            <==> policy_var(vars) == Err::<AdmissionPolicy, ConfigFault>(ConfigFault::InvalidPolicy)),
        env_lookup(vars, "ADMISSION_POLICY"@) matches Some(v) ==> (policy_named(v) is None
            <==> forall|q: AdmissionPolicy| v != #[trigger] policy_label(q)),
        env_lookup(vars, "ADMISSION_POLICY"@) is None ==> policy_var(vars) == Err::<
            AdmissionPolicy,
            ConfigFault,
        >(ConfigFault::MissingEnv("ADMISSION_POLICY"@)),
{
    lemma_policy_names_round_trip(p, policy_label(p));
    if let Some(v) = env_lookup(vars, "ADMISSION_POLICY"@) {
        lemma_policy_names_round_trip(AdmissionPolicy::Unbounded, v);
        lemma_policy_names_round_trip(AdmissionPolicy::WaitWhenFull, v);
        lemma_policy_names_round_trip(AdmissionPolicy::RejectWhenFull, v);
        if policy_named(v) is None {
            assert forall|q: AdmissionPolicy| v != #[trigger] policy_label(q) by {
                lemma_policy_names_round_trip(q, v);
            }
        }
    }
}

} // verus!
