//! Runtime role selection and configuration read from environment variables.
use std::time::Duration;

use vstd::prelude::*;
use vstd::string::*;

use crate::errors::error::AppError;
use crate::text::{
    concat2, concat3, int_parse_error_text, lookup, lookup_value, owned, pairs_view,
    parse_unsigned, parse_unsigned_str, str_eq,
};

verus! {

/// Which parts of the service a process runs.
#[derive(Clone, Copy, Debug, Eq, PartialEq, Structural)]
pub enum RuntimeRole {
    Api,
    Worker,
    All,
}

/// The role named by the first command-line argument, or the message for
/// an argument that names none.
pub open spec fn role_from_arg(arg: Option<Seq<char>>) -> Result<RuntimeRole, Seq<char>> {
    match arg {
        None => Ok(RuntimeRole::All),
        Some(a) => if a == "api"@ {
            Ok(RuntimeRole::Api)
        } else if a == "worker"@ {
            Ok(RuntimeRole::Worker)
        } else if a == "all"@ {
            Ok(RuntimeRole::All)
        } else {
            Err("unsupported runtime role '"@ + a + "', expected api|worker|all"@)
        },
    }
}

/// The first argument, if there is one.
pub open spec fn first_arg(args: Seq<String>) -> Option<Seq<char>> {
    if args.len() > 0 {
        Some(args[0]@)
    } else {
        None
    }
}

impl RuntimeRole {
    pub open spec fn spec_runs_workers(self) -> bool {
        self == RuntimeRole::Worker || self == RuntimeRole::All
    }

    /// The role named by the first of `args` (the process arguments after the
    /// program name); all parts run when no argument is given.
    pub fn from_args(args: Vec<String>) -> (res: Result<Self, AppError>)
        ensures
            match res {
                Ok(r) => role_from_arg(first_arg(args@)) == Ok::<RuntimeRole, Seq<char>>(r),
                Err(e) => e is Config && role_from_arg(first_arg(args@)) == Err::<RuntimeRole, Seq<char>>(e->Config_0@),
            },
    {
        if args.len() == 0 {
            return Ok(RuntimeRole::All);
        }
        let role = &args[0];
        if str_eq(role.as_str(), "api") {
            Ok(RuntimeRole::Api)
        } else if str_eq(role.as_str(), "worker") {
            Ok(RuntimeRole::Worker)
        } else if str_eq(role.as_str(), "all") {
            Ok(RuntimeRole::All)
        } else {
            let m = concat3(
                "unsupported runtime role '",
                role.as_str(),
                "', expected api|worker|all",
            );
            Err(AppError::Config(m))
        }
    }

    /// Whether this role runs the worker pool.
    pub fn runs_workers(&self) -> (res: bool)
        ensures
            res == self.spec_runs_workers(),
    {
        match self {
            RuntimeRole::Worker | RuntimeRole::All => true,
            RuntimeRole::Api => false,
        }
    }
}

/// A snapshot of the process environment: variable names and values.
#[derive(Clone, Debug, PartialEq, Eq)]
pub struct EnvVars {
    pub entries: Vec<(String, String)>,
}

impl View for EnvVars {
    type V = Seq<(Seq<char>, Seq<char>)>;

    open spec fn view(&self) -> Seq<(Seq<char>, Seq<char>)> {
        pairs_view(self.entries@)
    }
}

/// The service configuration.
#[derive(Clone, Debug, PartialEq, Eq)]
pub struct Config {
    pub redis_url: String,
    pub bind_addr: String,
    pub worker_count: usize,
    pub max_concurrent_jobs: usize,
    pub max_retries: u32,
    pub job_stream: String,
    pub dlq_stream: String,
    pub consumer_group: String,
    pub read_block_ms: usize,
    pub claim_idle_ms: usize,
    pub job_status_ttl_secs: usize,
    pub session_ttl_secs: usize,
    pub session_secret: String,
    pub ai_endpoint: String,
    pub ai_model: String,
    pub ai_timeout_secs: u64,
}

/// The value of a configuration, with its strings as character sequences.
pub struct ConfigView {
    pub redis_url: Seq<char>,
    pub bind_addr: Seq<char>,
    pub worker_count: int,
    pub max_concurrent_jobs: int,
    pub max_retries: int,
    pub job_stream: Seq<char>,
    pub dlq_stream: Seq<char>,
    pub consumer_group: Seq<char>,
    pub read_block_ms: int,
    pub claim_idle_ms: int,
    pub job_status_ttl_secs: int,
    pub session_ttl_secs: int,
    pub session_secret: Seq<char>,
    pub ai_endpoint: Seq<char>,
    pub ai_model: Seq<char>,
    pub ai_timeout_secs: int,
}

impl View for Config {
    type V = ConfigView;

    open spec fn view(&self) -> ConfigView {
        ConfigView {
            redis_url: self.redis_url@,
            bind_addr: self.bind_addr@,
            worker_count: self.worker_count as int,
            max_concurrent_jobs: self.max_concurrent_jobs as int,
            max_retries: self.max_retries as int,
            job_stream: self.job_stream@,
            dlq_stream: self.dlq_stream@,
            consumer_group: self.consumer_group@,
            read_block_ms: self.read_block_ms as int,
            claim_idle_ms: self.claim_idle_ms as int,
            job_status_ttl_secs: self.job_status_ttl_secs as int,
            session_ttl_secs: self.session_ttl_secs as int,
            session_secret: self.session_secret@,
            ai_endpoint: self.ai_endpoint@,
            ai_model: self.ai_model@,
            ai_timeout_secs: self.ai_timeout_secs as int,
        }
    }
}

/// The variable's value, or `default` when it is not set.
pub open spec fn env_or_default_spec(
    env: Seq<(Seq<char>, Seq<char>)>,
    name: Seq<char>,
    default: Seq<char>,
) -> Seq<char> {
    match lookup(env, name) {
        Some(v) => v,
        None => default,
    }
}

/// `BIND_ADDR`, else all interfaces on `PORT`, else all interfaces on 3000.
pub open spec fn bind_addr_spec(env: Seq<(Seq<char>, Seq<char>)>) -> Seq<char> {
    match lookup(env, "BIND_ADDR"@) {
        Some(v) => v,
        None => match lookup(env, "PORT"@) {
            Some(port) => "0.0.0.0:"@ + port,
            None => "0.0.0.0:3000"@,
        },
    }
}

/// The variable read as an unsigned integer of at most `max`, `default`
/// when it is not set, or the message for a value that is no such integer.
pub open spec fn parse_env_spec(
    env: Seq<(Seq<char>, Seq<char>)>,
    name: Seq<char>,
    default: int,
    max: int,
) -> Result<int, Seq<char>> {
    match lookup(env, name) {
        None => Ok(default),
        Some(v) => match parse_unsigned(v, max) {
            Ok(n) => Ok(n),
            Err(e) => Err(name + " must be a positive integer: "@ + int_parse_error_text(e)),
        },
    }
}

/// The configuration that the environment describes, or the message of the
/// first setting that is refused.
pub open spec fn config_from_env_spec(env: Seq<(Seq<char>, Seq<char>)>) -> Result<
    ConfigView,
    Seq<char>,
> {
    let worker_count = parse_env_spec(env, "WORKER_COUNT"@, 5, usize::MAX as int);
    let max_concurrent_jobs = parse_env_spec(env, "MAX_CONCURRENT_JOBS"@, 3, usize::MAX as int);
    let max_retries = parse_env_spec(env, "MAX_RETRIES"@, 3, u32::MAX as int);
    let read_block_ms = parse_env_spec(env, "READ_BLOCK_MS"@, 5000, usize::MAX as int);
    let claim_idle_ms = parse_env_spec(env, "CLAIM_IDLE_MS"@, 30000, usize::MAX as int);
    let job_status_ttl_secs = parse_env_spec(
        env,
        "JOB_STATUS_TTL_SECS"@,
        86400,
        usize::MAX as int,
    );
    let session_ttl_secs = parse_env_spec(env, "SESSION_TTL_SECS"@, 86400, usize::MAX as int);
    let ai_timeout_secs = parse_env_spec(env, "AI_TIMEOUT_SECS"@, 30, u64::MAX as int);
    let secret = env_or_default_spec(env, "SESSION_SECRET"@, ""@);
    if let Err(m) = worker_count {
        Err(m)
    } else if let Err(m) = max_concurrent_jobs {
        Err(m)
    } else if let Err(m) = max_retries {
        Err(m)
    } else if let Err(m) = read_block_ms {
        Err(m)
    } else if let Err(m) = claim_idle_ms {
        Err(m)
    } else if let Err(m) = job_status_ttl_secs {
        Err(m)
    } else if let Err(m) = session_ttl_secs {
        Err(m)
    } else if let Err(m) = ai_timeout_secs {
        Err(m)
    } else if (vstd::utf8::encode_utf8(secret).len() as usize) < 32 {
        Err("SESSION_SECRET must be set and at least 32 characters long"@)
    } else if worker_count->Ok_0 == 0 {
        Err("WORKER_COUNT must be > 0"@)
    } else if max_concurrent_jobs->Ok_0 == 0 {
        Err("MAX_CONCURRENT_JOBS must be > 0"@)
    } else {
        Ok(
            ConfigView {
                redis_url: env_or_default_spec(env, "REDIS_URL"@, "redis://127.0.0.1:6379/"@),
                bind_addr: bind_addr_spec(env),
                worker_count: worker_count->Ok_0,
                max_concurrent_jobs: max_concurrent_jobs->Ok_0,
                max_retries: max_retries->Ok_0,
                job_stream: env_or_default_spec(env, "JOB_STREAM"@, "job_stream"@),
                dlq_stream: env_or_default_spec(env, "DLQ_STREAM"@, "job_dlq_stream"@),
                consumer_group: env_or_default_spec(env, "CONSUMER_GROUP"@, "job_workers"@),
                read_block_ms: read_block_ms->Ok_0,
                claim_idle_ms: claim_idle_ms->Ok_0,
                job_status_ttl_secs: job_status_ttl_secs->Ok_0,
                session_ttl_secs: session_ttl_secs->Ok_0,
                session_secret: secret,
                ai_endpoint: env_or_default_spec(
                    env,
                    "AI_ENDPOINT"@,
                    "https://api.openai.com/v1/chat/completions"@,
                ),
                ai_model: env_or_default_spec(env, "AI_MODEL"@, "gpt-4o-mini"@),
                ai_timeout_secs: ai_timeout_secs->Ok_0,
            },
        )
    }
}

/// A text setting: the variable's value when it is set, else the default.
pub open spec fn text_setting(
    env: Seq<(Seq<char>, Seq<char>)>,
    name: Seq<char>,
    default: Seq<char>,
) -> Seq<char> {
    match lookup(env, name) {
        Some(v) => v,
        None => default,
    }
}

/// A numeric setting: the default when unset, the integer the value reads
/// as when it reads as one of at most `max`, and none otherwise.
pub open spec fn number_setting(
    env: Seq<(Seq<char>, Seq<char>)>,
    name: Seq<char>,
    default: int,
    max: int,
) -> Option<int> {
    match lookup(env, name) {
        None => Some(default),
        Some(v) => match parse_unsigned(v, max) {
            Ok(n) => Some(n),
            Err(_) => None,
        },
    }
}

proof fn lemma_number_setting(env: Seq<(Seq<char>, Seq<char>)>, name: Seq<char>, default: int, max: int)
    requires
        0 <= default <= max,
    ensures
        number_setting(env, name, default, max) matches Some(n) ==> 0 <= n <= max,
        parse_env_spec(env, name, default, max) is Ok <==> number_setting(env, name, default, max) is Some,
        parse_env_spec(env, name, default, max) matches Ok(n) ==> number_setting(env, name, default, max)
            == Some(n),
{
    if let Some(v) = lookup(env, name) {
        crate::text::lemma_parse_bound(v, max);
    }
}

/// The configuration is read from the environment: it exists exactly when
/// every numeric variable reads as an integer in range, the session secret
/// is at least 32 bytes and the worker and concurrency counts are not zero;
/// and then each setting is the variable's value when the variable is set,
/// and its default only when it is not.
#[verifier::rlimit(40)]
pub proof fn lemma_config_reads_environment(env: Seq<(Seq<char>, Seq<char>)>)
    ensures
        config_from_env_spec(env) is Ok <==> ({
            &&& number_setting(env, "WORKER_COUNT"@, 5, usize::MAX as int) is Some
            &&& number_setting(env, "WORKER_COUNT"@, 5, usize::MAX as int)->Some_0 > 0
            &&& number_setting(env, "MAX_CONCURRENT_JOBS"@, 3, usize::MAX as int) is Some
            &&& number_setting(env, "MAX_CONCURRENT_JOBS"@, 3, usize::MAX as int)->Some_0 > 0
            &&& number_setting(env, "MAX_RETRIES"@, 3, u32::MAX as int) is Some
            &&& number_setting(env, "READ_BLOCK_MS"@, 5000, usize::MAX as int) is Some
            &&& number_setting(env, "CLAIM_IDLE_MS"@, 30000, usize::MAX as int) is Some
            &&& number_setting(env, "JOB_STATUS_TTL_SECS"@, 86400, usize::MAX as int) is Some
            &&& number_setting(env, "SESSION_TTL_SECS"@, 86400, usize::MAX as int) is Some
            &&& number_setting(env, "AI_TIMEOUT_SECS"@, 30, u64::MAX as int) is Some
            &&& (vstd::utf8::encode_utf8(text_setting(env, "SESSION_SECRET"@, ""@)).len() as usize)
                >= 32
        }),
        config_from_env_spec(env) matches Ok(c) ==> {
            &&& c.redis_url == text_setting(env, "REDIS_URL"@, "redis://127.0.0.1:6379/"@)
            &&& c.job_stream == text_setting(env, "JOB_STREAM"@, "job_stream"@)
            &&& c.dlq_stream == text_setting(env, "DLQ_STREAM"@, "job_dlq_stream"@)
            &&& c.consumer_group == text_setting(env, "CONSUMER_GROUP"@, "job_workers"@)
            &&& c.session_secret == text_setting(env, "SESSION_SECRET"@, ""@)
            &&& c.ai_endpoint == text_setting(
                env,
                "AI_ENDPOINT"@,
                "https://api.openai.com/v1/chat/completions"@,
            )
            &&& c.ai_model == text_setting(env, "AI_MODEL"@, "gpt-4o-mini"@)
            &&& c.bind_addr == match lookup(env, "BIND_ADDR"@) {
                Some(v) => v,
                None => match lookup(env, "PORT"@) {
                    Some(port) => "0.0.0.0:"@ + port,
                    None => "0.0.0.0:3000"@,
                },
            }
            &&& number_setting(env, "WORKER_COUNT"@, 5, usize::MAX as int) == Some(c.worker_count)
            &&& number_setting(env, "MAX_CONCURRENT_JOBS"@, 3, usize::MAX as int) == Some(
                c.max_concurrent_jobs,
            )
            &&& number_setting(env, "MAX_RETRIES"@, 3, u32::MAX as int) == Some(c.max_retries)
            &&& number_setting(env, "READ_BLOCK_MS"@, 5000, usize::MAX as int) == Some(
                c.read_block_ms,
            )
            &&& number_setting(env, "CLAIM_IDLE_MS"@, 30000, usize::MAX as int) == Some(
                c.claim_idle_ms,
            )
            &&& number_setting(env, "JOB_STATUS_TTL_SECS"@, 86400, usize::MAX as int) == Some(
                c.job_status_ttl_secs,
            )
            &&& number_setting(env, "SESSION_TTL_SECS"@, 86400, usize::MAX as int) == Some(
                c.session_ttl_secs,
            )
            &&& number_setting(env, "AI_TIMEOUT_SECS"@, 30, u64::MAX as int) == Some(
                c.ai_timeout_secs,
            )
        },
{
    lemma_number_setting(env, "WORKER_COUNT"@, 5, usize::MAX as int);
    lemma_number_setting(env, "MAX_CONCURRENT_JOBS"@, 3, usize::MAX as int);
    lemma_number_setting(env, "MAX_RETRIES"@, 3, u32::MAX as int);
    lemma_number_setting(env, "READ_BLOCK_MS"@, 5000, usize::MAX as int);
    lemma_number_setting(env, "CLAIM_IDLE_MS"@, 30000, usize::MAX as int);
    lemma_number_setting(env, "JOB_STATUS_TTL_SECS"@, 86400, usize::MAX as int);
    lemma_number_setting(env, "SESSION_TTL_SECS"@, 86400, usize::MAX as int);
    lemma_number_setting(env, "AI_TIMEOUT_SECS"@, 30, u64::MAX as int);
    let wc = parse_env_spec(env, "WORKER_COUNT"@, 5, usize::MAX as int);
    let mcj = parse_env_spec(env, "MAX_CONCURRENT_JOBS"@, 3, usize::MAX as int);
    let mr = parse_env_spec(env, "MAX_RETRIES"@, 3, u32::MAX as int);
    let rb = parse_env_spec(env, "READ_BLOCK_MS"@, 5000, usize::MAX as int);
    let ci = parse_env_spec(env, "CLAIM_IDLE_MS"@, 30000, usize::MAX as int);
    let jt = parse_env_spec(env, "JOB_STATUS_TTL_SECS"@, 86400, usize::MAX as int);
    let st = parse_env_spec(env, "SESSION_TTL_SECS"@, 86400, usize::MAX as int);
    let at = parse_env_spec(env, "AI_TIMEOUT_SECS"@, 30, u64::MAX as int);
    let secret = env_or_default_spec(env, "SESSION_SECRET"@, ""@);
    assert(text_setting(env, "SESSION_SECRET"@, ""@) == secret);
    let all_parse = wc is Ok && mcj is Ok && mr is Ok && rb is Ok && ci is Ok && jt is Ok && st is Ok
        && at is Ok;
    if !all_parse {
        assert(config_from_env_spec(env) is Err);
    } else if (vstd::utf8::encode_utf8(secret).len() as usize) < 32 {
        assert(config_from_env_spec(env) is Err);
    } else if wc->Ok_0 == 0 || mcj->Ok_0 == 0 {
        assert(config_from_env_spec(env) is Err);
    } else {
        assert(config_from_env_spec(env) is Ok);
    }
}

/// The configuration depends only on what looking up each variable gives,
/// so two snapshots that agree on every name (such as the same environment
/// listed in another order) give the same configuration.
#[verifier::rlimit(40)]
pub proof fn lemma_config_depends_on_lookups(
    e: Seq<(Seq<char>, Seq<char>)>,
    f: Seq<(Seq<char>, Seq<char>)>,
)
    requires
        forall|name: Seq<char>| lookup(e, name) == lookup(f, name),
    ensures
        config_from_env_spec(e) == config_from_env_spec(f),
{
    assert(lookup(e, "WORKER_COUNT"@) == lookup(f, "WORKER_COUNT"@));
    assert(lookup(e, "MAX_CONCURRENT_JOBS"@) == lookup(f, "MAX_CONCURRENT_JOBS"@));
    assert(lookup(e, "MAX_RETRIES"@) == lookup(f, "MAX_RETRIES"@));
    assert(lookup(e, "READ_BLOCK_MS"@) == lookup(f, "READ_BLOCK_MS"@));
    assert(lookup(e, "CLAIM_IDLE_MS"@) == lookup(f, "CLAIM_IDLE_MS"@));
    assert(lookup(e, "JOB_STATUS_TTL_SECS"@) == lookup(f, "JOB_STATUS_TTL_SECS"@));
    assert(lookup(e, "SESSION_TTL_SECS"@) == lookup(f, "SESSION_TTL_SECS"@));
    assert(lookup(e, "AI_TIMEOUT_SECS"@) == lookup(f, "AI_TIMEOUT_SECS"@));
    assert(lookup(e, "SESSION_SECRET"@) == lookup(f, "SESSION_SECRET"@));
    assert(lookup(e, "REDIS_URL"@) == lookup(f, "REDIS_URL"@));
    assert(lookup(e, "BIND_ADDR"@) == lookup(f, "BIND_ADDR"@));
    assert(lookup(e, "PORT"@) == lookup(f, "PORT"@));
    assert(lookup(e, "JOB_STREAM"@) == lookup(f, "JOB_STREAM"@));
    assert(lookup(e, "DLQ_STREAM"@) == lookup(f, "DLQ_STREAM"@));
    assert(lookup(e, "CONSUMER_GROUP"@) == lookup(f, "CONSUMER_GROUP"@));
    assert(lookup(e, "AI_ENDPOINT"@) == lookup(f, "AI_ENDPOINT"@));
    assert(lookup(e, "AI_MODEL"@) == lookup(f, "AI_MODEL"@));
}

/// The variable's value, or `default_value` when it is not set.
fn env_or_default(env: &EnvVars, name: &str, default_value: &str) -> (res: String)
    ensures
        res@ == env_or_default_spec(env@, name@, default_value@),
{
    match lookup_value(&env.entries, name) {
        Some(v) => v,
        None => owned(default_value),
    }
}

fn bind_addr_from_env(env: &EnvVars) -> (res: String)
    ensures
        res@ == bind_addr_spec(env@),
{
    match lookup_value(&env.entries, "BIND_ADDR") {
        Some(v) => v,
        None => match lookup_value(&env.entries, "PORT") {
            Some(port) => concat2("0.0.0.0:", port.as_str()),
            None => owned("0.0.0.0:3000"),
        },
    }
}

/// The variable read as an unsigned integer of at most `max`.
fn parse_env(env: &EnvVars, name: &str, default_value: u64, max: u64) -> (res: Result<
    u64,
    AppError,
>)
    requires
        default_value <= max,
    ensures
        match res {
            Ok(v) => parse_env_spec(env@, name@, default_value as int, max as int) == Ok::<
                int,
                Seq<char>,
            >(v as int) && v <= max,
            Err(e) => e is Config && parse_env_spec(env@, name@, default_value as int, max as int) == Err::<
                    int,
                    Seq<char>,
                >(e->Config_0@),
        },
{
    match lookup_value(&env.entries, name) {
        None => Ok(default_value),
        Some(value) => match parse_unsigned_str(value.as_str(), max) {
            Ok(n) => {
                proof {
                    crate::text::lemma_parse_bound(value@, max as int);
                }
                Ok(n)
            },
            Err(e) => {
                let mut m = concat2(name, " must be a positive integer: ");
                let detail = e.message();
                m.append(detail.as_str());
                Err(AppError::Config(m))
            },
        },
    }
}

fn parse_usize_env(env: &EnvVars, name: &str, default_value: usize) -> (res: Result<
    usize,
    AppError,
>)
    ensures
        match res {
            Ok(v) => parse_env_spec(env@, name@, default_value as int, usize::MAX as int) == Ok::<
                int,
                Seq<char>,
            >(v as int),
            Err(e) => e is Config && parse_env_spec(env@, name@, default_value as int, usize::MAX as int) == Err::<
                    int,
                    Seq<char>,
                >(e->Config_0@),
        },
{
    match parse_env(env, name, default_value as u64, usize::MAX as u64) {
        Ok(v) => Ok(v as usize),
        Err(e) => Err(e),
    }
}

fn parse_u32_env(env: &EnvVars, name: &str, default_value: u32) -> (res: Result<u32, AppError>)
    ensures
        match res {
            Ok(v) => parse_env_spec(env@, name@, default_value as int, u32::MAX as int) == Ok::<
                int,
                Seq<char>,
            >(v as int),
            Err(e) => e is Config && parse_env_spec(env@, name@, default_value as int, u32::MAX as int) == Err::<
                    int,
                    Seq<char>,
                >(e->Config_0@),
        },
{
    match parse_env(env, name, default_value as u64, u32::MAX as u64) {
        Ok(v) => Ok(v as u32),
        Err(e) => Err(e),
    }
}

fn parse_u64_env(env: &EnvVars, name: &str, default_value: u64) -> (res: Result<u64, AppError>)
    ensures
        match res {
            Ok(v) => parse_env_spec(env@, name@, default_value as int, u64::MAX as int) == Ok::<
                int,
                Seq<char>,
            >(v as int),
            Err(e) => e is Config && parse_env_spec(env@, name@, default_value as int, u64::MAX as int) == Err::<
                    int,
                    Seq<char>,
                >(e->Config_0@),
        },
{
    parse_env(env, name, default_value, u64::MAX)
}

/// `std::time::Duration::from_secs`, named by its argument.
pub uninterp spec fn duration_of_secs(secs: u64) -> Duration;

/// `std::time::Duration::from_secs`. The contract claims only that the
/// duration is the one std builds from that many seconds.
#[verifier::external_body]
fn duration_from_secs(secs: u64) -> (res: Duration)
    ensures
        res == duration_of_secs(secs),
{
    Duration::from_secs(secs)
}

impl Config {
    /// The configuration described by the environment snapshot `env`.
    /// Fails with a configuration error naming the first refused setting:
    /// a numeric variable that is not an unsigned integer in range, a
    /// session secret shorter than 32 bytes, or a zero worker or
    /// concurrency count.
    pub fn from_env(_role: &RuntimeRole, env: &EnvVars) -> (res: Result<Self, AppError>)
        ensures
            match res {
                Ok(c) => config_from_env_spec(env@) == Ok::<ConfigView, Seq<char>>(c@),
                Err(e) => e is Config && config_from_env_spec(env@) == Err::<ConfigView, Seq<char>>(e->Config_0@),
            },
    {
        let redis_url = env_or_default(env, "REDIS_URL", "redis://127.0.0.1:6379/");
        let bind_addr = bind_addr_from_env(env);
        let worker_count = match parse_usize_env(env, "WORKER_COUNT", 5) {
            Ok(v) => v,
            Err(e) => return Err(e),
        };
        let max_concurrent_jobs = match parse_usize_env(env, "MAX_CONCURRENT_JOBS", 3) {
            Ok(v) => v,
            Err(e) => return Err(e),
        };
        let max_retries = match parse_u32_env(env, "MAX_RETRIES", 3) {
            Ok(v) => v,
            Err(e) => return Err(e),
        };
        let job_stream = env_or_default(env, "JOB_STREAM", "job_stream");
        let dlq_stream = env_or_default(env, "DLQ_STREAM", "job_dlq_stream");
        let consumer_group = env_or_default(env, "CONSUMER_GROUP", "job_workers");
        let read_block_ms = match parse_usize_env(env, "READ_BLOCK_MS", 5000) {
            Ok(v) => v,
            Err(e) => return Err(e),
        };
        let claim_idle_ms = match parse_usize_env(env, "CLAIM_IDLE_MS", 30000) {
            Ok(v) => v,
            Err(e) => return Err(e),
        };
        let job_status_ttl_secs = match parse_usize_env(env, "JOB_STATUS_TTL_SECS", 86400) {
            Ok(v) => v,
            Err(e) => return Err(e),
        };
        let session_ttl_secs = match parse_usize_env(env, "SESSION_TTL_SECS", 86400) {
            Ok(v) => v,
            Err(e) => return Err(e),
        };
        let session_secret = env_or_default(env, "SESSION_SECRET", "");
        let ai_endpoint = env_or_default(
            env,
            "AI_ENDPOINT",
            "https://api.openai.com/v1/chat/completions",
        );
        let ai_model = env_or_default(env, "AI_MODEL", "gpt-4o-mini");
        let ai_timeout_secs = match parse_u64_env(env, "AI_TIMEOUT_SECS", 30) {
            Ok(v) => v,
            Err(e) => return Err(e),
        };

        if session_secret.as_str().len() < 32 {
            return Err(
                AppError::Config(
                    owned("SESSION_SECRET must be set and at least 32 characters long"),
                ),
            );
        }
        if worker_count == 0 {
            return Err(AppError::Config(owned("WORKER_COUNT must be > 0")));
        }
        if max_concurrent_jobs == 0 {
            return Err(AppError::Config(owned("MAX_CONCURRENT_JOBS must be > 0")));
        }
        Ok(
            Config {
                redis_url,
                bind_addr,
                worker_count,
                max_concurrent_jobs,
                max_retries,
                job_stream,
                dlq_stream,
                consumer_group,
                read_block_ms,
                claim_idle_ms,
                job_status_ttl_secs,
                session_ttl_secs,
                session_secret,
                ai_endpoint,
                ai_model,
                ai_timeout_secs,
            },
        )
    }

    /// The time allowed for one AI provider request.
    pub fn ai_timeout(&self) -> (res: Duration)
        ensures
            res == duration_of_secs(self.ai_timeout_secs),
    {
        duration_from_secs(self.ai_timeout_secs)
    }
}

} // verus!
