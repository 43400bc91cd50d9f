//! Resolution of database-URL candidates.
//!
//! A candidate string is either a literal connection string or an indirect
//! reference, routed by its prefix: `env:NAME` reads an environment
//! variable, `config:` consults an optional configuration store, and
//! `dotenv:` loads a `.env` file into the environment before resolving the
//! rest of the candidate.
use vstd::prelude::*;

mod lookup;

verus! {

// ---------------------------------------------------------------------------
// The routing prefixes
// ---------------------------------------------------------------------------

pub open spec fn dotenv_prefix() -> Seq<char> {
    seq!['d', 'o', 't', 'e', 'n', 'v', ':']
}

pub open spec fn env_prefix() -> Seq<char> {
    seq!['e', 'n', 'v', ':']
}

pub open spec fn config_prefix() -> Seq<char> {
    seq!['c', 'o', 'n', 'f', 'i', 'g', ':']
}

/// `p` is a prefix of `s`.
pub open spec fn has_prefix(s: Seq<char>, p: Seq<char>) -> bool {
    p.len() <= s.len() && forall|i: int| 0 <= i < p.len() ==> s[i] == p[i]
}

/// `needle` occurs contiguously somewhere in `hay`.
pub open spec fn contains_substring(hay: Seq<char>, needle: Seq<char>) -> bool {
    exists|i: int|
        0 <= i && i + needle.len() <= hay.len() && #[trigger] hay.subrange(i, i + needle.len())
            == needle
}

// ---------------------------------------------------------------------------
// The error messages
// ---------------------------------------------------------------------------

/// The message reported when an environment variable cannot be read:
/// the variable's name, then the underlying failure's description.
pub open spec fn env_error_message(name: Seq<char>, description: Seq<char>) -> Seq<char> {
    "Failed to load environment variable "@ + name + ": "@ + description
}

/// The message reported when the store holds no value for a key.
pub open spec fn config_missing_message(key: Seq<char>) -> Seq<char> {
    "configuration property "@ + key + " is not defined"@
}

/// The message reported for a `config:` candidate when no store is present.
pub open spec fn config_feature_message() -> Seq<char> {
    "The config feature is required to use strings starting with `config:`"@
}

// ---------------------------------------------------------------------------
// What resolution returns
// ---------------------------------------------------------------------------

pub open spec fn result_chars(r: Result<String, String>) -> Result<Seq<char>, Seq<char>> {
    match r {
        Ok(value) => Ok(value@),
        Err(message) => Err(message@),
    }
}

pub open spec fn option_chars(o: Option<String>) -> Option<Seq<char>> {
    match o {
        Some(value) => Some(value@),
        None => None,
    }
}

/// The store's answer for a key: the string value the store yields when it
/// yields one. It names what `config::Config::get_string` returns, which is
/// computed from the store value and the key alone.
pub uninterp spec fn config_string_of(store: config::Config, key: Seq<char>) -> Option<Seq<char>>;

/// The store a resolution runs against, taken as a value.
pub open spec fn store_value(store: Option<&config::Config>) -> Option<config::Config> {
    match store {
        Some(cfg) => Some(*cfg),
        None => None,
    }
}

/// What an environment lookup outcome becomes: a value passes through,
/// a failure description is wrapped in the full error message.
pub open spec fn env_outcome_result(
    name: Seq<char>,
    outcome: Result<Seq<char>, Seq<char>>,
) -> Result<Seq<char>, Seq<char>> {
    match outcome {
        Ok(value) => Ok(value),
        Err(description) => Err(env_error_message(name, description)),
    }
}

/// What a store lookup outcome becomes: a value found passes through,
/// a missing key turns into the missing-property message.
pub open spec fn config_outcome_result(
    key: Seq<char>,
    found: Option<Seq<char>>,
) -> Result<Seq<char>, Seq<char>> {
    match found {
        Some(value) => Ok(value),
        None => Err(config_missing_message(key)),
    }
}

/// The resolver's contract, as a relation between the candidate, the store
/// it runs against, and the returned result. An environment lookup's
/// outcome depends on the process environment, so that branch admits every
/// outcome of the lookup while pinning exactly what each outcome is turned
/// into; a store's answer is a function of the store value and the key, so
/// that branch is pinned to it:
///
/// - `dotenv:` drops three characters (leaving the `env:` tail of the
///   prefix in place) and resolves the rest, after a best-effort load of a
///   `.env` file whose own failure is never surfaced;
/// - `env:` drops the four prefix characters and reads that environment
///   variable: its value on success, the full error message on failure;
/// - `config:` drops six characters (so the key keeps the colon) and
///   consults the store: without a store the fixed feature message, with
///   one exactly the store's answer — the value it holds for the key, or
///   the missing-property message when it holds none;
/// - anything else resolves to itself.
pub open spec fn resolution_ok(
    input: Seq<char>,
    store: Option<config::Config>,
    r: Result<Seq<char>, Seq<char>>,
) -> bool
    decreases input.len(),
{
    if has_prefix(input, dotenv_prefix()) {
        resolution_ok(input.skip(3), store, r)
    } else if has_prefix(input, env_prefix()) {
        exists|outcome: Result<Seq<char>, Seq<char>>|
            r == env_outcome_result(input.skip(4), outcome)
    } else if has_prefix(input, config_prefix()) {
        match store {
            Some(cfg) => r == config_outcome_result(
                input.skip(6),
                config_string_of(cfg, input.skip(6)),
            ),
            None => r == Err::<Seq<char>, Seq<char>>(config_feature_message()),
        }
    } else {
        r == Ok::<Seq<char>, Seq<char>>(input)
    }
}

// ---------------------------------------------------------------------------
// Laws
// ---------------------------------------------------------------------------

/// Whatever is flanked by two sequences occurs in the concatenation.
proof fn lemma_flanked_contains(a: Seq<char>, b: Seq<char>, c: Seq<char>)
    ensures
        contains_substring(a + b + c, b),
{
    let h = a + b + c;
    assert(h.subrange(a.len() as int, a.len() as int + b.len() as int) =~= b);
}

/// The three routing prefixes are mutually exclusive: they differ in their
/// first character.
proof fn lemma_prefixes_exclusive(input: Seq<char>)
    ensures
        has_prefix(input, env_prefix()) ==> !has_prefix(input, dotenv_prefix()),
        has_prefix(input, config_prefix()) ==> !has_prefix(input, dotenv_prefix())
            && !has_prefix(input, env_prefix()),
{
    if has_prefix(input, env_prefix()) && has_prefix(input, dotenv_prefix()) {
        assert(input[0] == 'e' && input[0] == 'd');
    }
    if has_prefix(input, config_prefix()) && has_prefix(input, dotenv_prefix()) {
        assert(input[0] == 'c' && input[0] == 'd');
    }
    if has_prefix(input, config_prefix()) && has_prefix(input, env_prefix()) {
        assert(input[0] == 'c' && input[0] == 'e');
    }
}

/// A candidate with no recognized prefix resolves to itself, with or
/// without a configuration store.
pub proof fn lemma_literal_passthrough(
    input: Seq<char>,
    store: Option<config::Config>,
    r: Result<Seq<char>, Seq<char>>,
)
    requires
        !has_prefix(input, dotenv_prefix()),
        !has_prefix(input, env_prefix()),
        !has_prefix(input, config_prefix()),
        resolution_ok(input, store, r),
    ensures
        r == Ok::<Seq<char>, Seq<char>>(input),
{
}

/// When an `env:` candidate fails to resolve, the error message contains
/// the variable's name.
pub proof fn lemma_env_error_names_variable(
    input: Seq<char>,
    store: Option<config::Config>,
    m: Seq<char>,
)
    requires
        has_prefix(input, env_prefix()),
        resolution_ok(input, store, Err(m)),
    ensures
        contains_substring(m, input.skip(4)),
{
    lemma_prefixes_exclusive(input);
    let name = input.skip(4);
    let outcome = choose|outcome: Result<Seq<char>, Seq<char>>|
        Err::<Seq<char>, Seq<char>>(m) == env_outcome_result(name, outcome);
    assert(outcome is Err);
    let description = outcome->Err_0;
    assert(m == env_error_message(name, description));
    assert(env_error_message(name, description) =~= "Failed to load environment variable "@ + name
        + (": "@ + description));
    lemma_flanked_contains("Failed to load environment variable "@, name, ": "@ + description);
}

/// Without a configuration store, a `config:` candidate always fails with
/// the fixed feature message, whatever its key.
pub proof fn lemma_config_requires_store(input: Seq<char>, r: Result<Seq<char>, Seq<char>>)
    requires
        has_prefix(input, config_prefix()),
        resolution_ok(input, None, r),
    ensures
        r == Err::<Seq<char>, Seq<char>>(config_feature_message()),
{
    lemma_prefixes_exclusive(input);
}

/// With a configuration store, a `config:` candidate resolves to exactly
/// what the store answers for the key: `Ok` of the value when the store
/// holds one, the missing-property message when it holds none.
pub proof fn lemma_config_resolves_by_store(
    input: Seq<char>,
    store: config::Config,
    r: Result<Seq<char>, Seq<char>>,
)
    requires
        has_prefix(input, config_prefix()),
        resolution_ok(input, Some(store), r),
    ensures
        r == config_outcome_result(input.skip(6), config_string_of(store, input.skip(6))),
{
    lemma_prefixes_exclusive(input);
}

/// With a configuration store, a failing `config:` candidate reports
/// exactly the missing-property message, which contains the key.
pub proof fn lemma_config_missing_key_names_key(
    input: Seq<char>,
    store: config::Config,
    m: Seq<char>,
)
    requires
        has_prefix(input, config_prefix()),
        resolution_ok(input, Some(store), Err(m)),
    ensures
        m == config_missing_message(input.skip(6)),
        contains_substring(m, input.skip(6)),
{
    lemma_config_resolves_by_store(input, store, Err(m));
    let key = input.skip(6);
    assert(config_string_of(store, key) is None);
    assert(m == config_missing_message(key));
    lemma_flanked_contains("configuration property "@, key, " is not defined"@);
}

// ---------------------------------------------------------------------------
// Prefix dispatch, executable
// ---------------------------------------------------------------------------

/// The spec prefixes written as string literals, for the dispatch below.
proof fn lemma_prefix_literals()
    ensures
        "dotenv:"@ == dotenv_prefix(),
        "env:"@ == env_prefix(),
        "config:"@ == config_prefix(),
{
    reveal_strlit("dotenv:");
    reveal_strlit("env:");
    reveal_strlit("config:");
    assert("dotenv:"@ =~= dotenv_prefix());
    assert("env:"@ =~= env_prefix());
    assert("config:"@ =~= config_prefix());
}

// ---------------------------------------------------------------------------
// Turning lookup outcomes into results
// ---------------------------------------------------------------------------

/// Turns the outcome of an environment lookup into the resolver's result:
/// the value read passes through unchanged, and a failure description is
/// wrapped in the message that names the variable.
pub fn resolve_env_outcome(name: &str, outcome: Result<String, String>) -> (r: Result<
    String,
    String,
>)
    ensures
        result_chars(r) == env_outcome_result(name@, result_chars(outcome)),
{
    match outcome {
        Ok(value) => Ok(value),
        Err(description) => {
            let mut message = String::from_str("Failed to load environment variable ");
            message.append(name);
            message.append(": ");
            message.append(description.as_str());
            proof {
                assert(message@ =~= env_error_message(name@, description@));
            }
            Err(message)
        },
    }
}

/// Turns the outcome of a store lookup into the resolver's result: a value
/// found passes through unchanged, and a missing key is reported in the
/// message that names it.
pub fn resolve_config_outcome(key: &str, found: Option<String>) -> (r: Result<String, String>)
    ensures
        result_chars(r) == config_outcome_result(key@, option_chars(found)),
{
    match found {
        Some(value) => Ok(value),
        None => {
            let mut message = String::from_str("configuration property ");
            message.append(key);
            message.append(" is not defined");
            proof {
                assert(message@ =~= config_missing_message(key@));
            }
            Err(message)
        },
    }
}

/// Loads `.env`-style definitions into the process environment, best
/// effort: whatever the load itself runs into, the call reports success,
/// so a failure to load is never surfaced to resolution.
pub fn load_dotenv_file() -> (r: Result<(), String>)
    ensures
        r == Ok::<(), String>(()),
{
    lookup::load_env_file();
    Ok(())
}

/// Looks `key` up in the given configuration store: `Ok` of the store's
/// string answer when it holds one, and exactly the missing-property
/// message that names the key when it holds none.
pub fn get_database_url_from_config(store: &config::Config, key: &str) -> (r: Result<
    String,
    String,
>)
    ensures
        result_chars(r) == config_outcome_result(key@, config_string_of(*store, key@)),
{
    let found = lookup::config_get_string(store, key);
    resolve_config_outcome(key, found)
}

/// Prefix test over characters, verified against `has_prefix`.
fn starts_with_str(s: &str, p: &str) -> (r: bool)
    ensures
        r == has_prefix(s@, p@),
{
    let n = p.unicode_len();
    if n > s.unicode_len() {
        return false;
    }
    let mut i: usize = 0;
    while i < n
        invariant
            n == p@.len(),
            n <= s@.len(),
            i <= n,
            forall|j: int| 0 <= j < i ==> s@[j] == p@[j],
        decreases n - i,
    {
        if s.get_char(i) != p.get_char(i) {
            return false;
        }
        i += 1;
    }
    true
}

// ---------------------------------------------------------------------------
// The resolver
// ---------------------------------------------------------------------------

/// Resolves a database-URL candidate against an optional configuration
/// store, routing on the candidate's prefix as `resolution_ok` states:
/// `dotenv:` loads a `.env` file best-effort, then resolves the candidate
/// past its first three characters (the `env:` tail of the prefix stays,
/// so the remainder is normally read from the environment); `env:NAME`
/// reads the environment variable `NAME`; `config:` consults the store,
/// when one is present, with the candidate past its first six characters;
/// anything else is returned unchanged.
pub fn resolve_with_config(url: &str, store: Option<&config::Config>) -> (r: Result<
    String,
    String,
>)
    ensures
        resolution_ok(url@, store_value(store), result_chars(r)),
    decreases url@.len(),
{
    proof {
        lemma_prefix_literals();
    }
    let n = url.unicode_len();
    if starts_with_str(url, "dotenv:") {
        let _best_effort = load_dotenv_file();
        proof {
            assert(url@.len() >= 7);
        }
        let rest = url.substring_char(3, n);
        proof {
            assert(rest@ == url@.skip(3));
        }
        resolve_with_config(rest, store)
    } else if starts_with_str(url, "env:") {
        proof {
            assert(url@.len() >= 4);
        }
        let name = url.substring_char(4, n);
        let outcome = lookup::env_lookup(name);
        let ghost outcome_view = result_chars(outcome);
        let r = resolve_env_outcome(name, outcome);
        proof {
            assert(name@ == url@.skip(4));
            assert(result_chars(r) == env_outcome_result(url@.skip(4), outcome_view));
        }
        r
    } else if starts_with_str(url, "config:") {
        match store {
            Some(cfg) => {
                proof {
                    assert(url@.len() >= 7);
                }
                let key = url.substring_char(6, n);
                let r = get_database_url_from_config(cfg, key);
                proof {
                    assert(key@ == url@.skip(6));
                }
                r
            },
            None => Err(
                String::from_str(
                    "The config feature is required to use strings starting with `config:`",
                ),
            ),
        }
    } else {
        Ok(String::from_str(url))
    }
}

/// Resolves a database-URL candidate with no configuration store present,
/// so a `config:` candidate always fails with the fixed feature message;
/// every other candidate resolves as `resolve_with_config` describes.
pub fn extract_database_url(url: &str) -> (r: Result<String, String>)
    ensures
        resolution_ok(url@, None, result_chars(r)),
{
    resolve_with_config(url, None)
}

} // verus!
