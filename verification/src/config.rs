//! The service's settings, from the environment's variables.

use vstd::prelude::*;
use vstd::string::*;

use crate::json::string_opt;
use crate::text::{
    in_range, law_numerals_read_back, lowered, parse_i64, parse_unsigned, signed_decimal, signed_numeral, str_eq,
    to_ascii_lowercase, trim, trim_end_char, trimmed, unsigned_numeral, without_trailing,
};
use crate::url::{derive_origin, origin_of};

verus! {

/// The variables that the settings are read from; none where one is not set.
pub struct Environment {
    pub database_url: String,
    pub session_secret: String,
    pub base_url: String,
    pub internal_api_key: String,
    pub listen_addr: Option<String>,
    pub auth_gateway_url: Option<String>,
    pub rl_dashboard_origin: Option<String>,
    pub rolelogic_api_url: Option<String>,
    pub worker_concurrency: Option<String>,
    pub db_max_connections: Option<String>,
    pub db_min_connections: Option<String>,
    pub db_acquire_timeout_secs: Option<String>,
    pub db_idle_timeout_secs: Option<String>,
    pub kick_client_id: Option<String>,
    pub kick_client_secret: Option<String>,
    pub kick_follow_probe_enabled: Option<String>,
    pub kick_probe_base_url: Option<String>,
    pub kick_probe_rpm: Option<String>,
    pub kick_unfollow_confirmations: Option<String>,
}

/// How many connections to the database, and for how long.
#[derive(Debug, Clone, Copy)]
pub struct DbPoolConfig {
    pub max_connections: u32,
    pub min_connections: u32,
    pub acquire_timeout_secs: u64,
    pub idle_timeout_secs: u64,
}

/// The service's standing with Kick.
#[derive(Debug, Clone)]
pub struct KickConfig {
    pub client_id: Option<String>,
    pub client_secret: Option<String>,
    /// Whether cards are read at all.
    pub follow_probe_enabled: bool,
    /// Where cards are read.
    pub follow_probe_base_url: String,
    /// Requests for cards per minute.
    pub follow_probe_rpm: u32,
    /// How many misses take a follow away.
    pub unfollow_confirmations: i16,
}

/// The service's settings.
#[derive(Clone)]
pub struct AppConfig {
    pub database_url: String,
    pub session_secret: String,
    pub base_url: String,
    pub listen_addr: String,
    /// The Auth Gateway.
    pub auth_gateway_url: String,
    /// The secret shared with the Auth Gateway.
    pub internal_api_key: String,
    /// Who may show the service's pages in a frame.
    pub rl_dashboard_origin: Option<String>,
    /// The role service.
    pub rolelogic_api_url: String,
    /// How many workers take jobs.
    pub worker_concurrency: u32,
    pub db_pool: DbPoolConfig,
    pub kick: KickConfig,
}

/// The number that a variable gives, or else the usual one.
pub open spec fn number_in(value: Option<Seq<char>>, max: int, usual: int) -> int {
    match value {
        Some(s) => match in_range(unsigned_numeral(s), 0, max) {
            Some(n) => n,
            None => usual,
        },
        None => usual,
    }
}

/// The number that a variable gives, or else the usual one.
fn number(value: &Option<String>, max: u64, usual: u64) -> (r: u64)
    requires
        usual <= max,
    ensures
        r == number_in(string_opt(*value), max as int, usual as int),
        r <= max,
{
    match value {
        Some(s) => match parse_unsigned(s.as_str(), max) {
            Some(n) => n,
            None => usual,
        },
        None => usual,
    }
}

/// What a variable gives, without the space around it; none where nothing is left.
pub open spec fn given(value: Option<Seq<char>>) -> Option<Seq<char>> {
    match value {
        Some(s) => if trimmed(s).len() > 0 {
            Some(trimmed(s))
        } else {
            None
        },
        None => None,
    }
}

/// What a variable gives, without the space around it; none where nothing is left.
fn given_text(value: &Option<String>) -> (r: Option<String>)
    ensures
        string_opt(r) == given(string_opt(*value)),
{
    match value {
        Some(s) => {
            let t = trim(s.as_str());
            if t.as_str().is_empty() {
                None
            } else {
                Some(t)
            }
        },
        None => None,
    }
}

/// The address that a variable gives, without slashes at its end, or else the usual one.
pub open spec fn address(value: Option<Seq<char>>, usual: Seq<char>) -> Seq<char> {
    match value {
        Some(s) => if without_trailing(trimmed(s), '/').len() > 0 {
            without_trailing(trimmed(s), '/')
        } else {
            usual
        },
        None => usual,
    }
}

/// The address that a variable gives, without slashes at its end, or else the usual one.
fn given_address(value: &Option<String>, usual: &str) -> (r: String)
    ensures
        r@ == address(string_opt(*value), usual@),
{
    match value {
        Some(s) => {
            let t = trim(s.as_str());
            let t = trim_end_char(t.as_str(), '/');
            if t.as_str().is_empty() {
                usual.to_owned()
            } else {
                t
            }
        },
        None => usual.to_owned(),
    }
}

/// Whether a variable leaves a switch on: it does unless it says `0`, `false` or `no`.
pub open spec fn switched_on(value: Option<Seq<char>>) -> bool {
    match value {
        Some(s) => {
            let word = lowered(trimmed(s));
            word != "0"@ && word != "false"@ && word != "no"@
        },
        None => true,
    }
}

/// The confirmations that a variable asks for, at least one, or else three.
pub open spec fn confirmations_in(value: Option<Seq<char>>) -> int {
    match value {
        Some(s) => match in_range(signed_numeral(s), i16::MIN as int, i16::MAX as int) {
            Some(n) => if n < 1 {
                1
            } else {
                n
            },
            None => 3,
        },
        None => 3,
    }
}

/// The requests per minute that a variable asks for, or else twenty: none at all is not one.
pub open spec fn rpm_in(value: Option<Seq<char>>) -> int {
    let n = number_in(value, u32::MAX as int, 20);
    if n > 0 {
        n
    } else {
        20
    }
}

impl DbPoolConfig {
    /// The pool's settings.
    pub fn from_env(env: &Environment) -> (r: Self)
        ensures
            r.max_connections == number_in(string_opt(env.db_max_connections), u32::MAX as int, 16),
            r.min_connections == number_in(string_opt(env.db_min_connections), u32::MAX as int, 2),
            r.acquire_timeout_secs == number_in(string_opt(env.db_acquire_timeout_secs), u64::MAX as int, 5),
            r.idle_timeout_secs == number_in(string_opt(env.db_idle_timeout_secs), u64::MAX as int, 600),
    {
        DbPoolConfig {
            max_connections: number(&env.db_max_connections, u32::MAX as u64, 16) as u32,
            min_connections: number(&env.db_min_connections, u32::MAX as u64, 2) as u32,
            acquire_timeout_secs: number(&env.db_acquire_timeout_secs, u64::MAX, 5),
            idle_timeout_secs: number(&env.db_idle_timeout_secs, u64::MAX, 600),
        }
    }
}

impl KickConfig {
    /// Whether these are the settings that the variables give.
    pub open spec fn is_of(self, env: Environment) -> bool {
        &&& string_opt(self.client_id) == given(string_opt(env.kick_client_id))
        &&& string_opt(self.client_secret) == given(string_opt(env.kick_client_secret))
        &&& self.follow_probe_enabled == switched_on(string_opt(env.kick_follow_probe_enabled))
        &&& self.follow_probe_base_url@ == address(string_opt(env.kick_probe_base_url), "https://kick.com"@)
        &&& self.follow_probe_rpm == rpm_in(string_opt(env.kick_probe_rpm))
        &&& self.unfollow_confirmations == confirmations_in(string_opt(env.kick_unfollow_confirmations))
    }

    /// The settings that the variables give. At least one confirmation is asked for, and at least
    /// one request per minute allowed.
    pub fn from_env(env: &Environment) -> (r: Self)
        ensures
            r.is_of(*env),
            r.unfollow_confirmations >= 1,
            r.follow_probe_rpm >= 1,
    {
        let follow_probe_enabled = match &env.kick_follow_probe_enabled {
            Some(s) => {
                let t = trim(s.as_str());
                let word = to_ascii_lowercase(t.as_str());
                let word = word.as_str();
                !str_eq(word, "0") && !str_eq(word, "false") && !str_eq(word, "no")
            },
            None => true,
        };
        let rpm: u64 = number(&env.kick_probe_rpm, u32::MAX as u64, 20);
        let follow_probe_rpm: u32 = if rpm > 0 {
            rpm as u32
        } else {
            20
        };
        let unfollow_confirmations: i16 = match &env.kick_unfollow_confirmations {
            Some(s) => match parse_i64(s.as_str()) {
                Some(n) => if n < i16::MIN as i64 || n > i16::MAX as i64 {
                    3
                } else if n < 1 {
                    1
                } else {
                    n as i16
                },
                None => 3,
            },
            None => 3,
        };
        KickConfig {
            client_id: given_text(&env.kick_client_id),
            client_secret: given_text(&env.kick_client_secret),
            follow_probe_enabled,
            follow_probe_base_url: given_address(&env.kick_probe_base_url, "https://kick.com"),
            follow_probe_rpm,
            unfollow_confirmations,
        }
    }
}

/// The Auth Gateway's address: what a variable gives, or else the origin of the service's own.
pub open spec fn gateway_of(value: Option<Seq<char>>, base_url: Seq<char>) -> Seq<char> {
    match value {
        Some(s) => without_trailing(s, '/'),
        None => origin_of(base_url),
    }
}

/// What a variable gives, or else the usual.
pub open spec fn or_usual(value: Option<Seq<char>>, usual: Seq<char>) -> Seq<char> {
    match value {
        Some(s) => s,
        None => usual,
    }
}

impl AppConfig {
    /// The settings that the variables give.
    pub fn from_env(env: Environment) -> (r: Self)
        ensures
            r.database_url@ == env.database_url@,
            r.session_secret@ == env.session_secret@,
            r.base_url@ == env.base_url@,
            r.internal_api_key@ == env.internal_api_key@,
            r.listen_addr@ == or_usual(string_opt(env.listen_addr), "0.0.0.0:8094"@),
            r.auth_gateway_url@ == gateway_of(string_opt(env.auth_gateway_url), env.base_url@),
            string_opt(r.rl_dashboard_origin) == Some(
                address(string_opt(env.rl_dashboard_origin), "https://rolelogic.faizo.net"@),
            ),
            r.rolelogic_api_url@ == address(
                string_opt(env.rolelogic_api_url),
                "https://api-rolelogic.faizo.net"@,
            ),
            r.worker_concurrency == number_in(string_opt(env.worker_concurrency), u32::MAX as int, 4),
            r.db_pool.max_connections == number_in(string_opt(env.db_max_connections), u32::MAX as int, 16),
            r.db_pool.min_connections == number_in(string_opt(env.db_min_connections), u32::MAX as int, 2),
            r.db_pool.acquire_timeout_secs == number_in(
                string_opt(env.db_acquire_timeout_secs),
                u64::MAX as int,
                5,
            ),
            r.db_pool.idle_timeout_secs == number_in(string_opt(env.db_idle_timeout_secs), u64::MAX as int, 600),
            r.kick.is_of(env),
    {
        let kick = KickConfig::from_env(&env);
        let db_pool = DbPoolConfig::from_env(&env);
        let worker_concurrency: u32 = number(&env.worker_concurrency, u32::MAX as u64, 4) as u32;
        let rl_dashboard_origin = Some(given_address(&env.rl_dashboard_origin, "https://rolelogic.faizo.net"));
        let rolelogic_api_url = given_address(&env.rolelogic_api_url, "https://api-rolelogic.faizo.net");
        let auth_gateway_url = match &env.auth_gateway_url {
            Some(s) => trim_end_char(s.as_str(), '/'),
            None => derive_origin(env.base_url.as_str()),
        };
        let listen_addr = match &env.listen_addr {
            Some(s) => s.clone(),
            None => "0.0.0.0:8094".to_owned(),
        };
        AppConfig {
            database_url: env.database_url,
            session_secret: env.session_secret,
            base_url: env.base_url,
            listen_addr,
            auth_gateway_url,
            internal_api_key: env.internal_api_key,
            rl_dashboard_origin,
            rolelogic_api_url,
            worker_concurrency,
            db_pool,
            kick,
        }
    }
}

/// A number is taken as its numeral writes it, where it is not too large; where nothing is set, or
/// it is, the usual one stands.
pub proof fn law_numbers_are_taken_as_written(n: nat, max: int, usual: int)
    ensures
        n <= max ==> number_in(Some(signed_decimal(n as int)), max, usual) == n,
        n > max ==> number_in(Some(signed_decimal(n as int)), max, usual) == usual,
        number_in(None, max, usual) == usual,
        1 <= n <= u32::MAX ==> rpm_in(Some(signed_decimal(n as int))) == n,
        rpm_in(Some(signed_decimal(0))) == 20,
        rpm_in(None) == 20,
{
    law_numerals_read_back(n as int);
    law_numerals_read_back(0);
}

/// As many confirmations are asked for as a numeral writes, one at least; three where nothing is set.
pub proof fn law_confirmations_are_at_least_one(n: i16)
    ensures
        confirmations_in(Some(signed_decimal(n as int))) == (if n >= 1 {
            n as int
        } else {
            1
        }),
        confirmations_in(None) == 3,
{
    law_numerals_read_back(n as int);
}

/// A switch is off where its variable says `0`, `false` or `no`, in whatever case and with space
/// around it; on where it says anything else, or nothing.
pub proof fn law_a_switch_is_on_unless_it_is_switched_off(s: Seq<char>)
    ensures
        switched_on(None),
        !switched_on(Some(s)) <==> {
            ||| lowered(trimmed(s)) == "0"@
            ||| lowered(trimmed(s)) == "false"@
            ||| lowered(trimmed(s)) == "no"@
        },
{
}

/// Whether a setting is what its variable gives without the space around it, and none where that is
/// nothing.
pub open spec fn is_given(setting: Option<String>, variable: Option<String>) -> bool {
    match variable {
        Some(s) => if trimmed(s@).len() > 0 {
            setting is Some && setting->0@ == trimmed(s@)
        } else {
            setting is None
        },
        None => setting is None,
    }
}

/// Whether an address is what its variable gives without space around it and slashes at its end, and
/// the usual one where that is nothing.
pub open spec fn is_address(setting: Seq<char>, variable: Option<String>, usual: Seq<char>) -> bool {
    match variable {
        Some(s) => if without_trailing(trimmed(s@), '/').len() > 0 {
            setting == without_trailing(trimmed(s@), '/')
        } else {
            setting == usual
        },
        None => setting == usual,
    }
}

/// Each setting is read from the variable of its name, with the usual one where that is not set.
pub proof fn law_settings_are_read_by_name(env: Environment, r: AppConfig)
    requires
        call_ensures(AppConfig::from_env, (env,), r),
    ensures
        r.database_url@ == env.database_url@,
        r.session_secret@ == env.session_secret@,
        r.base_url@ == env.base_url@,
        r.internal_api_key@ == env.internal_api_key@,
        env.listen_addr matches Some(s) ==> r.listen_addr@ == s@,
        env.listen_addr is None ==> r.listen_addr@ == "0.0.0.0:8094"@,
        env.auth_gateway_url matches Some(s) ==> r.auth_gateway_url@ == without_trailing(s@, '/'),
        env.auth_gateway_url is None ==> r.auth_gateway_url@ == origin_of(env.base_url@),
        r.rl_dashboard_origin is Some,
        is_address(r.rl_dashboard_origin->0@, env.rl_dashboard_origin, "https://rolelogic.faizo.net"@),
        is_address(r.rolelogic_api_url@, env.rolelogic_api_url, "https://api-rolelogic.faizo.net"@),
        env.worker_concurrency is None ==> r.worker_concurrency == 4,
        env.db_max_connections is None ==> r.db_pool.max_connections == 16,
        env.db_min_connections is None ==> r.db_pool.min_connections == 2,
        env.db_acquire_timeout_secs is None ==> r.db_pool.acquire_timeout_secs == 5,
        env.db_idle_timeout_secs is None ==> r.db_pool.idle_timeout_secs == 600,
        forall|n: u32| #![trigger signed_decimal(n as int)]
            env.worker_concurrency is Some && env.worker_concurrency->0@ == signed_decimal(n as int)
                ==> r.worker_concurrency == n,
        forall|n: u32| #![trigger signed_decimal(n as int)]
            env.db_max_connections is Some && env.db_max_connections->0@ == signed_decimal(n as int)
                ==> r.db_pool.max_connections == n,
        forall|n: u32| #![trigger signed_decimal(n as int)]
            env.db_min_connections is Some && env.db_min_connections->0@ == signed_decimal(n as int)
                ==> r.db_pool.min_connections == n,
        forall|n: u64| #![trigger signed_decimal(n as int)]
            env.db_acquire_timeout_secs is Some && env.db_acquire_timeout_secs->0@ == signed_decimal(n as int)
                ==> r.db_pool.acquire_timeout_secs == n,
        forall|n: u64| #![trigger signed_decimal(n as int)]
            env.db_idle_timeout_secs is Some && env.db_idle_timeout_secs->0@ == signed_decimal(n as int)
                ==> r.db_pool.idle_timeout_secs == n,
        is_given(r.kick.client_id, env.kick_client_id),
        is_given(r.kick.client_secret, env.kick_client_secret),
        is_address(r.kick.follow_probe_base_url@, env.kick_probe_base_url, "https://kick.com"@),
        env.kick_follow_probe_enabled is None ==> r.kick.follow_probe_enabled,
        env.kick_follow_probe_enabled matches Some(s) ==> r.kick.follow_probe_enabled == !(lowered(trimmed(s@)) == "0"@
            || lowered(trimmed(s@)) == "false"@ || lowered(trimmed(s@)) == "no"@),
        env.kick_probe_rpm is None ==> r.kick.follow_probe_rpm == 20,
        env.kick_unfollow_confirmations is None ==> r.kick.unfollow_confirmations == 3,
        forall|n: u32| #![trigger signed_decimal(n as int)]
            n > 0 && env.kick_probe_rpm is Some && env.kick_probe_rpm->0@ == signed_decimal(n as int)
                ==> r.kick.follow_probe_rpm == n,
        forall|n: i16| #![trigger signed_decimal(n as int)]
            n > 0 && env.kick_unfollow_confirmations is Some && env.kick_unfollow_confirmations->0@ == signed_decimal(
                n as int,
            ) ==> r.kick.unfollow_confirmations == n,
{
    assert forall|n: int| #[trigger] signed_numeral(signed_decimal(n)) == Some(n) && (n >= 0 ==> unsigned_numeral(
        signed_decimal(n),
    ) == Some(n)) by {
        law_numerals_read_back(n);
    }
    assert forall|n: int| n >= 0 implies #[trigger] unsigned_numeral(signed_decimal(n)) == Some(n) by {
        law_numerals_read_back(n);
    }
}

} // verus!
