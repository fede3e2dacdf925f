//! The first-time installation flow: create the environment file, then
//! append the database password, the API URL and host IP, and two freshly
//! generated random tokens, each as one `KEY=VALUE` line.
use vstd::prelude::*;

use crate::envfile::EnvError;
use crate::envfile::EnvFile;
use crate::text::trim;
use crate::text::trim_of;
use rand::Rng;

verus! {

/// Error type for the install flow.
#[derive(Debug)]
pub enum InstallError {
    /// The environment file was not ready for the attempted write.
    Env(EnvError),
    /// Resolving the machine's local IP address failed.
    LocalIp(local_ip_address::Error),
}

#[verifier::external_type_specification]
#[verifier::external_body]
pub struct ExLocalIpError(local_ip_address::Error);

/// Relies on `local_ip_address::local_ip`: resolves the machine's local
/// network IP address, textual through `IpAddr`'s display form. The outcome
/// depends on the machine, so nothing more is promised of it.
#[verifier::external_body]
fn lookup_local_ip() -> (r: Result<String, local_ip_address::Error>)
{
    match local_ip_address::local_ip() {
        Ok(ip) => Ok(ip.to_string()),
        Err(e) => Err(e),
    }
}

/// Whether a character is one of the 62 ASCII alphanumerics.
pub open spec fn is_alphanumeric_char(c: char) -> bool {
    (97 <= c as u32 && c as u32 <= 122)  // 'a' ..= 'z'
     || (65 <= c as u32 && c as u32 <= 90)  // 'A' ..= 'Z'
     || (48 <= c as u32 && c as u32 <= 57)  // '0' ..= '9'
}

/// Relies on rand's `Alphanumeric` distribution: every sample is one of the
/// 62 ASCII alphanumeric characters, and `sample_iter` with `take(len)`
/// yields exactly `len` of them.
#[verifier::external_body]
fn sample_alphanumeric(len: usize) -> (r: String)
    ensures
        r@.len() == len,
        forall|i: int| 0 <= i < r@.len() ==> is_alphanumeric_char(#[trigger] r@[i]),
{
    rand::thread_rng()
        .sample_iter(&rand::distributions::Alphanumeric)
        .take(len)
        .map(char::from)
        .collect()
}

/// How many characters each generated random token has.
pub const TOKEN_LENGTH: usize = 128;

/// The database password chosen for an interactive input: the trimmed input,
/// or `root` where the trimmed input is empty.
pub open spec fn spec_password(input: Seq<char>) -> Seq<char> {
    if trim_of(input).len() == 0 {
        "root"@
    } else {
        trim_of(input)
    }
}

/// The `DATABASE_PASSWORD=` line for a password.
pub open spec fn db_password_line(password: Seq<char>) -> Seq<char> {
    "DATABASE_PASSWORD="@ + password
}

/// The `API_URL=` line for a host IP.
pub open spec fn api_url_line(ip: Seq<char>) -> Seq<char> {
    "API_URL=http://"@ + ip + ":3001/api"@
}

/// The `IP_ADDRESS=` line for a host IP.
pub open spec fn ip_address_line(ip: Seq<char>) -> Seq<char> {
    "IP_ADDRESS="@ + ip
}

/// A `NAME=token` line.
pub open spec fn token_line(name: Seq<char>, token: Seq<char>) -> Seq<char> {
    name + "="@ + token
}

/// A token of the generated kind: exactly [`TOKEN_LENGTH`] characters, all
/// ASCII alphanumeric.
pub open spec fn is_token(t: Seq<char>) -> bool {
    t.len() == TOKEN_LENGTH && forall|i: int| 0 <= i < t.len() ==> is_alphanumeric_char(
        #[trigger] t[i],
    )
}

/// Whether `p` is a prefix of `l`.
pub open spec fn starts_with(l: Seq<char>, p: Seq<char>) -> bool {
    p.len() <= l.len() && forall|i: int| 0 <= i < p.len() ==> l[i] == p[i]
}

/// How many of the lines start with the given prefix.
pub open spec fn count_prefixed(lines: Seq<Seq<char>>, p: Seq<char>) -> int
    decreases lines.len(),
{
    if lines.len() == 0 {
        0
    } else {
        (if starts_with(lines[0], p) {
            1int
        } else {
            0int
        }) + count_prefixed(lines.drop_first(), p)
    }
}

/// Gets the database password from the interactive input already read and
/// stores it in the environment file: the trimmed input, with `root`
/// substituted for an empty one, appended as a `DATABASE_PASSWORD=` line.
pub fn get_db_password(env: &mut EnvFile, input: &str) -> (r: Result<String, EnvError>)
    ensures
        r is Ok <==> old(env).is_created(),
        r matches Ok(p) ==> p@ == spec_password(input@) && final(env).is_created()
            && final(env).lines() == old(env).lines().push(
            db_password_line(spec_password(input@)),
        ),
        r is Err ==> *final(env) == *old(env),
{
    let trimmed = trim(input);
    let password: String = if trimmed.is_empty() {
        "root".to_owned()
    } else {
        trimmed.to_owned()
    };
    let mut line: String = "DATABASE_PASSWORD=".to_owned();
    line.append(password.as_str());
    match env.append(line) {
        Ok(()) => Ok(password),
        Err(e) => Err(e),
    }
}

/// Stores a host IP in the environment file as an `API_URL=` line followed
/// by an `IP_ADDRESS=` line.
pub fn append_ip_lines(env: &mut EnvFile, ip: &str) -> (r: Result<(), EnvError>)
    ensures
        r is Ok <==> old(env).is_created(),
        r is Ok ==> final(env).is_created() && final(env).lines() == old(env).lines().push(
            api_url_line(ip@),
        ).push(ip_address_line(ip@)),
        r is Err ==> *final(env) == *old(env),
{
    let mut api_line: String = "API_URL=http://".to_owned();
    api_line.append(ip);
    api_line.append(":3001/api");
    let mut ip_line: String = "IP_ADDRESS=".to_owned();
    ip_line.append(ip);
    match env.append(api_line) {
        Ok(()) => env.append(ip_line),
        Err(e) => Err(e),
    }
}

/// Resolves the machine's local IP address and stores it in the environment
/// file: an `API_URL=` line and an `IP_ADDRESS=` line, in that order. The
/// returned string is the resolved IP itself.
pub fn get_ip_address(env: &mut EnvFile) -> (r: Result<String, InstallError>)
    ensures
        r matches Ok(ip) ==> old(env).is_created() && final(env).is_created()
            && final(env).lines() == old(env).lines().push(api_url_line(ip@)).push(
            ip_address_line(ip@),
        ),
        r is Err ==> *final(env) == *old(env),
        !old(env).is_created() ==> r is Err,
        r matches Err(e) ==> (if old(env).is_created() {
            e is LocalIp
        } else {
            e == InstallError::Env(EnvError::NotCreated)
        }),
{
    if !env.created() {
        return Err(InstallError::Env(EnvError::NotCreated));
    }
    match lookup_local_ip() {
        Ok(ip) => {
            match append_ip_lines(env, ip.as_str()) {
                Ok(()) => Ok(ip),
                Err(_) => {
                    proof {
                        assert(false);
                    }
                    vstd::pervasive::unreached()
                },
            }
        },
        Err(e) => Err(InstallError::LocalIp(e)),
    }
}

/// Generates a fresh random alphanumeric token of [`TOKEN_LENGTH`]
/// characters and stores it in the environment file as a `name=token` line.
pub fn create_random_token(env: &mut EnvFile, name: &str) -> (r: Result<String, EnvError>)
    ensures
        r is Ok <==> old(env).is_created(),
        r matches Ok(t) ==> is_token(t@) && final(env).is_created()
            && final(env).lines() == old(env).lines().push(token_line(name@, t@)),
        r is Err ==> *final(env) == *old(env),
{
    let token = sample_alphanumeric(TOKEN_LENGTH);
    let mut line: String = name.to_owned();
    line.append("=");
    line.append(token.as_str());
    match env.append(line) {
        Ok(()) => Ok(token),
        Err(e) => Err(e),
    }
}

/// What a completed install flow reports back: the chosen password, the
/// resolved IP, and the two generated tokens.
pub struct InstallOutcome {
    /// The database password that was stored.
    pub password: String,
    /// The resolved host IP.
    pub ip: String,
    /// The generated `ACCESS_TOKEN` value.
    pub access_token: String,
    /// The generated `REFRESH_TOKEN` value.
    pub refresh_token: String,
}

/// The exact lines a completed install flow leaves in the environment file.
pub open spec fn install_lines(
    password: Seq<char>,
    ip: Seq<char>,
    access_token: Seq<char>,
    refresh_token: Seq<char>,
) -> Seq<Seq<char>> {
    seq![
        db_password_line(password),
        api_url_line(ip),
        ip_address_line(ip),
        token_line("ACCESS_TOKEN"@, access_token),
        token_line("REFRESH_TOKEN"@, refresh_token),
    ]
}

/// Whether an install outcome and a final environment file state describe a
/// completed install flow for the given interactive input.
pub open spec fn install_post(o: InstallOutcome, env: EnvFile, input: Seq<char>) -> bool {
    &&& env.is_created()
    &&& o.password@ == spec_password(input)
    &&& is_token(o.access_token@)
    &&& is_token(o.refresh_token@)
    &&& env.lines() == install_lines(o.password@, o.ip@, o.access_token@, o.refresh_token@)
}

/// The install flow on a host IP that is already known: creates the
/// environment file empty, then appends the password line, the two IP lines
/// and the two token lines, in that order.
pub fn install_env_lines(env: &mut EnvFile, password_input: &str, ip: &str) -> (r: InstallOutcome)
    ensures
        install_post(r, *final(env), password_input@),
        r.ip@ == ip@,
{
    env.create();
    let password = match get_db_password(env, password_input) {
        Ok(p) => p,
        Err(_) => {
            proof {
                assert(false);
            }
            vstd::pervasive::unreached()
        },
    };
    match append_ip_lines(env, ip) {
        Ok(()) => (),
        Err(_) => {
            proof {
                assert(false);
            }
            vstd::pervasive::unreached()
        },
    };
    let access_token = match create_random_token(env, "ACCESS_TOKEN") {
        Ok(t) => t,
        Err(_) => {
            proof {
                assert(false);
            }
            vstd::pervasive::unreached()
        },
    };
    let refresh_token = match create_random_token(env, "REFRESH_TOKEN") {
        Ok(t) => t,
        Err(_) => {
            proof {
                assert(false);
            }
            vstd::pervasive::unreached()
        },
    };
    let ghost final_lines = env.lines();
    let outcome = InstallOutcome { password, ip: ip.to_owned(), access_token, refresh_token };
    proof {
        assert(final_lines =~= install_lines(
            outcome.password@,
            outcome.ip@,
            outcome.access_token@,
            outcome.refresh_token@,
        ));
    }
    outcome
}

/// The whole install flow as the install command runs it: creates the
/// environment file, stores the password chosen from the interactive input,
/// resolves the machine's IP and stores its two lines, and stores the two
/// generated tokens. Where IP resolution fails the flow aborts with the
/// environment file holding exactly the password line.
pub fn all(env: &mut EnvFile, password_input: &str) -> (r: Result<InstallOutcome, InstallError>)
    ensures
        r matches Ok(o) ==> install_post(o, *final(env), password_input@),
        r is Err ==> final(env).is_created() && final(env).lines() == seq![
            db_password_line(spec_password(password_input@)),
        ],
        r matches Err(e) ==> e is LocalIp,
{
    env.create();
    let password = match get_db_password(env, password_input) {
        Ok(p) => p,
        Err(_) => {
            proof {
                assert(false);
            }
            vstd::pervasive::unreached()
        },
    };
    proof {
        assert(env.lines() =~= seq![db_password_line(spec_password(password_input@))]);
    }
    let ip = match get_ip_address(env) {
        Ok(ip) => ip,
        Err(e) => {
            return Err(e);
        },
    };
    let access_token = match create_random_token(env, "ACCESS_TOKEN") {
        Ok(t) => t,
        Err(_) => {
            proof {
                assert(false);
            }
            vstd::pervasive::unreached()
        },
    };
    let refresh_token = match create_random_token(env, "REFRESH_TOKEN") {
        Ok(t) => t,
        Err(_) => {
            proof {
                assert(false);
            }
            vstd::pervasive::unreached()
        },
    };
    let outcome = InstallOutcome { password, ip, access_token, refresh_token };
    proof {
        assert(env.lines() =~= install_lines(
            outcome.password@,
            outcome.ip@,
            outcome.access_token@,
            outcome.refresh_token@,
        ));
    }
    Ok(outcome)
}

/// From the install flow's IP step on, the environment file holds exactly
/// one `IP_ADDRESS=` line and exactly one `API_URL=` line: right after that
/// step, and still after the token lines complete the flow, whatever
/// password, IP and tokens went in.
pub proof fn lemma_install_lines_single_ip(
    password: Seq<char>,
    ip: Seq<char>,
    access_token: Seq<char>,
    refresh_token: Seq<char>,
)
    ensures
        count_prefixed(install_lines(password, ip, access_token, refresh_token), "IP_ADDRESS="@)
            == 1,
        count_prefixed(install_lines(password, ip, access_token, refresh_token), "API_URL="@) == 1,
        count_prefixed(
            seq![db_password_line(password), api_url_line(ip), ip_address_line(ip)],
            "IP_ADDRESS="@,
        ) == 1,
        count_prefixed(
            seq![db_password_line(password), api_url_line(ip), ip_address_line(ip)],
            "API_URL="@,
        ) == 1,
{
    reveal_strlit("DATABASE_PASSWORD=");
    reveal_strlit("API_URL=http://");
    reveal_strlit("IP_ADDRESS=");
    reveal_strlit("ACCESS_TOKEN");
    reveal_strlit("REFRESH_TOKEN");
    reveal_strlit("=");
    reveal_strlit("API_URL=");
    let db = db_password_line(password);
    let api = api_url_line(ip);
    let ipl = ip_address_line(ip);
    let t1 = token_line("ACCESS_TOKEN"@, access_token);
    let t2 = token_line("REFRESH_TOKEN"@, refresh_token);
    let ipp = "IP_ADDRESS="@;
    let app = "API_URL="@;
    // which line starts with "IP_ADDRESS=": the third alone
    assert(!starts_with(db, ipp)) by {
        assert(db[0] == 'D');
        assert(ipp[0] == 'I');
    }
    assert(!starts_with(api, ipp)) by {
        assert(api[0] == 'A');
        assert(ipp[0] == 'I');
    }
    assert(starts_with(ipl, ipp)) by {
        assert forall|i: int| 0 <= i < ipp.len() implies ipl[i] == ipp[i] by {
            assert(ipl[i] == "IP_ADDRESS="@[i]);
        }
    }
    assert(!starts_with(t1, ipp)) by {
        assert(t1[0] == 'A');
        assert(ipp[0] == 'I');
    }
    assert(!starts_with(t2, ipp)) by {
        assert(t2[0] == 'R');
        assert(ipp[0] == 'I');
    }
    // which line starts with "API_URL=": the second alone
    assert(!starts_with(db, app)) by {
        assert(db[0] == 'D');
        assert(app[0] == 'A');
    }
    assert(starts_with(api, app)) by {
        assert forall|i: int| 0 <= i < app.len() implies api[i] == app[i] by {
            assert(api[i] == "API_URL=http://"@[i]);
            if i == 0 {
                assert("API_URL=http://"@[0] == app[0]);
            } else if i == 1 {
                assert("API_URL=http://"@[1] == app[1]);
            } else if i == 2 {
                assert("API_URL=http://"@[2] == app[2]);
            } else if i == 3 {
                assert("API_URL=http://"@[3] == app[3]);
            } else if i == 4 {
                assert("API_URL=http://"@[4] == app[4]);
            } else if i == 5 {
                assert("API_URL=http://"@[5] == app[5]);
            } else if i == 6 {
                assert("API_URL=http://"@[6] == app[6]);
            } else {
                assert("API_URL=http://"@[7] == app[7]);
            }
        }
    }
    assert(!starts_with(ipl, app)) by {
        assert(ipl[0] == 'I');
        assert(app[0] == 'A');
    }
    assert(!starts_with(t1, app)) by {
        assert(t1[1] == 'C');
        assert(app[1] == 'P');
    }
    assert(!starts_with(t2, app)) by {
        assert(t2[0] == 'R');
        assert(app[0] == 'A');
    }
    // count over the five lines, peeling one line at a time
    let s0 = install_lines(password, ip, access_token, refresh_token);
    let s1 = s0.drop_first();
    let s2 = s1.drop_first();
    let s3 = s2.drop_first();
    let s4 = s3.drop_first();
    let s5 = s4.drop_first();
    assert(s0[0] == db && s1[0] == api && s2[0] == ipl && s3[0] == t1 && s4[0] == t2);
    assert(s5.len() == 0);
    assert(count_prefixed(s5, ipp) == 0);
    assert(count_prefixed(s5, app) == 0);
    assert(count_prefixed(s4, ipp) == 0);
    assert(count_prefixed(s3, ipp) == 0);
    assert(count_prefixed(s2, ipp) == 1);
    assert(count_prefixed(s1, ipp) == 1);
    assert(count_prefixed(s0, ipp) == 1);
    assert(count_prefixed(s4, app) == 0);
    assert(count_prefixed(s3, app) == 0);
    assert(count_prefixed(s2, app) == 0);
    assert(count_prefixed(s1, app) == 1);
    assert(count_prefixed(s0, app) == 1);
    // the same three head lines stand alone right after the IP step
    let u0 = seq![db, api, ipl];
    let u1 = u0.drop_first();
    let u2 = u1.drop_first();
    let u3 = u2.drop_first();
    assert(u0[0] == db && u1[0] == api && u2[0] == ipl);
    assert(u3.len() == 0);
    assert(count_prefixed(u3, ipp) == 0);
    assert(count_prefixed(u2, ipp) == 1);
    assert(count_prefixed(u1, ipp) == 1);
    assert(count_prefixed(u0, ipp) == 1);
    assert(count_prefixed(u3, app) == 0);
    assert(count_prefixed(u2, app) == 0);
    assert(count_prefixed(u1, app) == 1);
    assert(count_prefixed(u0, app) == 1);
}

} // verus!
