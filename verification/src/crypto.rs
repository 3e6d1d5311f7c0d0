//! Credential hashing: salted Argon2id records, their verification, and
//! random one-time codes.

use vstd::prelude::*;
use argon2::password_hash::rand_core::OsRng;
use argon2::password_hash::{PasswordHash, PasswordHasher, PasswordVerifier, SaltString};
use argon2::{Algorithm, Argon2, ParamsBuilder, Version};
use crate::text::push_char;

verus! {

/// Why a credential operation failed.
#[derive(Clone, Copy, Debug, PartialEq, Eq, Structural)]
pub enum CryptoError {
    /// The hashing primitive refused its parameters or could not run.
    Hashing,
    /// A stored record is not a well-formed hash record.
    HashFormat,
}

/// Cost settings of the hashing function: memory in KiB, number of passes
/// and degree of parallelism.
#[derive(Clone, Copy, Debug, PartialEq, Eq, Structural)]
pub struct CostParams {
    pub m_cost: u32,
    pub t_cost: u32,
    pub p_cost: u32,
}

/// Largest degree of parallelism that Argon2 accepts.
pub const MAX_P_COST: u32 = 0xFF_FFFF;

impl CostParams {
    /// The ranges that Argon2 accepts: at least one pass, between 1 and
    /// 2^24 - 1 lanes, and at least 8 KiB of memory per lane.
    pub open spec fn acceptable(self) -> bool {
        &&& self.t_cost >= 1
        &&& 1 <= self.p_cost <= MAX_P_COST
        &&& self.m_cost >= 8 * self.p_cost
    }

    pub fn is_acceptable(&self) -> (ok: bool)
        ensures
            ok == self.acceptable(),
    {
        self.t_cost >= 1 && 1 <= self.p_cost && self.p_cost <= MAX_P_COST && self.m_cost
            >= 8 * self.p_cost
    }
}

/// The record that Argon2id, version 0x13, derives from a password, a salt
/// in B64 text and cost settings; `None` where it derives none.
pub uninterp spec fn argon2id_record(
    password: Seq<char>,
    salt: Seq<char>,
    m_cost: u32,
    t_cost: u32,
    p_cost: u32,
) -> Option<Seq<char>>;

/// What checking a password against a stored record yields: `None` where
/// the record cannot be parsed, otherwise whether the password matches it.
pub uninterp spec fn record_check(record: Seq<char>, password: Seq<char>) -> Option<bool>;

/// The settings that a stored record names, in the order in which it
/// names them: each by its name and, where its value is written as a
/// decimal number, that number. `None` where the record cannot be parsed.
pub uninterp spec fn settings_of_record(record: Seq<char>) -> Option<Seq<(Seq<char>, Option<u32>)>>;

/// One setting of a stored record: its name and, where the value is
/// written as a decimal number, that number.
pub struct Setting {
    pub name: String,
    pub value: Option<u32>,
}

/// Settings as plain values.
pub open spec fn settings_text(settings: Seq<Setting>) -> Seq<(Seq<char>, Option<u32>)> {
    Seq::new(settings.len(), |i: int| (settings[i].name@, settings[i].value))
}

/// Optional settings as plain values.
pub open spec fn opt_settings_text(settings: Option<Vec<Setting>>) -> Option<
    Seq<(Seq<char>, Option<u32>)>,
> {
    match settings {
        Some(v) => Some(settings_text(v@)),
        None => None,
    }
}

/// Whether a setting sets the number of lanes, `p`, above what Argon2
/// accepts.
pub open spec fn is_excess_lanes(setting: (Seq<char>, Option<u32>)) -> bool {
    &&& setting.0 == "p"@
    &&& setting.1 matches Some(lanes)
    &&& lanes > MAX_P_COST
}

/// Whether any of the settings sets the number of lanes above what Argon2
/// accepts. A record may name a setting more than once; each counts.
pub open spec fn names_excess_lanes(settings: Seq<(Seq<char>, Option<u32>)>) -> bool {
    exists|i: int| 0 <= i < settings.len() && is_excess_lanes(#[trigger] settings[i])
}

/// The settings of a record made with the given costs: memory, passes and
/// lanes, each once.
pub open spec fn settings_of_costs(cost: CostParams) -> Seq<(Seq<char>, Option<u32>)> {
    seq![("m"@, Some(cost.m_cost)), ("t"@, Some(cost.t_cost)), ("p"@, Some(cost.p_cost))]
}

/// A character of the unpadded standard B64 alphabet.
pub open spec fn is_b64_char(c: char) -> bool {
    ||| 'A' <= c <= 'Z'
    ||| 'a' <= c <= 'z'
    ||| '0' <= c <= '9'
    ||| c == '+'
    ||| c == '/'
}

/// Number of characters in a freshly generated salt: 16 bytes in B64.
pub const SALT_CHARS: usize = 22;

/// Text that a freshly generated salt can be.
pub open spec fn is_salt_text(s: Seq<char>) -> bool {
    &&& s.len() == SALT_CHARS
    &&& forall|i: int| 0 <= i < s.len() ==> is_b64_char(#[trigger] s[i])
}

/// `SaltString::generate` of password-hash on the operating system's
/// random source: sixteen random bytes in unpadded B64. Nothing is claimed
/// of which bytes.
#[verifier::external_body]
fn random_salt() -> (salt: String)
    ensures
        is_salt_text(salt@),
{
    SaltString::generate(&mut OsRng).to_string()
}

/// `PasswordHasher::hash_password` of argon2, on an Argon2id context of
/// version 0x13 built from the given costs and on the salt parsed from its
/// B64 text. The record is a function of the password, salt and costs, it
/// names the three costs it was made with and no other setting, and
/// checking the same password against it succeeds. The record holds its
/// salt as text, so no other salt gives the same record. Any refusal by
/// the outside crate gives `None`.
#[verifier::external_body]
fn argon2id_hash(password: &str, salt: &str, cost: CostParams) -> (r: Option<String>)
    requires
        cost.acceptable(),
    ensures
        crate::text::opt_text(r) == argon2id_record(
            password@,
            salt@,
            cost.m_cost,
            cost.t_cost,
            cost.p_cost,
        ),
        r matches Some(h) ==> record_check(h@, password@) == Some(true),
        r matches Some(h) ==> settings_of_record(h@) == Some(settings_of_costs(cost)),
        r matches Some(h) ==> forall|other: Seq<char>|
            other != salt@ ==> #[trigger] argon2id_record(
                password@,
                other,
                cost.m_cost,
                cost.t_cost,
                cost.p_cost,
            ) != Some(h@),
{
    let mut builder = ParamsBuilder::new();
    builder.m_cost(cost.m_cost).t_cost(cost.t_cost).p_cost(cost.p_cost);
    let params = builder.build().ok()?;
    let salt = SaltString::from_b64(salt).ok()?;
    let hasher = Argon2::new(Algorithm::Argon2id, Version::V0x13, params);
    let record = hasher.hash_password(password.as_bytes(), &salt).ok()?;
    Some(record.to_string())
}

/// `PasswordHash::new` of password-hash, `ParamsString::iter` over the
/// parameters of what it gives, and `Value::decimal` on each value: every
/// setting of the record in order, repeated names included, by name and
/// decimal value. `None` where the record does not parse.
#[verifier::external_body]
fn record_settings(record: &str) -> (settings: Option<Vec<Setting>>)
    ensures
        opt_settings_text(settings) == settings_of_record(record@),
{
    match PasswordHash::new(record) {
        Ok(parsed) => {
            let mut settings = Vec::new();
            for (name, value) in parsed.params.iter() {
                settings.push(Setting { name: name.as_str().to_string(), value: value.decimal().ok() });
            }
            Some(settings)
        },
        Err(_) => None,
    }
}

/// `PasswordHash::new` followed by `PasswordVerifier::verify_password` of
/// argon2: `None` where the record does not parse, otherwise whether
/// recomputing the hash with the record's own salt and costs gives the
/// record's digest. Whether the record parses does not depend on the
/// password: it parses exactly when its settings can be read. A record
/// that anywhere sets more lanes than Argon2 accepts is left out: the
/// outside crate takes the last setting of a name, and on such a number of
/// lanes its arithmetic can overflow.
#[verifier::external_body]
fn check_record(record: &str, password: &str) -> (r: Option<bool>)
    requires
        !too_many_lanes(record@),
    ensures
        r == record_check(record@, password@),
        r is Some <==> settings_of_record(record@) is Some,
{
    match PasswordHash::new(record) {
        Ok(parsed) => Some(Argon2::default().verify_password(password.as_bytes(), &parsed).is_ok()),
        Err(_) => None,
    }
}

/// The cost settings used for stored credentials: 2 GiB of memory, one
/// pass, one lane.
pub fn argon2_params() -> (cost: CostParams)
    ensures
        cost == (CostParams { m_cost: 2_097_152, t_cost: 1, p_cost: 1 }),
        cost.acceptable(),
{
    CostParams { m_cost: 2_097_152, t_cost: 1, p_cost: 1 }
}

/// Whether a record sets, in any of its settings, more lanes than Argon2
/// accepts.
pub open spec fn too_many_lanes(record: Seq<char>) -> bool {
    settings_of_record(record) matches Some(settings) && names_excess_lanes(settings)
}

/// A record made with acceptable costs sets no more lanes than Argon2
/// accepts.
pub proof fn lemma_costs_within_lanes(cost: CostParams)
    requires
        cost.acceptable(),
    ensures
        !names_excess_lanes(settings_of_costs(cost)),
{
    reveal_strlit("m");
    reveal_strlit("t");
    reveal_strlit("p");
    let settings = settings_of_costs(cost);
    assert forall|i: int| 0 <= i < settings.len() implies !is_excess_lanes(
        #[trigger] settings[i],
    ) by {
        if i == 0 {
            assert("m"@[0] != "p"@[0]);
        } else if i == 1 {
            assert("t"@[0] != "p"@[0]);
        }
    }
}

/// Decides [`names_excess_lanes`].
pub fn any_excess_lanes(settings: &Vec<Setting>) -> (excess: bool)
    ensures
        excess == names_excess_lanes(settings_text(settings@)),
{
    let mut i: usize = 0;
    while i < settings.len()
        invariant
            i <= settings@.len(),
            forall|j: int| 0 <= j < i ==> !is_excess_lanes(#[trigger] settings_text(settings@)[j]),
        decreases settings@.len() - i,
    {
        let named_lanes: bool = crate::text::same_text(settings[i].name.as_str(), "p");
        let above: bool = match settings[i].value {
            Some(lanes) => lanes > MAX_P_COST,
            None => false,
        };
        if named_lanes && above {
            assert(is_excess_lanes(settings_text(settings@)[i as int]));
            return true;
        }
        i = i + 1;
    }
    false
}

/// The outcome of validating `password` against a stored record: a record
/// whose settings cannot be read is an error, whatever the password; a
/// record that anywhere sets more lanes than Argon2 accepts matches no
/// password; any other record matches or does not.
pub open spec fn validation(record: Seq<char>, password: Seq<char>) -> Result<bool, CryptoError> {
    match settings_of_record(record) {
        None => Err(CryptoError::HashFormat),
        Some(settings) => if names_excess_lanes(settings) {
            Ok(false)
        } else {
            Ok(record_check(record, password) == Some(true))
        },
    }
}

/// A record that can be read never gives an error, whatever password is
/// held against it: a wrong password is a plain `false`.
pub proof fn lemma_readable_record_never_errs(record: Seq<char>, password: Seq<char>)
    requires
        settings_of_record(record) is Some,
    ensures
        validation(record, password) is Ok,
{
}

/// The outcome of hashing `password` with a given salt and costs.
pub open spec fn salted_hash(password: Seq<char>, salt: Seq<char>, cost: CostParams) -> Result<
    Seq<char>,
    CryptoError,
> {
    if !cost.acceptable() {
        Err(CryptoError::Hashing)
    } else {
        match argon2id_record(password, salt, cost.m_cost, cost.t_cost, cost.p_cost) {
            Some(h) => Ok(h),
            None => Err(CryptoError::Hashing),
        }
    }
}

/// Whether `record` is what hashing `password` gives under `salt` and
/// under no other salt.
pub open spec fn made_under(
    record: Seq<char>,
    password: Seq<char>,
    salt: Seq<char>,
    cost: CostParams,
) -> bool {
    &&& salted_hash(password, salt, cost) == Ok::<Seq<char>, CryptoError>(record)
    &&& forall|other: Seq<char>|
        other != salt ==> #[trigger] salted_hash(password, other, cost) != Ok::<
            Seq<char>,
            CryptoError,
        >(record)
}

/// What holds of the outcome of hashing `password` under `salt`: it is the
/// named outcome; a record is made under that salt alone, names the costs
/// it was made with, validates the password, and gives no error against
/// any other.
pub open spec fn hashed_under(
    outcome: Result<Seq<char>, CryptoError>,
    password: Seq<char>,
    salt: Seq<char>,
    cost: CostParams,
) -> bool {
    &&& outcome == salted_hash(password, salt, cost)
    &&& outcome matches Ok(record) ==> {
        &&& made_under(record, password, salt, cost)
        &&& settings_of_record(record) == Some(settings_of_costs(cost))
        &&& validation(record, password) == Ok::<bool, CryptoError>(true)
        &&& forall|other: Seq<char>| (#[trigger] validation(record, other)) is Ok
    }
}

/// The characters of a hashing outcome.
pub open spec fn hash_outcome_text(r: Result<String, CryptoError>) -> Result<
    Seq<char>,
    CryptoError,
> {
    match r {
        Ok(h) => Ok(h@),
        Err(e) => Err(e),
    }
}

/// Hashes `password` with the given salt and costs. Costs outside the
/// accepted ranges are refused before any work is done. A record made
/// under one salt is made under no other: two records of one password
/// differ whenever their salts do.
pub fn hash_password_salted(password: &str, salt: &str, cost: CostParams) -> (r: Result<
    String,
    CryptoError,
>)
    ensures
        hashed_under(hash_outcome_text(r), password@, salt@, cost),
{
    if !cost.is_acceptable() {
        return Err(CryptoError::Hashing);
    }
    proof {
        lemma_costs_within_lanes(cost);
    }
    match argon2id_hash(password, salt, cost) {
        Some(h) => {
            assert forall|other: Seq<char>| other != salt@ implies #[trigger] salted_hash(
                password@,
                other,
                cost,
            ) != Ok::<Seq<char>, CryptoError>(h@) by {
                assert(argon2id_record(password@, other, cost.m_cost, cost.t_cost, cost.p_cost)
                    != Some(h@));
            }
            Ok(h)
        },
        None => Err(CryptoError::Hashing),
    }
}

/// Hashes `password` under a fresh random salt with the given costs.
pub fn hash_password_with(password: &str, cost: CostParams) -> (r: Result<String, CryptoError>)
    ensures
        exists|salt: Seq<char>|
            is_salt_text(salt) && #[trigger] hashed_under(
                hash_outcome_text(r),
                password@,
                salt,
                cost,
            ),
        r matches Ok(h) ==> validation(h@, password@) == Ok::<bool, CryptoError>(true),
        r matches Ok(h) ==> settings_of_record(h@) == Some(settings_of_costs(cost)),
        r matches Err(e) ==> e == CryptoError::Hashing,
        !cost.acceptable() ==> r is Err,
{
    let salt = random_salt();
    hash_password_salted(password, salt.as_str(), cost)
}

/// Hashes `password` under a fresh random salt with the costs of
/// [`argon2_params`].
pub fn hash_password(password: &str) -> (r: Result<String, CryptoError>)
    ensures
        exists|salt: Seq<char>|
            is_salt_text(salt) && #[trigger] hashed_under(
                hash_outcome_text(r),
                password@,
                salt,
                CostParams { m_cost: 2_097_152, t_cost: 1, p_cost: 1 },
            ),
        r matches Ok(h) ==> validation(h@, password@) == Ok::<bool, CryptoError>(true),
        r matches Ok(h) ==> settings_of_record(h@) == Some(
            settings_of_costs(CostParams { m_cost: 2_097_152, t_cost: 1, p_cost: 1 }),
        ),
        r matches Err(e) ==> e == CryptoError::Hashing,
{
    hash_password_with(password, argon2_params())
}

/// Checks `password` against a stored record. A wrong password is
/// `Ok(false)`; only a record that cannot be parsed is an error, and
/// whether it can does not depend on the password.
pub fn validate_hash(hash: &str, password: &str) -> (r: Result<bool, CryptoError>)
    ensures
        r == validation(hash@, password@),
        r is Err <==> settings_of_record(hash@) is None,
{
    match record_settings(hash) {
        Some(settings) => {
            if any_excess_lanes(&settings) {
                return Ok(false);
            }
        },
        None => {},
    }
    match check_record(hash, password) {
        Some(matches) => Ok(matches),
        None => Err(CryptoError::HashFormat),
    }
}

/// The character that stands for `c` in a one-time code: `+` and `/`
/// become `-`, every other character stays.
pub open spec fn url_safe_char(c: char) -> char {
    if c == '+' || c == '/' {
        '-'
    } else {
        c
    }
}

/// `s` with every `+` and `/` replaced by `-`.
pub open spec fn url_safe_text(s: Seq<char>) -> Seq<char> {
    Seq::new(s.len(), |i: int| url_safe_char(s[i]))
}

/// A character that may occur in a one-time code.
pub open spec fn is_token_char(c: char) -> bool {
    ||| 'A' <= c <= 'Z'
    ||| 'a' <= c <= 'z'
    ||| '0' <= c <= '9'
    ||| c == '-'
}

/// Text that a freshly generated one-time code can be.
pub open spec fn is_token_text(s: Seq<char>) -> bool {
    &&& s.len() == SALT_CHARS
    &&& forall|i: int| 0 <= i < s.len() ==> is_token_char(#[trigger] s[i])
}

/// Replaces every `+` and `/` of `s` by `-`.
pub fn url_safe(s: &str) -> (r: String)
    ensures
        r@ == url_safe_text(s@),
{
    let n: usize = s.unicode_len();
    let mut out: String = String::new();
    let mut i: usize = 0;
    while i < n
        invariant
            n == s@.len(),
            i <= n,
            out@ == url_safe_text(s@.subrange(0, i as int)),
        decreases n - i,
    {
        let c: char = s.get_char(i);
        let mapped: char = if c == '+' || c == '/' {
            '-'
        } else {
            c
        };
        push_char(&mut out, mapped);
        assert(out@ =~= url_safe_text(s@.subrange(0, i + 1)));
        i = i + 1;
    }
    assert(s@.subrange(0, n as int) =~= s@);
    out
}

/// A salt made URL-safe is a well-formed one-time code.
pub proof fn lemma_url_safe_salt_is_token(salt: Seq<char>)
    requires
        is_salt_text(salt),
    ensures
        is_token_text(url_safe_text(salt)),
{
}

/// Generates a random one-time code: a fresh salt with its URL-unsafe
/// characters replaced.
pub fn gen_otp() -> (otp: String)
    ensures
        is_token_text(otp@),
        exists|salt: Seq<char>| is_salt_text(salt) && otp@ == #[trigger] url_safe_text(salt),
{
    let salt = random_salt();
    proof {
        lemma_url_safe_salt_is_token(salt@);
    }
    url_safe(salt.as_str())
}

} // verus!
