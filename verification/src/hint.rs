use vstd::prelude::*;

use crate::config::Config;
use crate::error::{PolicyReason, SecurityError};
use crate::randomness::random_in_range_i32;
use crate::user::{opt_str_view, User};

verus! {

/// What `str::trim` leaves of a string; a function of the characters
/// alone.
pub uninterp spec fn trim_of(s: Seq<char>) -> Seq<char>;

/// Relies on str::trim: the string with leading and trailing whitespace
/// removed.
#[verifier::external_body]
fn trim(s: &str) -> (r: String)
    ensures
        r@ == trim_of(s@),
{
    s.trim().to_string()
}

/// A hint after cleaning: absent stays absent, whitespace is trimmed,
/// and a blank hint becomes absent.
pub open spec fn cleaned_hint(h: Option<Seq<char>>) -> Option<Seq<char>> {
    match h {
        None => None,
        Some(s) => if trim_of(s).len() == 0 {
            None
        } else {
            Some(trim_of(s))
        },
    }
}

/// Trims whitespace from password hints, and converts blank password
/// hints to `None`.
pub fn clean_password_hint(password_hint: &Option<String>) -> (r: Option<String>)
    ensures
        opt_str_view(r) == cleaned_hint(opt_str_view(*password_hint)),
{
    match password_hint {
        None => None,
        Some(h) => {
            let ht = trim(h.as_str());
            if ht.as_str().is_empty() {
                None
            } else {
                Some(ht)
            }
        },
    }
}

/// Refuse a (cleaned) hint when the administrator has disabled password
/// hints; a removed hint always passes.
pub fn enforce_password_hint_setting(password_hint: &Option<String>, config: &Config) -> (r:
    Result<(), SecurityError>)
    ensures
        r is Ok <==> !(password_hint is Some && !config.password_hints_allowed),
        r matches Err(e) ==> e == SecurityError::PolicyViolation(
            PolicyReason::PasswordHintsDisabled,
        ),
{
    if password_hint.is_some() && !config.password_hints_allowed {
        Err(SecurityError::PolicyViolation(PolicyReason::PasswordHintsDisabled))
    } else {
        Ok(())
    }
}

/// What the caller must do to answer a hint lookup without revealing
/// whether the account exists.
pub enum HintAction {
    /// The account exists and mail is on: deliver the hint (or its
    /// absence) to the address, answer success.
    SendHintMail { hint: Option<String> },
    /// The account does not exist and mail is on: wait the given
    /// milliseconds — masking that the delivery path is slower — then
    /// answer success, indistinguishable from delivery.
    DelayThenAccept { delay_ms: u64 },
    /// Mail is off and the administrator opted into revealing hints in
    /// error text: answer with the hint in the error.
    RevealInError { hint: String },
    /// Answer the generic no-hint error.
    NoHintError,
}

/// The masking delay for one lookup: the nominal delay plus the given
/// jitter.
pub fn hint_delay_ms(jitter: i32) -> (r: u64)
    requires
        -100 <= jitter <= 100,
    ensures
        r == 1000 + jitter,
{
    ((1000 + jitter) as u64)
}

fn clone_opt_string(x: &Option<String>) -> (r: Option<String>)
    ensures
        r == *x,
{
    match x {
        None => None,
        Some(s) => Some(s.clone()),
    }
}

/// Decide a password-hint lookup for the given (possibly absent) account.
/// When no delivery channel is configured the lookup is refused outright:
/// any distinguishable reply would leak existence.  When mail is on, a
/// nonexistent account gets a randomized delay and then the same success
/// as the delivery path.  Timing aside, the reply never depends on
/// whether the account exists unless the administrator opted into
/// revealing hints in error text.
pub fn password_hint_lookup(config: &Config, user: Option<&User>) -> (r: Result<
    HintAction,
    SecurityError,
>)
    ensures
        r is Err <==> (!config.password_hints_allowed || (!config.mail_enabled
            && !config.show_password_hint)),
        r matches Err(e) ==> e == SecurityError::PolicyViolation(
            PolicyReason::HintLookupNotConfigured,
        ),
        r is Ok && user is None && config.mail_enabled ==> (r matches Ok(
            HintAction::DelayThenAccept { delay_ms },
        ) && 900 <= delay_ms <= 1100),
        r is Ok && user is None && !config.mail_enabled ==> r == Ok::<HintAction, SecurityError>(
            HintAction::NoHintError,
        ),
        user matches Some(u) ==> ((r is Ok && config.mail_enabled) ==> r == Ok::<
            HintAction,
            SecurityError,
        >(HintAction::SendHintMail { hint: u.password_hint })),
        user matches Some(u) ==> ((r is Ok && !config.mail_enabled) ==> r == (
        match u.password_hint {
            Some(h) => Ok::<HintAction, SecurityError>(HintAction::RevealInError { hint: h }),
            None => Ok::<HintAction, SecurityError>(HintAction::NoHintError),
        })),
{
    if !config.password_hints_allowed || (!config.mail_enabled && !config.show_password_hint) {
        return Err(SecurityError::PolicyViolation(PolicyReason::HintLookupNotConfigured));
    }
    match user {
        None => {
            if config.mail_enabled {
                let jitter = random_in_range_i32(-100, 100);
                Ok(HintAction::DelayThenAccept { delay_ms: hint_delay_ms(jitter) })
            } else {
                Ok(HintAction::NoHintError)
            }
        },
        Some(u) => {
            if config.mail_enabled {
                Ok(HintAction::SendHintMail { hint: clone_opt_string(&u.password_hint) })
            } else {
                match &u.password_hint {
                    Some(h) => Ok(HintAction::RevealInError { hint: h.clone() }),
                    None => Ok(HintAction::NoHintError),
                }
            }
        },
    }
}

} // verus!
