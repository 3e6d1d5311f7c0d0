//! Inviting a user: the new record, its one-time code and the link that
//! the activation mail carries.

use vstd::prelude::*;
use url::Url;
use crate::crypto::is_token_text;
use crate::ids::{id_text, text_of_id};
use crate::text::opt_text;
use crate::time::Timestamp;
use crate::users::{invited, AuthError, User};

verus! {

/// A request to invite a user.
pub struct CreateUserRequest {
    pub email: String,
}

/// The URL that results from resolving `reference` against the URL `base`,
/// if `base` is a URL and the reference resolves.
pub uninterp spec fn joined_url(base: Seq<char>, reference: Seq<char>) -> Option<Seq<char>>;

/// `Url::parse` of url on the base and `Url::join` on what it gives: the
/// text of the resolved URL, `None` where either refuses.
#[verifier::external_body]
fn join_url(base: &str, reference: &str) -> (r: Option<String>)
    ensures
        opt_text(r) == joined_url(base@, reference@),
{
    match Url::parse(base) {
        Ok(url) => match url.join(reference) {
            Ok(joined) => Some(joined.to_string()),
            Err(_) => None,
        },
        Err(_) => None,
    }
}

/// The route under which the site shows its activation page.
pub open spec fn activation_route() -> Seq<char> {
    "/#!/activateAccount/"@
}

/// The reference of an activation link: the activation route, then the
/// user's identifier, a slash, and the one-time code.
pub open spec fn activation_reference(id: u128, code: Seq<char>) -> Seq<char> {
    activation_route() + text_of_id(id) + "/"@ + code
}

/// The activation link for user `id` with pending code `otp` under the
/// site at `base`: the activation reference resolved against the site's
/// address. Without a pending code there is no link.
pub open spec fn activation_link(base: Seq<char>, id: u128, otp: Option<Seq<char>>) -> Option<
    Seq<char>,
> {
    match otp {
        Some(code) => joined_url(base, activation_reference(id, code)),
        None => None,
    }
}

/// Writes the reference of the activation link for user `id` with code
/// `code`.
pub fn activation_reference_text(id: u128, code: &str) -> (reference: String)
    ensures
        reference@ == activation_reference(id, code@),
{
    let mut reference = String::new();
    let id_part = id_text(id);
    reference.append("/#!/activateAccount/");
    reference.append(id_part.as_str());
    reference.append("/");
    reference.append(code);
    assert(reference@ =~= activation_route() + id_part@ + "/"@ + code@);
    reference
}

/// The activation link of `user` under the site at `base_url`: it leads to
/// the activation route and carries the user's identifier and pending
/// code. `None` where no code is pending or the address cannot be read.
pub fn activation_url(base_url: &str, user: &User) -> (link: Option<String>)
    ensures
        opt_text(link) == activation_link(base_url@, user.id, user@.otp),
{
    match &user.otp {
        Some(code) => {
            let reference = activation_reference_text(user.id, code.as_str());
            join_url(base_url, reference.as_str())
        },
        None => None,
    }
}

/// What an invitation produces: the record to store, the one-time code,
/// and the activation link if the site's address could be read.
pub struct Invitation {
    pub user: User,
    pub otp: String,
    pub activation_url: Option<String>,
}

/// Invites the user named in `request` at `now`, unless a lookup of the
/// address found one (`existing`). A site address that cannot be read
/// costs the link, not the invitation.
pub fn invite(request: &CreateUserRequest, existing: Option<&User>, base_url: &str, now: Timestamp) -> (r:
    Result<Invitation, AuthError>)
    ensures
        existing is Some <==> r is Err,
        r matches Err(e) ==> e == AuthError::DuplicateEmail,
        r matches Ok(invitation) ==> {
            &&& invitation.user@ == invited(invitation.user.id, request.email@, now).with_otp(
                invitation.otp@,
                now,
            )
            &&& is_token_text(invitation.otp@)
            &&& opt_text(invitation.activation_url) == activation_link(
                base_url@,
                invitation.user.id,
                Some(invitation.otp@),
            )
        },
{
    match User::create(existing, request.email.as_str(), now) {
        Ok((user, otp)) => {
            let activation_url = activation_url(base_url, &user);
            Ok(Invitation { user, otp, activation_url })
        },
        Err(e) => Err(e),
    }
}

} // verus!
