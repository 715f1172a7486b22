//! The tunnel library's share links and relay addresses, as the window
//! reads them from text.
use vstd::prelude::*;

verus! {

#[verifier::external_type_specification]
#[verifier::external_body]
pub struct ExJoinUri(sculk::tunnel::JoinUri);

#[verifier::external_type_specification]
#[verifier::external_body]
pub struct ExRelayUrl(sculk::RelayUrl);

/// What `JoinUri::from_str` makes of a text: the share link it reads, or
/// the text of its error.
pub uninterp spec fn join_uri_from_text(text: Seq<char>) -> Result<sculk::tunnel::JoinUri, Seq<char>>;

/// `JoinUri::from_str`: reads a `sculk://join/v1/` share link.  The link it
/// reads, or the text of its error, depends on the text alone.
#[verifier::external_body]
pub(crate) fn parse_join_uri(text: &str) -> (r: Result<sculk::tunnel::JoinUri, String>)
    ensures
        match r {
            Ok(uri) => join_uri_from_text(text@) == Ok::<sculk::tunnel::JoinUri, Seq<char>>(uri),
            Err(m) => join_uri_from_text(text@) == Err::<sculk::tunnel::JoinUri, Seq<char>>(m@),
        },
{
    match text.parse::<sculk::tunnel::JoinUri>() {
        Ok(uri) => Ok(uri),
        Err(error) => Err(error.to_string()),
    }
}

pub open spec fn text_of(s: Option<String>) -> Option<Seq<char>> {
    match s {
        Some(t) => Some(t@),
        None => None,
    }
}

/// What `Profile::resolve_relay_url(None)` makes of a profile's relay
/// settings: the relay address it resolves them to, or the text of its
/// error.
pub uninterp spec fn relay_url_resolution(custom: bool, url: Option<Seq<char>>) -> Result<
    Option<sculk::RelayUrl>,
    Seq<char>,
>;

/// `Profile::resolve_relay_url(None)` on a profile with the given relay
/// settings: no relay address unless a custom relay is chosen and has an
/// address, else that address read as a relay URL.  The relay address, or
/// the text of the error, depends on the settings alone.
#[verifier::external_body]
pub(crate) fn resolve_relay_url(custom: bool, url: Option<String>) -> (r: Result<
    Option<sculk::RelayUrl>,
    String,
>)
    ensures
        match r {
            Ok(u) => relay_url_resolution(custom, text_of(url)) == Ok::<
                Option<sculk::RelayUrl>,
                Seq<char>,
            >(u),
            Err(m) => relay_url_resolution(custom, text_of(url)) == Err::<
                Option<sculk::RelayUrl>,
                Seq<char>,
            >(m@),
        },
        !custom || url is None ==> r matches Ok(None),
        custom && url is Some ==> (r is Ok ==> r->Ok_0 is Some),
{
    let profile = sculk::persist::Profile {
        relay: sculk::persist::RelayProfile { custom, url },
        ..sculk::persist::Profile::default()
    };
    match profile.resolve_relay_url(None) {
        Ok(url) => Ok(url),
        Err(error) => Err(error.to_string()),
    }
}

} // verus!
