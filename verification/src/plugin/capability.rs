//! The capability surface: the only host functions a plugin script can reach,
//! and the policy each of them applies before anything leaves the sandbox.

use crate::text::{chars_of, starts_with};
use vstd::prelude::*;

verus! {

/// The scheme prefix of a plain web address.
pub open spec fn http_prefix() -> Seq<char> {
    seq!['h', 't', 't', 'p', ':', '/', '/']
}

/// The scheme prefix of a secure web address.
pub open spec fn https_prefix() -> Seq<char> {
    seq!['h', 't', 't', 'p', 's', ':', '/', '/']
}

/// The URL policy: a script may ask to open `url` only if it begins with
/// `http://` or `https://`, compared literally and case-sensitively.
pub open spec fn url_allowed(url: Seq<char>) -> bool {
    http_prefix().is_prefix_of(url) || https_prefix().is_prefix_of(url)
}

/// Applies the URL policy to `url`.
pub fn is_allowed_url(url: &str) -> (allowed: bool)
    ensures
        allowed == url_allowed(url@),
{
    let text = chars_of(url);
    let http = chars_of("http://");
    let https = chars_of("https://");
    proof {
        reveal_strlit("http://");
        reveal_strlit("https://");
        assert(http@ =~= http_prefix());
        assert(https@ =~= https_prefix());
    }
    starts_with(&text, &https) || starts_with(&text, &http)
}

/// A URL that has passed the policy. A value of this type can only be made
/// by [`ApprovedUrl::check`], so holding one is proof that the policy ran.
#[derive(Debug)]
pub struct ApprovedUrl {
    text: String,
}

impl View for ApprovedUrl {
    type V = Seq<char>;

    closed spec fn view(&self) -> Seq<char> {
        self.text@
    }
}

impl ApprovedUrl {
    #[verifier::type_invariant]
    spec fn passes_policy(self) -> bool {
        url_allowed(self.text@)
    }

    /// Accepts `url` if the policy allows it and hands it back otherwise.
    pub fn check(url: String) -> (checked: Result<ApprovedUrl, String>)
        ensures
            checked is Ok <==> url_allowed(url@),
            checked matches Ok(approved) ==> approved@ == url@,
            checked matches Err(refused) ==> refused@ == url@,
    {
        if is_allowed_url(url.as_str()) {
            Ok(ApprovedUrl { text: url })
        } else {
            Err(url)
        }
    }

    /// The approved address.
    pub fn as_str(&self) -> (text: &str)
        ensures
            text@ == self@,
            url_allowed(text@),
    {
        proof {
            use_type_invariant(self);
        }
        self.text.as_str()
    }
}

/// The functions installed into a script's global scope.
#[derive(Clone, Copy, PartialEq, Eq, Structural, Debug)]
pub enum Capability {
    /// `log(message)`: a diagnostic line for the host.
    Log,
    /// `openUrl(url)`: a request to open an address in the system browser.
    OpenUrl,
}

/// What the host is asked to do on behalf of a script. The host carries
/// these out on its own schedule; the script never waits for them.
#[derive(Debug)]
pub enum HostEffect {
    /// Write a diagnostic line.
    Log(String),
    /// Open an address that passed the policy.
    OpenUrl(ApprovedUrl),
    /// Record that the script asked for an address the policy refuses.
    RejectedUrl(String),
}

/// The mathematical content of a [`HostEffect`].
pub enum EffectView {
    Log(Seq<char>),
    OpenUrl(Seq<char>),
    RejectedUrl(Seq<char>),
}

impl View for HostEffect {
    type V = EffectView;

    open spec fn view(&self) -> EffectView {
        match self {
            HostEffect::Log(message) => EffectView::Log(message@),
            HostEffect::OpenUrl(url) => EffectView::OpenUrl(url@),
            HostEffect::RejectedUrl(url) => EffectView::RejectedUrl(url@),
        }
    }
}

/// The effect that a call of `capability` with `argument` asks for.
pub open spec fn response(capability: Capability, argument: Seq<char>) -> EffectView {
    match capability {
        Capability::Log => EffectView::Log(argument),
        Capability::OpenUrl => if url_allowed(argument) {
            EffectView::OpenUrl(argument)
        } else {
            EffectView::RejectedUrl(argument)
        },
    }
}

/// The global name under which `capability` is installed.
pub open spec fn global_name(capability: Capability) -> Seq<char> {
    match capability {
        Capability::Log => seq!['l', 'o', 'g'],
        Capability::OpenUrl => seq!['o', 'p', 'e', 'n', 'U', 'r', 'l'],
    }
}

impl Capability {
    /// The global name under which this capability is installed.
    pub fn name(self) -> (name: &'static str)
        ensures
            name@ == global_name(self),
    {
        proof {
            reveal_strlit("log");
            reveal_strlit("openUrl");
        }
        match self {
            Capability::Log => {
                assert("log"@ =~= global_name(Capability::Log));
                "log"
            },
            Capability::OpenUrl => {
                assert("openUrl"@ =~= global_name(Capability::OpenUrl));
                "openUrl"
            },
        }
    }
}

/// Decides what a script's call of `capability` with `argument` asks of the
/// host. The policy is applied here, on the host side of the boundary.
pub fn respond(capability: Capability, argument: String) -> (effect: HostEffect)
    ensures
        effect@ == response(capability, argument@),
{
    match capability {
        Capability::Log => HostEffect::Log(argument),
        Capability::OpenUrl => match ApprovedUrl::check(argument) {
            Ok(url) => HostEffect::OpenUrl(url),
            Err(refused) => HostEffect::RejectedUrl(refused),
        },
    }
}

/// Hands the host the effect of one capability call. The call returns as
/// soon as the host has taken note of the effect.
pub fn dispatch<H: Fn(HostEffect)>(capability: Capability, argument: String, host: &H)
    requires
        forall|effect: HostEffect| host.requires((effect,)),
    ensures
        exists|effect: HostEffect|
            effect@ == response(capability, argument@) && host.ensures((effect,), ()),
{
    let effect = respond(capability, argument);
    host(effect)
}

/// An address is opened only if it passes the policy: the response to
/// `openUrl` is an open request exactly for allowed addresses, and a
/// rejection record for every other one.
pub proof fn open_requires_allowed_scheme(url: Seq<char>)
    ensures
        response(Capability::OpenUrl, url) is OpenUrl <==> url_allowed(url),
        !url_allowed(url) ==> response(Capability::OpenUrl, url) == EffectView::RejectedUrl(url),
        url_allowed(url) ==> response(Capability::OpenUrl, url) == EffectView::OpenUrl(url),
{
}

} // verus!
