use vstd::prelude::*;

use crate::text::{starts_with, str_equal};
use crate::url_parts::{decode_form_pairs, parse_url, UrlParts, form_pairs, pairs_view, parsed_url};

verus! {

/// Address of WhatsApp Web, loaded in the main window.
pub const WHATSAPP_WEB_URL: &'static str = "https://web.whatsapp.com";

/// Address of WhatsApp Business on the web.
pub const WHATSAPP_BUSINESS_WEB_URL: &'static str = "https://business.web.whatsapp.com";

/// Scheme of the requests that the page script sends to open a link outside.
pub const EXTERNAL_OPEN_SCHEME: &'static str = "wpp-external";

/// Query key that carries the link of such a request.
pub const EXTERNAL_OPEN_TARGET_KEY: &'static str = "target";

/// Whether `url` is an address of WhatsApp Web or of WhatsApp Business.
pub open spec fn internal_prefixes_hold(url: Seq<char>) -> bool {
    ||| WHATSAPP_WEB_URL@.is_prefix_of(url)
    ||| WHATSAPP_BUSINESS_WEB_URL@.is_prefix_of(url)
}

/// The schemes that the system browser (or mail or phone handler) takes.
pub open spec fn has_external_scheme(url: Seq<char>) -> bool {
    ||| "http://"@.is_prefix_of(url)
    ||| "https://"@.is_prefix_of(url)
    ||| "mailto:"@.is_prefix_of(url)
    ||| "tel:"@.is_prefix_of(url)
}

/// A link goes to the system browser when it is not WhatsApp itself and has
/// one of the external schemes.
pub open spec fn spec_should_open_in_browser(url: Seq<char>) -> bool {
    !internal_prefixes_hold(url) && has_external_scheme(url)
}

/// The value of the first pair whose name is `key`.
pub open spec fn first_value_for(pairs: Seq<(Seq<char>, Seq<char>)>, key: Seq<char>) -> Option<
    Seq<char>,
>
    decreases pairs.len(),
{
    if pairs.len() == 0 {
        None
    } else if pairs[0].0 == key {
        Some(pairs[0].1)
    } else {
        first_value_for(pairs.drop_first(), key)
    }
}

/// The decoded pairs of a URL's query; a URL without a query has the pairs of
/// the empty query.
pub open spec fn query_pairs_of(query: Option<Seq<char>>) -> Seq<(Seq<char>, Seq<char>)> {
    form_pairs(
        match query {
            Some(q) => q,
            None => Seq::empty(),
        },
    )
}

/// The link that an external-open request carries, given what the URL parser
/// made of the request: `None` unless it parsed with the external-open scheme
/// and has a `target` pair in its query.
pub open spec fn spec_external_target(parsed: Option<(Seq<char>, Option<Seq<char>>)>) -> Option<
    Seq<char>,
> {
    match parsed {
        None => None,
        Some((scheme, query)) => if scheme == EXTERNAL_OPEN_SCHEME@ {
            first_value_for(query_pairs_of(query), EXTERNAL_OPEN_TARGET_KEY@)
        } else {
            None
        },
    }
}

/// What the app does with a link that the webview is about to follow.
#[derive(Debug, Clone, PartialEq, Eq)]
pub enum LinkAction {
    /// The webview follows the link.
    StayInApp,
    /// The page asked, through an external-open request, to open this link
    /// outside; the webview does not follow the request.
    OpenRequestedTarget(String),
    /// The link itself is opened outside; the webview does not follow it.
    OpenExternalUrl(String),
}

impl LinkAction {
    /// Whether the webview is let to follow the link.
    pub fn allows_navigation(&self) -> (r: bool)
        ensures
            r == (*self is StayInApp),
    {
        match self {
            LinkAction::StayInApp => true,
            _ => false,
        }
    }
}

/// What navigation to `url` leads to, given the external-open target it carries.
pub open spec fn spec_navigation_action(url: Seq<char>, target: Option<Seq<char>>) -> LinkActionKind {
    match target {
        Some(t) => LinkActionKind::OpenRequestedTarget(t),
        None => if spec_should_open_in_browser(url) {
            LinkActionKind::OpenExternalUrl(url)
        } else {
            LinkActionKind::StayInApp
        },
    }
}

/// A `LinkAction` as plain values.
pub ghost enum LinkActionKind {
    StayInApp,
    OpenRequestedTarget(Seq<char>),
    OpenExternalUrl(Seq<char>),
}

impl View for LinkAction {
    type V = LinkActionKind;

    open spec fn view(&self) -> LinkActionKind {
        match self {
            LinkAction::StayInApp => LinkActionKind::StayInApp,
            LinkAction::OpenRequestedTarget(t) => LinkActionKind::OpenRequestedTarget(t@),
            LinkAction::OpenExternalUrl(u) => LinkActionKind::OpenExternalUrl(u@),
        }
    }
}

/// Whether `url` is WhatsApp Web or WhatsApp Business on the web.
pub fn is_internal_whatsapp_url(url: &str) -> (r: bool)
    ensures
        r == internal_prefixes_hold(url@),
{
    starts_with(url, WHATSAPP_WEB_URL) || starts_with(url, WHATSAPP_BUSINESS_WEB_URL)
}

/// Whether a link belongs in the system browser rather than in the app.
pub fn should_open_in_browser(url: &str) -> (r: bool)
    ensures
        r == spec_should_open_in_browser(url@),
{
    if is_internal_whatsapp_url(url) {
        return false;
    }
    starts_with(url, "http://") || starts_with(url, "https://") || starts_with(url, "mailto:")
        || starts_with(url, "tel:")
}

/// The value of the first pair named `key`, in order.
pub fn find_pair_value(pairs: &Vec<(String, String)>, key: &str) -> (r: Option<String>)
    ensures
        match r {
            Some(v) => first_value_for(pairs_view(pairs@), key@) == Some(v@),
            None => first_value_for(pairs_view(pairs@), key@) is None,
        },
{
    let mut i: usize = 0;
    assert(pairs_view(pairs@).skip(0) =~= pairs_view(pairs@));
    while i < pairs.len()
        invariant
            i <= pairs@.len(),
            first_value_for(pairs_view(pairs@), key@) == first_value_for(
                pairs_view(pairs@).skip(i as int),
                key@,
            ),
        decreases pairs@.len() - i,
    {
        let ghost rest = pairs_view(pairs@).skip(i as int);
        assert(rest[0] == (pairs@[i as int].0@, pairs@[i as int].1@));
        if str_equal(pairs[i].0.as_str(), key) {
            return Some(pairs[i].1.clone());
        }
        assert(rest.drop_first() =~= pairs_view(pairs@).skip(i + 1));
        i = i + 1;
    }
    assert(pairs_view(pairs@).skip(i as int).len() == 0);
    None
}

/// The link that an external-open request carries, from the parts of the
/// parsed request: `None` unless its scheme is the external-open scheme and
/// its query has a `target` pair, whose decoded value is returned.
pub fn external_open_target(parts: &UrlParts) -> (r: Option<String>)
    ensures
        match r {
            Some(t) => spec_external_target(Some(parts@)) == Some(t@),
            None => spec_external_target(Some(parts@)) is None,
        },
{
    if !str_equal(parts.scheme.as_str(), EXTERNAL_OPEN_SCHEME) {
        return None;
    }
    let ghost query: Seq<char> = match parts@.1 {
        Some(q) => q,
        None => Seq::empty(),
    };
    let pairs = match &parts.query {
        Some(q) => decode_form_pairs(q.as_str()),
        None => {
            let empty = "";
            proof {
                reveal_strlit("");
                assert(empty@ =~= Seq::<char>::empty());
            }
            decode_form_pairs(empty)
        },
    };
    assert(pairs_view(pairs@) == form_pairs(query));
    find_pair_value(&pairs, EXTERNAL_OPEN_TARGET_KEY)
}

/// The link that `url` asks to open outside, if `url` is an external-open
/// request (`wpp-external://open?target=...`).
pub fn extract_external_open_target(url: &str) -> (r: Option<String>)
    ensures
        match r {
            Some(t) => spec_external_target(parsed_url(url@)) == Some(t@),
            None => spec_external_target(parsed_url(url@)) is None,
        },
{
    match parse_url(url) {
        Some(parts) => external_open_target(&parts),
        None => None,
    }
}

/// What to do when the webview is about to navigate to `url`: an
/// external-open request opens its target outside; an external link opens
/// outside; anything else is followed in the webview.
pub fn navigation_action(url: &str) -> (r: LinkAction)
    ensures
        r@ == spec_navigation_action(url@, spec_external_target(parsed_url(url@))),
{
    match extract_external_open_target(url) {
        Some(target) => LinkAction::OpenRequestedTarget(target),
        None => {
            if should_open_in_browser(url) {
                LinkAction::OpenExternalUrl(url.to_string())
            } else {
                LinkAction::StayInApp
            }
        },
    }
}

/// What a request for a new window on `url` leads to.
pub open spec fn spec_new_window_action(url: Seq<char>) -> LinkActionKind {
    if spec_should_open_in_browser(url) {
        LinkActionKind::OpenExternalUrl(url)
    } else {
        LinkActionKind::StayInApp
    }
}

/// What to do when the page asks for a new window on `url`: an external link
/// opens outside, anything else is let through.
pub fn new_window_action(url: &str) -> (r: LinkAction)
    ensures
        r@ == spec_new_window_action(url@),
{
    if should_open_in_browser(url) {
        LinkAction::OpenExternalUrl(url.to_string())
    } else {
        LinkAction::StayInApp
    }
}

/// A link that is not an external-open request is handled alike whether the
/// webview navigates to it or the page opens it in a new window.
pub proof fn lemma_navigation_matches_new_window(url: Seq<char>)
    requires
        spec_external_target(parsed_url(url)) is None,
    ensures
        spec_navigation_action(url, spec_external_target(parsed_url(url))) == spec_new_window_action(url),
{
}

/// WhatsApp's own pages are never sent to the browser: a new window on them is
/// let through, and navigation to them stays in the webview unless the
/// address is itself an external-open request.
pub proof fn lemma_internal_links_stay(url: Seq<char>)
    requires
        internal_prefixes_hold(url),
    ensures
        spec_new_window_action(url) == LinkActionKind::StayInApp,
        spec_external_target(parsed_url(url)) is None ==> spec_navigation_action(
            url,
            spec_external_target(parsed_url(url)),
        ) == LinkActionKind::StayInApp,
{
}

/// Whatever the app opens in the browser on its own account is a link with an
/// http, https, mailto or tel scheme that is not WhatsApp's, handed over as is.
pub proof fn lemma_opened_links_are_external(url: Seq<char>)
    ensures
        spec_new_window_action(url) != LinkActionKind::StayInApp ==> spec_new_window_action(url)
            == LinkActionKind::OpenExternalUrl(url) && has_external_scheme(url)
            && !internal_prefixes_hold(url),
{
}

/// An external-open request is never followed in the webview, and the link
/// opened for it is the one it carries.
pub proof fn lemma_open_requests_leave_webview(url: Seq<char>, target: Seq<char>)
    requires
        spec_external_target(parsed_url(url)) == Some(target),
    ensures
        spec_navigation_action(url, spec_external_target(parsed_url(url)))
            == LinkActionKind::OpenRequestedTarget(target),
{
}

/// A link is WhatsApp's own exactly when it starts with the address of
/// WhatsApp Web or of WhatsApp Business.
pub proof fn lemma_internal_links_exactly(url: Seq<char>)
    ensures
        internal_prefixes_hold(url) <==> ("https://web.whatsapp.com"@.is_prefix_of(url)
            || "https://business.web.whatsapp.com"@.is_prefix_of(url)),
{
}

/// Every http, https, mailto or tel link that is not WhatsApp Web or WhatsApp
/// Business goes to the browser; every other link does not.
pub proof fn lemma_browser_links_exactly(url: Seq<char>)
    ensures
        spec_should_open_in_browser(url) <==> ((("http://"@.is_prefix_of(url)
            || "https://"@.is_prefix_of(url) || "mailto:"@.is_prefix_of(url)
            || "tel:"@.is_prefix_of(url)) && !"https://web.whatsapp.com"@.is_prefix_of(url)
            && !"https://business.web.whatsapp.com"@.is_prefix_of(url))),
{
}

/// A new window on an external link (http, https, mailto or tel, and not
/// WhatsApp's) is denied and the link itself is opened in the browser, and so
/// is navigation to such a link when it carries no external-open target; any
/// other link is let through in both cases.
pub proof fn lemma_external_links_open_outside(url: Seq<char>)
    ensures
        ((("http://"@.is_prefix_of(url) || "https://"@.is_prefix_of(url)
            || "mailto:"@.is_prefix_of(url) || "tel:"@.is_prefix_of(url))
            && !"https://web.whatsapp.com"@.is_prefix_of(url)
            && !"https://business.web.whatsapp.com"@.is_prefix_of(url)) ==> {
            &&& spec_new_window_action(url) == LinkActionKind::OpenExternalUrl(url)
            &&& spec_external_target(parsed_url(url)) is None ==> spec_navigation_action(
                url,
                spec_external_target(parsed_url(url)),
            ) == LinkActionKind::OpenExternalUrl(url)
        }),
        (!(("http://"@.is_prefix_of(url) || "https://"@.is_prefix_of(url)
            || "mailto:"@.is_prefix_of(url) || "tel:"@.is_prefix_of(url))
            && !"https://web.whatsapp.com"@.is_prefix_of(url)
            && !"https://business.web.whatsapp.com"@.is_prefix_of(url))) ==> {
            &&& spec_new_window_action(url) == LinkActionKind::StayInApp
            &&& spec_external_target(parsed_url(url)) is None ==> spec_navigation_action(
                url,
                spec_external_target(parsed_url(url)),
            ) == LinkActionKind::StayInApp
        },
{
    lemma_browser_links_exactly(url);
}

/// The value found for `key` is that of the first pair named `key`, whatever
/// it is, and there is none when no pair has that name.
pub proof fn lemma_first_value_is_first_match(pairs: Seq<(Seq<char>, Seq<char>)>, key: Seq<char>)
    ensures
        forall|i: int|
            0 <= i < pairs.len() && pairs[i].0 == key && (forall|j: int|
                0 <= j < i ==> pairs[j].0 != key) ==> first_value_for(pairs, key) == Some(
                pairs[i].1,
            ),
        (forall|j: int| 0 <= j < pairs.len() ==> pairs[j].0 != key) ==> first_value_for(
            pairs,
            key,
        ) is None,
    decreases pairs.len(),
{
    if pairs.len() > 0 {
        lemma_first_value_is_first_match(pairs.drop_first(), key);
        assert forall|i: int|
            0 <= i < pairs.len() && pairs[i].0 == key && (forall|j: int|
                0 <= j < i ==> pairs[j].0 != key) implies first_value_for(pairs, key) == Some(
            pairs[i].1,
        ) by {
            if i > 0 {
                assert(pairs[0].0 != key);
                assert(pairs.drop_first()[i - 1] == pairs[i]);
                assert forall|j: int| 0 <= j < i - 1 implies pairs.drop_first()[j].0 != key by {
                    assert(pairs.drop_first()[j] == pairs[j + 1]);
                }
            }
        }
        if forall|j: int| 0 <= j < pairs.len() ==> pairs[j].0 != key {
            assert(pairs[0].0 != key);
            assert forall|j: int| 0 <= j < pairs.drop_first().len() implies pairs.drop_first()[j].0
                != key by {
                assert(pairs.drop_first()[j] == pairs[j + 1]);
            }
        }
    }
}

/// An external-open request (scheme `wpp-external`) carries the value of the
/// first decoded pair named `target` of its query (the empty query when it has
/// none), whatever that value is.
pub proof fn lemma_external_target_is_first_target_pair(url: Seq<char>, q: Seq<char>, i: int)
    requires
        parsed_url(url) matches Some((scheme, query)) && scheme == "wpp-external"@ && (query == Some(
            q,
        ) || (query is None && q == Seq::<char>::empty())),
        0 <= i < form_pairs(q).len(),
        form_pairs(q)[i].0 == "target"@,
        forall|j: int| 0 <= j < i ==> form_pairs(q)[j].0 != "target"@,
    ensures
        spec_external_target(parsed_url(url)) == Some(form_pairs(q)[i].1),
{
    reveal_strlit("target");
    reveal_strlit("wpp-external");
    assert(EXTERNAL_OPEN_TARGET_KEY@ == "target"@);
    assert(EXTERNAL_OPEN_SCHEME@ == "wpp-external"@);
    lemma_first_value_is_first_match(form_pairs(q), "target"@);
    if let Some((scheme, query)) = parsed_url(url) {
        assert(query_pairs_of(query) == form_pairs(q));
    }
}

/// A URL that does not parse, or parses with a scheme other than
/// `wpp-external`, or whose query (the empty one when it has none) decodes to
/// no pair named `target`, carries no link to open outside.
pub proof fn lemma_no_external_target(url: Seq<char>, q: Seq<char>)
    ensures
        parsed_url(url) is None ==> spec_external_target(parsed_url(url)) is None,
        (parsed_url(url) matches Some((scheme, query)) && scheme != "wpp-external"@)
            ==> spec_external_target(parsed_url(url)) is None,
        (parsed_url(url) matches Some((scheme, query)) && (query == Some(q) || (query is None && q
            == Seq::<char>::empty())) && (forall|j: int|
            0 <= j < form_pairs(q).len() ==> form_pairs(q)[j].0 != "target"@))
            ==> spec_external_target(parsed_url(url)) is None,
{
    reveal_strlit("target");
    reveal_strlit("wpp-external");
    assert(EXTERNAL_OPEN_TARGET_KEY@ == "target"@);
    assert(EXTERNAL_OPEN_SCHEME@ == "wpp-external"@);
    lemma_first_value_is_first_match(form_pairs(q), "target"@);
    if let Some((scheme, query)) = parsed_url(url) {
        if query == Some(q) || (query is None && q == Seq::<char>::empty()) {
            assert(query_pairs_of(query) == form_pairs(q));
        }
    }
}

} // verus!
