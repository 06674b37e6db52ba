//! Composition of the bot API's request URLs.
//!
//! Every request targets the caller-supplied base URL when one is given,
//! else a fixed default service endpoint. Any trailing slashes of an
//! override are stripped before the path — which always begins with a
//! slash — is appended, so the joined URL carries exactly one separator at
//! the junction.

use vstd::prelude::*;

verus! {

/// The fixed default service endpoint used when no base URL override is
/// supplied.
pub open spec fn spec_default_base_url() -> Seq<char> {
    "https://smba.trafficmanager.net/teams"@
}

/// `s` without its trailing slashes.
pub open spec fn spec_trim_trailing_slashes(s: Seq<char>) -> Seq<char>
    decreases s.len(),
{
    if s.len() > 0 && s.last() == '/' {
        spec_trim_trailing_slashes(s.drop_last())
    } else {
        s
    }
}

/// The effective base: the override with trailing slashes stripped when one
/// is present, else the default endpoint.
pub open spec fn spec_effective_base(base: Option<Seq<char>>) -> Seq<char> {
    match base {
        Option::Some(b) => spec_trim_trailing_slashes(b),
        Option::None => spec_default_base_url(),
    }
}

/// The URL a request targets: the effective base followed by the path.
pub open spec fn spec_composed_url(base: Option<Seq<char>>, path: Seq<char>) -> Seq<char> {
    spec_effective_base(base) + path
}

/// The view of an optional borrowed string.
pub open spec fn spec_opt_view(s: Option<&str>) -> Option<Seq<char>> {
    match s {
        Option::Some(b) => Option::Some(b@),
        Option::None => Option::None,
    }
}

/// The default service endpoint as a borrowed string.
pub fn default_base_url() -> (r: &'static str)
    ensures
        r@ == spec_default_base_url(),
{
    "https://smba.trafficmanager.net/teams"
}

/// Strips every trailing slash of `s`.
pub fn trim_trailing_slashes(s: &str) -> (r: &str)
    ensures
        r@ == spec_trim_trailing_slashes(s@),
{
    let len: usize = s.unicode_len();
    let mut k: usize = len;
    proof {
        assert(s@.subrange(0, len as int) =~= s@);
    }
    while k > 0 && s.get_char(k - 1) == '/'
        invariant
            k <= len,
            len == s@.len(),
            spec_trim_trailing_slashes(s@) == spec_trim_trailing_slashes(
                s@.subrange(0, k as int),
            ),
        decreases k,
    {
        proof {
            assert(s@.subrange(0, k as int).drop_last() =~= s@.subrange(0, k as int - 1));
        }
        k = k - 1;
    }
    proof {
        assert(spec_trim_trailing_slashes(s@.subrange(0, k as int)) == s@.subrange(0, k as int));
    }
    s.substring_char(0, k)
}

/// Composes the URL for a request: the caller-supplied base with trailing
/// slashes stripped — or the default endpoint — followed by `path`.
pub fn compose_url(base_url: Option<&str>, path: &str) -> (r: String)
    ensures
        r@ == spec_composed_url(spec_opt_view(base_url), path@),
{
    let base: &str = match base_url {
        Option::Some(b) => trim_trailing_slashes(b),
        Option::None => default_base_url(),
    };
    let mut out: String = base.to_owned();
    out.append(path);
    out
}

/// The path of the conversation-creation endpoint.
pub open spec fn spec_conversations_path() -> Seq<char> {
    "/v3/conversations"@
}

/// The path of the activity feed of conversation `conversation_id`.
pub open spec fn spec_activities_path(conversation_id: Seq<char>) -> Seq<char> {
    "/v3/conversations/"@ + conversation_id + "/activities"@
}

/// The path of activity `activity_id` within conversation
/// `conversation_id`.
pub open spec fn spec_activity_path(conversation_id: Seq<char>, activity_id: Seq<char>) -> Seq<
    char,
> {
    "/v3/conversations/"@ + conversation_id + "/activities/"@ + activity_id
}

/// Path under which a new conversation is created.
pub fn conversations_path() -> (r: &'static str)
    ensures
        r@ == spec_conversations_path(),
{
    "/v3/conversations"
}

/// Path under which an activity is appended to the given conversation.
pub fn activities_path(conversation_id: &str) -> (r: String)
    ensures
        r@ == spec_activities_path(conversation_id@),
{
    let mut out: String = "/v3/conversations/".to_owned();
    out.append(conversation_id);
    out.append("/activities");
    out
}

/// Path under which the given activity of the given conversation is
/// updated.
pub fn activity_path(conversation_id: &str, activity_id: &str) -> (r: String)
    ensures
        r@ == spec_activity_path(conversation_id@, activity_id@),
{
    let mut out: String = "/v3/conversations/".to_owned();
    out.append(conversation_id);
    out.append("/activities/");
    out.append(activity_id);
    out
}

/// Stripping trailing slashes leaves nothing to double: the trimmed base is
/// either empty or ends in a character other than `/`.
pub proof fn lemma_trimmed_base_never_ends_in_slash(base: Seq<char>)
    ensures
        spec_trim_trailing_slashes(base).len() > 0 ==> spec_trim_trailing_slashes(
            base,
        ).last() != '/',
    decreases base.len(),
{
    if base.len() > 0 && base.last() == '/' {
        lemma_trimmed_base_never_ends_in_slash(base.drop_last());
    }
}

/// Joining a base with a slash-led path neither doubles nor drops the
/// separator: the effective base never ends in `/`, so the composed URL
/// carries exactly the path's leading slash at the junction.
pub proof fn lemma_join_single_slash(base: Option<Seq<char>>, path: Seq<char>)
    requires
        path.len() > 0,
        path[0] == '/',
    ensures
        spec_composed_url(base, path)[spec_effective_base(base).len() as int] == '/',
        spec_effective_base(base).len() > 0 ==> spec_composed_url(base, path)[
            spec_effective_base(base).len() - 1
        ] != '/',
{
    match base {
        Option::Some(b) => {
            lemma_trimmed_base_never_ends_in_slash(b);
        },
        Option::None => {
            reveal_strlit("https://smba.trafficmanager.net/teams");
        },
    }
}

} // verus!
