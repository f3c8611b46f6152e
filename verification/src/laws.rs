use vstd::prelude::*;
use crate::builder::SendungsverfolgungBuilder;
use crate::client::Sendungsverfolgung;
use crate::errors::BuildError;

verus! {

/// A draft whose effective environment is the sandbox builds successfully as
/// soon as both developer-portal credentials are set, whatever else is set or
/// unset.
pub proof fn lemma_sandbox_build_succeeds(b: SendungsverfolgungBuilder)
    requires
        b.spec_sandbox_effective(),
        b.entwickler_id is Some,
        b.passwd_entwicklerportal is Some,
    ensures
        b.spec_first_missing() is None,
{
}

/// A draft whose effective environment is the sandbox and whose
/// `entwickler_id` is unset is refused, naming that field.
pub proof fn lemma_sandbox_missing_entwickler_id(b: SendungsverfolgungBuilder)
    requires
        b.spec_sandbox_effective(),
        b.entwickler_id is None,
    ensures
        b.spec_first_missing() == Some(BuildError::EntwicklerIdMissing),
{
}

/// A production draft is refused exactly when one of `zt_kennung`,
/// `passwd_zt_kennung`, `app_token`, `app_id` is unset, and the error names
/// the first unset one in that fixed order.
pub proof fn lemma_production_first_missing(b: SendungsverfolgungBuilder)
    requires
        !b.spec_sandbox_effective(),
    ensures
        b.spec_first_missing() is Some <==> (b.zt_kennung is None || b.passwd_zt_kennung is None
            || b.app_token is None || b.app_id is None),
        b.zt_kennung is None ==> b.spec_first_missing() == Some(BuildError::ZtKennungMissing),
        b.zt_kennung is Some && b.passwd_zt_kennung is None ==> b.spec_first_missing() == Some(
            BuildError::PasswdZtKennungMissing,
        ),
        b.zt_kennung is Some && b.passwd_zt_kennung is Some && b.app_token is None
            ==> b.spec_first_missing() == Some(BuildError::AppTokenMissing),
        b.zt_kennung is Some && b.passwd_zt_kennung is Some && b.app_token is Some && b.app_id
            is None ==> b.spec_first_missing() == Some(BuildError::AppIdMissing),
{
}

/// When the environment flag was never set, the effective environment is the
/// sandbox.
pub proof fn lemma_sandbox_defaults_to_true(b: SendungsverfolgungBuilder)
    requires
        b.sandbox is None,
    ensures
        b.spec_sandbox_effective(),
{
}

/// The language code resolves to "de" when never set, and to the accumulated
/// value verbatim when set — in either environment.
pub proof fn lemma_language_code_resolution(b: SendungsverfolgungBuilder)
    ensures
        b.language_code is None ==> b.spec_language_effective() == "de"@,
        b.language_code is Some ==> b.spec_language_effective() == (b.language_code->0)@,
{
}

/// In the sandbox environment the composed XML parameter and URL do not
/// depend on the tracking number: the sandbox service always tracks the fixed
/// demo shipment.
pub proof fn lemma_sandbox_url_ignores_tracking(
    c: Sendungsverfolgung,
    s1: Seq<char>,
    s2: Seq<char>,
)
    requires
        c.sandbox,
    ensures
        c.spec_xml_param(s1) == c.spec_xml_param(s2),
        c.spec_url(s1) == c.spec_url(s2),
{
}

/// Authentication pair selection: a sandbox client authenticates with
/// (`entwickler_id`, `passwd_entwicklerportal`), a production client with
/// (`app_id`, `app_token`).
pub proof fn lemma_auth_pair_selection(c: Sendungsverfolgung)
    requires
        c.wf(),
    ensures
        c.sandbox ==> c.spec_auth_user() == (c.entwickler_id->0)@ && c.spec_auth_password() == (
        c.passwd_entwicklerportal->0)@,
        !c.sandbox ==> c.spec_auth_user() == (c.app_id->0)@ && c.spec_auth_password() == (
        c.app_token->0)@,
{
}

/// Composition is idempotent: two compositions from the same client and the
/// same tracking number yield the same URL and the same authentication pair.
pub proof fn lemma_composition_idempotent(
    c: Sendungsverfolgung,
    s: Seq<char>,
    url1: Seq<char>,
    url2: Seq<char>,
    user1: Seq<char>,
    user2: Seq<char>,
    pw1: Seq<char>,
    pw2: Seq<char>,
)
    requires
        url1 == c.spec_url(s),
        url2 == c.spec_url(s),
        user1 == c.spec_auth_user(),
        user2 == c.spec_auth_user(),
        pw1 == c.spec_auth_password(),
        pw2 == c.spec_auth_password(),
    ensures
        url1 == url2,
        user1 == user2,
        pw1 == pw2,
{
}

} // verus!
