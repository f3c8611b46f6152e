use vstd::prelude::*;
use vstd::string::StringExecFns;

verus! {

/// Why `build` refused a draft configuration: the first field, in the fixed
/// checking order, that the draft leaves unset although the effective
/// environment requires it.
#[derive(Clone, Copy, Debug, PartialEq, Eq, Structural)]
pub enum BuildError {
    /// `entwickler_id` is unset though the sandbox environment requires it.
    EntwicklerIdMissing,
    /// `zt_kennung` is unset though the production environment requires it.
    ZtKennungMissing,
    /// `passwd_zt_kennung` is unset though the production environment requires it.
    PasswdZtKennungMissing,
    /// `passwd_entwicklerportal` is unset though the sandbox environment requires it.
    PasswdEntwicklerportalMissing,
    /// `app_token` is unset though the production environment requires it.
    AppTokenMissing,
    /// `app_id` is unset though the production environment requires it.
    AppIdMissing,
}

impl BuildError {
    /// The description of this error: it names the missing field and the
    /// environment that requires it.
    pub open spec fn spec_message(self) -> Seq<char> {
        match self {
            BuildError::EntwicklerIdMissing => "entwickler_id not set. Needed in sandbox mode."@,
            BuildError::ZtKennungMissing => "zt_kennung not set. Needed in production mode."@,
            BuildError::PasswdZtKennungMissing => "passwd_zt_kennung not set. Needed in production mode."@,
            BuildError::PasswdEntwicklerportalMissing => "passwd_entwicklerportal not set. Needed in sandbox mode."@,
            BuildError::AppTokenMissing => "app_token not set. Needed in production mode."@,
            BuildError::AppIdMissing => "app_id not set. Needed in production mode."@,
        }
    }

    /// Human-readable description of the validation failure.
    pub fn message(&self) -> (r: String)
        ensures
            r@ == self.spec_message(),
    {
        match self {
            BuildError::EntwicklerIdMissing => String::from_str("entwickler_id not set. Needed in sandbox mode."),
            BuildError::ZtKennungMissing => String::from_str("zt_kennung not set. Needed in production mode."),
            BuildError::PasswdZtKennungMissing => String::from_str("passwd_zt_kennung not set. Needed in production mode."),
            BuildError::PasswdEntwicklerportalMissing => String::from_str("passwd_entwicklerportal not set. Needed in sandbox mode."),
            BuildError::AppTokenMissing => String::from_str("app_token not set. Needed in production mode."),
            BuildError::AppIdMissing => String::from_str("app_id not set. Needed in production mode."),
        }
    }
}

/// Why a composed query could not be turned into a request.
#[derive(Clone, Copy, Debug, PartialEq, Eq, Structural)]
pub enum RequestError {
    /// The concatenation of base URL and XML parameter did not parse as a URL.
    InvalidUrl,
}

impl RequestError {
    /// The description of this error.
    pub open spec fn spec_message(self) -> Seq<char> {
        "composed request is not a well-formed URL"@
    }

    /// Human-readable description of the composition failure.
    pub fn message(&self) -> (r: String)
        ensures
            r@ == self.spec_message(),
    {
        String::from_str("composed request is not a well-formed URL")
    }
}

} // verus!
