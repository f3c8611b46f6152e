use vstd::prelude::*;
use vstd::string::StringExecFns;
use crate::client::Sendungsverfolgung;
use crate::errors::BuildError;

verus! {

/// A fluent accumulator for the tracking client's configuration. Every setter
/// accepts any value, empty strings included; nothing is checked before
/// `build`. Fields may be set in any order and any number of times: the last
/// write wins.
pub struct SendungsverfolgungBuilder {
    pub zt_kennung: Option<String>,
    pub passwd_zt_kennung: Option<String>,
    pub entwickler_id: Option<String>,
    pub passwd_entwicklerportal: Option<String>,
    pub language_code: Option<String>,
    pub sandbox: Option<bool>,
    pub app_id: Option<String>,
    pub app_token: Option<String>,
}

impl SendungsverfolgungBuilder {
    /// The effective environment flag: sandbox unless explicitly disabled.
    pub open spec fn spec_sandbox_effective(self) -> bool {
        match self.sandbox {
            Some(b) => b,
            None => true,
        }
    }

    /// The language code `build` resolves: the accumulated value, or "de"
    /// when none was accumulated.
    pub open spec fn spec_language_effective(self) -> Seq<char> {
        match self.language_code {
            Some(l) => l@,
            None => "de"@,
        }
    }

    /// The first field, in the fixed checking order, that the effective
    /// environment requires but the draft leaves unset; `None` when the draft
    /// satisfies its environment's rules.
    pub open spec fn spec_first_missing(self) -> Option<BuildError> {
        let sb = self.spec_sandbox_effective();
        if sb && self.entwickler_id is None {
            Some(BuildError::EntwicklerIdMissing)
        } else if !sb && self.zt_kennung is None {
            Some(BuildError::ZtKennungMissing)
        } else if !sb && self.passwd_zt_kennung is None {
            Some(BuildError::PasswdZtKennungMissing)
        } else if sb && self.passwd_entwicklerportal is None {
            Some(BuildError::PasswdEntwicklerportalMissing)
        } else if !sb && self.app_token is None {
            Some(BuildError::AppTokenMissing)
        } else if !sb && self.app_id is None {
            Some(BuildError::AppIdMissing)
        } else {
            None
        }
    }

    /// A fresh draft: every credential unset, the environment flag unset, and
    /// the language code preset to "de".
    pub fn new() -> (r: SendungsverfolgungBuilder)
        ensures
            r.zt_kennung is None,
            r.passwd_zt_kennung is None,
            r.entwickler_id is None,
            r.passwd_entwicklerportal is None,
            r.language_code is Some,
            (r.language_code->0)@ == "de"@,
            r.sandbox is None,
            r.app_id is None,
            r.app_token is None,
    {
        SendungsverfolgungBuilder {
            zt_kennung: None,
            passwd_zt_kennung: None,
            entwickler_id: None,
            passwd_entwicklerportal: None,
            language_code: Some(String::from_str("de")),
            sandbox: None,
            app_id: None,
            app_token: None,
        }
    }

    /// Sets the sandbox developer-portal account identifier.
    pub fn entwickler_id(self, entwickler_id: String) -> (r: SendungsverfolgungBuilder)
        ensures
            r == (SendungsverfolgungBuilder { entwickler_id: Some(entwickler_id), ..self }),
    {
        SendungsverfolgungBuilder { entwickler_id: Some(entwickler_id), ..self }
    }

    /// Sets the sandbox developer-portal password.
    pub fn passwd_entwicklerportal(self, passwd_entwicklerportal: String) -> (r:
        SendungsverfolgungBuilder)
        ensures
            r == (SendungsverfolgungBuilder {
                passwd_entwicklerportal: Some(passwd_entwicklerportal),
                ..self
            }),
    {
        SendungsverfolgungBuilder {
            passwd_entwicklerportal: Some(passwd_entwicklerportal),
            ..self
        }
    }

    /// Sets the production account identifier.
    pub fn zt_kennung(self, zt_kennung: String) -> (r: SendungsverfolgungBuilder)
        ensures
            r == (SendungsverfolgungBuilder { zt_kennung: Some(zt_kennung), ..self }),
    {
        SendungsverfolgungBuilder { zt_kennung: Some(zt_kennung), ..self }
    }

    /// Sets the password for the production account identifier.
    pub fn passwd_zt_kennung(self, passwd_zt_kennung: String) -> (r: SendungsverfolgungBuilder)
        ensures
            r == (SendungsverfolgungBuilder { passwd_zt_kennung: Some(passwd_zt_kennung), ..self }),
    {
        SendungsverfolgungBuilder { passwd_zt_kennung: Some(passwd_zt_kennung), ..self }
    }

    /// Selects the environment: `true` for sandbox, `false` for production.
    pub fn sandbox(self, sandbox: bool) -> (r: SendungsverfolgungBuilder)
        ensures
            r == (SendungsverfolgungBuilder { sandbox: Some(sandbox), ..self }),
    {
        SendungsverfolgungBuilder { sandbox: Some(sandbox), ..self }
    }

    /// Sets the language of the service's answer ("de" or "en").
    pub fn language_code(self, language_code: String) -> (r: SendungsverfolgungBuilder)
        ensures
            r == (SendungsverfolgungBuilder { language_code: Some(language_code), ..self }),
    {
        SendungsverfolgungBuilder { language_code: Some(language_code), ..self }
    }

    /// Sets the production API app token.
    pub fn app_token(self, app_token: String) -> (r: SendungsverfolgungBuilder)
        ensures
            r == (SendungsverfolgungBuilder { app_token: Some(app_token), ..self }),
    {
        SendungsverfolgungBuilder { app_token: Some(app_token), ..self }
    }

    /// Sets the production API app identifier.
    pub fn app_id(self, app_id: String) -> (r: SendungsverfolgungBuilder)
        ensures
            r == (SendungsverfolgungBuilder { app_id: Some(app_id), ..self }),
    {
        SendungsverfolgungBuilder { app_id: Some(app_id), ..self }
    }

    /// Validates the draft against the effective environment's required-field
    /// rules and, on success, produces the immutable client. On failure the
    /// first missing field, in the fixed checking order, is reported and no
    /// client is produced. Every accumulated field is carried over unchanged;
    /// the environment flag and the language code are resolved to their
    /// defaults when unset.
    pub fn build(self) -> (r: Result<Sendungsverfolgung, BuildError>)
        ensures
            r is Ok <==> self.spec_first_missing() is None,
            r is Err ==> Some(r->Err_0) == self.spec_first_missing(),
            r is Ok ==> ({
                let c = r->Ok_0;
                &&& c.sandbox == self.spec_sandbox_effective()
                &&& c.language_code@ == self.spec_language_effective()
                &&& c.zt_kennung == self.zt_kennung
                &&& c.passwd_zt_kennung == self.passwd_zt_kennung
                &&& c.entwickler_id == self.entwickler_id
                &&& c.passwd_entwicklerportal == self.passwd_entwicklerportal
                &&& c.app_id == self.app_id
                &&& c.app_token == self.app_token
                &&& c.wf()
            }),
    {
        let sandbox: bool = match self.sandbox {
            Some(b) => b,
            None => true,
        };
        if sandbox && self.entwickler_id.is_none() {
            return Err(BuildError::EntwicklerIdMissing);
        }
        if !sandbox && self.zt_kennung.is_none() {
            return Err(BuildError::ZtKennungMissing);
        }
        if !sandbox && self.passwd_zt_kennung.is_none() {
            return Err(BuildError::PasswdZtKennungMissing);
        }
        if sandbox && self.passwd_entwicklerportal.is_none() {
            return Err(BuildError::PasswdEntwicklerportalMissing);
        }
        if !sandbox && self.app_token.is_none() {
            return Err(BuildError::AppTokenMissing);
        }
        if !sandbox && self.app_id.is_none() {
            return Err(BuildError::AppIdMissing);
        }
        let language_code: String = match self.language_code {
            Some(l) => l,
            None => String::from_str("de"),
        };
        Ok(
            Sendungsverfolgung {
                zt_kennung: self.zt_kennung,
                passwd_zt_kennung: self.passwd_zt_kennung,
                entwickler_id: self.entwickler_id,
                passwd_entwicklerportal: self.passwd_entwicklerportal,
                language_code,
                sandbox,
                app_id: self.app_id,
                app_token: self.app_token,
            },
        )
    }
}

impl Default for SendungsverfolgungBuilder {
    /// The same fresh draft as `new`.
    fn default() -> (r: Self)
        ensures
            r.zt_kennung is None,
            r.passwd_zt_kennung is None,
            r.entwickler_id is None,
            r.passwd_entwicklerportal is None,
            r.language_code is Some,
            (r.language_code->0)@ == "de"@,
            r.sandbox is None,
            r.app_id is None,
            r.app_token is None,
    {
        Self::new()
    }
}

} // verus!
