use vstd::prelude::*;
use vstd::string::StringExecFns;
use crate::errors::RequestError;
use crate::urlparse::parse_url;
use crate::urlparse::spec_url_parse;

verus! {

/// Base URL of the sandbox endpoint, up to and including the `xml=` query key.
pub open spec fn spec_base_url_sandbox() -> Seq<char> {
    "https://cig.dhl.de/services/sandbox/rest/sendungsverfolgung?xml="@
}

/// Base URL of the production endpoint, up to and including the `xml=` query key.
pub open spec fn spec_base_url_production() -> Seq<char> {
    "https://cig.dhl.de/services/production/rest/sendungsverfolgung?xml="@
}

/// The sandbox XML parameter document. Only the language code is substituted:
/// the sandbox service always tracks the fixed demo shipment
/// 00340434161094022115 and uses the fixed shared password "geheim", whatever
/// the caller asked for.
pub open spec fn spec_sandbox_xml(language_code: Seq<char>) -> Seq<char> {
    "<?xml version=\"1.0\" encoding=\"UTF-8\" standalone=\"no\"?> <data appname=\"zt12345\" language-code=\""@
        + language_code
        + "\" password=\"geheim\" piece-code=\"00340434161094022115\" request=\"d-get-piece-detail\"/>"@
}

/// The production XML parameter document, with the account identifier,
/// language code, account password and tracking number substituted in.
pub open spec fn spec_production_xml(
    zt_kennung: Seq<char>,
    language_code: Seq<char>,
    passwd_zt_kennung: Seq<char>,
    sendungsnummer: Seq<char>,
) -> Seq<char> {
    "<?xml version=\"1.0\" encoding=\"UTF-8\" standalone=\"no\"?> <data appname=\""@
        + zt_kennung
        + "\" language-code=\""@
        + language_code
        + "\" password=\""@
        + passwd_zt_kennung
        + "\" piece-code=\""@
        + sendungsnummer
        + "\" request=\"d-get-piece-detail\"/>"@
}

/// A validated, immutable tracking client. Produced only by
/// `SendungsverfolgungBuilder::build`, which guarantees that the credentials
/// the active environment needs are present (`wf`). Fields set for the
/// inactive environment are retained but never read.
#[derive(Debug, Clone)]
pub struct Sendungsverfolgung {
    pub zt_kennung: Option<String>,
    pub passwd_zt_kennung: Option<String>,
    pub entwickler_id: Option<String>,
    pub passwd_entwicklerportal: Option<String>,
    pub language_code: String,
    pub sandbox: bool,
    pub app_id: Option<String>,
    pub app_token: Option<String>,
}

/// A fully composed piece-detail query: the URL to fetch, in the URL parser's
/// normalized serialization, and the Basic Authentication pair to attach.
#[derive(Debug, Clone, PartialEq, Eq)]
pub struct PieceDetailRequest {
    pub url: String,
    pub auth_user: String,
    pub auth_password: String,
}

impl Sendungsverfolgung {
    /// The credentials that the active environment requires are present.
    pub open spec fn wf(self) -> bool {
        if self.sandbox {
            self.entwickler_id is Some && self.passwd_entwicklerportal is Some
        } else {
            self.zt_kennung is Some && self.passwd_zt_kennung is Some
                && self.app_id is Some && self.app_token is Some
        }
    }

    /// The XML parameter document this client composes for a tracking number.
    /// In the sandbox environment the tracking number is ignored.
    pub open spec fn spec_xml_param(self, sendungsnummer: Seq<char>) -> Seq<char> {
        if self.sandbox {
            spec_sandbox_xml(self.language_code@)
        } else {
            spec_production_xml(
                (self.zt_kennung->0)@,
                self.language_code@,
                (self.passwd_zt_kennung->0)@,
                sendungsnummer,
            )
        }
    }

    /// The URL this client composes: the environment's base URL followed by
    /// the XML parameter document as the literal query value.
    pub open spec fn spec_url(self, sendungsnummer: Seq<char>) -> Seq<char> {
        if self.sandbox {
            spec_base_url_sandbox() + self.spec_xml_param(sendungsnummer)
        } else {
            spec_base_url_production() + self.spec_xml_param(sendungsnummer)
        }
    }

    /// The Basic Authentication user name for the active environment.
    pub open spec fn spec_auth_user(self) -> Seq<char> {
        if self.sandbox {
            (self.entwickler_id->0)@
        } else {
            (self.app_id->0)@
        }
    }

    /// The Basic Authentication password for the active environment.
    pub open spec fn spec_auth_password(self) -> Seq<char> {
        if self.sandbox {
            (self.passwd_entwicklerportal->0)@
        } else {
            (self.app_token->0)@
        }
    }

    /// Whether the credentials the active environment requires are present.
    pub fn is_wf(&self) -> (r: bool)
        ensures
            r == self.wf(),
    {
        if self.sandbox {
            self.entwickler_id.is_some() && self.passwd_entwicklerportal.is_some()
        } else {
            self.zt_kennung.is_some() && self.passwd_zt_kennung.is_some()
                && self.app_id.is_some() && self.app_token.is_some()
        }
    }

    /// Composes the XML parameter document for the active environment, with
    /// the language code and, in production, the tracking number, account
    /// identifier and account password substituted in.
    pub fn compose_xml_param(&self, sendungsnummer: &str) -> (r: String)
        requires
            self.wf(),
        ensures
            r@ == self.spec_xml_param(sendungsnummer@),
    {
        if self.sandbox {
            let mut s = String::from_str(
                "<?xml version=\"1.0\" encoding=\"UTF-8\" standalone=\"no\"?> <data appname=\"zt12345\" language-code=\"",
            );
            s.append(self.language_code.as_str());
            s.append(
                "\" password=\"geheim\" piece-code=\"00340434161094022115\" request=\"d-get-piece-detail\"/>",
            );
            s
        } else {
            let mut s = String::from_str(
                "<?xml version=\"1.0\" encoding=\"UTF-8\" standalone=\"no\"?> <data appname=\"",
            );
            s.append(self.zt_kennung.as_ref().unwrap().as_str());
            s.append("\" language-code=\"");
            s.append(self.language_code.as_str());
            s.append("\" password=\"");
            s.append(self.passwd_zt_kennung.as_ref().unwrap().as_str());
            s.append("\" piece-code=\"");
            s.append(sendungsnummer);
            s.append("\" request=\"d-get-piece-detail\"/>");
            s
        }
    }

    /// Composes the full query URL for a tracking number: the active
    /// environment's base URL with the XML parameter document appended.
    pub fn compose_url(&self, sendungsnummer: &str) -> (r: String)
        requires
            self.wf(),
        ensures
            r@ == self.spec_url(sendungsnummer@),
    {
        let xml = self.compose_xml_param(sendungsnummer);
        let mut s = if self.sandbox {
            String::from_str("https://cig.dhl.de/services/sandbox/rest/sendungsverfolgung?xml=")
        } else {
            String::from_str("https://cig.dhl.de/services/production/rest/sendungsverfolgung?xml=")
        };
        s.append(xml.as_str());
        s
    }

    /// The Basic Authentication user name: `entwickler_id` in the sandbox
    /// environment, `app_id` in production.
    pub fn auth_user(&self) -> (r: &String)
        requires
            self.wf(),
        ensures
            r@ == self.spec_auth_user(),
    {
        if self.sandbox {
            self.entwickler_id.as_ref().unwrap()
        } else {
            self.app_id.as_ref().unwrap()
        }
    }

    /// The Basic Authentication password: `passwd_entwicklerportal` in the
    /// sandbox environment, `app_token` in production.
    pub fn auth_password(&self) -> (r: &String)
        requires
            self.wf(),
        ensures
            r@ == self.spec_auth_password(),
    {
        if self.sandbox {
            self.passwd_entwicklerportal.as_ref().unwrap()
        } else {
            self.app_token.as_ref().unwrap()
        }
    }

    /// Composes the complete piece-detail request: the query URL, checked and
    /// normalized by the URL parser, together with the Basic Authentication
    /// pair for the active environment. Fails exactly when the composed string
    /// does not parse as a URL.
    pub fn piece_detail_request(&self, sendungsnummer: &str) -> (r: Result<
        PieceDetailRequest,
        RequestError,
    >)
        requires
            self.wf(),
        ensures
            r is Ok <==> spec_url_parse(self.spec_url(sendungsnummer@)) is Some,
            r is Ok ==> (r->Ok_0).url@ == (spec_url_parse(self.spec_url(sendungsnummer@)))->0,
            r is Ok ==> (r->Ok_0).auth_user@ == self.spec_auth_user(),
            r is Ok ==> (r->Ok_0).auth_password@ == self.spec_auth_password(),
            r is Err ==> r->Err_0 == RequestError::InvalidUrl,
    {
        let raw = self.compose_url(sendungsnummer);
        match parse_url(raw.as_str()) {
            Ok(url) => Ok(
                PieceDetailRequest {
                    url,
                    auth_user: self.auth_user().clone(),
                    auth_password: self.auth_password().clone(),
                },
            ),
            Err(_) => Err(RequestError::InvalidUrl),
        }
    }
}

} // verus!
