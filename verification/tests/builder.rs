use dhl_tracking::BuildError;
use dhl_tracking::SendungsverfolgungBuilder;

#[test]
fn sandbox_build_succeeds_with_both_credentials() {
    // Production-only fields may also be set; they do not disturb validation.
    let client = SendungsverfolgungBuilder::new()
        .sandbox(true)
        .entwickler_id("dev-id".to_string())
        .passwd_entwicklerportal("dev-pw".to_string())
        .zt_kennung("ztxxxxx".to_string())
        .app_id("app".to_string())
        .build()
        .unwrap();
    assert!(client.sandbox);
    assert_eq!(client.entwickler_id.as_deref(), Some("dev-id"));
    assert_eq!(client.passwd_entwicklerportal.as_deref(), Some("dev-pw"));
    assert_eq!(client.zt_kennung.as_deref(), Some("ztxxxxx"));
}

#[test]
fn sandbox_is_the_default_environment() {
    let client = SendungsverfolgungBuilder::new()
        .entwickler_id("dev-id".to_string())
        .passwd_entwicklerportal("dev-pw".to_string())
        .build()
        .unwrap();
    assert!(client.sandbox);
}

#[test]
fn sandbox_build_fails_without_entwickler_id() {
    let err = SendungsverfolgungBuilder::new()
        .sandbox(true)
        .passwd_entwicklerportal("dev-pw".to_string())
        .build()
        .unwrap_err();
    assert_eq!(err, BuildError::EntwicklerIdMissing);
    assert!(err.message().contains("entwickler_id"));
    assert!(err.message().contains("sandbox"));
}

#[test]
fn sandbox_build_fails_without_passwd_entwicklerportal() {
    let err = SendungsverfolgungBuilder::new()
        .entwickler_id("dev-id".to_string())
        .build()
        .unwrap_err();
    assert_eq!(err, BuildError::PasswdEntwicklerportalMissing);
    assert!(err.message().contains("passwd_entwicklerportal"));
}

#[test]
fn production_build_reports_first_missing_field_in_fixed_order() {
    let empty = || SendungsverfolgungBuilder::new().sandbox(false);
    assert_eq!(empty().build().unwrap_err(), BuildError::ZtKennungMissing);
    assert_eq!(
        empty().zt_kennung("zt".to_string()).build().unwrap_err(),
        BuildError::PasswdZtKennungMissing
    );
    assert_eq!(
        empty()
            .zt_kennung("zt".to_string())
            .passwd_zt_kennung("pw".to_string())
            .build()
            .unwrap_err(),
        BuildError::AppTokenMissing
    );
    assert_eq!(
        empty()
            .zt_kennung("zt".to_string())
            .passwd_zt_kennung("pw".to_string())
            .app_token("token".to_string())
            .build()
            .unwrap_err(),
        BuildError::AppIdMissing
    );
}

#[test]
fn production_build_succeeds_with_all_four_fields() {
    let client = SendungsverfolgungBuilder::new()
        .sandbox(false)
        .zt_kennung("zt".to_string())
        .passwd_zt_kennung("pw".to_string())
        .app_token("token".to_string())
        .app_id("app".to_string())
        .build()
        .unwrap();
    assert!(!client.sandbox);
    assert_eq!(client.app_id.as_deref(), Some("app"));
    assert_eq!(client.app_token.as_deref(), Some("token"));
}

#[test]
fn language_code_defaults_to_de_in_both_environments() {
    let sandbox_client = SendungsverfolgungBuilder::new()
        .entwickler_id("dev-id".to_string())
        .passwd_entwicklerportal("dev-pw".to_string())
        .build()
        .unwrap();
    assert_eq!(sandbox_client.language_code, "de");

    let production_client = SendungsverfolgungBuilder::new()
        .sandbox(false)
        .zt_kennung("zt".to_string())
        .passwd_zt_kennung("pw".to_string())
        .app_token("token".to_string())
        .app_id("app".to_string())
        .build()
        .unwrap();
    assert_eq!(production_client.language_code, "de");
}

#[test]
fn language_code_is_preserved_verbatim_when_set() {
    let sandbox_client = SendungsverfolgungBuilder::new()
        .language_code("en".to_string())
        .entwickler_id("dev-id".to_string())
        .passwd_entwicklerportal("dev-pw".to_string())
        .build()
        .unwrap();
    assert_eq!(sandbox_client.language_code, "en");

    let production_client = SendungsverfolgungBuilder::new()
        .sandbox(false)
        .language_code("en".to_string())
        .zt_kennung("zt".to_string())
        .passwd_zt_kennung("pw".to_string())
        .app_token("token".to_string())
        .app_id("app".to_string())
        .build()
        .unwrap();
    assert_eq!(production_client.language_code, "en");
}

#[test]
fn last_write_wins_on_repeated_setters() {
    let client = SendungsverfolgungBuilder::new()
        .language_code("en".to_string())
        .language_code("de".to_string())
        .entwickler_id("first".to_string())
        .entwickler_id("second".to_string())
        .passwd_entwicklerportal("dev-pw".to_string())
        .build()
        .unwrap();
    assert_eq!(client.language_code, "de");
    assert_eq!(client.entwickler_id.as_deref(), Some("second"));
}

#[test]
fn empty_strings_are_accepted_by_the_builder() {
    // Setters accept any string, including the empty one.
    let client = SendungsverfolgungBuilder::new()
        .entwickler_id(String::new())
        .passwd_entwicklerportal(String::new())
        .build()
        .unwrap();
    assert_eq!(client.entwickler_id.as_deref(), Some(""));
}

#[test]
fn default_builder_matches_new() {
    let err = SendungsverfolgungBuilder::default().build().unwrap_err();
    assert_eq!(err, BuildError::EntwicklerIdMissing);
}

#[test]
fn build_error_messages_name_field_and_environment() {
    assert_eq!(
        BuildError::EntwicklerIdMissing.message(),
        "entwickler_id not set. Needed in sandbox mode."
    );
    assert_eq!(
        BuildError::ZtKennungMissing.message(),
        "zt_kennung not set. Needed in production mode."
    );
    assert_eq!(
        BuildError::PasswdZtKennungMissing.message(),
        "passwd_zt_kennung not set. Needed in production mode."
    );
    assert_eq!(
        BuildError::PasswdEntwicklerportalMissing.message(),
        "passwd_entwicklerportal not set. Needed in sandbox mode."
    );
    assert_eq!(
        BuildError::AppTokenMissing.message(),
        "app_token not set. Needed in production mode."
    );
    assert_eq!(
        BuildError::AppIdMissing.message(),
        "app_id not set. Needed in production mode."
    );
}
