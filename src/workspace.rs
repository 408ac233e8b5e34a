//! The user settings that a repository is opened or created with.
use vstd::prelude::*;
use jj_lib::config::{ConfigGetError, ConfigLayer, ConfigSource, StackedConfig};
use jj_lib::settings::UserSettings;
use crate::error::JjError;

verus! {

#[verifier::external_type_specification]
#[verifier::external_body]
pub struct ExDocumentMut(toml_edit::DocumentMut);

#[verifier::external_type_specification]
#[verifier::external_body]
pub struct ExTomlError(toml_edit::TomlError);

#[verifier::external_type_specification]
#[verifier::external_body]
pub struct ExStackedConfig(StackedConfig);

#[verifier::external_type_specification]
#[verifier::external_body]
pub struct ExUserSettings(UserSettings);

#[verifier::external_type_specification]
#[verifier::external_body]
pub struct ExConfigGetError(ConfigGetError);

/// The configuration text that names the user and the operation's host.
pub open spec fn settings_text_of(user_name: Seq<char>, user_email: Seq<char>) -> Seq<char> {
    "\n[user]\nname = \""@ + user_name + "\"\nemail = \""@ + user_email
        + "\"\n\n[operation]\nhostname = \"ffi-client\"\nusername = \"ffi-user\"\n"@
}

pub fn settings_text(user_name: &str, user_email: &str) -> (r: String)
    ensures
        r@ == settings_text_of(user_name@, user_email@),
{
    let mut s = String::from_str("\n[user]\nname = \"");
    s.append(user_name);
    s.append("\"\nemail = \"");
    s.append(user_email);
    s.append("\"\n\n[operation]\nhostname = \"ffi-client\"\nusername = \"ffi-user\"\n");
    s
}

/// Relies on toml_edit's `DocumentMut` parser.
#[verifier::external_body]
fn parse_document(text: &str) -> Result<toml_edit::DocumentMut, toml_edit::TomlError> {
    text.parse::<toml_edit::DocumentMut>()
}

/// Relies on `StackedConfig::with_defaults` of jj-lib, with the document as a
/// layer of command arguments on top. The defaults are needed: without them
/// `UserSettings::from_config` fails for want of `signing.behavior`, and the
/// commit builders unwrap `experimental.record-predecessors-in-commit`.
#[verifier::external_body]
fn config_with(data: toml_edit::DocumentMut) -> StackedConfig {
    let mut config = StackedConfig::with_defaults();
    config.add_layer(ConfigLayer { source: ConfigSource::CommandArg, path: None, data });
    config
}

/// Relies on `UserSettings::from_config` of jj-lib.
#[verifier::external_body]
fn settings_from(config: StackedConfig) -> Result<UserSettings, ConfigGetError> {
    UserSettings::from_config(config)
}

/// The settings of the given user; a name or email that breaks the
/// configuration's syntax is an Internal error.
pub fn create_user_settings(user_name: &str, user_email: &str) -> (r: Result<UserSettings, JjError>)
    ensures
        r is Err ==> r->Err_0 is Internal,
{
    let text = settings_text(user_name, user_email);
    let data = match parse_document(text.as_str()) {
        Ok(d) => d,
        Err(e) => return Err(
            JjError::Internal {
                message: crate::error::joined("Failed to parse config: ", e.to_string().as_str()),
            },
        ),
    };
    match settings_from(config_with(data)) {
        Ok(s) => Ok(s),
        Err(e) => Err(
            JjError::Internal {
                message: crate::error::joined(
                    "Failed to create user settings: ",
                    e.to_string().as_str(),
                ),
            },
        ),
    }
}

} // verus!
