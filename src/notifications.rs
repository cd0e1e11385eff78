//! What the notification channel is given: the check of its configuration
//! and the link that opens the mini app on the updated number.
#![allow(non_camel_case_types)]
use vstd::prelude::*;
use vstd::string::*;
use vstd::utf8::encode_utf8;
use base64::Engine;

verus! {

/// Why a notification could not be set up or sent.
#[derive(Debug, Clone, Copy, PartialEq, Eq, Structural)]
pub enum notification_service_error {
    /// The chat service refused or failed.
    TelegramError,
    /// The bot token or the mini app name is empty.
    BotConfigurationError,
    /// The link to the mini app is not a valid URL.
    UrlFormatError,
}

/// Checks the bot's configuration: neither the token nor the mini app name
/// may be empty.
pub fn check_configuration(bot_token: &str, mini_app_name: &str) -> (r: Result<(), notification_service_error>)
    ensures
        r == if bot_token@.len() == 0 || mini_app_name@.len() == 0 {
            Err::<(), notification_service_error>(notification_service_error::BotConfigurationError)
        } else {
            Ok(())
        },
{
    if bot_token.is_empty() || mini_app_name.is_empty() {
        Err(notification_service_error::BotConfigurationError)
    } else {
        Ok(())
    }
}

/// The URL-safe base64 text, with padding, of `data`.
pub uninterp spec fn base64_url_of(data: Seq<u8>) -> Seq<char>;

/// Relies on base64's `URL_SAFE` engine and its `encode`: the URL-safe
/// base64 text of the bytes, with padding. It panics where the length of
/// the text overflows `usize`, which the bound leaves out.
#[verifier::external_body]
fn base64_url(data: &[u8]) -> (r: String)
    requires
        data@.len() <= usize::MAX / 2,
    ensures
        r@ == base64_url_of(data@),
{
    base64::engine::general_purpose::URL_SAFE.encode(data)
}

/// The link that opens the mini app `mini_app_name` of the bot
/// `bot_username` with the start parameter `startapp`.
pub open spec fn mini_app_link(bot_username: Seq<char>, mini_app_name: Seq<char>, startapp: Seq<char>) -> Seq<char> {
    "https://t.me/"@ + bot_username + "/"@ + mini_app_name + "?startapp="@ + startapp
}

/// The link that opens the mini app with the start parameter `startapp`.
pub fn deep_link(bot_username: &str, mini_app_name: &str, startapp: &str) -> (r: String)
    ensures
        r@ == mini_app_link(bot_username@, mini_app_name@, startapp@),
{
    let mut link = String::from_str("https://t.me/");
    link.append(bot_username);
    link.append("/");
    link.append(mini_app_name);
    link.append("?startapp=");
    link.append(startapp);
    link
}

/// The link that opens the mini app with `payload`, a JSON text, as its
/// start parameter: the chat service passes on only that one parameter, so
/// the payload travels in it as URL-safe base64.
pub fn notification_link(bot_username: &str, mini_app_name: &str, payload: &str) -> (r: String)
    requires
        encode_utf8(payload@).len() <= usize::MAX / 2,
    ensures
        r@ == mini_app_link(bot_username@, mini_app_name@, base64_url_of(encode_utf8(payload@))),
{
    let startapp = base64_url(payload.as_bytes());
    deep_link(bot_username, mini_app_name, startapp.as_str())
}

} // verus!
