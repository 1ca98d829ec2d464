//! The Discord URLs that the client opens.
use vstd::prelude::*;
use crate::config::Config;
use crate::text::{append_str, str_eq};

verus! {

broadcast use vstd::string::group_string_axioms;

/// The client type that a configuration selects: "default" when unset.
pub open spec fn client_type_of(config: Config) -> Seq<char> {
    match config.client_type {
        Some(t) => t@,
        None => "default"@,
    }
}

/// The base URL of the Discord web client of type `t`: the main site for
/// "default", the `t` subdomain (such as "canary" or "ptb") otherwise.
pub open spec fn client_url(t: Seq<char>) -> Seq<char> {
    if t == "default"@ {
        "https://discord.com"@
    } else {
        "https://"@ + t + ".discord.com"@
    }
}

/// The base URL of the client that `config` selects.
pub fn get_client_url(config: &Config) -> (url: String)
    ensures
        url@ == client_url(client_type_of(*config)),
{
    let t: &str = match &config.client_type {
        Some(t) => t.as_str(),
        None => "default",
    };
    if str_eq(t, "default") {
        String::from_str("https://discord.com")
    } else {
        let mut url = String::from_str("https://");
        append_str(&mut url, t);
        append_str(&mut url, ".discord.com");
        url
    }
}

/// The URL of the web app.
pub fn get_client_app_url(config: &Config) -> (url: String)
    ensures
        url@ == client_url(client_type_of(*config)) + "/app"@,
{
    let mut url = get_client_url(config);
    append_str(&mut url, "/app");
    url
}

/// The URL of a guild.
pub fn get_url_for_guild(config: &Config, guild_id: String) -> (url: String)
    ensures
        url@ == client_url(client_type_of(*config)) + "/channels/"@ + guild_id@,
{
    let mut url = get_client_url(config);
    append_str(&mut url, "/channels/");
    append_str(&mut url, guild_id.as_str());
    url
}

/// The URL of a channel of a guild.
pub fn get_url_for_channel(config: &Config, guild_id: String, channel_id: String) -> (url: String)
    ensures
        url@ == client_url(client_type_of(*config)) + "/channels/"@ + guild_id@ + "/"@
            + channel_id@,
{
    let mut url = get_client_url(config);
    append_str(&mut url, "/channels/");
    append_str(&mut url, guild_id.as_str());
    append_str(&mut url, "/");
    append_str(&mut url, channel_id.as_str());
    url
}

/// The URL of a message in a channel of a guild.
pub fn get_url_for_message(
    config: &Config,
    guild_id: String,
    channel_id: String,
    message_id: String,
) -> (url: String)
    ensures
        url@ == client_url(client_type_of(*config)) + "/channels/"@ + guild_id@ + "/"@
            + channel_id@ + "/"@ + message_id@,
{
    let mut url = get_client_url(config);
    append_str(&mut url, "/channels/");
    append_str(&mut url, guild_id.as_str());
    append_str(&mut url, "/");
    append_str(&mut url, channel_id.as_str());
    append_str(&mut url, "/");
    append_str(&mut url, message_id.as_str());
    url
}

} // verus!
