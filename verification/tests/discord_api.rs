use forger::discord::{
    join_segments_exec, trim_slashes_exec, Adapter, AdapterBuilder, DiscordAdapterConfig,
    DiscordApiBuilder,
};
use twilight_model::gateway::{Intents, ShardId};

#[test]
fn builds_channel_messages_url() {
    let url = DiscordApiBuilder::new()
        .add_segment("/channels/")
        .add_segment("123")
        .add_segment("messages/")
        .build();
    assert_eq!(url, "https://discord.com/api/channels/123/messages");
}

#[test]
fn builder_without_segments_gives_base() {
    assert_eq!(DiscordApiBuilder::new().build(), "https://discord.com/api/");
}

#[test]
fn repeated_slashes_are_all_trimmed() {
    let url = DiscordApiBuilder::new().add_segment("///users///").add_segment("@me").build();
    assert_eq!(url, "https://discord.com/api/users/@me");
}

#[test]
fn inner_slashes_are_kept() {
    let url = DiscordApiBuilder::new().add_segment("/guilds/42/roles/").build();
    assert_eq!(url, "https://discord.com/api/guilds/42/roles");
}

#[test]
fn surrounding_slashes_do_not_matter() {
    let a = DiscordApiBuilder::new().add_segment("/gateway/").add_segment("bot").build();
    let b = DiscordApiBuilder::new().add_segment("gateway").add_segment("//bot//").build();
    assert_eq!(a, b);
}

#[test]
fn segment_of_slashes_becomes_empty() {
    let url = DiscordApiBuilder::new().add_segment("a").add_segment("///").add_segment("b").build();
    assert_eq!(url, "https://discord.com/api/a//b");
}

#[test]
fn trim_handles_edge_cases() {
    assert_eq!(trim_slashes_exec(""), "");
    assert_eq!(trim_slashes_exec("/"), "");
    assert_eq!(trim_slashes_exec("a"), "a");
    assert_eq!(trim_slashes_exec("/é/ü/"), "é/ü");
    assert_eq!(trim_slashes_exec(&trim_slashes_exec("//x//")), trim_slashes_exec("//x//"));
}

#[test]
fn join_puts_one_slash_between_segments() {
    assert_eq!(join_segments_exec(&vec![]), "");
    assert_eq!(join_segments_exec(&vec!["a".to_string()]), "a");
    assert_eq!(
        join_segments_exec(&vec!["a".to_string(), "".to_string(), "c".to_string()]),
        "a//c"
    );
}

#[test]
fn adapter_asks_for_guild_messages_and_content() {
    let adapter = Adapter::new(DiscordAdapterConfig {
        proxy: Some("http://127.0.0.1:8080".to_string()),
        bot_token: "SECRET-REDACTED".to_string(),
    });
    assert_eq!(adapter.intents, (Intents::GUILD_MESSAGES | Intents::MESSAGE_CONTENT).bits());
    assert_eq!(adapter.intents, 33280);
    assert_eq!(adapter.bot_token, "SECRET-REDACTED");
    assert_eq!(adapter.proxy_url.as_deref(), Some("http://127.0.0.1:8080"));
    assert_eq!(adapter.shard_number, ShardId::ONE.number());
    assert_eq!(adapter.shard_total, ShardId::ONE.total());
}

#[test]
fn adapter_builder_keeps_missing_proxy() {
    let adapter = AdapterBuilder::new(DiscordAdapterConfig {
        proxy: None,
        bot_token: "token".to_string(),
    })
    .build();
    assert_eq!(adapter.proxy_url, None);
    assert_eq!(adapter.bot_token, "token");
    assert_eq!((adapter.shard_number, adapter.shard_total), (0, 1));
}

#[test]
fn builder_converts_into_its_url() {
    let url: String = DiscordApiBuilder::new().add_segment("/users/@me/").into();
    assert_eq!(url, "https://discord.com/api/users/@me");
}
