use jumia::{EventHandler, EventKind};

fn all_kinds() -> Vec<EventKind> {
    vec![
        EventKind::ChannelCreate,
        EventKind::CategoryCreate,
        EventKind::CategoryDelete,
        EventKind::ChannelDelete,
        EventKind::ChannelPinsUpdate,
        EventKind::ChannelUpdate,
        EventKind::GuildBanAddition,
        EventKind::GuildBanRemoval,
        EventKind::GuildCreate,
        EventKind::GuildDelete,
        EventKind::GuildEmojisUpdate,
        EventKind::GuildIntegrationsUpdate,
        EventKind::GuildMemberAddition,
        EventKind::GuildMemberRemoval,
        EventKind::GuildMemberUpdate,
        EventKind::GuildMembersChunk,
        EventKind::GuildRoleCreate,
        EventKind::GuildRoleDelete,
        EventKind::GuildRoleUpdate,
        EventKind::GuildUnavailable,
        EventKind::GuildUpdate,
        EventKind::InviteCreate,
        EventKind::InviteDelete,
        EventKind::Message,
        EventKind::MessageDelete,
        EventKind::MessageDeleteBulk,
        EventKind::MessageUpdate,
        EventKind::ReactionAdd,
        EventKind::ReactionRemove,
        EventKind::ReactionRemoveAll,
        EventKind::PresenceUpdate,
        EventKind::Ready,
        EventKind::Resume,
        EventKind::ShardStageUpdate,
        EventKind::TypingStart,
        EventKind::UserUpdate,
        EventKind::VoiceServerUpdate,
        EventKind::VoiceStateUpdate,
        EventKind::WebhookUpdate,
        EventKind::InteractionCreate,
        EventKind::IntegrationCreate,
        EventKind::IntegrationUpdate,
        EventKind::IntegrationDelete,
        EventKind::StageInstanceCreate,
        EventKind::StageInstanceUpdate,
        EventKind::StageInstanceDelete,
        EventKind::ThreadCreate,
        EventKind::ThreadUpdate,
        EventKind::ThreadDelete,
        EventKind::ThreadListSync,
        EventKind::ThreadMemberUpdate,
        EventKind::ThreadMembersUpdate,
    ]
}

#[test]
fn every_fluent_method_appends_under_its_own_kind() {
    let mut handler = EventHandler::new();
    handler = handler.channel_create(0);
    handler = handler.category_create(1);
    handler = handler.category_delete(2);
    handler = handler.channel_delete(3);
    handler = handler.channel_pins_update(4);
    handler = handler.channel_update(5);
    handler = handler.guild_ban_addition(6);
    handler = handler.guild_ban_removal(7);
    handler = handler.guild_create(8);
    handler = handler.guild_delete(9);
    handler = handler.guild_emojis_update(10);
    handler = handler.guild_integrations_update(11);
    handler = handler.guild_member_addition(12);
    handler = handler.guild_member_removal(13);
    handler = handler.guild_member_update(14);
    handler = handler.guild_members_chunk(15);
    handler = handler.guild_role_create(16);
    handler = handler.guild_role_delete(17);
    handler = handler.guild_role_update(18);
    handler = handler.guild_unavailable(19);
    handler = handler.guild_update(20);
    handler = handler.invite_create(21);
    handler = handler.invite_delete(22);
    handler = handler.message(23);
    handler = handler.message_delete(24);
    handler = handler.message_delete_bulk(25);
    handler = handler.message_update(26);
    handler = handler.reaction_add(27);
    handler = handler.reaction_remove(28);
    handler = handler.reaction_remove_all(29);
    handler = handler.presence_update(30);
    handler = handler.ready(31);
    handler = handler.resume(32);
    handler = handler.shard_stage_update(33);
    handler = handler.typing_start(34);
    handler = handler.user_update(35);
    handler = handler.voice_server_update(36);
    handler = handler.voice_state_update(37);
    handler = handler.webhook_update(38);
    handler = handler.interaction_create(39);
    handler = handler.integration_create(40);
    handler = handler.integration_update(41);
    handler = handler.integration_delete(42);
    handler = handler.stage_instance_create(43);
    handler = handler.stage_instance_update(44);
    handler = handler.stage_instance_delete(45);
    handler = handler.thread_create(46);
    handler = handler.thread_update(47);
    handler = handler.thread_delete(48);
    handler = handler.thread_list_sync(49);
    handler = handler.thread_member_update(50);
    handler = handler.thread_members_update(51);
    let kinds = all_kinds();
    for (i, kind) in kinds.iter().enumerate() {
        assert_eq!(handler.dispatch_order(*kind), &vec![i as u64]);
    }
}

#[test]
fn register_matches_the_fluent_methods() {
    let kinds = all_kinds();
    let mut by_register = EventHandler::new();
    for (i, kind) in kinds.iter().enumerate() {
        by_register = by_register.register(*kind, 1000 + i as u64);
    }
    for (i, kind) in kinds.iter().enumerate() {
        assert_eq!(by_register.dispatch_order(*kind), &vec![1000 + i as u64]);
    }
}

