//! The event catalogue and the callback registry.
//!
//! The catalogue is the closed list of gateway event kinds. The registry
//! (`EventHandler`) keeps, for every kind, the ordered list of registered
//! callbacks, and an open-ended table of callbacks keyed by the tag of an
//! event outside the catalogue. Callbacks themselves live with the embedding
//! runtime; the registry stores each one's identifier, and dispatch order is
//! exactly registration order.

use vstd::prelude::*;

verus! {

/// Identifier of a registered callback. The embedding runtime keeps the
/// callback bodies and invokes them by this identifier, in the order the
/// registry hands out.
pub type CallbackId = u64;

/// The closed catalogue of gateway event kinds.
#[derive(Clone, Copy, Debug, PartialEq, Eq, Hash, Structural)]
pub enum EventKind {
    ChannelCreate,
    CategoryCreate,
    CategoryDelete,
    ChannelDelete,
    ChannelPinsUpdate,
    ChannelUpdate,
    GuildBanAddition,
    GuildBanRemoval,
    GuildCreate,
    GuildDelete,
    GuildEmojisUpdate,
    GuildIntegrationsUpdate,
    GuildMemberAddition,
    GuildMemberRemoval,
    GuildMemberUpdate,
    GuildMembersChunk,
    GuildRoleCreate,
    GuildRoleDelete,
    GuildRoleUpdate,
    GuildUnavailable,
    GuildUpdate,
    InviteCreate,
    InviteDelete,
    Message,
    MessageDelete,
    MessageDeleteBulk,
    MessageUpdate,
    ReactionAdd,
    ReactionRemove,
    ReactionRemoveAll,
    PresenceUpdate,
    Ready,
    Resume,
    ShardStageUpdate,
    TypingStart,
    UserUpdate,
    VoiceServerUpdate,
    VoiceStateUpdate,
    WebhookUpdate,
    InteractionCreate,
    IntegrationCreate,
    IntegrationUpdate,
    IntegrationDelete,
    StageInstanceCreate,
    StageInstanceUpdate,
    StageInstanceDelete,
    ThreadCreate,
    ThreadUpdate,
    ThreadDelete,
    ThreadListSync,
    ThreadMemberUpdate,
    ThreadMembersUpdate,
}

/// One entry of the unknown-event table: the callbacks registered under one
/// tag, in registration order.
struct UnknownEntry {
    tag: String,
    callbacks: Vec<CallbackId>,
}

/// The callback registry: one ordered callback list per event kind of the
/// catalogue, plus the unknown-event table.
pub struct EventHandler {
    channel_create: Vec<CallbackId>,
    category_create: Vec<CallbackId>,
    category_delete: Vec<CallbackId>,
    channel_delete: Vec<CallbackId>,
    channel_pins_update: Vec<CallbackId>,
    channel_update: Vec<CallbackId>,
    guild_ban_addition: Vec<CallbackId>,
    guild_ban_removal: Vec<CallbackId>,
    guild_create: Vec<CallbackId>,
    guild_delete: Vec<CallbackId>,
    guild_emojis_update: Vec<CallbackId>,
    guild_integrations_update: Vec<CallbackId>,
    guild_member_addition: Vec<CallbackId>,
    guild_member_removal: Vec<CallbackId>,
    guild_member_update: Vec<CallbackId>,
    guild_members_chunk: Vec<CallbackId>,
    guild_role_create: Vec<CallbackId>,
    guild_role_delete: Vec<CallbackId>,
    guild_role_update: Vec<CallbackId>,
    guild_unavailable: Vec<CallbackId>,
    guild_update: Vec<CallbackId>,
    invite_create: Vec<CallbackId>,
    invite_delete: Vec<CallbackId>,
    message: Vec<CallbackId>,
    message_delete: Vec<CallbackId>,
    message_delete_bulk: Vec<CallbackId>,
    message_update: Vec<CallbackId>,
    reaction_add: Vec<CallbackId>,
    reaction_remove: Vec<CallbackId>,
    reaction_remove_all: Vec<CallbackId>,
    presence_update: Vec<CallbackId>,
    ready: Vec<CallbackId>,
    resume: Vec<CallbackId>,
    shard_stage_update: Vec<CallbackId>,
    typing_start: Vec<CallbackId>,
    user_update: Vec<CallbackId>,
    voice_server_update: Vec<CallbackId>,
    voice_state_update: Vec<CallbackId>,
    webhook_update: Vec<CallbackId>,
    interaction_create: Vec<CallbackId>,
    integration_create: Vec<CallbackId>,
    integration_update: Vec<CallbackId>,
    integration_delete: Vec<CallbackId>,
    stage_instance_create: Vec<CallbackId>,
    stage_instance_update: Vec<CallbackId>,
    stage_instance_delete: Vec<CallbackId>,
    thread_create: Vec<CallbackId>,
    thread_update: Vec<CallbackId>,
    thread_delete: Vec<CallbackId>,
    thread_list_sync: Vec<CallbackId>,
    thread_member_update: Vec<CallbackId>,
    thread_members_update: Vec<CallbackId>,
    unknown: Vec<UnknownEntry>,
}

/// The callbacks registered under `tag`, in registration order: those of the
/// first entry carrying `tag`, or the empty sequence when no entry does.
spec fn tag_lookup(entries: Seq<UnknownEntry>, tag: Seq<char>) -> Seq<CallbackId>
    decreases entries.len(),
{
    if entries.len() == 0 {
        Seq::empty()
    } else if entries[0].tag@ == tag {
        entries[0].callbacks@
    } else {
        tag_lookup(entries.drop_first(), tag)
    }
}

impl EventHandler {
    /// The ordered callback list registered for `kind`; dispatching an event
    /// of `kind` invokes exactly these callbacks, first to last.
    pub closed spec fn callbacks(self, kind: EventKind) -> Seq<CallbackId> {
        match kind {
            EventKind::ChannelCreate => self.channel_create@,
            EventKind::CategoryCreate => self.category_create@,
            EventKind::CategoryDelete => self.category_delete@,
            EventKind::ChannelDelete => self.channel_delete@,
            EventKind::ChannelPinsUpdate => self.channel_pins_update@,
            EventKind::ChannelUpdate => self.channel_update@,
            EventKind::GuildBanAddition => self.guild_ban_addition@,
            EventKind::GuildBanRemoval => self.guild_ban_removal@,
            EventKind::GuildCreate => self.guild_create@,
            EventKind::GuildDelete => self.guild_delete@,
            EventKind::GuildEmojisUpdate => self.guild_emojis_update@,
            EventKind::GuildIntegrationsUpdate => self.guild_integrations_update@,
            EventKind::GuildMemberAddition => self.guild_member_addition@,
            EventKind::GuildMemberRemoval => self.guild_member_removal@,
            EventKind::GuildMemberUpdate => self.guild_member_update@,
            EventKind::GuildMembersChunk => self.guild_members_chunk@,
            EventKind::GuildRoleCreate => self.guild_role_create@,
            EventKind::GuildRoleDelete => self.guild_role_delete@,
            EventKind::GuildRoleUpdate => self.guild_role_update@,
            EventKind::GuildUnavailable => self.guild_unavailable@,
            EventKind::GuildUpdate => self.guild_update@,
            EventKind::InviteCreate => self.invite_create@,
            EventKind::InviteDelete => self.invite_delete@,
            EventKind::Message => self.message@,
            EventKind::MessageDelete => self.message_delete@,
            EventKind::MessageDeleteBulk => self.message_delete_bulk@,
            EventKind::MessageUpdate => self.message_update@,
            EventKind::ReactionAdd => self.reaction_add@,
            EventKind::ReactionRemove => self.reaction_remove@,
            EventKind::ReactionRemoveAll => self.reaction_remove_all@,
            EventKind::PresenceUpdate => self.presence_update@,
            EventKind::Ready => self.ready@,
            EventKind::Resume => self.resume@,
            EventKind::ShardStageUpdate => self.shard_stage_update@,
            EventKind::TypingStart => self.typing_start@,
            EventKind::UserUpdate => self.user_update@,
            EventKind::VoiceServerUpdate => self.voice_server_update@,
            EventKind::VoiceStateUpdate => self.voice_state_update@,
            EventKind::WebhookUpdate => self.webhook_update@,
            EventKind::InteractionCreate => self.interaction_create@,
            EventKind::IntegrationCreate => self.integration_create@,
            EventKind::IntegrationUpdate => self.integration_update@,
            EventKind::IntegrationDelete => self.integration_delete@,
            EventKind::StageInstanceCreate => self.stage_instance_create@,
            EventKind::StageInstanceUpdate => self.stage_instance_update@,
            EventKind::StageInstanceDelete => self.stage_instance_delete@,
            EventKind::ThreadCreate => self.thread_create@,
            EventKind::ThreadUpdate => self.thread_update@,
            EventKind::ThreadDelete => self.thread_delete@,
            EventKind::ThreadListSync => self.thread_list_sync@,
            EventKind::ThreadMemberUpdate => self.thread_member_update@,
            EventKind::ThreadMembersUpdate => self.thread_members_update@,
        }
    }

    /// The ordered callback list registered under the unknown-event `tag`.
    pub closed spec fn tag_view(self, tag: Seq<char>) -> Seq<CallbackId> {
        tag_lookup(self.unknown@, tag)
    }

    /// A registry with no callback registered anywhere.
    pub open spec fn is_empty(self) -> bool {
        &&& forall|k: EventKind| #[trigger] self.callbacks(k) == Seq::<CallbackId>::empty()
        &&& forall|t: Seq<char>| #[trigger] self.tag_view(t) == Seq::<CallbackId>::empty()
    }

    /// An empty registry: no callback registered for any kind or tag.
    pub fn new() -> (r: Self)
        ensures
            r.is_empty(),
    {
        Self {
            channel_create: Vec::new(),
            category_create: Vec::new(),
            category_delete: Vec::new(),
            channel_delete: Vec::new(),
            channel_pins_update: Vec::new(),
            channel_update: Vec::new(),
            guild_ban_addition: Vec::new(),
            guild_ban_removal: Vec::new(),
            guild_create: Vec::new(),
            guild_delete: Vec::new(),
            guild_emojis_update: Vec::new(),
            guild_integrations_update: Vec::new(),
            guild_member_addition: Vec::new(),
            guild_member_removal: Vec::new(),
            guild_member_update: Vec::new(),
            guild_members_chunk: Vec::new(),
            guild_role_create: Vec::new(),
            guild_role_delete: Vec::new(),
            guild_role_update: Vec::new(),
            guild_unavailable: Vec::new(),
            guild_update: Vec::new(),
            invite_create: Vec::new(),
            invite_delete: Vec::new(),
            message: Vec::new(),
            message_delete: Vec::new(),
            message_delete_bulk: Vec::new(),
            message_update: Vec::new(),
            reaction_add: Vec::new(),
            reaction_remove: Vec::new(),
            reaction_remove_all: Vec::new(),
            presence_update: Vec::new(),
            ready: Vec::new(),
            resume: Vec::new(),
            shard_stage_update: Vec::new(),
            typing_start: Vec::new(),
            user_update: Vec::new(),
            voice_server_update: Vec::new(),
            voice_state_update: Vec::new(),
            webhook_update: Vec::new(),
            interaction_create: Vec::new(),
            integration_create: Vec::new(),
            integration_update: Vec::new(),
            integration_delete: Vec::new(),
            stage_instance_create: Vec::new(),
            stage_instance_update: Vec::new(),
            stage_instance_delete: Vec::new(),
            thread_create: Vec::new(),
            thread_update: Vec::new(),
            thread_delete: Vec::new(),
            thread_list_sync: Vec::new(),
            thread_member_update: Vec::new(),
            thread_members_update: Vec::new(),
            unknown: Vec::new(),
        }
    }

    /// Append `callback` to the list registered for `kind`. Value semantics:
    /// the updated registry is returned, so calls chain.
    pub fn register(self, kind: EventKind, callback: CallbackId) -> (r: Self)
        ensures
            registers(self, r, kind, callback),
    {
        let mut s = self;
        match kind {
            EventKind::ChannelCreate => s.channel_create.push(callback),
            EventKind::CategoryCreate => s.category_create.push(callback),
            EventKind::CategoryDelete => s.category_delete.push(callback),
            EventKind::ChannelDelete => s.channel_delete.push(callback),
            EventKind::ChannelPinsUpdate => s.channel_pins_update.push(callback),
            EventKind::ChannelUpdate => s.channel_update.push(callback),
            EventKind::GuildBanAddition => s.guild_ban_addition.push(callback),
            EventKind::GuildBanRemoval => s.guild_ban_removal.push(callback),
            EventKind::GuildCreate => s.guild_create.push(callback),
            EventKind::GuildDelete => s.guild_delete.push(callback),
            EventKind::GuildEmojisUpdate => s.guild_emojis_update.push(callback),
            EventKind::GuildIntegrationsUpdate => s.guild_integrations_update.push(callback),
            EventKind::GuildMemberAddition => s.guild_member_addition.push(callback),
            EventKind::GuildMemberRemoval => s.guild_member_removal.push(callback),
            EventKind::GuildMemberUpdate => s.guild_member_update.push(callback),
            EventKind::GuildMembersChunk => s.guild_members_chunk.push(callback),
            EventKind::GuildRoleCreate => s.guild_role_create.push(callback),
            EventKind::GuildRoleDelete => s.guild_role_delete.push(callback),
            EventKind::GuildRoleUpdate => s.guild_role_update.push(callback),
            EventKind::GuildUnavailable => s.guild_unavailable.push(callback),
            EventKind::GuildUpdate => s.guild_update.push(callback),
            EventKind::InviteCreate => s.invite_create.push(callback),
            EventKind::InviteDelete => s.invite_delete.push(callback),
            EventKind::Message => s.message.push(callback),
            EventKind::MessageDelete => s.message_delete.push(callback),
            EventKind::MessageDeleteBulk => s.message_delete_bulk.push(callback),
            EventKind::MessageUpdate => s.message_update.push(callback),
            EventKind::ReactionAdd => s.reaction_add.push(callback),
            EventKind::ReactionRemove => s.reaction_remove.push(callback),
            EventKind::ReactionRemoveAll => s.reaction_remove_all.push(callback),
            EventKind::PresenceUpdate => s.presence_update.push(callback),
            EventKind::Ready => s.ready.push(callback),
            EventKind::Resume => s.resume.push(callback),
            EventKind::ShardStageUpdate => s.shard_stage_update.push(callback),
            EventKind::TypingStart => s.typing_start.push(callback),
            EventKind::UserUpdate => s.user_update.push(callback),
            EventKind::VoiceServerUpdate => s.voice_server_update.push(callback),
            EventKind::VoiceStateUpdate => s.voice_state_update.push(callback),
            EventKind::WebhookUpdate => s.webhook_update.push(callback),
            EventKind::InteractionCreate => s.interaction_create.push(callback),
            EventKind::IntegrationCreate => s.integration_create.push(callback),
            EventKind::IntegrationUpdate => s.integration_update.push(callback),
            EventKind::IntegrationDelete => s.integration_delete.push(callback),
            EventKind::StageInstanceCreate => s.stage_instance_create.push(callback),
            EventKind::StageInstanceUpdate => s.stage_instance_update.push(callback),
            EventKind::StageInstanceDelete => s.stage_instance_delete.push(callback),
            EventKind::ThreadCreate => s.thread_create.push(callback),
            EventKind::ThreadUpdate => s.thread_update.push(callback),
            EventKind::ThreadDelete => s.thread_delete.push(callback),
            EventKind::ThreadListSync => s.thread_list_sync.push(callback),
            EventKind::ThreadMemberUpdate => s.thread_member_update.push(callback),
            EventKind::ThreadMembersUpdate => s.thread_members_update.push(callback),
        }
        s
    }

    /// The dispatch plan for an event of `kind`: the registered callbacks in
    /// registration order. An empty list means dispatch does nothing.
    pub fn dispatch_order(&self, kind: EventKind) -> (r: &Vec<CallbackId>)
        ensures
            r@ == self.callbacks(kind),
    {
        match kind {
            EventKind::ChannelCreate => &self.channel_create,
            EventKind::CategoryCreate => &self.category_create,
            EventKind::CategoryDelete => &self.category_delete,
            EventKind::ChannelDelete => &self.channel_delete,
            EventKind::ChannelPinsUpdate => &self.channel_pins_update,
            EventKind::ChannelUpdate => &self.channel_update,
            EventKind::GuildBanAddition => &self.guild_ban_addition,
            EventKind::GuildBanRemoval => &self.guild_ban_removal,
            EventKind::GuildCreate => &self.guild_create,
            EventKind::GuildDelete => &self.guild_delete,
            EventKind::GuildEmojisUpdate => &self.guild_emojis_update,
            EventKind::GuildIntegrationsUpdate => &self.guild_integrations_update,
            EventKind::GuildMemberAddition => &self.guild_member_addition,
            EventKind::GuildMemberRemoval => &self.guild_member_removal,
            EventKind::GuildMemberUpdate => &self.guild_member_update,
            EventKind::GuildMembersChunk => &self.guild_members_chunk,
            EventKind::GuildRoleCreate => &self.guild_role_create,
            EventKind::GuildRoleDelete => &self.guild_role_delete,
            EventKind::GuildRoleUpdate => &self.guild_role_update,
            EventKind::GuildUnavailable => &self.guild_unavailable,
            EventKind::GuildUpdate => &self.guild_update,
            EventKind::InviteCreate => &self.invite_create,
            EventKind::InviteDelete => &self.invite_delete,
            EventKind::Message => &self.message,
            EventKind::MessageDelete => &self.message_delete,
            EventKind::MessageDeleteBulk => &self.message_delete_bulk,
            EventKind::MessageUpdate => &self.message_update,
            EventKind::ReactionAdd => &self.reaction_add,
            EventKind::ReactionRemove => &self.reaction_remove,
            EventKind::ReactionRemoveAll => &self.reaction_remove_all,
            EventKind::PresenceUpdate => &self.presence_update,
            EventKind::Ready => &self.ready,
            EventKind::Resume => &self.resume,
            EventKind::ShardStageUpdate => &self.shard_stage_update,
            EventKind::TypingStart => &self.typing_start,
            EventKind::UserUpdate => &self.user_update,
            EventKind::VoiceServerUpdate => &self.voice_server_update,
            EventKind::VoiceStateUpdate => &self.voice_state_update,
            EventKind::WebhookUpdate => &self.webhook_update,
            EventKind::InteractionCreate => &self.interaction_create,
            EventKind::IntegrationCreate => &self.integration_create,
            EventKind::IntegrationUpdate => &self.integration_update,
            EventKind::IntegrationDelete => &self.integration_delete,
            EventKind::StageInstanceCreate => &self.stage_instance_create,
            EventKind::StageInstanceUpdate => &self.stage_instance_update,
            EventKind::StageInstanceDelete => &self.stage_instance_delete,
            EventKind::ThreadCreate => &self.thread_create,
            EventKind::ThreadUpdate => &self.thread_update,
            EventKind::ThreadDelete => &self.thread_delete,
            EventKind::ThreadListSync => &self.thread_list_sync,
            EventKind::ThreadMemberUpdate => &self.thread_member_update,
            EventKind::ThreadMembersUpdate => &self.thread_members_update,
        }
    }
}

impl EventHandler {
    /// Append `callback` under the unknown-event `tag`. Callbacks outside the
    /// closed catalogue are keyed by this arbitrary string; all callbacks that
    /// share a tag fire, in registration order. No kind's list is affected.
    pub fn register_unknown(self, tag: String, callback: CallbackId) -> (r: Self)
        ensures
            r.tag_view(tag@) == self.tag_view(tag@).push(callback),
            forall|t: Seq<char>| t != tag@ ==> #[trigger] r.tag_view(t) == self.tag_view(t),
            forall|k: EventKind| #[trigger] r.callbacks(k) == self.callbacks(k),
    {
        let mut s = self;
        let ghost e = s.unknown@;
        match find_tag(&s.unknown, &tag) {
            Some(i) => {
                s.unknown[i].callbacks.push(callback);
                proof {
                    let post = s.unknown@;
                    lemma_tag_lookup_first_match(e, i as int, tag@);
                    assert forall|j: int| 0 <= j < i implies post[j].tag@ != tag@ by {
                        assert(post[j] == e[j]);
                    }
                    lemma_tag_lookup_first_match(post, i as int, tag@);
                    assert forall|t: Seq<char>| t != tag@ implies #[trigger] tag_lookup(post, t)
                        == tag_lookup(e, t) by {
                        lemma_tag_lookup_update(e, i as int, post[i as int], t);
                    }
                }
            }
            None => {
                let mut callbacks: Vec<CallbackId> = Vec::new();
                callbacks.push(callback);
                let entry = UnknownEntry { tag, callbacks };
                s.unknown.push(entry);
                proof {
                    let post = s.unknown@;
                    let ghost n = e.len() as int;
                    lemma_tag_lookup_absent(e, post[n].tag@);
                    assert forall|j: int| 0 <= j < n implies post[j].tag@ != post[n].tag@ by {
                        assert(post[j] == e[j]);
                    }
                    lemma_tag_lookup_first_match(post, n, post[n].tag@);
                    assert forall|t: Seq<char>| t != post[n].tag@ implies #[trigger] tag_lookup(
                        post,
                        t,
                    ) == tag_lookup(e, t) by {
                        lemma_tag_lookup_push_other(e, post[n], t);
                    }
                }
            }
        }
        s
    }

    /// The dispatch plan for an unknown-kind event carrying `tag`: the
    /// callbacks registered under that tag, in registration order, or `None`
    /// when the tag was never registered, in which case dispatch does nothing.
    pub fn unknown_dispatch_order<'a>(&'a self, tag: &String) -> (r: Option<&'a Vec<CallbackId>>)
        ensures
            match r {
                Some(v) => v@ == self.tag_view(tag@),
                None => self.tag_view(tag@) == Seq::<CallbackId>::empty(),
            },
    {
        match find_tag(&self.unknown, tag) {
            Some(i) => {
                proof {
                    lemma_tag_lookup_first_match(self.unknown@, i as int, tag@);
                }
                let entry = &self.unknown[i];
                Some(&entry.callbacks)
            }
            None => {
                proof {
                    lemma_tag_lookup_absent(self.unknown@, tag@);
                }
                None
            }
        }
    }
}

/// The index of the first entry carrying `tag`, if any.
fn find_tag(entries: &Vec<UnknownEntry>, tag: &String) -> (r: Option<usize>)
    ensures
        match r {
            Some(i) => {
                &&& i < entries@.len()
                &&& entries@[i as int].tag@ == tag@
                &&& forall|j: int| 0 <= j < i ==> entries@[j].tag@ != tag@
            },
            None => forall|j: int| 0 <= j < entries@.len() ==> entries@[j].tag@ != tag@,
        },
{
    let mut i: usize = 0;
    while i < entries.len()
        invariant
            i <= entries@.len(),
            forall|j: int| 0 <= j < i ==> entries@[j].tag@ != tag@,
        decreases entries@.len() - i,
    {
        if entries[i].tag == *tag {
            return Some(i);
        }
        i = i + 1;
    }
    None
}

/// When the first entry carrying `tag` stands at `i`, the lookup returns
/// exactly that entry's list.
proof fn lemma_tag_lookup_first_match(e: Seq<UnknownEntry>, i: int, tag: Seq<char>)
    requires
        0 <= i < e.len(),
        e[i].tag@ == tag,
        forall|j: int| 0 <= j < i ==> e[j].tag@ != tag,
    ensures
        tag_lookup(e, tag) == e[i].callbacks@,
    decreases i,
{
    if i > 0 {
        assert forall|j: int| 0 <= j < i - 1 implies e.drop_first()[j].tag@ != tag by {
            assert(e.drop_first()[j] == e[j + 1]);
        }
        lemma_tag_lookup_first_match(e.drop_first(), i - 1, tag);
    }
}

/// When no entry carries `tag`, the lookup returns the empty sequence.
proof fn lemma_tag_lookup_absent(e: Seq<UnknownEntry>, tag: Seq<char>)
    requires
        forall|j: int| 0 <= j < e.len() ==> e[j].tag@ != tag,
    ensures
        tag_lookup(e, tag) == Seq::<CallbackId>::empty(),
    decreases e.len(),
{
    if e.len() > 0 {
        assert forall|j: int| 0 <= j < e.len() - 1 implies e.drop_first()[j].tag@ != tag by {
            assert(e.drop_first()[j] == e[j + 1]);
        }
        lemma_tag_lookup_absent(e.drop_first(), tag);
    }
}

/// Replacing entry `i` by one carrying the same tag leaves the lookup of
/// every other tag unchanged.
proof fn lemma_tag_lookup_update(e: Seq<UnknownEntry>, i: int, ent: UnknownEntry, tag: Seq<char>)
    requires
        0 <= i < e.len(),
        ent.tag@ == e[i].tag@,
        tag != ent.tag@,
    ensures
        tag_lookup(e.update(i, ent), tag) == tag_lookup(e, tag),
    decreases e.len(),
{
    let e2 = e.update(i, ent);
    if i == 0 {
        assert(e2.drop_first() =~= e.drop_first());
    } else {
        assert(e2[0] == e[0]);
        if e[0].tag@ != tag {
            assert(e2.drop_first() =~= e.drop_first().update(i - 1, ent));
            lemma_tag_lookup_update(e.drop_first(), i - 1, ent, tag);
        }
    }
}

/// Appending an entry carrying another tag leaves the lookup of `tag`
/// unchanged.
proof fn lemma_tag_lookup_push_other(e: Seq<UnknownEntry>, ent: UnknownEntry, tag: Seq<char>)
    requires
        tag != ent.tag@,
    ensures
        tag_lookup(e.push(ent), tag) == tag_lookup(e, tag),
    decreases e.len(),
{
    if e.len() == 0 {
        assert(e.push(ent)[0] == ent);
        assert(e.push(ent).drop_first() =~= Seq::<UnknownEntry>::empty());
        assert(tag_lookup(e.push(ent), tag) == tag_lookup(Seq::<UnknownEntry>::empty(), tag));
    } else {
        assert(e.push(ent)[0] == e[0]);
        if e[0].tag@ != tag {
            assert(e.push(ent).drop_first() =~= e.drop_first().push(ent));
            lemma_tag_lookup_push_other(e.drop_first(), ent, tag);
            assert(tag_lookup(e.push(ent), tag) == tag_lookup(e.drop_first().push(ent), tag));
        } else {
            assert(tag_lookup(e.push(ent), tag) == e[0].callbacks@);
        }
    }
}

/// `post` is `pre` with `callback` appended under `kind` and nothing else
/// changed: no other kind's list and no tag's list is affected.
pub open spec fn registers(
    pre: EventHandler,
    post: EventHandler,
    kind: EventKind,
    callback: CallbackId,
) -> bool {
    &&& post.callbacks(kind) == pre.callbacks(kind).push(callback)
    &&& forall|k: EventKind| k != kind ==> #[trigger] post.callbacks(k) == pre.callbacks(k)
    &&& forall|t: Seq<char>| #[trigger] post.tag_view(t) == pre.tag_view(t)
}
impl Default for EventHandler {
    /// Same as `EventHandler::new`: the empty registry.
    fn default() -> (r: Self)
        ensures
            r.is_empty(),
    {
        Self::new()
    }
}

/// `x` and `y` carry the same callback tables: the same ordered list for
/// every kind and for every unknown-event tag.
pub open spec fn same_tables(x: EventHandler, y: EventHandler) -> bool {
    &&& forall|k: EventKind| #[trigger] x.callbacks(k) == y.callbacks(k)
    &&& forall|t: Seq<char>| #[trigger] x.tag_view(t) == y.tag_view(t)
}

/// `end` is reached from `start` by performing the kind registrations of
/// `steps`, one after the other, in order.
pub open spec fn builds(
    start: EventHandler,
    steps: Seq<(EventKind, CallbackId)>,
    end: EventHandler,
) -> bool
    decreases steps.len(),
{
    if steps.len() == 0 {
        same_tables(end, start)
    } else {
        exists|mid: EventHandler|
            #[trigger] registers(start, mid, steps[0].0, steps[0].1) && builds(
                mid,
                steps.drop_first(),
                end,
            )
    }
}

/// The callbacks that `steps` registers under kind `k`, in step order.
pub open spec fn kind_additions(steps: Seq<(EventKind, CallbackId)>, k: EventKind) -> Seq<
    CallbackId,
>
    decreases steps.len(),
{
    if steps.len() == 0 {
        Seq::empty()
    } else if steps[0].0 == k {
        seq![steps[0].1] + kind_additions(steps.drop_first(), k)
    } else {
        kind_additions(steps.drop_first(), k)
    }
}

/// Registration order is dispatch order, and registrations are isolated by
/// kind: after any chain of registrations, every kind's callback list is the
/// starting list followed by exactly the callbacks the chain registered under
/// that kind, in the order it registered them. Registrations under other
/// kinds never touch the list.
pub proof fn lemma_registration_order(
    start: EventHandler,
    steps: Seq<(EventKind, CallbackId)>,
    end: EventHandler,
    k: EventKind,
)
    requires
        builds(start, steps, end),
    ensures
        end.callbacks(k) == start.callbacks(k) + kind_additions(steps, k),
    decreases steps.len(),
{
    if steps.len() == 0 {
        assert(start.callbacks(k) + Seq::<CallbackId>::empty() =~= start.callbacks(k));
    } else {
        let mid = choose|mid: EventHandler|
            #[trigger] registers(start, mid, steps[0].0, steps[0].1) && builds(
                mid,
                steps.drop_first(),
                end,
            );
        lemma_registration_order(mid, steps.drop_first(), end, k);
        let rest = kind_additions(steps.drop_first(), k);
        if steps[0].0 == k {
            assert(mid.callbacks(k) == start.callbacks(k).push(steps[0].1));
            assert(start.callbacks(k).push(steps[0].1) =~= start.callbacks(k) + seq![steps[0].1]);
            assert((start.callbacks(k) + seq![steps[0].1]) + rest =~= start.callbacks(k) + (seq![
                steps[0].1,
            ] + rest));
        }
    }
}

/// Determinism of composition: two runs of the same registration sequence
/// from registries with equal tables end in registries with equal tables, so
/// per-kind callback order never depends on anything but the sequence.
pub proof fn lemma_build_deterministic(
    start1: EventHandler,
    start2: EventHandler,
    steps: Seq<(EventKind, CallbackId)>,
    end1: EventHandler,
    end2: EventHandler,
)
    requires
        same_tables(start1, start2),
        builds(start1, steps, end1),
        builds(start2, steps, end2),
    ensures
        same_tables(end1, end2),
    decreases steps.len(),
{
    if steps.len() == 0 {
        assert forall|k: EventKind| #[trigger] end1.callbacks(k) == end2.callbacks(k) by {
            assert(end1.callbacks(k) == start1.callbacks(k));
            assert(end2.callbacks(k) == start2.callbacks(k));
        }
        assert forall|t: Seq<char>| #[trigger] end1.tag_view(t) == end2.tag_view(t) by {
            assert(end1.tag_view(t) == start1.tag_view(t));
            assert(end2.tag_view(t) == start2.tag_view(t));
        }
    } else {
        let mid1 = choose|mid: EventHandler|
            #[trigger] registers(start1, mid, steps[0].0, steps[0].1) && builds(
                mid,
                steps.drop_first(),
                end1,
            );
        let mid2 = choose|mid: EventHandler|
            #[trigger] registers(start2, mid, steps[0].0, steps[0].1) && builds(
                mid,
                steps.drop_first(),
                end2,
            );
        assert forall|k: EventKind| #[trigger] mid1.callbacks(k) == mid2.callbacks(k) by {
            if k != steps[0].0 {
                assert(mid1.callbacks(k) == start1.callbacks(k));
                assert(mid2.callbacks(k) == start2.callbacks(k));
            }
        }
        assert forall|t: Seq<char>| #[trigger] mid1.tag_view(t) == mid2.tag_view(t) by {
            assert(mid1.tag_view(t) == start1.tag_view(t));
            assert(mid2.tag_view(t) == start2.tag_view(t));
        }
        lemma_build_deterministic(mid1, mid2, steps.drop_first(), end1, end2);
    }
}

// One chain-style registration method per catalogue entry, so calls compose
// as `handler.message(a).ready(b)`. Each appends under its own kind and, like
// `register`, leaves every other kind and every tag untouched.
impl EventHandler {
    /// Append `callback` under `EventKind::ChannelCreate`.
    pub fn channel_create(self, callback: CallbackId) -> (r: Self)
        ensures
            registers(self, r, EventKind::ChannelCreate, callback),
    {
        self.register(EventKind::ChannelCreate, callback)
    }

    /// Append `callback` under `EventKind::CategoryCreate`.
    pub fn category_create(self, callback: CallbackId) -> (r: Self)
        ensures
            registers(self, r, EventKind::CategoryCreate, callback),
    {
        self.register(EventKind::CategoryCreate, callback)
    }

    /// Append `callback` under `EventKind::CategoryDelete`.
    pub fn category_delete(self, callback: CallbackId) -> (r: Self)
        ensures
            registers(self, r, EventKind::CategoryDelete, callback),
    {
        self.register(EventKind::CategoryDelete, callback)
    }

    /// Append `callback` under `EventKind::ChannelDelete`.
    pub fn channel_delete(self, callback: CallbackId) -> (r: Self)
        ensures
            registers(self, r, EventKind::ChannelDelete, callback),
    {
        self.register(EventKind::ChannelDelete, callback)
    }

    /// Append `callback` under `EventKind::ChannelPinsUpdate`.
    pub fn channel_pins_update(self, callback: CallbackId) -> (r: Self)
        ensures
            registers(self, r, EventKind::ChannelPinsUpdate, callback),
    {
        self.register(EventKind::ChannelPinsUpdate, callback)
    }

    /// Append `callback` under `EventKind::ChannelUpdate`.
    pub fn channel_update(self, callback: CallbackId) -> (r: Self)
        ensures
            registers(self, r, EventKind::ChannelUpdate, callback),
    {
        self.register(EventKind::ChannelUpdate, callback)
    }

    /// Append `callback` under `EventKind::GuildBanAddition`.
    pub fn guild_ban_addition(self, callback: CallbackId) -> (r: Self)
        ensures
            registers(self, r, EventKind::GuildBanAddition, callback),
    {
        self.register(EventKind::GuildBanAddition, callback)
    }

    /// Append `callback` under `EventKind::GuildBanRemoval`.
    pub fn guild_ban_removal(self, callback: CallbackId) -> (r: Self)
        ensures
            registers(self, r, EventKind::GuildBanRemoval, callback),
    {
        self.register(EventKind::GuildBanRemoval, callback)
    }

    /// Append `callback` under `EventKind::GuildCreate`.
    pub fn guild_create(self, callback: CallbackId) -> (r: Self)
        ensures
            registers(self, r, EventKind::GuildCreate, callback),
    {
        self.register(EventKind::GuildCreate, callback)
    }

    /// Append `callback` under `EventKind::GuildDelete`.
    pub fn guild_delete(self, callback: CallbackId) -> (r: Self)
        ensures
            registers(self, r, EventKind::GuildDelete, callback),
    {
        self.register(EventKind::GuildDelete, callback)
    }

    /// Append `callback` under `EventKind::GuildEmojisUpdate`.
    pub fn guild_emojis_update(self, callback: CallbackId) -> (r: Self)
        ensures
            registers(self, r, EventKind::GuildEmojisUpdate, callback),
    {
        self.register(EventKind::GuildEmojisUpdate, callback)
    }

    /// Append `callback` under `EventKind::GuildIntegrationsUpdate`.
    pub fn guild_integrations_update(self, callback: CallbackId) -> (r: Self)
        ensures
            registers(self, r, EventKind::GuildIntegrationsUpdate, callback),
    {
        self.register(EventKind::GuildIntegrationsUpdate, callback)
    }

    /// Append `callback` under `EventKind::GuildMemberAddition`.
    pub fn guild_member_addition(self, callback: CallbackId) -> (r: Self)
        ensures
            registers(self, r, EventKind::GuildMemberAddition, callback),
    {
        self.register(EventKind::GuildMemberAddition, callback)
    }

    /// Append `callback` under `EventKind::GuildMemberRemoval`.
    pub fn guild_member_removal(self, callback: CallbackId) -> (r: Self)
        ensures
            registers(self, r, EventKind::GuildMemberRemoval, callback),
    {
        self.register(EventKind::GuildMemberRemoval, callback)
    }

    /// Append `callback` under `EventKind::GuildMemberUpdate`.
    pub fn guild_member_update(self, callback: CallbackId) -> (r: Self)
        ensures
            registers(self, r, EventKind::GuildMemberUpdate, callback),
    {
        self.register(EventKind::GuildMemberUpdate, callback)
    }

    /// Append `callback` under `EventKind::GuildMembersChunk`.
    pub fn guild_members_chunk(self, callback: CallbackId) -> (r: Self)
        ensures
            registers(self, r, EventKind::GuildMembersChunk, callback),
    {
        self.register(EventKind::GuildMembersChunk, callback)
    }

    /// Append `callback` under `EventKind::GuildRoleCreate`.
    pub fn guild_role_create(self, callback: CallbackId) -> (r: Self)
        ensures
            registers(self, r, EventKind::GuildRoleCreate, callback),
    {
        self.register(EventKind::GuildRoleCreate, callback)
    }

    /// Append `callback` under `EventKind::GuildRoleDelete`.
    pub fn guild_role_delete(self, callback: CallbackId) -> (r: Self)
        ensures
            registers(self, r, EventKind::GuildRoleDelete, callback),
    {
        self.register(EventKind::GuildRoleDelete, callback)
    }

    /// Append `callback` under `EventKind::GuildRoleUpdate`.
    pub fn guild_role_update(self, callback: CallbackId) -> (r: Self)
        ensures
            registers(self, r, EventKind::GuildRoleUpdate, callback),
    {
        self.register(EventKind::GuildRoleUpdate, callback)
    }

    /// Append `callback` under `EventKind::GuildUnavailable`.
    pub fn guild_unavailable(self, callback: CallbackId) -> (r: Self)
        ensures
            registers(self, r, EventKind::GuildUnavailable, callback),
    {
        self.register(EventKind::GuildUnavailable, callback)
    }

    /// Append `callback` under `EventKind::GuildUpdate`.
    pub fn guild_update(self, callback: CallbackId) -> (r: Self)
        ensures
            registers(self, r, EventKind::GuildUpdate, callback),
    {
        self.register(EventKind::GuildUpdate, callback)
    }

    /// Append `callback` under `EventKind::InviteCreate`.
    pub fn invite_create(self, callback: CallbackId) -> (r: Self)
        ensures
            registers(self, r, EventKind::InviteCreate, callback),
    {
        self.register(EventKind::InviteCreate, callback)
    }

    /// Append `callback` under `EventKind::InviteDelete`.
    pub fn invite_delete(self, callback: CallbackId) -> (r: Self)
        ensures
            registers(self, r, EventKind::InviteDelete, callback),
    {
        self.register(EventKind::InviteDelete, callback)
    }

    /// Append `callback` under `EventKind::Message`.
    pub fn message(self, callback: CallbackId) -> (r: Self)
        ensures
            registers(self, r, EventKind::Message, callback),
    {
        self.register(EventKind::Message, callback)
    }

    /// Append `callback` under `EventKind::MessageDelete`.
    pub fn message_delete(self, callback: CallbackId) -> (r: Self)
        ensures
            registers(self, r, EventKind::MessageDelete, callback),
    {
        self.register(EventKind::MessageDelete, callback)
    }

    /// Append `callback` under `EventKind::MessageDeleteBulk`.
    pub fn message_delete_bulk(self, callback: CallbackId) -> (r: Self)
        ensures
            registers(self, r, EventKind::MessageDeleteBulk, callback),
    {
        self.register(EventKind::MessageDeleteBulk, callback)
    }

    /// Append `callback` under `EventKind::MessageUpdate`.
    pub fn message_update(self, callback: CallbackId) -> (r: Self)
        ensures
            registers(self, r, EventKind::MessageUpdate, callback),
    {
        self.register(EventKind::MessageUpdate, callback)
    }

    /// Append `callback` under `EventKind::ReactionAdd`.
    pub fn reaction_add(self, callback: CallbackId) -> (r: Self)
        ensures
            registers(self, r, EventKind::ReactionAdd, callback),
    {
        self.register(EventKind::ReactionAdd, callback)
    }

    /// Append `callback` under `EventKind::ReactionRemove`.
    pub fn reaction_remove(self, callback: CallbackId) -> (r: Self)
        ensures
            registers(self, r, EventKind::ReactionRemove, callback),
    {
        self.register(EventKind::ReactionRemove, callback)
    }

    /// Append `callback` under `EventKind::ReactionRemoveAll`.
    pub fn reaction_remove_all(self, callback: CallbackId) -> (r: Self)
        ensures
            registers(self, r, EventKind::ReactionRemoveAll, callback),
    {
        self.register(EventKind::ReactionRemoveAll, callback)
    }

    /// Append `callback` under `EventKind::PresenceUpdate`.
    pub fn presence_update(self, callback: CallbackId) -> (r: Self)
        ensures
            registers(self, r, EventKind::PresenceUpdate, callback),
    {
        self.register(EventKind::PresenceUpdate, callback)
    }

    /// Append `callback` under `EventKind::Ready`.
    pub fn ready(self, callback: CallbackId) -> (r: Self)
        ensures
            registers(self, r, EventKind::Ready, callback),
    {
        self.register(EventKind::Ready, callback)
    }

    /// Append `callback` under `EventKind::Resume`.
    pub fn resume(self, callback: CallbackId) -> (r: Self)
        ensures
            registers(self, r, EventKind::Resume, callback),
    {
        self.register(EventKind::Resume, callback)
    }

    /// Append `callback` under `EventKind::ShardStageUpdate`.
    pub fn shard_stage_update(self, callback: CallbackId) -> (r: Self)
        ensures
            registers(self, r, EventKind::ShardStageUpdate, callback),
    {
        self.register(EventKind::ShardStageUpdate, callback)
    }

    /// Append `callback` under `EventKind::TypingStart`.
    pub fn typing_start(self, callback: CallbackId) -> (r: Self)
        ensures
            registers(self, r, EventKind::TypingStart, callback),
    {
        self.register(EventKind::TypingStart, callback)
    }

    /// Append `callback` under `EventKind::UserUpdate`.
    pub fn user_update(self, callback: CallbackId) -> (r: Self)
        ensures
            registers(self, r, EventKind::UserUpdate, callback),
    {
        self.register(EventKind::UserUpdate, callback)
    }

    /// Append `callback` under `EventKind::VoiceServerUpdate`.
    pub fn voice_server_update(self, callback: CallbackId) -> (r: Self)
        ensures
            registers(self, r, EventKind::VoiceServerUpdate, callback),
    {
        self.register(EventKind::VoiceServerUpdate, callback)
    }

    /// Append `callback` under `EventKind::VoiceStateUpdate`.
    pub fn voice_state_update(self, callback: CallbackId) -> (r: Self)
        ensures
            registers(self, r, EventKind::VoiceStateUpdate, callback),
    {
        self.register(EventKind::VoiceStateUpdate, callback)
    }

    /// Append `callback` under `EventKind::WebhookUpdate`.
    pub fn webhook_update(self, callback: CallbackId) -> (r: Self)
        ensures
            registers(self, r, EventKind::WebhookUpdate, callback),
    {
        self.register(EventKind::WebhookUpdate, callback)
    }

    /// Append `callback` under `EventKind::InteractionCreate`.
    pub fn interaction_create(self, callback: CallbackId) -> (r: Self)
        ensures
            registers(self, r, EventKind::InteractionCreate, callback),
    {
        self.register(EventKind::InteractionCreate, callback)
    }

    /// Append `callback` under `EventKind::IntegrationCreate`.
    pub fn integration_create(self, callback: CallbackId) -> (r: Self)
        ensures
            registers(self, r, EventKind::IntegrationCreate, callback),
    {
        self.register(EventKind::IntegrationCreate, callback)
    }

    /// Append `callback` under `EventKind::IntegrationUpdate`.
    pub fn integration_update(self, callback: CallbackId) -> (r: Self)
        ensures
            registers(self, r, EventKind::IntegrationUpdate, callback),
    {
        self.register(EventKind::IntegrationUpdate, callback)
    }

    /// Append `callback` under `EventKind::IntegrationDelete`.
    pub fn integration_delete(self, callback: CallbackId) -> (r: Self)
        ensures
            registers(self, r, EventKind::IntegrationDelete, callback),
    {
        self.register(EventKind::IntegrationDelete, callback)
    }

    /// Append `callback` under `EventKind::StageInstanceCreate`.
    pub fn stage_instance_create(self, callback: CallbackId) -> (r: Self)
        ensures
            registers(self, r, EventKind::StageInstanceCreate, callback),
    {
        self.register(EventKind::StageInstanceCreate, callback)
    }

    /// Append `callback` under `EventKind::StageInstanceUpdate`.
    pub fn stage_instance_update(self, callback: CallbackId) -> (r: Self)
        ensures
            registers(self, r, EventKind::StageInstanceUpdate, callback),
    {
        self.register(EventKind::StageInstanceUpdate, callback)
    }

    /// Append `callback` under `EventKind::StageInstanceDelete`.
    pub fn stage_instance_delete(self, callback: CallbackId) -> (r: Self)
        ensures
            registers(self, r, EventKind::StageInstanceDelete, callback),
    {
        self.register(EventKind::StageInstanceDelete, callback)
    }

    /// Append `callback` under `EventKind::ThreadCreate`.
    pub fn thread_create(self, callback: CallbackId) -> (r: Self)
        ensures
            registers(self, r, EventKind::ThreadCreate, callback),
    {
        self.register(EventKind::ThreadCreate, callback)
    }

    /// Append `callback` under `EventKind::ThreadUpdate`.
    pub fn thread_update(self, callback: CallbackId) -> (r: Self)
        ensures
            registers(self, r, EventKind::ThreadUpdate, callback),
    {
        self.register(EventKind::ThreadUpdate, callback)
    }

    /// Append `callback` under `EventKind::ThreadDelete`.
    pub fn thread_delete(self, callback: CallbackId) -> (r: Self)
        ensures
            registers(self, r, EventKind::ThreadDelete, callback),
    {
        self.register(EventKind::ThreadDelete, callback)
    }

    /// Append `callback` under `EventKind::ThreadListSync`.
    pub fn thread_list_sync(self, callback: CallbackId) -> (r: Self)
        ensures
            registers(self, r, EventKind::ThreadListSync, callback),
    {
        self.register(EventKind::ThreadListSync, callback)
    }

    /// Append `callback` under `EventKind::ThreadMemberUpdate`.
    pub fn thread_member_update(self, callback: CallbackId) -> (r: Self)
        ensures
            registers(self, r, EventKind::ThreadMemberUpdate, callback),
    {
        self.register(EventKind::ThreadMemberUpdate, callback)
    }

    /// Append `callback` under `EventKind::ThreadMembersUpdate`.
    pub fn thread_members_update(self, callback: CallbackId) -> (r: Self)
        ensures
            registers(self, r, EventKind::ThreadMembersUpdate, callback),
    {
        self.register(EventKind::ThreadMembersUpdate, callback)
    }

}

} // verus!

