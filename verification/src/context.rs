//! The situational context of one inbound message, modeled as plain
//! values, and its rendering into prompt text.
//!
//! The chat platform's own types never enter the library: the process
//! edge reduces them to ids, names and a broken-down timestamp before a
//! context is built here.

use vstd::prelude::*;
use vstd::string::StrSliceExecFns;
use vstd::string::StringExecFns;

use crate::text::{dec_rep, u64_to_string};
use crate::user::UserInfo;

verus! {

/// A civil timestamp, already broken into its clock fields.
#[derive(Clone, Copy, PartialEq, Eq, Structural, Debug)]
pub struct Timestamp {
    pub year: u16,
    pub month: u8,
    pub day: u8,
    pub hour: u8,
    pub minute: u8,
    pub second: u8,
}

impl Timestamp {
    /// The fields lie in their clock ranges.
    pub open spec fn wf(&self) -> bool {
        &&& self.year <= 9999
        &&& 1 <= self.month <= 12
        &&& 1 <= self.day <= 31
        &&& self.hour <= 23
        &&& self.minute <= 59
        &&& self.second <= 59
    }
}

/// `n` in decimal, left-padded with zeroes to two digits.
pub open spec fn pad2(n: nat) -> Seq<char> {
    if n < 10 {
        seq!['0'] + dec_rep(n)
    } else {
        dec_rep(n)
    }
}

/// `n` in decimal, left-padded with zeroes to four digits.
pub open spec fn pad4(n: nat) -> Seq<char> {
    if n < 10 {
        seq!['0', '0', '0'] + dec_rep(n)
    } else if n < 100 {
        seq!['0', '0'] + dec_rep(n)
    } else if n < 1000 {
        seq!['0'] + dec_rep(n)
    } else {
        dec_rep(n)
    }
}

/// `<year>-<month>-<day> <hour>:<minute>:<second>`, each field
/// zero-padded.
pub open spec fn timestamp_text(t: Timestamp) -> Seq<char> {
    pad4(t.year as nat) + "-"@ + pad2(t.month as nat) + "-"@ + pad2(t.day as nat) + " "@ + pad2(
        t.hour as nat,
    ) + ":"@ + pad2(t.minute as nat) + ":"@ + pad2(t.second as nat)
}

fn pad2_string(n: u64) -> (r: String)
    ensures
        r@ == pad2(n as nat),
{
    proof {
        reveal_strlit("0");
    }
    if n < 10 {
        let mut s: String = "0".to_owned();
        s.append(u64_to_string(n).as_str());
        proof {
            assert(s@ =~= pad2(n as nat));
        }
        s
    } else {
        u64_to_string(n)
    }
}

fn pad4_string(n: u64) -> (r: String)
    ensures
        r@ == pad4(n as nat),
{
    proof {
        reveal_strlit("0");
        reveal_strlit("00");
        reveal_strlit("000");
    }
    if n < 10 {
        let mut s: String = "000".to_owned();
        s.append(u64_to_string(n).as_str());
        proof {
            assert(s@ =~= pad4(n as nat));
        }
        s
    } else if n < 100 {
        let mut s: String = "00".to_owned();
        s.append(u64_to_string(n).as_str());
        proof {
            assert(s@ =~= pad4(n as nat));
        }
        s
    } else if n < 1000 {
        let mut s: String = "0".to_owned();
        s.append(u64_to_string(n).as_str());
        proof {
            assert(s@ =~= pad4(n as nat));
        }
        s
    } else {
        u64_to_string(n)
    }
}

/// Renders a timestamp as `YYYY-MM-DD HH:MM:SS`.
pub fn format_timestamp(t: &Timestamp) -> (r: String)
    ensures
        r@ == timestamp_text(*t),
{
    let mut s = pad4_string(t.year as u64);
    s.append("-");
    s.append(pad2_string(t.month as u64).as_str());
    s.append("-");
    s.append(pad2_string(t.day as u64).as_str());
    s.append(" ");
    s.append(pad2_string(t.hour as u64).as_str());
    s.append(":");
    s.append(pad2_string(t.minute as u64).as_str());
    s.append(":");
    s.append(pad2_string(t.second as u64).as_str());
    proof {
        assert(s@ =~= timestamp_text(*t));
    }
    s
}

/// The message this one replies to, when there is one.
#[derive(Debug)]
pub struct MessageReference {
    pub message_id: u64,
    pub author_name: String,
    pub content: String,
}

/// Mathematical image of a [`MessageReference`].
#[verifier::ext_equal]
pub struct MessageReferenceView {
    pub message_id: u64,
    pub author_name: Seq<char>,
    pub content: Seq<char>,
}

impl View for MessageReference {
    type V = MessageReferenceView;

    open spec fn view(&self) -> MessageReferenceView {
        MessageReferenceView {
            message_id: self.message_id,
            author_name: self.author_name@,
            content: self.content@,
        }
    }
}

/// The guild an inbound message came from, when it did not come by DM.
#[derive(Debug)]
pub struct GuildContext {
    pub guild_id: u64,
    pub guild_name: String,
    pub member_count: u64,
    pub channel_name: Option<String>,
}

/// Mathematical image of a [`GuildContext`].
#[verifier::ext_equal]
pub struct GuildContextView {
    pub guild_id: u64,
    pub guild_name: Seq<char>,
    pub member_count: u64,
    pub channel_name: Option<Seq<char>>,
}

impl View for GuildContext {
    type V = GuildContextView;

    open spec fn view(&self) -> GuildContextView {
        GuildContextView {
            guild_id: self.guild_id,
            guild_name: self.guild_name@,
            member_count: self.member_count,
            channel_name: match &self.channel_name {
                Some(n) => Some(n@),
                None => None,
            },
        }
    }
}

/// Mathematical image of a [`UserInfo`].
#[verifier::ext_equal]
pub struct UserInfoView {
    pub id: u64,
    pub username: Seq<char>,
    pub nickname: Option<Seq<char>>,
    pub is_bot: bool,
}

/// The image of a [`UserInfo`] (the avatar plays no part in prompt
/// text).
pub open spec fn user_info_view(u: &UserInfo) -> UserInfoView {
    UserInfoView {
        id: u.id,
        username: u.username@,
        nickname: match &u.nickname {
            Some(n) => Some(n@),
            None => None,
        },
        is_bot: u.is_bot,
    }
}

/// Everything known about one inbound message.
#[derive(Debug)]
pub struct ConversationContext {
    pub channel_id: u64,
    pub guild_id: Option<u64>,
    pub user_id: u64,
    pub user_info: UserInfo,
    pub timestamp: Timestamp,
    pub message_reference: Option<MessageReference>,
}

/// Mathematical image of a [`ConversationContext`].
#[verifier::ext_equal]
pub struct ConversationContextView {
    pub channel_id: u64,
    pub guild_id: Option<u64>,
    pub user_id: u64,
    pub user_info: UserInfoView,
    pub timestamp: Timestamp,
    pub message_reference: Option<MessageReferenceView>,
}

impl View for ConversationContext {
    type V = ConversationContextView;

    open spec fn view(&self) -> ConversationContextView {
        ConversationContextView {
            channel_id: self.channel_id,
            guild_id: self.guild_id,
            user_id: self.user_id,
            user_info: user_info_view(&self.user_info),
            timestamp: self.timestamp,
            message_reference: match &self.message_reference {
                Some(r) => Some(r@),
                None => None,
            },
        }
    }
}

/// The reply excerpt shown in prompt text: at most 100 characters, with
/// an ellipsis when cut.
pub open spec fn reference_excerpt(content: Seq<char>) -> Seq<char> {
    if content.len() > 100 {
        content.take(100) + "..."@
    } else {
        content
    }
}

/// The prompt block describing the context: the clock, the place (guild
/// and channel, or a DM), the user, and the replied-to message, one
/// line each.
pub open spec fn context_prompt_text(
    conversation: ConversationContextView,
    guild: Option<GuildContextView>,
) -> Seq<char> {
    "現在時刻: "@ + timestamp_text(conversation.timestamp) + (match guild {
        Some(g) => "\nサーバー: "@ + g.guild_name + (match g.channel_name {
            Some(cn) => "\nチャンネル: #"@ + cn,
            None => Seq::<char>::empty(),
        }) + "\nメンバー数: "@ + dec_rep(g.member_count as nat) + "人"@,
        None => "\nDMでの会話"@,
    }) + "\nユーザー: "@ + conversation.user_info.username + " (ID: "@ + dec_rep(
        conversation.user_id as nat,
    ) + ")"@ + (match conversation.user_info.nickname {
        Some(nick) => "\nニックネーム: "@ + nick,
        None => Seq::<char>::empty(),
    }) + (match conversation.message_reference {
        Some(rm) => "\n返信先メッセージ: "@ + rm.author_name + "さん「"@ + reference_excerpt(
            rm.content,
        ) + "」"@,
        None => Seq::<char>::empty(),
    })
}

/// One key/value pair of free-form context metadata.
#[derive(Debug)]
pub struct MetadataEntry {
    pub key: String,
    pub value: String,
}

/// The key/value image of a metadata list.
pub open spec fn pairs_view(s: Seq<MetadataEntry>) -> Seq<(Seq<char>, Seq<char>)> {
    s.map_values(|e: MetadataEntry| (e.key@, e.value@))
}

/// No key occurs twice.
pub open spec fn unique_keys(s: Seq<MetadataEntry>) -> bool {
    forall|p: int, q: int|
        0 <= p < q < s.len() ==> (#[trigger] s[p]).key@ != (#[trigger] s[q]).key@
}

/// No key occurs twice among key/value pairs.
pub open spec fn unique_pair_keys(s: Seq<(Seq<char>, Seq<char>)>) -> bool {
    forall|p: int, q: int| 0 <= p < q < s.len() ==> (#[trigger] s[p]).0 != (#[trigger] s[q]).0
}

proof fn lemma_unique_keys_pairs(m: Seq<MetadataEntry>)
    ensures
        unique_keys(m) <==> unique_pair_keys(pairs_view(m)),
{
    if unique_keys(m) {
        assert forall|p: int, q: int|
            0 <= p < q < pairs_view(m).len() implies (#[trigger] pairs_view(m)[p]).0 != (
        #[trigger] pairs_view(m)[q]).0 by {
            assert(m[p].key@ != m[q].key@);
        }
    }
    if unique_pair_keys(pairs_view(m)) {
        assert forall|p: int, q: int|
            0 <= p < q < m.len() implies (#[trigger] m[p]).key@ != (#[trigger] m[q]).key@ by {
            assert(pairs_view(m)[p].0 != pairs_view(m)[q].0);
        }
    }
}

/// Records a pair in a metadata list, replacing the value of a key
/// already there.
fn insert_pair(metadata: &mut Vec<MetadataEntry>, key: String, value: String)
    requires
        unique_keys(old(metadata)@),
    ensures
        unique_keys(final(metadata)@),
        (exists|i: int|
            0 <= i < old(metadata)@.len() && (#[trigger] pairs_view(old(metadata)@)[i]).0
                == key@) ==> exists|i: int|
            0 <= i < old(metadata)@.len() && (#[trigger] pairs_view(old(metadata)@)[i]).0 == key@
                && pairs_view(final(metadata)@) == pairs_view(old(metadata)@).update(
                i,
                (key@, value@),
            ),
        (forall|i: int|
            0 <= i < old(metadata)@.len() ==> (#[trigger] pairs_view(old(metadata)@)[i]).0
                != key@) ==> pairs_view(final(metadata)@) == pairs_view(old(metadata)@).push(
            (key@, value@),
        ),
{
    let ghost kv = key@;
    let ghost vv = value@;
    let n = metadata.len();
    let mut i: usize = 0;
    while i < n
        invariant
            metadata@ == old(metadata)@,
            unique_keys(metadata@),
            n == metadata@.len(),
            i <= n,
            forall|j: int| 0 <= j < i ==> (#[trigger] metadata@[j]).key@ != kv,
            key@ == kv,
            value@ == vv,
        decreases n - i,
    {
        if metadata[i].key == key {
            proof {
                assert(pairs_view(metadata@)[i as int].0 == kv);
            }
            metadata[i] = MetadataEntry { key, value };
            proof {
                assert(metadata@[i as int].key@ == kv);
                assert(metadata@[i as int].value@ == vv);
                assert forall|p: int, q: int|
                    0 <= p < q < metadata@.len() implies (#[trigger] metadata@[p]).key@ != (
                #[trigger] metadata@[q]).key@ by {
                    assert(old(metadata)@[p].key@ != old(metadata)@[q].key@);
                }
                assert(pairs_view(metadata@) =~= pairs_view(old(metadata)@).update(
                    i as int,
                    (kv, vv),
                ));
            }
            return ;
        }
        i = i + 1;
    }
    metadata.push(MetadataEntry { key, value });
    proof {
        assert(metadata@.last().key@ == kv);
        assert(metadata@.last().value@ == vv);
        assert(forall|j: int|
            0 <= j < metadata@.len() - 1 ==> (#[trigger] metadata@[j]).key@ != kv);
        assert(pairs_view(metadata@) =~= pairs_view(old(metadata)@).push((kv, vv)));
    }
}

/// The situational context handed to a turn: the conversation, the
/// guild when there is one, and free-form metadata.
#[derive(Debug)]
pub struct AgentContext {
    conversation: ConversationContext,
    guild: Option<GuildContext>,
    metadata: Vec<MetadataEntry>,
}

impl AgentContext {
    /// The key/value pairs stored so far.
    pub closed spec fn metadata_view(&self) -> Seq<(Seq<char>, Seq<char>)> {
        self.metadata@.map_values(|e: MetadataEntry| (e.key@, e.value@))
    }

    /// The conversation this context describes.
    pub closed spec fn conversation_view(&self) -> ConversationContextView {
        self.conversation@
    }

    /// The guild this context describes, if any.
    pub closed spec fn guild_view(&self) -> Option<GuildContextView> {
        match &self.guild {
            Some(g) => Some(g@),
            None => None,
        }
    }

    /// No metadata key is stored twice.
    pub open spec fn wf(&self) -> bool {
        unique_pair_keys(self.metadata_view())
    }

    /// A context over the given conversation and guild, with no
    /// metadata yet.
    pub fn new(conversation: ConversationContext, guild: Option<GuildContext>) -> (r:
        AgentContext)
        ensures
            r.wf(),
            r.conversation_view() == conversation@,
            r.guild_view() == (match guild {
                Some(g) => Some(g@),
                None => None::<GuildContextView>,
            }),
            r.metadata_view() == Seq::<(Seq<char>, Seq<char>)>::empty(),
    {
        let r = AgentContext { conversation, guild, metadata: Vec::new() };
        proof {
            assert(r.metadata_view() =~= Seq::<(Seq<char>, Seq<char>)>::empty());
        }
        r
    }

    /// The conversation this context describes.
    pub fn conversation(&self) -> (r: &ConversationContext)
        ensures
            r@ == self.conversation_view(),
    {
        &self.conversation
    }

    /// The guild this context describes, if any.
    pub fn guild(&self) -> (r: Option<&GuildContext>)
        ensures
            match r {
                Some(g) => self.guild_view() matches Some(gv) && gv == g@,
                None => self.guild_view() is None,
            },
    {
        self.guild.as_ref()
    }

    fn find_meta(&self, key: &String) -> (r: Option<usize>)
        ensures
            match r {
                Some(i) => i < self.metadata@.len() && self.metadata@[i as int].key@ == key@,
                None => forall|j: int|
                    0 <= j < self.metadata@.len() ==> (#[trigger] self.metadata@[j]).key@
                        != key@,
            },
    {
        let n = self.metadata.len();
        let mut i: usize = 0;
        while i < n
            invariant
                n == self.metadata@.len(),
                i <= n,
                forall|j: int| 0 <= j < i ==> (#[trigger] self.metadata@[j]).key@ != key@,
            decreases n - i,
        {
            if self.metadata[i].key == *key {
                return Some(i);
            }
            i = i + 1;
        }
        None
    }

    /// Records a key/value pair, replacing the value of a key already
    /// there.
    pub fn set_metadata(&mut self, key: String, value: String)
        requires
            old(self).wf(),
        ensures
            final(self).wf(),
            final(self).conversation_view() == old(self).conversation_view(),
            final(self).guild_view() == old(self).guild_view(),
            (exists|i: int|
                0 <= i < old(self).metadata_view().len() && old(self).metadata_view()[i].0
                    == key@) ==> exists|i: int|
                0 <= i < old(self).metadata_view().len() && old(self).metadata_view()[i].0
                    == key@ && final(self).metadata_view() == old(self).metadata_view().update(
                    i,
                    (key@, value@),
                ),
            (forall|i: int|
                0 <= i < old(self).metadata_view().len() ==> (#[trigger] old(
                    self,
                ).metadata_view()[i]).0 != key@) ==> final(self).metadata_view() == old(
                self,
            ).metadata_view().push((key@, value@)),
    {
        proof {
            lemma_unique_keys_pairs(self.metadata@);
        }
        insert_pair(&mut self.metadata, key, value);
        proof {
            lemma_unique_keys_pairs(self.metadata@);
        }
    }

    /// The value stored under a key, if any.
    pub fn get_metadata(&self, key: &str) -> (r: Option<String>)
        ensures
            r.is_some() == (exists|i: int|
                0 <= i < self.metadata_view().len() && (#[trigger] self.metadata_view()[i]).0
                    == key@),
            r matches Some(v) ==> exists|i: int|
                0 <= i < self.metadata_view().len() && (#[trigger] self.metadata_view()[i]).0
                    == key@ && self.metadata_view()[i].1 == v@,
    {
        let k: String = key.to_owned();
        match self.find_meta(&k) {
            Some(i) => {
                let r = Some(self.metadata[i].value.clone());
                proof {
                    assert(self.metadata_view()[i as int].0 == key@);
                }
                r
            }
            None => None,
        }
    }

    /// Whether the message came by direct message rather than from a
    /// guild.
    pub fn is_dm(&self) -> (r: bool)
        ensures
            r == (self.conversation_view().guild_id is None),
    {
        self.conversation.guild_id.is_none()
    }

    /// The channel the message arrived in.
    pub fn get_channel_id(&self) -> (r: u64)
        ensures
            r == self.conversation_view().channel_id,
    {
        self.conversation.channel_id
    }

    /// The user who sent the message.
    pub fn get_user_id(&self) -> (r: u64)
        ensures
            r == self.conversation_view().user_id,
    {
        self.conversation.user_id
    }

    /// Renders the context block that is put before the prompt: the
    /// clock, the place, the user and the replied-to message, one line
    /// each.
    #[verifier::rlimit(100)]
    pub fn format_context_for_prompt(&self) -> (r: String)
        ensures
            r@ == context_prompt_text(self.conversation_view(), self.guild_view()),
    {
        let mut s: String = "現在時刻: ".to_owned();
        s.append(format_timestamp(&self.conversation.timestamp).as_str());
        match &self.guild {
            Some(g) => {
                s.append("\nサーバー: ");
                s.append(g.guild_name.as_str());
                match &g.channel_name {
                    Some(cn) => {
                        s.append("\nチャンネル: #");
                        s.append(cn.as_str());
                    }
                    None => {
                    }
                }
                s.append("\nメンバー数: ");
                s.append(u64_to_string(g.member_count).as_str());
                s.append("人");
            }
            None => {
                s.append("\nDMでの会話");
            }
        }
        s.append("\nユーザー: ");
        s.append(self.conversation.user_info.username.as_str());
        s.append(" (ID: ");
        s.append(u64_to_string(self.conversation.user_id).as_str());
        s.append(")");
        match &self.conversation.user_info.nickname {
            Some(nick) => {
                s.append("\nニックネーム: ");
                s.append(nick.as_str());
            }
            None => {
            }
        }
        match &self.conversation.message_reference {
            Some(rm) => {
                s.append("\n返信先メッセージ: ");
                s.append(rm.author_name.as_str());
                s.append("さん「");
                let content = &rm.content;
                if content.as_str().unicode_len() > 100 {
                    s.append(content.as_str().substring_char(0, 100));
                    s.append("...");
                } else {
                    s.append(content.as_str());
                }
                s.append("」");
            }
            None => {
            }
        }
        proof {
            assert(s@ =~= context_prompt_text(self.conversation_view(), self.guild_view()));
        }
        s
    }
}

/// Step-by-step assembly of context metadata.
#[derive(Debug)]
pub struct ContextBuilder {
    metadata: Vec<MetadataEntry>,
}

impl ContextBuilder {
    /// The key/value pairs collected so far.
    pub closed spec fn metadata_view(&self) -> Seq<(Seq<char>, Seq<char>)> {
        self.metadata@.map_values(|e: MetadataEntry| (e.key@, e.value@))
    }

    /// No key is collected twice.
    pub open spec fn wf(&self) -> bool {
        unique_pair_keys(self.metadata_view())
    }

    /// An empty builder.
    pub fn new() -> (r: ContextBuilder)
        ensures
            r.wf(),
            r.metadata_view() == Seq::<(Seq<char>, Seq<char>)>::empty(),
    {
        let r = ContextBuilder { metadata: Vec::new() };
        proof {
            assert(r.metadata_view() =~= Seq::<(Seq<char>, Seq<char>)>::empty());
        }
        r
    }

    /// The builder with one more pair collected, replacing the value of
    /// a key already there.
    pub fn with_metadata(self, key: String, value: String) -> (r: ContextBuilder)
        requires
            self.wf(),
        ensures
            r.wf(),
            (exists|i: int|
                0 <= i < self.metadata_view().len() && self.metadata_view()[i].0 == key@)
                ==> exists|i: int|
                0 <= i < self.metadata_view().len() && self.metadata_view()[i].0 == key@
                    && r.metadata_view() == self.metadata_view().update(i, (key@, value@)),
            (forall|i: int|
                0 <= i < self.metadata_view().len() ==> (#[trigger] self.metadata_view()[i]).0
                    != key@) ==> r.metadata_view() == self.metadata_view().push((key@, value@)),
    {
        proof {
            lemma_unique_keys_pairs(self.metadata@);
        }
        let mut metadata = self.metadata;
        insert_pair(&mut metadata, key, value);
        proof {
            lemma_unique_keys_pairs(metadata@);
        }
        ContextBuilder { metadata }
    }

    /// Hands the collected pairs out.
    pub fn build(self) -> (r: Vec<MetadataEntry>)
        ensures
            r@.map_values(|e: MetadataEntry| (e.key@, e.value@)) == self.metadata_view(),
    {
        self.metadata
    }
}

} // verus!
