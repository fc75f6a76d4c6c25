use vstd::prelude::*;
use vstd::string::*;

verus! {

/// `s` without the '/' characters at its start, however many there are.
pub open spec fn strip_leading_slashes(s: Seq<char>) -> Seq<char>
    decreases s.len(),
{
    if s.len() > 0 && s[0] == '/' {
        strip_leading_slashes(s.drop_first())
    } else {
        s
    }
}

/// `s` without the '/' characters at its end, however many there are.
pub open spec fn strip_trailing_slashes(s: Seq<char>) -> Seq<char>
    decreases s.len(),
{
    if s.len() > 0 && s.last() == '/' {
        strip_trailing_slashes(s.drop_last())
    } else {
        s
    }
}

/// A path segment with every leading and every trailing '/' removed.
pub open spec fn trim_slashes(s: Seq<char>) -> Seq<char> {
    strip_trailing_slashes(strip_leading_slashes(s))
}

/// The segments joined with a single '/' between neighbours.
pub open spec fn join_segments(segments: Seq<Seq<char>>) -> Seq<char>
    decreases segments.len(),
{
    if segments.len() == 0 {
        Seq::empty()
    } else if segments.len() == 1 {
        segments[0]
    } else {
        join_segments(segments.drop_last()) + seq!['/'] + segments.last()
    }
}

proof fn lemma_strip_leading_skip(s: Seq<char>, start: int)
    requires
        0 <= start < s.len(),
        s[start] == '/',
    ensures
        strip_leading_slashes(s.skip(start)) == strip_leading_slashes(s.skip(start + 1)),
{
    assert(s.skip(start).drop_first() =~= s.skip(start + 1));
}

proof fn lemma_strip_trailing_take(s: Seq<char>, end: int)
    requires
        0 < end <= s.len(),
        s[end - 1] == '/',
    ensures
        strip_trailing_slashes(s.take(end)) == strip_trailing_slashes(s.take(end - 1)),
{
    assert(s.take(end).drop_last() =~= s.take(end - 1));
}

proof fn lemma_strip_leading_shape(s: Seq<char>)
    ensures
        strip_leading_slashes(s).len() == 0 || strip_leading_slashes(s)[0] != '/',
    decreases s.len(),
{
    if s.len() > 0 && s[0] == '/' {
        lemma_strip_leading_shape(s.drop_first());
    }
}

proof fn lemma_strip_trailing_shape(s: Seq<char>)
    ensures
        strip_trailing_slashes(s).len() <= s.len(),
        strip_trailing_slashes(s) =~= s.take(strip_trailing_slashes(s).len() as int),
        strip_trailing_slashes(s).len() == 0 || strip_trailing_slashes(s).last() != '/',
    decreases s.len(),
{
    if s.len() > 0 && s.last() == '/' {
        let t = s.drop_last();
        lemma_strip_trailing_shape(t);
        let r = strip_trailing_slashes(t);
        assert(t.take(r.len() as int) =~= s.take(r.len() as int));
    }
}

/// Trimming the slashes of a segment a second time changes nothing.
pub proof fn lemma_trim_slashes_idempotent(s: Seq<char>)
    ensures
        trim_slashes(trim_slashes(s)) == trim_slashes(s),
{
    let t = strip_leading_slashes(s);
    let u = strip_trailing_slashes(t);
    lemma_strip_leading_shape(s);
    lemma_strip_trailing_shape(t);
    if u.len() > 0 {
        assert(u[0] == t[0]);
    }
    assert(strip_leading_slashes(u) == u);
    assert(strip_trailing_slashes(u) == u);
}

proof fn lemma_strip_leading_count(s: Seq<char>) -> (k: int)
    ensures
        0 <= k <= s.len(),
        strip_leading_slashes(s) == s.skip(k),
        forall|i: int| 0 <= i < k ==> s[i] == '/',
    decreases s.len(),
{
    if s.len() > 0 && s[0] == '/' {
        let rest = s.drop_first();
        let j = lemma_strip_leading_count(rest);
        assert(rest.skip(j) =~= s.skip(j + 1));
        assert forall|i: int| 0 <= i < j + 1 implies s[i] == '/' by {
            if i > 0 {
                assert(s[i] == rest[i - 1]);
            }
        }
        j + 1
    } else {
        assert(s.skip(0) =~= s);
        0
    }
}

proof fn lemma_strip_trailing_count(s: Seq<char>) -> (m: int)
    ensures
        0 <= m <= s.len(),
        strip_trailing_slashes(s) == s.take(m),
        forall|i: int| m <= i < s.len() ==> s[i] == '/',
    decreases s.len(),
{
    if s.len() > 0 && s.last() == '/' {
        let rest = s.drop_last();
        let j = lemma_strip_trailing_count(rest);
        assert(rest.take(j) =~= s.take(j));
        assert forall|i: int| j <= i < s.len() implies s[i] == '/' by {
            if i < s.len() - 1 {
                assert(s[i] == rest[i]);
            }
        }
        j
    } else {
        assert(s.take(s.len() as int) =~= s);
        s.len() as int
    }
}

/// Trimming removes nothing but slashes: the trimmed segment is a stretch of the original,
/// and everything before and after that stretch is '/'.
pub proof fn lemma_trim_slashes_removes_only_slashes(s: Seq<char>) -> (bounds: (int, int))
    ensures
        0 <= bounds.0 <= bounds.1 <= s.len(),
        trim_slashes(s) == s.subrange(bounds.0, bounds.1),
        forall|i: int| 0 <= i < bounds.0 ==> s[i] == '/',
        forall|i: int| bounds.1 <= i < s.len() ==> s[i] == '/',
{
    let k = lemma_strip_leading_count(s);
    let t = s.skip(k);
    let m = lemma_strip_trailing_count(t);
    assert(t.take(m) =~= s.subrange(k, k + m));
    assert forall|i: int| k + m <= i < s.len() implies s[i] == '/' by {
        assert(t[i - k] == s[i]);
    }
    (k, k + m)
}

/// Whether `s` has no '/' at its start or at its end.
pub open spec fn is_slash_trimmed(s: Seq<char>) -> bool {
    s.len() == 0 || (s[0] != '/' && s.last() != '/')
}

/// The trimmed form of any segment has no slash at either end.
pub proof fn lemma_trim_slashes_trimmed(s: Seq<char>)
    ensures
        is_slash_trimmed(trim_slashes(s)),
{
    let t = strip_leading_slashes(s);
    let u = strip_trailing_slashes(t);
    lemma_strip_leading_shape(s);
    lemma_strip_trailing_shape(t);
    if u.len() > 0 {
        assert(u[0] == t[0]);
    }
}

/// Removes every leading and every trailing '/' of `segment`.
pub fn trim_slashes_exec(segment: &str) -> (trimmed: String)
    ensures
        trimmed@ == trim_slashes(segment@),
{
    let ghost s = segment@;
    let n: usize = segment.unicode_len();
    let mut start: usize = 0;
    assert(s.skip(0) =~= s);
    while start < n && segment.get_char(start) == '/'
        invariant
            n == s.len(),
            s == segment@,
            start <= n,
            strip_leading_slashes(s) == strip_leading_slashes(s.skip(start as int)),
        decreases n - start,
    {
        proof {
            lemma_strip_leading_skip(s, start as int);
        }
        start = start + 1;
    }
    let ghost rest = s.skip(start as int);
    assert(strip_leading_slashes(s) == rest) by {
        if start == n {
            assert(rest.len() == 0);
        } else {
            assert(rest[0] == s[start as int]);
        }
    }
    let mut end: usize = n;
    assert(rest.take(rest.len() as int) =~= rest);
    while end > start && segment.get_char(end - 1) == '/'
        invariant
            n == s.len(),
            s == segment@,
            start <= end <= n,
            rest == s.skip(start as int),
            strip_trailing_slashes(rest) == strip_trailing_slashes(rest.take(end - start)),
        decreases end,
    {
        proof {
            assert(rest[end - start - 1] == s[end - 1]);
            lemma_strip_trailing_take(rest, end - start);
        }
        end = end - 1;
    }
    let ghost kept = rest.take(end - start);
    assert(strip_trailing_slashes(rest) == kept) by {
        if end > start {
            assert(kept.last() == s[end - 1]);
        }
    }
    let piece = segment.substring_char(start, end);
    assert(piece@ =~= kept);
    String::from_str(piece)
}

/// Joins `segments` with a single '/' between neighbours.
pub fn join_segments_exec(segments: &Vec<String>) -> (joined: String)
    ensures
        joined@ == join_segments(segments@.map_values(|seg: String| seg@)),
{
    let ghost views = segments@.map_values(|seg: String| seg@);
    let mut joined = String::new();
    let slash = "/";
    proof {
        reveal_strlit("/");
    }
    let mut i: usize = 0;
    while i < segments.len()
        invariant
            i <= segments.len(),
            views == segments@.map_values(|seg: String| seg@),
            slash@ == seq!['/'],
            joined@ == join_segments(views.take(i as int)),
        decreases segments.len() - i,
    {
        if i != 0 {
            joined.append(slash);
        }
        joined.append(segments[i].as_str());
        assert(views.take(i + 1).drop_last() =~= views.take(i as int));
        assert(views.take(i + 1).last() == segments@[i as int]@);
        i = i + 1;
    }
    assert(views.take(segments.len() as int) =~= views);
    joined
}

/// Joining one more segment onto a non-empty path appends '/' and that segment; onto an
/// empty path it gives the segment alone.
pub proof fn lemma_join_push(path: Seq<Seq<char>>, segment: Seq<char>)
    ensures
        path.len() > 0 ==> join_segments(path.push(segment)) == join_segments(path) + seq!['/']
            + segment,
        path.len() == 0 ==> join_segments(path.push(segment)) == segment,
{
    assert(path.push(segment).drop_last() =~= path);
}

/// A joined non-empty path ends with its last segment.
pub proof fn lemma_join_ends_with_last(path: Seq<Seq<char>>)
    requires
        path.len() > 0,
    ensures
        join_segments(path).len() >= path.last().len(),
        join_segments(path).skip(join_segments(path).len() - path.last().len()) == path.last(),
{
    let joined = join_segments(path);
    if path.len() > 1 {
        let front = join_segments(path.drop_last()) + seq!['/'];
        assert(joined == front + path.last());
        assert((front + path.last()).skip(front.len() as int) =~= path.last());
    } else {
        assert(joined.skip(0) =~= joined);
    }
}

/// The base address of Discord's HTTP API, to which path segments are appended.
pub open spec fn discord_api_base() -> Seq<char> {
    "https://discord.com/api/"@
}

/// A builder of Discord API addresses: a base address and path segments kept without
/// leading or trailing slashes.
pub struct DiscordApiBuilder {
    base_api: String,
    segments: Vec<String>,
}

impl DiscordApiBuilder {
    #[verifier::type_invariant]
    spec fn segments_are_trimmed(self) -> bool {
        forall|i: int| 0 <= i < self.segments@.len() ==> is_slash_trimmed(#[trigger] self.segments@[i]@)
    }

    /// Whether every segment of the path has no '/' at either end.
    pub open spec fn path_is_trimmed(&self) -> bool {
        forall|i: int| 0 <= i < self.path().len() ==> is_slash_trimmed(#[trigger] self.path()[i])
    }

    /// The base address of the builder.
    pub closed spec fn base(&self) -> Seq<char> {
        self.base_api@
    }

    /// The path segments added so far, in order.
    pub closed spec fn path(&self) -> Seq<Seq<char>> {
        self.segments@.map_values(|seg: String| seg@)
    }

    /// The address that `build` produces.
    pub open spec fn url(&self) -> Seq<char> {
        self.base() + join_segments(self.path())
    }

    /// A builder for the Discord API base address with no segments.
    pub fn new() -> (builder: Self)
        ensures
            builder.base() == discord_api_base(),
            builder.base() == "https://discord.com/api/"@,
            builder.path() == Seq::<Seq<char>>::empty(),
            builder.path_is_trimmed(),
    {
        let builder = DiscordApiBuilder {
            base_api: String::from_str("https://discord.com/api/"),
            segments: Vec::new(),
        };
        assert(builder.path() =~= Seq::<Seq<char>>::empty());
        builder
    }

    /// Appends `segment` to the path with its leading and trailing slashes removed.
    pub fn add_segment(self, segment: &str) -> (builder: Self)
        ensures
            builder.base() == self.base(),
            builder.path() == self.path().push(trim_slashes(segment@)),
            builder.path_is_trimmed(),
    {
        proof {
            use_type_invariant(&self);
            lemma_trim_slashes_trimmed(segment@);
        }
        let trimmed = trim_slashes_exec(segment);
        let DiscordApiBuilder { base_api, mut segments } = self;
        segments.push(trimmed);
        let builder = DiscordApiBuilder { base_api, segments };
        assert(builder.path() =~= self.path().push(trim_slashes(segment@)));
        proof {
            use_type_invariant(&builder);
        }
        builder
    }

    /// The base address followed by the segments joined with '/'.
    pub fn build(self) -> (url: String)
        ensures
            url@ == self.url(),
            url@ == self.base() + join_segments(self.path()),
            url@.take(self.base().len() as int) == self.base(),
            self.path().len() > 0 ==> url@.skip(url@.len() - self.path().last().len())
                == self.path().last(),
    {
        proof {
            lemma_url_shape(&self);
        }
        let mut url = self.base_api.clone();
        let path = join_segments_exec(&self.segments);
        url.append(path.as_str());
        url
    }
}

impl From<DiscordApiBuilder> for String {
    /// The address the builder describes, as `build` gives it.
    fn from(value: DiscordApiBuilder) -> (url: String)
        ensures
            url@ == value.url(),
    {
        value.build()
    }
}

impl vstd::std_specs::convert::FromSpecImpl<DiscordApiBuilder> for String {
    /// A `String` is not determined by its characters in the specifications, so the
    /// conversion is described by the `ensures` of `from` rather than by a value here.
    open spec fn obeys_from_spec() -> bool {
        false
    }

    open spec fn from_spec(value: DiscordApiBuilder) -> String {
        choose|url: String| url@ == value.url()
    }
}

/// The `discord` section of the configuration file.
#[derive(Debug, Clone)]
pub struct DiscordConfig {
    pub adapter: DiscordAdapterConfig,
}

/// How the Discord adapter connects: an optional proxy and the bot's token.
#[derive(Debug, Clone)]
pub struct DiscordAdapterConfig {
    pub proxy: Option<String>,
    pub bot_token: String,
}

/// The gateway intent bit for messages in guilds (`1 << 9`).
pub open spec fn guild_messages_intent() -> u64 {
    512
}

/// The gateway intent bit for the content of messages (`1 << 15`).
pub open spec fn message_content_intent() -> u64 {
    32768
}

/// The bits of `twilight_model::gateway::Intents::GUILD_MESSAGES`, which that crate defines
/// as `1 << 9`.
#[verifier::external_body]
fn guild_messages_bits() -> (bits: u64)
    ensures
        bits == guild_messages_intent(),
{
    twilight_model::gateway::Intents::GUILD_MESSAGES.bits()
}

/// The bits of `twilight_model::gateway::Intents::MESSAGE_CONTENT`, which that crate defines
/// as `1 << 15`.
#[verifier::external_body]
fn message_content_bits() -> (bits: u64)
    ensures
        bits == message_content_intent(),
{
    twilight_model::gateway::Intents::MESSAGE_CONTENT.bits()
}

/// The number and the total of `twilight_model::gateway::ShardId::ONE`, which that crate
/// defines as `ShardId::new(0, 1)`: the only shard of a bot that runs one.
#[verifier::external_body]
fn single_shard() -> (shard: (u32, u32))
    ensures
        shard == (0u32, 1u32),
{
    let id = twilight_model::gateway::ShardId::ONE;
    (id.number(), id.total())
}

/// How to open the Discord gateway connection: the token, the intents asked for, an
/// optional proxy, and which shard of how many this connection is.
#[derive(Debug, Clone)]
pub struct Adapter {
    pub bot_token: String,
    pub intents: u64,
    pub proxy_url: Option<String>,
    pub shard_number: u32,
    pub shard_total: u32,
}

impl Adapter {
    /// The gateway settings for `config`: messages in guilds and their content, through
    /// the configured proxy if there is one, as the only shard.
    pub fn new(config: DiscordAdapterConfig) -> (adapter: Self)
        ensures
            adapter.bot_token == config.bot_token,
            adapter.intents == guild_messages_intent() + message_content_intent(),
            adapter.intents == 33280,
            adapter.proxy_url == config.proxy,
            adapter.shard_number == 0,
            adapter.shard_total == 1,
    {
        let guild_messages: u64 = guild_messages_bits();
        let message_content: u64 = message_content_bits();
        assert(guild_messages | message_content == guild_messages + message_content) by (bit_vector)
            requires
                guild_messages == 512u64,
                message_content == 32768u64,
        ;
        let (shard_number, shard_total): (u32, u32) = single_shard();
        Adapter {
            bot_token: config.bot_token,
            intents: guild_messages | message_content,
            proxy_url: config.proxy,
            shard_number,
            shard_total,
        }
    }
}

/// Adding a segment to a builder that already has segments extends its address by '/'
/// and the trimmed segment; adding one to a builder without segments extends it by the
/// trimmed segment alone. Every segment added thus shows in the address, in order.
pub proof fn lemma_url_extends_by_segment(
    before: DiscordApiBuilder,
    after: DiscordApiBuilder,
    segment: Seq<char>,
)
    requires
        after.base() == before.base(),
        after.path() == before.path().push(trim_slashes(segment)),
    ensures
        before.path().len() > 0 ==> after.url() == before.url() + seq!['/'] + trim_slashes(
            segment,
        ),
        before.path().len() == 0 ==> after.url() == before.url() + trim_slashes(segment),
{
    lemma_join_push(before.path(), trim_slashes(segment));
    assert(before.path().len() > 0 ==> after.url() =~= before.url() + seq!['/'] + trim_slashes(
        segment,
    ));
    assert(before.path().len() == 0 ==> after.url() =~= before.url() + trim_slashes(segment));
}

/// The address begins with the base, and when there are segments it ends with the last one
/// added.
pub proof fn lemma_url_shape(builder: &DiscordApiBuilder)
    ensures
        builder.url().take(builder.base().len() as int) == builder.base(),
        builder.path().len() > 0 ==> builder.url().skip(
            builder.url().len() - builder.path().last().len(),
        ) == builder.path().last(),
{
    let base = builder.base();
    let joined = join_segments(builder.path());
    assert((base + joined).take(base.len() as int) =~= base);
    if builder.path().len() > 0 {
        lemma_join_ends_with_last(builder.path());
        let n = builder.path().last().len();
        assert((base + joined).skip((base + joined).len() - n) =~= joined.skip(joined.len() - n));
    }
}

/// Holds the configuration until the adapter is built.
pub struct AdapterBuilder {
    config: DiscordAdapterConfig,
}

impl AdapterBuilder {
    /// The configuration the builder holds.
    pub closed spec fn config(&self) -> DiscordAdapterConfig {
        self.config
    }

    /// A builder for an adapter with this configuration.
    pub fn new(config: DiscordAdapterConfig) -> (builder: Self)
        ensures
            builder.config() == config,
    {
        AdapterBuilder { config }
    }

    /// The adapter for the configuration the builder holds.
    pub fn build(self) -> (adapter: Adapter)
        ensures
            adapter.bot_token == self.config().bot_token,
            adapter.intents == guild_messages_intent() + message_content_intent(),
            adapter.intents == 33280,
            adapter.proxy_url == self.config().proxy,
            adapter.shard_number == 0,
            adapter.shard_total == 1,
    {
        Adapter::new(self.config)
    }
}

} // verus!
