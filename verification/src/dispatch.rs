//! The routes: who may post, where a message goes and what is sent. Each
//! route is a function from the request to the reply and the message to post;
//! posting it is left to the caller.

use vstd::prelude::*;
use vstd::string::*;
use crate::adaptive_card::{rich_card, AdaptiveCardData};
use crate::card_json::card_json;
use crate::buildkite::{build_data_of, BuildData, BuildDataView};
use crate::json::{
    is_plain, json_document, members_view, push_text, rendered, rendered_members, views_of, Json,
    JsonValue, Member,
};
use crate::registry::{
    all_under, derive_whitelist, resolve, resolved, whitelist_of, StartupError,
    TeamsChannelUrl, TeamsChannelUrlView,
};
use crate::snitch::{dms_data_of, DmsData, DmsDataView, SnitchType};
use crate::text::{decimal, decimal_of, join, last_segment, last_segment_of, str_eq};

verus! {

/// A message of plain text.
#[derive(Debug, PartialEq, Eq)]
pub struct PostData {
    pub text: String,
}

/// A message of plain text, as a sequence of characters.
pub struct PostDataView {
    pub text: Seq<char>,
}

impl View for PostData {
    type V = PostDataView;

    open spec fn view(&self) -> PostDataView {
        PostDataView { text: self.text@ }
    }
}

/// The plain message that the JSON value `v` holds: an object with the
/// string `text`. Members beyond it are passed over.
pub open spec fn post_data_of(v: Json) -> Option<PostDataView> {
    match v.text_member("text"@) {
        Some(text) => Some(PostDataView { text }),
        None => None,
    }
}

/// The JSON of a plain message.
pub open spec fn post_json(p: PostDataView) -> Json {
    Json::Object(seq![("text"@, Json::Text(p.text))])
}

/// A plain message whose text holds nothing to escape is written as the
/// text between `{"text":"` and `"}`.
pub proof fn lemma_plain_post_body(text: Seq<char>)
    requires
        is_plain(text),
    ensures
        rendered(post_json(PostDataView { text })) == "{\"text\":\""@ + text + "\"}"@,
{
    reveal_strlit("text");
    reveal_strlit("{");
    reveal_strlit("}");
    reveal_strlit(":");
    reveal_strlit("{\"text\":\"");
    reveal_strlit("\"}");
    reveal_with_fuel(rendered_members, 2);
    let fields = seq![("text"@, Json::Text(text))];
    assert(is_plain("text"@));
    assert(rendered_members(fields, 1) =~= seq!['"', 't', 'e', 'x', 't', '"', ':', '"'] + text
        + seq!['"']);
    assert(rendered(post_json(PostDataView { text })) =~= "{\"text\":\""@ + text + "\"}"@);
}

impl PostData {
    /// Reads a plain message out of a JSON value.
    pub fn from_json(v: &JsonValue) -> (read: Option<PostData>)
        ensures
            read is Some <==> post_data_of(v@) is Some,
            read matches Some(p) ==> Some(p@) == post_data_of(v@),
    {
        match v.get_text("text") {
            Some(text) => Some(PostData { text: String::from_str(text) }),
            None => None,
        }
    }

    /// The message as JSON.
    pub fn to_json(&self) -> (json: JsonValue)
        ensures
            json@ == post_json(self@),
    {
        let mut fields: Vec<Member> = Vec::new();
        assert(members_view(fields@) =~= Seq::empty());
        push_text(&mut fields, "text", self.text.as_str());
        assert(members_view(fields@) =~= seq![("text"@, Json::Text(self.text@))]);
        JsonValue::Object(fields)
    }
}

/// What can arrive on the routes that take more than one shape.
#[derive(Debug, PartialEq, Eq)]
pub enum WebhookData {
    /// A build event.
    TypeA(BuildData),
    /// A plain message.
    TypeB(PostData),
}

/// What can arrive, as plain values.
pub enum WebhookDataView {
    TypeA(BuildDataView),
    TypeB(PostDataView),
}

impl View for WebhookData {
    type V = WebhookDataView;

    open spec fn view(&self) -> WebhookDataView {
        match self {
            WebhookData::TypeA(b) => WebhookDataView::TypeA(b@),
            WebhookData::TypeB(p) => WebhookDataView::TypeB(p@),
        }
    }
}

/// Why a payload was not taken.
#[derive(Debug, Clone, Copy, PartialEq, Eq, Structural)]
pub enum ClassifyError {
    /// The payload has none of the known shapes.
    UnrecognizedShape,
}

/// The shape of the JSON value `v`: a build event where it holds one; if
/// not, a plain message where it holds one; `None` where it holds neither.
pub open spec fn classified(v: Json) -> Option<WebhookDataView> {
    match build_data_of(v) {
        Some(b) => Some(WebhookDataView::TypeA(b)),
        None => match post_data_of(v) {
            Some(p) => Some(WebhookDataView::TypeB(p)),
            None => None,
        },
    }
}

/// Tells the shape of a payload: the build event is tried first, the plain
/// message second, and the first that fits is taken.
pub fn classify(v: &JsonValue) -> (shape: Result<WebhookData, ClassifyError>)
    ensures
        shape is Ok <==> classified(v@) is Some,
        shape matches Ok(d) ==> Some(d@) == classified(v@),
        shape matches Err(e) ==> e == ClassifyError::UnrecognizedShape,
{
    match BuildData::from_json(v) {
        Some(b) => Ok(WebhookData::TypeA(b)),
        None => match PostData::from_json(v) {
            Some(p) => Ok(WebhookData::TypeB(p)),
            None => Err(ClassifyError::UnrecognizedShape),
        },
    }
}

/// A payload that holds a build event is a build event, whatever else it
/// holds: a `text` member beside it does not make it a plain message.
pub proof fn lemma_build_event_first(v: Json)
    requires
        build_data_of(v) is Some,
    ensures
        classified(v) == Some(WebhookDataView::TypeA(build_data_of(v).unwrap())),
{
}

/// The anchor that names a snitch and links to its page.
pub open spec fn snitch_link(token: Seq<char>, name: Seq<char>) -> Seq<char> {
    "<a href=\"https://deadmanssnitch.com/snitches/"@ + token + ",\">"@ + name + "</a> "@
}

/// The text that a snitch event is reported as: a glyph for what happened,
/// the link to the snitch, and what happened in words.
pub open spec fn dms_text(d: DmsDataView) -> Seq<char> {
    let link = snitch_link(d.data.snitch.token, d.data.snitch.name);
    match d.snitch_type {
        SnitchType::Missing => "? "@ + link + " is missing"@,
        SnitchType::Reporting => "\u{2713} "@ + link + " is reporting."@,
        SnitchType::Paused => "P "@ + link + " is paused."@,
    }
}

/// The plain message for a snitch event.
pub fn build_dms_post_data(data_object: DmsData) -> (post: PostData)
    ensures
        post@.text == dms_text(data_object@),
{
    let mut link = join(
        "<a href=\"https://deadmanssnitch.com/snitches/",
        data_object.data.snitch.token.as_str(),
    );
    link.append(",\">");
    link.append(data_object.data.snitch.name.as_str());
    link.append("</a> ");
    let text = match data_object.snitch_type {
        SnitchType::Missing => {
            let mut text = join("? ", link.as_str());
            text.append(" is missing");
            text
        },
        SnitchType::Reporting => {
            let mut text = join("\u{2713} ", link.as_str());
            text.append(" is reporting.");
            text
        },
        SnitchType::Paused => {
            let mut text = join("P ", link.as_str());
            text.append(" is paused.");
            text
        },
    };
    PostData { text }
}

/// What every request is handled with: the channels, the whitelist of path
/// suffixes derived from them, the prefix of the destination URLs and the
/// key that callers must show.
#[derive(Debug, Clone, PartialEq, Eq)]
pub struct AppState {
    pub whitelist: Vec<String>,
    pub channels: Vec<TeamsChannelUrl>,
    pub base_url: String,
    pub api_key: String,
}

/// The state as plain values.
pub struct AppStateView {
    pub whitelist: Seq<Seq<char>>,
    pub channels: Seq<TeamsChannelUrlView>,
    pub base_url: Seq<char>,
    pub api_key: Seq<char>,
}

impl View for AppState {
    type V = AppStateView;

    open spec fn view(&self) -> AppStateView {
        AppStateView {
            whitelist: views_of(self.whitelist@),
            channels: views_of(self.channels@),
            base_url: self.base_url@,
            api_key: self.api_key@,
        }
    }
}

impl AppStateView {
    /// Every URL begins with the base prefix, and the whitelist holds, for
    /// each channel in turn, what follows the prefix in its URL.
    pub open spec fn wf(self) -> bool {
        &&& all_under(self.channels, self.base_url)
        &&& self.whitelist == whitelist_of(self.channels, self.base_url.len())
    }
}

/// Sets the state up from the channels: derives the whitelist under
/// `base_url`, and fails where a URL does not begin with it.
pub fn build_app_state(channels: Vec<TeamsChannelUrl>, base_url: String, api_key: String) -> (state:
    Result<AppState, StartupError>)
    ensures
        state is Ok <==> all_under(views_of(channels@), base_url@),
        state matches Ok(s) ==> s@.wf() && s@.channels == views_of(channels@) && s@.base_url
            == base_url@ && s@.api_key == api_key@,
        state matches Err(e) ==> e == StartupError::ForeignUrl,
{
    match derive_whitelist(channels.as_slice(), base_url.as_str()) {
        Ok(whitelist) => Ok(AppState { whitelist, channels, base_url, api_key }),
        Err(e) => Err(e),
    }
}

/// The whitelist has one entry for each channel, and each entry leads back
/// to its channel: the base prefix followed by the entry is that channel's
/// URL.
pub proof fn lemma_whitelist_matches_channels(state: AppStateView)
    requires
        state.wf(),
    ensures
        state.whitelist.len() == state.channels.len(),
        forall|i: int|
            0 <= i < state.whitelist.len() ==> state.base_url + (#[trigger] state.whitelist[i])
                == state.channels[i].url,
{
    assert forall|i: int| 0 <= i < state.whitelist.len() implies state.base_url + (
    #[trigger] state.whitelist[i]) == state.channels[i].url by {
        assert(crate::text::has_prefix(state.channels[i].url, state.base_url));
        assert(state.base_url + state.whitelist[i] =~= state.channels[i].url);
    }
}

/// A path that the whitelist of a well-formed state holds leads to a channel:
/// the base prefix followed by the path is the URL of one of the channels.
pub proof fn lemma_whitelisted_path_is_a_channel(state: AppStateView, path: Seq<char>)
    requires
        state.wf(),
        state.whitelist.contains(path),
    ensures
        exists|i: int|
            0 <= i < state.channels.len() && (#[trigger] state.channels[i]).url == state.base_url
                + path,
{
    lemma_whitelist_matches_channels(state);
    let i = choose|i: int| 0 <= i < state.whitelist.len() && state.whitelist[i] == path;
    assert(state.channels[i].url == state.base_url + path);
}

/// The query parameters of a request.
#[derive(Debug, Clone, PartialEq, Eq)]
pub struct QueryParams {
    pub api_key: Option<String>,
    pub channel: Option<String>,
}

/// The query parameters of a request, as plain sequences of characters.
pub struct QueryParamsView {
    pub api_key: Option<Seq<char>>,
    pub channel: Option<Seq<char>>,
}

impl View for QueryParams {
    type V = QueryParamsView;

    open spec fn view(&self) -> QueryParamsView {
        QueryParamsView {
            api_key: match self.api_key {
                Some(s) => Some(s@),
                None => None,
            },
            channel: match self.channel {
                Some(s) => Some(s@),
                None => None,
            },
        }
    }
}

/// The value of a query parameter, or `none` where the request has none.
pub open spec fn or_none(param: Option<Seq<char>>) -> Seq<char> {
    match param {
        Some(s) => s,
        None => "none"@,
    }
}

/// The reply to the caller: a status code and a body.
#[derive(Debug, PartialEq, Eq)]
pub struct Reply {
    pub status: u16,
    pub body: String,
}

/// The message to post: the URL of the destination and the JSON text of the
/// body.
#[derive(Debug, PartialEq, Eq)]
pub struct Outbound {
    pub url: String,
    pub body: String,
}

/// What a route makes of a request: the reply; the message to post, if there
/// is one; and, where the message was meant for a channel that is not known,
/// the name that no channel has. In that case there is nothing to post: the
/// delivery has failed, and the name is there to be reported.
#[derive(Debug, PartialEq, Eq)]
pub struct Handled {
    pub reply: Reply,
    pub outbound: Option<Outbound>,
    pub channel_not_found: Option<String>,
}

/// The message to post, as plain values.
pub struct OutboundView {
    pub url: Seq<char>,
    pub body: Seq<char>,
}

/// What a route makes of a request, as plain values.
pub struct HandledView {
    pub status: u16,
    pub body: Seq<char>,
    pub outbound: Option<OutboundView>,
    pub channel_not_found: Option<Seq<char>>,
}

impl View for Outbound {
    type V = OutboundView;

    open spec fn view(&self) -> OutboundView {
        OutboundView { url: self.url@, body: self.body@ }
    }
}

impl View for Handled {
    type V = HandledView;

    open spec fn view(&self) -> HandledView {
        HandledView {
            status: self.reply.status,
            body: self.reply.body@,
            outbound: match self.outbound {
                Some(o) => Some(o@),
                None => None,
            },
            channel_not_found: match self.channel_not_found {
                Some(name) => Some(name@),
                None => None,
            },
        }
    }
}

/// The request was taken.
pub const STATUS_OK: u16 = 200;

/// The payload is not one that the route takes.
pub const STATUS_BAD_REQUEST: u16 = 400;

/// The caller did not show the right key.
pub const STATUS_FORBIDDEN: u16 = 403;

/// The reply to a request that was taken, with or without a message to post.
pub open spec fn processed(outbound: Option<OutboundView>) -> HandledView {
    HandledView {
        status: STATUS_OK,
        body: "Webhook processed\n"@,
        outbound,
        channel_not_found: None,
    }
}

/// The reply to a request that was taken for a channel that is not known:
/// the caller hears that the request was taken, nothing is posted, and the
/// name is kept as the failed delivery.
pub open spec fn undeliverable(name: Seq<char>) -> HandledView {
    HandledView {
        status: STATUS_OK,
        body: "Webhook processed\n"@,
        outbound: None,
        channel_not_found: Some(name),
    }
}

/// The reply that turns a request away: nothing is posted.
pub open spec fn turned_away(status: u16, body: Seq<char>) -> HandledView {
    HandledView { status, body, outbound: None, channel_not_found: None }
}

/// The message for the channel named `name`: to its URL where the channel is
/// known, and no message where it is not.
pub open spec fn to_channel(
    channels: Seq<TeamsChannelUrlView>,
    name: Seq<char>,
    body: Seq<char>,
) -> Option<OutboundView> {
    match resolved(channels, name) {
        Some(url) => Some(OutboundView { url, body }),
        None => None,
    }
}

/// What becomes of a message for the channel named `name`: it is posted to
/// the channel's URL where the channel is known, and it is undeliverable
/// where it is not.
pub open spec fn sent_to_channel(
    channels: Seq<TeamsChannelUrlView>,
    name: Seq<char>,
    body: Seq<char>,
) -> HandledView {
    match to_channel(channels, name, body) {
        Some(outbound) => processed(Some(outbound)),
        None => undeliverable(name),
    }
}

/// The JSON text that a payload is posted as: the rich card for a build
/// event, the text itself for a plain message.
pub open spec fn body_of(data: WebhookDataView) -> Seq<char> {
    match data {
        WebhookDataView::TypeA(b) => rendered(card_json(rich_card(b))),
        WebhookDataView::TypeB(p) => rendered(post_json(p)),
    }
}

/// What the key-gated route makes of a payload. A wrong key is turned away
/// before anything else is looked at; with the right key a build event goes
/// to the channel named in the query as a rich card, and any other payload
/// is turned away.
pub open spec fn webhook_outcome(
    state: AppStateView,
    key: Seq<char>,
    channel: Seq<char>,
    data: WebhookDataView,
) -> HandledView {
    if key != state.api_key {
        turned_away(STATUS_FORBIDDEN, "API Key Mismatch\n"@)
    } else {
        match data {
            WebhookDataView::TypeA(b) => sent_to_channel(
                state.channels,
                channel,
                rendered(card_json(rich_card(b))),
            ),
            WebhookDataView::TypeB(_) => turned_away(
                STATUS_BAD_REQUEST,
                "Invalid unsupported data type."@,
            ),
        }
    }
}

/// What the path-whitelisted route makes of a payload. The request is taken
/// either way; the payload is posted, to the base prefix followed by the
/// path, only where the whitelist holds the path.
pub open spec fn webhookb2_outcome(
    state: AppStateView,
    path: Seq<char>,
    data: WebhookDataView,
) -> HandledView {
    if state.whitelist.contains(path) {
        processed(Some(OutboundView { url: state.base_url + path, body: body_of(data) }))
    } else {
        processed(None)
    }
}

/// What the snitch route makes of an event. A wrong key is turned away; with
/// the right key the event goes, as plain text, to the channel named by the
/// last segment of the path.
pub open spec fn dms_outcome(
    state: AppStateView,
    key: Seq<char>,
    path: Seq<char>,
    data: DmsDataView,
) -> HandledView {
    if key != state.api_key {
        turned_away(STATUS_FORBIDDEN, "API Key mismatch\n"@)
    } else {
        sent_to_channel(
            state.channels,
            last_segment_of(path),
            rendered(post_json(PostDataView { text: dms_text(data) })),
        )
    }
}

/// The reply to a request that was taken.
fn reply_processed(outbound: Option<Outbound>) -> (handled: Handled)
    ensures
        handled@ == processed(
            match outbound {
                Some(o) => Some(o@),
                None => None,
            },
        ),
{
    Handled {
        reply: Reply { status: STATUS_OK, body: String::from_str("Webhook processed\n") },
        outbound,
        channel_not_found: None,
    }
}

/// The reply that turns a request away.
fn reply_turned_away(status: u16, body: &str) -> (handled: Handled)
    ensures
        handled@ == turned_away(status, body@),
{
    Handled {
        reply: Reply { status, body: String::from_str(body) },
        outbound: None,
        channel_not_found: None,
    }
}

/// Addresses a message to the channel named `name`.
fn send_to_channel(channels: &Vec<TeamsChannelUrl>, name: &str, body: String) -> (handled: Handled)
    ensures
        handled@ == sent_to_channel(views_of(channels@), name@, body@),
{
    match resolve(channels.as_slice(), name) {
        Some(url) => reply_processed(Some(Outbound { url: String::from_str(url), body })),
        None => Handled {
            reply: Reply { status: STATUS_OK, body: String::from_str("Webhook processed\n") },
            outbound: None,
            channel_not_found: Some(String::from_str(name)),
        },
    }
}

/// The JSON text that a payload is posted as.
pub fn outbound_body(data: WebhookData) -> (body: String)
    ensures
        body@ == body_of(data@),
{
    match data {
        WebhookData::TypeA(build_data) => {
            let card = AdaptiveCardData::from(build_data);
            card.to_json().to_text()
        },
        WebhookData::TypeB(post_data) => post_data.to_json().to_text(),
    }
}

/// The model of a parameter that may be missing.
pub open spec fn param_view(param: Option<String>) -> Option<Seq<char>> {
    match param {
        Some(s) => Some(s@),
        None => None,
    }
}

/// The value of a query parameter, or `none` where the request has none.
fn param_or_none(param: Option<String>) -> (value: String)
    ensures
        value@ == or_none(param_view(param)),
{
    match param {
        Some(s) => s,
        None => String::from_str("none"),
    }
}

/// Whether the key that a request shows, or `none` where it shows none, is
/// the key of the state.
fn key_matches(shown: &Option<String>, state: &AppState) -> (right: bool)
    ensures
        right == (or_none(param_view(*shown)) == state.api_key@),
{
    match shown {
        Some(key) => str_eq(key.as_str(), state.api_key.as_str()),
        None => str_eq("none", state.api_key.as_str()),
    }
}

/// Whether `list` holds `item`.
fn holds(list: &Vec<String>, item: &str) -> (found: bool)
    ensures
        found == views_of(list@).contains(item@),
{
    let mut i: usize = 0;
    while i < list.len()
        invariant
            i <= list.len(),
            forall|j: int| 0 <= j < i ==> views_of(list@)[j] != item@,
        decreases list.len() - i,
    {
        if str_eq(list[i].as_str(), item) {
            assert(views_of(list@)[i as int] == item@);
            return true;
        }
        i = i + 1;
    }
    false
}

/// The key-gated route, for a payload that has been read.
pub fn handle_webhook(params: QueryParams, state: &AppState, data: WebhookData) -> (handled: Handled)
    ensures
        handled@ == webhook_outcome(
            state@,
            or_none(params@.api_key),
            or_none(params@.channel),
            data@,
        ),
        or_none(params@.api_key) != state.api_key@ ==> handled@ == turned_away(
            STATUS_FORBIDDEN,
            "API Key Mismatch\n"@,
        ),
        or_none(params@.api_key) == state.api_key@ && data is TypeA && resolved(
            state@.channels,
            or_none(params@.channel),
        ) is None ==> handled@.outbound is None && handled@.channel_not_found == Some(
            or_none(params@.channel),
        ),
{
    let right = key_matches(&params.api_key, state);
    let chan = param_or_none(params.channel);
    if right {
        match data {
            WebhookData::TypeA(build_data) => {
                let body = outbound_body(WebhookData::TypeA(build_data));
                send_to_channel(&state.channels, chan.as_str(), body)
            },
            WebhookData::TypeB(_) => reply_turned_away(
                STATUS_BAD_REQUEST,
                "Invalid unsupported data type.",
            ),
        }
    } else {
        reply_turned_away(STATUS_FORBIDDEN, "API Key Mismatch\n")
    }
}

/// The path-whitelisted route, for a payload that has been read.
pub fn handle_webhookb2(state: &AppState, webhook_path: String, data: WebhookData) -> (handled:
    Handled)
    ensures
        handled@ == webhookb2_outcome(state@, webhook_path@, data@),
        handled@.status == STATUS_OK,
        !state@.whitelist.contains(webhook_path@) ==> handled@ == processed(None),
{
    if holds(&state.whitelist, webhook_path.as_str()) {
        let url = join(state.base_url.as_str(), webhook_path.as_str());
        let body = outbound_body(data);
        reply_processed(Some(Outbound { url, body }))
    } else {
        reply_processed(None)
    }
}

/// The snitch route, for an event that has been read.
pub fn handle_webhook_dms(
    state: &AppState,
    params: QueryParams,
    webhook_path: String,
    data: DmsData,
) -> (handled: Handled)
    ensures
        handled@ == dms_outcome(state@, or_none(params@.api_key), webhook_path@, data@),
        or_none(params@.api_key) != state.api_key@ ==> handled@ == turned_away(
            STATUS_FORBIDDEN,
            "API Key mismatch\n"@,
        ),
        or_none(params@.api_key) == state.api_key@ && resolved(
            state@.channels,
            last_segment_of(webhook_path@),
        ) is None ==> handled@.outbound is None && handled@.channel_not_found == Some(
            last_segment_of(webhook_path@),
        ),
{
    if key_matches(&params.api_key, state) {
        let ghost d = data@;
        let post_data = build_dms_post_data(data);
        assert(post_data@ == (PostDataView { text: dms_text(d) }));
        let channel = last_segment(webhook_path.as_str());
        let body = post_data.to_json().to_text();
        send_to_channel(&state.channels, channel.as_str(), body)
    } else {
        reply_turned_away(STATUS_FORBIDDEN, "API Key mismatch\n")
    }
}

/// With a key other than the configured one, both key-gated routes turn the
/// request away as forbidden and post nothing, whatever the payload, the
/// channel and the path.
pub proof fn lemma_wrong_key_posts_nothing(
    state: AppStateView,
    key: Seq<char>,
    channel: Seq<char>,
    path: Seq<char>,
    data: WebhookDataView,
    event: DmsDataView,
)
    requires
        key != state.api_key,
    ensures
        webhook_outcome(state, key, channel, data).status == STATUS_FORBIDDEN,
        webhook_outcome(state, key, channel, data).outbound is None,
        dms_outcome(state, key, path, event).status == STATUS_FORBIDDEN,
        dms_outcome(state, key, path, event).outbound is None,
{
}

/// A message for a channel that is not known is never posted: with the right
/// key, a build event for a name that no channel has, and a snitch event on
/// a path whose last segment no channel is named by, leave nothing to post
/// and the name as the failed delivery. No URL is made up for it.
pub proof fn lemma_unknown_channel_posts_nothing(
    state: AppStateView,
    channel: Seq<char>,
    path: Seq<char>,
    build: BuildDataView,
    event: DmsDataView,
)
    ensures
        resolved(state.channels, channel) is None ==> webhook_outcome(
            state,
            state.api_key,
            channel,
            WebhookDataView::TypeA(build),
        ) == undeliverable(channel),
        resolved(state.channels, last_segment_of(path)) is None ==> dms_outcome(
            state,
            state.api_key,
            path,
            event,
        ) == undeliverable(last_segment_of(path)),
        undeliverable(channel).outbound is None,
        undeliverable(channel).channel_not_found == Some(channel),
{
}

/// A message is posted only to the URL of a channel or, on the whitelisted
/// route, to the base prefix followed by a whitelisted path.
pub proof fn lemma_posts_go_to_known_destinations(
    state: AppStateView,
    key: Seq<char>,
    channel: Seq<char>,
    path: Seq<char>,
    data: WebhookDataView,
    event: DmsDataView,
)
    ensures
        webhook_outcome(state, key, channel, data).outbound matches Some(o) ==> resolved(
            state.channels,
            channel,
        ) == Some(o.url),
        dms_outcome(state, key, path, event).outbound matches Some(o) ==> resolved(
            state.channels,
            last_segment_of(path),
        ) == Some(o.url),
        webhookb2_outcome(state, path, data).outbound matches Some(o) ==> state.whitelist.contains(
            path,
        ) && o.url == state.base_url + path,
{
}

/// The answer to a health check.
#[derive(Debug, PartialEq, Eq)]
pub struct HealthCheckResponse {
    pub status: String,
    pub url_count: String,
}

/// The answer to a health check, as plain sequences of characters.
pub struct HealthCheckResponseView {
    pub status: Seq<char>,
    pub url_count: Seq<char>,
}

impl View for HealthCheckResponse {
    type V = HealthCheckResponseView;

    open spec fn view(&self) -> HealthCheckResponseView {
        HealthCheckResponseView { status: self.status@, url_count: self.url_count@ }
    }
}

/// The answer to a health check of a state: always a success, with the
/// number of whitelist entries as a decimal numeral.
pub open spec fn health_of(state: AppStateView) -> HealthCheckResponseView {
    HealthCheckResponseView { status: "success"@, url_count: decimal_of(state.whitelist.len()) }
}

/// The JSON of the answer to a health check.
pub open spec fn health_json(h: HealthCheckResponseView) -> Json {
    Json::Object(seq![("status"@, Json::Text(h.status)), ("url_count"@, Json::Text(h.url_count))])
}

/// The health check.
pub fn handle_health_check(state: &AppState) -> (health: HealthCheckResponse)
    ensures
        health@ == health_of(state@),
        health@.status == "success"@,
        health@.url_count == decimal_of(state.whitelist@.len()),
{
    HealthCheckResponse {
        status: String::from_str("success"),
        url_count: decimal(state.whitelist.len()),
    }
}

impl HealthCheckResponse {
    /// The answer as JSON.
    pub fn to_json(&self) -> (json: JsonValue)
        ensures
            json@ == health_json(self@),
    {
        let mut fields: Vec<Member> = Vec::new();
        assert(members_view(fields@) =~= Seq::empty());
        push_text(&mut fields, "status", self.status.as_str());
        push_text(&mut fields, "url_count", self.url_count.as_str());
        assert(members_view(fields@) =~= health_json(self@)->Object_0);
        JsonValue::Object(fields)
    }
}

/// The payload that the text `body` holds: the shape of the JSON document
/// that it parses to. `None` where it is no JSON document or has none of the
/// known shapes.
pub open spec fn payload_of(body: Seq<char>) -> Option<WebhookDataView> {
    match json_document(body) {
        Some(v) => classified(v),
        None => None,
    }
}

/// The snitch event that the text `body` holds. `None` where it is no JSON
/// document, or one with a member missing or a type tag that is not known.
pub open spec fn snitch_event_of(body: Seq<char>) -> Option<DmsDataView> {
    match json_document(body) {
        Some(v) => dms_data_of(v),
        None => None,
    }
}

/// The reply to a body that holds nothing that the route takes: nothing is
/// posted.
pub open spec fn unrecognized() -> HandledView {
    turned_away(STATUS_BAD_REQUEST, "Unrecognized payload.\n"@)
}

/// What the key-gated route makes of a request, from the body as it arrived.
/// The key comes first: a wrong key is turned away whatever the body holds.
/// With the right key, a body that holds no known payload is turned away as
/// unrecognized, and any other goes the way of `webhook_outcome`.
pub open spec fn webhook_reply(
    state: AppStateView,
    key: Seq<char>,
    channel: Seq<char>,
    body: Seq<char>,
) -> HandledView {
    if key != state.api_key {
        turned_away(STATUS_FORBIDDEN, "API Key Mismatch\n"@)
    } else {
        match payload_of(body) {
            Some(data) => webhook_outcome(state, key, channel, data),
            None => unrecognized(),
        }
    }
}

/// What the path-whitelisted route makes of a request, from the body as it
/// arrived. The path comes first: on a path that the whitelist does not hold
/// the request is taken and skipped whatever the body holds. On a
/// whitelisted path, a body that holds no known payload is turned away as
/// unrecognized, and any other goes the way of `webhookb2_outcome`.
pub open spec fn webhookb2_reply(state: AppStateView, path: Seq<char>, body: Seq<char>) -> HandledView {
    if !state.whitelist.contains(path) {
        processed(None)
    } else {
        match payload_of(body) {
            Some(data) => webhookb2_outcome(state, path, data),
            None => unrecognized(),
        }
    }
}

/// What the snitch route makes of a request, from the body as it arrived.
/// The key comes first: a wrong key is turned away whatever the body holds.
/// With the right key, a body that holds no snitch event is turned away as
/// unrecognized, and any other goes the way of `dms_outcome`.
pub open spec fn dms_reply(
    state: AppStateView,
    key: Seq<char>,
    path: Seq<char>,
    body: Seq<char>,
) -> HandledView {
    if key != state.api_key {
        turned_away(STATUS_FORBIDDEN, "API Key mismatch\n"@)
    } else {
        match snitch_event_of(body) {
            Some(data) => dms_outcome(state, key, path, data),
            None => unrecognized(),
        }
    }
}

/// Parses a body and tells the shape of the payload.
pub fn classify_text(body: &str) -> (shape: Result<WebhookData, ClassifyError>)
    ensures
        shape is Ok <==> payload_of(body@) is Some,
        shape matches Ok(d) ==> Some(d@) == payload_of(body@),
        shape matches Err(e) ==> e == ClassifyError::UnrecognizedShape,
{
    match JsonValue::parse(body) {
        Some(v) => classify(&v),
        None => Err(ClassifyError::UnrecognizedShape),
    }
}

/// Parses a body as a snitch event.
pub fn snitch_event(body: &str) -> (event: Result<DmsData, ClassifyError>)
    ensures
        event is Ok <==> snitch_event_of(body@) is Some,
        event matches Ok(d) ==> Some(d@) == snitch_event_of(body@),
        event matches Err(e) ==> e == ClassifyError::UnrecognizedShape,
{
    match JsonValue::parse(body) {
        Some(v) => match DmsData::from_json(&v) {
            Some(d) => Ok(d),
            None => Err(ClassifyError::UnrecognizedShape),
        },
        None => Err(ClassifyError::UnrecognizedShape),
    }
}

/// The key-gated route, from the body as it arrived.
pub fn receive_webhook(params: QueryParams, state: &AppState, body: &str) -> (handled: Handled)
    ensures
        handled@ == webhook_reply(
            state@,
            or_none(params@.api_key),
            or_none(params@.channel),
            body@,
        ),
        or_none(params@.api_key) != state.api_key@ ==> handled@ == turned_away(
            STATUS_FORBIDDEN,
            "API Key Mismatch\n"@,
        ),
{
    if !key_matches(&params.api_key, state) {
        reply_turned_away(STATUS_FORBIDDEN, "API Key Mismatch\n")
    } else {
        match classify_text(body) {
            Ok(data) => handle_webhook(params, state, data),
            Err(_) => reply_turned_away(STATUS_BAD_REQUEST, "Unrecognized payload.\n"),
        }
    }
}

/// The path-whitelisted route, from the body as it arrived.
pub fn receive_webhookb2(state: &AppState, webhook_path: String, body: &str) -> (handled: Handled)
    ensures
        handled@ == webhookb2_reply(state@, webhook_path@, body@),
        !state@.whitelist.contains(webhook_path@) ==> handled@ == processed(None),
{
    if !holds(&state.whitelist, webhook_path.as_str()) {
        reply_processed(None)
    } else {
        match classify_text(body) {
            Ok(data) => handle_webhookb2(state, webhook_path, data),
            Err(_) => reply_turned_away(STATUS_BAD_REQUEST, "Unrecognized payload.\n"),
        }
    }
}

/// The snitch route, from the body as it arrived.
pub fn receive_webhook_dms(
    state: &AppState,
    params: QueryParams,
    webhook_path: String,
    body: &str,
) -> (handled: Handled)
    ensures
        handled@ == dms_reply(state@, or_none(params@.api_key), webhook_path@, body@),
        or_none(params@.api_key) != state.api_key@ ==> handled@ == turned_away(
            STATUS_FORBIDDEN,
            "API Key mismatch\n"@,
        ),
{
    if !key_matches(&params.api_key, state) {
        reply_turned_away(STATUS_FORBIDDEN, "API Key mismatch\n")
    } else {
        match snitch_event(body) {
            Ok(data) => handle_webhook_dms(state, params, webhook_path, data),
            Err(_) => reply_turned_away(STATUS_BAD_REQUEST, "Unrecognized payload.\n"),
        }
    }
}

/// On each route, from the body as it arrived, who may post is settled
/// before the body is looked at: a wrong key is forbidden on both key-gated
/// routes, and a path outside the whitelist is taken and skipped, whatever
/// the body holds; and nothing is posted in either case.
pub proof fn lemma_authorization_comes_first(
    state: AppStateView,
    key: Seq<char>,
    channel: Seq<char>,
    path: Seq<char>,
    body: Seq<char>,
)
    ensures
        key != state.api_key ==> webhook_reply(state, key, channel, body) == turned_away(
            STATUS_FORBIDDEN,
            "API Key Mismatch\n"@,
        ),
        key != state.api_key ==> dms_reply(state, key, path, body) == turned_away(
            STATUS_FORBIDDEN,
            "API Key mismatch\n"@,
        ),
        !state.whitelist.contains(path) ==> webhookb2_reply(state, path, body) == processed(None),
        turned_away(STATUS_FORBIDDEN, "API Key Mismatch\n"@).outbound is None,
        turned_away(STATUS_FORBIDDEN, "API Key mismatch\n"@).outbound is None,
        processed(None).outbound is None,
{
}

} // verus!
