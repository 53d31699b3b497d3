//! The channels that messages can go to: each a name and a destination URL,
//! read once from a JSON object, and the whitelist of path suffixes that is
//! derived from the URLs.

use vstd::prelude::*;
use vstd::string::*;
use crate::json::{members_view, views_of, Json, JsonValue};
use crate::text::{after, has_prefix, str_eq, strip_prefix};

verus! {

/// The prefix that every destination URL begins with.
pub const BASE_URL: &'static str = "https://<yoursite>.webhook.office.com/webhookb2/";

/// A channel: its logical name and the URL that its messages are posted to.
#[derive(Debug, Clone, PartialEq, Eq)]
pub struct TeamsChannelUrl {
    pub name: String,
    pub url: String,
}

/// A channel as plain sequences of characters.
pub struct TeamsChannelUrlView {
    pub name: Seq<char>,
    pub url: Seq<char>,
}

impl View for TeamsChannelUrl {
    type V = TeamsChannelUrlView;

    open spec fn view(&self) -> TeamsChannelUrlView {
        TeamsChannelUrlView { name: self.name@, url: self.url@ }
    }
}

/// Why the registry could not be set up.
#[derive(Debug, Clone, Copy, PartialEq, Eq, Structural)]
pub enum StartupError {
    /// The secret is not a JSON object of distinct names, each with a string.
    /// From the text of a secret a name never comes twice: the parser keeps
    /// the last of two members with one key, so only a value built by hand
    /// is refused for that.
    MalformedSecret,
    /// A destination URL does not begin with the base prefix.
    ForeignUrl,
}

/// The URL of the first channel of `channels` that is named `name`, letter
/// for letter.
pub open spec fn resolved(channels: Seq<TeamsChannelUrlView>, name: Seq<char>) -> Option<Seq<char>>
    decreases channels.len(),
{
    if channels.len() == 0 {
        None
    } else if channels[0].name == name {
        Some(channels[0].url)
    } else {
        resolved(channels.drop_first(), name)
    }
}

/// A name resolves to nothing exactly where no channel has it, and otherwise
/// to the URL of the first channel that has it.
pub proof fn lemma_resolved(channels: Seq<TeamsChannelUrlView>, name: Seq<char>)
    ensures
        resolved(channels, name) is None <==> forall|i: int|
            0 <= i < channels.len() ==> (#[trigger] channels[i]).name != name,
        resolved(channels, name) matches Some(url) ==> exists|i: int|
            0 <= i < channels.len() && (#[trigger] channels[i]).name == name && channels[i].url
                == url && forall|j: int| 0 <= j < i ==> (#[trigger] channels[j]).name != name,
    decreases channels.len(),
{
    if channels.len() > 0 {
        if channels[0].name == name {
            assert(forall|j: int| 0 <= j < 0 ==> (#[trigger] channels[j]).name != name);
        } else {
            let rest = channels.drop_first();
            lemma_resolved(rest, name);
            assert forall|i: int| 0 <= i < rest.len() implies (#[trigger] rest[i]) == channels[i
                + 1] by {}
            if resolved(rest, name) is None {
                assert forall|i: int| 0 <= i < channels.len() implies (#[trigger] channels[i]).name
                    != name by {
                    if i > 0 {
                        assert(rest[i - 1].name != name);
                    }
                }
            } else {
                let url = resolved(rest, name).unwrap();
                let k = choose|k: int|
                    0 <= k < rest.len() && (#[trigger] rest[k]).name == name && rest[k].url == url
                        && forall|j: int| 0 <= j < k ==> (#[trigger] rest[j]).name != name;
                assert(channels[k + 1].name == name && channels[k + 1].url == url);
                assert forall|j: int| 0 <= j < k + 1 implies (#[trigger] channels[j]).name
                    != name by {
                    if j > 0 {
                        assert(rest[j - 1].name != name);
                    }
                }
            }
        }
    }
}

/// Whether every URL of `channels` begins with `base`.
pub open spec fn all_under(channels: Seq<TeamsChannelUrlView>, base: Seq<char>) -> bool {
    forall|i: int| 0 <= i < channels.len() ==> has_prefix((#[trigger] channels[i]).url, base)
}

/// The whitelist of `channels`: of each URL, what follows the first
/// `base_len` characters.
pub open spec fn whitelist_of(channels: Seq<TeamsChannelUrlView>, base_len: nat) -> Seq<Seq<char>> {
    Seq::new(channels.len(), |i: int| after(channels[i].url, base_len))
}

/// Whether every member of `fields` holds a string.
pub open spec fn all_text_members(fields: Seq<(Seq<char>, Json)>) -> bool {
    forall|i: int| 0 <= i < fields.len() ==> (#[trigger] fields[i]).1.text() is Some
}

/// Whether no two members of `fields` have the same key.
pub open spec fn distinct_keys(fields: Seq<(Seq<char>, Json)>) -> bool {
    forall|i: int, j: int|
        0 <= i < j < fields.len() ==> (#[trigger] fields[i]).0 != (#[trigger] fields[j]).0
}

/// The channels that the members of `fields` stand for: the key is the name,
/// the string is the URL.
pub open spec fn channels_of_members(fields: Seq<(Seq<char>, Json)>) -> Seq<TeamsChannelUrlView> {
    Seq::new(
        fields.len(),
        |i: int| TeamsChannelUrlView { name: fields[i].0, url: fields[i].1.text().unwrap() },
    )
}

/// The channels that the JSON value `v` holds: an object of distinct names,
/// each with its URL as a string. `None` for any other value.
pub open spec fn channels_of(v: Json) -> Option<Seq<TeamsChannelUrlView>> {
    match v {
        Json::Object(fields) => if all_text_members(fields) && distinct_keys(fields) {
            Some(channels_of_members(fields))
        } else {
            None
        },
        _ => None,
    }
}

/// Whether no two channels of `channels` have the same name.
pub open spec fn distinct_names(channels: Seq<TeamsChannelUrlView>) -> bool {
    forall|i: int, j: int|
        0 <= i < j < channels.len() ==> (#[trigger] channels[i]).name != (
        #[trigger] channels[j]).name
}

/// Looks a channel up by its name: the URL of the first channel with exactly
/// that name, or `None` where there is none.
pub fn resolve<'a>(channels: &'a [TeamsChannelUrl], name: &str) -> (url: Option<&'a str>)
    ensures
        url is Some <==> resolved(views_of(channels@), name@) is Some,
        url matches Some(u) ==> resolved(views_of(channels@), name@) == Some(u@),
{
    let mut i: usize = 0;
    assert(views_of(channels@).skip(0) =~= views_of(channels@));
    while i < channels.len()
        invariant
            i <= channels.len(),
            resolved(views_of(channels@), name@) == resolved(
                views_of(channels@).skip(i as int),
                name@,
            ),
        decreases channels.len() - i,
    {
        let ghost rest = views_of(channels@).skip(i as int);
        assert(rest.drop_first() =~= views_of(channels@).skip(i as int + 1));
        assert(rest[0] == channels@[i as int]@);
        if str_eq(channels[i].name.as_str(), name) {
            return Some(channels[i].url.as_str());
        }
        i = i + 1;
    }
    None
}

/// The URL to post to for the channel named `channel`, or `None` where no
/// channel has that name: nothing stands in for a URL that is not known.
pub fn get_webhook_url(channels: Vec<TeamsChannelUrl>, channel: String) -> (url: Option<String>)
    ensures
        url is Some <==> resolved(views_of(channels@), channel@) is Some,
        url matches Some(u) ==> resolved(views_of(channels@), channel@) == Some(u@),
{
    match resolve(channels.as_slice(), channel.as_str()) {
        Some(u) => Some(String::from_str(u)),
        None => None,
    }
}

/// The whitelist for `channels` under the prefix `base`: of each URL, what
/// follows the prefix. Fails where a URL does not begin with the prefix.
pub fn derive_whitelist(channels: &[TeamsChannelUrl], base: &str) -> (whitelist: Result<
    Vec<String>,
    StartupError,
>)
    ensures
        whitelist is Ok <==> all_under(views_of(channels@), base@),
        whitelist matches Ok(list) ==> views_of(list@) == whitelist_of(
            views_of(channels@),
            base@.len(),
        ),
        whitelist matches Err(e) ==> e == StartupError::ForeignUrl,
{
    let mut list: Vec<String> = Vec::new();
    let mut i: usize = 0;
    while i < channels.len()
        invariant
            i <= channels.len(),
            list@.len() == i,
            forall|j: int| 0 <= j < i ==> has_prefix((#[trigger] channels@[j]).url@, base@),
            forall|j: int| 0 <= j < i ==> (#[trigger] list@[j])@ == after(channels@[j].url@, base@.len()),
        decreases channels.len() - i,
    {
        match strip_prefix(channels[i].url.as_str(), base) {
            Some(rest) => {
                list.push(rest);
            },
            None => {
                assert(!has_prefix(views_of(channels@)[i as int].url, base@));
                return Err(StartupError::ForeignUrl);
            },
        }
        i = i + 1;
    }
    assert(views_of(list@) =~= whitelist_of(views_of(channels@), base@.len()));
    assert forall|j: int| 0 <= j < channels@.len() implies has_prefix(
        (#[trigger] views_of(channels@)[j]).url,
        base@,
    ) by {
        assert(has_prefix(channels@[j].url@, base@));
    }
    Ok(list)
}

/// The whitelist for `channels` under the built-in prefix.
pub fn teams_urls_to_array(channels: &[TeamsChannelUrl]) -> (whitelist: Vec<String>)
    requires
        all_under(views_of(channels@), BASE_URL@),
    ensures
        views_of(whitelist@) == whitelist_of(views_of(channels@), BASE_URL@.len()),
{
    match derive_whitelist(channels, BASE_URL) {
        Ok(list) => list,
        Err(_) => Vec::new(),
    }
}

/// Whether the key of member `i` of `fields` occurs among the members before
/// it.
fn key_seen_before(fields: &Vec<crate::json::Member>, i: usize) -> (seen: bool)
    requires
        i < fields.len(),
    ensures
        seen <==> exists|j: int| 0 <= j < i && fields@[j].key@ == fields@[i as int].key@,
{
    let mut j: usize = 0;
    while j < i
        invariant
            j <= i,
            i < fields.len(),
            forall|k: int| 0 <= k < j ==> fields@[k].key@ != fields@[i as int].key@,
        decreases i - j,
    {
        if str_eq(fields[j].key.as_str(), fields[i].key.as_str()) {
            return true;
        }
        j = j + 1;
    }
    false
}

/// Reads the channels out of a JSON value: an object of distinct names, each
/// with its URL as a string. A value in which two members have one key is
/// refused; the parser hands out no such value, so this meets only values
/// built by hand.
pub fn channels_from_json(v: &JsonValue) -> (channels: Result<Vec<TeamsChannelUrl>, StartupError>)
    ensures
        channels is Ok <==> channels_of(v@) is Some,
        channels matches Ok(list) ==> Some(views_of(list@)) == channels_of(v@) && distinct_names(
            views_of(list@),
        ),
        channels matches Err(e) ==> e == StartupError::MalformedSecret,
{
    match v {
        JsonValue::Object(fields) => {
            let ghost members = members_view(fields@);
            let mut list: Vec<TeamsChannelUrl> = Vec::new();
            let mut i: usize = 0;
            while i < fields.len()
                invariant
                    i <= fields.len(),
                    list@.len() == i,
                    members == members_view(fields@),
                    v@ == Json::Object(members),
                    forall|j: int| 0 <= j < i ==> (#[trigger] members[j]).1.text() is Some,
                    forall|j: int, k: int| 0 <= j < k < i ==> (#[trigger] members[j]).0 != (
                    #[trigger] members[k]).0,
                    forall|j: int|
                        0 <= j < i ==> (#[trigger] list@[j])@ == channels_of_members(members)[j],
                decreases fields.len() - i,
            {
                let seen = key_seen_before(fields, i);
                if seen {
                    proof {
                        let j = choose|j: int|
                            0 <= j < i && fields@[j].key@ == fields@[i as int].key@;
                        assert(members[j].0 == members[i as int].0);
                    }
                    return Err(StartupError::MalformedSecret);
                }
                match fields[i].value.as_text() {
                    Some(url) => {
                        list.push(
                            TeamsChannelUrl {
                                name: fields[i].key.clone(),
                                url: String::from_str(url),
                            },
                        );
                    },
                    None => {
                        assert(members[i as int].1.text() is None);
                        return Err(StartupError::MalformedSecret);
                    },
                }
                assert forall|j: int, k: int| 0 <= j < k < i + 1 implies (#[trigger] members[j]).0
                    != (#[trigger] members[k]).0 by {
                    if k == i {
                        assert(fields@[j].key@ != fields@[i as int].key@);
                    }
                }
                i = i + 1;
            }
            assert(views_of(list@) =~= channels_of_members(members));
            Ok(list)
        },
        _ => Err(StartupError::MalformedSecret),
    }
}

/// Reads the channels out of the text of the secret: one JSON object with a
/// string for each name. Where the text holds one name twice the parser keeps
/// the last of the two, so `{"a":"x","a":"y"}` gives the one channel `a` with
/// the URL `y`, and no text is refused for a repeated name.
pub fn channels_from_secret(secret: &str) -> (channels: Result<Vec<TeamsChannelUrl>, StartupError>)
    ensures
        channels is Ok <==> (crate::json::json_document(secret@) matches Some(v) && channels_of(v) is Some),
        channels matches Ok(list) ==> Some(views_of(list@)) == channels_of(
            crate::json::json_document(secret@).unwrap(),
        ) && distinct_names(views_of(list@)),
        channels matches Err(e) ==> e == StartupError::MalformedSecret,
{
    match JsonValue::parse(secret) {
        Some(v) => channels_from_json(&v),
        None => Err(StartupError::MalformedSecret),
    }
}

} // verus!
