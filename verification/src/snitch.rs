//! Events of the dead-man's-switch monitor: the payload's shape and how it is
//! read out of a JSON value.

use vstd::prelude::*;
use vstd::string::*;
use crate::json::{Json, JsonValue, views_of};
use crate::text::str_eq;

verus! {

/// What a snitch event reports.
#[derive(Debug, Clone, Copy, PartialEq, Eq, Structural)]
pub enum SnitchType {
    Missing,
    Reporting,
    Paused,
}

/// The kind of event that the type tag `tag` stands for.
pub open spec fn snitch_type_of_tag(tag: Seq<char>) -> Option<SnitchType> {
    if tag == "snitch.missing"@ {
        Some(SnitchType::Missing)
    } else if tag == "snitch.reporting"@ {
        Some(SnitchType::Reporting)
    } else if tag == "snitch.paused"@ {
        Some(SnitchType::Paused)
    } else {
        None
    }
}

impl SnitchType {
    /// Reads the kind of event from its type tag; `None` for any other text.
    pub fn from_tag(tag: &str) -> (kind: Option<SnitchType>)
        ensures
            kind == snitch_type_of_tag(tag@),
    {
        if str_eq(tag, "snitch.missing") {
            Some(SnitchType::Missing)
        } else if str_eq(tag, "snitch.reporting") {
            Some(SnitchType::Reporting)
        } else if str_eq(tag, "snitch.paused") {
            Some(SnitchType::Paused)
        } else {
            None
        }
    }
}

/// The snitch that an event is about.
#[derive(Debug, PartialEq, Eq)]
pub struct SnitchSubData {
    pub token: String,
    pub name: String,
    pub notes: String,
    pub tags: Vec<String>,
    pub status: String,
    pub previous_status: String,
}

/// A snitch as plain sequences of characters.
pub struct SnitchSubDataView {
    pub token: Seq<char>,
    pub name: Seq<char>,
    pub notes: Seq<char>,
    pub tags: Seq<Seq<char>>,
    pub status: Seq<char>,
    pub previous_status: Seq<char>,
}

impl View for SnitchSubData {
    type V = SnitchSubDataView;

    open spec fn view(&self) -> SnitchSubDataView {
        SnitchSubDataView {
            token: self.token@,
            name: self.name@,
            notes: self.notes@,
            tags: views_of(self.tags@),
            status: self.status@,
            previous_status: self.previous_status@,
        }
    }
}

/// The `data` member of a snitch event.
#[derive(Debug, PartialEq, Eq)]
pub struct SnitchData {
    pub snitch: SnitchSubData,
}

/// The `data` member of a snitch event as plain values.
pub struct SnitchDataView {
    pub snitch: SnitchSubDataView,
}

impl View for SnitchData {
    type V = SnitchDataView;

    open spec fn view(&self) -> SnitchDataView {
        SnitchDataView { snitch: self.snitch@ }
    }
}

/// A snitch event.
#[derive(Debug, PartialEq, Eq)]
pub struct DmsData {
    pub snitch_type: SnitchType,
    pub timestamp: String,
    pub data: SnitchData,
}

/// A snitch event as plain values.
pub struct DmsDataView {
    pub snitch_type: SnitchType,
    pub timestamp: Seq<char>,
    pub data: SnitchDataView,
}

impl View for DmsData {
    type V = DmsDataView;

    open spec fn view(&self) -> DmsDataView {
        DmsDataView {
            snitch_type: self.snitch_type,
            timestamp: self.timestamp@,
            data: self.data@,
        }
    }
}

/// The snitch that the JSON value `v` holds: an object with the strings
/// `token`, `name`, `notes`, `status` and `previous_status` and the list of
/// strings `tags`.
pub open spec fn snitch_of(v: Json) -> Option<SnitchSubDataView> {
    match (
        v.text_member("token"@),
        v.text_member("name"@),
        v.text_member("notes"@),
        v.text_list_member("tags"@),
        v.text_member("status"@),
        v.text_member("previous_status"@),
    ) {
        (Some(token), Some(name), Some(notes), Some(tags), Some(status), Some(previous_status)) => Some(
            SnitchSubDataView { token, name, notes, tags, status, previous_status },
        ),
        _ => None,
    }
}

/// The `data` member that the JSON value `v` holds: an object with a `snitch`.
pub open spec fn snitch_data_of(v: Json) -> Option<SnitchDataView> {
    match v.member("snitch"@) {
        Some(s) => match snitch_of(s) {
            Some(snitch) => Some(SnitchDataView { snitch }),
            None => None,
        },
        None => None,
    }
}

/// The snitch event that the JSON value `v` holds: an object with a `type`
/// that is one of the known tags, the string `timestamp` and a `data` member.
/// Members beyond these are passed over.
pub open spec fn dms_data_of(v: Json) -> Option<DmsDataView> {
    match (v.text_member("type"@), v.text_member("timestamp"@), v.member("data"@)) {
        (Some(tag), Some(timestamp), Some(d)) => match (snitch_type_of_tag(tag), snitch_data_of(d)) {
            (Some(snitch_type), Some(data)) => Some(DmsDataView { snitch_type, timestamp, data }),
            _ => None,
        },
        _ => None,
    }
}

impl SnitchSubData {
    /// Reads a snitch out of a JSON value.
    pub fn from_json(v: &JsonValue) -> (read: Option<SnitchSubData>)
        ensures
            read is Some <==> snitch_of(v@) is Some,
            read matches Some(s) ==> Some(s@) == snitch_of(v@),
    {
        match (
            v.get_text("token"),
            v.get_text("name"),
            v.get_text("notes"),
            v.get_text_list("tags"),
            v.get_text("status"),
            v.get_text("previous_status"),
        ) {
            (Some(token), Some(name), Some(notes), Some(tags), Some(status), Some(previous_status)) => Some(
                SnitchSubData {
                    token: String::from_str(token),
                    name: String::from_str(name),
                    notes: String::from_str(notes),
                    tags,
                    status: String::from_str(status),
                    previous_status: String::from_str(previous_status),
                },
            ),
            _ => None,
        }
    }
}

impl SnitchData {
    /// Reads the `data` member of a snitch event out of a JSON value.
    pub fn from_json(v: &JsonValue) -> (read: Option<SnitchData>)
        ensures
            read is Some <==> snitch_data_of(v@) is Some,
            read matches Some(d) ==> Some(d@) == snitch_data_of(v@),
    {
        match v.get("snitch") {
            Some(s) => match SnitchSubData::from_json(s) {
                Some(snitch) => Some(SnitchData { snitch }),
                None => None,
            },
            None => None,
        }
    }
}

impl DmsData {
    /// Reads a snitch event out of a JSON value.
    pub fn from_json(v: &JsonValue) -> (read: Option<DmsData>)
        ensures
            read is Some <==> dms_data_of(v@) is Some,
            read matches Some(d) ==> Some(d@) == dms_data_of(v@),
    {
        match (v.get_text("type"), v.get_text("timestamp"), v.get("data")) {
            (Some(tag), Some(timestamp), Some(d)) => match (
                SnitchType::from_tag(tag),
                SnitchData::from_json(d),
            ) {
                (Some(snitch_type), Some(data)) => Some(
                    DmsData { snitch_type, timestamp: String::from_str(timestamp), data },
                ),
                _ => None,
            },
            _ => None,
        }
    }
}

} // verus!
