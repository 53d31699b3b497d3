//! The JSON that a rich card goes out as. Every part is an object whose
//! members come in a fixed order; a block of text leaves out each display
//! attribute that has its default value.

use vstd::prelude::*;
use vstd::string::*;
use crate::adaptive_card::{
    color_is_blank, font_is_set, spacing_is_blank, weight_is_normal, Action, ActionView,
    AdaptiveCardData, AdaptiveCardDataView, Attachment, AttachmentView, BodyItem, BodyItemView,
    Column, ColumnItem, ColumnItemView, ColumnSet, ColumnSetView, ColumnView, Content,
    ContentView, Image, ImageView, TextBlock, TextBlockView,
};
use crate::json::{
    items_view, lookup, members_view, push_item, push_member, push_text, Json, JsonValue, Member,
};

verus! {

/// The member `key: value` where there is a value, and nothing where there is
/// none.
pub open spec fn member_if(key: Seq<char>, value: Option<Json>) -> Seq<(Seq<char>, Json)> {
    match value {
        Some(v) => seq![(key, v)],
        None => Seq::empty(),
    }
}

/// What the size of a block is written as: the size where the block has one.
pub open spec fn size_value(t: TextBlockView) -> Option<Json> {
    match t.size {
        Some(size) => Some(Json::Text(size)),
        None => None,
    }
}

/// What the weight of a block is written as: nothing for the weight `normal`.
pub open spec fn weight_value(t: TextBlockView) -> Option<Json> {
    if t.weight == "normal"@ {
        None
    } else {
        Some(Json::Text(t.weight))
    }
}

/// What the colour of a block is written as: nothing for an empty colour.
pub open spec fn color_value(t: TextBlockView) -> Option<Json> {
    if t.color.len() == 0 {
        None
    } else {
        Some(Json::Text(t.color))
    }
}

/// What the spacing of a block is written as: nothing for an empty spacing.
pub open spec fn spacing_value(t: TextBlockView) -> Option<Json> {
    if t.spacing.len() == 0 {
        None
    } else {
        Some(Json::Text(t.spacing))
    }
}

/// What the subtlety of a block is written as: the truth value where the
/// block has one.
pub open spec fn subtle_value(t: TextBlockView) -> Option<Json> {
    match t.is_subtle {
        Some(subtle) => Some(Json::Bool(subtle)),
        None => None,
    }
}

/// What the font of a block is written as: nothing for the font `default`.
pub open spec fn font_value(t: TextBlockView) -> Option<Json> {
    if t.font_type == "default"@ {
        None
    } else {
        Some(Json::Text(t.font_type))
    }
}

/// What the wrapping of a block is written as: the truth value where the
/// block has one.
pub open spec fn wrap_value(t: TextBlockView) -> Option<Json> {
    match t.wrap {
        Some(wrap) => Some(Json::Bool(wrap)),
        None => None,
    }
}

/// The members that a block of text is written as, in this order: size,
/// weight, colour, text, spacing, subtlety, font and wrapping, each but the
/// text only where it has something to be written as.
pub open spec fn text_block_members(t: TextBlockView) -> Seq<(Seq<char>, Json)> {
    member_if("size"@, size_value(t)) + member_if("weight"@, weight_value(t)) + member_if(
        "color"@,
        color_value(t),
    ) + member_if("text"@, Some(Json::Text(t.text))) + member_if("spacing"@, spacing_value(t))
        + member_if("isSubtle"@, subtle_value(t)) + member_if("fontType"@, font_value(t))
        + member_if("wrap"@, wrap_value(t))
}

/// The members that a picture is written as.
pub open spec fn image_members(i: ImageView) -> Seq<(Seq<char>, Json)> {
    seq![
        ("style"@, Json::Text(i.style)),
        ("url"@, Json::Text(i.url)),
        ("altText"@, Json::Text(i.alt_text)),
        ("size"@, Json::Text(i.size)),
    ]
}

/// An object that names its kind in a first member `type`, before `fields`.
pub open spec fn tagged(tag: Seq<char>, fields: Seq<(Seq<char>, Json)>) -> Json {
    Json::Object(seq![("type"@, Json::Text(tag))] + fields)
}

/// The JSON of what a column holds.
pub open spec fn column_item_json(item: ColumnItemView) -> Json {
    match item {
        ColumnItemView::Image(i) => tagged("Image"@, image_members(i)),
        ColumnItemView::TextBlock(t) => tagged("TextBlock"@, text_block_members(t)),
    }
}

/// The JSON of a column.
pub open spec fn column_json(c: ColumnView) -> Json {
    Json::Object(
        seq![
            ("type"@, Json::Text(c.column_type)),
            ("items"@, Json::Array(c.items.map_values(|i: ColumnItemView| column_item_json(i)))),
            ("width"@, Json::Text(c.width)),
        ],
    )
}

/// The members that a set of columns is written as.
pub open spec fn column_set_members(c: ColumnSetView) -> Seq<(Seq<char>, Json)> {
    seq![("columns"@, Json::Array(c.columns.map_values(|c: ColumnView| column_json(c))))]
}

/// The JSON of what the body of a card holds.
pub open spec fn body_item_json(item: BodyItemView) -> Json {
    match item {
        BodyItemView::TextBlock(t) => tagged("TextBlock"@, text_block_members(t)),
        BodyItemView::ColumnSet(c) => tagged("ColumnSet"@, column_set_members(c)),
    }
}

/// The JSON of an action.
pub open spec fn action_json(a: ActionView) -> Json {
    Json::Object(
        seq![
            ("type"@, Json::Text(a.action_type)),
            ("title"@, Json::Text(a.title)),
            ("url"@, Json::Text(a.url)),
        ],
    )
}

/// The JSON of the card proper.
pub open spec fn content_json(c: ContentView) -> Json {
    Json::Object(
        seq![
            ("type"@, Json::Text(c.content_type)),
            ("$schema"@, Json::Text(c.schema)),
            ("version"@, Json::Text(c.version)),
            ("body"@, Json::Array(c.body.map_values(|b: BodyItemView| body_item_json(b)))),
            ("actions"@, Json::Array(c.actions.map_values(|a: ActionView| action_json(a)))),
        ],
    )
}

/// The JSON of an attachment.
pub open spec fn attachment_json(a: AttachmentView) -> Json {
    Json::Object(
        seq![
            ("contentType"@, Json::Text(a.content_type)),
            ("contentUrl"@, Json::Text(a.content_url)),
            ("content"@, content_json(a.content)),
        ],
    )
}

/// The JSON of the message that carries a card.
pub open spec fn card_json(c: AdaptiveCardDataView) -> Json {
    Json::Object(
        seq![
            ("type"@, Json::Text(c.data_type)),
            (
                "attachments"@,
                Json::Array(c.attachments.map_values(|a: AttachmentView| attachment_json(a))),
            ),
        ],
    )
}

/// A fresh list of members that begins with the kind `tag`.
fn tag_member(tag: &str) -> (fields: Vec<Member>)
    ensures
        members_view(fields@) == seq![("type"@, Json::Text(tag@))],
{
    let mut fields: Vec<Member> = Vec::new();
    assert(members_view(fields@) =~= Seq::empty());
    push_text(&mut fields, "type", tag);
    assert(members_view(fields@) =~= seq![("type"@, Json::Text(tag@))]);
    fields
}

/// The model of a value that may be missing.
pub open spec fn view_of(value: Option<JsonValue>) -> Option<Json> {
    match value {
        Some(v) => Some(v@),
        None => None,
    }
}

/// Puts the member `key: value` behind the members of `fields` where there is
/// a value, and leaves them as they are where there is none.
fn push_if(fields: &mut Vec<Member>, key: &str, value: Option<JsonValue>)
    ensures
        members_view(final(fields)@) == members_view(old(fields)@) + member_if(
            key@,
            view_of(value),
        ),
{
    let ghost added = member_if(key@, view_of(value));
    match value {
        Some(v) => {
            push_member(fields, key, v);
        },
        None => {},
    }
    assert(members_view(fields@) =~= members_view(old(fields)@) + added);
}

/// The string `value` as a JSON value, unless it is `omitted`.
fn text_unless(omitted: bool, value: &String) -> (json: Option<JsonValue>)
    ensures
        view_of(json) == if omitted {
            None
        } else {
            Some(Json::Text(value@))
        },
{
    if omitted {
        None
    } else {
        Some(JsonValue::Text(value.clone()))
    }
}

/// The truth value of `value` as a JSON value, where there is one.
fn bool_if(value: Option<bool>) -> (json: Option<JsonValue>)
    ensures
        view_of(json) == match value {
            Some(b) => Some(Json::Bool(b)),
            None => None,
        },
{
    match value {
        Some(b) => Some(JsonValue::Bool(b)),
        None => None,
    }
}

impl TextBlock {
    /// What the size of the block is written as.
    fn size_json(&self) -> (json: Option<JsonValue>)
        ensures
            view_of(json) == size_value(self@),
    {
        match &self.size {
            Some(size) => Some(JsonValue::Text(size.clone())),
            None => None,
        }
    }

    /// Puts the members that the block is written as behind those of
    /// `fields`.
    pub fn push_members(&self, fields: &mut Vec<Member>)
        ensures
            members_view(final(fields)@) == members_view(old(fields)@) + text_block_members(self@),
    {
        let ghost base = members_view(fields@);
        push_if(fields, "size", self.size_json());
        push_if(fields, "weight", text_unless(weight_is_normal(&self.weight), &self.weight));
        push_if(fields, "color", text_unless(color_is_blank(&self.color), &self.color));
        push_if(fields, "text", text_unless(false, &self.text));
        push_if(fields, "spacing", text_unless(spacing_is_blank(&self.spacing), &self.spacing));
        push_if(fields, "isSubtle", bool_if(self.is_subtle));
        push_if(fields, "fontType", text_unless(font_is_set(&self.font_type), &self.font_type));
        push_if(fields, "wrap", bool_if(self.wrap));
        assert(members_view(fields@) =~= base + text_block_members(self@));
    }

    /// The block as a JSON object that names its kind.
    pub fn to_json(&self) -> (json: JsonValue)
        ensures
            json@ == tagged("TextBlock"@, text_block_members(self@)),
    {
        let mut fields = tag_member("TextBlock");
        self.push_members(&mut fields);
        JsonValue::Object(fields)
    }
}

impl Image {
    /// The picture as a JSON object that names its kind.
    pub fn to_json(&self) -> (json: JsonValue)
        ensures
            json@ == tagged("Image"@, image_members(self@)),
    {
        let mut fields = tag_member("Image");
        push_text(&mut fields, "style", self.style.as_str());
        push_text(&mut fields, "url", self.url.as_str());
        push_text(&mut fields, "altText", self.alt_text.as_str());
        push_text(&mut fields, "size", self.size.as_str());
        assert(members_view(fields@) =~= seq![("type"@, Json::Text("Image"@))] + image_members(
            self@,
        ));
        JsonValue::Object(fields)
    }
}

impl ColumnItem {
    /// What a column holds, as JSON.
    pub fn to_json(&self) -> (json: JsonValue)
        ensures
            json@ == column_item_json(self@),
    {
        match self {
            ColumnItem::Image(i) => i.to_json(),
            ColumnItem::TextBlock(t) => t.to_json(),
        }
    }
}

impl Column {
    /// The column as JSON.
    pub fn to_json(&self) -> (json: JsonValue)
        ensures
            json@ == column_json(self@),
    {
        let mut items: Vec<JsonValue> = Vec::new();
        let mut i: usize = 0;
        while i < self.items.len()
            invariant
                i <= self.items.len(),
                items_view(items@).len() == i,
                forall|j: int|
                    0 <= j < i ==> #[trigger] items_view(items@)[j] == column_item_json(
                        self.items@[j]@,
                    ),
            decreases self.items.len() - i,
        {
            let item = self.items[i].to_json();
            push_item(&mut items, item);
            i = i + 1;
        }
        assert(items_view(items@) =~= self@.items.map_values(
            |i: ColumnItemView| column_item_json(i),
        ));
        let mut fields: Vec<Member> = Vec::new();
        assert(members_view(fields@) =~= Seq::empty());
        push_text(&mut fields, "type", self.column_type.as_str());
        push_member(&mut fields, "items", JsonValue::Array(items));
        push_text(&mut fields, "width", self.width.as_str());
        assert(members_view(fields@) =~= column_json(self@)->Object_0);
        JsonValue::Object(fields)
    }
}

impl ColumnSet {
    /// The set of columns as a JSON object that names its kind.
    pub fn to_json(&self) -> (json: JsonValue)
        ensures
            json@ == tagged("ColumnSet"@, column_set_members(self@)),
    {
        let mut columns: Vec<JsonValue> = Vec::new();
        let mut i: usize = 0;
        while i < self.columns.len()
            invariant
                i <= self.columns.len(),
                items_view(columns@).len() == i,
                forall|j: int|
                    0 <= j < i ==> #[trigger] items_view(columns@)[j] == column_json(
                        self.columns@[j]@,
                    ),
            decreases self.columns.len() - i,
        {
            let column = self.columns[i].to_json();
            push_item(&mut columns, column);
            i = i + 1;
        }
        assert(items_view(columns@) =~= self@.columns.map_values(|c: ColumnView| column_json(c)));
        let mut fields = tag_member("ColumnSet");
        push_member(&mut fields, "columns", JsonValue::Array(columns));
        assert(members_view(fields@) =~= seq![("type"@, Json::Text("ColumnSet"@))]
            + column_set_members(self@));
        JsonValue::Object(fields)
    }
}

impl BodyItem {
    /// What the body of a card holds, as JSON.
    pub fn to_json(&self) -> (json: JsonValue)
        ensures
            json@ == body_item_json(self@),
    {
        match self {
            BodyItem::TextBlock(t) => t.to_json(),
            BodyItem::ColumnSet(c) => c.to_json(),
        }
    }
}

impl Action {
    /// The action as JSON.
    pub fn to_json(&self) -> (json: JsonValue)
        ensures
            json@ == action_json(self@),
    {
        let mut fields: Vec<Member> = Vec::new();
        assert(members_view(fields@) =~= Seq::empty());
        push_text(&mut fields, "type", self.action_type.as_str());
        push_text(&mut fields, "title", self.title.as_str());
        push_text(&mut fields, "url", self.url.as_str());
        assert(members_view(fields@) =~= action_json(self@)->Object_0);
        JsonValue::Object(fields)
    }
}

impl Content {
    /// The card proper as JSON.
    pub fn to_json(&self) -> (json: JsonValue)
        ensures
            json@ == content_json(self@),
    {
        let mut body: Vec<JsonValue> = Vec::new();
        let mut i: usize = 0;
        while i < self.body.len()
            invariant
                i <= self.body.len(),
                items_view(body@).len() == i,
                forall|j: int|
                    0 <= j < i ==> #[trigger] items_view(body@)[j] == body_item_json(
                        self.body@[j]@,
                    ),
            decreases self.body.len() - i,
        {
            let item = self.body[i].to_json();
            push_item(&mut body, item);
            i = i + 1;
        }
        assert(items_view(body@) =~= self@.body.map_values(|b: BodyItemView| body_item_json(b)));
        let mut actions: Vec<JsonValue> = Vec::new();
        let mut k: usize = 0;
        while k < self.actions.len()
            invariant
                k <= self.actions.len(),
                items_view(actions@).len() == k,
                forall|j: int|
                    0 <= j < k ==> #[trigger] items_view(actions@)[j] == action_json(
                        self.actions@[j]@,
                    ),
            decreases self.actions.len() - k,
        {
            let action = self.actions[k].to_json();
            push_item(&mut actions, action);
            k = k + 1;
        }
        assert(items_view(actions@) =~= self@.actions.map_values(|a: ActionView| action_json(a)));
        let mut fields: Vec<Member> = Vec::new();
        assert(members_view(fields@) =~= Seq::empty());
        push_text(&mut fields, "type", self.content_type.as_str());
        push_text(&mut fields, "$schema", self.schema.as_str());
        push_text(&mut fields, "version", self.version.as_str());
        push_member(&mut fields, "body", JsonValue::Array(body));
        push_member(&mut fields, "actions", JsonValue::Array(actions));
        assert(members_view(fields@) =~= content_json(self@)->Object_0);
        JsonValue::Object(fields)
    }
}

impl Attachment {
    /// The attachment as JSON.
    pub fn to_json(&self) -> (json: JsonValue)
        ensures
            json@ == attachment_json(self@),
    {
        let mut fields: Vec<Member> = Vec::new();
        assert(members_view(fields@) =~= Seq::empty());
        push_text(&mut fields, "contentType", self.content_type.as_str());
        push_text(&mut fields, "contentUrl", self.content_url.as_str());
        push_member(&mut fields, "content", self.content.to_json());
        assert(members_view(fields@) =~= attachment_json(self@)->Object_0);
        JsonValue::Object(fields)
    }
}

impl AdaptiveCardData {
    /// The message as JSON.
    pub fn to_json(&self) -> (json: JsonValue)
        ensures
            json@ == card_json(self@),
    {
        let mut attachments: Vec<JsonValue> = Vec::new();
        let mut i: usize = 0;
        while i < self.attachments.len()
            invariant
                i <= self.attachments.len(),
                items_view(attachments@).len() == i,
                forall|j: int|
                    0 <= j < i ==> #[trigger] items_view(attachments@)[j] == attachment_json(
                        self.attachments@[j]@,
                    ),
            decreases self.attachments.len() - i,
        {
            let attachment = self.attachments[i].to_json();
            push_item(&mut attachments, attachment);
            i = i + 1;
        }
        assert(items_view(attachments@) =~= self@.attachments.map_values(
            |a: AttachmentView| attachment_json(a),
        ));
        let mut fields: Vec<Member> = Vec::new();
        assert(members_view(fields@) =~= Seq::empty());
        push_text(&mut fields, "type", self.data_type.as_str());
        push_member(&mut fields, "attachments", JsonValue::Array(attachments));
        assert(members_view(fields@) =~= card_json(self@)->Object_0);
        JsonValue::Object(fields)
    }
}

/// `first` where it holds a value, and `second` where it does not.
pub open spec fn first_of(first: Option<Json>, second: Option<Json>) -> Option<Json> {
    if first is Some {
        first
    } else {
        second
    }
}

/// A key is looked up in `a` followed by `b` by looking it up in `a`, and
/// in `b` where `a` does not have it.
pub proof fn lemma_lookup_concat(
    a: Seq<(Seq<char>, Json)>,
    b: Seq<(Seq<char>, Json)>,
    key: Seq<char>,
)
    ensures
        lookup(a + b, key) == first_of(lookup(a, key), lookup(b, key)),
    decreases a.len(),
{
    if a.len() == 0 {
        assert(a + b =~= b);
    } else {
        assert((a + b).drop_first() =~= a.drop_first() + b);
        lemma_lookup_concat(a.drop_first(), b, key);
    }
}

/// What is looked up where at most one member is.
proof fn lemma_lookup_member_if(k: Seq<char>, v: Option<Json>, key: Seq<char>)
    ensures
        lookup(member_if(k, v), key) == if k == key {
            v
        } else {
            None
        },
{
    reveal_with_fuel(lookup, 3);
    if v is Some {
        assert(member_if(k, v).drop_first() =~= Seq::empty());
    }
}

/// What is looked up under `key` among the members of a block of text: what
/// the attribute with that key is written as, and nothing for any other key.
proof fn lemma_text_block_lookup(t: TextBlockView, key: Seq<char>)
    ensures
        lookup(text_block_members(t), key) == if key == "size"@ {
            size_value(t)
        } else if key == "weight"@ {
            weight_value(t)
        } else if key == "color"@ {
            color_value(t)
        } else if key == "text"@ {
            Some(Json::Text(t.text))
        } else if key == "spacing"@ {
            spacing_value(t)
        } else if key == "isSubtle"@ {
            subtle_value(t)
        } else if key == "fontType"@ {
            font_value(t)
        } else if key == "wrap"@ {
            wrap_value(t)
        } else {
            None
        },
{
    let size = member_if("size"@, size_value(t));
    let weight = member_if("weight"@, weight_value(t));
    let color = member_if("color"@, color_value(t));
    let text = member_if("text"@, Some(Json::Text(t.text)));
    let spacing = member_if("spacing"@, spacing_value(t));
    let subtle = member_if("isSubtle"@, subtle_value(t));
    let font = member_if("fontType"@, font_value(t));
    let wrap = member_if("wrap"@, wrap_value(t));
    lemma_lookup_concat(size, weight, key);
    lemma_lookup_concat(size + weight, color, key);
    lemma_lookup_concat(size + weight + color, text, key);
    lemma_lookup_concat(size + weight + color + text, spacing, key);
    lemma_lookup_concat(size + weight + color + text + spacing, subtle, key);
    lemma_lookup_concat(size + weight + color + text + spacing + subtle, font, key);
    lemma_lookup_concat(size + weight + color + text + spacing + subtle + font, wrap, key);
    lemma_lookup_member_if("size"@, size_value(t), key);
    lemma_lookup_member_if("weight"@, weight_value(t), key);
    lemma_lookup_member_if("color"@, color_value(t), key);
    lemma_lookup_member_if("text"@, Some(Json::Text(t.text)), key);
    lemma_lookup_member_if("spacing"@, spacing_value(t), key);
    lemma_lookup_member_if("isSubtle"@, subtle_value(t), key);
    lemma_lookup_member_if("fontType"@, font_value(t), key);
    lemma_lookup_member_if("wrap"@, wrap_value(t), key);
    lemma_keys_differ();
}

/// The eight keys of a block of text are eight different strings.
proof fn lemma_keys_differ()
    ensures
        "size"@ != "weight"@,
        "size"@ != "color"@,
        "size"@ != "text"@,
        "size"@ != "spacing"@,
        "size"@ != "isSubtle"@,
        "size"@ != "fontType"@,
        "size"@ != "wrap"@,
        "weight"@ != "color"@,
        "weight"@ != "text"@,
        "weight"@ != "spacing"@,
        "weight"@ != "isSubtle"@,
        "weight"@ != "fontType"@,
        "weight"@ != "wrap"@,
        "color"@ != "text"@,
        "color"@ != "spacing"@,
        "color"@ != "isSubtle"@,
        "color"@ != "fontType"@,
        "color"@ != "wrap"@,
        "text"@ != "spacing"@,
        "text"@ != "isSubtle"@,
        "text"@ != "fontType"@,
        "text"@ != "wrap"@,
        "spacing"@ != "isSubtle"@,
        "spacing"@ != "fontType"@,
        "spacing"@ != "wrap"@,
        "isSubtle"@ != "fontType"@,
        "isSubtle"@ != "wrap"@,
        "fontType"@ != "wrap"@,
{
    reveal_strlit("size");
    reveal_strlit("weight");
    reveal_strlit("color");
    reveal_strlit("text");
    reveal_strlit("spacing");
    reveal_strlit("isSubtle");
    reveal_strlit("fontType");
    reveal_strlit("wrap");
    assert("size"@.len() == 4 && "size"@[0] == 's');
    assert("text"@.len() == 4 && "text"@[0] == 't');
    assert("wrap"@.len() == 4 && "wrap"@[0] == 'w');
    assert("isSubtle"@.len() == 8 && "isSubtle"@[0] == 'i');
    assert("fontType"@.len() == 8 && "fontType"@[0] == 'f');
    assert("weight"@.len() == 6);
    assert("color"@.len() == 5);
    assert("spacing"@.len() == 7);
}

/// A display attribute of a block of text is written out, with its value,
/// where it differs from its default, and is left out entirely where it does
/// not: the weight `normal`, an empty colour, an empty spacing and the font
/// `default` have no member, and neither has a size, a subtlety or a wrapping
/// that the block does not have. The text always has its member.
pub proof fn lemma_default_attributes_omitted(t: TextBlockView)
    ensures
        lookup(text_block_members(t), "weight"@) == weight_value(t),
        lookup(text_block_members(t), "color"@) == color_value(t),
        lookup(text_block_members(t), "spacing"@) == spacing_value(t),
        lookup(text_block_members(t), "fontType"@) == font_value(t),
        lookup(text_block_members(t), "size"@) == size_value(t),
        lookup(text_block_members(t), "isSubtle"@) == subtle_value(t),
        lookup(text_block_members(t), "wrap"@) == wrap_value(t),
        lookup(text_block_members(t), "text"@) == Some(Json::Text(t.text)),
{
    lemma_keys_differ();
    lemma_text_block_lookup(t, "weight"@);
    lemma_text_block_lookup(t, "color"@);
    lemma_text_block_lookup(t, "spacing"@);
    lemma_text_block_lookup(t, "fontType"@);
    lemma_text_block_lookup(t, "size"@);
    lemma_text_block_lookup(t, "isSubtle"@);
    lemma_text_block_lookup(t, "wrap"@);
    lemma_text_block_lookup(t, "text"@);
}

} // verus!
