//! The rich card that a build event is shown as: its parts, their plain
//! models, and how a build event fills them.

use vstd::prelude::*;
use vstd::string::*;
use vstd::std_specs::convert::FromSpecImpl;
use crate::buildkite::{BuildData, BuildDataView};
use crate::card_json::card_json;
use crate::json::{rendered, views_of};
use crate::text::{join, str_eq};

verus! {

/// A block of text with its display attributes.
#[derive(Debug, PartialEq, Eq)]
pub struct TextBlock {
    pub size: Option<String>,
    pub weight: String,
    pub color: String,
    pub text: String,
    pub spacing: String,
    pub is_subtle: Option<bool>,
    pub font_type: String,
    pub wrap: Option<bool>,
}

/// A block of text as plain values.
pub struct TextBlockView {
    pub size: Option<Seq<char>>,
    pub weight: Seq<char>,
    pub color: Seq<char>,
    pub text: Seq<char>,
    pub spacing: Seq<char>,
    pub is_subtle: Option<bool>,
    pub font_type: Seq<char>,
    pub wrap: Option<bool>,
}

impl View for TextBlock {
    type V = TextBlockView;

    open spec fn view(&self) -> TextBlockView {
        TextBlockView {
            size: match self.size {
                Some(s) => Some(s@),
                None => None,
            },
            weight: self.weight@,
            color: self.color@,
            text: self.text@,
            spacing: self.spacing@,
            is_subtle: self.is_subtle,
            font_type: self.font_type@,
            wrap: self.wrap,
        }
    }
}

/// The block of text that every other one starts from: no text, normal
/// weight, no colour, no spacing, the default font, neither subtle nor
/// wrapped.
pub open spec fn default_text_block() -> TextBlockView {
    TextBlockView {
        size: None,
        weight: "normal"@,
        color: Seq::empty(),
        text: Seq::empty(),
        spacing: Seq::empty(),
        is_subtle: Some(false),
        font_type: "default"@,
        wrap: Some(false),
    }
}

/// Whether `weight` is the default weight, which is not written out.
pub fn weight_is_normal(weight: &String) -> (normal: bool)
    ensures
        normal == (weight@ == "normal"@),
{
    str_eq(weight.as_str(), "normal")
}

/// Whether `font_type` is the default font, which is not written out.
pub fn font_is_set(font_type: &String) -> (default_font: bool)
    ensures
        default_font == (font_type@ == "default"@),
{
    str_eq(font_type.as_str(), "default")
}

/// Whether `spacing` is empty, and so not written out.
pub fn spacing_is_blank(spacing: &String) -> (blank: bool)
    ensures
        blank == (spacing@.len() == 0),
{
    proof {
        reveal_strlit("");
    }
    let blank = str_eq(spacing.as_str(), "");
    assert(blank == (spacing@ =~= ""@));
    blank
}

/// Whether `color` is empty, and so not written out.
pub fn color_is_blank(color: &String) -> (blank: bool)
    ensures
        blank == (color@.len() == 0),
{
    proof {
        reveal_strlit("");
    }
    let blank = str_eq(color.as_str(), "");
    assert(blank == (color@ =~= ""@));
    blank
}

impl Default for TextBlock {
    fn default() -> (block: TextBlock)
        ensures
            block@ == default_text_block(),
    {
        proof {
            reveal_strlit("");
        }
        let block = TextBlock {
            size: None,
            weight: String::from_str("normal"),
            color: String::from_str(""),
            text: String::from_str(""),
            spacing: String::from_str(""),
            is_subtle: Some(false),
            font_type: String::from_str("default"),
            wrap: Some(false),
        };
        assert(block.color@ =~= Seq::empty());
        assert(block.text@ =~= Seq::empty());
        assert(block.spacing@ =~= Seq::empty());
        block
    }
}

/// A picture.
#[derive(Debug, PartialEq, Eq)]
pub struct Image {
    pub style: String,
    pub url: String,
    pub alt_text: String,
    pub size: String,
}

/// A picture as plain values.
pub struct ImageView {
    pub style: Seq<char>,
    pub url: Seq<char>,
    pub alt_text: Seq<char>,
    pub size: Seq<char>,
}

impl View for Image {
    type V = ImageView;

    open spec fn view(&self) -> ImageView {
        ImageView {
            style: self.style@,
            url: self.url@,
            alt_text: self.alt_text@,
            size: self.size@,
        }
    }
}

/// What a column can hold.
#[derive(Debug, PartialEq, Eq)]
pub enum ColumnItem {
    Image(Image),
    TextBlock(TextBlock),
}

/// What a column can hold, as plain values.
pub enum ColumnItemView {
    Image(ImageView),
    TextBlock(TextBlockView),
}

impl View for ColumnItem {
    type V = ColumnItemView;

    open spec fn view(&self) -> ColumnItemView {
        match self {
            ColumnItem::Image(i) => ColumnItemView::Image(i@),
            ColumnItem::TextBlock(t) => ColumnItemView::TextBlock(t@),
        }
    }
}

/// One column of a set.
#[derive(Debug, PartialEq, Eq)]
pub struct Column {
    pub column_type: String,
    pub items: Vec<ColumnItem>,
    pub width: String,
}

/// One column of a set, as plain values.
pub struct ColumnView {
    pub column_type: Seq<char>,
    pub items: Seq<ColumnItemView>,
    pub width: Seq<char>,
}

impl View for Column {
    type V = ColumnView;

    open spec fn view(&self) -> ColumnView {
        ColumnView {
            column_type: self.column_type@,
            items: views_of(self.items@),
            width: self.width@,
        }
    }
}

/// Columns side by side.
#[derive(Debug, PartialEq, Eq)]
pub struct ColumnSet {
    pub columns: Vec<Column>,
}

/// Columns side by side, as plain values.
pub struct ColumnSetView {
    pub columns: Seq<ColumnView>,
}

impl View for ColumnSet {
    type V = ColumnSetView;

    open spec fn view(&self) -> ColumnSetView {
        ColumnSetView { columns: views_of(self.columns@) }
    }
}

/// What the body of a card can hold.
#[derive(Debug, PartialEq, Eq)]
pub enum BodyItem {
    TextBlock(TextBlock),
    ColumnSet(ColumnSet),
}

/// What the body of a card can hold, as plain values.
pub enum BodyItemView {
    TextBlock(TextBlockView),
    ColumnSet(ColumnSetView),
}

impl View for BodyItem {
    type V = BodyItemView;

    open spec fn view(&self) -> BodyItemView {
        match self {
            BodyItem::TextBlock(t) => BodyItemView::TextBlock(t@),
            BodyItem::ColumnSet(c) => BodyItemView::ColumnSet(c@),
        }
    }
}

/// Something the reader of a card can do.
#[derive(Debug, PartialEq, Eq)]
pub struct Action {
    pub action_type: String,
    pub title: String,
    pub url: String,
}

/// An action as plain values.
pub struct ActionView {
    pub action_type: Seq<char>,
    pub title: Seq<char>,
    pub url: Seq<char>,
}

impl View for Action {
    type V = ActionView;

    open spec fn view(&self) -> ActionView {
        ActionView { action_type: self.action_type@, title: self.title@, url: self.url@ }
    }
}

/// The card proper: its body and its actions.
#[derive(Debug, PartialEq, Eq)]
pub struct Content {
    pub content_type: String,
    pub schema: String,
    pub version: String,
    pub body: Vec<BodyItem>,
    pub actions: Vec<Action>,
}

/// The card proper, as plain values.
pub struct ContentView {
    pub content_type: Seq<char>,
    pub schema: Seq<char>,
    pub version: Seq<char>,
    pub body: Seq<BodyItemView>,
    pub actions: Seq<ActionView>,
}

impl View for Content {
    type V = ContentView;

    open spec fn view(&self) -> ContentView {
        ContentView {
            content_type: self.content_type@,
            schema: self.schema@,
            version: self.version@,
            body: views_of(self.body@),
            actions: views_of(self.actions@),
        }
    }
}

/// A card as a message carries it.
#[derive(Debug, PartialEq, Eq)]
pub struct Attachment {
    pub content_type: String,
    pub content_url: String,
    pub content: Content,
}

/// An attachment as plain values.
pub struct AttachmentView {
    pub content_type: Seq<char>,
    pub content_url: Seq<char>,
    pub content: ContentView,
}

impl View for Attachment {
    type V = AttachmentView;

    open spec fn view(&self) -> AttachmentView {
        AttachmentView {
            content_type: self.content_type@,
            content_url: self.content_url@,
            content: self.content@,
        }
    }
}

/// The message that carries a rich card.
#[derive(Debug, PartialEq, Eq)]
pub struct AdaptiveCardData {
    pub data_type: String,
    pub attachments: Vec<Attachment>,
}

/// The message that carries a rich card, as plain values.
pub struct AdaptiveCardDataView {
    pub data_type: Seq<char>,
    pub attachments: Seq<AttachmentView>,
}

impl View for AdaptiveCardData {
    type V = AdaptiveCardDataView;

    open spec fn view(&self) -> AdaptiveCardDataView {
        AdaptiveCardDataView {
            data_type: self.data_type@,
            attachments: views_of(self.attachments@),
        }
    }
}

/// The card's title: pipeline, build number and the state's label.
pub open spec fn title_block(d: BuildDataView) -> TextBlockView {
    TextBlockView {
        size: Some("medium"@),
        weight: "Bolder"@,
        text: d.pipeline.name + " #"@ + d.build.number + " "@ + d.build.state.label_of(),
        color: "Good"@,
        wrap: None,
        ..default_text_block()
    }
}

/// The sender's avatar, with the sender's name as its alternative text.
pub open spec fn avatar(d: BuildDataView) -> ImageView {
    ImageView {
        style: "person"@,
        url: d.creator_avatar,
        alt_text: d.sender_name,
        size: "small"@,
    }
}

/// The sender's name, in bold.
pub open spec fn sender_block(d: BuildDataView) -> TextBlockView {
    TextBlockView { weight: "Bolder"@, text: d.sender_name, wrap: Some(true), ..default_text_block() }
}

/// When the build was created: subdued, with no spacing above it.
pub open spec fn created_block(d: BuildDataView) -> TextBlockView {
    TextBlockView {
        text: "Created "@ + d.build.created_at,
        is_subtle: Some(true),
        spacing: "none"@,
        wrap: Some(true),
        ..default_text_block()
    }
}

/// A small, subdued line in a monospace font.
pub open spec fn detail_line(text: Seq<char>) -> TextBlockView {
    TextBlockView {
        text,
        is_subtle: Some(true),
        font_type: "Monospace"@,
        size: Some("small"@),
        wrap: Some(true),
        ..default_text_block()
    }
}

/// Who started the build: the avatar in a narrow column, name and creation
/// time in a wide one.
pub open spec fn identity_block(d: BuildDataView) -> ColumnSetView {
    ColumnSetView {
        columns: seq![
            ColumnView {
                column_type: "Column"@,
                items: seq![ColumnItemView::Image(avatar(d))],
                width: "auto"@,
            },
            ColumnView {
                column_type: "Column"@,
                items: seq![
                    ColumnItemView::TextBlock(sender_block(d)),
                    ColumnItemView::TextBlock(created_block(d)),
                ],
                width: "stretch"@,
            },
        ],
    }
}

/// The link to the build's page.
pub open spec fn build_link(d: BuildDataView) -> ActionView {
    ActionView {
        action_type: "Action.OpenUrl"@,
        title: "View in Buildkite"@,
        url: d.pipeline.web_url + "/builds/"@ + d.build.number,
    }
}

/// The rich card for a build event: a title, who started the build, the
/// repository and the commit, and a link to the build's page.
pub open spec fn rich_card(d: BuildDataView) -> AdaptiveCardDataView {
    AdaptiveCardDataView {
        data_type: "message"@,
        attachments: seq![
            AttachmentView {
                content_type: "application/vnd.microsoft.card.adaptive"@,
                content_url: "none"@,
                content: ContentView {
                    content_type: "AdaptiveCard"@,
                    schema: "http://adaptivecards.io/schemas/adaptive-card.json"@,
                    version: "1.5"@,
                    body: seq![
                        BodyItemView::TextBlock(title_block(d)),
                        BodyItemView::ColumnSet(identity_block(d)),
                        BodyItemView::TextBlock(detail_line("Repository: "@ + d.pipeline.repository)),
                        BodyItemView::TextBlock(detail_line("Commit: "@ + d.build.commit)),
                    ],
                    actions: seq![build_link(d)],
                },
            },
        ],
    }
}

impl TextBlock {
    /// A small, subdued line of `text` in a monospace font.
    pub fn detail(text: String) -> (block: TextBlock)
        ensures
            block@ == detail_line(text@),
    {
        let mut block = TextBlock::default();
        block.text = text;
        block.is_subtle = Some(true);
        block.font_type = String::from_str("Monospace");
        block.size = Some(String::from_str("small"));
        block.wrap = Some(true);
        block
    }
}

/// The conversion is stated over the models: `from` promises a card whose
/// model is `rich_card` of the event's model. Which card of that model comes
/// out is not fixed, so `from_spec` only names one of them.
impl FromSpecImpl<BuildData> for AdaptiveCardData {
    open spec fn obeys_from_spec() -> bool {
        false
    }

    open spec fn from_spec(data: BuildData) -> AdaptiveCardData {
        choose|card: AdaptiveCardData| card@ == rich_card(data@)
    }
}

impl From<BuildData> for AdaptiveCardData {
    /// Builds the rich card for a build event.
    fn from(data: BuildData) -> (card: AdaptiveCardData)
        ensures
            card@ == rich_card(data@),
    {
        let ghost d = data@;
        let BuildData { pipeline, build, sender_name, creator_avatar } = data;

        let mut title_text = join(pipeline.name.as_str(), " #");
        title_text.append(build.number.as_str());
        title_text.append(" ");
        title_text.append(build.state.label());
        let mut title = TextBlock::default();
        title.size = Some(String::from_str("medium"));
        title.weight = String::from_str("Bolder");
        title.text = title_text;
        title.color = String::from_str("Good");
        title.wrap = None;
        assert(title@ == title_block(d));

        let picture = Image {
            style: String::from_str("person"),
            url: creator_avatar,
            alt_text: sender_name.clone(),
            size: String::from_str("small"),
        };
        let mut left_items: Vec<ColumnItem> = Vec::new();
        left_items.push(ColumnItem::Image(picture));
        let left = Column {
            column_type: String::from_str("Column"),
            items: left_items,
            width: String::from_str("auto"),
        };
        assert(left@.items =~= seq![ColumnItemView::Image(avatar(d))]);

        let mut sender = TextBlock::default();
        sender.weight = String::from_str("Bolder");
        sender.text = sender_name;
        sender.wrap = Some(true);
        let mut created = TextBlock::default();
        created.text = join("Created ", build.created_at.as_str());
        created.is_subtle = Some(true);
        created.spacing = String::from_str("none");
        created.wrap = Some(true);
        let mut right_items: Vec<ColumnItem> = Vec::new();
        right_items.push(ColumnItem::TextBlock(sender));
        right_items.push(ColumnItem::TextBlock(created));
        let right = Column {
            column_type: String::from_str("Column"),
            items: right_items,
            width: String::from_str("stretch"),
        };
        assert(right@.items =~= seq![
            ColumnItemView::TextBlock(sender_block(d)),
            ColumnItemView::TextBlock(created_block(d)),
        ]);

        let mut columns: Vec<Column> = Vec::new();
        columns.push(left);
        columns.push(right);
        let identity = ColumnSet { columns };
        assert(identity@.columns =~= identity_block(d).columns);

        let repository = TextBlock::detail(join("Repository: ", pipeline.repository.as_str()));
        let commit = TextBlock::detail(join("Commit: ", build.commit.as_str()));
        let mut body: Vec<BodyItem> = Vec::new();
        body.push(BodyItem::TextBlock(title));
        body.push(BodyItem::ColumnSet(identity));
        body.push(BodyItem::TextBlock(repository));
        body.push(BodyItem::TextBlock(commit));

        let mut link_url = join(pipeline.web_url.as_str(), "/builds/");
        link_url.append(build.number.as_str());
        let link = Action {
            action_type: String::from_str("Action.OpenUrl"),
            title: String::from_str("View in Buildkite"),
            url: link_url,
        };
        let mut actions: Vec<Action> = Vec::new();
        actions.push(link);

        let content = Content {
            content_type: String::from_str("AdaptiveCard"),
            schema: String::from_str("http://adaptivecards.io/schemas/adaptive-card.json"),
            version: String::from_str("1.5"),
            body,
            actions,
        };
        assert(content@.body =~= rich_card(d).attachments[0].content.body);
        assert(content@.actions =~= seq![build_link(d)]);

        let attachment = Attachment {
            content_type: String::from_str("application/vnd.microsoft.card.adaptive"),
            content_url: String::from_str("none"),
            content,
        };
        let mut attachments: Vec<Attachment> = Vec::new();
        attachments.push(attachment);
        let card = AdaptiveCardData { data_type: String::from_str("message"), attachments };
        assert(card@.attachments =~= rich_card(d).attachments);
        card
    }
}

/// Equal build events give equal cards, and equal cards are written as the
/// same JSON text: nothing but the event goes into either.
pub proof fn lemma_rich_card_deterministic(a: BuildData, b: BuildData)
    requires
        a@ == b@,
    ensures
        rich_card(a@) == rich_card(b@),
        rendered(card_json(rich_card(a@))) == rendered(card_json(rich_card(b@))),
{
}

} // verus!
