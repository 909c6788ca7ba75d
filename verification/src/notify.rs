//! From a published version to the news card that announces it.

use crate::fvs::{FvsPublishMessageRelatedPlugin, RelatedPluginView};
use crate::text::{
    chars_of, contains, find_from, is_first_match, lemma_first_match_unique, no_match_from,
    occurs_at,
};
use vstd::prelude::*;
use vstd::string::StringExecFns;

verus! {

/// Opens the highlighted span of a changelog entry.
pub const OPEN_MARKER: &'static str = "<a>";

/// Closes the highlighted span of a changelog entry.
pub const CLOSE_MARKER: &'static str = "</a>";

/// The start of a notification's title: the product label, then `v`.
pub const TITLE_PREFIX: &'static str = "FineVis数据可视化\nv";

/// The end of a notification's title.
pub const TITLE_SUFFIX: &'static str = " 发布成功";

/// Stands between the publish date and the jar date in a card's description.
pub const JAR_TIME_LABEL: &'static str = "\n🎉🎉🎉🎉🎉🎉\nJar包时间: ";

/// Stands between the jar date and the feature in a card's description.
pub const FEATURE_LABEL: &'static str = "\n更新内容：\n";

/// The kind of message a card is sent as.
pub const MESSAGE_TYPE: &'static str = "news";

/// The page a card links to: the plugin's listing on the marketplace.
pub const LISTING_URL: &'static str =
    "https://market.fanruan.com/plugin/2b55753a-3d27-45cc-997b-e450b6c33fbc";

/// The first opening marker of `text` starts at `start`, and the first
/// closing marker at or after `start` starts at `end`.
pub open spec fn is_a_tag_span(text: Seq<char>, start: int, end: int) -> bool {
    &&& is_first_match(text, OPEN_MARKER@, 0, start)
    &&& is_first_match(text, CLOSE_MARKER@, start, end)
}

/// `text` has an opening marker and a closing marker after the first one.
pub open spec fn has_a_tag(text: Seq<char>) -> bool {
    exists|start: int, end: int| is_a_tag_span(text, start, end)
}

/// What stands strictly between the first opening marker of `text` and the
/// closing marker that follows it.
pub open spec fn a_tag_content(text: Seq<char>) -> Seq<char>
    recommends
        has_a_tag(text),
{
    let (start, end) = choose|start: int, end: int| is_a_tag_span(text, start, end);
    text.subrange(start + OPEN_MARKER@.len(), end)
}

/// The highlight of a changelog: the content of its first marked span, or
/// nothing where it has none.
pub open spec fn feature_of(changenotes: Seq<char>) -> Seq<char> {
    if has_a_tag(changenotes) {
        a_tag_content(changenotes)
    } else {
        Seq::empty()
    }
}

/// A closing marker that follows an opening marker starts after its end.
proof fn lemma_close_after_open(text: Seq<char>, start: int, end: int)
    requires
        occurs_at(text, OPEN_MARKER@, start),
        occurs_at(text, CLOSE_MARKER@, end),
        start <= end,
    ensures
        start + 3 <= end,
        OPEN_MARKER@.len() == 3,
        CLOSE_MARKER@.len() == 4,
{
    reveal_strlit("<a>");
    reveal_strlit("</a>");
    let open = text.subrange(start, start + 3);
    let close = text.subrange(end, end + 4);
    assert(open[1] == 'a' && open[2] == '>');
    assert(close[0] == '<' && close[1] == '/');
    if end == start {
        assert(text[start + 1] == open[1]);
        assert(text[start + 1] == close[1]);
    } else if end == start + 1 {
        assert(text[start + 1] == open[1]);
        assert(text[start + 1] == close[0]);
    } else if end == start + 2 {
        assert(text[start + 2] == open[2]);
        assert(text[start + 2] == close[0]);
    }
}

/// The highlight is what stands between the first opening marker and the
/// closing marker that follows it.
pub proof fn lemma_feature_between_markers(text: Seq<char>, start: int, end: int)
    requires
        is_a_tag_span(text, start, end),
    ensures
        has_a_tag(text),
        start + 3 <= end,
        feature_of(text) == text.subrange(start + 3, end),
{
    lemma_close_after_open(text, start, end);
    let (s, e) = choose|s: int, e: int| is_a_tag_span(text, s, e);
    lemma_first_match_unique(text, OPEN_MARKER@, 0, start, s);
    lemma_first_match_unique(text, CLOSE_MARKER@, start, end, e);
}

/// A changelog without an opening marker has no highlight.
pub proof fn lemma_feature_without_open_marker(text: Seq<char>)
    requires
        no_match_from(text, OPEN_MARKER@, 0),
    ensures
        !has_a_tag(text),
        feature_of(text) == Seq::<char>::empty(),
{
}

/// A changelog whose first opening marker is followed by no closing marker
/// has no highlight.
pub proof fn lemma_feature_without_close_marker(text: Seq<char>, start: int)
    requires
        is_first_match(text, OPEN_MARKER@, 0, start),
        no_match_from(text, CLOSE_MARKER@, start),
    ensures
        !has_a_tag(text),
        feature_of(text) == Seq::<char>::empty(),
{
    assert forall|s: int, e: int| !is_a_tag_span(text, s, e) by {
        if is_a_tag_span(text, s, e) {
            lemma_first_match_unique(text, OPEN_MARKER@, 0, start, s);
        }
    }
}

/// Only the first marked span counts: once a changelog holds one, whatever
/// is appended to it leaves the highlight as it is.
pub proof fn lemma_feature_ignores_rest(head: Seq<char>, rest: Seq<char>)
    requires
        has_a_tag(head),
    ensures
        has_a_tag(head + rest),
        feature_of(head + rest) == feature_of(head),
{
    let (start, end) = choose|start: int, end: int| is_a_tag_span(head, start, end);
    let whole = head + rest;
    lemma_feature_between_markers(head, start, end);
    assert forall|pat: Seq<char>, i: int| 0 <= i && i + pat.len() <= head.len() implies occurs_at(
        whole,
        pat,
        i,
    ) == occurs_at(head, pat, i) by {
        assert(whole.subrange(i, i + pat.len()) =~= head.subrange(i, i + pat.len()));
    }
    assert(is_first_match(whole, OPEN_MARKER@, 0, start));
    assert(is_first_match(whole, CLOSE_MARKER@, start, end));
    lemma_feature_between_markers(whole, start, end);
    assert(whole.subrange(start + 3, end) =~= head.subrange(start + 3, end));
}

/// The content of the first marked span of `text`, if it has one.
pub fn find_first_a_tag_content(text: &str) -> (r: Option<&str>)
    ensures
        r is Some <==> has_a_tag(text@),
        r matches Some(inner) ==> inner@ == a_tag_content(text@),
{
    let chars = chars_of(text);
    let open = chars_of(OPEN_MARKER);
    let close = chars_of(CLOSE_MARKER);
    if let Some(start) = find_from(&chars, &open, 0) {
        if let Some(end) = find_from(&chars, &close, start) {
            proof {
                lemma_feature_between_markers(text@, start as int, end as int);
            }
            return Some(text.substring_char(start + 3, end));
        }
        proof {
            lemma_feature_without_close_marker(text@, start as int);
        }
        return None;
    }
    proof {
        lemma_feature_without_open_marker(text@);
    }
    None
}

/// The highlight of a changelog: the content of its first marked span, or
/// the empty string where it has none.
pub fn get_feature(changenotes: &str) -> (feature: String)
    ensures
        feature@ == feature_of(changenotes@),
{
    match find_first_a_tag_content(changenotes) {
        Some(inner) => inner.to_owned(),
        None => String::new(),
    }
}

/// What a notification says, field by field.
pub struct NotifyMessage {
    pub title: String,
    pub version: String,
    pub publish_time: String,
    pub jar_time: String,
    pub feature: String,
    pub pic: String,
}

/// What a [`NotifyMessage`] stands for.
pub struct NotifyMessageView {
    pub title: Seq<char>,
    pub version: Seq<char>,
    pub publish_time: Seq<char>,
    pub jar_time: Seq<char>,
    pub feature: Seq<char>,
    pub pic: Seq<char>,
}

impl View for NotifyMessage {
    type V = NotifyMessageView;

    open spec fn view(&self) -> NotifyMessageView {
        NotifyMessageView {
            title: self.title@,
            version: self.version@,
            publish_time: self.publish_time@,
            jar_time: self.jar_time@,
            feature: self.feature@,
            pic: self.pic@,
        }
    }
}

/// The title that announces `version`: the product label on one line,
/// `v{version} 发布成功` on the next.
pub open spec fn title_of(version: Seq<char>) -> Seq<char> {
    TITLE_PREFIX@ + version + TITLE_SUFFIX@
}

impl NotifyMessageView {
    /// The notification with the given fields and the title that announces
    /// its version.
    pub open spec fn new(
        version: Seq<char>,
        publish_time: Seq<char>,
        jar_time: Seq<char>,
        feature: Seq<char>,
        pic: Seq<char>,
    ) -> NotifyMessageView {
        NotifyMessageView { title: title_of(version), version, publish_time, jar_time, feature, pic }
    }

    /// The notification that announces a published version: its dates as
    /// the card shows them, and the highlight of its changelog.
    pub open spec fn of_plugin(plugin: RelatedPluginView) -> NotifyMessageView {
        NotifyMessageView::new(
            plugin.pluginversion,
            plugin.upload_time.date_text(),
            plugin.jartime.date_text(),
            feature_of(plugin.changenotes),
            plugin.pic,
        )
    }

    /// The description of the card: the publish date, the separator, the
    /// labelled jar date, then the labelled feature.
    pub open spec fn description(self) -> Seq<char> {
        self.publish_time + JAR_TIME_LABEL@ + self.jar_time + FEATURE_LABEL@ + self.feature
    }
}

impl NotifyMessage {
    /// The notification with the given fields and the title that announces
    /// its version.
    pub fn new(
        version: String,
        publish_time: String,
        jar_time: String,
        feature: String,
        pic: String,
    ) -> (message: NotifyMessage)
        ensures
            message@ == NotifyMessageView::new(version@, publish_time@, jar_time@, feature@, pic@),
    {
        let mut title = String::from_str(TITLE_PREFIX);
        title.append(version.as_str());
        title.append(TITLE_SUFFIX);
        NotifyMessage { title, version, publish_time, jar_time, feature, pic }
    }
}

/// The notification that announces a published version.
pub fn make_notify_message(publish_message: &FvsPublishMessageRelatedPlugin) -> (message:
    NotifyMessage)
    ensures
        message@ == NotifyMessageView::of_plugin(publish_message@),
{
    NotifyMessage::new(
        publish_message.pluginversion.clone(),
        publish_message.upload_time.date_text(),
        publish_message.jartime.date_text(),
        get_feature(publish_message.changenotes.as_str()),
        publish_message.pic.clone(),
    )
}

/// One article of a news card.
#[derive(Default, Debug, Clone, PartialEq)]
pub struct BotMessageArticle {
    pub title: String,
    pub description: String,
    pub url: String,
    pub picurl: String,
}

/// What a [`BotMessageArticle`] stands for.
pub struct BotMessageArticleView {
    pub title: Seq<char>,
    pub description: Seq<char>,
    pub url: Seq<char>,
    pub picurl: Seq<char>,
}

impl View for BotMessageArticle {
    type V = BotMessageArticleView;

    open spec fn view(&self) -> BotMessageArticleView {
        BotMessageArticleView {
            title: self.title@,
            description: self.description@,
            url: self.url@,
            picurl: self.picurl@,
        }
    }
}

/// The articles of a news card.
#[derive(Default, Debug, Clone, PartialEq)]
pub struct BotMessageNews {
    pub articles: Vec<BotMessageArticle>,
}

/// What a [`BotMessageNews`] stands for.
pub struct BotMessageNewsView {
    pub articles: Seq<BotMessageArticleView>,
}

impl View for BotMessageNews {
    type V = BotMessageNewsView;

    open spec fn view(&self) -> BotMessageNewsView {
        BotMessageNewsView { articles: self.articles@.map_values(|a: BotMessageArticle| a@) }
    }
}

/// The payload the webhook receives: a news card.
#[derive(Default, Debug, Clone, PartialEq)]
pub struct BotMessage {
    pub msgtype: String,
    pub news: BotMessageNews,
}

/// What a [`BotMessage`] stands for.
pub struct BotMessageView {
    pub msgtype: Seq<char>,
    pub news: BotMessageNewsView,
}

impl View for BotMessage {
    type V = BotMessageView;

    open spec fn view(&self) -> BotMessageView {
        BotMessageView { msgtype: self.msgtype@, news: self.news@ }
    }
}

impl BotMessageView {
    /// The card that carries a notification: one article with the
    /// notification's title, its description, the link to the listing and
    /// the plugin's picture.
    pub open spec fn of_notification(message: NotifyMessageView) -> BotMessageView {
        BotMessageView {
            msgtype: MESSAGE_TYPE@,
            news: BotMessageNewsView {
                articles: seq![
                    BotMessageArticleView {
                        title: message.title,
                        description: message.description(),
                        url: LISTING_URL@,
                        picurl: message.pic,
                    },
                ],
            },
        }
    }

    /// The card that announces a published version.
    pub open spec fn of_plugin(plugin: RelatedPluginView) -> BotMessageView {
        BotMessageView::of_notification(NotifyMessageView::of_plugin(plugin))
    }
}

impl BotMessage {
    /// The card that carries a notification.
    pub fn from_notify_message(message: NotifyMessage) -> (card: BotMessage)
        ensures
            card@ == BotMessageView::of_notification(message@),
    {
        let mut description = message.publish_time;
        description.append(JAR_TIME_LABEL);
        description.append(message.jar_time.as_str());
        description.append(FEATURE_LABEL);
        description.append(message.feature.as_str());
        let article = BotMessageArticle {
            title: message.title,
            description,
            url: String::from_str(LISTING_URL),
            picurl: message.pic,
        };
        let mut articles: Vec<BotMessageArticle> = Vec::new();
        articles.push(article);
        let card = BotMessage {
            msgtype: String::from_str(MESSAGE_TYPE),
            news: BotMessageNews { articles },
        };
        assert(card@.news.articles =~= BotMessageView::of_notification(message@).news.articles);
        card
    }
}

/// The card that announces a published version.
pub fn format_notification(plugin: &FvsPublishMessageRelatedPlugin) -> (card: BotMessage)
    ensures
        card@ == BotMessageView::of_plugin(plugin@),
{
    BotMessage::from_notify_message(make_notify_message(plugin))
}

/// Every card shows what it announces: its title holds `v` and the version,
/// its description holds both dates and the highlight as they are, and its
/// picture is the plugin's.
pub proof fn lemma_card_shows_plugin(plugin: RelatedPluginView)
    ensures
        ({
            let card = BotMessageView::of_plugin(plugin);
            &&& card.news.articles.len() == 1
            &&& contains(card.news.articles[0].title, seq!['v'] + plugin.pluginversion)
            &&& contains(card.news.articles[0].description, plugin.upload_time.date_text())
            &&& contains(card.news.articles[0].description, plugin.jartime.date_text())
            &&& contains(card.news.articles[0].description, feature_of(plugin.changenotes))
            &&& card.news.articles[0].picurl == plugin.pic
        }),
{
    let article = BotMessageView::of_plugin(plugin).news.articles[0];
    let publish = plugin.upload_time.date_text();
    let jar = plugin.jartime.date_text();
    let feature = feature_of(plugin.changenotes);
    reveal_strlit("FineVis数据可视化\nv");
    let at_v: int = TITLE_PREFIX@.len() - 1;
    let versioned = seq!['v'] + plugin.pluginversion;
    assert(article.title.subrange(at_v, at_v + versioned.len()) =~= versioned);
    assert(occurs_at(article.title, versioned, at_v));
    let text = article.description;
    assert(text.subrange(0, publish.len() as int) =~= publish);
    assert(occurs_at(text, publish, 0));
    let at_jar: int = (publish.len() + JAR_TIME_LABEL@.len()) as int;
    assert(text.subrange(at_jar, at_jar + jar.len()) =~= jar);
    assert(occurs_at(text, jar, at_jar));
    let at_feature: int = at_jar + jar.len() + FEATURE_LABEL@.len();
    assert(text.subrange(at_feature, at_feature + feature.len()) =~= feature);
    assert(occurs_at(text, feature, at_feature));
}

} // verus!
