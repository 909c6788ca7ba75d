//! The marketplace's answer about the tracked plugin.

use crate::calendar::{LocalDateTime, LocalDateTimeView};
use vstd::prelude::*;

verus! {

/// One published version of the plugin.
#[derive(Debug, Clone, PartialEq, Eq)]
pub struct FvsPublishMessageRelatedPlugin {
    pub pluginid: String,
    pub name: String,
    pub upload_time: LocalDateTime,
    pub pluginversion: String,
    pub jartime: LocalDateTime,
    /// The changelog, in the marketplace's HTML-like markup.
    pub changenotes: String,
    pub pic: String,
}

/// What a [`FvsPublishMessageRelatedPlugin`] stands for.
pub struct RelatedPluginView {
    pub pluginid: Seq<char>,
    pub name: Seq<char>,
    pub upload_time: LocalDateTimeView,
    pub pluginversion: Seq<char>,
    pub jartime: LocalDateTimeView,
    pub changenotes: Seq<char>,
    pub pic: Seq<char>,
}

impl View for FvsPublishMessageRelatedPlugin {
    type V = RelatedPluginView;

    open spec fn view(&self) -> RelatedPluginView {
        RelatedPluginView {
            pluginid: self.pluginid@,
            name: self.name@,
            upload_time: self.upload_time@,
            pluginversion: self.pluginversion@,
            jartime: self.jartime@,
            changenotes: self.changenotes@,
            pic: self.pic@,
        }
    }
}

/// The plugin's listing: its published versions, the latest first.
#[derive(Debug, Clone, PartialEq, Eq)]
pub struct FvsPublishMessageResult {
    pub id: String,
    pub name: String,
    pub related_plugins: Vec<FvsPublishMessageRelatedPlugin>,
}

/// What a [`FvsPublishMessageResult`] stands for.
pub struct PublishResultView {
    pub id: Seq<char>,
    pub name: Seq<char>,
    pub related_plugins: Seq<RelatedPluginView>,
}

impl View for FvsPublishMessageResult {
    type V = PublishResultView;

    open spec fn view(&self) -> PublishResultView {
        PublishResultView {
            id: self.id@,
            name: self.name@,
            related_plugins: self.related_plugins@.map_values(
                |p: FvsPublishMessageRelatedPlugin| p@,
            ),
        }
    }
}

/// The envelope of the marketplace's answer.
#[derive(Debug, Clone, PartialEq, Eq)]
pub struct FvsPublishMessage {
    pub state: String,
    pub result: FvsPublishMessageResult,
}

/// What a [`FvsPublishMessage`] stands for.
pub struct PublishMessageView {
    pub state: Seq<char>,
    pub result: PublishResultView,
}

impl PublishMessageView {
    /// The latest published version, if the listing has any.
    pub open spec fn latest(self) -> Option<RelatedPluginView> {
        if self.result.related_plugins.len() > 0 {
            Some(self.result.related_plugins[0])
        } else {
            None
        }
    }
}

impl View for FvsPublishMessage {
    type V = PublishMessageView;

    open spec fn view(&self) -> PublishMessageView {
        PublishMessageView { state: self.state@, result: self.result@ }
    }
}

impl FvsPublishMessage {
    /// The latest published version, if the listing has any.
    pub fn latest(&self) -> (r: Option<&FvsPublishMessageRelatedPlugin>)
        ensures
            match r {
                Some(plugin) => self@.latest() == Some(plugin@),
                None => self@.latest() is None,
            },
    {
        if self.result.related_plugins.len() > 0 {
            Some(&self.result.related_plugins[0])
        } else {
            None
        }
    }
}

} // verus!
