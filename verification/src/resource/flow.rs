//! Flows.

use vstd::prelude::*;

use crate::error::Error;
use crate::json::{has_member, member, Json, JsonView};
use crate::ident::{hyphenated, new_v4, to_hyphenated};
use crate::resource::{
    description_or_empty, format_urn, id_texts, ids_to_strings, Format, ResourceCore,
    ResourceCoreBuilder, Source,
};
use crate::schema::is_04;
use crate::tags::{keys_ascending, texts, with_tag, TagsView};
use crate::tai::{tai_text, TaiTime};
use crate::version::{supported, APIVersion};

verus! {

/// Collects what a flow has, before the flow is made.
#[derive(Debug)]
#[must_use]
pub struct FlowBuilder {
    pub core: ResourceCoreBuilder,
    pub format: Format,
    pub source_id: u128,
    pub parents: Vec<u128>,
}

/// A flow: a sequence of media from a source.
#[derive(Debug)]
pub struct Flow {
    pub core: ResourceCore,
    pub format: Format,
    pub source_id: u128,
    pub parents: Vec<u128>,
}

/// The JSON form of a flow, by API version.
#[derive(Debug)]
pub enum FlowJson {
    V1_0(is_04::v1_0_x::Flow),
}

/// Whether `json` is the v1.0 form of `flow`.
pub open spec fn is_flow_v1_0(flow: Flow, json: is_04::v1_0_x::Flow) -> bool {
    &&& json.id@ == hyphenated(flow.core.id)
    &&& json.version@ == tai_text(flow.core.version.secs(), flow.core.version.nanos())
    &&& json.label@ == flow.core.label@
    &&& json.description@ == flow.core.description@
    &&& json.format@ == format_urn(flow.format)
    &&& json.tags@ == flow.core.tags@
    &&& json.source_id@ == hyphenated(flow.source_id)
    &&& texts(json.parents@) == id_texts(flow.parents@)
}

impl FlowBuilder {
    /// A builder for a flow of `source`, with a label. The flow has the
    /// format of its source.
    pub fn new(label: &str, source: &Source) -> (b: Self)
        ensures
            b.core.label@ == label@,
            b.core.description is None,
            b.core.tags@ == TagsView::empty(),
            b.format == source.format,
            b.source_id == source.core.id,
            b.parents@.len() == 0,
    {
        FlowBuilder {
            core: ResourceCoreBuilder::new(label),
            format: source.format,
            source_id: source.core.id,
            parents: Vec::new(),
        }
    }

    /// Sets the description.
    pub fn description(self, description: &str) -> (b: Self)
        ensures
            b.core.label == self.core.label,
            b.core.description matches Some(text) && text@ == description@,
            b.core.tags == self.core.tags,
            b.format == self.format,
            b.source_id == self.source_id,
            b.parents == self.parents,
    {
        FlowBuilder {
            core: self.core.description(description),
            format: self.format,
            source_id: self.source_id,
            parents: self.parents,
        }
    }

    /// Puts `values` under the tag `key`, in place of what the key had.
    pub fn tag(self, key: &str, values: &[&str]) -> (b: Self)
        ensures
            b.core.label == self.core.label,
            b.core.description == self.core.description,
            b.core.tags@ == with_tag(
                self.core.tags@,
                key@,
                Seq::new(values@.len(), |i: int| values@[i]@),
            ),
            keys_ascending(b.core.tags@),
            b.format == self.format,
            b.source_id == self.source_id,
            b.parents == self.parents,
    {
        FlowBuilder {
            core: self.core.tag(key, values),
            format: self.format,
            source_id: self.source_id,
            parents: self.parents,
        }
    }

    /// The flow with the given identifier and version stamp.
    pub fn build_with(self, id: u128, version: TaiTime) -> (flow: Flow)
        ensures
            flow.core.id == id,
            flow.core.version == version,
            flow.core.label == self.core.label,
            flow.core.description@ == description_or_empty(self.core.description),
            flow.core.tags == self.core.tags,
            flow.format == self.format,
            flow.source_id == self.source_id,
            flow.parents == self.parents,
    {
        Flow {
            core: self.core.build_with(id, version),
            format: self.format,
            source_id: self.source_id,
            parents: self.parents,
        }
    }

    /// The flow, with a fresh random identifier and the current time as its
    /// version.
    #[must_use]
    pub fn build(self) -> (flow: Flow)
        ensures
            flow.core.label == self.core.label,
            flow.core.description@ == description_or_empty(self.core.description),
            flow.core.tags == self.core.tags,
            flow.format == self.format,
            flow.source_id == self.source_id,
            flow.parents == self.parents,
    {
        let id = new_v4();
        let version = TaiTime::now();
        self.build_with(id, version)
    }
}

impl Flow {
    /// A builder for a flow of `source`, with a label.
    pub fn builder(label: &str, source: &Source) -> (b: FlowBuilder)
        ensures
            b.core.label@ == label@,
            b.core.description is None,
            b.core.tags@ == TagsView::empty(),
            b.format == source.format,
            b.source_id == source.core.id,
            b.parents@.len() == 0,
    {
        FlowBuilder::new(label, source)
    }

    /// The JSON form of the flow in version 1.0 of the API.
    pub fn to_v1_0(&self) -> (json: is_04::v1_0_x::Flow)
        ensures
            is_flow_v1_0(*self, json),
    {
        is_04::v1_0_x::Flow {
            id: to_hyphenated(self.core.id),
            version: self.core.version.to_string(),
            label: self.core.label.clone(),
            description: self.core.description.clone(),
            format: self.format.to_string(),
            tags: self.core.tags.duplicate(),
            source_id: to_hyphenated(self.source_id),
            parents: ids_to_strings(&self.parents),
        }
    }

    /// The JSON form of the flow in the given API version.
    #[must_use]
    pub fn to_json(&self, api: &APIVersion) -> (r: Result<FlowJson, Error>)
        ensures
            supported(*api) ==> (r matches Ok(FlowJson::V1_0(json)) && is_flow_v1_0(*self, json)),
            !supported(*api) ==> r == Err::<FlowJson, Error>(Error::UnsupportedVersion),
    {
        if api.is_supported() {
            Ok(FlowJson::V1_0(self.to_v1_0()))
        } else {
            Err(Error::UnsupportedVersion)
        }
    }
}

impl FlowJson {
    /// The JSON value of the form.
    pub open spec fn value(&self) -> JsonView {
        match *self {
            FlowJson::V1_0(json) => json.value(),
        }
    }

    /// The JSON value of the form.
    pub fn to_json(&self) -> (json: Json)
        ensures
            json@ == self.value(),
    {
        match self {
            FlowJson::V1_0(json) => json.to_json(),
        }
    }
}

/// The JSON form of a flow carries, under `version`, the text of the
/// version stamp of the flow: its seconds, a colon, its nanoseconds.
pub proof fn lemma_flow_version(flow: Flow, json: is_04::v1_0_x::Flow)
    requires
        is_flow_v1_0(flow, json),
    ensures
        has_member(
            json.value(),
            "version"@,
            JsonView::Text(tai_text(flow.core.version.secs(), flow.core.version.nanos())),
        ),
{
    let members = json.value()->Object_0;
    assert(members[1] == member("version"@, JsonView::Text(json.version@)));
}

} // verus!
