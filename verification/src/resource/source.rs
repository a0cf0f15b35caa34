//! Sources.

use vstd::prelude::*;

use crate::error::Error;
use crate::json::{has_member, member, Json, JsonView};
use crate::ident::{hyphenated, new_v4, to_hyphenated};
use crate::resource::{
    description_or_empty, format_urn, id_texts, ids_to_strings, Device, Format, ResourceCore,
    ResourceCoreBuilder,
};
use crate::schema::is_04;
use crate::tags::{texts, TagsView};
use crate::tai::{tai_text, TaiTime};
use crate::version::{supported, APIVersion};

verus! {

/// Collects what a source has, before the source is made.
#[derive(Debug)]
#[must_use]
pub struct SourceBuilder {
    pub core: ResourceCoreBuilder,
    pub format: Format,
    pub device_id: u128,
    pub parents: Vec<u128>,
}

/// A source: the origin of flows within a device.
#[derive(Debug)]
pub struct Source {
    pub core: ResourceCore,
    pub format: Format,
    pub device_id: u128,
    pub parents: Vec<u128>,
}

/// The JSON form of a source, by API version.
#[derive(Debug)]
pub enum SourceJson {
    V1_0(is_04::v1_0_x::Source),
}

/// Whether `json` is the v1.0 form of `source`.
pub open spec fn is_source_v1_0(source: Source, json: is_04::v1_0_x::Source) -> bool {
    &&& json.id@ == hyphenated(source.core.id)
    &&& json.version@ == tai_text(source.core.version.secs(), source.core.version.nanos())
    &&& json.label@ == source.core.label@
    &&& json.description@ == source.core.description@
    &&& json.format@ == format_urn(source.format)
    &&& json.tags@ == source.core.tags@
    &&& json.device_id@ == hyphenated(source.device_id)
    &&& texts(json.parents@) == id_texts(source.parents@)
}

impl SourceBuilder {
    /// A builder for a source of `device`, with a label and a format.
    pub fn new(label: &str, device: &Device, format: Format) -> (b: Self)
        ensures
            b.core.label@ == label@,
            b.core.description is None,
            b.core.tags@ == TagsView::empty(),
            b.format == format,
            b.device_id == device.core.id,
            b.parents@.len() == 0,
    {
        SourceBuilder {
            core: ResourceCoreBuilder::new(label),
            format,
            device_id: device.core.id,
            parents: Vec::new(),
        }
    }

    /// Sets the description.
    pub fn description(self, description: &str) -> (b: Self)
        ensures
            b.core.label == self.core.label,
            b.core.description matches Some(text) && text@ == description@,
            b.core.tags == self.core.tags,
            b.format == self.format,
            b.device_id == self.device_id,
            b.parents == self.parents,
    {
        SourceBuilder {
            core: self.core.description(description),
            format: self.format,
            device_id: self.device_id,
            parents: self.parents,
        }
    }

    /// The source with the given identifier and version stamp.
    pub fn build_with(self, id: u128, version: TaiTime) -> (source: Source)
        ensures
            source.core.id == id,
            source.core.version == version,
            source.core.label == self.core.label,
            source.core.description@ == description_or_empty(self.core.description),
            source.core.tags == self.core.tags,
            source.format == self.format,
            source.device_id == self.device_id,
            source.parents == self.parents,
    {
        Source {
            core: self.core.build_with(id, version),
            format: self.format,
            device_id: self.device_id,
            parents: self.parents,
        }
    }

    /// The source, with a fresh random identifier and the current time as
    /// its version.
    #[must_use]
    pub fn build(self) -> (source: Source)
        ensures
            source.core.label == self.core.label,
            source.core.description@ == description_or_empty(self.core.description),
            source.core.tags == self.core.tags,
            source.format == self.format,
            source.device_id == self.device_id,
            source.parents == self.parents,
    {
        let id = new_v4();
        let version = TaiTime::now();
        self.build_with(id, version)
    }
}

impl Source {
    /// A builder for a source of `device`, with a label and a format.
    pub fn builder(label: &str, device: &Device, format: Format) -> (b: SourceBuilder)
        ensures
            b.core.label@ == label@,
            b.core.description is None,
            b.core.tags@ == TagsView::empty(),
            b.format == format,
            b.device_id == device.core.id,
            b.parents@.len() == 0,
    {
        SourceBuilder::new(label, device, format)
    }

    /// The JSON form of the source in version 1.0 of the API.
    pub fn to_v1_0(&self) -> (json: is_04::v1_0_x::Source)
        ensures
            is_source_v1_0(*self, json),
    {
        is_04::v1_0_x::Source {
            id: to_hyphenated(self.core.id),
            version: self.core.version.to_string(),
            label: self.core.label.clone(),
            description: self.core.description.clone(),
            format: self.format.to_string(),
            caps: is_04::v1_0_x::Caps {  },
            tags: self.core.tags.duplicate(),
            device_id: to_hyphenated(self.device_id),
            parents: ids_to_strings(&self.parents),
        }
    }

    /// The JSON form of the source in the given API version.
    #[must_use]
    pub fn to_json(&self, api: &APIVersion) -> (r: Result<SourceJson, Error>)
        ensures
            supported(*api) ==> (r matches Ok(SourceJson::V1_0(json)) && is_source_v1_0(*self, json)),
            !supported(*api) ==> r == Err::<SourceJson, Error>(Error::UnsupportedVersion),
    {
        if api.is_supported() {
            Ok(SourceJson::V1_0(self.to_v1_0()))
        } else {
            Err(Error::UnsupportedVersion)
        }
    }
}

impl SourceJson {
    /// The JSON value of the form.
    pub open spec fn value(&self) -> JsonView {
        match *self {
            SourceJson::V1_0(json) => json.value(),
        }
    }

    /// The JSON value of the form.
    pub fn to_json(&self) -> (json: Json)
        ensures
            json@ == self.value(),
    {
        match self {
            SourceJson::V1_0(json) => json.to_json(),
        }
    }
}

/// The JSON form of a source carries, under `version`, the text of the
/// version stamp of the source: its seconds, a colon, its nanoseconds.
pub proof fn lemma_source_version(source: Source, json: is_04::v1_0_x::Source)
    requires
        is_source_v1_0(source, json),
    ensures
        has_member(
            json.value(),
            "version"@,
            JsonView::Text(tai_text(source.core.version.secs(), source.core.version.nanos())),
        ),
{
    let members = json.value()->Object_0;
    assert(members[1] == member("version"@, JsonView::Text(json.version@)));
}

} // verus!
