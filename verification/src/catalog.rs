//! Catalog entries and the flattening of their per-platform download shapes.
//!
//! The listing endpoint returns, for every purchased product, a nested
//! `downloads` object keyed by platform name. Each platform value that holds
//! a `url` object with a `web` string yields one download descriptor; every
//! other shape is skipped without error. A descriptor's filename is the
//! trailing path segment of its URL, and its machine name falls back to the
//! parent entry's when the platform gives none of its own.

use vstd::prelude::*;
use crate::json::{JsonValue, field_of, string_field_of};
use crate::text::{trailing_segment, trailing_segment_of, str_eq};

verus! {

/// One downloadable file for one platform.
#[derive(Debug)]
pub struct DownloadDescriptor {
    pub filename: String,
    pub url: String,
    pub machine_name: String,
}

/// The mathematical content of a `DownloadDescriptor`.
#[verifier::ext_equal]
pub ghost struct DescriptorModel {
    pub filename: Seq<char>,
    pub url: Seq<char>,
    pub machine_name: Seq<char>,
}

impl View for DownloadDescriptor {
    type V = DescriptorModel;

    open spec fn view(&self) -> DescriptorModel {
        DescriptorModel {
            filename: self.filename@,
            url: self.url@,
            machine_name: self.machine_name@,
        }
    }
}

/// The descriptors of one platform, in the order their shapes were met.
#[derive(Debug)]
pub struct PlatformDownloads {
    pub platform: String,
    pub downloads: Vec<DownloadDescriptor>,
}

/// The mathematical content of a `PlatformDownloads`.
#[verifier::ext_equal]
pub ghost struct PlatformModel {
    pub platform: Seq<char>,
    pub downloads: Seq<DescriptorModel>,
}

impl View for PlatformDownloads {
    type V = PlatformModel;

    open spec fn view(&self) -> PlatformModel {
        PlatformModel {
            platform: self.platform@,
            downloads: self.downloads@.map_values(|d: DownloadDescriptor| d@),
        }
    }
}

/// One raw catalog entry, as the listing endpoint returns it.
pub struct RawEntry {
    pub human_name: String,
    pub machine_name: String,
    pub downloads: JsonValue,
}

/// One catalog entry with its downloads flattened per platform.
#[derive(Debug)]
pub struct CatalogEntry {
    pub name: String,
    pub machine_name: String,
    pub downloads: Vec<PlatformDownloads>,
}

/// The mathematical content of a `CatalogEntry`.
#[verifier::ext_equal]
pub ghost struct EntryModel {
    pub name: Seq<char>,
    pub machine_name: Seq<char>,
    pub downloads: Seq<PlatformModel>,
}

impl View for CatalogEntry {
    type V = EntryModel;

    open spec fn view(&self) -> EntryModel {
        EntryModel {
            name: self.name@,
            machine_name: self.machine_name@,
            downloads: platform_views(self.downloads@),
        }
    }
}

/// The views of a sequence of platform groups.
pub open spec fn platform_views(s: Seq<PlatformDownloads>) -> Seq<PlatformModel> {
    s.map_values(|p: PlatformDownloads| p@)
}

/// The machine name a platform value carries itself, if any.
pub open spec fn platform_machine_name(data: JsonValue) -> Option<Seq<char>> {
    match data {
        JsonValue::Obj(fields) => string_field_of(fields@, "machine_name"@),
        _ => None,
    }
}

/// The descriptor one platform value yields: its `url` object must hold a
/// `web` string, else the platform is skipped.
pub open spec fn descriptor_for(parent: Seq<char>, data: JsonValue) -> Option<DescriptorModel> {
    match data {
        JsonValue::Obj(fields) => match field_of(fields@, "url"@) {
            Some(JsonValue::Obj(url_fields)) => match field_of(url_fields@, "web"@) {
                Some(JsonValue::Str(web)) => Some(
                    DescriptorModel {
                        filename: trailing_segment_of(web@),
                        url: web@,
                        machine_name: match string_field_of(fields@, "machine_name"@) {
                            Some(m) => m,
                            None => parent,
                        },
                    },
                ),
                _ => None,
            },
            _ => None,
        },
        _ => None,
    }
}

/// Appends `d` to the group named `name`, or opens that group at the end.
pub open spec fn add_to_groups(
    groups: Seq<PlatformModel>,
    name: Seq<char>,
    d: DescriptorModel,
) -> Seq<PlatformModel>
    decreases groups.len(),
{
    if groups.len() == 0 {
        seq![PlatformModel { platform: name, downloads: seq![d] }]
    } else if groups[0].platform == name {
        seq![
            PlatformModel { platform: groups[0].platform, downloads: groups[0].downloads.push(d) },
        ] + groups.drop_first()
    } else {
        seq![groups[0]] + add_to_groups(groups.drop_first(), name, d)
    }
}

/// Flattens platform pairs in order into grouped descriptors.
pub open spec fn flatten_platforms(
    parent: Seq<char>,
    pairs: Seq<(String, JsonValue)>,
) -> Seq<PlatformModel>
    decreases pairs.len(),
{
    if pairs.len() == 0 {
        Seq::empty()
    } else {
        let prev = flatten_platforms(parent, pairs.drop_last());
        match descriptor_for(parent, pairs.last().1) {
            Some(d) => add_to_groups(prev, pairs.last().0@, d),
            None => prev,
        }
    }
}

/// The flattened downloads of one entry: nothing unless `downloads` is an
/// object, the flattened platform groups when it is.
pub open spec fn downloads_of(parent: Seq<char>, downloads: JsonValue) -> Seq<PlatformModel> {
    match downloads {
        JsonValue::Obj(pairs) => flatten_platforms(parent, pairs@),
        _ => Seq::empty(),
    }
}

/// The catalog entry a raw entry flattens to.
pub open spec fn entry_of(raw: RawEntry) -> EntryModel {
    EntryModel {
        name: raw.human_name@,
        machine_name: raw.machine_name@,
        downloads: downloads_of(raw.machine_name@, raw.downloads),
    }
}

/// The descriptor of one platform value, executably.
fn descriptor_for_exec(parent: &String, data: &JsonValue) -> (r: Option<DownloadDescriptor>)
    ensures
        match r {
            Some(d) => descriptor_for(parent@, *data) == Some(d@),
            None => descriptor_for(parent@, *data) is None,
        },
{
    match data {
        JsonValue::Obj(fields) => match JsonValue::get(fields, "url") {
            Some(url_value) => match url_value {
                JsonValue::Obj(url_fields) => match JsonValue::get(url_fields, "web") {
                    Some(web_value) => match web_value {
                        JsonValue::Str(web) => {
                            let machine_name = match JsonValue::get(fields, "machine_name") {
                                Some(mn_value) => match mn_value {
                                    JsonValue::Str(m) => m.clone(),
                                    _ => parent.clone(),
                                },
                                None => parent.clone(),
                            };
                            Some(
                                DownloadDescriptor {
                                    filename: trailing_segment(web.as_str()),
                                    url: web.clone(),
                                    machine_name,
                                },
                            )
                        },
                        _ => None,
                    },
                    None => None,
                },
                _ => None,
            },
            None => None,
        },
        _ => None,
    }
}

/// The first group carrying `name`, if one is there.
fn find_platform(groups: &Vec<PlatformDownloads>, name: &String) -> (r: Option<usize>)
    ensures
        match r {
            Some(i) => i < groups@.len() && platform_views(groups@)[i as int].platform == name@
                && forall|j: int|
                0 <= j < i ==> (#[trigger] platform_views(groups@)[j]).platform != name@,
            None => forall|j: int|
                0 <= j < groups@.len() ==> (#[trigger] platform_views(
                    groups@,
                )[j]).platform != name@,
        },
{
    let mut i: usize = 0;
    while i < groups.len()
        invariant
            i <= groups@.len(),
            forall|j: int| 0 <= j < i ==> (#[trigger] platform_views(groups@)[j]).platform != name@,
        decreases groups@.len() - i,
    {
        let group = &groups[i];
        if str_eq(group.platform.as_str(), name.as_str()) {
            return Some(i);
        }
        i += 1;
    }
    None
}

/// Adds one descriptor under its platform name, as `add_to_groups` says.
fn push_descriptor(groups: &mut Vec<PlatformDownloads>, name: &String, d: DownloadDescriptor)
    ensures
        platform_views(final(groups)@) == add_to_groups(platform_views(old(groups)@), name@, d@),
{
    let ghost gv = platform_views(groups@);
    match find_platform(groups, name) {
        Some(i) => {
            let mut entry = groups.remove(i);
            entry.downloads.push(d);
            groups.insert(i, entry);
            proof {
                lemma_add_to_groups_found(gv, name@, d@, i as int);
                assert(platform_views(groups@)[i as int].downloads =~= gv[i as int].downloads.push(
                    d@,
                ));
                assert(platform_views(groups@) =~~= add_to_groups(gv, name@, d@));
            }
        },
        None => {
            let mut downloads: Vec<DownloadDescriptor> = Vec::new();
            downloads.push(d);
            groups.push(PlatformDownloads { platform: name.clone(), downloads });
            proof {
                lemma_add_to_groups_new(gv, name@, d@);
                assert(platform_views(groups@)[gv.len() as int].downloads =~= seq![d@]);
                assert(platform_views(groups@) =~~= add_to_groups(gv, name@, d@));
            }
        },
    }
}

proof fn lemma_add_to_groups_found(
    groups: Seq<PlatformModel>,
    name: Seq<char>,
    d: DescriptorModel,
    k: int,
)
    requires
        0 <= k < groups.len(),
        groups[k].platform == name,
        forall|j: int| 0 <= j < k ==> (#[trigger] groups[j]).platform != name,
    ensures
        add_to_groups(groups, name, d) =~= groups.update(
            k,
            PlatformModel { platform: groups[k].platform, downloads: groups[k].downloads.push(d) },
        ),
    decreases k,
{
    if k == 0 {
    } else {
        assert(groups[0].platform != name);
        lemma_add_to_groups_found(groups.drop_first(), name, d, k - 1);
    }
}

proof fn lemma_add_to_groups_new(groups: Seq<PlatformModel>, name: Seq<char>, d: DescriptorModel)
    requires
        forall|j: int| 0 <= j < groups.len() ==> (#[trigger] groups[j]).platform != name,
    ensures
        add_to_groups(groups, name, d) =~= groups.push(
            PlatformModel { platform: name, downloads: seq![d] },
        ),
    decreases groups.len(),
{
    if groups.len() == 0 {
    } else {
        assert(groups[0].platform != name);
        lemma_add_to_groups_new(groups.drop_first(), name, d);
    }
}

/// Flattens the ordered platform pairs of one entry's downloads object.
fn flatten_platform_pairs(parent: &String, pairs: &Vec<(String, JsonValue)>) -> (r: Vec<
    PlatformDownloads,
>)
    ensures
        platform_views(r@) == flatten_platforms(parent@, pairs@),
{
    let mut groups: Vec<PlatformDownloads> = Vec::new();
    proof {
        assert(platform_views(groups@) =~= flatten_platforms(parent@, pairs@.take(0)));
    }
    let mut i: usize = 0;
    while i < pairs.len()
        invariant
            i <= pairs@.len(),
            platform_views(groups@) == flatten_platforms(parent@, pairs@.take(i as int)),
        decreases pairs@.len() - i,
    {
        let ghost prev = pairs@.take(i as int);
        proof {
            assert(pairs@.take(i + 1).drop_last() =~= prev);
            assert(pairs@.take(i + 1).last() == pairs@[i as int]);
        }
        let pair = &pairs[i];
        match descriptor_for_exec(parent, &pair.1) {
            Some(d) => push_descriptor(&mut groups, &pair.0, d),
            None => (),
        }
        i += 1;
    }
    proof {
        assert(pairs@.take(pairs@.len() as int) =~= pairs@);
    }
    groups
}

/// Flattens one raw entry: the name and machine name carry over, and the
/// downloads object becomes the grouped descriptor list. An entry whose
/// downloads hold no matching shape keeps an empty download list.
pub fn flatten_entry(raw: &RawEntry) -> (e: CatalogEntry)
    ensures
        e@ == entry_of(*raw),
{
    let downloads = match &raw.downloads {
        JsonValue::Obj(pairs) => flatten_platform_pairs(&raw.machine_name, pairs),
        _ => {
            let empty: Vec<PlatformDownloads> = Vec::new();
            proof {
                assert(platform_views(empty@) =~= Seq::<PlatformModel>::empty());
            }
            empty
        },
    };
    let e = CatalogEntry {
        name: raw.human_name.clone(),
        machine_name: raw.machine_name.clone(),
        downloads,
    };
    proof {
        assert(e@ =~~= entry_of(*raw));
    }
    e
}

/// Every descriptor in `groups` is named by the trailing path segment of its
/// own URL.
pub open spec fn descriptors_well_named(groups: Seq<PlatformModel>) -> bool {
    forall|i: int, j: int|
        0 <= i < groups.len() && 0 <= j < groups[i].downloads.len() ==> (#[trigger] groups[i].downloads[j]).filename
            == trailing_segment_of(groups[i].downloads[j].url)
}

proof fn lemma_add_preserves_well_named(
    groups: Seq<PlatformModel>,
    name: Seq<char>,
    d: DescriptorModel,
)
    requires
        descriptors_well_named(groups),
        d.filename == trailing_segment_of(d.url),
    ensures
        descriptors_well_named(add_to_groups(groups, name, d)),
    decreases groups.len(),
{
    let out = add_to_groups(groups, name, d);
    if groups.len() == 0 {
        assert forall|i: int, j: int|
            0 <= i < out.len() && 0 <= j < out[i].downloads.len() implies (#[trigger] out[i].downloads[j]).filename
            == trailing_segment_of(out[i].downloads[j].url) by {
            assert(out[i].downloads[j] == d);
        }
    } else if groups[0].platform == name {
        assert forall|i: int, j: int|
            0 <= i < out.len() && 0 <= j < out[i].downloads.len() implies (#[trigger] out[i].downloads[j]).filename
            == trailing_segment_of(out[i].downloads[j].url) by {
            if i == 0 {
                assert(out[0].downloads == groups[0].downloads.push(d));
                if j < groups[0].downloads.len() {
                    assert(out[0].downloads[j] == groups[0].downloads[j]);
                    assert(groups[0].downloads[j].filename == trailing_segment_of(
                        groups[0].downloads[j].url,
                    ));
                } else {
                    assert(out[0].downloads[j] == d);
                }
            } else {
                assert(out[i] == groups[i]);
                assert(groups[i].downloads[j].filename == trailing_segment_of(
                    groups[i].downloads[j].url,
                ));
            }
        }
    } else {
        let tail = groups.drop_first();
        assert forall|i: int, j: int|
            0 <= i < tail.len() && 0 <= j < tail[i].downloads.len() implies (#[trigger] tail[i].downloads[j]).filename
            == trailing_segment_of(tail[i].downloads[j].url) by {
            assert(tail[i] == groups[i + 1]);
            assert(groups[i + 1].downloads[j].filename == trailing_segment_of(
                groups[i + 1].downloads[j].url,
            ));
        }
        assert(descriptors_well_named(tail));
        lemma_add_preserves_well_named(tail, name, d);
        let rest = add_to_groups(tail, name, d);
        assert forall|i: int, j: int|
            0 <= i < out.len() && 0 <= j < out[i].downloads.len() implies (#[trigger] out[i].downloads[j]).filename
            == trailing_segment_of(out[i].downloads[j].url) by {
            if i == 0 {
                assert(out[0] == groups[0]);
                assert(groups[0].downloads[j].filename == trailing_segment_of(
                    groups[0].downloads[j].url,
                ));
            } else {
                assert(out[i] == rest[i - 1]);
                assert(rest[i - 1].downloads[j].filename == trailing_segment_of(
                    rest[i - 1].downloads[j].url,
                ));
            }
        }
    }
}

/// Law: for every catalog entry, every download descriptor's filename equals
/// the trailing path segment of its source URL.
pub proof fn lemma_filenames_from_urls(raw: RawEntry)
    ensures
        descriptors_well_named(entry_of(raw).downloads),
{
    lemma_flatten_well_named_from(raw.machine_name@, raw.downloads);
}

proof fn lemma_flatten_well_named_from(parent: Seq<char>, downloads: JsonValue)
    ensures
        descriptors_well_named(downloads_of(parent, downloads)),
{
    match downloads {
        JsonValue::Obj(pairs) => {
            lemma_flatten_well_named(parent, pairs@);
        },
        _ => {},
    }
}

proof fn lemma_flatten_well_named(parent: Seq<char>, pairs: Seq<(String, JsonValue)>)
    ensures
        descriptors_well_named(flatten_platforms(parent, pairs)),
    decreases pairs.len(),
{
    if pairs.len() == 0 {
    } else {
        lemma_flatten_well_named(parent, pairs.drop_last());
        match descriptor_for(parent, pairs.last().1) {
            Some(d) => {
                lemma_add_preserves_well_named(
                    flatten_platforms(parent, pairs.drop_last()),
                    pairs.last().0@,
                    d,
                );
            },
            None => {},
        }
    }
}

/// Law: a download descriptor whose platform gives no machine name of its
/// own carries the parent entry's machine name.
pub proof fn lemma_machine_name_fallback(parent: Seq<char>, data: JsonValue, d: DescriptorModel)
    requires
        descriptor_for(parent, data) == Some(d),
        platform_machine_name(data) is None,
    ensures
        d.machine_name == parent,
{
}

} // verus!
