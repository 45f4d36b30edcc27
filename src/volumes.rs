use vstd::prelude::*;

use crate::errors::FacadeError;
use crate::json::{decimal, frame_array, json_array, json_quoted, number_json, quote_json, texts_of};

verus! {

/// What the backend answered about one volume of a pool, once the volume was
/// resolved by name and its info read. The name and path queries may fail on
/// their own (`None`).
pub struct VolumeDetail {
    pub name: Option<String>,
    pub path: Option<String>,
    pub kind: u32,
    pub capacity: u64,
    pub allocation: u64,
}

/// The transfer record of one storage volume.
pub struct VolumeInfo {
    pub name: String,
    pub path: String,
    pub kind: u32,
    pub capacity: u64,
    pub allocation: u64,
}

/// A reported text, or the empty text where its query failed.
pub open spec fn text_or_empty(t: Option<String>) -> Seq<char> {
    match t {
        Some(s) => s@,
        None => Seq::empty(),
    }
}

/// `info` is the record of the volume described by `d`.
pub open spec fn info_of_detail(info: VolumeInfo, d: VolumeDetail) -> bool {
    &&& info.name@ == text_or_empty(d.name)
    &&& info.path@ == text_or_empty(d.path)
    &&& info.kind == d.kind
    &&& info.capacity == d.capacity
    &&& info.allocation == d.allocation
}

/// Every volume of the listing was resolved.
pub open spec fn all_resolved(details: Seq<Option<VolumeDetail>>) -> bool {
    forall|i: int| 0 <= i < details.len() ==> (#[trigger] details[i]).is_some()
}

/// The JSON object of one volume record, fields in declaration order.
pub open spec fn volume_json(
    name: Seq<char>,
    path: Seq<char>,
    kind: u32,
    capacity: u64,
    allocation: u64,
) -> Seq<char> {
    "{\"name\":"@ + json_quoted(name) + ",\"path\":"@ + json_quoted(path) + ",\"kind\":"@
        + decimal(kind as nat) + ",\"capacity\":"@ + decimal(capacity as nat)
        + ",\"allocation\":"@ + decimal(allocation as nat) + "}"@
}

/// The JSON object of the record of a resolved volume.
pub open spec fn detail_json(d: Option<VolumeDetail>) -> Seq<char> {
    match d {
        Some(v) => volume_json(
            text_or_empty(v.name),
            text_or_empty(v.path),
            v.kind,
            v.capacity,
            v.allocation,
        ),
        None => Seq::empty(),
    }
}

/// The JSON text of a storage listing, or the error that ends it.
pub open spec fn storage_json(listing: Result<Vec<Option<VolumeDetail>>, FacadeError>) -> Result<
    Seq<char>,
    FacadeError,
> {
    match listing {
        Err(e) => Err(e),
        Ok(details) => if all_resolved(details@) {
            Ok(json_array(details@.map_values(|d: Option<VolumeDetail>| detail_json(d))))
        } else {
            Err(FacadeError::LookupFailure)
        },
    }
}

impl VolumeInfo {
    pub fn new(name: String, path: String, kind: u32, capacity: u64, allocation: u64) -> (r:
        VolumeInfo)
        ensures
            r.name@ == name@,
            r.path@ == path@,
            r.kind == kind,
            r.capacity == capacity,
            r.allocation == allocation,
    {
        VolumeInfo { name, path, kind, capacity, allocation }
    }

    /// The record of a resolved volume; a failed name or path query gives
    /// the empty text.
    pub fn from_detail(d: &VolumeDetail) -> (r: VolumeInfo)
        ensures
            info_of_detail(r, *d),
    {
        let name = match &d.name {
            Some(n) => n.clone(),
            None => String::new(),
        };
        let path = match &d.path {
            Some(p) => p.clone(),
            None => String::new(),
        };
        VolumeInfo::new(name, path, d.kind, d.capacity, d.allocation)
    }

    /// The JSON object of this record.
    pub fn to_json(&self) -> (r: String)
        ensures
            r@ == volume_json(self.name@, self.path@, self.kind, self.capacity, self.allocation),
    {
        let mut out = String::from_str("{\"name\":");
        let t = quote_json(self.name.as_str());
        out.append(t.as_str());
        out.append(",\"path\":");
        let t = quote_json(self.path.as_str());
        out.append(t.as_str());
        out.append(",\"kind\":");
        let t = number_json(self.kind as u64);
        out.append(t.as_str());
        out.append(",\"capacity\":");
        let t = number_json(self.capacity);
        out.append(t.as_str());
        out.append(",\"allocation\":");
        let t = number_json(self.allocation);
        out.append(t.as_str());
        out.append("}");
        out
    }
}

/// The records of a pool's volumes, in enumeration order. A volume whose
/// detail lookup failed fails the whole listing: no volume is dropped.
pub fn collect_volumes(details: &Vec<Option<VolumeDetail>>) -> (r: Result<
    Vec<VolumeInfo>,
    FacadeError,
>)
    ensures
        r.is_ok() <==> all_resolved(details@),
        r.is_err() ==> r == Err::<Vec<VolumeInfo>, FacadeError>(FacadeError::LookupFailure),
        r.is_ok() ==> r->Ok_0.len() == details.len() && forall|i: int|
            0 <= i < details.len() ==> #[trigger] info_of_detail(r->Ok_0[i], details[i]->0),
{
    let mut infos: Vec<VolumeInfo> = Vec::new();
    let mut i: usize = 0;
    while i < details.len()
        invariant
            i <= details.len(),
            infos.len() == i,
            forall|j: int| 0 <= j < i ==> (#[trigger] details[j]).is_some(),
            forall|j: int| 0 <= j < i ==> #[trigger] info_of_detail(infos[j], details[j]->0),
        decreases details.len() - i,
    {
        match &details[i] {
            None => {
                return Err(FacadeError::LookupFailure);
            },
            Some(d) => {
                infos.push(VolumeInfo::from_detail(d));
            },
        }
        i = i + 1;
    }
    Ok(infos)
}

/// The JSON listing of the volumes of a pool. An error in reaching the pool
/// or enumerating it passes through; a volume that could not be resolved is
/// a lookup failure of the whole listing.
pub fn get_storage(listing: &Result<Vec<Option<VolumeDetail>>, FacadeError>) -> (r: Result<
    String,
    FacadeError,
>)
    ensures
        match (r, storage_json(*listing)) {
            (Ok(t), Ok(u)) => t@ == u,
            (Err(e), Err(f)) => e == f,
            _ => false,
        },
{
    match listing {
        Err(e) => Err(*e),
        Ok(details) => {
            match collect_volumes(details) {
                Err(e) => Err(e),
                Ok(infos) => {
                    let ghost specs = details@.map_values(
                        |d: Option<VolumeDetail>| detail_json(d),
                    );
                    let mut texts: Vec<String> = Vec::new();
                    let mut i: usize = 0;
                    while i < infos.len()
                        invariant
                            i <= infos.len(),
                            infos.len() == details.len(),
                            specs == details@.map_values(|d: Option<VolumeDetail>| detail_json(d)),
                            all_resolved(details@),
                            forall|j: int|
                                0 <= j < details.len() ==> #[trigger] info_of_detail(
                                    infos[j],
                                    details[j]->0,
                                ),
                            texts.len() == i,
                            forall|j: int| 0 <= j < i ==> #[trigger] texts[j]@ == specs[j],
                        decreases infos.len() - i,
                    {
                        assert(info_of_detail(infos[i as int], details[i as int]->0));
                        assert(details[i as int].is_some());
                        texts.push(infos[i].to_json());
                        i = i + 1;
                    }
                    assert(texts_of(texts@) =~= specs);
                    Ok(frame_array(&texts))
                },
            }
        },
    }
}

/// A pool with no volumes lists as the empty JSON array, not an error.
pub proof fn empty_pool_lists_nothing(details: Vec<Option<VolumeDetail>>)
    requires
        details.len() == 0,
    ensures
        storage_json(Ok(details)) == Ok::<Seq<char>, FacadeError>(seq!['[', ']']),
{
    assert(details@.map_values(|d: Option<VolumeDetail>| detail_json(d)) =~= Seq::empty());
    assert(json_array(Seq::empty()) =~= seq!['[', ']']);
}

/// A volume whose detail lookup failed fails the whole listing instead of
/// shortening it.
pub proof fn unresolved_volume_fails_listing(details: Vec<Option<VolumeDetail>>, i: int)
    requires
        0 <= i < details.len(),
        details[i].is_none(),
    ensures
        storage_json(Ok(details)) == Err::<Seq<char>, FacadeError>(FacadeError::LookupFailure),
{
}

} // verus!
