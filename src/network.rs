use vstd::prelude::*;

use crate::errors::FacadeError;
use crate::json::{frame_array, json_array, json_quoted, quote_json, texts_of};

verus! {

/// The JSON text that quickxml_to_serde makes of an XML document with its
/// default configuration, or `None` where the document is not well formed.
pub uninterp spec fn xml_as_json(xml: Seq<char>) -> Option<Seq<char>>;

/// Relies on quickxml_to_serde::xml_string_to_json with the default
/// configuration, and on serde_json's compact writing of the value: the
/// result depends on the document alone.
#[verifier::external_body]
pub(crate) fn convert_xml(xml: &String) -> (r: Option<String>)
    ensures
        match (r, xml_as_json(xml@)) {
            (Some(t), Some(u)) => t@ == u,
            (None, None) => true,
            _ => false,
        },
{
    let config = quickxml_to_serde::Config::new_with_defaults();
    quickxml_to_serde::xml_string_to_json(xml.clone(), &config).ok().map(|v| v.to_string())
}

/// The JSON string literals of the names, in order.
pub open spec fn quoted_names(names: Seq<String>) -> Seq<Seq<char>> {
    names.map_values(|n: String| json_quoted(n@))
}

/// The JSON text of a network listing, or the error that ends it.
pub open spec fn networks_json(listing: Result<Vec<String>, FacadeError>) -> Result<
    Seq<char>,
    FacadeError,
> {
    match listing {
        Err(e) => Err(e),
        Ok(names) => Ok(json_array(quoted_names(names@))),
    }
}

/// Every description was converted.
pub open spec fn all_converted(converted: Seq<Option<String>>) -> bool {
    forall|i: int| 0 <= i < converted.len() ==> (#[trigger] converted[i]).is_some()
}

/// The texts of converted descriptions, in order.
pub open spec fn converted_texts(converted: Seq<Option<String>>) -> Seq<Seq<char>> {
    converted.map_values(|c: Option<String>| text_of(c))
}

pub open spec fn text_of(c: Option<String>) -> Seq<char> {
    match c {
        Some(t) => t@,
        None => Seq::empty(),
    }
}

/// The JSON array of converted interface descriptions, or a serialization
/// failure where one of them could not be converted.
pub open spec fn assembled(converted: Seq<Option<String>>) -> Result<Seq<char>, FacadeError> {
    if all_converted(converted) {
        Ok(json_array(converted_texts(converted)))
    } else {
        Err(FacadeError::SerializationFailure)
    }
}

/// Every description is well formed.
pub open spec fn all_well_formed(descs: Seq<String>) -> bool {
    forall|i: int| 0 <= i < descs.len() ==> (#[trigger] xml_as_json(descs[i]@)).is_some()
}

/// The conversions of the descriptions, in order.
pub open spec fn descriptions_json(descs: Seq<String>) -> Seq<Seq<char>> {
    descs.map_values(|d: String| xml_as_json(d@)->0)
}

/// The JSON text of an interface listing, or the error that ends it.
pub open spec fn interfaces_json(listing: Result<Vec<String>, FacadeError>) -> Result<
    Seq<char>,
    FacadeError,
> {
    match listing {
        Err(e) => Err(e),
        Ok(descs) => if all_well_formed(descs@) {
            Ok(json_array(descriptions_json(descs@)))
        } else {
            Err(FacadeError::SerializationFailure)
        },
    }
}

pub open spec fn same_result(r: Result<String, FacadeError>, s: Result<Seq<char>, FacadeError>) -> bool {
    match (r, s) {
        (Ok(t), Ok(u)) => t@ == u,
        (Err(e), Err(f)) => e == f,
        _ => false,
    }
}

/// The JSON array of the network names, in enumeration order.
pub fn get_networks(listing: &Result<Vec<String>, FacadeError>) -> (r: Result<String, FacadeError>)
    ensures
        same_result(r, networks_json(*listing)),
{
    match listing {
        Err(e) => Err(*e),
        Ok(names) => {
            let mut texts: Vec<String> = Vec::new();
            let mut i: usize = 0;
            while i < names.len()
                invariant
                    i <= names.len(),
                    texts.len() == i,
                    forall|j: int| 0 <= j < i ==> #[trigger] texts[j]@ == quoted_names(names@)[j],
                decreases names.len() - i,
            {
                texts.push(quote_json(names[i].as_str()));
                i = i + 1;
            }
            assert(texts_of(texts@) =~= quoted_names(names@));
            Ok(frame_array(&texts))
        },
    }
}

/// Frames converted interface descriptions as one JSON array, in order.
pub fn assemble_interfaces(converted: &Vec<Option<String>>) -> (r: Result<String, FacadeError>)
    ensures
        same_result(r, assembled(converted@)),
{
    let mut texts: Vec<String> = Vec::new();
    let mut i: usize = 0;
    while i < converted.len()
        invariant
            i <= converted.len(),
            texts.len() == i,
            forall|j: int| 0 <= j < i ==> (#[trigger] converted[j]).is_some(),
            forall|j: int| 0 <= j < i ==> #[trigger] texts[j]@ == converted_texts(converted@)[j],
        decreases converted.len() - i,
    {
        match &converted[i] {
            None => {
                return Err(FacadeError::SerializationFailure);
            },
            Some(t) => {
                texts.push(t.clone());
            },
        }
        i = i + 1;
    }
    assert(texts_of(texts@) =~= converted_texts(converted@));
    Ok(frame_array(&texts))
}

/// The JSON array of the interfaces' descriptions, each converted from its
/// XML on its own and kept in enumeration order.
pub fn get_interfaces(listing: &Result<Vec<String>, FacadeError>) -> (r: Result<String, FacadeError>)
    ensures
        same_result(r, interfaces_json(*listing)),
        r.is_ok() ==> descriptions_json(listing->Ok_0@).len() == listing->Ok_0.len(),
{
    match listing {
        Err(e) => Err(*e),
        Ok(descs) => {
            let mut converted: Vec<Option<String>> = Vec::new();
            let mut i: usize = 0;
            while i < descs.len()
                invariant
                    i <= descs.len(),
                    converted.len() == i,
                    forall|j: int|
                        0 <= j < i ==> match (#[trigger] converted[j], xml_as_json(descs[j]@)) {
                            (Some(t), Some(u)) => t@ == u,
                            (None, None) => true,
                            _ => false,
                        },
                decreases descs.len() - i,
            {
                converted.push(convert_xml(&descs[i]));
                i = i + 1;
            }
            let r = assemble_interfaces(&converted);
            assert(all_converted(converted@) <==> all_well_formed(descs@)) by {
                if all_converted(converted@) {
                    assert forall|j: int| 0 <= j < descs.len() implies (#[trigger] xml_as_json(
                        descs[j]@,
                    )).is_some() by {
                        assert(converted[j].is_some());
                    }
                }
                if all_well_formed(descs@) {
                    assert forall|j: int| 0 <= j < converted.len() implies (
                    #[trigger] converted[j]).is_some() by {
                        assert(xml_as_json(descs[j]@).is_some());
                    }
                }
            }
            proof {
                if all_well_formed(descs@) {
                    assert forall|j: int| 0 <= j < descs.len() implies converted_texts(
                        converted@,
                    )[j] == descriptions_json(descs@)[j] by {
                        assert(xml_as_json(descs[j]@).is_some());
                        assert(converted[j].is_some());
                    }
                    assert(converted_texts(converted@) =~= descriptions_json(descs@));
                }
            }
            r
        },
    }
}

/// An interface listing has one element per interface, and each element is
/// the conversion of that interface's own description.
pub proof fn one_element_per_interface(descs: Seq<String>)
    ensures
        descriptions_json(descs).len() == descs.len(),
        forall|i: int|
            0 <= i < descs.len() ==> #[trigger] descriptions_json(descs)[i] == xml_as_json(
                descs[i]@,
            )->0,
{
}

} // verus!
