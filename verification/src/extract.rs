//! Reading one value, or every value, out of the elements that a query found.
//!
//! A single-valued source looks at the first element only: a later element is
//! never consulted, not even where the first one lacks the attribute. The
//! multi-valued source keeps the attribute of every element that has it, in
//! the order in which the elements were found.

use vstd::prelude::*;

use crate::document::{attribute_of, data_of, text_of, ElementData};

verus! {

/// The named attribute of the first element, if there is a first element and
/// it has that attribute.
pub open spec fn first_attribute(found: Seq<ElementData>, name: Seq<char>) -> Option<Seq<char>> {
    if found.len() == 0 {
        None
    } else {
        found[0].attribute(name)
    }
}

/// The text of the first element, if there is one.
pub open spec fn first_text(found: Seq<ElementData>) -> Option<Seq<char>> {
    if found.len() == 0 {
        None
    } else {
        Some(found[0].text)
    }
}

/// The named attribute of every element that has it, in order. Elements
/// without the attribute are passed over; equal values are all kept.
pub open spec fn every_attribute(found: Seq<ElementData>, name: Seq<char>) -> Seq<Seq<char>> {
    found.filter_map(|element: ElementData| element.attribute(name))
}

/// Reads the attribute `name` of the first element found.
pub fn first_attribute_in<'a>(found: &Vec<scraper::ElementRef<'a>>, name: &str) -> (value: Option<
    String,
>)
    ensures
        value.deep_view() == first_attribute(data_of(found@), name@),
{
    if found.len() == 0 {
        return None;
    }
    match attribute_of(&found[0], name) {
        Some(text) => Some(text.to_owned()),
        None => None,
    }
}

/// Reads the text of the first element found.
pub fn first_text_in<'a>(found: &Vec<scraper::ElementRef<'a>>) -> (value: Option<String>)
    ensures
        value.deep_view() == first_text(data_of(found@)),
{
    if found.len() == 0 {
        return None;
    }
    Some(text_of(&found[0]))
}

/// Reads the attribute `name` of every element found that has it.
pub fn every_attribute_in<'a>(found: &Vec<scraper::ElementRef<'a>>, name: &str) -> (values: Vec<
    String,
>)
    ensures
        values.deep_view() == every_attribute(data_of(found@), name@),
        values@.len() == every_attribute(data_of(found@), name@).len(),
        forall|i: int|
            0 <= i < values@.len() ==> (#[trigger] values@[i])@ == every_attribute(
                data_of(found@),
                name@,
            )[i],
{
    let ghost read = |element: ElementData| element.attribute(name@);
    let mut values: Vec<String> = Vec::new();
    let mut i: usize = 0;
    while i < found.len()
        invariant
            i <= found.len(),
            read == |element: ElementData| element.attribute(name@),
            values.deep_view() == data_of(found@).take(i as int).filter_map(read),
        decreases found.len() - i,
    {
        let ghost before = values.deep_view();
        match attribute_of(&found[i], name) {
            Some(text) => {
                values.push(text.to_owned());
                assert(values.deep_view() =~= before + seq![text@]);
            },
            None => {},
        }
        proof {
            data_of(found@).lemma_filter_map_take_succ(read, i as int);
        }
        i += 1;
    }
    assert(data_of(found@).take(found.len() as int) =~= data_of(found@));
    assert forall|i: int| 0 <= i < values@.len() implies (#[trigger] values@[i])@
        == values.deep_view()[i] by {}
    values
}

} // verus!
