//! What holds of every page: statements about the sources and the resolved
//! fields that follow from their definitions.

use vstd::prelude::*;

use crate::document::{matching, ElementData};
use crate::extract::{every_attribute, first_attribute, first_text};
use crate::fields::{
    favicon_link, language, og_description, og_image, og_images, og_title, plain_description,
    plain_title, resolved_description, resolved_image, resolved_title, twitter_description,
    twitter_image, twitter_title,
};
use crate::MetaScraper;

verus! {

/// A value read from a single-valued attribute source is the attribute of one
/// of the elements found, the first one, unchanged; where no element found has
/// the attribute, nothing is read.
pub proof fn attribute_comes_from_first_match(found: Seq<ElementData>, name: Seq<char>)
    ensures
        first_attribute(found, name).is_some() ==> found.len() > 0 && found[0].attribute(name)
            == first_attribute(found, name),
        (forall|i: int| 0 <= i < found.len() ==> found[i].attribute(name).is_none())
            ==> first_attribute(found, name).is_none(),
{
}

/// A value read from the text source is the text of the first element found,
/// unchanged; where no element was found, nothing is read.
pub proof fn text_comes_from_first_match(found: Seq<ElementData>)
    ensures
        first_text(found).is_some() <==> found.len() > 0,
        found.len() > 0 ==> first_text(found) == Some(found[0].text),
{
}

/// Every value of the multi-valued source is the attribute of an element
/// found, and there are no more values than elements.
pub proof fn every_value_comes_from_a_match(found: Seq<ElementData>, name: Seq<char>, k: int)
    requires
        0 <= k < every_attribute(found, name).len(),
    ensures
        every_attribute(found, name).len() <= found.len(),
        exists|i: int|
            0 <= i < found.len() && #[trigger] found[i].attribute(name) == Some(
                every_attribute(found, name)[k],
            ),
    decreases found.len(),
{
    let read = |element: ElementData| element.attribute(name);
    if found.len() > 0 {
        let rest = found.drop_last();
        if every_attribute(rest, name).len() > 0 {
            every_value_comes_from_a_match(rest, name, 0);
        }
        assert(rest.filter_map(read).len() <= rest.len()) by {
            if rest.filter_map(read).len() > 0 {
                assert(every_attribute(rest, name) == rest.filter_map(read));
            }
        }
        if k < every_attribute(rest, name).len() {
            every_value_comes_from_a_match(rest, name, k);
            let i = choose|i: int|
                0 <= i < rest.len() && #[trigger] rest[i].attribute(name) == Some(
                    every_attribute(rest, name)[k],
                );
            assert(found[i] == rest[i]);
        } else {
            assert(found[found.len() - 1].attribute(name) == Some(every_attribute(found, name)[k]));
        }
    }
}

/// Where every element found has the attribute, the multi-valued source holds
/// exactly one value per element, in the order of the elements: nothing is
/// dropped, reordered or merged.
pub proof fn every_match_is_kept(found: Seq<ElementData>, name: Seq<char>)
    requires
        forall|i: int| 0 <= i < found.len() ==> (#[trigger] found[i]).attribute(name).is_some(),
    ensures
        every_attribute(found, name).len() == found.len(),
        forall|i: int|
            0 <= i < found.len() ==> Some(#[trigger] every_attribute(found, name)[i])
                == found[i].attribute(name),
    decreases found.len(),
{
    if found.len() > 0 {
        let rest = found.drop_last();
        assert forall|i: int| 0 <= i < rest.len() implies (#[trigger] rest[i]).attribute(
            name,
        ).is_some() by {
            assert(rest[i] == found[i]);
        }
        every_match_is_kept(rest, name);
        assert forall|i: int| 0 <= i < found.len() implies Some(
            #[trigger] every_attribute(found, name)[i],
        ) == found[i].attribute(name) by {
            if i < rest.len() {
                assert(rest[i] == found[i]);
            }
        }
    }
}

/// An element found after others adds its attribute at the end of the values
/// read so far, or adds nothing where it lacks the attribute.
pub proof fn later_match_is_appended(found: Seq<ElementData>, next: ElementData, name: Seq<char>)
    ensures
        every_attribute(found.push(next), name) == match next.attribute(name) {
            Some(value) => every_attribute(found, name).push(value),
            None => every_attribute(found, name),
        },
{
    let all = found.push(next);
    assert(all.drop_last() =~= found);
    assert(all.last() == next);
    match next.attribute(name) {
        Some(value) => {
            assert(every_attribute(found, name) + seq![value] =~= every_attribute(found, name).push(
                value,
            ));
        },
        None => {},
    }
}

/// Priority: where the Open Graph source has a value, the resolved field is
/// that value, whatever the other sources hold.
pub proof fn open_graph_wins(markup: Seq<char>)
    ensures
        og_title(markup).is_some() ==> resolved_title(markup) == og_title(markup),
        og_description(markup).is_some() ==> resolved_description(markup) == og_description(
            markup,
        ),
        og_image(markup).is_some() ==> resolved_image(markup) == og_image(markup),
{
}

/// Fallback: where the Open Graph source has no value and the Twitter Card
/// source has one, the resolved field is the Twitter Card value.
pub proof fn twitter_card_is_the_fallback(markup: Seq<char>)
    ensures
        og_title(markup).is_none() && twitter_title(markup).is_some() ==> resolved_title(markup)
            == twitter_title(markup),
        og_description(markup).is_none() && twitter_description(markup).is_some()
            ==> resolved_description(markup) == twitter_description(markup),
        og_image(markup).is_none() && twitter_image(markup).is_some() ==> resolved_image(markup)
            == twitter_image(markup),
{
}

/// Absence flows up a chain: a resolved field is absent exactly where every
/// source of its chain is absent, and a resolved value is the value of one of
/// those sources, unchanged.
pub proof fn resolved_comes_from_a_source(markup: Seq<char>)
    ensures
        resolved_title(markup).is_none() <==> og_title(markup).is_none() && twitter_title(
            markup,
        ).is_none() && plain_title(markup).is_none(),
        resolved_title(markup) == og_title(markup) || resolved_title(markup) == twitter_title(
            markup,
        ) || resolved_title(markup) == plain_title(markup),
        resolved_description(markup).is_none() <==> og_description(markup).is_none()
            && twitter_description(markup).is_none() && plain_description(markup).is_none(),
        resolved_description(markup) == og_description(markup) || resolved_description(markup)
            == twitter_description(markup) || resolved_description(markup) == plain_description(
            markup,
        ),
        resolved_image(markup).is_none() <==> og_image(markup).is_none() && twitter_image(
            markup,
        ).is_none(),
        resolved_image(markup) == og_image(markup) || resolved_image(markup) == twitter_image(
            markup,
        ),
{
}

/// The single Open Graph image is the first of all Open Graph images whenever
/// the first `og:image` element has a `content`; otherwise it is absent, even
/// where a later element has one.
pub proof fn single_image_is_first_of_all(markup: Seq<char>)
    ensures
        og_image(markup).is_some() ==> og_images(markup).len() > 0 && og_image(markup) == Some(
            og_images(markup)[0],
        ),
{
    let found = matching(markup, "meta[property=\"og:image\"]"@);
    if og_image(markup).is_some() {
        first_kept_value_is_first(found, "content"@);
    }
}

/// Where the first element found has the attribute, its value is the first of
/// the values kept.
pub proof fn first_kept_value_is_first(found: Seq<ElementData>, name: Seq<char>)
    requires
        first_attribute(found, name).is_some(),
    ensures
        every_attribute(found, name).len() > 0,
        Some(every_attribute(found, name)[0]) == first_attribute(found, name),
    decreases found.len(),
{
    if found.len() > 1 {
        let rest = found.drop_last();
        assert(rest[0] == found[0]);
        first_kept_value_is_first(rest, name);
    } else {
        assert(found.drop_last().len() == 0);
        assert(every_attribute(found.drop_last(), name).len() == 0);
    }
}

/// Every field is a function of the page's view, the markup it was built
/// from: asking again, of the same page or of another page built from the same
/// markup, gives the same answer.
pub proof fn same_markup_same_answers(first: MetaScraper, second: MetaScraper)
    requires
        first@ == second@,
    ensures
        plain_title(first@) == plain_title(second@),
        og_title(first@) == og_title(second@),
        twitter_title(first@) == twitter_title(second@),
        resolved_title(first@) == resolved_title(second@),
        plain_description(first@) == plain_description(second@),
        og_description(first@) == og_description(second@),
        twitter_description(first@) == twitter_description(second@),
        resolved_description(first@) == resolved_description(second@),
        favicon_link(first@) == favicon_link(second@),
        og_image(first@) == og_image(second@),
        og_images(first@) == og_images(second@),
        twitter_image(first@) == twitter_image(second@),
        resolved_image(first@) == resolved_image(second@),
        language(first@) == language(second@),
{
}

} // verus!
