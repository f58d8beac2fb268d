//! What each metadata field of a page is, as a function of the page's markup.
//!
//! Every source is one query and one attribute (or the element's text); a
//! resolved field is the first present value along its chain of sources.

use vstd::prelude::*;

use crate::document::matching;
use crate::extract::{every_attribute, first_attribute, first_text};

verus! {

/// The first of two optional values that is present.
pub open spec fn first_present(
    preferred: Option<Seq<char>>,
    fallback: Option<Seq<char>>,
) -> Option<Seq<char>> {
    if preferred.is_some() {
        preferred
    } else {
        fallback
    }
}

/// The text of the first `title` element.
pub open spec fn plain_title(markup: Seq<char>) -> Option<Seq<char>> {
    first_text(matching(markup, "title"@))
}

/// The `content` of the first `meta` element whose `property` is `og:title`.
pub open spec fn og_title(markup: Seq<char>) -> Option<Seq<char>> {
    first_attribute(matching(markup, "meta[property=\"og:title\"]"@), "content"@)
}

/// The `content` of the first `meta` element whose `name` is `twitter:title`.
pub open spec fn twitter_title(markup: Seq<char>) -> Option<Seq<char>> {
    first_attribute(matching(markup, "meta[name=\"twitter:title\"]"@), "content"@)
}

/// The page title: Open Graph, then Twitter Card, then the `title` element.
pub open spec fn resolved_title(markup: Seq<char>) -> Option<Seq<char>> {
    first_present(og_title(markup), first_present(twitter_title(markup), plain_title(markup)))
}

/// The `content` of the first `meta` element whose `name` is `description`.
pub open spec fn plain_description(markup: Seq<char>) -> Option<Seq<char>> {
    first_attribute(matching(markup, "meta[name=\"description\"]"@), "content"@)
}

/// The `content` of the first `meta` element whose `property` is
/// `og:description`.
pub open spec fn og_description(markup: Seq<char>) -> Option<Seq<char>> {
    first_attribute(matching(markup, "meta[property=\"og:description\"]"@), "content"@)
}

/// The `content` of the first `meta` element whose `name` is
/// `twitter:description`.
pub open spec fn twitter_description(markup: Seq<char>) -> Option<Seq<char>> {
    first_attribute(matching(markup, "meta[name=\"twitter:description\"]"@), "content"@)
}

/// The page description: Open Graph, then Twitter Card, then the plain
/// `description` tag.
pub open spec fn resolved_description(markup: Seq<char>) -> Option<Seq<char>> {
    first_present(
        og_description(markup),
        first_present(twitter_description(markup), plain_description(markup)),
    )
}

/// The `href` of the first `link` element whose `rel` is `icon`.
pub open spec fn favicon_link(markup: Seq<char>) -> Option<Seq<char>> {
    first_attribute(matching(markup, "link[rel=\"icon\"]"@), "href"@)
}

/// The `content` of the first `meta` element whose `property` is `og:image`.
pub open spec fn og_image(markup: Seq<char>) -> Option<Seq<char>> {
    first_attribute(matching(markup, "meta[property=\"og:image\"]"@), "content"@)
}

/// The `content` of every `meta` element whose `property` is `og:image` and
/// which has one, in the order of the elements.
pub open spec fn og_images(markup: Seq<char>) -> Seq<Seq<char>> {
    every_attribute(matching(markup, "meta[property=\"og:image\"]"@), "content"@)
}

/// The `content` of the first `meta` element whose `name` is `twitter:image`.
pub open spec fn twitter_image(markup: Seq<char>) -> Option<Seq<char>> {
    first_attribute(matching(markup, "meta[name=\"twitter:image\"]"@), "content"@)
}

/// The page image: Open Graph, then Twitter Card. There is no plain source.
pub open spec fn resolved_image(markup: Seq<char>) -> Option<Seq<char>> {
    first_present(og_image(markup), twitter_image(markup))
}

/// The `lang` attribute of the first `html` element.
pub open spec fn language(markup: Seq<char>) -> Option<Seq<char>> {
    first_attribute(matching(markup, "html"@), "lang"@)
}

} // verus!
