//! Page metadata read from HTML markup: title, description, hero image,
//! favicon and language, resolved across Open Graph tags, Twitter Card tags
//! and plain HTML tags by a fixed order of precedence.
//!
//! Absence is never an error: a missing tag, a missing attribute, empty or
//! malformed markup all come out as `None` or as an empty list.

use vstd::prelude::*;

pub mod document;
pub mod extract;
pub mod fields;
pub mod laws;

use crate::document::{compile, document_markup, parse_document, select_all};
use crate::extract::{every_attribute_in, first_attribute_in, first_text_in};
use crate::fields::{
    favicon_link, language, og_description, og_image, og_images, og_title, plain_description,
    plain_title, resolved_description, resolved_image, resolved_title, twitter_description,
    twitter_image, twitter_title,
};

verus! {

/// A parsed page, queried for its metadata. Its view is the markup it was
/// built from.
pub struct MetaScraper {
    document: scraper::Html,
}

impl View for MetaScraper {
    type V = Seq<char>;

    closed spec fn view(&self) -> Seq<char> {
        document_markup(self.document)
    }
}

impl MetaScraper {
    /// Parses `html` once; every later query reads the parsed document.
    pub fn new(html: &str) -> (scraper: Self)
        ensures
            scraper@ == html@,
    {
        MetaScraper { document: parse_document(html) }
    }

    /// The text of the first `<title>` element.
    pub fn extract_title(&self) -> (title: Option<String>)
        ensures
            title.deep_view() == plain_title(self@),
    {
        let selector = compile("title");
        let found = select_all(&self.document, &selector);
        first_text_in(&found)
    }

    /// The `content` of the first `<meta property="og:title">`.
    pub fn extract_og_title(&self) -> (title: Option<String>)
        ensures
            title.deep_view() == og_title(self@),
    {
        let selector = compile("meta[property=\"og:title\"]");
        let found = select_all(&self.document, &selector);
        first_attribute_in(&found, "content")
    }

    /// The `content` of the first `<meta name="twitter:title">`.
    pub fn extract_twitter_title(&self) -> (title: Option<String>)
        ensures
            title.deep_view() == twitter_title(self@),
    {
        let selector = compile("meta[name=\"twitter:title\"]");
        let found = select_all(&self.document, &selector);
        first_attribute_in(&found, "content")
    }

    /// The page title, from the first source that has one:
    /// `<meta property="og:title">`, `<meta name="twitter:title">`, `<title>`.
    pub fn title(&self) -> (title: Option<String>)
        ensures
            title.deep_view() == resolved_title(self@),
    {
        let og = self.extract_og_title();
        if og.is_some() {
            return og;
        }
        let twitter = self.extract_twitter_title();
        if twitter.is_some() {
            return twitter;
        }
        self.extract_title()
    }

    /// The `content` of the first `<meta name="description">`.
    pub fn extract_description(&self) -> (description: Option<String>)
        ensures
            description.deep_view() == plain_description(self@),
    {
        let selector = compile("meta[name=\"description\"]");
        let found = select_all(&self.document, &selector);
        first_attribute_in(&found, "content")
    }

    /// The `content` of the first `<meta property="og:description">`.
    pub fn extract_og_description(&self) -> (description: Option<String>)
        ensures
            description.deep_view() == og_description(self@),
    {
        let selector = compile("meta[property=\"og:description\"]");
        let found = select_all(&self.document, &selector);
        first_attribute_in(&found, "content")
    }

    /// The `content` of the first `<meta name="twitter:description">`.
    pub fn extract_twitter_description(&self) -> (description: Option<String>)
        ensures
            description.deep_view() == twitter_description(self@),
    {
        let selector = compile("meta[name=\"twitter:description\"]");
        let found = select_all(&self.document, &selector);
        first_attribute_in(&found, "content")
    }

    /// The page description, from the first source that has one:
    /// `<meta property="og:description">`, `<meta name="twitter:description">`,
    /// `<meta name="description">`.
    pub fn description(&self) -> (description: Option<String>)
        ensures
            description.deep_view() == resolved_description(self@),
    {
        let og = self.extract_og_description();
        if og.is_some() {
            return og;
        }
        let twitter = self.extract_twitter_description();
        if twitter.is_some() {
            return twitter;
        }
        self.extract_description()
    }

    /// The `href` of the first `<link rel="icon">`.
    pub fn favicon(&self) -> (favicon: Option<String>)
        ensures
            favicon.deep_view() == favicon_link(self@),
    {
        let selector = compile("link[rel=\"icon\"]");
        let found = select_all(&self.document, &selector);
        first_attribute_in(&found, "href")
    }

    /// The `content` of the first `<meta property="og:image">`.
    pub fn extract_og_image(&self) -> (image: Option<String>)
        ensures
            image.deep_view() == og_image(self@),
    {
        let selector = compile("meta[property=\"og:image\"]");
        let found = select_all(&self.document, &selector);
        first_attribute_in(&found, "content")
    }

    /// The `content` of every `<meta property="og:image">` that has one, in
    /// the order of the elements, repeats included.
    pub fn extract_og_images(&self) -> (images: Vec<String>)
        ensures
            images.deep_view() == og_images(self@),
            images@.len() == og_images(self@).len(),
            forall|i: int|
                0 <= i < images@.len() ==> (#[trigger] images@[i])@ == og_images(self@)[i],
    {
        let selector = compile("meta[property=\"og:image\"]");
        let found = select_all(&self.document, &selector);
        every_attribute_in(&found, "content")
    }

    /// The `content` of the first `<meta name="twitter:image">`.
    pub fn extract_twitter_image(&self) -> (image: Option<String>)
        ensures
            image.deep_view() == twitter_image(self@),
    {
        let selector = compile("meta[name=\"twitter:image\"]");
        let found = select_all(&self.document, &selector);
        first_attribute_in(&found, "content")
    }

    /// The page image, from the first source that has one:
    /// `<meta property="og:image">`, `<meta name="twitter:image">`.
    pub fn image(&self) -> (image: Option<String>)
        ensures
            image.deep_view() == resolved_image(self@),
    {
        let og = self.extract_og_image();
        if og.is_some() {
            return og;
        }
        self.extract_twitter_image()
    }

    /// The `lang` attribute of the first `<html>` element.
    pub fn lang(&self) -> (lang: Option<String>)
        ensures
            lang.deep_view() == language(self@),
    {
        let selector = compile("html");
        let found = select_all(&self.document, &selector);
        first_attribute_in(&found, "lang")
    }
}

} // verus!
