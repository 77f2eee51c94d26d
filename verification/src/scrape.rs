//! Scraping the photo metadata out of a species profile page. The HTML
//! parsing and the CSS queries are scraper's work behind one trusted wrapper;
//! the all-or-nothing combination of the four values is verified.

use vstd::prelude::*;

verus! {

/// The photo metadata scraped from a species profile page.
pub struct BirdImage {
    pub photo_type: String,
    pub url_download: String,
    pub url_source: String,
    pub alt_text: String,
}

/// The mathematical value of the photo metadata.
pub struct BirdImageView {
    pub photo_type: Seq<char>,
    pub url_download: Seq<char>,
    pub url_source: Seq<char>,
    pub alt_text: Seq<char>,
}

impl View for BirdImage {
    type V = BirdImageView;

    open spec fn view(&self) -> BirdImageView {
        BirdImageView {
            photo_type: self.photo_type@,
            url_download: self.url_download@,
            url_source: self.url_source@,
            alt_text: self.alt_text@,
        }
    }
}

/// The named attribute of the first element of the document `page` that the
/// CSS selector `selector` matches, or nothing when the selector matches no
/// element or the element lacks the attribute. A function of the three texts
/// alone.
pub uninterp spec fn attr_of(page: Seq<char>, selector: Seq<char>, attr: Seq<char>) -> Option<
    Seq<char>,
>;

/// Relies on scraper's `Html::parse_document`, `Selector::parse` and
/// `Element::attr`: parsing a document and running a fixed CSS selector over
/// it is a function of the texts alone; the result is the named attribute of
/// the first matching element, when there is one.
#[verifier::external_body]
fn select_first_attr(page: &str, selector: &str, attr: &str) -> (r: Option<String>)
    ensures
        match r {
            Some(v) => attr_of(page@, selector@, attr@) == Some(v@),
            None => attr_of(page@, selector@, attr@) is None,
        },
{
    let doc = scraper::Html::parse_document(page);
    let sel = match scraper::Selector::parse(selector) {
        Ok(s) => s,
        Err(_) => return None,
    };
    match doc.select(&sel).next() {
        Some(el) => el.value().attr(attr).map(|a| a.to_string()),
        None => None,
    }
}

/// The download URL announced by the page: the `og:image` meta tag.
pub open spec fn scraped_download_url(page: Seq<char>) -> Option<Seq<char>> {
    attr_of(page, "meta[property=\"og:image\"]"@, "content"@)
}

/// The accessibility text announced by the page: the `og:image:alt` meta tag.
pub open spec fn scraped_alt_text(page: Seq<char>) -> Option<Seq<char>> {
    attr_of(page, "meta[property=\"og:image:alt\"]"@, "content"@)
}

/// The canonical source URL announced by the page: the `og:url` meta tag.
pub open spec fn scraped_source_url(page: Seq<char>) -> Option<Seq<char>> {
    attr_of(page, "meta[property=\"og:url\"]"@, "content"@)
}

/// The content type announced by the page: the `image_src` link tag.
pub open spec fn scraped_photo_type(page: Seq<char>) -> Option<Seq<char>> {
    attr_of(page, "link[rel=\"image_src\"]"@, "type"@)
}

/// The metadata of the page: all four values, or nothing when any one of
/// them is missing.
pub open spec fn scraped_image(page: Seq<char>) -> Option<BirdImageView> {
    if scraped_download_url(page) is Some && scraped_alt_text(page) is Some && scraped_source_url(
        page,
    ) is Some && scraped_photo_type(page) is Some {
        Some(
            BirdImageView {
                photo_type: scraped_photo_type(page)->Some_0,
                url_download: scraped_download_url(page)->Some_0,
                url_source: scraped_source_url(page)->Some_0,
                alt_text: scraped_alt_text(page)->Some_0,
            },
        )
    } else {
        None
    }
}

/// Extracts the four metadata values from a species profile page. Fails, with
/// no partial result, as soon as any one of the four required tags is
/// missing.
pub fn scrape_bird_image(page: &str) -> (r: Option<BirdImage>)
    ensures
        match r {
            Some(img) => scraped_image(page@) == Some(img@),
            None => scraped_image(page@) is None,
        },
{
    let url_download = match select_first_attr(page, "meta[property=\"og:image\"]", "content") {
        Some(v) => v,
        None => return None,
    };
    let alt_text = match select_first_attr(page, "meta[property=\"og:image:alt\"]", "content") {
        Some(v) => v,
        None => return None,
    };
    let url_source = match select_first_attr(page, "meta[property=\"og:url\"]", "content") {
        Some(v) => v,
        None => return None,
    };
    let photo_type = match select_first_attr(page, "link[rel=\"image_src\"]", "type") {
        Some(v) => v,
        None => return None,
    };
    Some(BirdImage { photo_type, url_download, url_source, alt_text })
}

} // verus!
