use vstd::prelude::*;

verus! {

/// What to scrape, and how.
#[derive(Clone, Debug)]
pub struct Scraper {
    /// The address of the page or file.
    pub url: String,
    /// The user the scrape is saved for, if any.
    pub user_id: Option<i32>,
    /// Overwrite an entry that exists.
    pub force: bool,
    /// Scrape with a headless browser.
    pub headless: bool,
}

impl Scraper {
    /// A scrape of `url`, for no user, without overwriting, without a
    /// browser.
    pub fn from_url(url: &str) -> (r: Scraper)
        ensures
            r.url@ == url@,
            r.user_id is None,
            !r.force,
            !r.headless,
    {
        Scraper { url: String::from_str(url), user_id: None, force: false, headless: false }
    }

    /// The same scrape, for the user `user_id`.
    pub fn with_user_id(self, user_id: i32) -> (r: Scraper)
        ensures
            r == (Scraper { user_id: Some(user_id), ..self }),
    {
        Scraper { user_id: Some(user_id), ..self }
    }

    /// The same scrape, overwriting or not.
    pub fn with_force(self, force: bool) -> (r: Scraper)
        ensures
            r == (Scraper { force, ..self }),
    {
        Scraper { force, ..self }
    }

    /// The same scrape, with a headless browser or not.
    pub fn with_headless(self, headless: bool) -> (r: Scraper)
        ensures
            r == (Scraper { headless, ..self }),
    {
        Scraper { headless, ..self }
    }
}

/// A scraped document.
#[derive(Clone, Debug)]
pub struct Document {
    /// The scrape that fetched it.
    pub params: Scraper,
    /// Title of the document.
    pub title: String,
    /// The raw HTML.
    pub html: String,
    /// HTTP status of the answer.
    pub http_status: i32,
}

} // verus!
