//! The snapshot record produced by one successful capture.

use vstd::prelude::*;

verus! {

/// Mathematical content of a [`Page`].
pub struct PageView {
    /// The navigation target that was asked for.
    pub url: Seq<char>,
    /// The document title; may be empty.
    pub title: Seq<char>,
    /// The serialized document at capture time.
    pub source: Seq<char>,
    /// The PNG bytes of the screenshot, when one was taken.
    pub screenshot: Option<Seq<u8>>,
}

/// An immutable snapshot of one page: requested URL, title, source and
/// screenshot. Two pages are equal exactly when their contents are.
#[derive(Debug, Eq, Hash)]
pub struct Page {
    url: String,
    title: String,
    source: String,
    screenshot: Option<Vec<u8>>,
}

impl View for Page {
    type V = PageView;

    closed spec fn view(&self) -> PageView {
        PageView {
            url: self.url@,
            title: self.title@,
            source: self.source@,
            screenshot: match self.screenshot {
                Some(bytes) => Some(bytes@),
                None => None,
            },
        }
    }
}

impl Page {
    /// Assembles a page from its four parts.
    pub fn new(url: String, title: String, source: String, screenshot: Option<Vec<u8>>) -> (page:
        Page)
        ensures
            page@.url == url@,
            page@.title == title@,
            page@.source == source@,
            page@.screenshot == match screenshot {
                Some(bytes) => Some(bytes@),
                None => None::<Seq<u8>>,
            },
    {
        Page { url, title, source, screenshot }
    }

    /// The URL that was asked for.
    pub fn url(&self) -> (url: &str)
        ensures
            url@ == self@.url,
    {
        self.url.as_str()
    }

    /// The document title.
    pub fn title(&self) -> (title: &str)
        ensures
            title@ == self@.title,
    {
        self.title.as_str()
    }

    /// The serialized document.
    pub fn source(&self) -> (source: &str)
        ensures
            source@ == self@.source,
    {
        self.source.as_str()
    }

    /// The screenshot bytes, if any.
    pub fn screenshot(&self) -> (shot: Option<&Vec<u8>>)
        ensures
            shot is Some == self@.screenshot is Some,
            shot matches Some(bytes) ==> self@.screenshot == Some(bytes@),
    {
        self.screenshot.as_ref()
    }
}

impl Clone for Page {
    fn clone(&self) -> (copy: Page)
        ensures
            copy@ == self@,
    {
        let screenshot = match &self.screenshot {
            Some(bytes) => {
                let copied = bytes.clone();
                assert(copied@ =~= bytes@);
                Some(copied)
            },
            None => None,
        };
        Page {
            url: self.url.clone(),
            title: self.title.clone(),
            source: self.source.clone(),
            screenshot,
        }
    }
}

impl PartialEq for Page {
    fn eq(&self, other: &Page) -> (same: bool) {
        let shots = match (&self.screenshot, &other.screenshot) {
            (Some(a), Some(b)) => {
                let same_bytes = a == b;
                assert(same_bytes == (a@ == b@)) by {
                    if same_bytes {
                        assert(a@ =~= b@);
                    }
                }
                same_bytes
            },
            (None, None) => true,
            _ => false,
        };
        self.url == other.url && self.title == other.title && self.source == other.source && shots
    }
}

impl vstd::std_specs::cmp::PartialEqSpecImpl for Page {
    open spec fn obeys_eq_spec() -> bool {
        true
    }

    open spec fn eq_spec(&self, other: &Page) -> bool {
        self@ == other@
    }
}

} // verus!
