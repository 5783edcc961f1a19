//! The written form of a page: a JSON object with the members `url`,
//! `title`, `source` and `screenshot`, the screenshot as base64 text or
//! `null`.
//!
//! String literals are written and JSON text is read by `serde_json`; the
//! object around the literals, the choice of members and the base64 step are
//! this module's own.

use crate::encoding::{base64_bytes, base64_text, encoded_length, Base64Encoded};
use crate::page::{Page, PageView};
use vstd::prelude::*;

verus! {

#[verifier::external_type_specification]
#[verifier::external_body]
pub struct ExJsonError(serde_json::Error);

/// The members of a JSON object as plain values: each name with its text,
/// or with `None` for `null`.
pub type Members = Seq<(Seq<char>, Option<Seq<char>>)>;

/// The JSON string literal, quotes and escapes included, that `serde_json`
/// writes for a text.
pub uninterp spec fn json_string_literal(text: Seq<char>) -> Seq<char>;

/// What `serde_json` reads from a text as a map from names to optional
/// texts: the members of the JSON object that the text holds, in the order
/// of their names and with the last value of a repeated name, or `None`
/// where the text is no JSON object or holds a member that is neither a
/// string nor `null`.
pub uninterp spec fn json_members(text: Seq<char>) -> Option<Members>;

/// Calls `serde_json::to_string` on a `str`.
///
/// Trusted: the call succeeds (it fails only where a `Serialize` impl fails
/// or a map has a key that is no string, and a `str` is neither) and returns
/// the literal named [`json_string_literal`].
#[verifier::external_body]
fn quote(text: &str) -> (literal: Result<String, serde_json::Error>)
    ensures
        literal is Ok,
        literal->Ok_0@ == json_string_literal(text@),
{
    serde_json::to_string(text)
}

/// Calls `serde_json::from_str` for a `BTreeMap<String, Option<String>>` and
/// lists the map's entries.
///
/// Trusted: the entries are the ones named [`json_members`], and the call
/// fails exactly where that is `None`.
#[verifier::external_body]
fn parse_members(text: &str) -> (parsed: Result<Vec<(String, Option<String>)>, serde_json::Error>)
    ensures
        match parsed {
            Ok(entries) => json_members(text@) == Some(entries.deep_view()),
            Err(_) => json_members(text@) is None,
        },
{
    let map: std::collections::BTreeMap<String, Option<String>> = serde_json::from_str(text)?;
    Ok(map.into_iter().collect())
}

/// Why a text or a list of members is not the written form of a page.
#[derive(Debug, Clone, Copy, PartialEq, Eq, Structural)]
pub enum RecordError {
    /// The text is no JSON object of strings and nulls.
    NotARecord,
    /// There is no member `url` that is a string.
    MissingUrl,
    /// There is no member `title` that is a string.
    MissingTitle,
    /// There is no member `source` that is a string.
    MissingSource,
    /// The member `screenshot` is a string, but no base64 text.
    BadScreenshot,
}

/// The value of the first member of that name, if there is one.
pub open spec fn member(entries: Members, name: Seq<char>) -> Option<Option<Seq<char>>>
    decreases entries.len(),
{
    if entries.len() == 0 {
        None
    } else if entries[0].0 == name {
        Some(entries[0].1)
    } else {
        member(entries.drop_first(), name)
    }
}

/// The text of the first member of that name, if there is one and it is a
/// string.
pub open spec fn text_member(entries: Members, name: Seq<char>) -> Option<Seq<char>> {
    match member(entries, name) {
        Some(Some(text)) => Some(text),
        _ => None,
    }
}

/// The members that a page is written as, in the order in which they are
/// written.
pub open spec fn page_members(page: PageView) -> Members {
    seq![
        ("url"@, Some(page.url)),
        ("title"@, Some(page.title)),
        ("source"@, Some(page.source)),
        (
            "screenshot"@,
            match page.screenshot {
                Some(bytes) => Some(base64_text(bytes)),
                None => None,
            },
        ),
    ]
}

/// The JSON text that a page is written as.
pub open spec fn page_json(page: PageView) -> Seq<char> {
    "{\"url\":"@ + json_string_literal(page.url) + ",\"title\":"@ + json_string_literal(page.title)
        + ",\"source\":"@ + json_string_literal(page.source) + ",\"screenshot\":"@ + (
    match page.screenshot {
        Some(bytes) => json_string_literal(base64_text(bytes)),
        None => "null"@,
    }) + "}"@
}

/// The page that a list of members stands for: `url`, `title` and `source`
/// must be strings; `screenshot` is decoded from base64 where it is a
/// string, and is absent where it is `null` or missing. The first
/// shortcoming, in this order, is the error.
pub open spec fn page_of_members(entries: Members) -> Result<PageView, RecordError> {
    match text_member(entries, "url"@) {
        None => Err(RecordError::MissingUrl),
        Some(url) => match text_member(entries, "title"@) {
            None => Err(RecordError::MissingTitle),
            Some(title) => match text_member(entries, "source"@) {
                None => Err(RecordError::MissingSource),
                Some(source) => match text_member(entries, "screenshot"@) {
                    None => Ok(PageView { url, title, source, screenshot: None }),
                    Some(text) => match base64_bytes(text) {
                        None => Err(RecordError::BadScreenshot),
                        Some(bytes) => Ok(PageView { url, title, source, screenshot: Some(bytes) }),
                    },
                },
            },
        },
    }
}

/// The members say what the page holds: its URL, title and source as texts,
/// and its screenshot as the base64 text of its bytes, or no screenshot text
/// where it has none.
pub open spec fn holds_page(entries: Members, page: PageView) -> bool {
    &&& text_member(entries, "url"@) == Some(page.url)
    &&& text_member(entries, "title"@) == Some(page.title)
    &&& text_member(entries, "source"@) == Some(page.source)
    &&& text_member(entries, "screenshot"@) == match page.screenshot {
        Some(bytes) => Some(base64_text(bytes)),
        None => None,
    }
}

/// Can the page be written: does the base64 text of its screenshot have a
/// length that fits the machine?
pub open spec fn writable(page: PageView) -> bool {
    page.screenshot matches Some(bytes) ==> encoded_length(bytes.len()) <= usize::MAX
}

/// Content of a reading's result.
pub open spec fn reading_view(decoded: Result<Page, RecordError>) -> Result<PageView, RecordError> {
    match decoded {
        Ok(page) => Ok(page@),
        Err(error) => Err(error),
    }
}

fn find_member<'a>(entries: &'a Vec<(String, Option<String>)>, name: &str) -> (found: Option<
    &'a Option<String>,
>)
    ensures
        match found {
            Some(value) => member(entries.deep_view(), name@) == Some(value.deep_view()),
            None => member(entries.deep_view(), name@) is None,
        },
{
    let wanted = name.to_owned();
    let ghost members = entries.deep_view();
    let mut i: usize = 0;
    assert(members.skip(0) == members);
    while i < entries.len()
        invariant
            i <= entries.len(),
            members == entries.deep_view(),
            members.len() == entries.len(),
            wanted@ == name@,
            member(members, name@) == member(members.skip(i as int), name@),
        decreases entries.len() - i,
    {
        assert(members[i as int] == entries[i as int].deep_view());
        assert(members.skip(i as int)[0] == members[i as int]);
        assert(members.skip(i as int).drop_first() == members.skip(i as int + 1));
        if entries[i].0 == wanted {
            return Some(&entries[i].1);
        }
        i += 1;
    }
    None
}

fn find_text(entries: &Vec<(String, Option<String>)>, name: &str) -> (found: Option<String>)
    ensures
        match found {
            Some(text) => text_member(entries.deep_view(), name@) == Some(text@),
            None => text_member(entries.deep_view(), name@) is None,
        },
{
    match find_member(entries, name) {
        Some(Some(text)) => Some(text.clone()),
        _ => None,
    }
}

fn quoted(text: &str) -> (literal: String)
    ensures
        literal@ == json_string_literal(text@),
{
    match quote(text) {
        Ok(literal) => literal,
        Err(_) => unreached(),
    }
}

/// Does the padded base64 text of `n` bytes have a length that fits `usize`?
pub fn fits_base64(n: usize) -> (fits: bool)
    ensures
        fits == (encoded_length(n as nat) <= usize::MAX),
{
    let groups = n / 3;
    let limit = usize::MAX / 4;
    if n % 3 == 0 {
        groups <= limit
    } else {
        groups < limit
    }
}

impl Page {
    /// Can the page be written down?
    pub fn is_writable(&self) -> (fits: bool)
        ensures
            fits == writable(self@),
    {
        match self.screenshot() {
            Some(bytes) => fits_base64(bytes.len()),
            None => true,
        }
    }

    /// The page as a list of members: URL, title, source and screenshot, the
    /// screenshot as base64 text.
    pub fn to_members(&self) -> (entries: Vec<(String, Option<String>)>)
        requires
            writable(self@),
        ensures
            entries.deep_view() == page_members(self@),
    {
        let shot = match self.screenshot() {
            Some(bytes) => Some(bytes.to_base64()),
            None => None,
        };
        let mut entries: Vec<(String, Option<String>)> = Vec::new();
        entries.push(("url".to_owned(), Some(self.url().to_owned())));
        entries.push(("title".to_owned(), Some(self.title().to_owned())));
        entries.push(("source".to_owned(), Some(self.source().to_owned())));
        entries.push(("screenshot".to_owned(), shot));
        assert(entries.deep_view() =~= page_members(self@));
        entries
    }

    /// Reads a page from a list of members. Succeeds on every list that
    /// says what some page holds, and gives that page back; in particular a
    /// page that was written with [`Page::to_members`] is read back
    /// unchanged, screenshot bytes included.
    pub fn from_members(entries: &Vec<(String, Option<String>)>) -> (decoded: Result<
        Page,
        RecordError,
    >)
        ensures
            reading_view(decoded) == page_of_members(entries.deep_view()),
            forall|page: PageView| #[trigger]
                holds_page(entries.deep_view(), page) ==> reading_view(decoded) == Ok::<
                    PageView,
                    RecordError,
                >(page),
    {
        let url = match find_text(entries, "url") {
            Some(text) => text,
            None => {
                return Err(RecordError::MissingUrl);
            },
        };
        let title = match find_text(entries, "title") {
            Some(text) => text,
            None => {
                return Err(RecordError::MissingTitle);
            },
        };
        let source = match find_text(entries, "source") {
            Some(text) => text,
            None => {
                return Err(RecordError::MissingSource);
            },
        };
        let screenshot = match find_text(entries, "screenshot") {
            Some(text) => match Vec::<u8>::from_base64(text.as_str()) {
                Ok(bytes) => Some(bytes),
                Err(_) => {
                    return Err(RecordError::BadScreenshot);
                },
            },
            None => None,
        };
        Ok(Page::new(url, title, source, screenshot))
    }

    /// Writes the page as JSON text: one object with the members `url`,
    /// `title`, `source` and `screenshot`, in this order and without white
    /// space between them; the screenshot as a base64 string, or `null`.
    pub fn to_json(&self) -> (text: String)
        requires
            writable(self@),
        ensures
            text@ == page_json(self@),
    {
        let mut text = "{\"url\":".to_owned();
        text.append(quoted(self.url()).as_str());
        text.append(",\"title\":");
        text.append(quoted(self.title()).as_str());
        text.append(",\"source\":");
        text.append(quoted(self.source()).as_str());
        text.append(",\"screenshot\":");
        match self.screenshot() {
            Some(bytes) => {
                let encoded = bytes.to_base64();
                text.append(quoted(encoded.as_str()).as_str());
            },
            None => {
                text.append("null");
            },
        }
        text.append("}");
        text
    }

    /// Reads a page from JSON text: fails with `NotARecord` where the text is
    /// no JSON object of strings and nulls, and else reads the object's
    /// members as [`Page::from_members`] does.
    pub fn from_json(text: &str) -> (decoded: Result<Page, RecordError>)
        ensures
            reading_view(decoded) == match json_members(text@) {
                None => Err(RecordError::NotARecord),
                Some(entries) => page_of_members(entries),
            },
            forall|page: PageView|
                json_members(text@) is Some && #[trigger] holds_page(
                    json_members(text@)->Some_0,
                    page,
                ) ==> reading_view(decoded) == Ok::<PageView, RecordError>(page),
    {
        match parse_members(text) {
            Ok(entries) => Page::from_members(&entries),
            Err(_) => Err(RecordError::NotARecord),
        }
    }
}

/// Round trip. The members that a page is written as say what the page
/// holds, so that [`Page::from_members`] reads them back as the same page.
pub proof fn lemma_members_hold_page(page: PageView)
    ensures
        holds_page(page_members(page), page),
{
    reveal_strlit("url");
    reveal_strlit("title");
    reveal_strlit("source");
    reveal_strlit("screenshot");
    let entries = page_members(page);
    let rest1 = entries.drop_first();
    let rest2 = rest1.drop_first();
    let rest3 = rest2.drop_first();
    assert(rest1[0] == entries[1]);
    assert(rest2[0] == entries[2]);
    assert(rest3[0] == entries[3]);
    assert("url"@.len() == 3);
    assert("title"@.len() == 5);
    assert("source"@.len() == 6);
    assert("screenshot"@.len() == 10);
    assert("title"@[0] == 't');
    assert("source"@[0] == 's');
    assert("screenshot"@[0] == 's');
    assert(member(entries, "url"@) == Some(Some(page.url)));
    assert(member(rest1, "title"@) == Some(Some(page.title)));
    assert(member(entries, "title"@) == Some(Some(page.title)));
    assert(member(rest2, "source"@) == Some(Some(page.source)));
    assert(member(rest1, "source"@) == member(rest2, "source"@));
    assert(member(entries, "source"@) == Some(Some(page.source)));
    assert(member(rest3, "screenshot"@) == Some(entries[3].1));
    assert(member(rest2, "screenshot"@) == member(rest3, "screenshot"@));
    assert(member(rest1, "screenshot"@) == member(rest2, "screenshot"@));
    assert(member(entries, "screenshot"@) == Some(entries[3].1));
}

} // verus!
