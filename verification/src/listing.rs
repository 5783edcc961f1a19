//! Two listings scraped from static pages: countries and products.
//!
//! The caller fetches the page, selects the elements and hands over the
//! texts that it found; the functions here decide what makes a complete
//! entry and lay the entries out as rows of a table.

use vstd::prelude::*;

verus! {

/// Page that lists the countries.
pub const COUNTRIES_URL: &'static str = "https://www.scrapethissite.com/pages/simple/";

/// Selector of one country's box on that page.
pub const COUNTRY_SELECTOR: &'static str = ".country";

/// Selector of the name inside a country's box.
pub const COUNTRY_NAME_SELECTOR: &'static str = ".country-name";

/// Selector of the capital inside a country's box.
pub const COUNTRY_CAPITAL_SELECTOR: &'static str = ".country-capital";

/// Selector of the population inside a country's box.
pub const COUNTRY_POPULATION_SELECTOR: &'static str = ".country-population";

/// Selector of the area inside a country's box.
pub const COUNTRY_AREA_SELECTOR: &'static str = ".country-area";

/// File that the table of countries is written to.
pub const COUNTRIES_FILE: &'static str = "countries.csv";

/// Page that lists the products.
pub const PRODUCTS_URL: &'static str = "https://www.scrapingcourse.com/ecommerce/";

/// Selector of one product on that page.
pub const PRODUCT_SELECTOR: &'static str = "li.product";

/// Selector of the link inside a product; its `href` is the product's URL.
pub const PRODUCT_LINK_SELECTOR: &'static str = "a";

/// Selector of the picture inside a product; its `src` is the image.
pub const PRODUCT_IMAGE_SELECTOR: &'static str = "img";

/// Selector of the name inside a product.
pub const PRODUCT_NAME_SELECTOR: &'static str = "h2";

/// Selector of the price inside a product.
pub const PRODUCT_PRICE_SELECTOR: &'static str = ".price";

/// File that the table of products is written to.
pub const PRODUCTS_FILE: &'static str = "products.csv";

/// The text that `str::trim` returns: the text without the white space at
/// its start and at its end.
pub uninterp spec fn trimmed(text: Seq<char>) -> Seq<char>;

/// Calls `str::trim` and copies the slice that it returns.
///
/// Trusted: the result is the text named [`trimmed`].
#[verifier::external_body]
fn trim(text: &str) -> (core: String)
    ensures
        core@ == trimmed(text@),
{
    text.trim().to_owned()
}

/// What was found in one country's box: for each field the text of the
/// first element that matches the field's selector, if there is one.
#[derive(Debug, PartialEq, Eq)]
pub struct CountryBox {
    pub name: Option<String>,
    pub capital: Option<String>,
    pub population: Option<String>,
    pub area: Option<String>,
}

/// Mathematical content of a [`CountryBox`].
pub struct CountryBoxView {
    pub name: Option<Seq<char>>,
    pub capital: Option<Seq<char>>,
    pub population: Option<Seq<char>>,
    pub area: Option<Seq<char>>,
}

/// Content of an optional text.
pub open spec fn optional_text(text: Option<String>) -> Option<Seq<char>> {
    match text {
        Some(text) => Some(text@),
        None => None,
    }
}

impl View for CountryBox {
    type V = CountryBoxView;

    open spec fn view(&self) -> CountryBoxView {
        CountryBoxView {
            name: optional_text(self.name),
            capital: optional_text(self.capital),
            population: optional_text(self.population),
            area: optional_text(self.area),
        }
    }
}

impl DeepView for CountryBox {
    type V = CountryBoxView;

    open spec fn deep_view(&self) -> CountryBoxView {
        self@
    }
}

/// One country of the listing.
#[derive(Debug, PartialEq, Eq)]
pub struct Country {
    pub name: String,
    pub capital: String,
    pub population: String,
    pub area: String,
}

/// Mathematical content of a [`Country`].
pub struct CountryView {
    pub name: Seq<char>,
    pub capital: Seq<char>,
    pub population: Seq<char>,
    pub area: Seq<char>,
}

impl View for Country {
    type V = CountryView;

    open spec fn view(&self) -> CountryView {
        CountryView {
            name: self.name@,
            capital: self.capital@,
            population: self.population@,
            area: self.area@,
        }
    }
}

impl DeepView for Country {
    type V = CountryView;

    open spec fn deep_view(&self) -> CountryView {
        self@
    }
}

/// The field that a country's box lacks.
#[derive(Debug, Clone, Copy, PartialEq, Eq, Structural)]
pub enum ScrapeError {
    NameNotFound,
    CapitalNotFound,
    PopulationNotFound,
    AreaNotFound,
}

impl ScrapeError {
    /// The text shown for the error.
    pub open spec fn message_spec(self) -> Seq<char> {
        match self {
            ScrapeError::NameNotFound => "Country name not found"@,
            ScrapeError::CapitalNotFound => "Country capital not found"@,
            ScrapeError::PopulationNotFound => "Country population not found"@,
            ScrapeError::AreaNotFound => "Country area not found"@,
        }
    }

    /// The text shown for the error.
    pub fn message(&self) -> (text: &'static str)
        ensures
            text@ == self.message_spec(),
    {
        match self {
            ScrapeError::NameNotFound => "Country name not found",
            ScrapeError::CapitalNotFound => "Country capital not found",
            ScrapeError::PopulationNotFound => "Country population not found",
            ScrapeError::AreaNotFound => "Country area not found",
        }
    }
}

/// The country that a box stands for: every field trimmed. A box that lacks
/// a field stands for none; the first field that it lacks, in the order
/// name, capital, population, area, is the error.
pub open spec fn country_of(found: CountryBoxView) -> Result<CountryView, ScrapeError> {
    match found.name {
        None => Err(ScrapeError::NameNotFound),
        Some(name) => match found.capital {
            None => Err(ScrapeError::CapitalNotFound),
            Some(capital) => match found.population {
                None => Err(ScrapeError::PopulationNotFound),
                Some(population) => match found.area {
                    None => Err(ScrapeError::AreaNotFound),
                    Some(area) => Ok(
                        CountryView {
                            name: trimmed(name),
                            capital: trimmed(capital),
                            population: trimmed(population),
                            area: trimmed(area),
                        },
                    ),
                },
            },
        },
    }
}

/// The row that a country is written as.
pub open spec fn country_row(country: CountryView) -> Seq<Seq<char>> {
    seq![country.name, country.capital, country.population, country.area]
}

/// The head row of the table of countries.
pub open spec fn country_head() -> Seq<Seq<char>> {
    seq!["name"@, "capital"@, "population"@, "area"@]
}

/// The head row of the table of products.
pub open spec fn product_head() -> Seq<Seq<char>> {
    seq!["url"@, "image"@, "name"@, "price"@]
}

/// Content of a country's result.
pub open spec fn country_result(made: Result<Country, ScrapeError>) -> Result<
    CountryView,
    ScrapeError,
> {
    match made {
        Ok(country) => Ok(country@),
        Err(error) => Err(error),
    }
}

impl Country {
    /// Makes a country from what was found in its box.
    pub fn from_box(found: &CountryBox) -> (made: Result<Country, ScrapeError>)
        ensures
            country_result(made) == country_of(found@),
    {
        let name = match &found.name {
            Some(text) => trim(text.as_str()),
            None => {
                return Err(ScrapeError::NameNotFound);
            },
        };
        let capital = match &found.capital {
            Some(text) => trim(text.as_str()),
            None => {
                return Err(ScrapeError::CapitalNotFound);
            },
        };
        let population = match &found.population {
            Some(text) => trim(text.as_str()),
            None => {
                return Err(ScrapeError::PopulationNotFound);
            },
        };
        let area = match &found.area {
            Some(text) => trim(text.as_str()),
            None => {
                return Err(ScrapeError::AreaNotFound);
            },
        };
        Ok(Country { name, capital, population, area })
    }

    /// The country as a row: name, capital, population, area.
    pub fn record(&self) -> (row: Vec<String>)
        ensures
            row.deep_view() == country_row(self@),
    {
        let mut row: Vec<String> = Vec::new();
        row.push(self.name.clone());
        row.push(self.capital.clone());
        row.push(self.population.clone());
        row.push(self.area.clone());
        assert(row.deep_view() =~= country_row(self@));
        row
    }
}

/// Makes the countries of a listing from its boxes, in order. One box that
/// lacks a field spoils the listing: the result is then the error of the
/// first such box, and no country at all.
pub fn countries_of(boxes: &Vec<CountryBox>) -> (listing: Result<Vec<Country>, ScrapeError>)
    ensures
        match listing {
            Ok(countries) => {
                &&& countries.len() == boxes.len()
                &&& forall|i: int|
                    0 <= i < boxes.len() ==> country_of(#[trigger] boxes[i]@) == Ok::<
                        CountryView,
                        ScrapeError,
                    >(countries[i]@)
            },
            Err(error) => exists|i: int|
                {
                    &&& 0 <= i < boxes.len()
                    &&& country_of(#[trigger] boxes[i]@) == Err::<CountryView, ScrapeError>(error)
                    &&& forall|j: int| 0 <= j < i ==> country_of(#[trigger] boxes[j]@) is Ok
                },
        },
{
    let mut countries: Vec<Country> = Vec::new();
    let mut i: usize = 0;
    while i < boxes.len()
        invariant
            i <= boxes.len(),
            countries.len() == i,
            forall|j: int|
                0 <= j < i ==> country_of(#[trigger] boxes[j]@) == Ok::<CountryView, ScrapeError>(
                    countries[j]@,
                ),
        decreases boxes.len() - i,
    {
        match Country::from_box(&boxes[i]) {
            Ok(country) => {
                countries.push(country);
            },
            Err(error) => {
                assert(country_of(boxes[i as int]@) == Err::<CountryView, ScrapeError>(error));
                return Err(error);
            },
        }
        i += 1;
    }
    Ok(countries)
}

/// Lays the countries out as a table: the head row, then one row for each
/// country, in order.
pub fn country_table(countries: &Vec<Country>) -> (table: Vec<Vec<String>>)
    ensures
        table.len() == countries.len() + 1,
        table[0].deep_view() == country_head(),
        forall|i: int|
            0 <= i < countries.len() ==> (#[trigger] table[i + 1]).deep_view() == country_row(
                countries[i]@,
            ),
{
    let mut table: Vec<Vec<String>> = Vec::new();
    table.push(head_row("name", "capital", "population", "area"));
    let mut i: usize = 0;
    while i < countries.len()
        invariant
            i <= countries.len(),
            table.len() == i + 1,
            table[0].deep_view() == country_head(),
            forall|j: int|
                0 <= j < i ==> (#[trigger] table[j + 1]).deep_view() == country_row(
                    countries[j]@,
                ),
        decreases countries.len() - i,
    {
        table.push(countries[i].record());
        i += 1;
    }
    table
}

/// The table of countries for a listing's boxes: the head row, then the row
/// of each box's country. A box that lacks a field spoils the listing, as in
/// [`countries_of`], and there is no table then.
pub fn scrap_example(boxes: &Vec<CountryBox>) -> (written: Result<Vec<Vec<String>>, ScrapeError>)
    ensures
        match written {
            Ok(table) => {
                &&& table.len() == boxes.len() + 1
                &&& table[0].deep_view() == country_head()
                &&& forall|i: int|
                    0 <= i < boxes.len() ==> country_of(#[trigger] boxes[i]@) is Ok && table[i
                        + 1].deep_view() == country_row(country_of(boxes[i]@)->Ok_0)
            },
            Err(error) => exists|i: int|
                {
                    &&& 0 <= i < boxes.len()
                    &&& country_of(#[trigger] boxes[i]@) == Err::<CountryView, ScrapeError>(error)
                    &&& forall|j: int| 0 <= j < i ==> country_of(#[trigger] boxes[j]@) is Ok
                },
        },
{
    match countries_of(boxes) {
        Ok(countries) => {
            let table = country_table(&countries);
            assert forall|i: int| 0 <= i < boxes.len() implies country_of(
                #[trigger] boxes[i]@,
            ) is Ok && table[i + 1].deep_view() == country_row(country_of(boxes[i]@)->Ok_0) by {
                assert(table[i + 1].deep_view() == country_row(countries[i]@));
            }
            Ok(table)
        },
        Err(error) => Err(error),
    }
}

/// The table of products: the head row, then the row of each product, in
/// order. There is a table exactly when nothing is missing of any product.
pub fn scrap_sample(products: &Vec<Product>) -> (written: Option<Vec<Vec<String>>>)
    ensures
        match written {
            Some(table) => {
                &&& table.len() == products.len() + 1
                &&& table[0].deep_view() == product_head()
                &&& forall|i: int|
                    0 <= i < products.len() ==> product_row(#[trigger] products[i]@) == Some(
                        table[i + 1].deep_view(),
                    )
            },
            None => exists|i: int|
                0 <= i < products.len() && product_row(#[trigger] products[i]@) is None,
        },
{
    let mut table: Vec<Vec<String>> = Vec::new();
    table.push(Product::head());
    let mut i: usize = 0;
    while i < products.len()
        invariant
            i <= products.len(),
            table.len() == i + 1,
            table[0].deep_view() == product_head(),
            forall|j: int|
                0 <= j < i ==> product_row(#[trigger] products[j]@) == Some(
                    table[j + 1].deep_view(),
                ),
        decreases products.len() - i,
    {
        match products[i].record() {
            Some(row) => {
                table.push(row);
            },
            None => {
                assert(product_row(products[i as int]@) is None);
                return None;
            },
        }
        i += 1;
    }
    Some(table)
}

fn head_row(first: &str, second: &str, third: &str, fourth: &str) -> (row: Vec<String>)
    ensures
        row.deep_view() == seq![first@, second@, third@, fourth@],
{
    let mut row: Vec<String> = Vec::new();
    row.push(first.to_owned());
    row.push(second.to_owned());
    row.push(third.to_owned());
    row.push(fourth.to_owned());
    assert(row.deep_view() =~= seq![first@, second@, third@, fourth@]);
    row
}

/// One product of the listing, with what was found of it.
#[derive(Debug, PartialEq, Eq)]
pub struct Product {
    pub url: Option<String>,
    pub image: Option<String>,
    pub name: Option<String>,
    pub price: Option<String>,
}

/// Mathematical content of a [`Product`].
pub struct ProductView {
    pub url: Option<Seq<char>>,
    pub image: Option<Seq<char>>,
    pub name: Option<Seq<char>>,
    pub price: Option<Seq<char>>,
}

impl View for Product {
    type V = ProductView;

    open spec fn view(&self) -> ProductView {
        ProductView {
            url: optional_text(self.url),
            image: optional_text(self.image),
            name: optional_text(self.name),
            price: optional_text(self.price),
        }
    }
}

/// The row that a product is written as, where nothing of it is missing.
pub open spec fn product_row(product: ProductView) -> Option<Seq<Seq<char>>> {
    if product.url is Some && product.image is Some && product.name is Some && product.price
        is Some {
        Some(
            seq![
                product.url->Some_0,
                product.image->Some_0,
                product.name->Some_0,
                product.price->Some_0,
            ],
        )
    } else {
        None
    }
}

impl Product {
    /// The head row of the table of products.
    pub fn head() -> (row: Vec<String>)
        ensures
            row.deep_view() == product_head(),
    {
        head_row("url", "image", "name", "price")
    }

    /// The product as a row: URL, image, name, price, as they were found. A
    /// product of which something is missing has no row.
    pub fn record(&self) -> (row: Option<Vec<String>>)
        ensures
            match row {
                Some(fields) => product_row(self@) == Some(fields.deep_view()),
                None => product_row(self@) is None,
            },
    {
        match (&self.url, &self.image, &self.name, &self.price) {
            (Some(url), Some(image), Some(name), Some(price)) => {
                let mut fields: Vec<String> = Vec::new();
                fields.push(url.clone());
                fields.push(image.clone());
                fields.push(name.clone());
                fields.push(price.clone());
                assert(fields.deep_view() =~= seq![url@, image@, name@, price@]);
                Some(fields)
            },
            _ => None,
        }
    }
}

} // verus!
