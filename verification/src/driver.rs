//! Which backend an address leads to.

use vstd::prelude::*;
use crate::error::{Error, ErrorView};
use crate::value::views_of;

verus! {

/// A backend that connections can be made to: its name, and the address
/// schemes that lead to it.
#[derive(Debug)]
pub struct AnyDriver {
    pub name: String,
    pub url_schemes: Vec<String>,
}

/// An [`AnyDriver`] with each text taken as a sequence of characters.
pub struct DriverView {
    pub name: Seq<char>,
    pub url_schemes: Seq<Seq<char>>,
}

impl View for AnyDriver {
    type V = DriverView;

    open spec fn view(&self) -> DriverView {
        DriverView { name: self.name@, url_schemes: views_of(self.url_schemes@) }
    }
}

impl DriverView {
    /// Whether addresses of the scheme `scheme` lead to this driver.
    pub open spec fn serves(self, scheme: Seq<char>) -> bool {
        exists|k: int| 0 <= k < self.url_schemes.len() && self.url_schemes[k] == scheme
    }
}

/// Whether the driver at position `i` is the first among `drivers` that
/// addresses of the scheme `scheme` lead to.
pub open spec fn is_driver_for(drivers: Seq<DriverView>, scheme: Seq<char>, i: int) -> bool {
    &&& 0 <= i < drivers.len()
    &&& drivers[i].serves(scheme)
    &&& forall|j: int| 0 <= j < i ==> !(#[trigger] drivers[j]).serves(scheme)
}

/// The scheme of the address `text`, as the `url` crate reads it: `None` where
/// `text` is no address.
pub uninterp spec fn url_scheme(text: Seq<char>) -> Option<Seq<char>>;

/// Parses `text` with `url::Url::parse` and takes the scheme of the result
/// with `Url::scheme`. The contract claims no more than that the outcome
/// depends on `text` alone: it is the scheme that `url_scheme` names, or
/// `None` where the text does not parse.
#[verifier::external_body]
fn parse_scheme(text: &str) -> (scheme: Option<String>)
    ensures
        match scheme {
            Some(s) => url_scheme(text@) == Some(s@),
            None => url_scheme(text@) is None,
        },
{
    match url::Url::parse(text) {
        Ok(parsed) => Some(parsed.scheme().to_owned()),
        Err(_) => None,
    }
}

impl AnyDriver {
    /// Whether addresses of the scheme `scheme` lead to this driver.
    pub fn serves(&self, scheme: &str) -> (served: bool)
        ensures
            served == self@.serves(scheme@),
    {
        let wanted = scheme.to_owned();
        let mut k: usize = 0;
        while k < self.url_schemes.len()
            invariant
                k <= self.url_schemes.len(),
                wanted@ == scheme@,
                forall|j: int| 0 <= j < k ==> self@.url_schemes[j] != scheme@,
            decreases self.url_schemes.len() - k,
        {
            if self.url_schemes[k] == wanted {
                assert(self@.url_schemes[k as int] == scheme@);
                return true;
            }
            k = k + 1;
        }
        false
    }
}

/// The first driver among `drivers` that addresses of the scheme `scheme`
/// lead to, or `None` where they lead to none.
pub fn driver_for_scheme(drivers: &[AnyDriver], scheme: &str) -> (found: Option<usize>)
    ensures
        match found {
            Some(i) => is_driver_for(views_of(drivers@), scheme@, i as int),
            None => forall|j: int|
                0 <= j < drivers.len() ==> !(#[trigger] views_of(drivers@)[j]).serves(scheme@),
        },
{
    let mut i: usize = 0;
    while i < drivers.len()
        invariant
            i <= drivers.len(),
            forall|j: int| 0 <= j < i ==> !(#[trigger] views_of(drivers@)[j]).serves(scheme@),
        decreases drivers.len() - i,
    {
        if drivers[i].serves(scheme) {
            assert(views_of(drivers@)[i as int] == drivers[i as int]@);
            return Some(i);
        }
        assert(views_of(drivers@)[i as int] == drivers[i as int]@);
        i = i + 1;
    }
    None
}

/// The first driver among `drivers` that the address `url` leads to, by its
/// scheme.
///
/// Fails where `url` is no address, with the text of `url`; and where its
/// scheme leads to no driver, with that scheme.
pub fn driver_for_url(drivers: &[AnyDriver], url: &str) -> (found: Result<usize, Error>)
    ensures
        match found {
            Ok(i) => url_scheme(url@) matches Some(scheme) && is_driver_for(
                views_of(drivers@),
                scheme,
                i as int,
            ),
            Err(e) => match url_scheme(url@) {
                None => e@ == ErrorView::Configuration(url@),
                Some(scheme) => e@ == ErrorView::Configuration(scheme) && forall|j: int|
                    0 <= j < drivers.len() ==> !(#[trigger] views_of(drivers@)[j]).serves(scheme),
            },
        },
{
    match parse_scheme(url) {
        None => Err(Error::Configuration(url.to_owned())),
        Some(scheme) => match driver_for_scheme(drivers, scheme.as_str()) {
            Some(i) => Ok(i),
            None => Err(Error::Configuration(scheme)),
        },
    }
}

} // verus!
