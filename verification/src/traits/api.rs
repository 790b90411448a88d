use vstd::prelude::*;

use curl::easy::{Easy, List};

verus! {

/// The base functions of an API wrapper
pub trait Api {
    /// Returns an Easy object preconfigured for every route
    fn get_easy_base(&self) -> Easy;

    /// Returns a headers list with data to use for every route
    fn get_headers_base(&self) -> List;

    /// Returns an Easy object and a headers list with data to use for every
    /// route
    fn get_base_data(&self) -> (Easy, List) {
        (self.get_easy_base(), self.get_headers_base())
    }

    /// Returns the root url to use for every route
    fn get_root_url(&self) -> String;
}

} // verus!
