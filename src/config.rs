//! Client configuration and list parameters.
use vstd::prelude::*;
use crate::pagination::{initial_pager, Paginator};

verus! {

/// The base URL of the API, used where a client is built without another.
pub const DEFAULT_ENDPOINT: &'static str = "https://api.billwithorb.com/v1";

/// The page size of a list operation unless set otherwise.
pub const DEFAULT_PAGE_SIZE: u64 = 20;

/// Configures the required parameters of a client.
#[derive(Debug, Clone)]
pub struct ClientConfig {
    /// The API key to authenticate with.
    pub api_key: String,
}

/// Parameters for a list operation.
#[derive(Debug, Clone, Copy, PartialEq, Eq, Structural)]
pub struct ListParams {
    pub(crate) page_size: u64,
}

impl ListParams {
    /// The number of items each page holds.
    pub closed spec fn page_size_spec(self) -> u64 {
        self.page_size
    }

    /// Sets the page size for the list operation.
    ///
    /// The page size only affects the size of each HTTP response. It does
    /// not change the observable output of the API. The maximum page size
    /// is 500.
    pub fn page_size(self, page_size: u64) -> (r: Self)
        ensures
            r.page_size_spec() == page_size,
    {
        ListParams { page_size }
    }

    /// A lazy sequence over the pages of a list request with these parameters.
    pub fn paginator<T>(&self) -> (r: Paginator<T>)
        ensures
            r@ == initial_pager::<T>(self.page_size_spec()),
    {
        Paginator::new(self.page_size)
    }
}

impl Default for ListParams {
    /// Pages of 20 items.
    fn default() -> (r: ListParams)
        ensures
            r.page_size_spec() == 20,
    {
        ListParams { page_size: DEFAULT_PAGE_SIZE }
    }
}

} // verus!
