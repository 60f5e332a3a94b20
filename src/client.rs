use vstd::prelude::*;

verus! {

/// Message of the error returned when an empty API key is set.
pub const SET_API_KEY_EMPTY_ERROR: &'static str = "API key cannot be empty";

/// Credentials and base URLs of one shop.
#[derive(Clone, Debug)]
pub struct Shopify {
    shared_secret: Option<String>,
    api_key: String,
    query_url: String,
    rest_url: String,
    shop: String,
}

/// The abstract value of a [`Shopify`] descriptor.
pub ghost struct ShopifyView {
    pub shared_secret: Option<Seq<char>>,
    pub api_key: Seq<char>,
    pub query_url: Seq<char>,
    pub rest_url: Seq<char>,
    pub shop: Seq<char>,
}

/// The GraphQL endpoint of a shop.
pub open spec fn query_url_for(shop: Seq<char>) -> Seq<char> {
    "https://"@ + shop + "/admin/api/2020-04/graphql.json"@
}

/// The REST root of a shop.
pub open spec fn rest_url_for(shop: Seq<char>) -> Seq<char> {
    "https://"@ + shop + "/admin/api/2020-04/"@
}

impl ShopifyView {
    /// The descriptor that the constructor builds from its arguments.
    pub open spec fn built(shop: Seq<char>, api_key: Seq<char>, shared_secret: Option<Seq<char>>) -> ShopifyView {
        ShopifyView {
            shared_secret,
            api_key,
            query_url: query_url_for(shop),
            rest_url: rest_url_for(shop),
            shop,
        }
    }

    /// The same descriptor with its API key replaced.
    pub open spec fn with_api_key(self, api_key: Seq<char>) -> ShopifyView {
        ShopifyView { api_key, ..self }
    }
}

/// A descriptor keeps the shop it was built for, together with its URLs and
/// shared secret, across any replacement of its API key, and holds the new key
/// afterwards.
pub proof fn lemma_api_key_update_keeps_shop(
    shop: Seq<char>,
    api_key: Seq<char>,
    shared_secret: Option<Seq<char>>,
    d: ShopifyView,
    new_key: Seq<char>,
)
    ensures
        ShopifyView::built(shop, api_key, shared_secret).shop == shop,
        d.with_api_key(new_key).shop == d.shop,
        d.with_api_key(new_key).query_url == d.query_url,
        d.with_api_key(new_key).rest_url == d.rest_url,
        d.with_api_key(new_key).shared_secret == d.shared_secret,
        d.with_api_key(new_key).api_key == new_key,
{
}

impl View for Shopify {
    type V = ShopifyView;

    closed spec fn view(&self) -> ShopifyView {
        ShopifyView {
            shared_secret: match self.shared_secret {
                Some(s) => Some(s@),
                None => None,
            },
            api_key: self.api_key@,
            query_url: self.query_url@,
            rest_url: self.rest_url@,
            shop: self.shop@,
        }
    }
}

impl Shopify {
    /// Create a new client descriptor for `shop`. No argument is validated.
    pub fn new(shop: &str, api_key: &str, shared_secret: Option<&str>) -> (r: Shopify)
        ensures
            r@ == ShopifyView::built(
                shop@,
                api_key@,
                match shared_secret {
                    Some(s) => Some(s@),
                    None => None,
                },
            ),
    {
        let mut query_url = String::from_str("https://");
        query_url.append(shop);
        query_url.append("/admin/api/2020-04/graphql.json");
        let mut rest_url = String::from_str("https://");
        rest_url.append(shop);
        rest_url.append("/admin/api/2020-04/");
        let shared_secret = match shared_secret {
            Some(secret) => Some(secret.to_owned()),
            None => None,
        };
        Shopify { shared_secret, api_key: api_key.to_owned(), query_url, rest_url, shop: shop.to_owned() }
    }

    /// Get the shop name.
    pub fn get_shop(&self) -> (r: &str)
        ensures
            r@ == self@.shop,
    {
        self.shop.as_str()
    }

    /// Get the API key.
    pub fn get_api_key(&self) -> (r: &str)
        ensures
            r@ == self@.api_key,
    {
        self.api_key.as_str()
    }

    /// Get the shared secret, if one was given.
    pub fn get_shared_secret(&self) -> (r: Option<&str>)
        ensures
            r is Some <==> self@.shared_secret is Some,
            r is Some ==> r->Some_0@ == self@.shared_secret->Some_0,
    {
        match &self.shared_secret {
            Some(s) => Some(s.as_str()),
            None => None,
        }
    }

    /// Get the GraphQL endpoint.
    pub fn get_query_url(&self) -> (r: &str)
        ensures
            r@ == self@.query_url,
    {
        self.query_url.as_str()
    }

    /// Get the REST root URL.
    pub fn get_rest_url(&self) -> (r: &str)
        ensures
            r@ == self@.rest_url,
    {
        self.rest_url.as_str()
    }

    /// Set the API key. An empty key is refused with an error and leaves the
    /// descriptor unchanged; otherwise the key is replaced and the descriptor
    /// is handed back for chaining.
    pub fn set_api_key(&mut self, api_key: &str) -> (r: Result<&mut Shopify, String>)
        ensures
            r is Err <==> api_key@.len() == 0,
            r is Err ==> r->Err_0@ == SET_API_KEY_EMPTY_ERROR@ && *final(self) == *old(self),
            r is Ok ==> (*r->Ok_0)@ == old(self)@.with_api_key(api_key@) && *final(self)
                == *final(r->Ok_0),
    {
        if api_key.is_empty() {
            return Err(SET_API_KEY_EMPTY_ERROR.to_owned());
        }
        self.api_key = api_key.to_owned();
        Ok(self)
    }
}

} // verus!
