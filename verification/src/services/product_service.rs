use vstd::prelude::*;
use vstd::string::StringExecFns;

use crate::dto::product::CreateProductDto;
use crate::errors::{AppErrors, StorageError};
use crate::models::product::Product;
use crate::services::found_or_missing;
use crate::utils::ident::{parse_id, random_uuid, uuid_parse};
use crate::utils::text::{copy_texts, spec_texts};

verus! {

/// The one key of the cache: under it lies the product with the highest
/// discount, as it was when the cache was last filled.
pub const MOST_ADVANTAGEOUS_KEY: &'static str = "most_advantageous";

/// For how many seconds the cache keeps what lies under its key.
pub const MOST_ADVANTAGEOUS_TTL_SECONDS: u64 = 3600;

/// The three ways to change the products.
#[derive(Debug, Clone, Copy, PartialEq, Eq, Structural)]
pub enum ProductChange {
    Create,
    Update,
    Delete,
}

/// What the cache answered when it was asked for its key.
#[derive(Debug, Clone)]
pub enum CacheReply {
    /// The key is there, and what lies under it reads as this product.
    Hit(Product),
    /// The key is not there.
    Absent,
    /// The key is there, but what lies under it does not read as a
    /// product.
    Undecodable,
    /// The cache could not be asked.
    Unavailable,
}

/// What to do once the cache has answered.
#[derive(Debug, Clone)]
pub enum Lookup {
    /// Answer with this product, and leave the storage alone.
    Answer(Product),
    /// Ask the storage for the product with the highest discount.
    AskStorage,
}

/// What to do once the storage has answered: the answer to the caller, and
/// what to lay into the cache.
#[derive(Debug, Clone)]
pub struct Refill {
    pub product: Product,
    /// The key under which to lay the product into the cache.
    pub key: String,
    /// After how many seconds the cache is to forget it.
    pub ttl_seconds: u64,
}

/// What to do once the storage has taken a change of the products: the
/// answer to the caller, and the key to clear in the cache.
#[derive(Debug, Clone)]
pub struct Completed {
    pub message: String,
    /// The key to delete from the cache. Whether the cache obliges does
    /// not matter to the answer.
    pub clear_key: String,
}

impl ProductChange {
    /// The sentence that reports the change.
    pub open spec fn spec_message(self) -> Seq<char> {
        match self {
            ProductChange::Create => "Product created successfully"@,
            ProductChange::Update => "Product updated successfully"@,
            ProductChange::Delete => "Product deleted successfully"@,
        }
    }

    /// The sentence that reports the change.
    pub fn message(&self) -> (r: String)
        ensures
            r@ == self.spec_message(),
    {
        match self {
            ProductChange::Create => String::from_str("Product created successfully"),
            ProductChange::Update => String::from_str("Product updated successfully"),
            ProductChange::Delete => String::from_str("Product deleted successfully"),
        }
    }
}

/// The key that is cleared in the cache after a change of the products:
/// the one key, whatever the change.
pub open spec fn spec_cleared_key(change: ProductChange) -> Seq<char> {
    MOST_ADVANTAGEOUS_KEY@
}

/// What to do once the cache has answered: a product from the cache is
/// the answer, and everything else sends the request to the storage.
pub open spec fn spec_lookup(reply: CacheReply) -> Lookup {
    match reply {
        CacheReply::Hit(product) => Lookup::Answer(product),
        _ => Lookup::AskStorage,
    }
}

/// Whether a cache that holds `held` can give this answer when it is asked
/// for the one key: it hands out a product only if it holds the key.
pub open spec fn spec_can_reply<T>(held: Map<Seq<char>, T>, reply: CacheReply) -> bool {
    reply is Hit ==> held.contains_key(MOST_ADVANTAGEOUS_KEY@)
}

/// The product for a request to add one: a fresh identifier, and every
/// other field as sent.
pub fn create_product(data: &CreateProductDto) -> (product: Product)
    ensures
        product.name@ == data.name@,
        product.price == data.price,
        product.description@ == data.description@,
        spec_texts(product.images@) == spec_texts(data.images@),
        product.discount == data.discount,
        product.category == data.category,
{
    Product {
        _id: random_uuid(),
        name: data.name.clone(),
        category: data.category,
        description: data.description.clone(),
        discount: data.discount,
        images: copy_texts(&data.images),
        price: data.price,
    }
}

/// The key under which the storage holds the product with this
/// identifier. A text that is no identifier is refused before the storage
/// is asked.
pub fn product_key(product_id: &str) -> (r: Result<u128, AppErrors>)
    ensures
        match uuid_parse(product_id@) {
            Some(key) => r == Ok::<u128, AppErrors>(key),
            None => r matches Err(AppErrors::InvalidUUID),
        },
{
    parse_id(product_id)
}

/// A product, from its identifier and from what the storage found under
/// the identifier's key. A text that is no identifier is refused under its
/// own error, whatever the storage said, and is never reported as a
/// product that was not found. The error for a product that is not there
/// names the identifier that was asked for.
pub fn get_product(product_id: &str, found: Result<Option<Product>, StorageError>) -> (r: Result<
    Product,
    AppErrors,
>)
    ensures
        match uuid_parse(product_id@) {
            None => r matches Err(AppErrors::InvalidUUID),
            Some(_) => match found {
                Ok(Some(product)) => r == Ok::<Product, AppErrors>(product),
                Ok(None) => r matches Err(AppErrors::NotFound(name)) && name@ == product_id@,
                Err(cause) => r matches Err(AppErrors::Mongo(e)) && e == cause,
            },
        },
{
    match product_key(product_id) {
        Ok(_) => found_or_missing(found, product_id),
        Err(e) => Err(e),
    }
}

/// What to do once the storage has answered a change of the products.
/// Where it failed, its failure is the answer and the cache is left
/// alone. Where it took the change, the cache's key is cleared, whatever
/// the change was and whatever it touched.
pub fn product_changed(change: ProductChange, stored: Result<(), StorageError>) -> (r: Result<
    Completed,
    AppErrors,
>)
    ensures
        match stored {
            Ok(()) => r matches Ok(done) && done.message@ == change.spec_message()
                && done.clear_key@ == spec_cleared_key(change),
            Err(cause) => r matches Err(AppErrors::Mongo(e)) && e == cause,
        },
{
    match stored {
        Ok(()) => Ok(
            Completed {
                message: change.message(),
                clear_key: String::from_str(MOST_ADVANTAGEOUS_KEY),
            },
        ),
        Err(cause) => Err(AppErrors::Mongo(cause)),
    }
}

/// The key to ask the cache for, when the product with the highest
/// discount is wanted.
pub fn most_advantageous_key() -> (key: String)
    ensures
        key@ == MOST_ADVANTAGEOUS_KEY@,
{
    String::from_str(MOST_ADVANTAGEOUS_KEY)
}

/// What to do once the cache has answered. A product from the cache is
/// the answer as it is: it is not held against the storage, so it may be
/// out of date for as long as the cache keeps it. Everything else is a
/// miss and sends the request to the storage; a cache that fails never
/// fails the request.
pub fn get_most_advantageous(reply: CacheReply) -> (r: Lookup)
    ensures
        r == spec_lookup(reply),
{
    match reply {
        CacheReply::Hit(product) => Lookup::Answer(product),
        CacheReply::Absent => Lookup::AskStorage,
        CacheReply::Undecodable => Lookup::AskStorage,
        CacheReply::Unavailable => Lookup::AskStorage,
    }
}

/// What to do once the storage has answered the request for the product
/// with the highest discount. The product is the answer, and it is laid
/// into the cache for an hour. Where there is no product at all the error
/// is that no product was found, and the cache is left alone.
pub fn refill(best: Result<Option<Product>, StorageError>) -> (r: Result<Refill, AppErrors>)
    ensures
        match best {
            Ok(Some(product)) => r matches Ok(fill) && fill.product == product && fill.key@
                == MOST_ADVANTAGEOUS_KEY@ && fill.ttl_seconds == MOST_ADVANTAGEOUS_TTL_SECONDS,
            Ok(None) => r matches Err(AppErrors::NotFound(name)) && name@ == "Product"@,
            Err(cause) => r matches Err(AppErrors::Mongo(e)) && e == cause,
        },
{
    match found_or_missing(best, "Product") {
        Ok(product) => Ok(
            Refill {
                product,
                key: String::from_str(MOST_ADVANTAGEOUS_KEY),
                ttl_seconds: MOST_ADVANTAGEOUS_TTL_SECONDS,
            },
        ),
        Err(e) => Err(e),
    }
}

/// After a change of the products, whatever it was, the next request for
/// the product with the highest discount goes to the storage: the change
/// clears the cache's key, so whatever the cache held before, it has no
/// product to hand out.
pub proof fn lemma_change_forces_storage_lookup<T>(
    change: ProductChange,
    held: Map<Seq<char>, T>,
    reply: CacheReply,
)
    requires
        spec_can_reply(held.remove(spec_cleared_key(change)), reply),
    ensures
        spec_lookup(reply) is AskStorage,
{
}

} // verus!
