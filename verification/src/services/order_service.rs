use vstd::prelude::*;
use vstd::string::StringExecFns;

use crate::dto::order::CreateOrderDto;
use crate::errors::{AppErrors, StorageError};
use crate::models::order::Order;
use crate::services::{changed_or_missing, found_or_missing, written};
use crate::utils::ident::{parse_id, parse_uuid, random_uuid, uuid_parse};
use crate::utils::text::{copy_texts, spec_texts};

verus! {

/// The identifiers among some texts, in the order of the texts. A text
/// that is no identifier contributes nothing.
pub open spec fn spec_identifiers(texts: Seq<Seq<char>>) -> Seq<u128>
    decreases texts.len(),
{
    if texts.len() == 0 {
        Seq::empty()
    } else {
        spec_identifiers(texts.drop_last()) + (match uuid_parse(texts.last()) {
            Some(id) => seq![id],
            None => Seq::empty(),
        })
    }
}

/// There are never more identifiers than texts, and there are as many
/// exactly if every text is an identifier.
pub proof fn lemma_identifiers_count(texts: Seq<Seq<char>>)
    ensures
        spec_identifiers(texts).len() <= texts.len(),
        spec_identifiers(texts).len() == texts.len() <==> forall|i: int|
            0 <= i < texts.len() ==> uuid_parse(#[trigger] texts[i]) is Some,
    decreases texts.len(),
{
    if texts.len() > 0 {
        let front = texts.drop_last();
        lemma_identifiers_count(front);
        assert(forall|i: int| 0 <= i < front.len() ==> front[i] == texts[i]);
        if spec_identifiers(texts).len() == texts.len() {
            assert(uuid_parse(texts.last()) is Some);
            assert forall|i: int| 0 <= i < texts.len() implies uuid_parse(
                #[trigger] texts[i],
            ) is Some by {
                if i < front.len() {
                    assert(front[i] == texts[i]);
                }
            }
        }
        if forall|i: int| 0 <= i < texts.len() ==> uuid_parse(#[trigger] texts[i]) is Some {
            assert(uuid_parse(texts[texts.len() - 1]) is Some);
            assert forall|i: int| 0 <= i < front.len() implies uuid_parse(
                #[trigger] front[i],
            ) is Some by {
                assert(front[i] == texts[i]);
            }
        }
    }
}

/// The keys under which the storage is asked for the products of an
/// order: the identifiers among the order's product texts.
pub fn product_keys(products_id: &Vec<String>) -> (keys: Vec<u128>)
    ensures
        keys@ == spec_identifiers(spec_texts(products_id@)),
{
    let mut keys: Vec<u128> = Vec::new();
    let mut at: usize = 0;
    let ghost texts = spec_texts(products_id@);
    while at < products_id.len()
        invariant
            at <= products_id.len(),
            texts == spec_texts(products_id@),
            keys@ == spec_identifiers(texts.take(at as int)),
        decreases products_id.len() - at,
    {
        proof {
            assert(texts.take(at + 1).drop_last() =~= texts.take(at as int));
            assert(texts.take(at + 1).last() == products_id[at as int]@);
        }
        match parse_uuid(products_id[at].as_str()) {
            Ok(id) => keys.push(id),
            Err(_) => {},
        }
        at += 1;
    }
    assert(texts.take(products_id.len() as int) =~= texts);
    keys
}

/// The order for a request, once the storage has said how many of the
/// order's products it holds. Unless it holds one for each text of the
/// request, nothing is ordered: the error is that some products were not
/// found. Otherwise the order gets a fresh identifier, the products and
/// the price of the request, and the caller as its customer.
pub fn create_order(
    data: &CreateOrderDto,
    customer_id: String,
    found: Result<usize, StorageError>,
) -> (r: Result<Order, AppErrors>)
    ensures
        match found {
            Err(cause) => r matches Err(AppErrors::Mongo(e)) && e == cause,
            Ok(count) => if count == data.products_id.len() {
                &&& r matches Ok(order)
                &&& spec_texts(order.products_id@) == spec_texts(data.products_id@)
                &&& order.total_price == data.total_price
                &&& order.customer_id@ == customer_id@
            } else {
                r matches Err(AppErrors::NotFound(name)) && name@ == "Some products"@
            },
        },
{
    match found {
        Ok(count) => if count == data.products_id.len() {
            Ok(
                Order {
                    _id: random_uuid(),
                    products_id: copy_texts(&data.products_id),
                    total_price: data.total_price,
                    customer_id,
                },
            )
        } else {
            Err(AppErrors::NotFound(String::from_str("Some products")))
        },
        Err(cause) => Err(AppErrors::Mongo(cause)),
    }
}

/// The answer to a new order, once the storage has answered the request
/// to store it.
pub fn order_created(stored: Result<(), StorageError>) -> (r: Result<String, AppErrors>)
    ensures
        match stored {
            Ok(()) => r matches Ok(message) && message@ == "Order created successfully"@,
            Err(cause) => r matches Err(AppErrors::Mongo(e)) && e == cause,
        },
{
    written(stored, "Order created successfully")
}

/// The key under which the storage holds the order with this identifier.
/// A text that is no identifier is refused before the storage is asked.
pub fn order_key(order_id: &str) -> (r: Result<u128, AppErrors>)
    ensures
        match uuid_parse(order_id@) {
            Some(key) => r == Ok::<u128, AppErrors>(key),
            None => r matches Err(AppErrors::InvalidUUID),
        },
{
    parse_id(order_id)
}

/// An order, from what the storage found under its key.
pub fn get_order(found: Result<Option<Order>, StorageError>) -> (r: Result<Order, AppErrors>)
    ensures
        match found {
            Ok(Some(order)) => r == Ok::<Order, AppErrors>(order),
            Ok(None) => r matches Err(AppErrors::NotFound(name)) && name@ == "Order"@,
            Err(cause) => r matches Err(AppErrors::Mongo(e)) && e == cause,
        },
{
    found_or_missing(found, "Order")
}

/// The answer to a change of an order, from the number of orders that the
/// storage matched.
pub fn update_order(matched: Result<u64, StorageError>) -> (r: Result<String, AppErrors>)
    ensures
        match matched {
            Ok(count) => if count == 0 {
                r matches Err(AppErrors::NotFound(name)) && name@ == "Order"@
            } else {
                r matches Ok(message) && message@ == "Order updated successfully"@
            },
            Err(cause) => r matches Err(AppErrors::Mongo(e)) && e == cause,
        },
{
    changed_or_missing(matched, "Order", "Order updated successfully")
}

/// The answer to the deletion of an order, from the number of orders that
/// the storage deleted.
pub fn delete_order(deleted: Result<u64, StorageError>) -> (r: Result<String, AppErrors>)
    ensures
        match deleted {
            Ok(count) => if count == 0 {
                r matches Err(AppErrors::NotFound(name)) && name@ == "Order"@
            } else {
                r matches Ok(message) && message@ == "Order deleted successfully"@
            },
            Err(cause) => r matches Err(AppErrors::Mongo(e)) && e == cause,
        },
{
    changed_or_missing(deleted, "Order", "Order deleted successfully")
}

} // verus!
