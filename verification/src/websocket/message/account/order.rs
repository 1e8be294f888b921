//! Provides updates for order changes.

use vstd::prelude::*;

use crate::websocket::decode::{
    agrees, count_member, read_count, read_text, text_member, DecodeError, DecodeErrorKind,
    FromJson,
};
use crate::websocket::message::Feed;
use crate::wire::{Json, WireValue};

verus! {

/// The state of one open order.
#[derive(Clone, Debug, PartialEq, Eq)]
pub struct OrderPayload {
    pub id: usize,
    pub client_order_id: String,
    pub status: String,
    pub filled: String,
    pub filled_amount: String,
    pub vwap: String,
    pub price: String,
    pub quantity: String,
    pub pair: String,
    pub action: String,
    /// The member `type` of the record.
    pub order_type: String,
    pub algorithm_id: usize,
    pub fees: String,
}

/// Mathematical model of a `OrderPayload`.
pub struct OrderPayloadModel {
    pub id: usize,
    pub client_order_id: Seq<char>,
    pub status: Seq<char>,
    pub filled: Seq<char>,
    pub filled_amount: Seq<char>,
    pub vwap: Seq<char>,
    pub price: Seq<char>,
    pub quantity: Seq<char>,
    pub pair: Seq<char>,
    pub action: Seq<char>,
    pub order_type: Seq<char>,
    pub algorithm_id: usize,
    pub fees: Seq<char>,
}

impl DeepView for OrderPayload {
    type V = OrderPayloadModel;

    open spec fn deep_view(&self) -> OrderPayloadModel {
        OrderPayloadModel {
            id: self.id,
            client_order_id: self.client_order_id@,
            status: self.status@,
            filled: self.filled@,
            filled_amount: self.filled_amount@,
            vwap: self.vwap@,
            price: self.price@,
            quantity: self.quantity@,
            pair: self.pair@,
            action: self.action@,
            order_type: self.order_type@,
            algorithm_id: self.algorithm_id,
            fees: self.fees@,
        }
    }
}

impl FromJson for OrderPayload {
    /// The value is a record, and its members are asked for in the order
    /// in which the type declares them; the first that fails gives the
    /// error. Members that the type does not name are passed over.
    open spec fn decoded(value: Json) -> Result<OrderPayloadModel, DecodeError> {
        let id = count_member(value, "id");
        let client_order_id = text_member(value, "client_order_id");
        let status = text_member(value, "status");
        let filled = text_member(value, "filled");
        let filled_amount = text_member(value, "filled_amount");
        let vwap = text_member(value, "vwap");
        let price = text_member(value, "price");
        let quantity = text_member(value, "quantity");
        let pair = text_member(value, "pair");
        let action = text_member(value, "action");
        let order_type = text_member(value, "type");
        let algorithm_id = count_member(value, "algorithm_id");
        let fees = text_member(value, "fees");
        if !(value is Record) {
            Err(DecodeError { kind: DecodeErrorKind::ExpectedObject, field: "" })
        } else if id is Err {
            Err(id->Err_0)
        } else if client_order_id is Err {
            Err(client_order_id->Err_0)
        } else if status is Err {
            Err(status->Err_0)
        } else if filled is Err {
            Err(filled->Err_0)
        } else if filled_amount is Err {
            Err(filled_amount->Err_0)
        } else if vwap is Err {
            Err(vwap->Err_0)
        } else if price is Err {
            Err(price->Err_0)
        } else if quantity is Err {
            Err(quantity->Err_0)
        } else if pair is Err {
            Err(pair->Err_0)
        } else if action is Err {
            Err(action->Err_0)
        } else if order_type is Err {
            Err(order_type->Err_0)
        } else if algorithm_id is Err {
            Err(algorithm_id->Err_0)
        } else if fees is Err {
            Err(fees->Err_0)
        } else {
            Ok(
                OrderPayloadModel {
                    id: id->Ok_0,
                    client_order_id: client_order_id->Ok_0,
                    status: status->Ok_0,
                    filled: filled->Ok_0,
                    filled_amount: filled_amount->Ok_0,
                    vwap: vwap->Ok_0,
                    price: price->Ok_0,
                    quantity: quantity->Ok_0,
                    pair: pair->Ok_0,
                    action: action->Ok_0,
                    order_type: order_type->Ok_0,
                    algorithm_id: algorithm_id->Ok_0,
                    fees: fees->Ok_0,
                },
            )
        }
    }

    fn from_json(value: &WireValue) -> (r: Result<Self, DecodeError>)
        ensures
            agrees(r, Self::decoded(value@)),
    {
        if !value.is_object() {
            return Err(DecodeError { kind: DecodeErrorKind::ExpectedObject, field: "" });
        }
        let id = read_count(value, "id")?;
        let client_order_id = read_text(value, "client_order_id")?;
        let status = read_text(value, "status")?;
        let filled = read_text(value, "filled")?;
        let filled_amount = read_text(value, "filled_amount")?;
        let vwap = read_text(value, "vwap")?;
        let price = read_text(value, "price")?;
        let quantity = read_text(value, "quantity")?;
        let pair = read_text(value, "pair")?;
        let action = read_text(value, "action")?;
        let order_type = read_text(value, "type")?;
        let algorithm_id = read_count(value, "algorithm_id")?;
        let fees = read_text(value, "fees")?;
        Ok(
            OrderPayload {
                id,
                client_order_id,
                status,
                filled,
                filled_amount,
                vwap,
                price,
                quantity,
                pair,
                action,
                order_type,
                algorithm_id,
                fees,
            },
        )
    }
}

/// The topic of the open orders feed.
pub fn open_order_feed() -> (topic: String)
    ensures
        topic@ == Feed::Orders.topic(Seq::empty()),
{
    Feed::Orders.topic_prefix().to_owned()
}

} // verus!
