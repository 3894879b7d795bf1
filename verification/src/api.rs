//! What the HTTP endpoints compute: the service-readiness flag, the shape
//! of a status-modification request, and the JSON listing of order records
//! that the listing endpoints return.

use crate::global_types::{EvaluationResult, OrderView};
use crate::text::{dec_str, json_escaped, price_text, push_json_escaped, push_price_text,
    push_u128_decimal};
use vstd::prelude::*;

verus! {

/// The API handler's state: whether the application initialized cleanly.
pub struct ApiHandlerState {
    pub app_init_status: bool,
}

impl ApiHandlerState {
    /// A fresh state, not yet initialized.
    pub fn new() -> (s: ApiHandlerState)
        ensures
            !s.app_init_status,
    {
        ApiHandlerState { app_init_status: false }
    }
}

/// Records whether application startup succeeded.
pub fn initialize_api_handler(state: &mut ApiHandlerState, app_init_status: bool)
    ensures
        final(state).app_init_status == app_init_status,
{
    state.app_init_status = app_init_status;
}

/// A status-modification request: which record, by its timestamp key, and
/// the status to advance it to.
pub struct OrderModification {
    pub datetime: String,
    pub new_status: String,
}

/// One order record as the listing endpoints serialize it.
pub open spec fn spec_serialize_order(r: OrderView) -> Seq<char> {
    "{\"date\":\""@ + json_escaped(r.date) + "\",\"name\":\""@ + json_escaped(r.name)
        + "\",\"email\":\""@ + json_escaped(r.email) + "\",\"copies_nbr\":"@ + dec_str(
        r.copies_nbr,
    ) + ",\"file_name\":\""@ + json_escaped(r.file_name) + "\",\"price\":"@ + price_text(
        r.price_grosze,
    ) + ",\"material_type\":\""@ + r.material_type.name() + "\",\"print_type\":\""@
        + r.print_type.name() + "\",\"status\":\""@ + r.status.name() + "\"}"@
}

/// The records between the brackets of the listing, comma-separated.
pub open spec fn spec_order_list_items(rs: Seq<OrderView>) -> Seq<char>
    decreases rs.len(),
{
    if rs.len() == 0 {
        Seq::empty()
    } else if rs.len() == 1 {
        spec_serialize_order(rs[0])
    } else {
        spec_order_list_items(rs.drop_last()) + ","@ + spec_serialize_order(rs.last())
    }
}

/// A whole listing: a JSON array of the records, in the given order.
pub open spec fn spec_serialize_order_list(rs: Seq<OrderView>) -> Seq<char> {
    "["@ + spec_order_list_items(rs) + "]"@
}

/// Serializes one order record for the listing endpoints.
pub fn serialize_order(rec: &EvaluationResult) -> (r: String)
    ensures
        r@ == spec_serialize_order(rec@),
{
    let mut s = String::from_str("{\"date\":\"");
    push_json_escaped(&mut s, rec.date.as_str());
    s.append("\",\"name\":\"");
    push_json_escaped(&mut s, rec.name.as_str());
    s.append("\",\"email\":\"");
    push_json_escaped(&mut s, rec.email.as_str());
    s.append("\",\"copies_nbr\":");
    push_u128_decimal(&mut s, rec.copies_nbr as u128);
    s.append(",\"file_name\":\"");
    push_json_escaped(&mut s, rec.file_name.as_str());
    s.append("\",\"price\":");
    push_price_text(&mut s, rec.price_grosze);
    s.append(",\"material_type\":\"");
    s.append(rec.material_type.as_str());
    s.append("\",\"print_type\":\"");
    s.append(rec.print_type.as_str());
    s.append("\",\"status\":\"");
    s.append(rec.status.as_str());
    s.append("\"}");
    s
}

/// Serializes a listing of order records, preserving their order.
pub fn serialize_order_list(orders: &Vec<EvaluationResult>) -> (r: String)
    ensures
        r@ == spec_serialize_order_list(orders@.map_values(|rec: EvaluationResult| rec@)),
{
    let ghost rs = orders@.map_values(|rec: EvaluationResult| rec@);
    let mut s = String::from_str("[");
    let n = orders.len();
    let mut i: usize = 0;
    proof {
        assert(rs.take(0) =~= Seq::<OrderView>::empty());
    }
    while i < n
        invariant
            i <= n,
            n == orders@.len(),
            rs == orders@.map_values(|rec: EvaluationResult| rec@),
            s@ == "["@ + spec_order_list_items(rs.take(i as int)),
        decreases n - i,
    {
        if i > 0 {
            s.append(",");
        }
        let item = serialize_order(&orders[i]);
        s.append(item.as_str());
        proof {
            let prefix = rs.take(i as int);
            assert(rs.take(i + 1).drop_last() =~= prefix);
            assert(rs.take(i + 1).last() == rs[i as int]);
            assert(rs[i as int] == orders@[i as int]@);
            if i == 0 {
                assert(s@ =~= "["@ + spec_order_list_items(rs.take(i + 1)));
            } else {
                assert(s@ =~= "["@ + spec_order_list_items(rs.take(i + 1)));
            }
        }
        i += 1;
    }
    proof {
        assert(rs.take(n as int) =~= rs);
    }
    s.append("]");
    proof {
        assert(s@ =~= "["@ + spec_order_list_items(rs) + "]"@);
    }
    s
}

} // verus!
