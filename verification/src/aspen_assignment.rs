//! Where etcd records the Aspen node assigned to a realtime feed.
use vstd::prelude::*;
use vstd::string::*;

verus! {

/// The etcd key under which the node assigned to realtime feed `realtime_feed_id` is kept.
pub open spec fn assignment_key(realtime_feed_id: Seq<char>) -> Seq<char> {
    "/aspen_assigned_realtime_feed_ids/"@ + realtime_feed_id
}

/// The etcd key under which the node assigned to a realtime feed is kept.
pub fn realtime_feed_assignment_key(realtime_feed_id: &str) -> (key: String)
    ensures
        key@ == assignment_key(realtime_feed_id@),
{
    let mut key = String::from_str("/aspen_assigned_realtime_feed_ids/");
    key.append(realtime_feed_id);
    key
}

/// The stored value to read the assignment from, given the values that etcd returned for the
/// key: the first one, or none when the key holds nothing.
pub fn assignment_value(values: &Vec<Vec<u8>>) -> (v: Option<&Vec<u8>>)
    ensures
        values@.len() == 0 ==> v is None,
        values@.len() > 0 ==> v == Some(&values@[0]),
{
    if values.len() == 0 {
        None
    } else {
        Some(&values[0])
    }
}

} // verus!
