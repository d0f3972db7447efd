use vstd::prelude::*;
use crate::feeds::Feed;

verus! {

/// An owned device record: a primary board plus zero or more attached
/// sensors, paired by index between `hardware_sensor_ids` and
/// `hardware_sensor_names`.
pub struct Node {
    pub id: i32,
    pub user_id: i32,
    pub hardware_id: i32,
    pub name: String,
    pub location: String,
    pub hardware_sensor_ids: Vec<i32>,
    pub hardware_sensor_names: Vec<String>,
    pub ispublic: bool,
}

/// Body of POST /nodes/ and PUT /nodes/{id}.
pub struct NodePayload {
    pub hardware_id: i32,
    pub name: String,
    pub location: String,
    pub hardware_sensor_ids: Vec<i32>,
    pub hardware_sensor_names: Vec<String>,
    pub ispublic: bool,
}

/// A node together with its readings, as returned by the node read paths.
pub struct NodeWithFeed {
    pub node: Node,
    pub feeds: Vec<Feed>,
}

} // verus!
