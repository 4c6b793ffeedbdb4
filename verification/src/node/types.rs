//! What is shown of a node.

use vstd::prelude::*;

verus! {

/// The state of a node, gathered from the services, as texts for display.
#[derive(Debug, Clone)]
pub struct NodeDetails {
    pub xname: String,
    pub nid: String,
    pub power_status: String,
    pub desired_configuration: String,
    pub configuration_status: String,
    pub enabled: String,
    pub error_count: String,
    pub boot_image_id: String,
}

/// The details of a node as mathematical value.
pub struct NodeDetailsView {
    pub xname: Seq<char>,
    pub nid: Seq<char>,
    pub power_status: Seq<char>,
    pub desired_configuration: Seq<char>,
    pub configuration_status: Seq<char>,
    pub enabled: Seq<char>,
    pub error_count: Seq<char>,
    pub boot_image_id: Seq<char>,
}

impl View for NodeDetails {
    type V = NodeDetailsView;

    open spec fn view(&self) -> NodeDetailsView {
        NodeDetailsView {
            xname: self.xname@,
            nid: self.nid@,
            power_status: self.power_status@,
            desired_configuration: self.desired_configuration@,
            configuration_status: self.configuration_status@,
            enabled: self.enabled@,
            error_count: self.error_count@,
            boot_image_id: self.boot_image_id@,
        }
    }
}

} // verus!
