//! The names of the fields that are read from the services' documents.

use vstd::prelude::*;

verus! {

pub const ANSIBLE: &'static str = "ansible";

pub const ARTIFACTS: &'static str = "artifacts";

pub const BOOT_SETS: &'static str = "boot_sets";

pub const BRANCH: &'static str = "branch";

pub const CAPACITY_MIB: &'static str = "CapacityMiB";

pub const CFS: &'static str = "cfs";

pub const COMMIT_ID: &'static str = "commit_id";

pub const COMPLETION_TIME: &'static str = "completionTime";

pub const COMPONENTS: &'static str = "Components";

pub const COMPUTE: &'static str = "compute";

pub const CONFIG: &'static str = "config";

pub const CONFIGURATION: &'static str = "configuration";

pub const CONFIGURATION_GROUP_NAMES: &'static str = "configuration_group_names";

pub const CONFIGURATION_STATUS: &'static str = "configurationStatus";

pub const DEFINITION: &'static str = "definition";

pub const DESCRIPTION: &'static str = "Description";

pub const DESIRED_CONFIG: &'static str = "desiredConfig";

pub const DETAIL: &'static str = "detail";

pub const ENABLED: &'static str = "enabled";

pub const ERROR_COUNT: &'static str = "errorCount";

pub const GIT: &'static str = "git";

pub const GROUPS: &'static str = "groups";

pub const HOSTS: &'static str = "hosts";

pub const ID: &'static str = "ID";

pub const IDS: &'static str = "ids";

pub const ID_LOWER: &'static str = "id";

pub const IMAGE_ID: &'static str = "image_id";

pub const IMS: &'static str = "ims";

pub const JOB: &'static str = "job";

pub const KERNEL: &'static str = "kernel";

pub const LABEL: &'static str = "label";

pub const LAYERS: &'static str = "layers";

pub const LIMIT: &'static str = "limit";

pub const MEMBERS: &'static str = "members";

pub const MEMORY: &'static str = "Memory";

pub const MEMORY_FRU_INFO: &'static str = "MemoryFRUInfo";

pub const MODEL: &'static str = "Model";

pub const NAME: &'static str = "name";

pub const NID: &'static str = "NID";

pub const NODES: &'static str = "Nodes";

pub const NODE_ACCELS: &'static str = "NodeAccels";

pub const NODE_ACCEL_FRU_INFO: &'static str = "NodeAccelFRUInfo";

pub const NODE_GROUPS: &'static str = "node_groups";

pub const NODE_HSN_NICS: &'static str = "NodeHsnNics";

pub const NODE_HSN_NIC_LOCATION_INFO: &'static str = "NodeHsnNicLocationInfo";

pub const PASSTHROUGH: &'static str = "passthrough";

pub const PLAYBOOK: &'static str = "playbook";

pub const POPULATED_FRU: &'static str = "PopulatedFRU";

pub const PROCESSORS: &'static str = "Processors";

pub const PROCESSOR_FRU_INFO: &'static str = "ProcessorFRUInfo";

pub const PRODUCT: &'static str = "product";

pub const RESULT_ID: &'static str = "result_id";

pub const SESSION: &'static str = "session";

pub const START_TIME: &'static str = "startTime";

pub const STATE: &'static str = "State";

pub const STATUS: &'static str = "status";

pub const SUCCEEDED: &'static str = "succeeded";

pub const TAG: &'static str = "tag";

pub const TAGS: &'static str = "tags";

pub const TARGET: &'static str = "target";

pub const TYPE: &'static str = "Type";

pub const TYPE_LOWER: &'static str = "type";

pub const UAN: &'static str = "uan";

pub const URL: &'static str = "url";

pub const VERBOSITY: &'static str = "verbosity";

pub const VERSION: &'static str = "version";

} // verus!
