//! The parts of a node, summarized from its inventory document.

use vstd::prelude::*;
use vstd::string::StringExecFns;
use crate::common::fields::{
    CAPACITY_MIB,
    DESCRIPTION,
    ID,
    MEMORY,
    MEMORY_FRU_INFO,
    MODEL,
    NODE_ACCELS,
    NODE_ACCEL_FRU_INFO,
    NODE_HSN_NICS,
    NODE_HSN_NIC_LOCATION_INFO,
    POPULATED_FRU,
    PROCESSORS,
    PROCESSOR_FRU_INFO,
    TYPE,
};
use crate::common::json::{
    string_if_present,
    text_if_present,
    JsonNumber,
    JsonValue,
    MalformedDocument,
};
use crate::common::text::{
    decimal_text,
    i64_to_string,
    signed_decimal_text,
    str_eq,
    u64_to_string,
};

verus! {

/// What follows the number in the description of a memory part.
pub const MIB_SUFFIX: &'static str = " MiB";

/// The kinds of hardware that the inventory knows.
#[derive(Clone, Copy, Debug, PartialEq, Eq, Structural)]
pub enum ArtifactType {
    Memory,
    Processor,
    NodeAccel,
    NodeHsnNic,
    Drive,
    CabinetPDU,
    CabinetPDUPowerConnector,
    CMMRectifier,
    NodeAccelRiser,
    NodeEnclosurePowerSupplie,
    NodeBMC,
    RouterBMC,
}

/// The name by which the inventory calls a kind of hardware.
pub open spec fn artifact_type_name(kind: ArtifactType) -> Seq<char> {
    match kind {
        ArtifactType::Memory => "Memory"@,
        ArtifactType::Processor => "Processor"@,
        ArtifactType::NodeAccel => "NodeAccel"@,
        ArtifactType::NodeHsnNic => "NodeHsnNic"@,
        ArtifactType::Drive => "Drive"@,
        ArtifactType::CabinetPDU => "CabinetPDU"@,
        ArtifactType::CabinetPDUPowerConnector => "CabinetPDUPowerConnector"@,
        ArtifactType::CMMRectifier => "CMMRectifier"@,
        ArtifactType::NodeAccelRiser => "NodeAccelRiser"@,
        ArtifactType::NodeEnclosurePowerSupplie => "NodeEnclosurePowerSupplie"@,
        ArtifactType::NodeBMC => "NodeBMC"@,
        ArtifactType::RouterBMC => "RouterBMC"@,
    }
}

/// The kind of hardware that a name stands for, if it is the name of one.
pub open spec fn artifact_type_named(name: Seq<char>) -> Option<ArtifactType> {
    if name == "Memory"@ {
        Some(ArtifactType::Memory)
    } else if name == "Processor"@ {
        Some(ArtifactType::Processor)
    } else if name == "NodeAccel"@ {
        Some(ArtifactType::NodeAccel)
    } else if name == "NodeHsnNic"@ {
        Some(ArtifactType::NodeHsnNic)
    } else if name == "Drive"@ {
        Some(ArtifactType::Drive)
    } else if name == "CabinetPDU"@ {
        Some(ArtifactType::CabinetPDU)
    } else if name == "CabinetPDUPowerConnector"@ {
        Some(ArtifactType::CabinetPDUPowerConnector)
    } else if name == "CMMRectifier"@ {
        Some(ArtifactType::CMMRectifier)
    } else if name == "NodeAccelRiser"@ {
        Some(ArtifactType::NodeAccelRiser)
    } else if name == "NodeEnclosurePowerSupplie"@ {
        Some(ArtifactType::NodeEnclosurePowerSupplie)
    } else if name == "NodeBMC"@ {
        Some(ArtifactType::NodeBMC)
    } else if name == "RouterBMC"@ {
        Some(ArtifactType::RouterBMC)
    } else {
        None
    }
}

impl ArtifactType {
    /// Returns the name by which the inventory calls the kind.
    pub fn name(&self) -> (name: &'static str)
        ensures
            name@ == artifact_type_name(*self),
    {
        match self {
            ArtifactType::Memory => "Memory",
            ArtifactType::Processor => "Processor",
            ArtifactType::NodeAccel => "NodeAccel",
            ArtifactType::NodeHsnNic => "NodeHsnNic",
            ArtifactType::Drive => "Drive",
            ArtifactType::CabinetPDU => "CabinetPDU",
            ArtifactType::CabinetPDUPowerConnector => "CabinetPDUPowerConnector",
            ArtifactType::CMMRectifier => "CMMRectifier",
            ArtifactType::NodeAccelRiser => "NodeAccelRiser",
            ArtifactType::NodeEnclosurePowerSupplie => "NodeEnclosurePowerSupplie",
            ArtifactType::NodeBMC => "NodeBMC",
            ArtifactType::RouterBMC => "RouterBMC",
        }
    }

    /// Returns the kind that `name` stands for. Names are told apart by
    /// case.
    pub fn from_name(name: &str) -> (kind: Option<ArtifactType>)
        ensures
            kind == artifact_type_named(name@),
    {
        if str_eq(name, "Memory") {
            Some(ArtifactType::Memory)
        } else if str_eq(name, "Processor") {
            Some(ArtifactType::Processor)
        } else if str_eq(name, "NodeAccel") {
            Some(ArtifactType::NodeAccel)
        } else if str_eq(name, "NodeHsnNic") {
            Some(ArtifactType::NodeHsnNic)
        } else if str_eq(name, "Drive") {
            Some(ArtifactType::Drive)
        } else if str_eq(name, "CabinetPDU") {
            Some(ArtifactType::CabinetPDU)
        } else if str_eq(name, "CabinetPDUPowerConnector") {
            Some(ArtifactType::CabinetPDUPowerConnector)
        } else if str_eq(name, "CMMRectifier") {
            Some(ArtifactType::CMMRectifier)
        } else if str_eq(name, "NodeAccelRiser") {
            Some(ArtifactType::NodeAccelRiser)
        } else if str_eq(name, "NodeEnclosurePowerSupplie") {
            Some(ArtifactType::NodeEnclosurePowerSupplie)
        } else if str_eq(name, "NodeBMC") {
            Some(ArtifactType::NodeBMC)
        } else if str_eq(name, "RouterBMC") {
            Some(ArtifactType::RouterBMC)
        } else {
            None
        }
    }
}

/// Every kind is found again by its name.
pub proof fn lemma_artifact_type_round_trip(kind: ArtifactType)
    ensures
        artifact_type_named(artifact_type_name(kind)) == Some(kind),
{
    reveal_strlit("Memory");
    reveal_strlit("Processor");
    reveal_strlit("NodeAccel");
    reveal_strlit("NodeHsnNic");
    reveal_strlit("Drive");
    reveal_strlit("CabinetPDU");
    reveal_strlit("CabinetPDUPowerConnector");
    reveal_strlit("CMMRectifier");
    reveal_strlit("NodeAccelRiser");
    reveal_strlit("NodeEnclosurePowerSupplie");
    reveal_strlit("NodeBMC");
    reveal_strlit("RouterBMC");
    assert("Memory"@.len() == 6);
    assert("Processor"@.len() == 9);
    assert("NodeAccel"@.len() == 9);
    assert("NodeHsnNic"@.len() == 10);
    assert("Drive"@.len() == 5);
    assert("CabinetPDU"@.len() == 10);
    assert("CabinetPDUPowerConnector"@.len() == 24);
    assert("CMMRectifier"@.len() == 12);
    assert("NodeAccelRiser"@.len() == 14);
    assert("NodeEnclosurePowerSupplie"@.len() == 25);
    assert("NodeBMC"@.len() == 7);
    assert("RouterBMC"@.len() == 9);
    assert("Processor"@[0] != "NodeAccel"@[0]);
    assert("Processor"@[0] != "RouterBMC"@[0]);
    assert("NodeAccel"@[0] != "RouterBMC"@[0]);
    assert("NodeHsnNic"@[0] != "CabinetPDU"@[0]);
}

/// A part of a node.
#[derive(Debug, Clone)]
pub struct ArtifactSummary {
    pub xname: String,
    pub artifact_type: ArtifactType,
    pub info: Option<String>,
}

/// The parts of a node that the summaries cover.
#[derive(Debug, Clone)]
pub struct NodeSummary {
    pub xname: String,
    pub node_type: String,
    pub processors: Vec<ArtifactSummary>,
    pub memory: Vec<ArtifactSummary>,
    pub node_accels: Vec<ArtifactSummary>,
    pub node_hsn_nics: Vec<ArtifactSummary>,
}

/// A part as mathematical value.
pub struct ArtifactView {
    pub xname: Seq<char>,
    pub artifact_type: ArtifactType,
    pub info: Option<Seq<char>>,
}

impl View for ArtifactSummary {
    type V = ArtifactView;

    open spec fn view(&self) -> ArtifactView {
        ArtifactView {
            xname: self.xname@,
            artifact_type: self.artifact_type,
            info: match self.info {
                Some(text) => Some(text@),
                None => None,
            },
        }
    }
}

/// The parts in `parts` as mathematical values.
pub open spec fn artifact_views(parts: Seq<ArtifactSummary>) -> Seq<ArtifactView> {
    Seq::new(parts.len(), |i: int| parts[i]@)
}

/// A node summary as mathematical value.
pub struct NodeView {
    pub xname: Seq<char>,
    pub node_type: Seq<char>,
    pub processors: Seq<ArtifactView>,
    pub memory: Seq<ArtifactView>,
    pub node_accels: Seq<ArtifactView>,
    pub node_hsn_nics: Seq<ArtifactView>,
}

impl View for NodeSummary {
    type V = NodeView;

    open spec fn view(&self) -> NodeView {
        NodeView {
            xname: self.xname@,
            node_type: self.node_type@,
            processors: artifact_views(self.processors@),
            memory: artifact_views(self.memory@),
            node_accels: artifact_views(self.node_accels@),
            node_hsn_nics: artifact_views(self.node_hsn_nics@),
        }
    }
}

/// The four kinds of parts that a node summary lists.
#[derive(Clone, Copy, Debug, PartialEq, Eq, Structural)]
pub enum PartKind {
    Processor,
    Memory,
    NodeAccel,
    NodeHsnNic,
}

/// The decimal text of a number.
pub open spec fn number_text(number: JsonNumber) -> Seq<char> {
    match number {
        JsonNumber::Unsigned(n) => decimal_text(n as nat),
        JsonNumber::Negative(n) => signed_decimal_text(n as int),
        JsonNumber::Other(text) => text@,
    }
}

/// What a part's document says to describe the part, by its kind: the
/// model of a processor or accelerator, the capacity of a memory part, the
/// description of a network interface. Nothing where the document does not
/// say it; an error where it says it in another type.
pub open spec fn part_info(part: JsonValue, kind: PartKind) -> Result<
    Option<Seq<char>>,
    MalformedDocument,
> {
    match kind {
        PartKind::Processor => text_if_present(
            part.field3(POPULATED_FRU@, PROCESSOR_FRU_INFO@, MODEL@),
        ),
        PartKind::NodeAccel => text_if_present(
            part.field3(POPULATED_FRU@, NODE_ACCEL_FRU_INFO@, MODEL@),
        ),
        PartKind::NodeHsnNic => text_if_present(part.field2(NODE_HSN_NIC_LOCATION_INFO@, DESCRIPTION@)),
        PartKind::Memory => match part.field3(POPULATED_FRU@, MEMORY_FRU_INFO@, CAPACITY_MIB@) {
            Some(JsonValue::Number(number)) => Ok(Some(number_text(number) + MIB_SUFFIX@)),
            Some(_) => Err(MalformedDocument),
            None => Ok(None),
        },
    }
}

/// The summary of a part's document: its identifier, its type, which must
/// be the name of a kind of hardware, and its description.
pub open spec fn artifact_of(part: JsonValue, kind: PartKind) -> Result<
    ArtifactView,
    MalformedDocument,
> {
    match (part.field_text(ID@), part.field_text(TYPE@), part_info(part, kind)) {
        (Some(xname), Some(kind_name), Ok(info)) => match artifact_type_named(kind_name) {
            Some(artifact_type) => Ok(ArtifactView { xname, artifact_type, info }),
            None => Err(MalformedDocument),
        },
        _ => Err(MalformedDocument),
    }
}

/// The summaries of the parts listed under `section`; none where there is
/// no such list.
pub open spec fn artifacts_of(node: JsonValue, section: Seq<char>, kind: PartKind) -> Result<
    Seq<ArtifactView>,
    MalformedDocument,
> {
    match node.field(section) {
        Some(list) => match list.elements() {
            Some(parts) => if forall|i: int|
                0 <= i < parts.len() ==> artifact_of(#[trigger] parts[i], kind) is Ok {
                Ok(Seq::new(parts.len(), |i: int| artifact_of(parts[i], kind)->Ok_0))
            } else {
                Err(MalformedDocument)
            },
            None => Ok(Seq::empty()),
        },
        None => Ok(Seq::empty()),
    }
}

/// The summary of a node's document.
pub open spec fn node_summary_of(node: JsonValue) -> Result<NodeView, MalformedDocument> {
    match (
        artifacts_of(node, PROCESSORS@, PartKind::Processor),
        artifacts_of(node, MEMORY@, PartKind::Memory),
        artifacts_of(node, NODE_ACCELS@, PartKind::NodeAccel),
        artifacts_of(node, NODE_HSN_NICS@, PartKind::NodeHsnNic),
        node.field_text(ID@),
        node.field_text(TYPE@),
    ) {
        (
            Ok(processors),
            Ok(memory),
            Ok(node_accels),
            Ok(node_hsn_nics),
            Some(xname),
            Some(node_type),
        ) => Ok(NodeView { xname, node_type, processors, memory, node_accels, node_hsn_nics }),
        _ => Err(MalformedDocument),
    }
}

fn info_of(part: &JsonValue, kind: PartKind) -> (info: Result<Option<String>, MalformedDocument>)
    ensures
        info is Ok == part_info(*part, kind) is Ok,
        info matches Ok(found) ==> part_info(*part, kind) == Ok::<
            Option<Seq<char>>,
            MalformedDocument,
        >(
            match found {
                Some(text) => Some(text@),
                None => None,
            },
        ),
{
    match kind {
        PartKind::Processor => string_if_present(part.get3(POPULATED_FRU, PROCESSOR_FRU_INFO, MODEL)),
        PartKind::NodeAccel => string_if_present(part.get3(POPULATED_FRU, NODE_ACCEL_FRU_INFO, MODEL)),
        PartKind::NodeHsnNic => string_if_present(part.get2(NODE_HSN_NIC_LOCATION_INFO, DESCRIPTION)),
        PartKind::Memory => match part.get3(POPULATED_FRU, MEMORY_FRU_INFO, CAPACITY_MIB) {
            Some(JsonValue::Number(number)) => {
                let digits = match number {
                    JsonNumber::Unsigned(n) => u64_to_string(*n),
                    JsonNumber::Negative(n) => i64_to_string(*n),
                    JsonNumber::Other(text) => text.clone(),
                };
                Ok(Some(digits.concat(MIB_SUFFIX)))
            },
            Some(_) => Err(MalformedDocument),
            None => Ok(None),
        },
    }
}

impl ArtifactSummary {
    /// Summarizes the document of a part of the given kind.
    pub fn from_value(part: &JsonValue, kind: PartKind) -> (summary: Result<
        ArtifactSummary,
        MalformedDocument,
    >)
        ensures
            summary is Ok == artifact_of(*part, kind) is Ok,
            summary matches Ok(found) ==> Ok::<ArtifactView, MalformedDocument>(found@)
                == artifact_of(*part, kind),
    {
        let xname = match part.get_str(ID) {
            Some(text) => String::from_str(text),
            None => {
                return Err(MalformedDocument);
            },
        };
        let artifact_type = match part.get_str(TYPE) {
            Some(text) => match ArtifactType::from_name(text) {
                Some(kind) => kind,
                None => {
                    return Err(MalformedDocument);
                },
            },
            None => {
                return Err(MalformedDocument);
            },
        };
        match info_of(part, kind) {
            Ok(info) => Ok(ArtifactSummary { xname, artifact_type, info }),
            Err(e) => Err(e),
        }
    }

    /// Summarizes the document of a processor.
    pub fn from_processor_value(processor_value: &JsonValue) -> (summary: Result<
        ArtifactSummary,
        MalformedDocument,
    >)
        ensures
            summary is Ok == artifact_of(*processor_value, PartKind::Processor) is Ok,
            summary matches Ok(found) ==> Ok::<ArtifactView, MalformedDocument>(found@)
                == artifact_of(*processor_value, PartKind::Processor),
    {
        Self::from_value(processor_value, PartKind::Processor)
    }

    /// Summarizes the document of a memory part.
    pub fn from_memory_value(memory_value: &JsonValue) -> (summary: Result<
        ArtifactSummary,
        MalformedDocument,
    >)
        ensures
            summary is Ok == artifact_of(*memory_value, PartKind::Memory) is Ok,
            summary matches Ok(found) ==> Ok::<ArtifactView, MalformedDocument>(found@)
                == artifact_of(*memory_value, PartKind::Memory),
    {
        Self::from_value(memory_value, PartKind::Memory)
    }

    /// Summarizes the document of a network interface.
    pub fn from_nodehsnnics_value(nodehsnnic_value: &JsonValue) -> (summary: Result<
        ArtifactSummary,
        MalformedDocument,
    >)
        ensures
            summary is Ok == artifact_of(*nodehsnnic_value, PartKind::NodeHsnNic) is Ok,
            summary matches Ok(found) ==> Ok::<ArtifactView, MalformedDocument>(found@)
                == artifact_of(*nodehsnnic_value, PartKind::NodeHsnNic),
    {
        Self::from_value(nodehsnnic_value, PartKind::NodeHsnNic)
    }

    /// Summarizes the document of an accelerator.
    pub fn from_nodeaccel_value(nodeaccel_value: &JsonValue) -> (summary: Result<
        ArtifactSummary,
        MalformedDocument,
    >)
        ensures
            summary is Ok == artifact_of(*nodeaccel_value, PartKind::NodeAccel) is Ok,
            summary matches Ok(found) ==> Ok::<ArtifactView, MalformedDocument>(found@)
                == artifact_of(*nodeaccel_value, PartKind::NodeAccel),
    {
        Self::from_value(nodeaccel_value, PartKind::NodeAccel)
    }
}

#[verifier::loop_isolation(false)]
fn summaries_of(node: &JsonValue, section: &str, kind: PartKind) -> (list: Result<
    Vec<ArtifactSummary>,
    MalformedDocument,
>)
    ensures
        list is Ok == artifacts_of(*node, section@, kind) is Ok,
        list matches Ok(found) ==> Ok::<Seq<ArtifactView>, MalformedDocument>(
            artifact_views(found@),
        ) == artifacts_of(*node, section@, kind),
{
    let mut found: Vec<ArtifactSummary> = Vec::new();
    let parts = match node.get(section) {
        Some(list) => match list.as_array() {
            Some(parts) => parts,
            None => {
                assert(artifact_views(found@) =~= Seq::<ArtifactView>::empty());
                return Ok(found);
            },
        },
        None => {
            assert(artifact_views(found@) =~= Seq::<ArtifactView>::empty());
            return Ok(found);
        },
    };
    let mut i: usize = 0;
    while i < parts.len()
        invariant
            i <= parts.len(),
            forall|j: int| 0 <= j < i ==> artifact_of(#[trigger] parts@[j], kind) is Ok,
            artifact_views(found@) =~= Seq::new(
                i as nat,
                |j: int| artifact_of(parts@[j], kind)->Ok_0,
            ),
        decreases parts.len() - i,
    {
        match ArtifactSummary::from_value(&parts[i], kind) {
            Ok(summary) => {
                let ghost before = artifact_views(found@);
                let ghost view = summary@;
                found.push(summary);
                assert(artifact_views(found@) =~= before.push(view));
            },
            Err(e) => {
                return Err(e);
            },
        }
        i = i + 1;
    }
    Ok(found)
}

impl NodeSummary {
    /// Summarizes the document of a node: its identifier and type, and its
    /// processors, memory, accelerators and network interfaces.
    pub fn from_csm_value(hw_artifact_value: &JsonValue) -> (summary: Result<
        NodeSummary,
        MalformedDocument,
    >)
        ensures
            summary is Ok == node_summary_of(*hw_artifact_value) is Ok,
            summary matches Ok(found) ==> Ok::<NodeView, MalformedDocument>(found@)
                == node_summary_of(*hw_artifact_value),
    {
        let processors = match summaries_of(hw_artifact_value, PROCESSORS, PartKind::Processor) {
            Ok(list) => list,
            Err(e) => {
                return Err(e);
            },
        };
        let memory = match summaries_of(hw_artifact_value, MEMORY, PartKind::Memory) {
            Ok(list) => list,
            Err(e) => {
                return Err(e);
            },
        };
        let node_accels = match summaries_of(hw_artifact_value, NODE_ACCELS, PartKind::NodeAccel) {
            Ok(list) => list,
            Err(e) => {
                return Err(e);
            },
        };
        let node_hsn_nics = match summaries_of(
            hw_artifact_value,
            NODE_HSN_NICS,
            PartKind::NodeHsnNic,
        ) {
            Ok(list) => list,
            Err(e) => {
                return Err(e);
            },
        };
        let xname = match hw_artifact_value.get_str(ID) {
            Some(text) => String::from_str(text),
            None => {
                return Err(MalformedDocument);
            },
        };
        let node_type = match hw_artifact_value.get_str(TYPE) {
            Some(text) => String::from_str(text),
            None => {
                return Err(MalformedDocument);
            },
        };
        Ok(NodeSummary { xname, node_type, processors, memory, node_accels, node_hsn_nics })
    }
}

} // verus!
