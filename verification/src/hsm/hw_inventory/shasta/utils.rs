//! What the inventory tells about the parts of a node.
//!
//! An inventory document lists nodes under `Nodes`; the functions here read
//! the first node. Each answers nothing if the node has no list of the parts
//! asked for, and fails with `MalformedDocument` if the document has no
//! first node or a part lacks what is read of it.

use vstd::prelude::*;
use vstd::string::StringExecFns;
use crate::common::fields::{
    CAPACITY_MIB,
    DESCRIPTION,
    MEMORY,
    MEMORY_FRU_INFO,
    MODEL,
    NODES,
    NODE_ACCELS,
    NODE_ACCEL_FRU_INFO,
    NODE_HSN_NICS,
    NODE_HSN_NIC_LOCATION_INFO,
    POPULATED_FRU,
    PROCESSORS,
    PROCESSOR_FRU_INFO,
};
use crate::common::json::{JsonValue, MalformedDocument};
use crate::common::text::texts;

verus! {

/// The first node of an inventory.
pub open spec fn first_node(inventory: JsonValue) -> Option<JsonValue> {
    match inventory.field(NODES@) {
        Some(nodes) => match nodes.elements() {
            Some(items) if items.len() > 0 => Some(items[0]),
            _ => None,
        },
        None => None,
    }
}

/// The parts of one kind of the first node: nothing if the node has no list
/// under `section`.
pub open spec fn parts_of(inventory: JsonValue, section: Seq<char>) -> Result<
    Option<Seq<JsonValue>>,
    MalformedDocument,
> {
    match first_node(inventory) {
        Some(node) => match node.field(section) {
            Some(parts) => Ok(parts.elements()),
            None => Ok(None),
        },
        None => Err(MalformedDocument),
    }
}

/// The text that a part states under `first`, `second` and, if given,
/// `third`.
pub open spec fn part_text(
    part: JsonValue,
    first: Seq<char>,
    second: Seq<char>,
    third: Option<Seq<char>>,
) -> Option<Seq<char>> {
    match third {
        Some(key) => match part.field3(first, second, key) {
            Some(value) => value.text(),
            None => None,
        },
        None => match part.field2(first, second) {
            Some(value) => value.text(),
            None => None,
        },
    }
}

/// The texts that the parts state, where every part states one.
pub open spec fn part_texts(
    parts: Seq<JsonValue>,
    first: Seq<char>,
    second: Seq<char>,
    third: Option<Seq<char>>,
) -> Result<Seq<Seq<char>>, MalformedDocument> {
    if forall|i: int|
        0 <= i < parts.len() ==> part_text(#[trigger] parts[i], first, second, third) is Some {
        Ok(Seq::new(parts.len(), |i: int| part_text(parts[i], first, second, third)->0))
    } else {
        Err(MalformedDocument)
    }
}

/// The texts that the parts of one kind of the first node state.
pub open spec fn part_texts_of(
    inventory: JsonValue,
    section: Seq<char>,
    first: Seq<char>,
    second: Seq<char>,
    third: Option<Seq<char>>,
) -> Result<Option<Seq<Seq<char>>>, MalformedDocument> {
    match parts_of(inventory, section) {
        Ok(Some(parts)) => match part_texts(parts, first, second, third) {
            Ok(list) => Ok(Some(list)),
            Err(e) => Err(e),
        },
        Ok(None) => Ok(None),
        Err(e) => Err(e),
    }
}

/// The capacity that a memory part states, zero if it states none; nothing
/// if what it states is no unsigned number.
pub open spec fn part_capacity(part: JsonValue) -> Option<u64> {
    match part.field3(POPULATED_FRU@, MEMORY_FRU_INFO@, CAPACITY_MIB@) {
        Some(value) => value.unsigned(),
        None => Some(0u64),
    }
}

/// The capacities of the memory parts of the first node.
pub open spec fn memory_capacities_of(inventory: JsonValue) -> Result<
    Option<Seq<u64>>,
    MalformedDocument,
> {
    match parts_of(inventory, MEMORY@) {
        Ok(Some(parts)) => if forall|i: int|
            0 <= i < parts.len() ==> part_capacity(#[trigger] parts[i]) is Some {
            Ok(Some(Seq::new(parts.len(), |i: int| part_capacity(parts[i])->0)))
        } else {
            Err(MalformedDocument)
        },
        Ok(None) => Ok(None),
        Err(e) => Err(e),
    }
}

fn parts<'a>(inventory: &'a JsonValue, section: &str) -> (found: Result<
    Option<&'a Vec<JsonValue>>,
    MalformedDocument,
>)
    ensures
        found is Ok == parts_of(*inventory, section@) is Ok,
        found matches Ok(list) ==> parts_of(*inventory, section@) == Ok::<
            Option<Seq<JsonValue>>,
            MalformedDocument,
        >(
            match list {
                Some(items) => Some(items@),
                None => None,
            },
        ),
{
    let node = match inventory.get(NODES) {
        Some(nodes) => match nodes.as_array() {
            Some(items) => {
                if items.len() > 0 {
                    &items[0]
                } else {
                    return Err(MalformedDocument);
                }
            },
            None => {
                return Err(MalformedDocument);
            },
        },
        None => {
            return Err(MalformedDocument);
        },
    };
    match node.get(section) {
        Some(list) => Ok(list.as_array()),
        None => Ok(None),
    }
}

#[verifier::loop_isolation(false)]
fn texts_of_parts(
    inventory: &JsonValue,
    section: &str,
    first: &str,
    second: &str,
    third: Option<&str>,
) -> (list: Result<Option<Vec<String>>, MalformedDocument>)
    ensures
        list is Ok == part_texts_of(
            *inventory,
            section@,
            first@,
            second@,
            match third {
                Some(key) => Some(key@),
                None => None,
            },
        ) is Ok,
        list matches Ok(found) ==> part_texts_of(
            *inventory,
            section@,
            first@,
            second@,
            match third {
                Some(key) => Some(key@),
                None => None,
            },
        ) == Ok::<Option<Seq<Seq<char>>>, MalformedDocument>(
            match found {
                Some(strings) => Some(texts(strings@)),
                None => None,
            },
        ),
{
    let ghost third_text = match third {
        Some(key) => Some(key@),
        None => None,
    };
    let items = match parts(inventory, section) {
        Ok(Some(items)) => items,
        Ok(None) => {
            return Ok(None);
        },
        Err(e) => {
            return Err(e);
        },
    };
    let mut strings: Vec<String> = Vec::new();
    let mut i: usize = 0;
    while i < items.len()
        invariant
            i <= items.len(),
            third_text == (match third {
                Some(key) => Some(key@),
                None => None,
            }),
            forall|j: int|
                0 <= j < i ==> part_text(#[trigger] items@[j], first@, second@, third_text)
                    is Some,
            texts(strings@) =~= Seq::new(
                i as nat,
                |j: int| part_text(items@[j], first@, second@, third_text)->0,
            ),
        decreases items.len() - i,
    {
        let value = match third {
            Some(key) => items[i].get3(first, second, key),
            None => items[i].get2(first, second),
        };
        let text = match value {
            Some(inner) => match inner.as_str() {
                Some(text) => text,
                None => {
                    return Err(MalformedDocument);
                },
            },
            None => {
                return Err(MalformedDocument);
            },
        };
        let ghost before = texts(strings@);
        strings.push(String::from_str(text));
        assert(texts(strings@) =~= before.push(text@));
        i = i + 1;
    }
    Ok(Some(strings))
}

/// Returns the models of the processors of the first node.
pub fn get_list_processor_model_from_hw_inventory_value(hw_inventory: &JsonValue) -> (models:
    Result<Option<Vec<String>>, MalformedDocument>)
    ensures
        models is Ok == part_texts_of(
            *hw_inventory,
            PROCESSORS@,
            POPULATED_FRU@,
            PROCESSOR_FRU_INFO@,
            Some(MODEL@),
        ) is Ok,
        models matches Ok(found) ==> part_texts_of(
            *hw_inventory,
            PROCESSORS@,
            POPULATED_FRU@,
            PROCESSOR_FRU_INFO@,
            Some(MODEL@),
        ) == Ok::<Option<Seq<Seq<char>>>, MalformedDocument>(
            match found {
                Some(strings) => Some(texts(strings@)),
                None => None,
            },
        ),
{
    texts_of_parts(hw_inventory, PROCESSORS, POPULATED_FRU, PROCESSOR_FRU_INFO, Some(MODEL))
}

/// Returns the models of the accelerators of the first node.
pub fn get_list_accelerator_model_from_hw_inventory_value(hw_inventory: &JsonValue) -> (models:
    Result<Option<Vec<String>>, MalformedDocument>)
    ensures
        models is Ok == part_texts_of(
            *hw_inventory,
            NODE_ACCELS@,
            POPULATED_FRU@,
            NODE_ACCEL_FRU_INFO@,
            Some(MODEL@),
        ) is Ok,
        models matches Ok(found) ==> part_texts_of(
            *hw_inventory,
            NODE_ACCELS@,
            POPULATED_FRU@,
            NODE_ACCEL_FRU_INFO@,
            Some(MODEL@),
        ) == Ok::<Option<Seq<Seq<char>>>, MalformedDocument>(
            match found {
                Some(strings) => Some(texts(strings@)),
                None => None,
            },
        ),
{
    texts_of_parts(hw_inventory, NODE_ACCELS, POPULATED_FRU, NODE_ACCEL_FRU_INFO, Some(MODEL))
}

/// Returns the descriptions of the network interfaces of the first node.
pub fn get_list_hsn_nics_model_from_hw_inventory_value(hw_inventory: &JsonValue) -> (models:
    Result<Option<Vec<String>>, MalformedDocument>)
    ensures
        models is Ok == part_texts_of(
            *hw_inventory,
            NODE_HSN_NICS@,
            NODE_HSN_NIC_LOCATION_INFO@,
            DESCRIPTION@,
            None,
        ) is Ok,
        models matches Ok(found) ==> part_texts_of(
            *hw_inventory,
            NODE_HSN_NICS@,
            NODE_HSN_NIC_LOCATION_INFO@,
            DESCRIPTION@,
            None,
        ) == Ok::<Option<Seq<Seq<char>>>, MalformedDocument>(
            match found {
                Some(strings) => Some(texts(strings@)),
                None => None,
            },
        ),
{
    texts_of_parts(hw_inventory, NODE_HSN_NICS, NODE_HSN_NIC_LOCATION_INFO, DESCRIPTION, None)
}

/// Returns the capacities, in MiB, of the memory parts of the first node; a
/// part that states no capacity counts as zero.
#[verifier::loop_isolation(false)]
pub fn get_list_memory_capacity_from_hw_inventory_value(hw_inventory: &JsonValue) -> (capacities:
    Result<Option<Vec<u64>>, MalformedDocument>)
    ensures
        capacities is Ok == memory_capacities_of(*hw_inventory) is Ok,
        capacities matches Ok(found) ==> memory_capacities_of(*hw_inventory) == Ok::<
            Option<Seq<u64>>,
            MalformedDocument,
        >(
            match found {
                Some(list) => Some(list@),
                None => None,
            },
        ),
{
    let items = match parts(hw_inventory, MEMORY) {
        Ok(Some(items)) => items,
        Ok(None) => {
            return Ok(None);
        },
        Err(e) => {
            return Err(e);
        },
    };
    let mut list: Vec<u64> = Vec::new();
    let mut i: usize = 0;
    while i < items.len()
        invariant
            i <= items.len(),
            forall|j: int| 0 <= j < i ==> part_capacity(#[trigger] items@[j]) is Some,
            list@ =~= Seq::new(i as nat, |j: int| part_capacity(items@[j])->0),
        decreases items.len() - i,
    {
        let capacity = match items[i].get3(POPULATED_FRU, MEMORY_FRU_INFO, CAPACITY_MIB) {
            Some(value) => match value.as_u64() {
                Some(n) => n,
                None => {
                    return Err(MalformedDocument);
                },
            },
            None => 0,
        };
        list.push(capacity);
        i = i + 1;
    }
    Ok(Some(list))
}

} // verus!
