//! The configuration schema: which members each record requires, which are
//! optional with an empty-string default, and how a parsed JSON document is
//! mapped, member by member, into the records of `config`.

use vstd::prelude::*;

use crate::config::BlockDevice;
use crate::config::BlockDeviceV;
use crate::config::Group;
use crate::config::GroupV;
use crate::config::Partition;
use crate::config::PartitionConfig;
use crate::config::PartitionConfigV;
use crate::config::PartitionV;
use crate::config::SuperMeta;
use crate::config::SuperMetaV;
use crate::json::JsonValue;
use crate::json::lookup;
use crate::json::obj_lookup;
use crate::syntax::json_doc;
use crate::syntax::parse_json;

verus! {

/// Why a load failed; both variants are reasons of the one parse kind of
/// failure (as opposed to an I/O failure, which only a caller that reads a
/// file can meet).
#[derive(Debug, PartialEq, Eq)]
pub enum ParseError {
    /// The input was not one well-formed JSON document; carries the syntax
    /// diagnostic, with its location.
    Syntax(String),
    /// The document is well-formed JSON but does not match the configuration
    /// schema: a required member is missing or a member has the wrong type.
    Schema(String),
}

/// The members of the JSON object `v`, or `None` where `v` is not an object.
pub open spec fn as_object(v: JsonValue) -> Option<Seq<(String, JsonValue)>> {
    match v {
        JsonValue::Object(f) => Some(f@),
        _ => None,
    }
}

/// A required string member: its characters, or `None` where it is missing
/// or not a string.
pub open spec fn req_string(fields: Seq<(String, JsonValue)>, key: Seq<char>) -> Option<Seq<char>> {
    match obj_lookup(fields, key) {
        Some(JsonValue::String(s)) => Some(s@),
        _ => None,
    }
}

/// An optional string member: its characters, the empty string where it is
/// missing, and `None` where it is present but not a string.
pub open spec fn opt_string(fields: Seq<(String, JsonValue)>, key: Seq<char>) -> Option<Seq<char>> {
    match obj_lookup(fields, key) {
        None => Some(Seq::empty()),
        Some(JsonValue::String(s)) => Some(s@),
        Some(_) => None,
    }
}

/// A required boolean member: its value, or `None` where it is missing or
/// not a boolean.
pub open spec fn req_bool(fields: Seq<(String, JsonValue)>, key: Seq<char>) -> Option<bool> {
    match obj_lookup(fields, key) {
        Some(JsonValue::Bool(b)) => Some(b),
        _ => None,
    }
}

/// The SuperMeta that the JSON value `v` describes: an object with required
/// string members "path" and "size".
pub open spec fn super_meta_val(v: JsonValue) -> Option<SuperMetaV> {
    match as_object(v) {
        None => None,
        Some(f) => match (req_string(f, "path"@), req_string(f, "size"@)) {
            (Some(path), Some(size)) => Some(SuperMetaV { path, size }),
            _ => None,
        },
    }
}

/// The BlockDevice that `v` describes: an object with required string
/// members "block_size", "name", "alignment" and "size".
pub open spec fn block_device_val(v: JsonValue) -> Option<BlockDeviceV> {
    match as_object(v) {
        None => None,
        Some(f) => match (
            req_string(f, "block_size"@),
            req_string(f, "name"@),
            req_string(f, "alignment"@),
            req_string(f, "size"@),
        ) {
            (Some(block_size), Some(name), Some(alignment), Some(size)) => Some(
                BlockDeviceV { block_size, name, alignment, size },
            ),
            _ => None,
        },
    }
}

/// The Group that `v` describes: an object with a required string member
/// "name" and an optional string member "maximum_size".
pub open spec fn group_val(v: JsonValue) -> Option<GroupV> {
    match as_object(v) {
        None => None,
        Some(f) => match (req_string(f, "name"@), opt_string(f, "maximum_size"@)) {
            (Some(name), Some(maximum_size)) => Some(GroupV { name, maximum_size }),
            _ => None,
        },
    }
}

/// The Partition that `v` describes: an object with required members
/// "is_dynamic" (boolean), "name" and "group_name" (strings), and optional
/// string members "path" and "size".
pub open spec fn partition_val(v: JsonValue) -> Option<PartitionV> {
    match as_object(v) {
        None => None,
        Some(f) => match (
            req_bool(f, "is_dynamic"@),
            req_string(f, "name"@),
            req_string(f, "group_name"@),
            opt_string(f, "path"@),
            opt_string(f, "size"@),
        ) {
            (Some(is_dynamic), Some(name), Some(group_name), Some(path), Some(size)) => Some(
                PartitionV { is_dynamic, name, group_name, path, size },
            ),
            _ => None,
        },
    }
}

/// The block devices that the array `items` describes, in input order, or
/// `None` where some element is not a well-formed block device.
pub open spec fn block_devices_val(items: Seq<JsonValue>) -> Option<Seq<BlockDeviceV>> {
    if forall|i: int| 0 <= i < items.len() ==> #[trigger] block_device_val(items[i]) is Some {
        Some(Seq::new(items.len(), |i: int| block_device_val(items[i])->Some_0))
    } else {
        None
    }
}

/// The groups that the array `items` describes, in input order.
pub open spec fn groups_val(items: Seq<JsonValue>) -> Option<Seq<GroupV>> {
    if forall|i: int| 0 <= i < items.len() ==> #[trigger] group_val(items[i]) is Some {
        Some(Seq::new(items.len(), |i: int| group_val(items[i])->Some_0))
    } else {
        None
    }
}

/// The partitions that the array `items` describes, in input order.
pub open spec fn partitions_val(items: Seq<JsonValue>) -> Option<Seq<PartitionV>> {
    if forall|i: int| 0 <= i < items.len() ==> #[trigger] partition_val(items[i]) is Some {
        Some(Seq::new(items.len(), |i: int| partition_val(items[i])->Some_0))
    } else {
        None
    }
}

/// The whole configuration that the document `doc` describes: an object with
/// required members "super_meta" (object), "nv_text" and "nv_id" (strings),
/// and "block_devices", "groups" and "partitions" (arrays), each array
/// element mapped in order.
pub open spec fn config_val(doc: JsonValue) -> Option<PartitionConfigV> {
    match as_object(doc) {
        None => None,
        Some(f) => {
            let sm = match obj_lookup(f, "super_meta"@) {
                Some(v) => super_meta_val(v),
                None => None,
            };
            let bds = match obj_lookup(f, "block_devices"@) {
                Some(JsonValue::Array(items)) => block_devices_val(items@),
                _ => None,
            };
            let gs = match obj_lookup(f, "groups"@) {
                Some(JsonValue::Array(items)) => groups_val(items@),
                _ => None,
            };
            let ps = match obj_lookup(f, "partitions"@) {
                Some(JsonValue::Array(items)) => partitions_val(items@),
                _ => None,
            };
            match (sm, req_string(f, "nv_text"@), bds, gs, req_string(f, "nv_id"@), ps) {
                (
                    Some(super_meta),
                    Some(nv_text),
                    Some(block_devices),
                    Some(groups),
                    Some(nv_id),
                    Some(partitions),
                ) => Some(
                    PartitionConfigV {
                        super_meta,
                        nv_text,
                        block_devices,
                        groups,
                        nv_id,
                        partitions,
                    },
                ),
                _ => None,
            }
        },
    }
}

/// Reads a required string member out of an object's members.
fn get_req_string(fields: &Vec<(String, JsonValue)>, key: &str) -> (r: Option<String>)
    ensures
        r is Some <==> req_string(fields@, key@) is Some,
        r matches Some(s) ==> Some(s@) == req_string(fields@, key@),
{
    match lookup(fields, key) {
        Some(v) => match v {
            JsonValue::String(s) => Some(s.clone()),
            _ => None,
        },
        None => None,
    }
}

/// Reads an optional string member: the empty string where it is absent.
fn get_opt_string(fields: &Vec<(String, JsonValue)>, key: &str) -> (r: Option<String>)
    ensures
        r is Some <==> opt_string(fields@, key@) is Some,
        r matches Some(s) ==> Some(s@) == opt_string(fields@, key@),
{
    match lookup(fields, key) {
        Some(v) => match v {
            JsonValue::String(s) => Some(s.clone()),
            _ => None,
        },
        None => Some(String::new()),
    }
}

/// Reads a required boolean member out of an object's members.
fn get_req_bool(fields: &Vec<(String, JsonValue)>, key: &str) -> (r: Option<bool>)
    ensures
        r == req_bool(fields@, key@),
{
    match lookup(fields, key) {
        Some(v) => match v {
            JsonValue::Bool(b) => Some(*b),
            _ => None,
        },
        None => None,
    }
}

/// Maps one JSON value to a SuperMeta, or says which member is wrong.
pub fn parse_super_meta(v: &JsonValue) -> (r: Result<SuperMeta, String>)
    ensures
        r is Ok <==> super_meta_val(*v) is Some,
        r matches Ok(sm) ==> Some(sm@) == super_meta_val(*v),
{
    let fields = match v {
        JsonValue::Object(f) => f,
        _ => {
            return Err("super_meta: not a JSON object".to_owned());
        },
    };
    let path = match get_req_string(fields, "path") {
        Some(s) => s,
        None => {
            return Err("super_meta: missing or non-string member 'path'".to_owned());
        },
    };
    let size = match get_req_string(fields, "size") {
        Some(s) => s,
        None => {
            return Err("super_meta: missing or non-string member 'size'".to_owned());
        },
    };
    Ok(SuperMeta { path, size })
}

/// Maps one JSON value to a BlockDevice, or says which member is wrong.
pub fn parse_block_device(v: &JsonValue) -> (r: Result<BlockDevice, String>)
    ensures
        r is Ok <==> block_device_val(*v) is Some,
        r matches Ok(bd) ==> Some(bd@) == block_device_val(*v),
{
    let fields = match v {
        JsonValue::Object(f) => f,
        _ => {
            return Err("block device: not a JSON object".to_owned());
        },
    };
    let block_size = match get_req_string(fields, "block_size") {
        Some(s) => s,
        None => {
            return Err("block device: missing or non-string member 'block_size'".to_owned());
        },
    };
    let name = match get_req_string(fields, "name") {
        Some(s) => s,
        None => {
            return Err("block device: missing or non-string member 'name'".to_owned());
        },
    };
    let alignment = match get_req_string(fields, "alignment") {
        Some(s) => s,
        None => {
            return Err("block device: missing or non-string member 'alignment'".to_owned());
        },
    };
    let size = match get_req_string(fields, "size") {
        Some(s) => s,
        None => {
            return Err("block device: missing or non-string member 'size'".to_owned());
        },
    };
    Ok(BlockDevice { block_size, name, alignment, size })
}

/// Maps one JSON value to a Group, or says which member is wrong.
pub fn parse_group(v: &JsonValue) -> (r: Result<Group, String>)
    ensures
        r is Ok <==> group_val(*v) is Some,
        r matches Ok(g) ==> Some(g@) == group_val(*v),
{
    let fields = match v {
        JsonValue::Object(f) => f,
        _ => {
            return Err("group: not a JSON object".to_owned());
        },
    };
    let name = match get_req_string(fields, "name") {
        Some(s) => s,
        None => {
            return Err("group: missing or non-string member 'name'".to_owned());
        },
    };
    let maximum_size = match get_opt_string(fields, "maximum_size") {
        Some(s) => s,
        None => {
            return Err("group: non-string member 'maximum_size'".to_owned());
        },
    };
    Ok(Group { name, maximum_size })
}

/// Maps one JSON value to a Partition, or says which member is wrong.
pub fn parse_partition(v: &JsonValue) -> (r: Result<Partition, String>)
    ensures
        r is Ok <==> partition_val(*v) is Some,
        r matches Ok(p) ==> Some(p@) == partition_val(*v),
{
    let fields = match v {
        JsonValue::Object(f) => f,
        _ => {
            return Err("partition: not a JSON object".to_owned());
        },
    };
    let is_dynamic = match get_req_bool(fields, "is_dynamic") {
        Some(b) => b,
        None => {
            return Err("partition: missing or non-boolean member 'is_dynamic'".to_owned());
        },
    };
    let name = match get_req_string(fields, "name") {
        Some(s) => s,
        None => {
            return Err("partition: missing or non-string member 'name'".to_owned());
        },
    };
    let group_name = match get_req_string(fields, "group_name") {
        Some(s) => s,
        None => {
            return Err("partition: missing or non-string member 'group_name'".to_owned());
        },
    };
    let path = match get_opt_string(fields, "path") {
        Some(s) => s,
        None => {
            return Err("partition: non-string member 'path'".to_owned());
        },
    };
    let size = match get_opt_string(fields, "size") {
        Some(s) => s,
        None => {
            return Err("partition: non-string member 'size'".to_owned());
        },
    };
    Ok(Partition { is_dynamic, name, group_name, path, size })
}

/// Maps every element of a JSON array to a BlockDevice, keeping input order.
pub fn parse_block_devices(items: &Vec<JsonValue>) -> (r: Result<Vec<BlockDevice>, String>)
    ensures
        r is Ok <==> block_devices_val(items@) is Some,
        r matches Ok(out) ==> Some(out.deep_view()) == block_devices_val(items@),
{
    let mut out: Vec<BlockDevice> = Vec::new();
    let n = items.len();
    let mut i: usize = 0;
    while i < n
        invariant
            n == items@.len(),
            0 <= i <= n,
            out@.len() == i,
            forall|j: int| 0 <= j < i ==> #[trigger] block_device_val(items@[j]) is Some,
            forall|j: int| 0 <= j < i ==> out@[j]@ == block_device_val(#[trigger] items@[j])->Some_0,
        decreases n - i,
    {
        match parse_block_device(&items[i]) {
            Ok(bd) => out.push(bd),
            Err(e) => {
                return Err(e);
            },
        }
        i = i + 1;
    }
    proof {
        assert(out.deep_view() =~= block_devices_val(items@)->Some_0);
    }
    Ok(out)
}

/// Maps every element of a JSON array to a Group, keeping input order.
pub fn parse_groups(items: &Vec<JsonValue>) -> (r: Result<Vec<Group>, String>)
    ensures
        r is Ok <==> groups_val(items@) is Some,
        r matches Ok(out) ==> Some(out.deep_view()) == groups_val(items@),
{
    let mut out: Vec<Group> = Vec::new();
    let n = items.len();
    let mut i: usize = 0;
    while i < n
        invariant
            n == items@.len(),
            0 <= i <= n,
            out@.len() == i,
            forall|j: int| 0 <= j < i ==> #[trigger] group_val(items@[j]) is Some,
            forall|j: int| 0 <= j < i ==> out@[j]@ == group_val(#[trigger] items@[j])->Some_0,
        decreases n - i,
    {
        match parse_group(&items[i]) {
            Ok(g) => out.push(g),
            Err(e) => {
                return Err(e);
            },
        }
        i = i + 1;
    }
    proof {
        assert(out.deep_view() =~= groups_val(items@)->Some_0);
    }
    Ok(out)
}

/// Maps every element of a JSON array to a Partition, keeping input order.
pub fn parse_partitions(items: &Vec<JsonValue>) -> (r: Result<Vec<Partition>, String>)
    ensures
        r is Ok <==> partitions_val(items@) is Some,
        r matches Ok(out) ==> Some(out.deep_view()) == partitions_val(items@),
{
    let mut out: Vec<Partition> = Vec::new();
    let n = items.len();
    let mut i: usize = 0;
    while i < n
        invariant
            n == items@.len(),
            0 <= i <= n,
            out@.len() == i,
            forall|j: int| 0 <= j < i ==> #[trigger] partition_val(items@[j]) is Some,
            forall|j: int| 0 <= j < i ==> out@[j]@ == partition_val(#[trigger] items@[j])->Some_0,
        decreases n - i,
    {
        match parse_partition(&items[i]) {
            Ok(p) => out.push(p),
            Err(e) => {
                return Err(e);
            },
        }
        i = i + 1;
    }
    proof {
        assert(out.deep_view() =~= partitions_val(items@)->Some_0);
    }
    Ok(out)
}

/// Maps a whole parsed document to the configuration it describes, or says
/// what does not match the schema.
pub fn parse_config(doc: &JsonValue) -> (r: Result<PartitionConfig, String>)
    ensures
        r is Ok <==> config_val(*doc) is Some,
        r matches Ok(c) ==> Some(c@) == config_val(*doc),
{
    let fields = match doc {
        JsonValue::Object(f) => f,
        _ => {
            return Err("configuration: not a JSON object".to_owned());
        },
    };
    let super_meta = match lookup(fields, "super_meta") {
        Some(v) => match parse_super_meta(v) {
            Ok(sm) => sm,
            Err(e) => {
                return Err(e);
            },
        },
        None => {
            return Err("configuration: missing member 'super_meta'".to_owned());
        },
    };
    let nv_text = match get_req_string(fields, "nv_text") {
        Some(s) => s,
        None => {
            return Err("configuration: missing or non-string member 'nv_text'".to_owned());
        },
    };
    let block_devices = match lookup(fields, "block_devices") {
        Some(v) => match v {
            JsonValue::Array(items) => match parse_block_devices(items) {
                Ok(out) => out,
                Err(e) => {
                    return Err(e);
                },
            },
            _ => {
                return Err("configuration: member 'block_devices' is not an array".to_owned());
            },
        },
        None => {
            return Err("configuration: missing member 'block_devices'".to_owned());
        },
    };
    let groups = match lookup(fields, "groups") {
        Some(v) => match v {
            JsonValue::Array(items) => match parse_groups(items) {
                Ok(out) => out,
                Err(e) => {
                    return Err(e);
                },
            },
            _ => {
                return Err("configuration: member 'groups' is not an array".to_owned());
            },
        },
        None => {
            return Err("configuration: missing member 'groups'".to_owned());
        },
    };
    let nv_id = match get_req_string(fields, "nv_id") {
        Some(s) => s,
        None => {
            return Err("configuration: missing or non-string member 'nv_id'".to_owned());
        },
    };
    let partitions = match lookup(fields, "partitions") {
        Some(v) => match v {
            JsonValue::Array(items) => match parse_partitions(items) {
                Ok(out) => out,
                Err(e) => {
                    return Err(e);
                },
            },
            _ => {
                return Err("configuration: member 'partitions' is not an array".to_owned());
            },
        },
        None => {
            return Err("configuration: missing member 'partitions'".to_owned());
        },
    };
    Ok(PartitionConfig { super_meta, nv_text, block_devices, groups, nv_id, partitions })
}

/// `True` exactly of the byte sequences on which a load succeeds: one
/// well-formed JSON document that matches the configuration schema.
pub open spec fn parse_ok(bytes: Seq<u8>) -> bool {
    json_doc(bytes) matches Some(d) && config_val(d) is Some
}

/// The configuration that well-formed matching bytes describe.
pub open spec fn parse_result(bytes: Seq<u8>) -> PartitionConfigV
    recommends
        parse_ok(bytes),
{
    config_val(json_doc(bytes)->Some_0)->Some_0
}

/// Everything `parse_partition_config` promises of its result: success
/// exactly on matching documents, the configuration pinned member for
/// member, and the failure kind pinned to the reason.
pub open spec fn parse_post(bytes: Seq<u8>, r: Result<PartitionConfig, ParseError>) -> bool {
    &&& r is Ok <==> parse_ok(bytes)
    &&& (r matches Ok(c) ==> c@ == parse_result(bytes))
    &&& (r matches Err(e) ==> (e is Syntax <==> json_doc(bytes) is None))
    &&& (r matches Err(e) ==> (e is Schema <==> json_doc(bytes) is Some))
}

/// Parses the bytes of one JSON document into the configuration it
/// describes; the byte-for-byte content and the order of every array are
/// fixed by `config_val`.
pub fn parse_partition_config(bytes: &[u8]) -> (r: Result<PartitionConfig, ParseError>)
    ensures
        parse_post(bytes@, r),
{
    let doc = match parse_json(bytes) {
        Ok(d) => d,
        Err(e) => {
            return Err(ParseError::Syntax(e));
        },
    };
    match parse_config(&doc) {
        Ok(c) => Ok(c),
        Err(e) => Err(ParseError::Schema(e)),
    }
}

/// A group whose document object has no "maximum_size" member loads with an
/// empty `maximum_size`.
pub proof fn lemma_group_default_maximum_size(v: JsonValue)
    requires
        as_object(v) matches Some(f) && obj_lookup(f, "maximum_size"@) is None,
        group_val(v) is Some,
    ensures
        group_val(v)->Some_0.maximum_size == Seq::<char>::empty(),
{
}

/// A partition whose document object has no "path" member loads with an
/// empty `path`, and one without a "size" member with an empty `size`.
pub proof fn lemma_partition_default_path_size(v: JsonValue)
    requires
        partition_val(v) is Some,
    ensures
        as_object(v) matches Some(f) && obj_lookup(f, "path"@) is None ==> partition_val(
            v,
        )->Some_0.path == Seq::<char>::empty(),
        as_object(v) matches Some(f) && obj_lookup(f, "size"@) is None ==> partition_val(
            v,
        )->Some_0.size == Seq::<char>::empty(),
{
}

/// On success, each array of the document maps element for element, in input
/// order, onto the corresponding sequence of records.
pub proof fn lemma_load_preserves_order(doc: JsonValue)
    requires
        config_val(doc) is Some,
    ensures
        ({
            let f = as_object(doc)->Some_0;
            let c = config_val(doc)->Some_0;
            &&& (obj_lookup(f, "block_devices"@) matches Some(JsonValue::Array(items))
                && c.block_devices.len() == items@.len() && (forall|i: int|
                0 <= i < items@.len() ==> c.block_devices[i] == block_device_val(
                    #[trigger] items@[i],
                )->Some_0))
            &&& (obj_lookup(f, "groups"@) matches Some(JsonValue::Array(items)) && c.groups.len()
                == items@.len() && (forall|i: int|
                0 <= i < items@.len() ==> c.groups[i] == group_val(#[trigger] items@[i])->Some_0))
            &&& (obj_lookup(f, "partitions"@) matches Some(JsonValue::Array(items))
                && c.partitions.len() == items@.len() && (forall|i: int|
                0 <= i < items@.len() ==> c.partitions[i] == partition_val(
                    #[trigger] items@[i],
                )->Some_0))
        }),
{
}

/// Loading the same bytes twice yields results that agree: success on both
/// or failure on both, member-for-member equal configurations on success,
/// and the same kind of failure otherwise.
pub proof fn lemma_parse_deterministic(
    bytes: Seq<u8>,
    r1: Result<PartitionConfig, ParseError>,
    r2: Result<PartitionConfig, ParseError>,
)
    requires
        parse_post(bytes, r1),
        parse_post(bytes, r2),
    ensures
        r1 is Ok <==> r2 is Ok,
        r1 matches Ok(c1) ==> r2 matches Ok(c2) ==> c1@ == c2@,
        r1 matches Err(e1) ==> r2 matches Err(e2) ==> (e1 is Syntax <==> e2 is Syntax),
{
    match (r1, r2) {
        (Result::Ok(c1), Result::Ok(c2)) => {
            assert(c1@ == parse_result(bytes));
            assert(c2@ == parse_result(bytes));
        },
        (Result::Err(e1), Result::Err(e2)) => {
            assert(e1 is Syntax <==> json_doc(bytes) is None);
            assert(e2 is Syntax <==> json_doc(bytes) is None);
        },
        _ => {},
    }
}

} // verus!
