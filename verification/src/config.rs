//! The configuration records that a loaded document fills, with their
//! mathematical views: every string becomes a `Seq<char>` and every vector a
//! `Seq` of element views, so that contracts can speak of plain values.

use vstd::prelude::*;

verus! {

/// The root record: one super-image description.
#[derive(Debug, PartialEq, Eq)]
pub struct PartitionConfig {
    pub super_meta: SuperMeta,
    pub nv_text: String,
    pub block_devices: Vec<BlockDevice>,
    pub groups: Vec<Group>,
    pub nv_id: String,
    pub partitions: Vec<Partition>,
}

/// The "super_meta" sub-object: where the super-image lives and how large it
/// is. The size stays the raw text of the document; no numeric reading here.
#[derive(Debug, PartialEq, Eq)]
pub struct SuperMeta {
    pub path: String,
    pub size: String,
}

/// One element of the "block_devices" array.
#[derive(Debug, PartialEq, Eq)]
pub struct BlockDevice {
    pub block_size: String,
    pub name: String,
    pub alignment: String,
    pub size: String,
}

/// One element of the "groups" array; `maximum_size` is optional in the
/// document and defaults to the empty string.
#[derive(Debug, PartialEq, Eq)]
pub struct Group {
    pub name: String,
    pub maximum_size: String,
}

/// One element of the "partitions" array; `path` and `size` are optional in
/// the document and default to the empty string.
#[derive(Debug, PartialEq, Eq)]
pub struct Partition {
    pub is_dynamic: bool,
    pub name: String,
    pub group_name: String,
    pub path: String,
    pub size: String,
}

pub struct PartitionConfigV {
    pub super_meta: SuperMetaV,
    pub nv_text: Seq<char>,
    pub block_devices: Seq<BlockDeviceV>,
    pub groups: Seq<GroupV>,
    pub nv_id: Seq<char>,
    pub partitions: Seq<PartitionV>,
}

pub struct SuperMetaV {
    pub path: Seq<char>,
    pub size: Seq<char>,
}

pub struct BlockDeviceV {
    pub block_size: Seq<char>,
    pub name: Seq<char>,
    pub alignment: Seq<char>,
    pub size: Seq<char>,
}

pub struct GroupV {
    pub name: Seq<char>,
    pub maximum_size: Seq<char>,
}

pub struct PartitionV {
    pub is_dynamic: bool,
    pub name: Seq<char>,
    pub group_name: Seq<char>,
    pub path: Seq<char>,
    pub size: Seq<char>,
}

impl View for SuperMeta {
    type V = SuperMetaV;

    open spec fn view(&self) -> SuperMetaV {
        SuperMetaV { path: self.path@, size: self.size@ }
    }
}

impl DeepView for SuperMeta {
    type V = SuperMetaV;

    open spec fn deep_view(&self) -> SuperMetaV {
        self@
    }
}

impl View for BlockDevice {
    type V = BlockDeviceV;

    open spec fn view(&self) -> BlockDeviceV {
        BlockDeviceV {
            block_size: self.block_size@,
            name: self.name@,
            alignment: self.alignment@,
            size: self.size@,
        }
    }
}

impl DeepView for BlockDevice {
    type V = BlockDeviceV;

    open spec fn deep_view(&self) -> BlockDeviceV {
        self@
    }
}

impl View for Group {
    type V = GroupV;

    open spec fn view(&self) -> GroupV {
        GroupV { name: self.name@, maximum_size: self.maximum_size@ }
    }
}

impl DeepView for Group {
    type V = GroupV;

    open spec fn deep_view(&self) -> GroupV {
        self@
    }
}

impl View for Partition {
    type V = PartitionV;

    open spec fn view(&self) -> PartitionV {
        PartitionV {
            is_dynamic: self.is_dynamic,
            name: self.name@,
            group_name: self.group_name@,
            path: self.path@,
            size: self.size@,
        }
    }
}

impl DeepView for Partition {
    type V = PartitionV;

    open spec fn deep_view(&self) -> PartitionV {
        self@
    }
}

impl View for PartitionConfig {
    type V = PartitionConfigV;

    open spec fn view(&self) -> PartitionConfigV {
        PartitionConfigV {
            super_meta: self.super_meta@,
            nv_text: self.nv_text@,
            block_devices: self.block_devices.deep_view(),
            groups: self.groups.deep_view(),
            nv_id: self.nv_id@,
            partitions: self.partitions.deep_view(),
        }
    }
}

impl DeepView for PartitionConfig {
    type V = PartitionConfigV;

    open spec fn deep_view(&self) -> PartitionConfigV {
        self@
    }
}

} // verus!
