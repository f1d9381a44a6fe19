//! The disks of the machine, with their sizes in bytes.

use vstd::prelude::*;

verus! {

/// One disk, with its size and its free space in bytes.
#[derive(Debug, Clone)]
pub struct StorageInfo {
    pub name: String,
    pub mount_point: String,
    pub total: u64,
    pub available: u64,
    pub filesystem: String,
}

/// A `StorageInfo` as contracts see it, with texts as sequences of characters.
pub struct StorageInfoView {
    pub name: Seq<char>,
    pub mount_point: Seq<char>,
    pub total: u64,
    pub available: u64,
    pub filesystem: Seq<char>,
}

impl View for StorageInfo {
    type V = StorageInfoView;

    open spec fn view(&self) -> StorageInfoView {
        StorageInfoView {
            name: self.name@,
            mount_point: self.mount_point@,
            total: self.total,
            available: self.available,
            filesystem: self.filesystem@,
        }
    }
}

impl DeepView for StorageInfo {
    type V = StorageInfoView;

    open spec fn deep_view(&self) -> StorageInfoView {
        self@
    }
}

} // verus!
