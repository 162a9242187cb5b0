use vstd::prelude::*;
use vstd::string::*;

verus! {

/// A block device that can be attached to a microVM.
#[derive(Clone, Debug, PartialEq, Eq)]
pub struct Drive {
    pub id: String,
    /// Unique.
    pub name: String,
    /// The microVM it is attached to, if any.
    pub vm_id: Option<String>,
    pub path_on_host: String,
    pub is_root_device: bool,
    pub is_read_only: bool,
    pub size_in_gb: Option<u32>,
    /// Seconds since the epoch.
    pub created_at: i64,
    /// Seconds since the epoch.
    pub updated_at: i64,
}

pub struct DriveView {
    pub id: Seq<char>,
    pub name: Seq<char>,
    pub vm_id: Option<Seq<char>>,
    pub path_on_host: Seq<char>,
    pub is_root_device: bool,
    pub is_read_only: bool,
    pub size_in_gb: Option<u32>,
    pub created_at: i64,
    pub updated_at: i64,
}

impl View for Drive {
    type V = DriveView;

    open spec fn view(&self) -> DriveView {
        DriveView {
            id: self.id.deep_view(),
            name: self.name.deep_view(),
            vm_id: self.vm_id.deep_view(),
            path_on_host: self.path_on_host.deep_view(),
            is_root_device: self.is_root_device,
            is_read_only: self.is_read_only,
            size_in_gb: self.size_in_gb,
            created_at: self.created_at,
            updated_at: self.updated_at,
        }
    }
}

impl DeepView for Drive {
    type V = DriveView;

    open spec fn deep_view(&self) -> DriveView {
        self@
    }
}

impl Drive {
    /// A copy, field by field.
    pub fn duplicate(&self) -> (r: Drive)
        ensures
            r@ == self@,
    {
        Drive {
            id: self.id.clone(),
            name: self.name.clone(),
            vm_id: self.vm_id.clone(),
            path_on_host: self.path_on_host.clone(),
            is_root_device: self.is_root_device,
            is_read_only: self.is_read_only,
            size_in_gb: self.size_in_gb,
            created_at: self.created_at,
            updated_at: self.updated_at,
        }
    }
}

} // verus!
