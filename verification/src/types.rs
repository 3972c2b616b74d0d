//! Plain snapshots that cross the boundary of the actor.

use vstd::prelude::*;

verus! {

/// One debuggable device, as the toolkit described it at enumeration time.
#[derive(Debug, PartialEq, Eq)]
pub struct DeviceInfo {
    pub id: String,
    pub name: String,
    pub device_type: String,
}

/// Mathematical value of a [`DeviceInfo`].
pub struct DeviceInfoView {
    pub id: Seq<char>,
    pub name: Seq<char>,
    pub device_type: Seq<char>,
}

impl View for DeviceInfo {
    type V = DeviceInfoView;

    open spec fn view(&self) -> DeviceInfoView {
        DeviceInfoView { id: self.id@, name: self.name@, device_type: self.device_type@ }
    }
}

impl DeepView for DeviceInfo {
    type V = DeviceInfoView;

    open spec fn deep_view(&self) -> DeviceInfoView {
        self@
    }
}

/// One running process of a device.
#[derive(Debug, PartialEq, Eq)]
pub struct ProcessInfo {
    pub pid: u32,
    pub name: String,
}

/// Mathematical value of a [`ProcessInfo`].
pub struct ProcessInfoView {
    pub pid: u32,
    pub name: Seq<char>,
}

impl View for ProcessInfo {
    type V = ProcessInfoView;

    open spec fn view(&self) -> ProcessInfoView {
        ProcessInfoView { pid: self.pid, name: self.name@ }
    }
}

impl DeepView for ProcessInfo {
    type V = ProcessInfoView;

    open spec fn deep_view(&self) -> ProcessInfoView {
        self@
    }
}

impl Clone for ProcessInfo {
    fn clone(&self) -> (copy: Self)
        ensures
            copy@ == self@,
    {
        ProcessInfo { pid: self.pid, name: self.name.clone() }
    }
}

/// Copies a process list entry by entry.
pub fn clone_processes(list: &Vec<ProcessInfo>) -> (copy: Vec<ProcessInfo>)
    ensures
        copy.deep_view() == list.deep_view(),
{
    let mut copy: Vec<ProcessInfo> = Vec::new();
    let mut i: usize = 0;
    while i < list.len()
        invariant
            i <= list.len(),
            copy.len() == i,
            forall|j: int| 0 <= j < i ==> copy@[j]@ == list@[j]@,
        decreases list.len() - i,
    {
        copy.push(list[i].clone());
        i += 1;
    }
    assert(copy.deep_view() =~= list.deep_view());
    copy
}

/// A result whose both sides are text, as a mathematical value.
pub open spec fn text_result_view(outcome: Result<String, String>) -> Result<Seq<char>, Seq<char>> {
    match outcome {
        Ok(text) => Ok(text@),
        Err(detail) => Err(detail@),
    }
}

/// What `attach` hands back: the new session and the script loaded into it.
#[derive(Debug, Clone, Copy, PartialEq, Eq, Structural)]
pub struct SessionInfo {
    pub session_id: u64,
    pub script_id: u64,
}

/// What `load_default_script` hands back.
#[derive(Debug, Clone, Copy, PartialEq, Eq, Structural)]
pub struct ScriptInfo {
    pub script_id: u64,
}

} // verus!
