//! The choice, made in the configuration window, of the folders to save and
//! of the device to save them on.

use crate::config::{texts, Config};
use crate::io::{Device, DeviceView, Folder, FolderView};
use vstd::prelude::*;

verus! {

/// The most folders one configuration may hold.
pub const MAX_FOLDERS: usize = 5;

/// The total size of `folders`, in bytes.
pub open spec fn total_of(folders: Seq<FolderView>) -> nat
    decreases folders.len(),
{
    if folders.len() == 0 {
        0
    } else {
        total_of(folders.drop_last()) + folders.last().size as nat
    }
}

/// What a `BackupSelection` holds.
pub struct SelectionView {
    pub folders: Seq<FolderView>,
    pub device: Option<DeviceView>,
}

/// `folders` hold a folder of the same path and size as `f`.
pub open spec fn holds_folder(folders: Seq<FolderView>, f: FolderView) -> bool {
    exists|i: int| 0 <= i < folders.len() && folders[i] == f
}

/// A selection can be saved once it holds a folder and a device with more
/// space available than the folders take.
pub open spec fn complete(s: SelectionView) -> bool {
    &&& s.folders.len() > 0
    &&& s.device.is_some()
    &&& s.device->0.size > total_of(s.folders)
}

/// The folders chosen so far, in the order chosen, and the device, if one is.
pub struct BackupSelection {
    folders: Vec<Folder>,
    device: Option<Device>,
}

impl View for BackupSelection {
    type V = SelectionView;

    closed spec fn view(&self) -> SelectionView {
        SelectionView {
            folders: self.folders@.map_values(|f: Folder| f@),
            device: match self.device {
                Some(d) => Some(d@),
                None => None,
            },
        }
    }
}

fn copy_folder(f: &Folder) -> (r: Folder)
    ensures
        r@ == f@,
{
    Folder::new(f.get_path(), f.get_size())
}

fn copy_device(d: &Device) -> (r: Device)
    ensures
        r@ == d@,
{
    Device::new(d.get_name(), d.get_size())
}

/// The first of `devices` named `name`.
pub fn find_device(devices: &Vec<Device>, name: &String) -> (r: Option<Device>)
    ensures
        match r {
            Some(d) => exists|i: int|
                0 <= i < devices@.len() && (#[trigger] devices@[i])@ == d@ && d@.name == name@
                    && forall|j: int| 0 <= j < i ==> (#[trigger] devices@[j])@.name != name@,
            None => forall|i: int| 0 <= i < devices@.len() ==> (#[trigger] devices@[i])@.name != name@,
        },
{
    let mut i: usize = 0;
    while i < devices.len()
        invariant
            i <= devices@.len(),
            forall|j: int| 0 <= j < i ==> (#[trigger] devices@[j])@.name != name@,
        decreases devices@.len() - i,
    {
        let candidate = devices[i].get_name();
        if candidate.eq(name) {
            return Some(copy_device(&devices[i]));
        }
        i = i + 1;
    }
    None
}

impl BackupSelection {
    /// Nothing chosen.
    pub fn new() -> (r: BackupSelection)
        ensures
            r@.folders.len() == 0,
            r@.device.is_none(),
    {
        BackupSelection { folders: Vec::new(), device: None }
    }

    /// The selection a saved configuration stands for: its folders whose size
    /// `sizes` gives (the others are gone), in order, and the first attached
    /// device of its name, if one is attached.
    pub fn restore(config: &Config, sizes: &Vec<Option<u64>>, attached: &Vec<Device>) -> (r:
        BackupSelection)
        requires
            sizes@.len() == config@.path_names.len(),
        ensures
            r@.folders == Seq::new(config@.path_names.len(), |i: int| (config@.path_names[i], sizes@[i]))
                .filter(|p: (Seq<char>, Option<u64>)| p.1.is_some())
                .map_values(|p: (Seq<char>, Option<u64>)| FolderView { path: p.0, size: p.1->0 }),
            match r@.device {
                Some(d) => exists|i: int|
                    0 <= i < attached@.len() && (#[trigger] attached@[i])@ == d && d.name
                        == config@.device_name && forall|j: int|
                        0 <= j < i ==> (#[trigger] attached@[j])@.name != config@.device_name,
                None => forall|i: int|
                    0 <= i < attached@.len() ==> (#[trigger] attached@[i])@.name
                        != config@.device_name,
            },
    {
        let paths = config.get_path_names();
        let ghost pairs = Seq::new(
            config@.path_names.len(),
            |i: int| (config@.path_names[i], sizes@[i]),
        );
        let ghost keep = |p: (Seq<char>, Option<u64>)| p.1.is_some();
        let ghost to_folder = |p: (Seq<char>, Option<u64>)| FolderView { path: p.0, size: p.1->0 };
        let mut folders: Vec<Folder> = Vec::new();
        let mut i: usize = 0;
        while i < paths.len()
            invariant
                i <= paths@.len(),
                texts(paths@) == config@.path_names,
                sizes@.len() == paths@.len(),
                pairs == Seq::new(
                    config@.path_names.len(),
                    |i: int| (config@.path_names[i], sizes@[i]),
                ),
                keep == (|p: (Seq<char>, Option<u64>)| p.1.is_some()),
                to_folder == (|p: (Seq<char>, Option<u64>)| FolderView { path: p.0, size: p.1->0 }),
                folders@.map_values(|f: Folder| f@) == pairs.take(i as int).filter(keep).map_values(
                    to_folder,
                ),
            decreases paths@.len() - i,
        {
            proof {
                let next = pairs.take(i + 1);
                assert(next.drop_last() =~= pairs.take(i as int));
                assert(texts(paths@)[i as int] == paths@[i as int]@);
                reveal(Seq::filter);
            }
            match sizes[i] {
                Some(size) => {
                    let ghost before = folders@.map_values(|f: Folder| f@);
                    folders.push(Folder::new(paths[i].clone(), size));
                    assert(folders@.map_values(|f: Folder| f@) =~= before.push(
                        to_folder(pairs[i as int]),
                    ));
                },
                None => {},
            }
            i = i + 1;
        }
        assert(pairs.take(paths@.len() as int) =~= pairs);
        let device = find_device(attached, &config.get_device_name());
        BackupSelection { folders, device }
    }

    /// Adds `folder` where fewer than five folders are chosen and the same
    /// folder is not among them; says whether it did.
    pub fn add_folder(&mut self, folder: Folder) -> (r: bool)
        ensures
            r == (old(self)@.folders.len() < MAX_FOLDERS && !holds_folder(
                old(self)@.folders,
                folder@,
            )),
            final(self)@.device == old(self)@.device,
            final(self)@.folders == if r {
                old(self)@.folders.push(folder@)
            } else {
                old(self)@.folders
            },
    {
        let ghost before = self@.folders;
        if self.folders.len() >= MAX_FOLDERS {
            return false;
        }
        let mut i: usize = 0;
        while i < self.folders.len()
            invariant
                i <= self.folders@.len(),
                before == self.folders@.map_values(|f: Folder| f@),
                forall|j: int| 0 <= j < i ==> before[j] != folder@,
            decreases self.folders@.len() - i,
        {
            let same_path = self.folders[i].get_path().eq(&folder.get_path());
            if same_path && self.folders[i].get_size() == folder.get_size() {
                assert(before[i as int] == folder@);
                return false;
            }
            i = i + 1;
        }
        self.folders.push(folder);
        assert(self@.folders =~= before.push(folder@));
        true
    }

    /// Takes the folder at `index` out of the selection.
    pub fn remove_folder(&mut self, index: usize)
        requires
            index < old(self)@.folders.len(),
        ensures
            final(self)@.folders == old(self)@.folders.remove(index as int),
            final(self)@.device == old(self)@.device,
    {
        let ghost before = self@.folders;
        self.folders.remove(index);
        assert(self@.folders =~= before.remove(index as int));
    }

    /// The number of folders chosen.
    pub fn folder_count(&self) -> (r: usize)
        ensures
            r == self@.folders.len(),
    {
        self.folders.len()
    }

    /// The folder chosen at `index`.
    pub fn folder_at(&self, index: usize) -> (r: &Folder)
        requires
            index < self@.folders.len(),
        ensures
            r@ == self@.folders[index as int],
    {
        &self.folders[index]
    }

    /// Chooses `device`, or none.
    pub fn set_device(&mut self, device: Option<Device>)
        ensures
            final(self)@.folders == old(self)@.folders,
            final(self)@.device == match device {
                Some(d) => Some(d@),
                None => None,
            },
    {
        self.device = device;
    }

    /// The total size of the folders chosen, in bytes.
    pub fn total_size(&self) -> (r: u128)
        ensures
            r == total_of(self@.folders),
    {
        let ghost folders = self@.folders;
        let mut total: u128 = 0;
        let mut i: usize = 0;
        while i < self.folders.len()
            invariant
                i <= self.folders@.len(),
                folders == self.folders@.map_values(|f: Folder| f@),
                total == total_of(folders.take(i as int)),
                total <= i * 0xffff_ffff_ffff_ffff,
            decreases self.folders@.len() - i,
        {
            assert(folders.take(i + 1).drop_last() =~= folders.take(i as int));
            let size = self.folders[i].get_size();
            assert(total + size <= (i + 1) * 0xffff_ffff_ffff_ffff <= 0x1_0000_0000_0000_0000
                * 0xffff_ffff_ffff_ffff) by (nonlinear_arith)
                requires
                    total <= i * 0xffff_ffff_ffff_ffff,
                    size <= 0xffff_ffff_ffff_ffff,
                    i < 0x1_0000_0000_0000_0000,
            ;
            total = total + size as u128;
            i = i + 1;
        }
        assert(folders.take(folders.len() as int) =~= folders);
        total
    }

    /// Whether the selection can be saved.
    pub fn is_complete(&self) -> (r: bool)
        ensures
            r == complete(self@),
    {
        let total = self.total_size();
        match &self.device {
            Some(d) => self.folders.len() > 0 && d.get_size() as u128 > total,
            None => false,
        }
    }

    /// The configuration to save: the device's name and the folders' paths in
    /// order, once the selection is complete.
    pub fn to_config(&self) -> (r: Option<Config>)
        ensures
            r.is_some() == complete(self@),
            r.is_some() ==> r->0@.device_name == self@.device->0.name && r->0@.path_names
                == self@.folders.map_values(|f: FolderView| f.path),
    {
        if !self.is_complete() {
            return None;
        }
        let ghost folders = self@.folders;
        let mut paths: Vec<String> = Vec::new();
        let mut i: usize = 0;
        while i < self.folders.len()
            invariant
                i <= self.folders@.len(),
                folders == self.folders@.map_values(|f: Folder| f@),
                texts(paths@) =~= folders.take(i as int).map_values(|f: FolderView| f.path),
            decreases self.folders@.len() - i,
        {
            let ghost before = paths@;
            let path = self.folders[i].get_path();
            paths.push(path);
            assert(texts(paths@) =~= texts(before).push(folders[i as int].path));
            i = i + 1;
        }
        assert(folders.take(folders.len() as int) =~= folders);
        match &self.device {
            Some(d) => Some(Config::new(d.get_name(), paths)),
            None => None,
        }
    }
}

} // verus!
