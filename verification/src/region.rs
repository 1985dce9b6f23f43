//! Location of the executable code region of a module among the objects
//! that the dynamic loader has mapped: which object is the target, and
//! which of its segments holds the code.
//!
//! The loaded objects and their program headers are handed in as plain
//! values.

use vstd::prelude::*;
use crate::bytes::{
    basename, basename_offset, contains, ends_with, ends_with_spec, equals, tail_equals, SLASH,
};

verus! {

/// The executable code of a module in memory: `size` bytes from address
/// `start`.
#[derive(Clone, Copy, Debug, PartialEq, Eq, Structural)]
pub struct TextMapRange {
    pub start: usize,
    pub size: usize,
}

/// Why no code region was found.
#[derive(Clone, Copy, Debug, PartialEq, Eq, Structural)]
pub enum RegionError {
    /// No loaded object is the target module.
    ModuleNotFound,
    /// The target module has no executable segment or section, or one that
    /// is empty or does not fit the address space.
    NoExecutableSection,
    /// The image's headers do not lie where their fields can be read in
    /// place.
    MisplacedHeaders,
    /// The image's headers could not be read.
    UnreadableImage,
}

/// The type of a program header that describes a loadable segment.
pub const PT_LOAD: u32 = 1;

/// The flag of a segment that may be executed.
pub const PF_X: u32 = 1;

/// One program header of a loaded object.
#[derive(Clone, Copy, Debug, PartialEq, Eq, Structural)]
pub struct ProgramHeader {
    pub kind: u32,
    pub flags: u32,
    /// The segment's address, relative to the object's base.
    pub vaddr: usize,
    /// The segment's size in memory.
    pub memsz: usize,
}

/// One object that the dynamic loader has mapped.
#[derive(Debug)]
pub struct LoadedObject {
    /// The file name that the loader reports; `None` or empty for the main
    /// executable.
    pub name: Option<Vec<u8>>,
    /// The address at which the object is loaded.
    pub base: usize,
    pub headers: Vec<ProgramHeader>,
    /// The loader's handle for this object, 0 where it has none.
    pub handle: usize,
}

/// The module whose code is wanted.
#[derive(Debug)]
pub enum TargetModule {
    /// The main executable, or an object of this file name.
    Executable { name: Vec<u8> },
    /// The shared library that the loader knows by this handle.
    Library { handle: usize },
}

impl TextMapRange {
    /// The region does not reach past the end of the address space.
    pub open spec fn wf(self) -> bool {
        self.start + self.size <= usize::MAX
    }

    /// The region of `size` bytes at `start`, unless it would reach past
    /// the end of the address space.
    pub fn new(start: usize, size: usize) -> (range: Option<TextMapRange>)
        ensures
            start + size <= usize::MAX ==> range == Some(TextMapRange { start, size }),
            start + size > usize::MAX ==> range is None,
    {
        match start.checked_add(size) {
            Some(_) => Some(TextMapRange { start, size }),
            None => None,
        }
    }

    /// Whether `addr` lies in the region.
    pub fn contains(&self, addr: usize) -> (inside: bool)
        ensures
            inside == (self.start <= addr < self.start + self.size),
    {
        self.start <= addr && addr - self.start < self.size
    }
}

/// The bytes of `.so`, the ending of a shared library's file name.
pub open spec fn library_suffix() -> Seq<u8> {
    seq![0x2Eu8, 0x73u8, 0x6Fu8]
}

/// A target names an executable rather than a shared library where a file
/// of that name is present, or where it is a bare name that does not end
/// in `.so`.
pub open spec fn names_executable_spec(target: Seq<u8>, present: bool) -> bool {
    present || (!ends_with_spec(target, library_suffix()) && !target.contains(SLASH))
}

/// Decides whether a target names an executable or a shared library.
/// `present` says whether a file of the target's name was found.
pub fn names_executable(target: &[u8], present: bool) -> (yes: bool)
    ensures
        yes == names_executable_spec(target@, present),
{
    if present {
        return true;
    }
    let suffix: [u8; 3] = [0x2E, 0x73, 0x6F];
    !ends_with(target, suffix.as_slice()) && !contains(target, SLASH)
}

/// The object has the name of the main executable: none, or an empty one.
pub open spec fn is_main_executable(name: Option<Vec<u8>>) -> bool {
    match name {
        None => true,
        Some(n) => n@.len() == 0,
    }
}

/// The object's file name is `target`, in full or by its base name.
pub open spec fn matches_name(name: Option<Vec<u8>>, target: Seq<u8>) -> bool {
    match name {
        None => false,
        Some(n) => n@ == target || basename(n@) == target,
    }
}

/// The object is the target module.
pub open spec fn is_target(object: LoadedObject, target: TargetModule) -> bool {
    match target {
        TargetModule::Executable { name } => is_main_executable(object.name) || matches_name(
            object.name,
            name@,
        ),
        TargetModule::Library { handle } => object.name is Some && object.handle != 0
            && object.handle == handle,
    }
}

/// The header describes a loadable segment that may be executed.
pub open spec fn is_executable_segment(header: ProgramHeader) -> bool {
    header.kind == PT_LOAD && header.flags & PF_X != 0
}

/// The index of the first target module among `objects` from index `from`
/// on; the length of `objects` where there is none.
pub open spec fn first_target(objects: Seq<LoadedObject>, target: TargetModule, from: int) -> int
    decreases objects.len() - from,
{
    if from < 0 || from >= objects.len() {
        objects.len() as int
    } else if is_target(objects[from], target) {
        from
    } else {
        first_target(objects, target, from + 1)
    }
}

/// The index of the first executable segment among `headers` from index
/// `from` on; the length of `headers` where there is none.
pub open spec fn first_executable(headers: Seq<ProgramHeader>, from: int) -> int
    decreases headers.len() - from,
{
    if from < 0 || from >= headers.len() {
        headers.len() as int
    } else if is_executable_segment(headers[from]) {
        from
    } else {
        first_executable(headers, from + 1)
    }
}

/// The region of a segment of an object loaded at `base`, where it is not
/// empty, does not start at address 0 and fits the address space.
pub open spec fn segment_region(base: usize, header: ProgramHeader) -> Option<TextMapRange> {
    let start = base + header.vaddr;
    if 0 < start && 0 < header.memsz && start + header.memsz <= usize::MAX {
        Some(TextMapRange { start: start as usize, size: header.memsz })
    } else {
        None
    }
}

/// The code region of the target module: the first executable segment of
/// the first object that is the target.
pub open spec fn code_region_spec(objects: Seq<LoadedObject>, target: TargetModule) -> Result<
    TextMapRange,
    RegionError,
> {
    let i = first_target(objects, target, 0);
    if (target matches TargetModule::Library { handle } && handle == 0) || i >= objects.len() {
        Err(RegionError::ModuleNotFound)
    } else {
        let headers = objects[i].headers@;
        let j = first_executable(headers, 0);
        if j >= headers.len() {
            Err(RegionError::NoExecutableSection)
        } else {
            match segment_region(objects[i].base, headers[j]) {
                Some(range) => Ok(range),
                None => Err(RegionError::NoExecutableSection),
            }
        }
    }
}

/// The first target module comes before every other: no object before it
/// is the target, and it is the target unless there is none.
pub proof fn lemma_first_target_is_least(objects: Seq<LoadedObject>, target: TargetModule, from: int)
    requires
        0 <= from <= objects.len(),
    ensures
        from <= first_target(objects, target, from) <= objects.len(),
        first_target(objects, target, from) < objects.len() ==> is_target(
            objects[first_target(objects, target, from)],
            target,
        ),
        forall|k: int|
            from <= k < first_target(objects, target, from) ==> !is_target(
                #[trigger] objects[k],
                target,
            ),
    decreases objects.len() - from,
{
    if from < objects.len() && !is_target(objects[from], target) {
        lemma_first_target_is_least(objects, target, from + 1);
    }
}

/// The first executable segment comes before every other: no header
/// before it is one, and it is one unless there is none.
pub proof fn lemma_first_executable_is_least(headers: Seq<ProgramHeader>, from: int)
    requires
        0 <= from <= headers.len(),
    ensures
        from <= first_executable(headers, from) <= headers.len(),
        first_executable(headers, from) < headers.len() ==> is_executable_segment(
            headers[first_executable(headers, from)],
        ),
        forall|k: int|
            from <= k < first_executable(headers, from) ==> !is_executable_segment(
                #[trigger] headers[k],
            ),
    decreases headers.len() - from,
{
    if from < headers.len() && !is_executable_segment(headers[from]) {
        lemma_first_executable_is_least(headers, from + 1);
    }
}

/// A code region that is found is not empty, does not start at address 0
/// and does not reach past the end of the address space.
pub proof fn lemma_code_region_is_sound(objects: Seq<LoadedObject>, target: TargetModule)
    ensures
        code_region_spec(objects, target) matches Ok(range) ==> range.wf() && range.start > 0
            && range.size > 0,
{
}

/// Whether a loaded object is the target module.
pub fn object_is_target(object: &LoadedObject, target: &TargetModule) -> (yes: bool)
    ensures
        yes == is_target(*object, *target),
{
    match target {
        TargetModule::Executable { name } => {
            match &object.name {
                None => true,
                Some(n) => {
                    if n.len() == 0 {
                        true
                    } else if equals(n.as_slice(), name.as_slice()) {
                        true
                    } else {
                        let at: usize = basename_offset(n.as_slice());
                        tail_equals(n.as_slice(), at, name.as_slice())
                    }
                },
            }
        },
        TargetModule::Library { handle } => {
            object.name.is_some() && object.handle != 0 && object.handle == *handle
        },
    }
}

/// The first executable segment among the program headers, if there is
/// one.
pub fn find_executable_segment(headers: &[ProgramHeader]) -> (found: Option<usize>)
    ensures
        match found {
            Some(j) => j < headers@.len() && j == first_executable(headers@, 0),
            None => first_executable(headers@, 0) == headers@.len(),
        },
{
    let mut j: usize = 0;
    while j < headers.len()
        invariant
            j <= headers@.len(),
            first_executable(headers@, 0) == first_executable(headers@, j as int),
        decreases headers@.len() - j,
    {
        let header: ProgramHeader = headers[j];
        if header.kind == PT_LOAD && header.flags & PF_X != 0 {
            return Some(j);
        }
        j = j + 1;
    }
    None
}

/// Finds the executable code region of the target module among the loaded
/// objects.
pub fn find_code_region(objects: &[LoadedObject], target: &TargetModule) -> (found: Result<
    TextMapRange,
    RegionError,
>)
    ensures
        found == code_region_spec(objects@, *target),
        found matches Ok(range) ==> range.wf(),
{
    if let TargetModule::Library { handle } = target {
        if *handle == 0 {
            return Err(RegionError::ModuleNotFound);
        }
    }
    let mut i: usize = 0;
    while i < objects.len()
        invariant
            i <= objects@.len(),
            first_target(objects@, *target, 0) == first_target(objects@, *target, i as int),
            !(*target matches TargetModule::Library { handle } && handle == 0),
        decreases objects@.len() - i,
    {
        let object: &LoadedObject = &objects[i];
        if object_is_target(object, target) {
            let j: usize = match find_executable_segment(object.headers.as_slice()) {
                Some(j) => j,
                None => {
                    return Err(RegionError::NoExecutableSection);
                },
            };
            let header: ProgramHeader = object.headers[j];
            let start: usize = match object.base.checked_add(header.vaddr) {
                Some(start) => start,
                None => {
                    return Err(RegionError::NoExecutableSection);
                },
            };
            if start == 0 || header.memsz == 0 {
                return Err(RegionError::NoExecutableSection);
            }
            return match TextMapRange::new(start, header.memsz) {
                Some(range) => Ok(range),
                None => Err(RegionError::NoExecutableSection),
            };
        }
        i = i + 1;
    }
    Err(RegionError::ModuleNotFound)
}

} // verus!
