//! Loading the driver's shared library and the layout of its chainable
//! structs.
//!
//! The operating-system loader is the one collaborator this module cannot
//! contain: opening a shared library, resolving a symbol and releasing the
//! handle are foreign calls.  The module therefore works on the plain values
//! those calls produce — a handle and the resolved entry points, each an
//! opaque machine-word token where zero stands for null — and states exactly
//! which decision is owed for every such value: which library name to try,
//! when the single-use override is consumed, when construction fails with
//! the open error, and which handle teardown must release.

use crate::util::is_power_of_two;
use crate::util::lemma_align_properties;
use crate::util::spec_align;
use crate::util::align;
use crate::vk;
use vstd::prelude::*;

verus! {

/// Offset of the chain pointer in the structs that can be chained: the
/// structure-type tag size rounded up to pointer alignment, on the
/// supported 64-bit targets.
pub const NEXT_PTR_OFFSET: usize = 8;

/// Offset of the first 32-bit boolean field in the feature structs: the
/// chain pointer's offset plus a pointer, rounded up to the boolean flag's
/// alignment, on the supported 64-bit targets.
pub const FIRST_FEATURE_OFFSET: usize = 16;

/// The chain-pointer offset for a target with the given pointer alignment.
pub open spec fn spec_next_ptr_offset(pointer_align: int) -> int {
    spec_align(vk::STRUCTURE_TYPE_SIZE as int, pointer_align)
}

/// The first-boolean-field offset for a target with the given pointer size
/// and alignment.
pub open spec fn spec_first_feature_offset(pointer_size: int, pointer_align: int) -> int {
    spec_align(spec_next_ptr_offset(pointer_align) + pointer_size, vk::BOOL32_ALIGN as int)
}

/// Compute the chain-pointer offset for a target with the given pointer
/// alignment.
pub fn next_ptr_offset(pointer_align: usize) -> (r: usize)
    requires
        is_power_of_two(pointer_align as int),
        vk::STRUCTURE_TYPE_SIZE + pointer_align <= usize::MAX,
    ensures
        r == spec_next_ptr_offset(pointer_align as int),
{
    align(vk::STRUCTURE_TYPE_SIZE, pointer_align)
}

/// Compute the first-boolean-field offset for a target with the given
/// pointer size and alignment.
pub fn first_feature_offset(pointer_size: usize, pointer_align: usize) -> (r: usize)
    requires
        is_power_of_two(pointer_align as int),
        vk::STRUCTURE_TYPE_SIZE + pointer_align <= usize::MAX,
        spec_next_ptr_offset(pointer_align as int) + pointer_size + vk::BOOL32_ALIGN
            <= usize::MAX,
    ensures
        r == spec_first_feature_offset(pointer_size as int, pointer_align as int),
{
    proof {
        lemma_bool32_align_power_of_two();
    }
    let next_offset = align(vk::STRUCTURE_TYPE_SIZE, pointer_align);
    align(next_offset + pointer_size, vk::BOOL32_ALIGN)
}

/// The boolean flag's alignment is a power of two.
pub proof fn lemma_bool32_align_power_of_two()
    ensures
        is_power_of_two(vk::BOOL32_ALIGN as int),
{
    reveal_with_fuel(is_power_of_two, 3);
}

/// `NEXT_PTR_OFFSET` is the tag size rounded up to pointer alignment; on a
/// target with four-byte pointer alignment the same computation gives four.
pub proof fn lemma_next_ptr_offset()
    ensures
        NEXT_PTR_OFFSET == spec_next_ptr_offset(vk::POINTER_ALIGN as int),
        spec_next_ptr_offset(4) == 4,
{
}

/// `FIRST_FEATURE_OFFSET` is `NEXT_PTR_OFFSET` plus a pointer, rounded up
/// to the boolean flag's alignment.
pub proof fn lemma_first_feature_offset()
    ensures
        FIRST_FEATURE_OFFSET == spec_first_feature_offset(
            vk::POINTER_SIZE as int,
            vk::POINTER_ALIGN as int,
        ),
        FIRST_FEATURE_OFFSET == spec_align(
            NEXT_PTR_OFFSET + vk::POINTER_SIZE,
            vk::BOOL32_ALIGN as int,
        ),
{
}

/// The platform families the library-name table knows.
#[derive(Copy, Clone, Eq, PartialEq, Structural, Debug)]
pub enum Platform {
    Android,
    Unix,
    Windows,
}

/// The canonical file name of the driver's shared library on `platform`.
pub open spec fn spec_library_name(platform: Platform) -> Seq<char> {
    match platform {
        Platform::Android => "libvulkan.so"@,
        Platform::Unix => "libvulkan.so.1"@,
        Platform::Windows => "vulkan-1.dll"@,
    }
}

/// Look up the canonical shared-library file name for `platform`.
pub fn library_name(platform: Platform) -> (r: &'static str)
    ensures
        r@ == spec_library_name(platform),
{
    match platform {
        Platform::Android => "libvulkan.so",
        Platform::Unix => "libvulkan.so.1",
        Platform::Windows => "vulkan-1.dll",
    }
}

/// Why constructing the loader can fail.
#[derive(Debug)]
pub enum Error {
    /// The named shared library could not be opened.
    OpenLibraryFailed(&'static str),
}

impl Error {
    /// The name of the library whose open failed.
    pub open spec fn spec_library(self) -> Seq<char> {
        match self {
            Error::OpenLibraryFailed(lib) => lib@,
        }
    }

    /// The error text a user sees, naming the library that was tried.
    pub fn message(&self) -> (r: String)
        ensures
            r@ == "Error opening "@ + self.spec_library(),
    {
        match self {
            Error::OpenLibraryFailed(lib) => String::from_str("Error opening ").concat(lib),
        }
    }
}

/// What one open-and-resolve step hands construction: the library handle,
/// whether it is a test fake, and the proc-address resolver.  Each token is
/// an opaque machine word in which zero stands for null.
#[derive(Copy, Clone, Eq, PartialEq, Structural, Debug)]
pub struct LoaderFunc {
    pub lib_vulkan: usize,
    pub lib_vulkan_is_fake: bool,
    pub get_instance_proc_addr: usize,
}

/// At most one pending substitute for the real platform open, scoped by its
/// owner (one slot per thread keeps concurrent tests apart) and consumed by
/// the next construction.
#[derive(Eq, PartialEq, Structural, Debug)]
pub struct OverrideSlot {
    pub pending: Option<LoaderFunc>,
}

/// What taking the override yields and leaves: the pending substitute comes
/// out and the slot is cleared.
pub open spec fn spec_take(slot: OverrideSlot) -> (Option<LoaderFunc>, OverrideSlot) {
    (slot.pending, OverrideSlot { pending: None })
}

impl OverrideSlot {
    /// A slot with nothing armed: constructions on it take the real path.
    pub fn empty() -> (r: OverrideSlot)
        ensures
            r.pending is None,
    {
        OverrideSlot { pending: None }
    }

    /// Take the pending substitute and clear the slot: an armed override is
    /// served at most once.
    pub fn take(&mut self) -> (r: Option<LoaderFunc>)
        ensures
            r == spec_take(*old(self)).0,
            *final(self) == spec_take(*old(self)).1,
    {
        let taken = self.pending;
        self.pending = None;
        taken
    }
}

/// The substitute that arming the override stores: the caller's fake handle
/// and resolver, marked fake so teardown skips the real close.
pub open spec fn spec_fake_loader_func(lib: usize, proc_addr: usize) -> LoaderFunc {
    LoaderFunc { lib_vulkan: lib, lib_vulkan_is_fake: true, get_instance_proc_addr: proc_addr }
}

/// Arm `slot` so that the next construction on it uses the given fake
/// handle and resolver instead of opening the real driver library.  The
/// override is used once: the construction that consumes it clears the
/// slot, and later constructions revert to the real platform path.  It is
/// intended for tests that stand up a fake driver.
pub fn override_get_instance_proc_addr(slot: &mut OverrideSlot, lib: usize, proc_addr: usize)
    ensures
        final(slot).pending == Some(spec_fake_loader_func(lib, proc_addr)),
{
    slot.pending = Some(
        LoaderFunc { lib_vulkan: lib, lib_vulkan_is_fake: true, get_instance_proc_addr: proc_addr },
    );
}

/// Judge the real platform open for `platform`: `lib` and
/// `get_instance_proc_addr` are what the open and the symbol lookup
/// returned, zero standing for null.  A null library handle is the one
/// recoverable failure, and the error carries the name that was tried.
pub fn loader_func_from_open(platform: Platform, lib: usize, get_instance_proc_addr: usize) -> (r:
    Result<LoaderFunc, Error>)
    ensures
        r is Err <==> lib == 0,
        lib != 0 ==> r == Ok::<LoaderFunc, Error>(
            (LoaderFunc { lib_vulkan: lib, lib_vulkan_is_fake: false, get_instance_proc_addr }),
        ),
        lib == 0 ==> (r matches Err(e) && e.spec_library() == spec_library_name(platform)),
{
    if lib == 0 {
        Err(Error::OpenLibraryFailed(library_name(platform)))
    } else {
        Ok(LoaderFunc { lib_vulkan: lib, lib_vulkan_is_fake: false, get_instance_proc_addr })
    }
}

/// The constructed loader: the library handle, the flag telling a real
/// handle from a test fake, and the three resolved entry points, each a
/// nonzero opaque token once construction has succeeded.
#[derive(Copy, Clone, Eq, PartialEq, Structural, Debug)]
pub struct Library {
    pub lib_vulkan: usize,
    pub lib_vulkan_is_fake: bool,
    pub vk_get_instance_proc_addr: usize,
    pub vk_create_instance: usize,
    pub vk_enumerate_instance_extension_properties: usize,
}

impl Library {
    /// All three entry points are resolved and non-null.
    pub open spec fn wf(self) -> bool {
        &&& self.vk_get_instance_proc_addr != 0
        &&& self.vk_create_instance != 0
        &&& self.vk_enumerate_instance_extension_properties != 0
    }

    /// The library that one open-and-resolve step constructs.
    pub open spec fn spec_new(
        loader_func: LoaderFunc,
        vk_create_instance: usize,
        vk_enumerate_instance_extension_properties: usize,
    ) -> Library {
        Library {
            lib_vulkan: loader_func.lib_vulkan,
            lib_vulkan_is_fake: loader_func.lib_vulkan_is_fake,
            vk_get_instance_proc_addr: loader_func.get_instance_proc_addr,
            vk_create_instance,
            vk_enumerate_instance_extension_properties,
        }
    }

    /// Assemble the loader from a `LoaderFunc` and the two bootstrap entry
    /// points that were resolved through its proc-address resolver with a
    /// null instance.  The resolver and both bootstrap symbols are
    /// mandatory: a null among them is fatal misuse of the driver, not a
    /// recoverable outcome, so construction only accepts nonzero tokens and
    /// the result always satisfies [`Library::wf`].
    pub fn new(
        loader_func: LoaderFunc,
        vk_create_instance: usize,
        vk_enumerate_instance_extension_properties: usize,
    ) -> (r: Library)
        requires
            loader_func.get_instance_proc_addr != 0,
            vk_create_instance != 0,
            vk_enumerate_instance_extension_properties != 0,
        ensures
            r == Library::spec_new(
                loader_func,
                vk_create_instance,
                vk_enumerate_instance_extension_properties,
            ),
            r.wf(),
    {
        Library {
            lib_vulkan: loader_func.lib_vulkan,
            lib_vulkan_is_fake: loader_func.lib_vulkan_is_fake,
            vk_get_instance_proc_addr: loader_func.get_instance_proc_addr,
            vk_create_instance,
            vk_enumerate_instance_extension_properties,
        }
    }

    /// Which handle teardown must release: the instance's own real handle,
    /// or nothing for a test fake, which the OS loader never produced and
    /// must never be asked to close.
    pub open spec fn spec_close_handle(self) -> Option<usize> {
        if self.lib_vulkan_is_fake {
            None
        } else {
            Some(self.lib_vulkan)
        }
    }

    /// The handle the owner's teardown must hand to the platform close
    /// call, if any.  The guard on the fake flag is load-bearing: closing a
    /// fake against the OS loader would be undefined behaviour.
    pub fn close_handle(&self) -> (r: Option<usize>)
        ensures
            r == self.spec_close_handle(),
    {
        if self.lib_vulkan_is_fake {
            None
        } else {
            Some(self.lib_vulkan)
        }
    }
}

/// Law: an armed override is consumed whole by the next construction, which
/// succeeds on any nonzero stub entry points, keeps the fake handle and the
/// fake flag, and owes teardown no real close.
pub proof fn lemma_override_construction(
    slot: OverrideSlot,
    vk_create_instance: usize,
    vk_enumerate_instance_extension_properties: usize,
)
    requires
        slot.pending matches Some(loader_func) && loader_func.lib_vulkan_is_fake
            && loader_func.get_instance_proc_addr != 0,
        vk_create_instance != 0,
        vk_enumerate_instance_extension_properties != 0,
    ensures
        spec_take(slot).0 == slot.pending,
        spec_take(slot).1.pending is None,
        slot.pending matches Some(loader_func) ==> ({
            let lib = Library::spec_new(
                loader_func,
                vk_create_instance,
                vk_enumerate_instance_extension_properties,
            );
            lib.wf() && lib.lib_vulkan_is_fake && lib.lib_vulkan == loader_func.lib_vulkan
                && lib.spec_close_handle() is None
        }),
{
}

/// Law: the override is single-use — whatever was armed, after one take the
/// slot is empty and a second take on it yields nothing, so the second
/// construction falls through to the real platform path.
pub proof fn lemma_override_single_use(slot: OverrideSlot)
    ensures
        spec_take(slot).1.pending is None,
        spec_take(spec_take(slot).1).0 is None,
{
}

/// Law: instances own independent closes — teardown releases at most the
/// instance's own handle, so releasing one instance never names a handle
/// that only another instance holds.
pub proof fn lemma_independent_close(a: Library, b: Library)
    requires
        a.lib_vulkan != b.lib_vulkan,
    ensures
        a.spec_close_handle() matches Some(h) ==> h == a.lib_vulkan,
        a.spec_close_handle() != Some(b.lib_vulkan),
        b.spec_close_handle() != Some(a.lib_vulkan),
{
}

} // verus!
