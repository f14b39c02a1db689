use vkrunner::vulkan_funcs::library_name;
use vkrunner::vulkan_funcs::loader_func_from_open;
use vkrunner::vulkan_funcs::override_get_instance_proc_addr;
use vkrunner::vulkan_funcs::Error;
use vkrunner::vulkan_funcs::Library;
use vkrunner::vulkan_funcs::LoaderFunc;
use vkrunner::vulkan_funcs::OverrideSlot;
use vkrunner::vulkan_funcs::Platform;

const FAKE_HANDLE: usize = 0x1234;
const FAKE_RESOLVER: usize = 0x5678;
const STUB_CREATE_INSTANCE: usize = 0x9ab0;
const STUB_ENUMERATE: usize = 0xcde0;

#[test]
fn library_name_table() {
    assert_eq!(library_name(Platform::Android), "libvulkan.so");
    assert_eq!(library_name(Platform::Unix), "libvulkan.so.1");
    assert_eq!(library_name(Platform::Windows), "vulkan-1.dll");
}

#[test]
fn armed_override_builds_fake_library_without_real_close() {
    let mut slot = OverrideSlot::empty();
    override_get_instance_proc_addr(&mut slot, FAKE_HANDLE, FAKE_RESOLVER);

    let loader_func = slot.take().expect("armed override must be served");
    assert_eq!(loader_func.lib_vulkan, FAKE_HANDLE);
    assert!(loader_func.lib_vulkan_is_fake);
    assert_eq!(loader_func.get_instance_proc_addr, FAKE_RESOLVER);

    let library = Library::new(loader_func, STUB_CREATE_INSTANCE, STUB_ENUMERATE);
    assert!(library.lib_vulkan_is_fake);
    assert_eq!(library.lib_vulkan, FAKE_HANDLE);
    assert_eq!(library.vk_get_instance_proc_addr, FAKE_RESOLVER);
    assert_eq!(library.vk_create_instance, STUB_CREATE_INSTANCE);
    assert_eq!(
        library.vk_enumerate_instance_extension_properties,
        STUB_ENUMERATE,
    );

    // Teardown owes the OS nothing for a fake handle.
    assert_eq!(library.close_handle(), None);
}

#[test]
fn consumed_override_falls_through_to_real_path() {
    let mut slot = OverrideSlot::empty();
    override_get_instance_proc_addr(&mut slot, FAKE_HANDLE, FAKE_RESOLVER);

    let first = slot.take();
    assert!(first.is_some());

    // The override was single-use: the second construction attempt sees an
    // empty slot and must try the real platform open.
    let second = slot.take();
    assert!(second.is_none());

    // With no real driver present the open hands back null, and the real
    // path fails with the open error, not with any reused fake state.
    let result = loader_func_from_open(Platform::Unix, 0, 0);
    match result {
        Err(Error::OpenLibraryFailed(name)) => assert_eq!(name, "libvulkan.so.1"),
        Ok(_) => panic!("a null handle must not produce a loader func"),
    }
}

#[test]
fn open_failure_carries_the_exact_name() {
    for platform in [Platform::Android, Platform::Unix, Platform::Windows] {
        let result = loader_func_from_open(platform, 0, FAKE_RESOLVER);
        match result {
            Err(Error::OpenLibraryFailed(name)) => {
                assert_eq!(name, library_name(platform));
            }
            Ok(_) => panic!("a null handle must not produce a loader func"),
        }
    }
}

#[test]
fn successful_open_is_real_and_keeps_the_handle() {
    let result = loader_func_from_open(Platform::Windows, 0x77, FAKE_RESOLVER);
    let loader_func = result.expect("a non-null handle must succeed");
    assert_eq!(loader_func.lib_vulkan, 0x77);
    assert!(!loader_func.lib_vulkan_is_fake);
    assert_eq!(loader_func.get_instance_proc_addr, FAKE_RESOLVER);
}

#[test]
fn error_message_names_the_library() {
    let error = Error::OpenLibraryFailed("libvulkan.so.1");
    assert_eq!(error.message(), "Error opening libvulkan.so.1");
}

#[test]
fn two_instances_close_independently() {
    let first = Library::new(
        LoaderFunc {
            lib_vulkan: 0x100,
            lib_vulkan_is_fake: false,
            get_instance_proc_addr: 0x11,
        },
        0x12,
        0x13,
    );
    let second = Library::new(
        LoaderFunc {
            lib_vulkan: 0x200,
            lib_vulkan_is_fake: false,
            get_instance_proc_addr: 0x21,
        },
        0x22,
        0x23,
    );

    // Each instance owns its own close; neither names the other's handle.
    assert_eq!(first.close_handle(), Some(0x100));
    assert_eq!(second.close_handle(), Some(0x200));

    // Releasing one leaves the other's resolved entry points untouched.
    drop(first);
    assert_eq!(second.vk_get_instance_proc_addr, 0x21);
    assert_eq!(second.vk_create_instance, 0x22);
    assert_eq!(second.vk_enumerate_instance_extension_properties, 0x23);
    assert_eq!(second.close_handle(), Some(0x200));
}
