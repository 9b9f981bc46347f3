use rustclr::guid::{Guid, IID_HOST_ASSEMBLY_MANAGER, IID_HOST_ASSEMBLY_STORE, CLSID_CLR_META_HOST};
use rustclr::identity::{identity_from_buffer, identity_step, IdentityStep, E_INSUFFICIENT_BUFFER, IDENTITY_CAPACITY};
use rustclr::error::ClrError;
use rustclr::store::{
    AssemblyBindInfo, ModuleBindInfo, RustClrControl, RustClrManager, RustClrStore, ASSEMBLY_ID,
    COR_E_FILENOTFOUND, E_NOINTERFACE,
};

const IDENTITY: &str = "Hello, Version=1.0.0.0, Culture=neutral, PublicKeyToken=null, processorArchitecture=MSIL";

fn bind(post: &str) -> AssemblyBindInfo {
    AssemblyBindInfo {
        app_domain_id: 2,
        referenced_identity: String::from("Hello"),
        post_policy_identity: String::from(post),
        policy_level: 0,
    }
}

#[test]
fn store_serves_matching_identity_byte_for_byte() {
    let image = vec![0x4d, 0x5a, 0x90, 0x00, 0x03];
    let store = RustClrStore::new(&image, String::from(IDENTITY));
    let served = store.provide_assembly(&bind(IDENTITY)).unwrap();
    assert_eq!(served.image, &image[..]);
    assert_eq!(served.assembly_id, ASSEMBLY_ID);
    assert_eq!(served.assembly_id, 800);
    assert_eq!(served.context, 0);
}

#[test]
fn store_declines_other_identity() {
    let image = vec![1, 2, 3];
    let store = RustClrStore::new(&image, String::from(IDENTITY));
    assert_eq!(store.provide_assembly(&bind("Other, Version=1.0.0.0")).err(), Some(COR_E_FILENOTFOUND));
    assert_eq!(COR_E_FILENOTFOUND as u32, 0x80070002);
    // only exact matches count: a prefix or a case change is declined
    assert!(store.provide_assembly(&bind("Hello")).is_err());
    assert!(store.provide_assembly(&bind(&IDENTITY.to_lowercase())).is_err());
}

#[test]
fn store_declines_modules() {
    let image = vec![1];
    let store = RustClrStore::new(&image, String::from(IDENTITY));
    let info = ModuleBindInfo { app_domain_id: 1, assembly_identity: String::from(IDENTITY), module_name: String::from("m") };
    assert_eq!(store.provide_module(&info), Err(COR_E_FILENOTFOUND));
}

#[test]
fn store_is_unchanged_by_repeated_requests() {
    let image = vec![7, 7];
    let store = RustClrStore::new(&image, String::from(IDENTITY));
    assert!(store.provide_assembly(&bind("x")).is_err());
    assert_eq!(store.provide_assembly(&bind(IDENTITY)).unwrap().image, &[7, 7][..]);
    assert_eq!(store.provide_assembly(&bind(IDENTITY)).unwrap().image, &[7, 7][..]);
}

#[test]
fn manager_and_control_chain() {
    let image = vec![9, 8, 7];
    let control = RustClrControl::new(&image, IDENTITY);
    let manager = control.get_host_manager(Guid::from_u128(IID_HOST_ASSEMBLY_MANAGER)).unwrap();
    assert!(manager.get_non_host_store_assemblies().is_empty());
    let store = manager.get_assembly_store();
    assert_eq!(store.provide_assembly(&bind(IDENTITY)).unwrap().image, &[9, 8, 7][..]);
    assert_eq!(control.set_app_domain_manager(1), Ok(()));
}

#[test]
fn control_declines_other_managers() {
    let image = vec![1];
    let control = RustClrControl::new(&image, IDENTITY);
    let r = control.get_host_manager(Guid::from_u128(IID_HOST_ASSEMBLY_STORE));
    assert_eq!(r.err(), Some(E_NOINTERFACE));
    assert_eq!(E_NOINTERFACE as u32, 0x80004002);
}

#[test]
fn manager_new_serves_its_store() {
    let image = vec![5];
    let m = RustClrManager::new(&image, String::from("A"));
    assert!(m.get_assembly_store().provide_assembly(&bind("A")).is_ok());
}

#[test]
fn guid_fields() {
    let g = Guid::from_u128(CLSID_CLR_META_HOST);
    assert_eq!(g.data1, 0x9280188d);
    assert_eq!(g.data2, 0x0e8e);
    assert_eq!(g.data3, 0x4867);
    assert_eq!(g.data4, 0xb30c_7fa8_3884_e8de);
    let m = Guid::from_u128(IID_HOST_ASSEMBLY_MANAGER);
    assert_eq!((m.data1, m.data2, m.data3), (0x613dabd7, 0x62b2, 0x493e));
}

#[test]
fn identity_steps() {
    assert_eq!(identity_step(0, 10, IDENTITY_CAPACITY, false), IdentityStep::Read);
    assert_eq!(identity_step(E_INSUFFICIENT_BUFFER, 4096, 2048, false), IdentityStep::Grow(4096));
    assert_eq!(
        identity_step(E_INSUFFICIENT_BUFFER, 8192, 4096, true),
        IdentityStep::Fail(ClrError::ApiError("GetBindingIdentityFromStream", E_INSUFFICIENT_BUFFER))
    );
    assert_eq!(
        identity_step(-5, 0, 2048, false),
        IdentityStep::Fail(ClrError::ApiError("GetBindingIdentityFromStream", -5))
    );
}

#[test]
fn identity_read_from_buffer() {
    let mut buf = vec![0u16; 16];
    for (i, u) in "Abc".encode_utf16().enumerate() {
        buf[i] = u;
    }
    assert_eq!(identity_from_buffer(&buf, 4), Ok(String::from("Abc")));
    assert_eq!(identity_from_buffer(&buf, 1), Ok(String::new()));
    assert!(identity_from_buffer(&buf, 0).is_err());
    assert!(identity_from_buffer(&buf, 17).is_err());
}
