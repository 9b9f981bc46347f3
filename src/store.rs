//! The bind interceptor: host control, assembly manager and assembly store.
//! Registered with the runtime before it starts, the triad answers the
//! runtime's resolution callbacks and hands back the in-memory image when the
//! requested identity is the one computed for it. Nothing in it changes after
//! construction, so reentrant callbacks need no care.

use vstd::prelude::*;
use crate::guid::{guid_of, Guid, IID_HOST_ASSEMBLY_MANAGER};

verus! {

/// Status for a request the store does not recognise ("file not found"): the
/// runtime then tries its other resolution paths.
pub const COR_E_FILENOTFOUND: i32 = -2147024894;

/// Status for a capability that the host control does not offer.
pub const E_NOINTERFACE: i32 = -2147467262;

/// Correlation id that the store gives the image it hands back.
pub const ASSEMBLY_ID: u64 = 800;

/// The data the runtime hands the store on each resolution attempt.
#[derive(Debug, Clone)]
pub struct AssemblyBindInfo {
    /// Id of the execution context that asks.
    pub app_domain_id: u32,
    /// Identity of the referenced assembly, before policy.
    pub referenced_identity: String,
    /// Identity after policy: the one the store compares.
    pub post_policy_identity: String,
    /// Level of the policy that was applied.
    pub policy_level: u32,
}

/// The data the runtime hands the store when it asks for a module.
#[derive(Debug, Clone)]
pub struct ModuleBindInfo {
    pub app_domain_id: u32,
    pub assembly_identity: String,
    pub module_name: String,
}

/// What the store hands back for a recognised request: the image to wrap in a
/// fresh memory-backed stream, its correlation id and its context value.
#[derive(Debug)]
pub struct ProvidedAssembly<'a> {
    pub assembly_id: u64,
    pub context: u64,
    pub image: &'a [u8],
}

/// The store's answer, in mathematical terms: the image when the post-policy
/// identity is exactly the stored one, else the declined-binding status.
pub open spec fn store_answer(identity: Seq<char>, image: Seq<u8>, post_policy: Seq<char>) -> Result<
    Seq<u8>,
    i32,
> {
    if post_policy == identity {
        Ok(image)
    } else {
        Err(COR_E_FILENOTFOUND)
    }
}

/// Serves one in-memory image under one identity.
pub struct RustClrStore<'a> {
    buffer: &'a [u8],
    assembly: String,
}

impl<'a> RustClrStore<'a> {
    /// The bytes of the image served.
    pub closed spec fn image(&self) -> Seq<u8> {
        self.buffer@
    }

    /// The identity under which the image is served.
    pub closed spec fn identity(&self) -> Seq<char> {
        self.assembly@
    }

    /// A store for `buffer` under the identity `assembly`.
    pub fn new(buffer: &'a [u8], assembly: String) -> (r: Self)
        ensures
            r.image() == buffer@,
            r.identity() == assembly@,
    {
        RustClrStore { buffer, assembly }
    }

    /// Answers a bind request: on an exact match of the post-policy identity,
    /// the image itself with id `ASSEMBLY_ID` and context zero; otherwise the
    /// declined-binding status.
    pub fn provide_assembly(&self, info: &AssemblyBindInfo) -> (r: Result<ProvidedAssembly<'a>, i32>)
        ensures
            match store_answer(self.identity(), self.image(), info.post_policy_identity@) {
                Ok(img) => (r matches Ok(p) && p.image@ == img && p.assembly_id == ASSEMBLY_ID
                    && p.context == 0),
                Err(e) => (r matches Err(f) && f == e),
            },
    {
        if self.assembly == info.post_policy_identity {
            Ok(ProvidedAssembly { assembly_id: ASSEMBLY_ID, context: 0, image: self.buffer })
        } else {
            Err(COR_E_FILENOTFOUND)
        }
    }

    /// Module requests are always declined: images of several modules are not
    /// served.
    pub fn provide_module(&self, info: &ModuleBindInfo) -> (r: Result<(), i32>)
        ensures
            r == Err::<(), i32>(COR_E_FILENOTFOUND),
    {
        Err(COR_E_FILENOTFOUND)
    }
}

/// Hands the runtime the store.
pub struct RustClrManager<'a> {
    store: RustClrStore<'a>,
}

impl<'a> RustClrManager<'a> {
    /// The store handed out.
    pub closed spec fn store_view(&self) -> RustClrStore<'a> {
        self.store
    }

    /// A manager whose store serves `buffer` under `assembly`.
    pub fn new(buffer: &'a [u8], assembly: String) -> (r: Self)
        ensures
            r.store_view().image() == buffer@,
            r.store_view().identity() == assembly@,
    {
        RustClrManager { store: RustClrStore::new(buffer, assembly) }
    }

    /// The assemblies to load from outside the store: none, everything is
    /// served from the store.
    pub fn get_non_host_store_assemblies(&self) -> (r: Vec<String>)
        ensures
            r@.len() == 0,
    {
        Vec::new()
    }

    /// The store.
    pub fn get_assembly_store(&self) -> (r: &RustClrStore<'a>)
        ensures
            *r == self.store_view(),
    {
        &self.store
    }
}

/// The host control registered with the runtime before it starts.
pub struct RustClrControl<'a> {
    manager: RustClrManager<'a>,
}

impl<'a> RustClrControl<'a> {
    /// The assembly manager handed out.
    pub closed spec fn manager_view(&self) -> RustClrManager<'a> {
        self.manager
    }

    /// A host control whose store serves `buffer` under `assembly`.
    pub fn new(buffer: &'a [u8], assembly: &str) -> (r: Self)
        ensures
            r.manager_view().store_view().image() == buffer@,
            r.manager_view().store_view().identity() == assembly@,
    {
        RustClrControl { manager: RustClrManager::new(buffer, String::from_str(assembly)) }
    }

    /// Answers a request for a host manager: the assembly manager for its
    /// identifier, the not-implemented status for any other.
    pub fn get_host_manager(&self, riid: Guid) -> (r: Result<&RustClrManager<'a>, i32>)
        ensures
            riid == guid_of(IID_HOST_ASSEMBLY_MANAGER) ==> (r matches Ok(m) && *m
                == self.manager_view()),
            riid != guid_of(IID_HOST_ASSEMBLY_MANAGER) ==> (r matches Err(e) && e == E_NOINTERFACE),
    {
        let iid = Guid::from_u128(IID_HOST_ASSEMBLY_MANAGER);
        if riid == iid {
            Ok(&self.manager)
        } else {
            Err(E_NOINTERFACE)
        }
    }

    /// Setting an execution-context manager is accepted and ignored.
    pub fn set_app_domain_manager(&self, app_domain_id: u32) -> (r: Result<(), i32>)
        ensures
            r is Ok,
    {
        Ok(())
    }
}

/// A request for exactly the identity the store was built with is answered
/// with the image, byte for byte.
pub proof fn lemma_store_serves_its_identity(buffer: Seq<u8>, identity: Seq<char>)
    ensures
        store_answer(identity, buffer, identity) == Ok::<Seq<u8>, i32>(buffer),
{
}

/// A request for any other identity is declined with the not-found status,
/// never answered with a value.
pub proof fn lemma_store_declines_other_identity(
    buffer: Seq<u8>,
    identity: Seq<char>,
    requested: Seq<char>,
)
    requires
        requested != identity,
    ensures
        store_answer(identity, buffer, requested) == Err::<Seq<u8>, i32>(COR_E_FILENOTFOUND),
{
}

} // verus!
