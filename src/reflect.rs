//! The reflection invoker's decisions: which binding flags select a member,
//! and how members and assemblies are found by name in the runtime's listings.

use vstd::prelude::*;
use vstd::string::*;
use crate::error::ClrError;

verus! {

/// Flags that control how members are searched for and invoked.
#[derive(Debug, Clone, Copy, PartialEq, Eq, Structural)]
pub enum BindingFlags {
    /// No special options.
    Default,
    /// Case is ignored when names are compared.
    IgnoreCase,
    /// Only members declared by the type itself.
    DeclaredOnly,
    /// Instance members.
    Instance,
    /// Static members.
    Static,
    /// Public members.
    Public,
    /// Non-public members.
    NonPublic,
    /// Inherited static members too.
    FlattenHierarchy,
    /// The member is a method to invoke.
    InvokeMethod,
    /// An instance is created.
    CreateInstance,
    /// The member is a field to read.
    GetField,
    /// The member is a field to write.
    SetField,
    /// The member is a property to read.
    GetProperty,
    /// The member is a property to write.
    SetProperty,
    /// A property of a COM object is set.
    PutDispProperty,
    /// A reference property of a COM object is set.
    PutRefDispProperty,
    /// Argument types must match exactly.
    ExactBinding,
    /// Argument types are not coerced.
    SuppressChangeType,
    /// Optional parameters may be bound.
    OptionalParamBinding,
    /// The return value is ignored.
    IgnoreReturn,
}

/// The bit of each flag in the runtime's encoding.
pub open spec fn flag_bits(f: BindingFlags) -> u32 {
    match f {
        BindingFlags::Default => 0,
        BindingFlags::IgnoreCase => 1,
        BindingFlags::DeclaredOnly => 2,
        BindingFlags::Instance => 4,
        BindingFlags::Static => 8,
        BindingFlags::Public => 16,
        BindingFlags::NonPublic => 32,
        BindingFlags::FlattenHierarchy => 64,
        BindingFlags::InvokeMethod => 256,
        BindingFlags::CreateInstance => 512,
        BindingFlags::GetField => 1024,
        BindingFlags::SetField => 2048,
        BindingFlags::GetProperty => 4096,
        BindingFlags::SetProperty => 8192,
        BindingFlags::PutDispProperty => 16384,
        BindingFlags::PutRefDispProperty => 32768,
        BindingFlags::ExactBinding => 65536,
        BindingFlags::SuppressChangeType => 131072,
        BindingFlags::OptionalParamBinding => 262144,
        BindingFlags::IgnoreReturn => 16777216,
    }
}

impl BindingFlags {
    /// The bit of this flag.
    pub fn bits(self) -> (r: u32)
        ensures
            r == flag_bits(self),
    {
        match self {
            BindingFlags::Default => 0,
            BindingFlags::IgnoreCase => 1,
            BindingFlags::DeclaredOnly => 2,
            BindingFlags::Instance => 4,
            BindingFlags::Static => 8,
            BindingFlags::Public => 16,
            BindingFlags::NonPublic => 32,
            BindingFlags::FlattenHierarchy => 64,
            BindingFlags::InvokeMethod => 256,
            BindingFlags::CreateInstance => 512,
            BindingFlags::GetField => 1024,
            BindingFlags::SetField => 2048,
            BindingFlags::GetProperty => 4096,
            BindingFlags::SetProperty => 8192,
            BindingFlags::PutDispProperty => 16384,
            BindingFlags::PutRefDispProperty => 32768,
            BindingFlags::ExactBinding => 65536,
            BindingFlags::SuppressChangeType => 131072,
            BindingFlags::OptionalParamBinding => 262144,
            BindingFlags::IgnoreReturn => 16777216,
        }
    }

    /// The combination of two flags.
    pub fn bitor(self, rhs: BindingFlags) -> (r: u32)
        ensures
            r == flag_bits(self) | flag_bits(rhs),
    {
        self.bits() | rhs.bits()
    }
}

/// Whether a member is static or belongs to an instance.
#[derive(Debug, Clone, Copy, PartialEq, Eq, Structural)]
pub enum Invocation {
    Static,
    Instance,
}

/// Whether a member is a method or a property.
#[derive(Debug, Clone, Copy, PartialEq, Eq, Structural)]
pub enum MemberKind {
    Method,
    Property,
}

/// The flags of an invocation: public, the scope, and the member kind.
pub open spec fn invoke_flags_spec(kind: MemberKind, invocation: Invocation) -> u32 {
    let scope = match invocation {
        Invocation::Static => flag_bits(BindingFlags::Static),
        Invocation::Instance => flag_bits(BindingFlags::Instance),
    };
    let selector = match kind {
        MemberKind::Method => flag_bits(BindingFlags::InvokeMethod),
        MemberKind::Property => flag_bits(BindingFlags::GetProperty),
    };
    flag_bits(BindingFlags::Public) | scope | selector
}

/// The flags that select a public member of the given kind and scope.
pub fn invoke_flags(kind: MemberKind, invocation: Invocation) -> (r: u32)
    ensures
        r == invoke_flags_spec(kind, invocation),
{
    let scope = match invocation {
        Invocation::Static => BindingFlags::Static.bits(),
        Invocation::Instance => BindingFlags::Instance.bits(),
    };
    let selector = match kind {
        MemberKind::Method => BindingFlags::InvokeMethod.bits(),
        MemberKind::Property => BindingFlags::GetProperty.bits(),
    };
    BindingFlags::Public.bits() | scope | selector
}

/// The flags that list every public method, static or not, inherited
/// statics included.
pub fn method_listing_flags() -> (r: u32)
    ensures
        r == flag_bits(BindingFlags::Public) | flag_bits(BindingFlags::Instance) | flag_bits(
            BindingFlags::Static,
        ) | flag_bits(BindingFlags::FlattenHierarchy),
{
    BindingFlags::Public.bits() | BindingFlags::Instance.bits() | BindingFlags::Static.bits()
        | BindingFlags::FlattenHierarchy.bits()
}

/// The error for a member of the given kind that cannot be found.
pub open spec fn not_found(kind: MemberKind) -> ClrError {
    match kind {
        MemberKind::Method => ClrError::MethodNotFound,
        MemberKind::Property => ClrError::PropertyNotFound,
    }
}

/// The error for a member of the given kind that cannot be found.
pub fn not_found_error(kind: MemberKind) -> (r: ClrError)
    ensures
        r == not_found(kind),
{
    match kind {
        MemberKind::Method => ClrError::MethodNotFound,
        MemberKind::Property => ClrError::PropertyNotFound,
    }
}

/// Outcome of asking the runtime for a member of the given kind: a success
/// status with a member found, else the not-found error of that kind, so that
/// a name that exists only as a property never resolves as a method.
pub fn member_outcome(kind: MemberKind, status: i32, found: bool) -> (r: Result<(), ClrError>)
    ensures
        status == 0 && found ==> r is Ok,
        !(status == 0 && found) ==> r == Err::<(), ClrError>(not_found(kind)),
{
    if status == 0 && found {
        Ok(())
    } else {
        Err(not_found_error(kind))
    }
}

/// One member of a type's listing: its name (or printed signature) and kind.
#[derive(Debug, Clone)]
pub struct MemberEntry {
    pub name: String,
    pub kind: MemberKind,
}

/// Whether an entry is a member of that name and kind.
pub open spec fn entry_matches(e: MemberEntry, name: Seq<char>, kind: MemberKind) -> bool {
    e.name@ == name && e.kind == kind
}

/// The first entry of that name and kind, or the not-found error of the kind.
pub open spec fn member_lookup(entries: Seq<MemberEntry>, name: Seq<char>, kind: MemberKind) -> Result<
    int,
    ClrError,
>
    decreases entries.len(),
{
    if entries.len() == 0 {
        Err(not_found(kind))
    } else {
        match member_lookup(entries.drop_last(), name, kind) {
            Ok(i) => Ok(i),
            Err(e) => if entry_matches(entries.last(), name, kind) {
                Ok(entries.len() - 1)
            } else {
                Err(e)
            },
        }
    }
}

/// Finds the first member of the given name (or printed signature) and kind
/// in a listing.
pub fn find_member(entries: &Vec<MemberEntry>, name: &str, kind: MemberKind) -> (r: Result<
    usize,
    ClrError,
>)
    ensures
        match member_lookup(entries@, name@, kind) {
            Ok(i) => r == Ok::<usize, ClrError>(i as usize),
            Err(e) => r == Err::<usize, ClrError>(e),
        },
{
    let wanted = String::from_str(name);
    let mut i: usize = 0;
    while i < entries.len()
        invariant
            i <= entries@.len(),
            wanted@ == name@,
            member_lookup(entries@.subrange(0, i as int), name@, kind) == Err::<int, ClrError>(
                not_found(kind),
            ),
        decreases entries@.len() - i,
    {
        assert(entries@.subrange(0, i + 1).drop_last() =~= entries@.subrange(0, i as int));
        if entries[i].name == wanted && entries[i].kind == kind {
            proof {
                lemma_lookup_prefix(entries@, name@, kind, i as int);
            }
            return Ok(i);
        }
        i += 1;
    }
    assert(entries@.subrange(0, i as int) =~= entries@);
    Err(not_found_error(kind))
}

/// A match in a prefix is the match of the whole listing.
proof fn lemma_lookup_prefix(entries: Seq<MemberEntry>, name: Seq<char>, kind: MemberKind, i: int)
    requires
        0 <= i < entries.len(),
        member_lookup(entries.subrange(0, i), name, kind) is Err,
        entry_matches(entries[i], name, kind),
    ensures
        member_lookup(entries, name, kind) == Ok::<int, ClrError>(i),
    decreases entries.len(),
{
    if entries.len() == i + 1 {
        assert(entries.drop_last() =~= entries.subrange(0, i));
    } else {
        assert(entries.drop_last().subrange(0, i) =~= entries.subrange(0, i));
        lemma_lookup_prefix(entries.drop_last(), name, kind, i);
    }
}

/// Resolving, as a method, a name that the listing holds only as properties
/// fails with the method-not-found error, never with a property.
pub proof fn lemma_property_is_no_method(entries: Seq<MemberEntry>, name: Seq<char>)
    requires
        forall|i: int| 0 <= i < entries.len() && #[trigger] entries[i].name@ == name
            ==> entries[i].kind == MemberKind::Property,
    ensures
        member_lookup(entries, name, MemberKind::Method) == Err::<int, ClrError>(
            ClrError::MethodNotFound,
        ),
    decreases entries.len(),
{
    if entries.len() > 0 {
        let front = entries.drop_last();
        assert forall|i: int| 0 <= i < front.len() && #[trigger] front[i].name@ == name
            implies front[i].kind == MemberKind::Property by {
            assert(front[i] == entries[i]);
            assert(entries[i].name@ == name);
        }
        lemma_property_is_no_method(front, name);
        assert(entries.last() == entries[entries.len() - 1]);
    }
}

/// Whether `needle` occurs in `hay` as a contiguous run.
pub open spec fn contains_spec(hay: Seq<char>, needle: Seq<char>) -> bool {
    exists|k: int| 0 <= k && k + needle.len() <= hay.len() && #[trigger] hay.subrange(k, k + needle.len()) == needle
}

/// Whether `needle` occurs in `hay` at position `k`.
fn occurs_at(hay: &str, needle: &str, k: usize) -> (r: bool)
    requires
        k + needle@.len() <= hay@.len(),
    ensures
        r == (hay@.subrange(k as int, k + needle@.len()) == needle@),
{
    let n = needle.unicode_len();
    let h = hay.unicode_len();
    let mut j: usize = 0;
    while j < n
        invariant
            n == needle@.len(),
            h == hay@.len(),
            k + n <= hay@.len(),
            j <= n,
            forall|t: int| 0 <= t < j ==> hay@[k + t] == needle@[t],
        decreases n - j,
    {
        if hay.get_char(k + j) != needle.get_char(j) {
            assert(hay@.subrange(k as int, k + n)[j as int] != needle@[j as int]);
            return false;
        }
        j += 1;
    }
    assert(hay@.subrange(k as int, k + n) =~= needle@);
    true
}

/// Whether `needle` occurs in `hay`.
pub fn contains(hay: &str, needle: &str) -> (r: bool)
    ensures
        r == contains_spec(hay@, needle@),
{
    let h = hay.unicode_len();
    let n = needle.unicode_len();
    if n > h {
        return false;
    }
    if n == 0 {
        assert(hay@.subrange(0, 0 + needle@.len() as int) =~= needle@);
        return true;
    }
    let mut k: usize = 0;
    while k <= h - n
        invariant
            h == hay@.len(),
            n == needle@.len(),
            0 < n <= h,
            k <= h - n + 1,
            forall|t: int| 0 <= t < k ==> #[trigger] hay@.subrange(t, t + n) != needle@,
        decreases h - n + 1 - k,
    {
        if occurs_at(hay, needle, k) {
            return true;
        }
        k += 1;
    }
    false
}

/// Finds the first loaded assembly whose display name contains `wanted`.
pub fn find_assembly(names: &Vec<String>, wanted: &str) -> (r: Result<usize, ClrError>)
    ensures
        match r {
            Ok(i) => i < names@.len() && contains_spec(names@[i as int]@, wanted@) && forall|j: int|
                0 <= j < i ==> !contains_spec(#[trigger] names@[j]@, wanted@),
            Err(e) => e == ClrError::GenericError("Assembly Not Found") && forall|j: int|
                0 <= j < names@.len() ==> !contains_spec(#[trigger] names@[j]@, wanted@),
        },
{
    let mut i: usize = 0;
    while i < names.len()
        invariant
            i <= names@.len(),
            forall|j: int| 0 <= j < i ==> !contains_spec(#[trigger] names@[j]@, wanted@),
        decreases names@.len() - i,
    {
        if contains(names[i].as_str(), wanted) {
            return Ok(i);
        }
        i += 1;
    }
    Err(ClrError::GenericError("Assembly Not Found"))
}

} // verus!
